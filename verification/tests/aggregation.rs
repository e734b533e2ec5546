use github_star_counter::{
    count_stars, get_stats, render_output, Error, OwnerApi, PageFetcher, Repo, RepoOwner, User,
};

fn repo(name: &str, stars: usize, owner: &str) -> Repo {
    Repo {
        stargazers_count: stars,
        name: name.to_string(),
        owner: RepoOwner { login: owner.to_string() },
    }
}

fn numbered_repos(n: usize, owner: &str) -> Vec<Repo> {
    (0..n).map(|i| repo(&format!("repo{}", i), i, owner)).collect()
}

/// A canned data source: account records, their repositories, and the
/// failures to inject.
#[derive(Clone)]
struct MockApi {
    repos: Vec<(String, Vec<Repo>)>,
    orgs: Result<Vec<String>, Error>,
    fail_resolve: Vec<String>,
    fail_pages_for: Vec<String>,
    fetch_calls: usize,
    resolve_calls: usize,
    list_calls: usize,
}

impl MockApi {
    fn new(repos: Vec<(String, Vec<Repo>)>, orgs: Result<Vec<String>, Error>) -> Self {
        MockApi {
            repos,
            orgs,
            fail_resolve: Vec::new(),
            fail_pages_for: Vec::new(),
            fetch_calls: 0,
            resolve_calls: 0,
            list_calls: 0,
        }
    }
}

impl OwnerApi for MockApi {
    fn resolve_owner(&mut self, login: &str) -> Result<User, Error> {
        self.resolve_calls += 1;
        if self.fail_resolve.iter().any(|l| l == login) {
            return Err(Error::ApiFailure);
        }
        match self.repos.iter().find(|(l, _)| l == login) {
            Some((l, repos)) => Ok(User { login: l.clone(), public_repos: repos.len() }),
            None => Err(Error::ApiFailure),
        }
    }

    fn list_organizations(&mut self, _login: &str) -> Result<Vec<String>, Error> {
        self.list_calls += 1;
        self.orgs.clone()
    }
}

impl PageFetcher for MockApi {
    fn fetch_page(
        &mut self,
        user: &User,
        page_size: usize,
        page_number: usize,
    ) -> Result<Vec<Repo>, Error> {
        self.fetch_calls += 1;
        if self.fail_pages_for.iter().any(|l| l == &user.login) {
            return Err(Error::ApiFailure);
        }
        let repos = match self.repos.iter().find(|(l, _)| l == &user.login) {
            Some((_, repos)) => repos,
            None => return Ok(Vec::new()),
        };
        let start = page_number * page_size;
        if start >= repos.len() {
            return Ok(Vec::new());
        }
        let end = (start + page_size).min(repos.len());
        Ok(repos[start..end].to_vec())
    }
}

#[test]
fn failed_org_resolution_drops_that_org_only() {
    let byron = numbered_repos(10, "Byron");
    let acme = numbered_repos(5, "Acme");
    let globex = numbered_repos(3, "Globex");
    let mut api = MockApi::new(
        vec![
            ("Byron".to_string(), byron.clone()),
            ("Acme".to_string(), acme.clone()),
            ("Globex".to_string(), globex.clone()),
        ],
        Ok(vec!["Acme".to_string(), "Globex".to_string()]),
    );
    api.fail_resolve.push("Globex".to_string());

    let resp = count_stars(&mut api, "Byron", false, 100, true).unwrap();
    let mut expected = byron;
    expected.extend_from_slice(&acme);
    assert_eq!(resp.repos, expected);
}

#[test]
fn failed_org_pagination_drops_that_org_only() {
    let byron = numbered_repos(10, "Byron");
    let acme = numbered_repos(5, "Acme");
    let globex = numbered_repos(3, "Globex");
    let mut api = MockApi::new(
        vec![
            ("Byron".to_string(), byron.clone()),
            ("Acme".to_string(), acme.clone()),
            ("Globex".to_string(), globex),
        ],
        Ok(vec!["Acme".to_string(), "Globex".to_string()]),
    );
    api.fail_pages_for.push("Globex".to_string());

    let resp = count_stars(&mut api, "Byron", false, 100, true).unwrap();
    let mut expected = byron;
    expected.extend_from_slice(&acme);
    assert_eq!(resp.repos, expected);
}

#[test]
fn failed_primary_pagination_fails_the_run() {
    let byron = numbered_repos(10, "Byron");
    let acme = numbered_repos(5, "Acme");
    let mut api = MockApi::new(
        vec![("Byron".to_string(), byron), ("Acme".to_string(), acme)],
        Ok(vec!["Acme".to_string()]),
    );
    api.fail_pages_for.push("Byron".to_string());

    let r = count_stars(&mut api, "Byron", false, 100, true);
    assert_eq!(r.unwrap_err(), Error::PrimaryPaginationFailure);
}

#[test]
fn failed_primary_resolution_fails_the_run() {
    let mut api = MockApi::new(vec![], Ok(Vec::new()));
    let r = count_stars(&mut api, "Byron", false, 100, true);
    assert_eq!(r.unwrap_err(), Error::PrimaryResolutionFailure);
}

#[test]
fn failed_org_discovery_means_zero_organizations() {
    let byron = numbered_repos(10, "Byron");
    let mut api =
        MockApi::new(vec![("Byron".to_string(), byron.clone())], Err(Error::ApiFailure));
    let resp = count_stars(&mut api, "Byron", false, 100, true).unwrap();
    assert_eq!(resp.repos, byron);
}

#[test]
fn page_size_zero_fails_before_any_request() {
    let byron = numbered_repos(10, "Byron");
    let mut api = MockApi::new(vec![("Byron".to_string(), byron)], Ok(Vec::new()));
    let r = count_stars(&mut api, "Byron", false, 0, true);
    assert_eq!(r.unwrap_err(), Error::InvalidConfiguration);
    assert_eq!(api.fetch_calls, 0);
    assert_eq!(api.resolve_calls, 0);
}

#[test]
fn aggregation_twice_yields_identical_results() {
    let byron = numbered_repos(17, "Byron");
    let acme = numbered_repos(5, "Acme");
    let data = MockApi::new(
        vec![("Byron".to_string(), byron), ("Acme".to_string(), acme)],
        Ok(vec!["Acme".to_string()]),
    );

    let mut first = data.clone();
    let mut second = data;
    let resp1 = count_stars(&mut first, "Byron", false, 100, true).unwrap();
    let resp2 = count_stars(&mut second, "Byron", false, 100, true).unwrap();
    assert_eq!(resp1.repos, resp2.repos);
    assert_eq!(
        get_stats(&resp1.repos, &resp1.user.login),
        get_stats(&resp2.repos, &resp2.user.login)
    );
}

#[test]
fn byron_with_two_pages_and_no_orgs() {
    // 147 repositories served as pages of 100 and 47.
    let byron = numbered_repos(147, "Byron");
    let mut api = MockApi::new(vec![("Byron".to_string(), byron.clone())], Ok(Vec::new()));

    let resp = count_stars(&mut api, "Byron", true, 100, true).unwrap();
    assert_eq!(api.fetch_calls, 2);
    // Suppressing organizations skips the membership request entirely.
    assert_eq!(api.list_calls, 0);
    assert_eq!(resp.repos.len(), 147);

    let stats = get_stats(&resp.repos, "Byron");
    let expected_total: usize = byron.iter().map(|r| r.stargazers_count).sum();
    assert_eq!(stats.total, expected_total);
    assert_eq!(stats.total_by_orgs_only.len(), 0);

    // The displayed list is the top 10 by star count, names unprefixed.
    let out = render_output(resp.repos, "Byron".to_string(), 10, 0).unwrap();
    let mut expected = format!("Total: {}\n\n", expected_total);
    for i in (137..=146).rev() {
        expected.push_str(&format!("{:7}   \u{2605}  {}\n", format!("repo{}", i), i));
    }
    assert_eq!(out, expected);
}

#[test]
fn byron_with_one_org_prefixes_displayed_names() {
    let byron = numbered_repos(147, "Byron");
    let acme: Vec<Repo> = (0..5).map(|i| repo(&format!("acme{}", i), 1000 + i, "Acme")).collect();
    let mut api = MockApi::new(
        vec![("Byron".to_string(), byron), ("Acme".to_string(), acme)],
        Ok(vec!["Acme".to_string()]),
    );

    let resp = count_stars(&mut api, "Byron", false, 100, true).unwrap();
    assert_eq!(resp.repos.len(), 152);

    let stats = get_stats(&resp.repos, "Byron");
    assert_eq!(stats.total_by_orgs_only.len(), 5);

    let out = render_output(resp.repos, "Byron".to_string(), 10, 0).unwrap();
    // The five Acme repositories lead the list, each rendered Acme/<name>.
    for i in 0..5 {
        assert!(out.contains(&format!("Acme/acme{}", i)));
    }
    // Byron's own displayed names carry the owner too once org repositories
    // are present.
    assert!(out.contains("Byron/repo146"));
}
