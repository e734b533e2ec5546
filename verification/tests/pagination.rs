use github_star_counter::{
    fetch_repos, merge_pages, page_count, sanity_check, Error, PageFetcher, Repo, RepoOwner, User,
};

fn repo(name: &str, stars: usize, owner: &str) -> Repo {
    Repo {
        stargazers_count: stars,
        name: name.to_string(),
        owner: RepoOwner { login: owner.to_string() },
    }
}

fn sample_repos(n: usize, owner: &str) -> Vec<Repo> {
    (0..n).map(|i| repo(&format!("repo{}", i), i, owner)).collect()
}

/// Serves pages out of one complete repository list, counting calls.
struct PagedFetcher {
    login: String,
    repos: Vec<Repo>,
    calls: usize,
    fail_on_page: Option<usize>,
}

impl PageFetcher for PagedFetcher {
    fn fetch_page(
        &mut self,
        user: &User,
        page_size: usize,
        page_number: usize,
    ) -> Result<Vec<Repo>, Error> {
        self.calls += 1;
        if self.fail_on_page == Some(page_number) {
            return Err(Error::ApiFailure);
        }
        if user.login != self.login {
            return Ok(Vec::new());
        }
        let start = page_number * page_size;
        if start >= self.repos.len() {
            return Ok(Vec::new());
        }
        let end = (start + page_size).min(self.repos.len());
        Ok(self.repos[start..end].to_vec())
    }
}

/// Answers every page request with the same full list, counting calls.
struct RepeatFetcher {
    login: String,
    repos: Vec<Repo>,
    calls: usize,
}

impl PageFetcher for RepeatFetcher {
    fn fetch_page(
        &mut self,
        user: &User,
        _page_size: usize,
        _page_number: usize,
    ) -> Result<Vec<Repo>, Error> {
        self.calls += 1;
        if user.login == self.login {
            Ok(self.repos.clone())
        } else {
            Ok(Vec::new())
        }
    }
}

#[test]
fn fetch_all_repos_paged() {
    let repos = sample_repos(50, "Byron");
    let mut repos_twice = repos.clone();
    repos_twice.extend_from_slice(&repos);
    let user = User { login: "Byron".to_string(), public_repos: repos_twice.len() };
    let page_size = 100;

    let mut fetcher = RepeatFetcher { login: "Byron".to_string(), repos, calls: 0 };
    assert_eq!(fetch_repos(&mut fetcher, &user, page_size, false).unwrap(), repos_twice);
    assert_eq!(fetcher.calls, 2);
}

#[test]
fn exact_multiple_issues_one_extra_page() {
    // total == 2 * page_size: three requests (the last covers a stale
    // total), and the merged result is the full list in order.
    let repos = sample_repos(200, "Byron");
    let user = User { login: "Byron".to_string(), public_repos: 200 };
    let mut fetcher =
        PagedFetcher { login: "Byron".to_string(), repos: repos.clone(), calls: 0, fail_on_page: None };
    let merged = fetch_repos(&mut fetcher, &user, 100, true).unwrap();
    assert_eq!(fetcher.calls, 3);
    assert_eq!(merged.len(), 200);
    assert_eq!(merged, repos);
}

#[test]
fn page_size_zero_is_invalid_configuration() {
    let user = User { login: "Byron".to_string(), public_repos: 10 };
    let mut fetcher = PagedFetcher {
        login: "Byron".to_string(),
        repos: sample_repos(10, "Byron"),
        calls: 0,
        fail_on_page: None,
    };
    let r = fetch_repos(&mut fetcher, &user, 0, true);
    assert_eq!(r, Err(Error::InvalidConfiguration));
    assert_eq!(fetcher.calls, 0);
}

#[test]
fn page_failure_fails_the_fetch() {
    let user = User { login: "Byron".to_string(), public_repos: 200 };
    let mut fetcher = PagedFetcher {
        login: "Byron".to_string(),
        repos: sample_repos(200, "Byron"),
        calls: 0,
        fail_on_page: Some(1),
    };
    let r = fetch_repos(&mut fetcher, &user, 100, true);
    assert_eq!(r, Err(Error::ApiFailure));
}

#[test]
fn short_earlier_page_is_a_consistency_violation() {
    // The fetcher only ever has 30 repositories, but the account claims 250:
    // page 0 comes back short of the page size while not being the last.
    let user = User { login: "Byron".to_string(), public_repos: 250 };
    let repos = sample_repos(30, "Byron");
    let mut fetcher =
        PagedFetcher { login: "Byron".to_string(), repos: repos.clone(), calls: 0, fail_on_page: None };
    let r = fetch_repos(&mut fetcher, &user, 100, true);
    assert_eq!(r, Err(Error::PageCountConsistencyViolation));

    // A dry run skips the check and keeps what came back.
    let mut fetcher = PagedFetcher { login: "Byron".to_string(), repos: repos.clone(), calls: 0, fail_on_page: None };
    let r = fetch_repos(&mut fetcher, &user, 100, false);
    assert_eq!(r.unwrap(), repos);
}

#[test]
fn page_count_includes_the_covering_page() {
    assert_eq!(page_count(0, 100), 1);
    assert_eq!(page_count(99, 100), 1);
    assert_eq!(page_count(100, 100), 2);
    assert_eq!(page_count(147, 100), 2);
    assert_eq!(page_count(200, 100), 3);
}

#[test]
fn sanity_check_accepts_full_pages() {
    let r = repo("a", 1, "Byron");
    let pages = vec![vec![r.clone(), r.clone()], vec![r.clone(), r.clone()], vec![r.clone()]];
    assert!(sanity_check(2, &pages).is_ok());
    let empty: Vec<Vec<Repo>> = Vec::new();
    assert!(sanity_check(2, &empty).is_ok());
}

#[test]
fn sanity_check_rejects_short_earlier_page() {
    let r = repo("a", 1, "Byron");
    let pages = vec![vec![r.clone()], vec![r.clone(), r.clone()]];
    assert_eq!(sanity_check(2, &pages), Err(Error::PageCountConsistencyViolation));
}

#[test]
fn merge_pages_concatenates_in_page_order() {
    let a = repo("a", 1, "Byron");
    let b = repo("b", 2, "Byron");
    let c = repo("c", 3, "Byron");
    let pages = vec![vec![a.clone(), b.clone()], vec![c.clone()]];
    assert_eq!(merge_pages(pages, 2, true).unwrap(), vec![a, b, c]);
}
