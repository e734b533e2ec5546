use vstd::prelude::*;
use crate::auth::BasicAuth;

verus! {

/// One repository record, as one page of the repository listing carries it.
#[derive(Debug, Clone, PartialEq, Eq)]
pub struct Repo {
    pub stargazers_count: usize,
    pub name: String,
    pub owner: RepoOwner,
}

/// The aggregate statistics of one run: the total star count over the whole
/// merged repository set, and the star counts split by whether the owning
/// login is the queried user's own.
#[derive(Debug, Clone, PartialEq, Eq)]
pub struct RepoStats {
    pub total: usize,
    pub total_by_user_only: Vec<usize>,
    pub total_by_orgs_only: Vec<usize>,
}

/// The account that owns a repository.
#[derive(Debug, Clone, PartialEq, Eq)]
pub struct RepoOwner {
    pub login: String,
}

/// An account (user or organization) resolved to its login and its public
/// repository count; the count decides how many pages to request.
#[derive(Debug, Clone)]
pub struct User {
    pub login: String,
    pub public_repos: usize,
}

/// The configuration one aggregation run consumes.
pub struct Options {
    pub no_orgs: bool,
    pub auth: Option<BasicAuth>,
    pub page_size: usize,
    pub repo_limit: usize,
    pub stargazer_threshold: usize,
}

impl Default for Options {
    fn default() -> (r: Self)
        ensures
            r.no_orgs == false,
            r.auth is None,
            r.page_size == 100,
            r.repo_limit == 10,
            r.stargazer_threshold == 0,
    {
        Self {
            auth: None,
            no_orgs: false,
            page_size: 100,
            repo_limit: 10,
            stargazer_threshold: 0,
        }
    }
}

/// What one run hands to the presenter: the resolved root user and the
/// merged repository set.
#[derive(Debug)]
pub struct Response {
    pub user: User,
    pub repos: Vec<Repo>,
}

} // verus!
