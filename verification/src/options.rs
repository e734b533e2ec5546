use vstd::prelude::*;

verus! {

/// How much the logger should say.
#[derive(Debug, Clone, Copy, PartialEq, Eq, Structural)]
pub enum LogLevel {
    Info,
    Error,
    Debug,
}

/// The command-line arguments, as plain values. The surrounding program
/// parses its command line into this shape.
#[derive(Debug)]
pub struct Args {
    /// If set, organizations the user is a member of are not taken into
    /// consideration. This speeds up the query, but is less precise.
    pub no_orgs: bool,
    /// The amount of repositories per page when asking for repository details.
    pub page_size: usize,
    /// The amount of repositories to display at most; 0 shows totals only.
    pub repo_limit: usize,
    /// The desired log level.
    pub log_level: LogLevel,
    /// The least amount of stars a repository needs to appear in the list.
    /// This does not affect the total star count.
    pub stargazer_threshold: usize,
    /// A path to a template to render the output with, if any.
    pub template: Option<String>,
    /// Credentials for authenticated requests.
    pub auth: RequestUser,
    /// The name of the GitHub user, like "Byron".
    pub username: String,
}

/// The credentials given on the command line, if any. If only the password
/// is provided, the user for which stars are counted doubles as the request
/// username.
#[derive(Debug)]
pub struct RequestUser {
    pub request_username: Option<String>,
    pub request_password: Option<String>,
}

} // verus!
