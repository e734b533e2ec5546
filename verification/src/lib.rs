//! Aggregates star counts across the repositories owned by a GitHub user
//! and, optionally, by the organizations that user belongs to.
//!
//! The library holds the verified core: computing which pages to request,
//! validating and merging pages, resolving the set of owners, merging
//! per-owner results under the fail-fast / best-effort policies, computing
//! aggregate statistics, and rendering the default text report. The HTTP
//! transport and JSON decoding of a single request are external
//! collaborators, reached through the `PageFetcher` and `OwnerApi`
//! capabilities.

mod aggregate;
mod api;
mod auth;
mod decimal;
mod error;
mod options;
mod output;
mod paginate;
mod resolve;
mod stats;
mod urls;

pub use aggregate::{aggregate_repos, count_stars};
pub use api::{Options, Repo, RepoOwner, RepoStats, Response, User};
pub use auth::{get_auth, BasicAuth};
pub use error::Error;
pub use options::{Args, LogLevel, RequestUser};
pub use output::{default_output, prefix_repo_names, render_output, select_display, sort_repos_desc};
pub use paginate::{fetch_repos, merge_pages, page_count, sanity_check, PageFetcher};
pub use resolve::{resolve_owners, OwnerApi, ResolvedOwners};
pub use stats::{checked_total_stars, filter_repos, get_stats};
pub use urls::{orgs_url, repos_paged_url, user_url};
