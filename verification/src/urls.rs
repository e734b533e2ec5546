use vstd::prelude::*;
use crate::decimal::{spec_decimal, usize_to_string};

verus! {

/// The path that resolves an account: `users/<login>`.
pub open spec fn spec_user_url(login: Seq<char>) -> Seq<char> {
    "users/"@ + login
}

pub fn user_url(login: &str) -> (r: String)
    ensures
        r@ == spec_user_url(login@),
{
    String::from_str("users/").concat(login)
}

/// The path that lists an account's organizations: `users/<login>/orgs`.
pub open spec fn spec_orgs_url(login: Seq<char>) -> Seq<char> {
    spec_user_url(login) + "/orgs"@
}

pub fn orgs_url(login: &str) -> (r: String)
    ensures
        r@ == spec_orgs_url(login@),
{
    user_url(login).concat("/orgs")
}

/// The path that fetches one page of an account's repositories. The API
/// numbers pages from 1, the pagination logic from 0, so the query carries
/// `page_number + 1`.
pub open spec fn spec_repos_paged_url(login: Seq<char>, page_size: nat, page_number: nat) -> Seq<char> {
    spec_user_url(login) + "/repos?per_page="@ + spec_decimal(page_size) + "&page="@ + spec_decimal(
        page_number + 1,
    )
}

pub fn repos_paged_url(login: &str, page_size: usize, page_number: usize) -> (r: String)
    requires
        page_number < usize::MAX,
    ensures
        r@ == spec_repos_paged_url(login@, page_size as nat, page_number as nat),
{
    let page = usize_to_string(page_number + 1);
    let size = usize_to_string(page_size);
    let r = user_url(login).concat("/repos?per_page=").concat(size.as_str()).concat(
        "&page=",
    ).concat(page.as_str());
    proof {
        assert(r@ =~= spec_repos_paged_url(login@, page_size as nat, page_number as nat));
    }
    r
}

} // verus!
