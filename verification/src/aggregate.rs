use vstd::prelude::*;
use crate::api::{Repo, Response, User};
use crate::error::Error;
use crate::paginate::{
    fetch_repos, pages_consistent, spec_concat_pages, spec_page_count, PageFetcher,
};
use crate::resolve::{resolve_owners, OwnerApi};

verus! {

/// The repositories the organizations contributed, in resolution order; a
/// failed organization contributes nothing.
pub open spec fn spec_org_repos(org_results: Seq<Result<Vec<Repo>, Error>>) -> Seq<Repo>
    decreases org_results.len(),
{
    if org_results.len() == 0 {
        Seq::empty()
    } else {
        match org_results.first() {
            Ok(repos) => repos@ + spec_org_repos(org_results.drop_first()),
            Err(_) => spec_org_repos(org_results.drop_first()),
        }
    }
}

/// How a failed primary pagination surfaces: an invalid configuration and a
/// page-count inconsistency keep their own names; any other cause is a
/// primary pagination failure.
pub open spec fn spec_primary_error(e: Error) -> Error {
    match e {
        Error::InvalidConfiguration => Error::InvalidConfiguration,
        Error::PageCountConsistencyViolation => Error::PageCountConsistencyViolation,
        _ => Error::PrimaryPaginationFailure,
    }
}

/// A pagination result with the repository collection abstracted to its view.
pub open spec fn result_view(r: Result<Vec<Repo>, Error>) -> Result<Seq<Repo>, Error> {
    match r {
        Ok(repos) => Ok(repos@),
        Err(e) => Err(e),
    }
}

/// What merging per-owner pagination results yields: the primary owner's
/// repositories first — their failure fails the run — then each
/// organization's, in resolution order, failed organizations dropped.
pub open spec fn spec_aggregate(
    primary: Result<Seq<Repo>, Error>,
    org_results: Seq<Result<Vec<Repo>, Error>>,
) -> Result<Seq<Repo>, Error> {
    match primary {
        Ok(repos) => Ok(repos + spec_org_repos(org_results)),
        Err(e) => Err(spec_primary_error(e)),
    }
}

/// Merges the per-owner pagination results of one run.
pub fn aggregate_repos(
    primary: Result<Vec<Repo>, Error>,
    org_results: Vec<Result<Vec<Repo>, Error>>,
) -> (r: Result<Vec<Repo>, Error>)
    ensures
        result_view(r) == spec_aggregate(result_view(primary), org_results@),
{
    let mut merged = match primary {
        Ok(repos) => repos,
        Err(e) => {
            return Err(
                match e {
                    Error::InvalidConfiguration => Error::InvalidConfiguration,
                    Error::PageCountConsistencyViolation => Error::PageCountConsistencyViolation,
                    _ => Error::PrimaryPaginationFailure,
                },
            );
        },
    };
    let ghost all = org_results@;
    let ghost primary_view = merged@;
    let mut rest = org_results;
    while rest.len() > 0
        invariant
            merged@ + spec_org_repos(rest@) == primary_view + spec_org_repos(all),
        decreases rest@.len(),
    {
        let ghost prev = rest@;
        let next = rest.remove(0);
        proof {
            assert(prev.drop_first() =~= rest@);
        }
        match next {
            Ok(mut repos) => {
                merged.append(&mut repos);
            },
            Err(_) => (),
        }
    }
    proof {
        assert(merged@ =~= primary_view + spec_org_repos(all));
    }
    Ok(merged)
}

proof fn lemma_org_repos_remove_err(org_results: Seq<Result<Vec<Repo>, Error>>, i: int)
    requires
        0 <= i < org_results.len(),
        org_results[i] is Err,
    ensures
        spec_org_repos(org_results) == spec_org_repos(org_results.remove(i)),
    decreases org_results.len(),
{
    if i == 0 {
        assert(org_results.remove(0) =~= org_results.drop_first());
    } else {
        lemma_org_repos_remove_err(org_results.drop_first(), i - 1);
        assert(org_results.remove(i).drop_first() =~= org_results.drop_first().remove(i - 1));
        assert(org_results.remove(i).first() == org_results.first());
    }
}

/// If pagination failed for one organization among many, the merged
/// collection is exactly the primary owner's set followed by the other
/// organizations' sets, and the run succeeds.
pub proof fn lemma_failed_org_pagination_dropped(
    primary: Seq<Repo>,
    org_results: Seq<Result<Vec<Repo>, Error>>,
    i: int,
)
    requires
        0 <= i < org_results.len(),
        org_results[i] is Err,
    ensures
        spec_aggregate(Ok(primary), org_results) == Ok::<Seq<Repo>, Error>(
            primary + spec_org_repos(org_results.remove(i)),
        ),
{
    lemma_org_repos_remove_err(org_results, i);
}

/// If the primary owner's pagination failed, the run fails, whatever the
/// organization results were.
pub proof fn lemma_primary_failure_is_fatal(e: Error, org_results: Seq<Result<Vec<Repo>, Error>>)
    ensures
        spec_aggregate(Err(e), org_results) is Err,
{
}

/// Aggregation is a pure function of the per-owner results: two runs over
/// an unchanged data source merge identical repository collections and so
/// carry identical statistics.
pub proof fn lemma_aggregation_deterministic(
    primary: Result<Seq<Repo>, Error>,
    org_results: Seq<Result<Vec<Repo>, Error>>,
    r1: Result<Seq<Repo>, Error>,
    r2: Result<Seq<Repo>, Error>,
)
    requires
        r1 == spec_aggregate(primary, org_results),
        r2 == spec_aggregate(primary, org_results),
    ensures
        r1 == r2,
{
}

/// One whole aggregation run against an API client: resolve the owners,
/// paginate each owner's repositories, and merge the results. Fails before
/// any request when the page size is zero; fails when the root user cannot
/// be resolved or their own pagination fails; absorbs every organization-
/// scoped failure.
pub fn count_stars<C: OwnerApi + PageFetcher>(
    client: &mut C,
    username: &str,
    no_orgs: bool,
    page_size: usize,
    enforce_page_size: bool,
) -> (r: Result<Response, Error>)
    ensures
        page_size == 0 ==> r == Err::<Response, Error>(Error::InvalidConfiguration),
        r matches Ok(resp) ==> exists|
            pages: Seq<Seq<Repo>>,
            org_results: Seq<Result<Vec<Repo>, Error>>,
        |
            {
                &&& pages.len() == spec_page_count(resp.user.public_repos as nat, page_size as nat)
                &&& (enforce_page_size ==> pages_consistent(pages, page_size as nat))
                &&& (no_orgs ==> org_results.len() == 0)
                &&& resp.repos@ == #[trigger] spec_concat_pages(pages) + #[trigger] spec_org_repos(
                    org_results,
                )
            },
{
    if page_size == 0 {
        return Err(Error::InvalidConfiguration);
    }
    let primary = client.resolve_owner(username);
    let org_logins: Result<Vec<String>, Error> = if no_orgs {
        Ok(Vec::new())
    } else {
        client.list_organizations(username)
    };
    let mut org_users: Vec<Result<User, Error>> = Vec::new();
    if !no_orgs {
        match &org_logins {
            Ok(logins) => {
                let mut i: usize = 0;
                while i < logins.len()
                    decreases logins@.len() - i,
                {
                    org_users.push(client.resolve_owner(logins[i].as_str()));
                    i += 1;
                }
            },
            Err(_) => (),
        }
    }
    let resolved = match resolve_owners(primary, org_logins, org_users, !no_orgs) {
        Ok(resolved) => resolved,
        Err(e) => {
            return Err(e);
        },
    };
    let primary_result = if resolved.user.public_repos == usize::MAX {
        Err(Error::ApiFailure)
    } else {
        fetch_repos(client, &resolved.user, page_size, enforce_page_size)
    };
    let mut org_results: Vec<Result<Vec<Repo>, Error>> = Vec::new();
    let mut orgs = resolved.orgs;
    while orgs.len() > 0
        invariant
            page_size > 0,
            no_orgs ==> org_results@.len() == 0 && orgs@.len() == 0,
        decreases orgs@.len(),
    {
        let org = orgs.remove(0);
        let org_result = if org.public_repos == usize::MAX {
            Err(Error::ApiFailure)
        } else {
            fetch_repos(client, &org, page_size, enforce_page_size)
        };
        org_results.push(org_result);
    }
    let ghost primary_view = result_view(primary_result);
    let ghost org_view = org_results@;
    let merged = match aggregate_repos(primary_result, org_results) {
        Ok(merged) => merged,
        Err(e) => {
            return Err(e);
        },
    };
    proof {
        let pv = primary_view->Ok_0;
        let pages = choose|pages: Seq<Seq<Repo>>|
            {
                &&& pages.len() == spec_page_count(
                    resolved.user.public_repos as nat,
                    page_size as nat,
                )
                &&& (enforce_page_size ==> pages_consistent(pages, page_size as nat))
                &&& pv == #[trigger] spec_concat_pages(pages)
            };
        assert(merged@ == spec_concat_pages(pages) + spec_org_repos(org_view));
    }
    Ok(Response { user: resolved.user, repos: merged })
}

} // verus!
