use vstd::prelude::*;
use vstd::arithmetic::div_mod::{lemma_div_multiples_vanish, lemma_div_nonincreasing};
use crate::api::{Repo, User};
use crate::error::Error;

verus! {

/// The external fetch capability: one page of one account's repositories,
/// or a failure. The surrounding program implements it over the HTTP
/// transport; tests implement it with canned data. What a call returns is
/// entirely the implementor's: the contracts of the pagination logic hold
/// for every outcome.
pub trait PageFetcher {
    /// Fetches page `page_number` (zero-indexed) of `user`'s repositories,
    /// at most `page_size` records per page.
    fn fetch_page(&mut self, user: &User, page_size: usize, page_number: usize) -> Result<
        Vec<Repo>,
        Error,
    >;
}

/// How many pages one account's listing takes: `total / page_size + 1`.
/// A zero total still takes one page — the reported count may be stale
/// while repositories exist, and an empty page is cheap.
pub open spec fn spec_page_count(total: nat, page_size: nat) -> nat
    recommends
        page_size > 0,
{
    total / page_size + 1
}

pub fn page_count(total: usize, page_size: usize) -> (r: usize)
    requires
        page_size > 0,
        total < usize::MAX,
    ensures
        r == spec_page_count(total as nat, page_size as nat),
{
    proof {
        lemma_div_nonincreasing(total as int, page_size as int);
    }
    total / page_size + 1
}

/// The views of a collection of fetched pages.
pub open spec fn pages_view(pages: Seq<Vec<Repo>>) -> Seq<Seq<Repo>> {
    pages.map_values(|p: Vec<Repo>| p@)
}

/// Every page except the structurally last one is full.
pub open spec fn pages_consistent(pages: Seq<Seq<Repo>>, page_size: nat) -> bool {
    forall|i: int| 0 <= i < pages.len() - 1 ==> (#[trigger] pages[i]).len() == page_size
}

/// The pages concatenated in ascending page-index order, each page's own
/// order kept.
pub open spec fn spec_concat_pages(pages: Seq<Seq<Repo>>) -> Seq<Repo>
    decreases pages.len(),
{
    if pages.len() == 0 {
        Seq::empty()
    } else {
        pages.first() + spec_concat_pages(pages.drop_first())
    }
}

/// Checks that every page but the last is full. A short earlier page means
/// the page size drifted or the API answered inconsistently, which the
/// caller must not silently trust.
pub fn sanity_check(page_size: usize, pages_with_results: &Vec<Vec<Repo>>) -> (r: Result<
    (),
    Error,
>)
    ensures
        r is Ok <==> pages_consistent(pages_view(pages_with_results@), page_size as nat),
        r is Err ==> r == Err::<(), Error>(Error::PageCountConsistencyViolation),
{
    let n = pages_with_results.len();
    if n == 0 {
        return Ok(());
    }
    let mut i: usize = 0;
    while i < n - 1
        invariant
            n == pages_with_results@.len(),
            n >= 1,
            0 <= i <= n - 1,
            forall|j: int| 0 <= j < i ==> (#[trigger] pages_view(pages_with_results@)[j]).len()
                == page_size,
        decreases n - 1 - i,
    {
        if pages_with_results[i].len() != page_size {
            proof {
                assert(pages_view(pages_with_results@)[i as int].len() != page_size as nat);
            }
            return Err(Error::PageCountConsistencyViolation);
        }
        i += 1;
    }
    Ok(())
}

/// Merges fetched pages into one collection, page-index order kept. With
/// `enforce_page_size` set, a short page other than the last one is a fatal
/// consistency violation; a dry run skips that check.
pub fn merge_pages(pages: Vec<Vec<Repo>>, page_size: usize, enforce_page_size: bool) -> (r: Result<
    Vec<Repo>,
    Error,
>)
    ensures
        r is Err <==> enforce_page_size && !pages_consistent(pages_view(pages@), page_size as nat),
        r is Err ==> r == Err::<Vec<Repo>, Error>(Error::PageCountConsistencyViolation),
        r matches Ok(merged) ==> merged@ == spec_concat_pages(pages_view(pages@)),
{
    if enforce_page_size {
        match sanity_check(page_size, &pages) {
            Ok(()) => (),
            Err(e) => {
                return Err(e);
            },
        }
    }
    let mut merged: Vec<Repo> = Vec::new();
    let mut rest = pages;
    while rest.len() > 0
        invariant
            merged@ + spec_concat_pages(pages_view(rest@)) == spec_concat_pages(
                pages_view(pages@),
            ),
        decreases rest@.len(),
    {
        let ghost prev_views = pages_view(rest@);
        let mut page = rest.remove(0);
        proof {
            assert(prev_views.drop_first() =~= pages_view(rest@));
            assert(page@ == prev_views.first());
        }
        merged.append(&mut page);
    }
    proof {
        assert(merged@ =~= spec_concat_pages(pages_view(pages@)));
    }
    Ok(merged)
}

/// Requests every page of `user`'s repositories from the fetcher, failing
/// fast on the first page failure, and merges what came back. A page size
/// of zero is an invalid configuration, reported before any request.
pub fn fetch_repos<F: PageFetcher>(
    fetcher: &mut F,
    user: &User,
    page_size: usize,
    enforce_page_size: bool,
) -> (r: Result<Vec<Repo>, Error>)
    requires
        user.public_repos < usize::MAX,
    ensures
        page_size == 0 ==> r == Err::<Vec<Repo>, Error>(Error::InvalidConfiguration),
        r matches Ok(merged) ==> exists|pages: Seq<Seq<Repo>>|
            {
                &&& pages.len() == spec_page_count(user.public_repos as nat, page_size as nat)
                &&& (enforce_page_size ==> pages_consistent(pages, page_size as nat))
                &&& merged@ == #[trigger] spec_concat_pages(pages)
            },
{
    if page_size == 0 {
        return Err(Error::InvalidConfiguration);
    }
    let count = page_count(user.public_repos, page_size);
    let mut pages: Vec<Vec<Repo>> = Vec::new();
    let mut page_number: usize = 0;
    while page_number < count
        invariant
            page_size > 0,
            page_number <= count,
            pages@.len() == page_number,
        decreases count - page_number,
    {
        match fetcher.fetch_page(user, page_size, page_number) {
            Ok(page) => pages.push(page),
            Err(e) => {
                return Err(e);
            },
        }
        page_number += 1;
    }
    let ghost witness = pages_view(pages@);
    match merge_pages(pages, page_size, enforce_page_size) {
        Ok(merged) => {
            proof {
                assert(merged@ == spec_concat_pages(witness));
            }
            Ok(merged)
        },
        Err(e) => Err(e),
    }
}

/// How long a concatenation of pages is when every page before the last
/// holds exactly `page_size` items and the last is empty.
proof fn lemma_concat_full_pages_len(pages: Seq<Seq<Repo>>, page_size: nat)
    requires
        pages.len() >= 1,
        pages_consistent(pages, page_size),
        pages.last().len() == 0,
    ensures
        spec_concat_pages(pages).len() == (pages.len() - 1) * page_size,
    decreases pages.len(),
{
    if pages.len() == 1 {
        assert(spec_concat_pages(pages) =~= pages.first() + spec_concat_pages(
            pages.drop_first(),
        ));
    } else {
        let rest = pages.drop_first();
        assert(pages_consistent(rest, page_size)) by {
            assert(forall|i: int|
                0 <= i < rest.len() - 1 ==> rest[i] == pages[i + 1] && 0 <= i + 1 < pages.len()
                    - 1);
        }
        lemma_concat_full_pages_len(rest, page_size);
        assert(pages.first().len() == page_size);
        assert((1 + (rest.len() - 1)) * page_size == page_size + (rest.len() - 1) * page_size)
            by (nonlinear_arith);
    }
}

/// For an account whose reported total is an exact multiple of the page
/// size (`total == k * page_size`, `k >= 1`), pagination plans exactly
/// `k + 1` page requests — the final one covers a stale total — and when
/// the fetcher answers with `k` full pages followed by an empty one, the
/// merged result holds exactly `k * page_size` items, in page-then-intra-
/// page order.
pub proof fn lemma_exact_multiple_pagination(k: nat, page_size: nat, pages: Seq<Seq<Repo>>)
    requires
        k >= 1,
        page_size > 0,
        pages.len() == k + 1,
        pages_consistent(pages, page_size),
        pages.last().len() == 0,
    ensures
        spec_page_count(k * page_size, page_size) == k + 1,
        spec_concat_pages(pages).len() == k * page_size,
{
    lemma_div_multiples_vanish(k as int, page_size as int);
    lemma_concat_full_pages_len(pages, page_size);
}

} // verus!
