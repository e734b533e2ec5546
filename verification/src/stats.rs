use vstd::prelude::*;
use crate::api::{Repo, RepoStats};

verus! {

/// The star counts of the repositories whose owning login matches `login`
/// exactly when `want` is set, in input order.
pub open spec fn spec_filter_stars(repos: Seq<Repo>, login: Seq<char>, want: bool) -> Seq<usize>
    decreases repos.len(),
{
    if repos.len() == 0 {
        Seq::empty()
    } else if (repos.last().owner.login@ == login) == want {
        spec_filter_stars(repos.drop_last(), login, want).push(repos.last().stargazers_count)
    } else {
        spec_filter_stars(repos.drop_last(), login, want)
    }
}

/// The sum of all star counts of a repository collection.
pub open spec fn spec_total_stars(repos: Seq<Repo>) -> int
    decreases repos.len(),
{
    if repos.len() == 0 {
        0
    } else {
        spec_total_stars(repos.drop_last()) + repos.last().stargazers_count
    }
}

/// The sum of a collection of star counts.
pub open spec fn spec_sum(stars: Seq<usize>) -> int
    decreases stars.len(),
{
    if stars.len() == 0 {
        0
    } else {
        spec_sum(stars.drop_last()) + stars.last()
    }
}

pub proof fn lemma_sum_push(stars: Seq<usize>, x: usize)
    ensures
        spec_sum(stars.push(x)) == spec_sum(stars) + x,
{
    assert(stars.push(x).drop_last() =~= stars);
}

pub proof fn lemma_sum_nonneg(stars: Seq<usize>)
    ensures
        spec_sum(stars) >= 0,
    decreases stars.len(),
{
    if stars.len() > 0 {
        lemma_sum_nonneg(stars.drop_last());
    }
}

/// A prefix of a collection never holds more stars than the whole.
pub proof fn lemma_total_stars_take(repos: Seq<Repo>, i: int)
    requires
        0 <= i <= repos.len(),
    ensures
        spec_total_stars(repos.take(i)) <= spec_total_stars(repos),
    decreases repos.len() - i,
{
    if i == repos.len() {
        assert(repos.take(i) =~= repos);
    } else {
        lemma_total_stars_take(repos, i + 1);
        assert(repos.take(i + 1).drop_last() =~= repos.take(i));
        assert(spec_total_stars(repos.take(i + 1)) == spec_total_stars(repos.take(i))
            + repos[i].stargazers_count);
    }
}

/// Picks, in order, the star counts of the repositories whose owning login
/// matches `user_login` exactly when `is_user` is set.
pub fn filter_repos(repos: &Vec<Repo>, user_login: &str, is_user: bool) -> (r: Vec<usize>)
    ensures
        r@ == spec_filter_stars(repos@, user_login@, is_user),
{
    let login: String = user_login.to_owned();
    let mut r: Vec<usize> = Vec::new();
    let mut i: usize = 0;
    while i < repos.len()
        invariant
            i <= repos@.len(),
            login@ == user_login@,
            r@ == spec_filter_stars(repos@.take(i as int), user_login@, is_user),
        decreases repos@.len() - i,
    {
        proof {
            assert(repos@.take(i + 1).drop_last() =~= repos@.take(i as int));
            assert(repos@.take(i + 1).last() == repos@[i as int]);
        }
        if (repos[i].owner.login == login) == is_user {
            r.push(repos[i].stargazers_count);
        }
        i += 1;
    }
    proof {
        assert(repos@.take(i as int) =~= repos@);
    }
    r
}

/// Computes the aggregate statistics of a merged repository collection:
/// the grand total, and the star counts split by whether the owning login
/// is the queried user's own. Computed from the complete collection, before
/// any display limiting or filtering.
pub fn get_stats(repos: &Vec<Repo>, login: &str) -> (s: RepoStats)
    requires
        spec_total_stars(repos@) <= usize::MAX,
    ensures
        s.total == spec_total_stars(repos@),
        s.total_by_user_only@ == spec_filter_stars(repos@, login@, true),
        s.total_by_orgs_only@ == spec_filter_stars(repos@, login@, false),
{
    let mut total: usize = 0;
    let mut i: usize = 0;
    while i < repos.len()
        invariant
            i <= repos@.len(),
            spec_total_stars(repos@) <= usize::MAX,
            total == spec_total_stars(repos@.take(i as int)),
        decreases repos@.len() - i,
    {
        proof {
            assert(repos@.take(i + 1).drop_last() =~= repos@.take(i as int));
            assert(repos@.take(i + 1).last() == repos@[i as int]);
            lemma_total_stars_take(repos@, i + 1);
        }
        total = total + repos[i].stargazers_count;
        i += 1;
    }
    proof {
        assert(repos@.take(i as int) =~= repos@);
    }
    let total_by_user_only = filter_repos(repos, login, true);
    let total_by_orgs_only = filter_repos(repos, login, false);
    RepoStats { total, total_by_user_only, total_by_orgs_only }
}

/// Sums all star counts, reporting when the total does not fit the machine:
/// callers that cannot know the total in advance check here before asking
/// for statistics or a report.
pub fn checked_total_stars(repos: &Vec<Repo>) -> (r: Option<usize>)
    ensures
        r matches Some(total) ==> total == spec_total_stars(repos@),
        r is None <==> spec_total_stars(repos@) > usize::MAX,
{
    let mut total: usize = 0;
    let mut i: usize = 0;
    while i < repos.len()
        invariant
            i <= repos@.len(),
            total == spec_total_stars(repos@.take(i as int)),
        decreases repos@.len() - i,
    {
        proof {
            assert(repos@.take(i + 1).drop_last() =~= repos@.take(i as int));
            assert(repos@.take(i + 1).last() == repos@[i as int]);
        }
        total = match total.checked_add(repos[i].stargazers_count) {
            Some(total) => total,
            None => {
                proof {
                    lemma_total_stars_take(repos@, i + 1);
                }
                return None;
            },
        };
        i += 1;
    }
    proof {
        assert(repos@.take(i as int) =~= repos@);
    }
    Some(total)
}

/// The total star count always equals the user-owned and the organization-
/// owned star counts combined, for any merged repository collection: every
/// repository falls in exactly one of the two sides.
pub proof fn lemma_total_splits_by_owner(repos: Seq<Repo>, login: Seq<char>)
    ensures
        spec_total_stars(repos) == spec_sum(spec_filter_stars(repos, login, true)) + spec_sum(
            spec_filter_stars(repos, login, false),
        ),
    decreases repos.len(),
{
    if repos.len() > 0 {
        lemma_total_splits_by_owner(repos.drop_last(), login);
        let want = repos.last().owner.login@ == login;
        lemma_sum_push(
            spec_filter_stars(repos.drop_last(), login, want),
            repos.last().stargazers_count,
        );
    }
}

/// A filtered star count never exceeds the grand total.
pub proof fn lemma_filtered_le_total(repos: Seq<Repo>, login: Seq<char>, want: bool)
    ensures
        0 <= spec_sum(spec_filter_stars(repos, login, want)) <= spec_total_stars(repos),
{
    lemma_total_splits_by_owner(repos, login);
    lemma_sum_nonneg(spec_filter_stars(repos, login, true));
    lemma_sum_nonneg(spec_filter_stars(repos, login, false));
}

} // verus!
