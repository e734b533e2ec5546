use vstd::prelude::*;
use vstd::string::StrSliceExecFns;
use crate::api::{Repo, RepoStats};
use crate::decimal::{spec_decimal, usize_to_string};
use crate::error::Error;
use crate::stats::{
    get_stats, lemma_filtered_le_total, spec_filter_stars, spec_sum, spec_total_stars,
};

verus! {

/// Where a repository lands when inserted into a collection sorted by star
/// count, descending: after every repository with at least as many stars,
/// so that repositories with equal counts keep their input order.
pub open spec fn spec_insert_desc(sorted: Seq<Repo>, repo: Repo) -> Seq<Repo>
    decreases sorted.len(),
{
    if sorted.len() == 0 {
        seq![repo]
    } else if sorted.first().stargazers_count >= repo.stargazers_count {
        seq![sorted.first()] + spec_insert_desc(sorted.drop_first(), repo)
    } else {
        seq![repo] + sorted
    }
}

/// The input sorted by star count, descending, stably.
pub open spec fn spec_sort_desc(repos: Seq<Repo>) -> Seq<Repo>
    decreases repos.len(),
{
    if repos.len() == 0 {
        Seq::empty()
    } else {
        spec_insert_desc(spec_sort_desc(repos.drop_last()), repos.last())
    }
}

proof fn lemma_insert_desc_at(sorted: Seq<Repo>, repo: Repo, i: int)
    requires
        0 <= i <= sorted.len(),
        forall|j: int|
            0 <= j < i ==> (#[trigger] sorted[j]).stargazers_count >= repo.stargazers_count,
        i < sorted.len() ==> sorted[i].stargazers_count < repo.stargazers_count,
    ensures
        spec_insert_desc(sorted, repo) == sorted.insert(i, repo),
    decreases sorted.len(),
{
    if sorted.len() == 0 {
        assert(sorted.insert(0, repo) =~= seq![repo]);
    } else if sorted.first().stargazers_count >= repo.stargazers_count {
        assert(i >= 1) by {
            assert(i == 0 ==> sorted[0].stargazers_count < repo.stargazers_count);
        }
        lemma_insert_desc_at(sorted.drop_first(), repo, i - 1);
        assert(sorted.insert(i, repo) =~= seq![sorted.first()] + sorted.drop_first().insert(
            i - 1,
            repo,
        ));
    } else {
        assert(sorted[0].stargazers_count < repo.stargazers_count);
        assert(i == 0);
        assert(sorted.insert(0, repo) =~= seq![repo] + sorted);
    }
}

fn insert_desc(sorted: &mut Vec<Repo>, repo: Repo)
    ensures
        final(sorted)@ == spec_insert_desc(old(sorted)@, repo),
{
    let stars = repo.stargazers_count;
    let mut i: usize = 0;
    while i < sorted.len() && sorted[i].stargazers_count >= stars
        invariant
            0 <= i <= sorted@.len(),
            forall|j: int| 0 <= j < i ==> (#[trigger] sorted@[j]).stargazers_count >= stars,
        decreases sorted@.len() - i,
    {
        i += 1;
    }
    proof {
        lemma_insert_desc_at(sorted@, repo, i as int);
    }
    sorted.insert(i, repo);
}

/// Sorts repositories by star count, descending; repositories with equal
/// counts keep their input order.
pub fn sort_repos_desc(repos: Vec<Repo>) -> (r: Vec<Repo>)
    ensures
        r@ == spec_sort_desc(repos@),
{
    let ghost all = repos@;
    let mut sorted: Vec<Repo> = Vec::new();
    let mut rest = repos;
    while rest.len() > 0
        invariant
            all =~= all.take(all.len() - rest@.len()) + rest@,
            sorted@ == spec_sort_desc(all.take(all.len() - rest@.len())),
        decreases rest@.len(),
    {
        let ghost i = all.len() - rest@.len();
        let ghost prev = rest@;
        let next = rest.remove(0);
        proof {
            assert(prev.drop_first() =~= rest@);
            assert(next == all[i]);
            assert(all.take(i + 1).drop_last() =~= all.take(i));
            assert(all.take(i + 1).last() == all[i]);
            assert(all =~= all.take(i + 1) + rest@);
        }
        insert_desc(&mut sorted, next);
    }
    proof {
        assert(all.take(all.len() as int) =~= all);
    }
    sorted
}

/// The repositories that reach a star threshold, input order kept.
pub open spec fn spec_filter_threshold(repos: Seq<Repo>, threshold: nat) -> Seq<Repo>
    decreases repos.len(),
{
    if repos.len() == 0 {
        Seq::empty()
    } else if repos.last().stargazers_count >= threshold {
        spec_filter_threshold(repos.drop_last(), threshold).push(repos.last())
    } else {
        spec_filter_threshold(repos.drop_last(), threshold)
    }
}

/// What the report displays: the repositories that reach the threshold, the
/// first `limit` of them (a limit of zero shows totals only).
pub open spec fn spec_select_display(repos: Seq<Repo>, threshold: nat, limit: nat) -> Seq<Repo> {
    let filtered = spec_filter_threshold(repos, threshold);
    if filtered.len() <= limit {
        filtered
    } else {
        filtered.take(limit as int)
    }
}

/// Keeps the first `limit` repositories that reach the star threshold.
pub fn select_display(repos: Vec<Repo>, threshold: usize, limit: usize) -> (r: Vec<Repo>)
    ensures
        r@ == spec_select_display(repos@, threshold as nat, limit as nat),
{
    let ghost all = repos@;
    let mut out: Vec<Repo> = Vec::new();
    let mut rest = repos;
    while rest.len() > 0
        invariant
            all =~= all.take(all.len() - rest@.len()) + rest@,
            out@ == spec_select_display(
                all.take(all.len() - rest@.len()),
                threshold as nat,
                limit as nat,
            ),
            out@.len() <= limit,
        decreases rest@.len(),
    {
        let ghost i = all.len() - rest@.len();
        let ghost prev = rest@;
        let next = rest.remove(0);
        proof {
            assert(prev.drop_first() =~= rest@);
            assert(next == all[i]);
            assert(all.take(i + 1).drop_last() =~= all.take(i));
            assert(all.take(i + 1).last() == all[i]);
            assert(all =~= all.take(i + 1) + rest@);
        }
        let ghost filtered_prev = spec_filter_threshold(all.take(i), threshold as nat);
        let ghost filtered_next = spec_filter_threshold(all.take(i + 1), threshold as nat);
        if next.stargazers_count >= threshold && out.len() < limit {
            out.push(next);
            proof {
                assert(filtered_next == filtered_prev.push(all[i]));
                assert(filtered_next.len() <= limit as nat ==> out@ =~= filtered_next);
                assert(filtered_next.len() > limit as nat ==> out@ =~= filtered_next.take(
                    limit as int,
                ));
            }
        } else {
            proof {
                if next.stargazers_count >= threshold as nat {
                    assert(filtered_next == filtered_prev.push(all[i]));
                    assert(out@.len() == limit);
                    assert(filtered_prev.len() >= limit as nat);
                    assert(filtered_next.take(limit as int) =~= filtered_prev.take(limit as int));
                    assert(filtered_prev.len() <= limit as nat ==> filtered_prev.take(
                        limit as int,
                    ) =~= filtered_prev);
                } else {
                    assert(filtered_next == filtered_prev);
                }
            }
        }
    }
    proof {
        assert(all.take(all.len() as int) =~= all);
    }
    out
}

/// The display name and star count of each repository; with organization
/// repositories present in the merged set, the name carries the owning
/// login, disambiguating same-named repositories across owners.
pub open spec fn spec_display_entries(repos: Seq<Repo>, prefix_owner: bool) -> Seq<
    (Seq<char>, usize),
> {
    repos.map_values(
        |r: Repo|
            (
                if prefix_owner {
                    r.owner.login@ + "/"@ + r.name@
                } else {
                    r.name@
                },
                r.stargazers_count,
            ),
    )
}

/// Rewrites each repository's display name to `<owning login>/<name>`.
pub fn prefix_repo_names(repos: Vec<Repo>) -> (r: Vec<Repo>)
    ensures
        r@.len() == repos@.len(),
        forall|i: int|
            0 <= i < repos@.len() ==> {
                &&& (#[trigger] r@[i]).name@ == repos@[i].owner.login@ + "/"@ + repos@[i].name@
                &&& r@[i].owner == repos@[i].owner
                &&& r@[i].stargazers_count == repos@[i].stargazers_count
            },
{
    let ghost all = repos@;
    let mut out: Vec<Repo> = Vec::new();
    let mut rest = repos;
    while rest.len() > 0
        invariant
            all =~= all.take(all.len() - rest@.len()) + rest@,
            out@.len() == all.len() - rest@.len(),
            forall|i: int|
                0 <= i < out@.len() ==> {
                    &&& (#[trigger] out@[i]).name@ == all[i].owner.login@ + "/"@ + all[i].name@
                    &&& out@[i].owner == all[i].owner
                    &&& out@[i].stargazers_count == all[i].stargazers_count
                },
        decreases rest@.len(),
    {
        let ghost prev = rest@;
        let next = rest.remove(0);
        proof {
            assert(prev.drop_first() =~= rest@);
            assert(next == all[out@.len() as int]);
        }
        let name = next.owner.login.clone().concat("/").concat(next.name.as_str());
        out.push(Repo { stargazers_count: next.stargazers_count, name, owner: next.owner });
    }
    out
}

/// The column width for star-count alignment: the longest display name
/// among the displayed repositories.
pub open spec fn spec_max_name_len(entries: Seq<(Seq<char>, usize)>) -> nat
    decreases entries.len(),
{
    if entries.len() == 0 {
        0
    } else {
        let rest = spec_max_name_len(entries.drop_last());
        if entries.last().0.len() > rest {
            entries.last().0.len()
        } else {
            rest
        }
    }
}

fn max_name_len(repos: &Vec<Repo>) -> (w: usize)
    ensures
        w as nat == spec_max_name_len(spec_display_entries(repos@, false)),
{
    let mut w: usize = 0;
    let mut i: usize = 0;
    while i < repos.len()
        invariant
            i <= repos@.len(),
            w as nat == spec_max_name_len(spec_display_entries(repos@.take(i as int), false)),
        decreases repos@.len() - i,
    {
        proof {
            assert(spec_display_entries(repos@.take(i + 1), false).drop_last()
                =~= spec_display_entries(repos@.take(i as int), false));
            assert(spec_display_entries(repos@.take(i + 1), false).last() == (
                repos@[i as int].name@,
                repos@[i as int].stargazers_count,
            ));
        }
        let l = repos[i].name.as_str().unicode_len();
        if l > w {
            w = l;
        }
        i += 1;
    }
    proof {
        assert(repos@.take(i as int) =~= repos@);
    }
    w
}

/// `n` spaces.
pub open spec fn spec_spaces(n: nat) -> Seq<char>
    decreases n,
{
    if n == 0 {
        Seq::empty()
    } else {
        spec_spaces((n - 1) as nat).push(' ')
    }
}

fn append_spaces(out: &mut String, n: usize)
    ensures
        final(out)@ == old(out)@ + spec_spaces(n as nat),
{
    let mut i: usize = 0;
    while i < n
        invariant
            i <= n,
            out@ == old(out)@ + spec_spaces(i as nat),
        decreases n - i,
    {
        out.append(" ");
        proof {
            reveal_strlit(" ");
            assert(out@ =~= old(out)@ + spec_spaces((i + 1) as nat));
        }
        i += 1;
    }
    proof {
        assert(out@ =~= old(out)@ + spec_spaces(n as nat));
    }
}

/// One line of the repository list: the display name padded to the column
/// width, the star marker, and the star count.
pub open spec fn spec_repo_line(entry: (Seq<char>, usize), width: nat) -> Seq<char> {
    let pad = if entry.0.len() <= width {
        (width - entry.0.len()) as nat
    } else {
        0
    };
    entry.0 + spec_spaces(pad) + "   \u{2605}  "@ + spec_decimal(entry.1 as nat) + "\n"@
}

/// The repository list, one line per displayed repository, in order.
pub open spec fn spec_repo_lines(entries: Seq<(Seq<char>, usize)>, width: nat) -> Seq<char>
    decreases entries.len(),
{
    if entries.len() == 0 {
        Seq::empty()
    } else {
        spec_repo_lines(entries.drop_last(), width) + spec_repo_line(entries.last(), width)
    }
}

/// The whole default text report: the grand total; the user's own total
/// when both sides are present; the organizations' total when any
/// organization repositories are present; then, after a blank line, one
/// line per displayed repository, star counts aligned to the longest name.
pub open spec fn spec_default_output(
    entries: Seq<(Seq<char>, usize)>,
    total: int,
    user_stars: Seq<usize>,
    org_stars: Seq<usize>,
    login: Seq<char>,
) -> Seq<char> {
    let header = "Total: "@ + spec_decimal(total as nat) + "\n"@;
    let user_line = if user_stars.len() > 0 && org_stars.len() > 0 {
        "Total for "@ + login + ": "@ + spec_decimal(spec_sum(user_stars) as nat) + "\n"@
    } else {
        Seq::<char>::empty()
    };
    let orgs_line = if org_stars.len() > 0 {
        "Total for orgs: "@ + spec_decimal(spec_sum(org_stars) as nat) + "\n"@
    } else {
        Seq::<char>::empty()
    };
    let separator = if entries.len() > 0 {
        "\n"@
    } else {
        Seq::<char>::empty()
    };
    header + user_line + orgs_line + separator + spec_repo_lines(
        entries,
        spec_max_name_len(entries),
    )
}

proof fn lemma_sum_take(stars: Seq<usize>, i: int)
    requires
        0 <= i <= stars.len(),
    ensures
        spec_sum(stars.take(i)) <= spec_sum(stars),
    decreases stars.len() - i,
{
    if i == stars.len() {
        assert(stars.take(i) =~= stars);
    } else {
        lemma_sum_take(stars, i + 1);
        assert(stars.take(i + 1).drop_last() =~= stars.take(i));
    }
}

fn sum_stars_vec(stars: &Vec<usize>) -> (r: usize)
    requires
        spec_sum(stars@) <= usize::MAX,
    ensures
        r == spec_sum(stars@),
{
    let mut r: usize = 0;
    let mut i: usize = 0;
    while i < stars.len()
        invariant
            i <= stars@.len(),
            spec_sum(stars@) <= usize::MAX,
            r == spec_sum(stars@.take(i as int)),
        decreases stars@.len() - i,
    {
        proof {
            assert(stars@.take(i + 1).drop_last() =~= stars@.take(i as int));
            assert(stars@.take(i + 1).last() == stars@[i as int]);
            lemma_sum_take(stars@, i + 1);
            crate::stats::lemma_sum_nonneg(stars@.take(i as int));
        }
        r = r + stars[i];
        i += 1;
    }
    proof {
        assert(stars@.take(i as int) =~= stars@);
    }
    r
}

/// Renders the default text report for an already prepared display list and
/// the precomputed statistics of the complete merged set.
pub fn default_output(repos: Vec<Repo>, stats: RepoStats, login: String) -> (r: Result<
    String,
    Error,
>)
    requires
        spec_sum(stats.total_by_user_only@) <= usize::MAX,
        spec_sum(stats.total_by_orgs_only@) <= usize::MAX,
    ensures
        r matches Ok(out) && out@ == spec_default_output(
            spec_display_entries(repos@, false),
            stats.total as int,
            stats.total_by_user_only@,
            stats.total_by_orgs_only@,
            login@,
        ),
{
    proof {
        crate::stats::lemma_sum_nonneg(stats.total_by_user_only@);
        crate::stats::lemma_sum_nonneg(stats.total_by_orgs_only@);
    }
    let ghost entries = spec_display_entries(repos@, false);
    let mut out = String::from_str("Total: ");
    out.append(usize_to_string(stats.total).as_str());
    out.append("\n");
    if stats.total_by_user_only.len() > 0 && stats.total_by_orgs_only.len() > 0 {
        out.append("Total for ");
        out.append(login.as_str());
        out.append(": ");
        out.append(usize_to_string(sum_stars_vec(&stats.total_by_user_only)).as_str());
        out.append("\n");
    }
    if stats.total_by_orgs_only.len() > 0 {
        out.append("Total for orgs: ");
        out.append(usize_to_string(sum_stars_vec(&stats.total_by_orgs_only)).as_str());
        out.append("\n");
    }
    if repos.len() > 0 {
        out.append("\n");
    }
    let width = max_name_len(&repos);
    let ghost header = out@;
    let mut i: usize = 0;
    while i < repos.len()
        invariant
            i <= repos@.len(),
            entries == spec_display_entries(repos@, false),
            width as nat == spec_max_name_len(entries),
            out@ == header + spec_repo_lines(entries.take(i as int), width as nat),
        decreases repos@.len() - i,
    {
        proof {
            assert(entries.take(i + 1).drop_last() =~= entries.take(i as int));
            assert(entries.take(i + 1).last() == (
                repos@[i as int].name@,
                repos@[i as int].stargazers_count,
            ));
        }
        out.append(repos[i].name.as_str());
        let name_len = repos[i].name.as_str().unicode_len();
        let pad = if name_len <= width {
            width - name_len
        } else {
            0
        };
        append_spaces(&mut out, pad);
        out.append("   \u{2605}  ");
        out.append(usize_to_string(repos[i].stargazers_count).as_str());
        out.append("\n");
        proof {
            assert(out@ =~= header + spec_repo_lines(entries.take(i + 1), width as nat));
        }
        i += 1;
    }
    proof {
        assert(entries.take(i as int) =~= entries);
        assert(out@ =~= spec_default_output(
            entries,
            stats.total as int,
            stats.total_by_user_only@,
            stats.total_by_orgs_only@,
            login@,
        ));
    }
    Ok(out)
}

/// The whole report for a merged repository collection: statistics over the
/// complete set, then the display list — sorted by star count descending,
/// thresholded, limited, and owner-prefixed when organization repositories
/// are present.
pub open spec fn spec_render_output(
    repos: Seq<Repo>,
    login: Seq<char>,
    repo_limit: nat,
    stargazer_threshold: nat,
) -> Seq<char> {
    let user_stars = spec_filter_stars(repos, login, true);
    let org_stars = spec_filter_stars(repos, login, false);
    let display = spec_select_display(spec_sort_desc(repos), stargazer_threshold, repo_limit);
    let entries = spec_display_entries(display, org_stars.len() > 0);
    spec_default_output(entries, spec_total_stars(repos), user_stars, org_stars, login)
}

/// Renders the report: computes the statistics of the complete collection,
/// prepares the display list, and renders the default text output.
pub fn render_output(
    repos: Vec<Repo>,
    login: String,
    repo_limit: usize,
    stargazer_threshold: usize,
) -> (r: Result<String, Error>)
    requires
        spec_total_stars(repos@) <= usize::MAX,
    ensures
        r matches Ok(out) && out@ == spec_render_output(
            repos@,
            login@,
            repo_limit as nat,
            stargazer_threshold as nat,
        ),
{
    proof {
        lemma_filtered_le_total(repos@, login@, true);
        lemma_filtered_le_total(repos@, login@, false);
    }
    let ghost all = repos@;
    let stats = get_stats(&repos, login.as_str());
    let sorted = sort_repos_desc(repos);
    let selected = select_display(sorted, stargazer_threshold, repo_limit);
    let ghost selection = selected@;
    let has_orgs = stats.total_by_orgs_only.len() > 0;
    let display = if has_orgs {
        prefix_repo_names(selected)
    } else {
        selected
    };
    proof {
        assert(spec_display_entries(display@, false) =~= spec_display_entries(
            selection,
            has_orgs,
        ));
    }
    default_output(display, stats, login)
}

} // verus!
