//! What the lists of repositories, worktrees and change requests hold, in what order, and
//! where moves in them lead.
use vstd::prelude::*;

use crate::model::PrSummary;
use crate::model::Session;
use crate::navigation::NavView;
use crate::navigation::PanelFocus;
use crate::navigation::WorktreeListMode;
use crate::navigation_laws::stands_before;

verus! {

// ---------------------------------------------------------------------------
// The order of worktrees
// ---------------------------------------------------------------------------

/// In every list of worktrees the raised ones come first and the lowered ones last: no
/// worktree that is raised stands behind one that is not, and none that is neither stands
/// behind one that is lowered.
pub proof fn law_raised_worktrees_come_first(v: NavView, finishing: bool, p: int, q: int)
    requires
        v.sessions.len() <= usize::MAX,
        0 <= p < q < v.session_list_for(finishing).len(),
    ensures
        ({
            let before = v.sessions[v.session_list_for(finishing)[p] as int];
            let behind = v.sessions[v.session_list_for(finishing)[q] as int];
            &&& behind.visibility > 0 ==> before.visibility > 0
            &&& behind.visibility == 0 ==> before.visibility >= 0
        }),
{
    let list = v.session_list_for(finishing);
    crate::navigation_laws::law_list_is_sorted(v, finishing);
    assert(stands_before(v, list[p], list[q]));
}

/// Worktrees that are raised alike are ordered by the label of their repository, those of
/// one repository by their names, and those of one name as they came.
pub proof fn law_worktrees_are_ordered_by_repository_and_name(
    v: NavView,
    finishing: bool,
    p: int,
    q: int,
)
    requires
        v.sessions.len() <= usize::MAX,
        0 <= p < q < v.session_list_for(finishing).len(),
        ({
            let a = v.sessions[v.session_list_for(finishing)[p] as int].visibility;
            let b = v.sessions[v.session_list_for(finishing)[q] as int].visibility;
            (a > 0 && b > 0) || (a == 0 && b == 0) || (a < 0 && b < 0)
        }),
    ensures
        ({
            let i = v.session_list_for(finishing)[p];
            let j = v.session_list_for(finishing)[q];
            let before = v.sessions[i as int];
            let behind = v.sessions[j as int];
            let first = crate::navigation::sort_name(before);
            let second = crate::navigation::sort_name(behind);
            &&& !crate::order::text_less(behind.repo_label@, before.repo_label@)
            &&& before.repo_label@ == behind.repo_label@ ==> !crate::order::text_less(
                second,
                first,
            )
            &&& before.repo_label@ == behind.repo_label@ && first == second ==> i < j
        }),
{
    let list = v.session_list_for(finishing);
    crate::navigation_laws::law_list_is_sorted(v, finishing);
    assert(stands_before(v, list[p], list[q]));
    let a = v.sessions[list[p] as int];
    let b = v.sessions[list[q] as int];
    crate::order::law_text_order_is_total(a.repo_label@, b.repo_label@);
    crate::order::law_text_order_is_total(b.repo_label@, a.repo_label@);
    crate::order::law_text_order_is_total(
        crate::navigation::sort_name(a),
        crate::navigation::sort_name(b),
    );
    crate::order::law_text_order_is_total(
        crate::navigation::sort_name(b),
        crate::navigation::sort_name(a),
    );
}

/// The name that a worktree is ordered by is that of its directory, or its branch where
/// the directory has no name, without regard to case.
pub proof fn law_names_of_worktrees(session: Session)
    ensures
        crate::text::file_name_of(session.path@) is None ==> crate::navigation::sort_name(session)
            == crate::text::lower(session.branch@),
        crate::text::file_name_of(session.path@) matches Some(name) ==> (if crate::text::trimmed(
            name,
        ).len() == 0 {
            crate::navigation::sort_name(session) == crate::text::lower(session.branch@)
        } else {
            crate::navigation::sort_name(session) == crate::text::lower(name)
        }),
{
}

// ---------------------------------------------------------------------------
// What lists hold
// ---------------------------------------------------------------------------

/// A list of worktrees holds the worktrees that are not hidden, of the current repository
/// or of all, off the default branch, and that the filter lets through: in the merges those
/// whose change request is finishing, in the worktrees the others.
pub proof fn law_listed_worktrees(v: NavView, index: usize)
    requires
        v.sessions.len() <= usize::MAX,
    ensures
        ({
            let s = v.sessions[index as int];
            let finishing = s.pr.summary is Some && s.pr.summary->0.finishing;
            let shown = index < v.sessions.len() && !s.hidden && (v.worktree_list_mode
                == WorktreeListMode::Global || s.repo_index == v.current_repo) && !(s.repo_index
                < v.repos.len() && v.repos[s.repo_index as int].config.default_branch@
                == s.branch@) && crate::navigation::fits(
                s,
                crate::text::lower(crate::text::trimmed(v.worktree_filter)),
            );
            &&& v.session_list_for(true).contains(index) <==> shown && finishing
            &&& v.session_list_for(false).contains(index) <==> shown && !finishing
            &&& v.session_list() == v.session_list_for(v.focused_panel == PanelFocus::Merges)
        }),
{
    crate::navigation_laws::law_list_is_exact(v, true, index);
    crate::navigation_laws::law_list_is_exact(v, false, index);
}

/// A filter lets a worktree through whose branch, repository, summary, path or one of whose
/// columns holds it, without regard to case; an empty one lets every worktree through.
pub proof fn law_filter_looks_at_what_is_shown(session: Session, needle: Seq<char>)
    ensures
        crate::navigation::fits(session, needle) <==> (needle.len() == 0
            || crate::text::has_text(crate::text::lower(session.branch@), needle)
            || crate::text::has_text(crate::text::lower(session.repo_label@), needle)
            || crate::text::has_text(crate::text::lower(session.prompt_summary@), needle)
            || crate::text::has_text(crate::text::lower(session.path_display@), needle)
            || exists|i: int|
            0 <= i < session.wt_columns@.len() && crate::text::has_text(
                crate::text::lower((#[trigger] session.wt_columns@[i]).value@),
                needle,
            )),
{
    if exists|i: int|
        0 <= i < session.wt_columns@.len() && crate::text::has_text(
            crate::text::lower((#[trigger] session.wt_columns@[i]).value@),
            needle,
        ) {
        let i = choose|i: int|
            0 <= i < session.wt_columns@.len() && crate::text::has_text(
                crate::text::lower((#[trigger] session.wt_columns@[i]).value@),
                needle,
            );
        assert(crate::navigation::mentions(session.wt_columns@[i].value@, needle));
    }
}

proof fn lemma_repo_list(v: NavView, n: nat)
    requires
        n <= v.repos.len(),
        n <= usize::MAX,
    ensures
        forall|k: int|
            0 <= k < v.repo_list_upto(n).len() ==> (#[trigger] v.repo_list_upto(n)[k]) < n
                && v.shows_repo(v.repo_list_upto(n)[k] as int),
        forall|i: usize|
            i < n && v.shows_repo(i as int) ==> #[trigger] v.repo_list_upto(n).contains(i),
        forall|p: int, q: int|
            0 <= p < q < v.repo_list_upto(n).len() ==> (#[trigger] v.repo_list_upto(n)[p])
                < #[trigger] v.repo_list_upto(n)[q],
    decreases n,
{
    if n > 0 {
        lemma_repo_list(v, (n - 1) as nat);
        let before = v.repo_list_upto((n - 1) as nat);
        let list = v.repo_list_upto(n);
        assert forall|k: int| 0 <= k < list.len() implies (#[trigger] list[k]) < n
            && v.shows_repo(list[k] as int) by {
            if k < before.len() {
                assert(list[k] == before[k]);
            }
        }
        assert forall|p: int, q: int| 0 <= p < q < list.len() implies (#[trigger] list[p])
            < #[trigger] list[q] by {
            assert(list[p] == before[p]);
            if q < before.len() {
                assert(list[q] == before[q]);
            }
        }
        assert forall|i: usize| i < n && v.shows_repo(i as int) implies #[trigger] list.contains(
            i,
        ) by {
            if i < n - 1 {
                assert(before.contains(i));
                let k = choose|k: int| 0 <= k < before.len() && before[k] == i;
                assert(list[k] == i);
            } else {
                assert(list[before.len() as int] == i);
            }
        }
    }
}

/// The list of repositories holds, in their order, those whose label, path or key the
/// filter is found in, without regard to case; an empty filter lets every one through.
pub proof fn law_listed_repositories(v: NavView, index: usize)
    requires
        v.repos.len() <= usize::MAX,
    ensures
        ({
            let needle = crate::text::lower(crate::text::trimmed(v.repo_filter));
            let repo = v.repos[index as int];
            v.repo_list().contains(index) <==> index < v.repos.len() && (needle.len() == 0
                || crate::text::has_text(crate::text::lower(repo.label@), needle)
                || crate::text::has_text(crate::text::lower(repo.repo.root@), needle)
                || exists|c: char| repo.key == Some(c) && needle == #[trigger] seq![c])
        }),
        forall|p: int, q: int|
            0 <= p < q < v.repo_list().len() ==> (#[trigger] v.repo_list()[p])
                < #[trigger] v.repo_list()[q],
{
    lemma_repo_list(v, v.repos.len());
    let needle = crate::text::lower(crate::text::trimmed(v.repo_filter));
    if index < v.repos.len() {
        match v.repos[index as int].key {
            Some(c) => {
                assert(seq![c] == needle || seq![c] != needle);
            },
            None => {},
        }
    }
}

// ---------------------------------------------------------------------------
// Change requests
// ---------------------------------------------------------------------------

/// A change request is open where it is not merged and its state says so, without regard to
/// case.
pub proof fn law_open_requests(summary: PrSummary)
    ensures
        crate::git_actions::is_open(summary) <==> !summary.merged && summary.state@.len() == 4
            && crate::text::lower_char(summary.state@[0]) == 'o' && crate::text::lower_char(
            summary.state@[1],
        ) == 'p' && crate::text::lower_char(summary.state@[2]) == 'e' && crate::text::lower_char(
            summary.state@[3],
        ) == 'n',
{
    reveal_strlit("OPEN");
    let wanted = crate::text::lower("OPEN"@);
    let given = crate::text::lower(summary.state@);
    assert(crate::text::lower_char('O') == 'o');
    assert(crate::text::lower_char('P') == 'p');
    assert(crate::text::lower_char('E') == 'e');
    assert(crate::text::lower_char('N') == 'n');
    assert(wanted =~= seq!['o', 'p', 'e', 'n']);
    if summary.state@.len() == 4 && crate::text::lower_char(summary.state@[0]) == 'o'
        && crate::text::lower_char(summary.state@[1]) == 'p' && crate::text::lower_char(
        summary.state@[2],
    ) == 'e' && crate::text::lower_char(summary.state@[3]) == 'n' {
        assert(given =~= wanted);
    }
    if given == wanted {
        assert(given[0] == 'o' && given[1] == 'p' && given[2] == 'e' && given[3] == 'n');
    }
}

proof fn lemma_listed_requests(summaries: Seq<PrSummary>, n: nat)
    requires
        n <= summaries.len(),
        n <= usize::MAX,
    ensures
        forall|k: int|
            0 <= k < crate::navigation::listed_requests(summaries, n).len() ==> (
            #[trigger] crate::navigation::listed_requests(summaries, n)[k]) < n
                && crate::navigation::is_listed_request(
                summaries[crate::navigation::listed_requests(summaries, n)[k] as int],
            ),
        forall|i: usize|
            i < n && crate::navigation::is_listed_request(summaries[i as int]) ==>
            #[trigger] crate::navigation::listed_requests(summaries, n).contains(i),
        forall|p: int, q: int|
            0 <= p < q < crate::navigation::listed_requests(summaries, n).len() ==> (
            #[trigger] crate::navigation::listed_requests(summaries, n)[p])
                < #[trigger] crate::navigation::listed_requests(summaries, n)[q],
    decreases n,
{
    if n > 0 {
        lemma_listed_requests(summaries, (n - 1) as nat);
        let before = crate::navigation::listed_requests(summaries, (n - 1) as nat);
        let list = crate::navigation::listed_requests(summaries, n);
        assert forall|k: int| 0 <= k < list.len() implies (#[trigger] list[k]) < n
            && crate::navigation::is_listed_request(summaries[list[k] as int]) by {
            if k < before.len() {
                assert(list[k] == before[k]);
            }
        }
        assert forall|p: int, q: int| 0 <= p < q < list.len() implies (#[trigger] list[p])
            < #[trigger] list[q] by {
            assert(list[p] == before[p]);
            if q < before.len() {
                assert(list[q] == before[q]);
            }
        }
        assert forall|i: usize|
            i < n && crate::navigation::is_listed_request(
                summaries[i as int],
            ) implies #[trigger] list.contains(i) by {
            if i < n - 1 {
                assert(before.contains(i));
                let k = choose|k: int| 0 <= k < before.len() && before[k] == i;
                assert(list[k] == i);
            } else {
                assert(list[before.len() as int] == i);
            }
        }
    }
}

/// The change requests that one can move between are, in their order, those of the current
/// repository with an identity that are neither merged nor closed.
pub proof fn law_listed_requests(v: NavView, position: usize)
    requires
        v.current_repo < v.repos.len(),
        v.repos[v.current_repo as int].pr_summaries@.len() <= usize::MAX,
    ensures
        ({
            let all = v.repos[v.current_repo as int].pr_summaries@;
            let summary = all[position as int];
            let state = crate::text::lower(crate::text::trimmed(summary.state@));
            v.current_requests().contains(position) <==> position < all.len() && !summary.merged
                && state != "closed"@ && state != "merged"@ && summary.identity is Some
        }),
        forall|p: int, q: int|
            0 <= p < q < v.current_requests().len() ==> (#[trigger] v.current_requests()[p])
                < #[trigger] v.current_requests()[q],
{
    let all = v.repos[v.current_repo as int].pr_summaries@;
    lemma_listed_requests(all, all.len());
}

proof fn lemma_request_with(summaries: Seq<PrSummary>, list: Seq<usize>, identity: Seq<char>)
    requires
        list.len() <= usize::MAX,
    ensures
        match crate::navigation::request_with(summaries, list, identity) {
            Some(at) => at < list.len() && crate::text::opt_text(
                summaries[list[at as int] as int].identity,
            ) == Some(identity) && forall|k: int|
                0 <= k < at ==> crate::text::opt_text(
                    summaries[(#[trigger] list[k]) as int].identity,
                ) != Some(identity),
            None => forall|k: int|
                0 <= k < list.len() ==> crate::text::opt_text(
                    summaries[(#[trigger] list[k]) as int].identity,
                ) != Some(identity),
        },
    decreases list.len(),
{
    if list.len() > 0 {
        let init = list.drop_last();
        lemma_request_with(summaries, init, identity);
        match crate::navigation::request_with(summaries, init, identity) {
            Some(at) => {
                assert(init[at as int] == list[at as int]);
                assert forall|k: int| 0 <= k < at implies crate::text::opt_text(
                    summaries[(#[trigger] list[k]) as int].identity,
                ) != Some(identity) by {
                    assert(init[k] == list[k]);
                }
            },
            None => {
                assert forall|k: int| 0 <= k < init.len() implies crate::text::opt_text(
                    summaries[(#[trigger] list[k]) as int].identity,
                ) != Some(identity) by {
                    assert(init[k] == list[k]);
                }
            },
        }
    }
}

/// The selected change request is the listed one with the identity that is remembered for
/// the repository; the shown one is that, or else the first of the list.
pub proof fn law_selected_request(v: NavView)
    requires
        v.current_repo < v.repos.len(),
        v.repos[v.current_repo as int].pr_summaries@.len() <= usize::MAX,
    ensures
        ({
            let all = v.repos[v.current_repo as int].pr_summaries@;
            let list = v.current_requests();
            let root = crate::text::bare_path(v.repos[v.current_repo as int].repo.root@);
            let known = v.pr_by_repo.dom().contains(root) && exists|k: int|
                0 <= k < list.len() && crate::text::opt_text(
                    all[(#[trigger] list[k]) as int].identity,
                ) == Some(v.pr_by_repo[root]);
            &&& v.selected_request() is Some <==> known
            &&& known ==> v.selected_request()->0 < list.len() && crate::text::opt_text(
                all[list[v.selected_request()->0 as int] as int].identity,
            ) == Some(v.pr_by_repo[root])
            &&& known ==> v.shown_request() == Some(list[v.selected_request()->0 as int])
            &&& known ==> v.selected_number() == Some(
                all[list[v.selected_request()->0 as int] as int].number,
            )
            &&& !known ==> v.selected_number() is None
            &&& !known && list.len() > 0 ==> v.shown_request() == Some(list[0])
            &&& list.len() == 0 ==> v.shown_request() is None
        }),
{
    let all = v.repos[v.current_repo as int].pr_summaries@;
    let list = v.current_requests();
    let root = crate::text::bare_path(v.repos[v.current_repo as int].repo.root@);
    lemma_listed_requests(all, all.len());
    lemma_list_len(all, all.len());
    if v.pr_by_repo.dom().contains(root) {
        lemma_request_with(all, list, v.pr_by_repo[root]);
    }
}

proof fn lemma_list_len(summaries: Seq<PrSummary>, n: nat)
    ensures
        crate::navigation::listed_requests(summaries, n).len() <= n,
    decreases n,
{
    if n > 0 {
        lemma_list_len(summaries, (n - 1) as nat);
    }
}

/// Where the list of change requests is not empty, making sure that one is selected keeps a
/// selection that is listed and selects the first one otherwise; where it is empty, nothing
/// stays selected.
pub proof fn law_first_request_is_selected(v: NavView)
    requires
        v.current_repo < v.repos.len(),
        v.repos[v.current_repo as int].pr_summaries@.len() <= usize::MAX,
    ensures
        ({
            let all = v.repos[v.current_repo as int].pr_summaries@;
            let list = v.current_requests();
            let root = crate::text::bare_path(v.repos[v.current_repo as int].repo.root@);
            let after = v.with_request();
            &&& list.len() == 0 ==> !after.pr_by_repo.dom().contains(root)
            &&& list.len() > 0 && v.selected_request() is Some ==> after == v
            &&& list.len() > 0 && v.selected_request() is None
                ==> after.pr_by_repo.dom().contains(root) && crate::text::opt_text(
                all[list[0] as int].identity,
            ) == Some(after.pr_by_repo[root])
            &&& after.sessions == v.sessions
            &&& after.repos == v.repos
            &&& after.current_repo == v.current_repo
            &&& after.selected == v.selected
            &&& after.focused_panel == v.focused_panel
        }),
{
    let all = v.repos[v.current_repo as int].pr_summaries@;
    let list = v.current_requests();
    lemma_listed_requests(all, all.len());
    if list.len() > 0 {
        assert(list[0] < all.len() && crate::navigation::is_listed_request(all[list[0] as int]));
    }
}

/// The review is of the open change request that is selected by its number, or else of the
/// first open one.
pub proof fn law_request_to_review(v: NavView)
    requires
        v.current_repo < v.repos.len(),
        v.repos[v.current_repo as int].pr_summaries@.len() <= usize::MAX,
    ensures
        ({
            let all = v.repos[v.current_repo as int].pr_summaries@;
            let list = v.current_open_requests();
            match v.request_to_review() {
                Some(at) => at < all.len() && crate::git_actions::is_open(all[at as int]) && (
                v.selected_number() matches Some(number) ==> all[at as int].number == number
                    || forall|k: int|
                    0 <= k < all.len() && crate::git_actions::is_open(#[trigger] all[k])
                        ==> all[k].number != number),
                None => forall|k: int|
                    0 <= k < all.len() ==> !crate::git_actions::is_open(#[trigger] all[k]),
            }
        }),
{
    let all = v.repos[v.current_repo as int].pr_summaries@;
    let list = v.current_open_requests();
    crate::navigation::lemma_open_requests(all, all.len());
    match v.selected_number() {
        Some(number) => {
            lemma_numbered(all, list, number);
        },
        None => {},
    }
    if v.request_to_review() is None {
        assert forall|k: int| 0 <= k < all.len() implies !crate::git_actions::is_open(
            #[trigger] all[k],
        ) by {
            if crate::git_actions::is_open(all[k]) {
                let j = choose|j: int| 0 <= j < list.len() && #[trigger] list[j] == k;
                assert(list.len() > 0);
            }
        }
    }
    match (v.selected_number(), v.request_to_review()) {
        (Some(number), Some(at)) => {
            if all[at as int].number != number {
                assert forall|k: int|
                    0 <= k < all.len() && crate::git_actions::is_open(
                        #[trigger] all[k],
                    ) implies all[k].number != number by {
                    let j = choose|j: int| 0 <= j < list.len() && #[trigger] list[j] == k;
                    assert(all[list[j] as int] == all[k]);
                }
            }
        },
        _ => {},
    }
}

proof fn lemma_numbered(summaries: Seq<PrSummary>, list: Seq<usize>, number: u64)
    ensures
        match crate::navigation::request_numbered(summaries, list, number) {
            Some(found) => list.contains(found) && summaries[found as int].number == number,
            None => forall|k: int|
                0 <= k < list.len() ==> summaries[(#[trigger] list[k]) as int].number != number,
        },
    decreases list.len(),
{
    if list.len() > 0 {
        let init = list.drop_last();
        lemma_numbered(summaries, init, number);
        assert(list[list.len() - 1] == list.last());
        match crate::navigation::request_numbered(summaries, init, number) {
            Some(found) => {
                let k = choose|k: int| 0 <= k < init.len() && init[k] == found;
                assert(list[k] == found);
            },
            None => {
                assert forall|k: int| 0 <= k < init.len() implies summaries[(
                #[trigger] list[k]) as int].number != number by {
                    assert(init[k] == list[k]);
                }
            },
        }
    }
}

} // verus!
