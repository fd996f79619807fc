//! What holds of the navigation as a whole.
use vstd::prelude::*;

use crate::navigation::key_less;
use crate::navigation::NavView;
use crate::navigation::SortKey;
use crate::navigation::Step;

verus! {

proof fn lemma_key_order(a: SortKey, b: SortKey, c: SortKey)
    ensures
        !key_less(a, a),
        a != b ==> key_less(a, b) != key_less(b, a),
        key_less(a, b) && key_less(b, c) ==> key_less(a, c),
{
    crate::order::law_text_order_is_total(a.label, a.label);
    crate::order::law_text_order_is_total(a.name, a.name);
    crate::order::law_text_order_is_total(a.label, b.label);
    crate::order::law_text_order_is_total(a.name, b.name);
    if a.rank == b.rank && a.label == b.label && a.name == b.name {
        assert(a =~= b);
    }
    if key_less(a, b) && key_less(b, c) {
        crate::order::law_text_order_is_total(a.label, c.label);
        crate::order::law_text_order_is_total(b.label, c.label);
        if a.rank == b.rank && b.rank == c.rank {
            if a.label != b.label && b.label != c.label {
                crate::order::law_text_order_is_transitive(a.label, b.label, c.label);
            }
            if a.label == b.label && b.label == c.label {
                crate::order::law_text_order_is_transitive(a.name, b.name, c.name);
            }
        }
    }
}

/// The place of a worktree in the list.
pub open spec fn key_at(v: NavView, index: usize) -> SortKey {
    crate::navigation::sort_key(v.sessions[index as int])
}

/// Whether a worktree stands before another in the list: by its place, and by its
/// number where the places are the same.
pub open spec fn stands_before(v: NavView, a: usize, b: usize) -> bool {
    key_less(key_at(v, a), key_at(v, b)) || (key_at(v, a) == key_at(v, b) && a < b)
}

/// Whether a list is in order.
pub open spec fn in_order(v: NavView, list: Seq<usize>) -> bool {
    forall|p: int, q: int|
        0 <= p < q < list.len() ==> stands_before(v, #[trigger] list[p], #[trigger] list[q])
}

proof fn lemma_before_transitive(v: NavView, a: usize, b: usize, c: usize)
    requires
        stands_before(v, a, b),
        stands_before(v, b, c),
    ensures
        stands_before(v, a, c),
{
    lemma_key_order(key_at(v, a), key_at(v, b), key_at(v, c));
}

proof fn lemma_placed(v: NavView, list: Seq<usize>, index: usize)
    requires
        in_order(v, list),
        forall|k: int| 0 <= k < list.len() ==> (#[trigger] list[k]) < index,
    ensures
        in_order(v, crate::navigation::placed(v.sessions, list, index)),
        forall|x: usize| #[trigger]
            crate::navigation::placed(v.sessions, list, index).contains(x) <==> (x == index
                || list.contains(x)),
        crate::navigation::placed(v.sessions, list, index).len() == list.len() + 1,
    decreases list.len(),
{
    let result = crate::navigation::placed(v.sessions, list, index);
    if list.len() == 0 || !key_less(key_at(v, index), key_at(v, list.last())) {
        assert(result == list.push(index));
        assert forall|x: usize| #[trigger] result.contains(x) <==> (x == index || list.contains(
            x,
        )) by {
            if list.contains(x) {
                let k = choose|k: int| 0 <= k < list.len() && list[k] == x;
                assert(result[k] == x);
            }
            if x == index {
                assert(result[list.len() as int] == x);
            }
            if result.contains(x) && x != index {
                let k = choose|k: int| 0 <= k < result.len() && result[k] == x;
                assert(list[k] == x);
            }
        }
        assert forall|p: int, q: int| 0 <= p < q < result.len() implies stands_before(
            v,
            #[trigger] result[p],
            #[trigger] result[q],
        ) by {
            if q < list.len() {
                assert(stands_before(v, list[p], list[q]));
            } else {
                let last = list[list.len() - 1];
                lemma_key_order(key_at(v, index), key_at(v, last), key_at(v, last));
                assert(stands_before(v, last, index));
                if p < list.len() - 1 {
                    assert(stands_before(v, list[p], last));
                    lemma_before_transitive(v, list[p], last, index);
                }
            }
        }
    } else {
        let init = list.drop_last();
        let last = list.last();
        assert forall|k: int| 0 <= k < init.len() implies (#[trigger] init[k]) < index by {
            assert(init[k] == list[k]);
        }
        assert forall|p: int, q: int| 0 <= p < q < init.len() implies stands_before(
            v,
            #[trigger] init[p],
            #[trigger] init[q],
        ) by {
            assert(stands_before(v, list[p], list[q]));
        }
        lemma_placed(v, init, index);
        let inner = crate::navigation::placed(v.sessions, init, index);
        assert(result == inner.push(last));
        assert forall|x: usize| #[trigger] result.contains(x) <==> (x == index || list.contains(
            x,
        )) by {
            if list.contains(x) {
                let k = choose|k: int| 0 <= k < list.len() && list[k] == x;
                if k < init.len() {
                    assert(init[k] == x);
                    assert(inner.contains(x));
                } else {
                    assert(result[inner.len() as int] == x);
                }
            }
            if inner.contains(x) {
                let k = choose|k: int| 0 <= k < inner.len() && inner[k] == x;
                assert(result[k] == x);
            }
            if result.contains(x) {
                let k = choose|k: int| 0 <= k < result.len() && result[k] == x;
                if k < inner.len() {
                    assert(inner[k] == x);
                    if x != index {
                        let j = choose|j: int| 0 <= j < init.len() && init[j] == x;
                        assert(list[j] == x);
                    }
                } else {
                    assert(list[list.len() - 1] == x);
                }
            }
            if x == index {
                assert(inner.contains(x));
            }
        }
        assert forall|p: int, q: int| 0 <= p < q < result.len() implies stands_before(
            v,
            #[trigger] result[p],
            #[trigger] result[q],
        ) by {
            if q < inner.len() {
                assert(stands_before(v, inner[p], inner[q]));
            } else {
                assert(inner.contains(inner[p]));
                if inner[p] != index {
                    let j = choose|j: int| 0 <= j < init.len() && init[j] == inner[p];
                    assert(stands_before(v, list[j], list[list.len() - 1]));
                }
            }
        }
    }
}

proof fn lemma_list_upto(v: NavView, finishing: bool, n: nat)
    requires
        n <= v.sessions.len(),
        n <= usize::MAX,
    ensures
        in_order(v, v.session_list_upto(finishing, n)),
        forall|x: usize| #[trigger]
            v.session_list_upto(finishing, n).contains(x) <==> (x < n && v.shows_session(
                finishing,
                x as int,
            )),
    decreases n,
{
    if n > 0 {
        lemma_list_upto(v, finishing, (n - 1) as nat);
        let before = v.session_list_upto(finishing, (n - 1) as nat);
        crate::navigation::lemma_session_list_bounds(v, finishing, (n - 1) as nat);
        if v.shows_session(finishing, n - 1) {
            lemma_placed(v, before, (n - 1) as usize);
        }
    }
}

/// A list of worktrees holds exactly those that it is to show.
pub proof fn law_list_is_exact(v: NavView, finishing: bool, index: usize)
    requires
        v.sessions.len() <= usize::MAX,
    ensures
        v.session_list_for(finishing).contains(index) <==> index < v.sessions.len()
            && v.shows_session(finishing, index as int),
{
    lemma_list_upto(v, finishing, v.sessions.len());
}

/// A list of worktrees is sorted: raised ones first and lowered ones last, then by
/// repository and by name, and as they came where nothing tells them apart. No
/// worktree is in it twice.
pub proof fn law_list_is_sorted(v: NavView, finishing: bool)
    requires
        v.sessions.len() <= usize::MAX,
    ensures
        in_order(v, v.session_list_for(finishing)),
        v.session_list_for(finishing).no_duplicates(),
{
    lemma_list_upto(v, finishing, v.sessions.len());
    let list = v.session_list_for(finishing);
    assert forall|p: int, q: int| 0 <= p < list.len() && 0 <= q < list.len() && p != q implies list[p]
        != list[q] by {
        if p < q {
            assert(stands_before(v, list[p], list[q]));
            lemma_key_order(key_at(v, list[p]), key_at(v, list[q]), key_at(v, list[q]));
        } else {
            assert(stands_before(v, list[q], list[p]));
            lemma_key_order(key_at(v, list[q]), key_at(v, list[p]), key_at(v, list[p]));
        }
    }
}

/// A hidden worktree is in no list, and so it is never the selected one.
pub proof fn law_hidden_worktrees_are_not_listed(v: NavView, index: usize)
    requires
        v.sessions.len() <= usize::MAX,
        index < v.sessions.len(),
        v.sessions[index as int].hidden,
    ensures
        !v.session_list().contains(index),
        v.selected == index ==> v.selected_session() is None,
{
    law_list_is_exact(v, v.focused_panel == crate::navigation::PanelFocus::Merges, index);
}

/// Selecting a worktree of the list keeps it in the list.
pub proof fn law_selected_worktree_stays_listed(v: NavView, index: usize)
    requires
        v.sessions.len() <= usize::MAX,
        v.session_list().contains(index),
    ensures
        v.with_session(index).selected_session() == Some(index),
{
    let finishing = v.focused_panel == crate::navigation::PanelFocus::Merges;
    law_list_is_exact(v, finishing, index);
    let after = v.with_session(index);
    law_list_is_exact(after, finishing, index);
    let was = v.sessions[index as int];
    let is = after.sessions[index as int];
    assert(is.wt_columns == was.wt_columns);
    assert(crate::navigation::fits(is, crate::navigation::needle_of(after.worktree_filter))
        == crate::navigation::fits(was, crate::navigation::needle_of(v.worktree_filter)));
}

proof fn lemma_listed_is_in_list(
    sessions: Seq<crate::model::Session>,
    list: Seq<usize>,
    path: Seq<char>,
    repo_index: usize,
)
    ensures
        crate::navigation::listed_at_path(sessions, list, path) matches Some(index)
            ==> list.contains(index) && crate::text::same_path(sessions[index as int].path@, path),
        crate::navigation::listed_of_repo(sessions, list, repo_index) matches Some(index)
            ==> list.contains(index) && sessions[index as int].repo_index == repo_index,
    decreases list.len(),
{
    if list.len() > 0 {
        let init = list.drop_last();
        lemma_listed_is_in_list(sessions, init, path, repo_index);
        assert(list[list.len() - 1] == list.last());
        assert forall|x: usize| init.contains(x) implies list.contains(x) by {
            let k = choose|k: int| 0 <= k < init.len() && init[k] == x;
            assert(list[k] == x);
        }
    }
}

/// A restored selection is in the list, unless the list is empty: then it stands
/// behind the last worktree.
pub proof fn law_restored_selection_is_listed(v: NavView)
    requires
        v.sessions.len() <= usize::MAX,
    ensures
        ({
            let after = v.with_selection_restored();
            if v.session_list().len() == 0 {
                after.selected == v.sessions.len() && after.selected_session() is None
            } else {
                after.selected_session() == Some(after.selected)
            }
        }),
{
    let after = v.with_selection_restored();
    let list = v.session_list();
    let finishing = v.focused_panel == crate::navigation::PanelFocus::Merges;
    match v.remembered() {
        Some(path) => {
            lemma_listed_is_in_list(v.sessions, list, path, v.current_repo);
        },
        None => {
            lemma_listed_is_in_list(v.sessions, list, Seq::empty(), v.current_repo);
        },
    }
    law_list_is_exact(v, finishing, after.selected);
    law_list_is_exact(after, finishing, after.selected);
    assert(after.session_list().contains(after.selected) == list.contains(after.selected));
    if list.len() > 0 {
        assert(list.contains(list[0]));
    }
}

/// Once the selections are valid, the current repository exists, its root is the
/// selected one, and so the selection is found again wherever the repository moves
/// to.
pub proof fn law_valid_selections_exist(v: NavView)
    requires
        v.repos.len() <= usize::MAX,
        v.repos.len() > 0,
    ensures
        v.with_valid_selections().current_repo < v.repos.len(),
        v.with_valid_selections().selected_repo_root
            == v.with_valid_selections().current_root(),
        v.with_valid_selections().selected_repo_root is Some,
{
    let list = v.repo_list();
    lemma_repo_list_bounds(v, v.repos.len());
    match v.selected_repo_root {
        Some(root) => {
            lemma_repo_at_root(v.repos, v.repos.len(), crate::text::bare_path(root));
        },
        None => {},
    }
    if list.len() > 0 {
        assert(list[0] < v.repos.len());
    }
}

proof fn lemma_repo_list_bounds(v: NavView, n: nat)
    requires
        n <= v.repos.len(),
        n <= usize::MAX,
    ensures
        forall|k: int| 0 <= k < v.repo_list_upto(n).len() ==> (#[trigger] v.repo_list_upto(n)[k]) < n,
    decreases n,
{
    if n > 0 {
        lemma_repo_list_bounds(v, (n - 1) as nat);
        let before = v.repo_list_upto((n - 1) as nat);
        let list = v.repo_list_upto(n);
        assert forall|k: int| 0 <= k < list.len() implies (#[trigger] list[k]) < n by {
            if k < before.len() {
                assert(list[k] == before[k]);
            }
        }
    }
}

proof fn lemma_repo_at_root(repos: Seq<crate::model::ManagedRepo>, n: nat, root: Seq<char>)
    requires
        n <= repos.len(),
        n <= usize::MAX,
    ensures
        crate::navigation::repo_at_root(repos, n, root) matches Some(index) ==> index < n
            && crate::text::bare_path(repos[index as int].repo.root@) == root,
        (exists|i: int|
            0 <= i < n && crate::text::bare_path((#[trigger] repos[i]).repo.root@) == root)
            ==> crate::navigation::repo_at_root(repos, n, root) is Some,
    decreases n,
{
    if n > 0 {
        lemma_repo_at_root(repos, (n - 1) as nat, root);
    }
}

proof fn lemma_session_at_path(sessions: Seq<crate::model::Session>, n: nat, path: Seq<char>)
    requires
        n <= sessions.len(),
        n <= usize::MAX,
    ensures
        crate::navigation::session_at_path(sessions, n, path) matches Some(index) ==> index < n
            && crate::text::same_path(sessions[index as int].path@, path),
        (exists|i: int|
            0 <= i < n && crate::text::same_path((#[trigger] sessions[i]).path@, path))
            ==> crate::navigation::session_at_path(sessions, n, path) is Some,
    decreases n,
{
    if n > 0 {
        lemma_session_at_path(sessions, (n - 1) as nat, path);
    }
}

/// Coming back to a snapshot restores the panel, the scroll position, the comment
/// and the list mode; and, where roots and paths are told apart, the repository and
/// the worktree too.
pub proof fn law_snapshot_is_restored(before: NavView, now: NavView)
    requires
        now.repos == before.repos,
        now.sessions == before.sessions,
        before.sessions.len() <= usize::MAX,
        before.repos.len() <= usize::MAX,
        before.current_repo < before.repos.len(),
        before.selected_session() is Some,
        forall|i: int, j: int|
            0 <= i < before.repos.len() && 0 <= j < before.repos.len() && crate::text::same_path(
                (#[trigger] before.repos[i]).repo.root@,
                (#[trigger] before.repos[j]).repo.root@,
            ) ==> i == j,
        forall|i: int, j: int|
            0 <= i < before.sessions.len() && 0 <= j < before.sessions.len()
                && crate::text::same_path(
                (#[trigger] before.sessions[i]).path@,
                (#[trigger] before.sessions[j]).path@,
            ) ==> i == j,
    ensures
        ({
            let back = now.with_snapshot(before.snapshot());
            &&& back.focused_panel == before.focused_panel
            &&& back.main_focused == before.main_focused
            &&& back.main_scroll == before.main_scroll
            &&& back.selected_comment == before.selected_comment
            &&& back.worktree_list_mode == before.worktree_list_mode
            &&& back.current_repo == before.current_repo
            &&& back.selected == before.selected
        }),
{
    let finishing = before.focused_panel == crate::navigation::PanelFocus::Merges;
    law_list_is_exact(before, finishing, before.selected);
    let root = before.repos[before.current_repo as int].repo.root@;
    let path = before.sessions[before.selected as int].path@;
    lemma_repo_at_root(before.repos, before.repos.len(), crate::text::bare_path(root));
    lemma_session_at_path(before.sessions, before.sessions.len(), path);
    assert(before.repos[before.current_repo as int].repo.root@ == root);
    assert(before.sessions[before.selected as int].path@ == path);
}

/// The panels form a circle: going on and going back undo each other, and four
/// steps lead back to the start.
pub proof fn law_panels_form_a_circle(panel: crate::navigation::PanelFocus)
    ensures
        crate::navigation::panel_before(crate::navigation::panel_after(panel)) == panel,
        crate::navigation::panel_after(crate::navigation::panel_before(panel)) == panel,
        crate::navigation::panel_after(
            crate::navigation::panel_after(
                crate::navigation::panel_after(crate::navigation::panel_after(panel)),
            ),
        ) == panel,
{
}

proof fn lemma_position_exact(list: Seq<usize>, at: int)
    requires
        list.no_duplicates(),
        0 <= at < list.len() <= usize::MAX,
    ensures
        crate::navigation::position_of(list, list[at]) == Some(at as usize),
    decreases list.len(),
{
    let init = list.drop_last();
    if at < list.len() - 1 {
        assert(init.no_duplicates());
        assert(init[at] == list[at]);
        lemma_position_exact(init, at);
    } else {
        lemma_position_absent(init, list[at]);
    }
}

proof fn lemma_position_absent(list: Seq<usize>, value: usize)
    requires
        forall|k: int| 0 <= k < list.len() ==> list[k] != value,
    ensures
        crate::navigation::position_of(list, value) is None,
    decreases list.len(),
{
    if list.len() > 0 {
        lemma_position_absent(list.drop_last(), value);
    }
}

/// Moving on in a list and then back leads to where one was.
pub proof fn law_moving_on_and_back(list: Seq<usize>, at: int)
    requires
        list.no_duplicates(),
        list.len() <= usize::MAX,
        0 <= at < list.len() - 1,
    ensures
        crate::navigation::next_to(list, list[at], Step::Next) == Some(list[at + 1]),
        crate::navigation::next_to(list, list[at + 1], Step::Previous) == Some(list[at]),
{
    lemma_position_exact(list, at);
    lemma_position_exact(list, at + 1);
}

/// A visibility never leaves its bounds.
pub proof fn law_visibility_keeps_its_bounds(visibility: i16, delta: i16)
    ensures
        -9 <= crate::navigation::adjusted(visibility, delta) <= 9,
{
}

} // verus!
