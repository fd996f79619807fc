//! Where moves, clicks, filters and shortcuts lead.
use vstd::prelude::*;

use crate::model::ManagedRepo;
use crate::model::Session;
use crate::navigation::MouseKind;
use crate::navigation::NavView;
use crate::navigation::OpenTmuxSessionTarget;
use crate::navigation::PanelFocus;
use crate::navigation::Rect;
use crate::navigation::RepoMainView;
use crate::navigation::SidebarLayout;
use crate::navigation::Step;
use crate::navigation::WorktreeListMode;

verus! {

// ---------------------------------------------------------------------------
// Positions in lists
// ---------------------------------------------------------------------------

proof fn lemma_position(list: Seq<usize>, value: usize)
    requires
        list.len() <= usize::MAX,
    ensures
        match crate::navigation::position_of(list, value) {
            Some(at) => at < list.len() && list[at as int] == value && forall|k: int|
                0 <= k < at ==> #[trigger] list[k] != value,
            None => forall|k: int| 0 <= k < list.len() ==> #[trigger] list[k] != value,
        },
    decreases list.len(),
{
    if list.len() > 0 {
        let init = list.drop_last();
        lemma_position(init, value);
        assert forall|k: int| 0 <= k < init.len() implies init[k] == #[trigger] list[k] by {}
    }
}

/// A step on from an item of a list leads to the one behind it, a step back to the one
/// before it, and neither leads beyond the ends. Where the item is not in the list, steps
/// start from its first.
pub proof fn law_steps_in_a_list(list: Seq<usize>, value: usize, at: int)
    requires
        list.no_duplicates(),
        list.len() <= usize::MAX,
    ensures
        0 <= at < list.len() && list[at] == value ==> crate::navigation::next_to(
            list,
            value,
            Step::Next,
        ) == (if at + 1 < list.len() {
            Some(list[at + 1])
        } else {
            None
        }),
        0 <= at < list.len() && list[at] == value ==> crate::navigation::next_to(
            list,
            value,
            Step::Previous,
        ) == (if at > 0 {
            Some(list[at - 1])
        } else {
            None
        }),
        !list.contains(value) && list.len() > 1 ==> crate::navigation::next_to(
            list,
            value,
            Step::Next,
        ) == Some(list[1]),
        !list.contains(value) ==> crate::navigation::next_to(list, value, Step::Previous) is None,
{
    lemma_position(list, value);
    match crate::navigation::position_of(list, value) {
        Some(found) => {
            assert(list.contains(list[found as int]));
            if 0 <= at < list.len() && list[at] == value {
                assert(found == at);
            }
        },
        None => {
            if list.contains(value) {
                let k = choose|k: int| 0 <= k < list.len() && list[k] == value;
                assert(list[k] == value);
            }
        },
    }
}

/// Moving with the focus on a list selects its neighbour; at the end of the list nothing
/// changes. Moving with the focus on the main panel never leaves the list where it is.
pub proof fn law_moves_select_the_neighbour(v: NavView, step: Step, index: usize)
    ensures
        !v.main_focused && v.focused_panel == PanelFocus::Status ==> v.with_move(step) == v,
        !v.main_focused && v.focused_panel == PanelFocus::Repos && crate::navigation::next_to(
            v.repo_list(),
            v.current_repo,
            step,
        ) == Some(index) ==> v.with_move(step) == v.with_repo(index),
        !v.main_focused && v.focused_panel == PanelFocus::Repos && crate::navigation::next_to(
            v.repo_list(),
            v.current_repo,
            step,
        ) is None ==> v.with_move(step) == v,
        !v.main_focused && (v.focused_panel == PanelFocus::Worktrees || v.focused_panel
            == PanelFocus::Merges) && crate::navigation::next_to(
            v.session_list(),
            v.selected,
            step,
        ) == Some(index) ==> v.with_move(step) == v.with_session(index),
        !v.main_focused && (v.focused_panel == PanelFocus::Worktrees || v.focused_panel
            == PanelFocus::Merges) && crate::navigation::next_to(
            v.session_list(),
            v.selected,
            step,
        ) is None ==> v.with_move(step) == v,
        v.main_focused ==> v.with_move(step).selected == v.selected && v.with_move(
            step,
        ).current_repo == v.current_repo && v.with_move(step).sessions == v.sessions,
{
}

/// The first key of a list and the last lead to its ends.
pub proof fn law_ends_of_lists(v: NavView)
    requires
        !v.main_focused,
    ensures
        v.focused_panel == PanelFocus::Repos && v.repo_list().len() > 0 ==> v.with_end(false)
            == v.with_repo(v.repo_list()[0]) && v.with_end(true) == v.with_repo(
            v.repo_list()[v.repo_list().len() - 1],
        ),
        (v.focused_panel == PanelFocus::Worktrees || v.focused_panel == PanelFocus::Merges)
            && v.session_list().len() > 0 ==> v.with_end(false) == v.with_session(
            v.session_list()[0],
        ) && v.with_end(true) == v.with_session(v.session_list()[v.session_list().len() - 1]),
        v.focused_panel == PanelFocus::Status ==> v.with_end(false) == v && v.with_end(true) == v,
{
}

/// With the focus on the main panel, the ends of the lists are not reached for.
pub proof fn law_main_panel_keeps_the_lists(v: NavView, last: bool)
    requires
        v.main_focused,
    ensures
        v.with_end(last) == v,
{
}

// ---------------------------------------------------------------------------
// Selections
// ---------------------------------------------------------------------------

/// Selecting a repository makes it the current one, or the last one where it does not
/// exist; what is shown of it starts at its top.
pub proof fn law_selected_repository(v: NavView, index: usize)
    requires
        v.repos.len() <= usize::MAX,
        v.repos.len() > 0,
    ensures
        index < v.repos.len() ==> v.with_repo(index).current_repo == index,
        index >= v.repos.len() ==> v.with_repo(index).current_repo == v.repos.len() - 1,
        index < v.repos.len() ==> v.with_repo(index).selected_repo_root == Some(
            v.repos[index as int].repo.root@,
        ),
        v.with_repo(index).main_scroll == 0,
        v.with_repo(index).selected == v.selected,
        v.with_repo(index).sessions == v.sessions,
        v.with_repo(index).repos == v.repos,
        v.with_repo(index).focused_panel == v.focused_panel,
        v.with_repo(index).worktree_by_repo == v.worktree_by_repo,
        v.with_repo(index).repo_filter == v.repo_filter,
        v.with_repo(index).worktree_filter == v.worktree_filter,
{
}

/// Selecting a worktree makes its repository the current one, remembers it for that
/// repository, and marks its comments as seen; nothing else of it changes, and nothing of
/// any other worktree.
pub proof fn law_selected_worktree(v: NavView, index: usize, other: int)
    requires
        index < v.sessions.len(),
    ensures
        ({
            let session = v.sessions[index as int];
            let after = v.with_session(index);
            &&& after.selected == index
            &&& after.selected_comment == 0
            &&& after.main_scroll == 0
            &&& after.sessions.len() == v.sessions.len()
            &&& after.sessions[index as int] == (Session { unseen_comments: false, ..session })
            &&& 0 <= other < v.sessions.len() && other != index ==> after.sessions[other]
                == v.sessions[other]
            &&& session.repo_index < v.repos.len() ==> after.current_repo == session.repo_index
                && after.selected_repo_root == Some(
                v.repos[session.repo_index as int].repo.root@,
            ) && after.worktree_by_repo.dom().contains(
                crate::text::bare_path(v.repos[session.repo_index as int].repo.root@),
            ) && after.worktree_by_repo[crate::text::bare_path(
                v.repos[session.repo_index as int].repo.root@,
            )] == session.path@
            &&& session.repo_index >= v.repos.len() ==> after.current_repo == v.current_repo
                && after.worktree_by_repo == v.worktree_by_repo
            &&& after.focused_panel == v.focused_panel
            &&& after.main_focused == v.main_focused
            &&& after.repos == v.repos
            &&& after.pr_by_repo == v.pr_by_repo
        }),
{
}

proof fn lemma_first_at_path(sessions: Seq<Session>, list: Seq<usize>, path: Seq<char>)
    ensures
        match crate::navigation::listed_at_path(sessions, list, path) {
            Some(index) => exists|k: int|
                0 <= k < list.len() && #[trigger] list[k] == index && crate::text::same_path(
                    sessions[index as int].path@,
                    path,
                ),
            None => forall|k: int|
                0 <= k < list.len() ==> !crate::text::same_path(
                    sessions[(#[trigger] list[k]) as int].path@,
                    path,
                ),
        },
    decreases list.len(),
{
    if list.len() > 0 {
        let init = list.drop_last();
        lemma_first_at_path(sessions, init, path);
        assert(list[list.len() - 1] == list.last());
        match crate::navigation::listed_at_path(sessions, init, path) {
            Some(index) => {
                let k = choose|k: int| 0 <= k < init.len() && #[trigger] init[k] == index;
                assert(list[k] == index);
            },
            None => {
                assert forall|k: int| 0 <= k < init.len() implies !crate::text::same_path(
                    sessions[(#[trigger] list[k]) as int].path@,
                    path,
                ) by {
                    assert(init[k] == list[k]);
                }
            },
        }
    }
}

proof fn lemma_first_of_repo(sessions: Seq<Session>, list: Seq<usize>, repo_index: usize)
    ensures
        match crate::navigation::listed_of_repo(sessions, list, repo_index) {
            Some(index) => exists|k: int|
                0 <= k < list.len() && #[trigger] list[k] == index
                    && sessions[index as int].repo_index == repo_index && forall|j: int|
                    0 <= j < k ==> sessions[(#[trigger] list[j]) as int].repo_index != repo_index,
            None => forall|k: int|
                0 <= k < list.len() ==> sessions[(#[trigger] list[k]) as int].repo_index
                    != repo_index,
        },
    decreases list.len(),
{
    if list.len() > 0 {
        let init = list.drop_last();
        lemma_first_of_repo(sessions, init, repo_index);
        assert(list[list.len() - 1] == list.last());
        assert forall|k: int| 0 <= k < init.len() implies init[k] == #[trigger] list[k] by {}
        match crate::navigation::listed_of_repo(sessions, init, repo_index) {
            Some(index) => {
                let k = choose|k: int|
                    0 <= k < init.len() && #[trigger] init[k] == index
                        && sessions[index as int].repo_index == repo_index && forall|j: int|
                        0 <= j < k ==> sessions[(#[trigger] init[j]) as int].repo_index
                            != repo_index;
                assert(list[k] == index);
                assert forall|j: int| 0 <= j < k implies sessions[(
                #[trigger] list[j]) as int].repo_index != repo_index by {
                    assert(init[j] == list[j]);
                }
            },
            None => {
                let k = list.len() - 1;
                assert(list[k] == list.last());
            },
        }
    }
}

/// Coming to a list of worktrees selects the worktree that is remembered for the current
/// repository, where it is listed; else the first listed one of the current repository; else
/// the first of the list.
pub proof fn law_restored_worktree(v: NavView)
    ensures
        ({
            let list = v.session_list();
            let at = v.with_selection_restored().selected;
            let known = match v.remembered() {
                Some(path) => exists|k: int|
                    0 <= k < list.len() && crate::text::same_path(
                        v.sessions[(#[trigger] list[k]) as int].path@,
                        path,
                    ),
                None => false,
            };
            let here = exists|k: int|
                0 <= k < list.len() && v.sessions[(#[trigger] list[k]) as int].repo_index
                    == v.current_repo;
            &&& known ==> list.contains(at) && crate::text::same_path(
                v.sessions[at as int].path@,
                v.remembered()->0,
            )
            &&& !known && here ==> list.contains(at) && v.sessions[at as int].repo_index
                == v.current_repo
            &&& !known && !here && list.len() > 0 ==> at == list[0]
            &&& v.with_selection_restored().selected_comment == 0
            &&& v.with_selection_restored().current_repo == v.current_repo
            &&& v.with_selection_restored().sessions == v.sessions
        }),
{
    let list = v.session_list();
    match v.remembered() {
        Some(path) => {
            lemma_first_at_path(v.sessions, list, path);
            if exists|k: int|
                0 <= k < list.len() && crate::text::same_path(
                    v.sessions[(#[trigger] list[k]) as int].path@,
                    path,
                ) {
                let at = v.session_to_select();
                let k = choose|k: int| 0 <= k < list.len() && #[trigger] list[k] == at;
                assert(list.contains(at));
            }
        },
        None => {},
    }
    lemma_first_of_repo(v.sessions, list, v.current_repo);
    match crate::navigation::listed_of_repo(v.sessions, list, v.current_repo) {
        Some(index) => {
            let k = choose|k: int| 0 <= k < list.len() && #[trigger] list[k] == index;
            assert(list.contains(index));
        },
        None => {},
    }
}

/// What is remembered of a repository is the path under its root, however the root is
/// spelled.
pub proof fn law_remembered_worktree(v: NavView)
    ensures
        v.current_repo < v.repos.len() && v.worktree_by_repo.dom().contains(
            crate::text::bare_path(v.repos[v.current_repo as int].repo.root@),
        ) ==> v.remembered() == Some(
            v.worktree_by_repo[crate::text::bare_path(
                v.repos[v.current_repo as int].repo.root@,
            )],
        ),
        v.current_repo >= v.repos.len() || !v.worktree_by_repo.dom().contains(
            crate::text::bare_path(v.repos[v.current_repo as int].repo.root@),
        ) ==> v.remembered() is None,
{
}

/// The selected worktree is the one at the selection, if the list holds it.
pub proof fn law_selection_is_listed(v: NavView)
    ensures
        v.session_list().contains(v.selected) ==> v.selected_session() == Some(v.selected),
        !v.session_list().contains(v.selected) ==> v.selected_session() is None,
        v.selected_session() is Some && v.sessions[v.selected as int].repo_index < v.repos.len()
            ==> v.selected_context() == Some(v.selected),
        v.selected_session() is None || v.sessions[v.selected as int].repo_index >= v.repos.len()
            ==> v.selected_context() is None,
{
}

proof fn lemma_on_branch(sessions: Seq<Session>, n: nat, repo_index: usize, branch: Seq<char>)
    requires
        n <= sessions.len(),
        n <= usize::MAX,
    ensures
        match crate::navigation::session_on_branch(sessions, n, repo_index, branch) {
            Some(index) => index < n && sessions[index as int].repo_index == repo_index
                && sessions[index as int].branch@ == branch,
            None => forall|k: int|
                0 <= k < n ==> !((#[trigger] sessions[k]).repo_index == repo_index
                    && sessions[k].branch@ == branch),
        },
    decreases n,
{
    if n > 0 {
        lemma_on_branch(sessions, (n - 1) as nat, repo_index, branch);
    }
}

/// The default worktree of the current repository is one of its worktrees on its default
/// branch, where there is one.
pub proof fn law_default_worktree(v: NavView)
    requires
        v.sessions.len() <= usize::MAX,
        v.current_repo < v.repos.len(),
    ensures
        ({
            let branch = v.repos[v.current_repo as int].config.default_branch@;
            match v.default_session() {
                Some(index) => index < v.sessions.len() && v.sessions[index as int].repo_index
                    == v.current_repo && v.sessions[index as int].branch@ == branch,
                None => forall|k: int|
                    0 <= k < v.sessions.len() ==> !((#[trigger] v.sessions[k]).repo_index
                        == v.current_repo && v.sessions[k].branch@ == branch),
            }
        }),
{
    lemma_on_branch(
        v.sessions,
        v.sessions.len(),
        v.current_repo,
        v.repos[v.current_repo as int].config.default_branch@,
    );
}

// ---------------------------------------------------------------------------
// The main panel
// ---------------------------------------------------------------------------

/// With the focus on the main panel of repositories that shows change requests, a move
/// selects the neighbour of the selected one.
pub proof fn law_moves_between_requests(v: NavView, step: Step, at: usize)
    requires
        v.main_focused,
        v.focused_panel == PanelFocus::Repos,
        v.repo_main_view == RepoMainView::ChangeRequests,
        v.current_repo < v.repos.len(),
        v.repos[v.current_repo as int].pr_summaries@.len() <= usize::MAX,
        v.selected_request() == Some(at),
    ensures
        ({
            let all = v.repos[v.current_repo as int].pr_summaries@;
            let list = v.current_requests();
            let root = crate::text::bare_path(v.repos[v.current_repo as int].repo.root@);
            let after = v.with_move(step);
            &&& at < list.len()
            &&& step == Step::Next && at + 1 < list.len() ==> after.pr_by_repo.dom().contains(root)
                && crate::text::opt_text(all[list[at + 1] as int].identity) == Some(
                after.pr_by_repo[root],
            )
            &&& step == Step::Next && at + 1 == list.len() ==> after == v
            &&& step == Step::Previous && at > 0 ==> after.pr_by_repo.dom().contains(root)
                && crate::text::opt_text(all[list[at - 1] as int].identity) == Some(
                after.pr_by_repo[root],
            )
            &&& step == Step::Previous && at == 0 ==> after == v
        }),
{
    crate::list_laws::law_selected_request(v);
    crate::list_laws::law_first_request_is_selected(v);
    let all = v.repos[v.current_repo as int].pr_summaries@;
    let list = v.current_requests();
    crate::navigation::lemma_listed_requests(all, all.len());
    if at + 1 < list.len() {
        assert(list[at + 1] < all.len());
        assert(crate::navigation::is_listed_request(all[list[at + 1] as int]));
    }
    if at > 0 {
        assert(list[at - 1] < all.len());
        assert(crate::navigation::is_listed_request(all[list[at - 1] as int]));
    }
}

/// With the focus on the main panel of worktrees, a move selects the neighbour of the
/// selected comment, and the text moves by one line.
pub proof fn law_moves_between_comments(v: NavView, step: Step)
    requires
        v.main_focused,
        v.focused_panel == PanelFocus::Worktrees || v.focused_panel == PanelFocus::Merges,
        v.comment_count() <= usize::MAX,
    ensures
        ({
            let after = v.with_move(step);
            let count = v.comment_count();
            let at = v.selected_comment;
            &&& count == 0 ==> after.selected_comment == 0
            &&& step == Step::Next && at + 1 < count ==> after.selected_comment == at + 1
            &&& step == Step::Next && count > 0 && at + 1 >= count ==> after.selected_comment
                == count - 1
            &&& step == Step::Previous && 0 < at < count ==> after.selected_comment == at - 1
            &&& step == Step::Previous && at == 0 ==> after.selected_comment == 0
            &&& step == Step::Next && v.main_scroll < usize::MAX ==> after.main_scroll
                == v.main_scroll + 1
            &&& step == Step::Previous && v.main_scroll > 0 ==> after.main_scroll
                == v.main_scroll - 1
            &&& step == Step::Previous && v.main_scroll == 0 ==> after.main_scroll == 0
        }),
{
}

/// The comments of the selected worktree are those of its change request.
pub proof fn law_comments_are_those_of_the_worktree(v: NavView)
    ensures
        v.selected_session() is Some && v.sessions[v.selected as int].pr.details is Some
            ==> v.comment_count() == v.sessions[v.selected as int].pr.details->0.comment_rows@.len(),
        v.selected_session() is None || v.sessions[v.selected as int].pr.details is None
            ==> v.comment_count() == 0,
        v.moves_comments() <==> (v.focused_panel == PanelFocus::Worktrees || v.focused_panel
            == PanelFocus::Merges) && v.comment_count() > 0,
        v.moves_requests() <==> v.focused_panel == PanelFocus::Repos && v.repo_main_view
            == RepoMainView::ChangeRequests && v.current_requests().len() > 0,
        v.in_session_panel() <==> v.focused_panel == PanelFocus::Worktrees || v.focused_panel
            == PanelFocus::Merges,
{
}

// ---------------------------------------------------------------------------
// Panels, modes and filters
// ---------------------------------------------------------------------------

/// Coming to a panel takes the focus from the main panel and starts at the top; on a list
/// of worktrees the selection is restored.
pub proof fn law_panels_take_the_focus(v: NavView, panel: PanelFocus)
    ensures
        v.with_panel(panel).focused_panel == panel,
        !v.with_panel(panel).main_focused,
        v.with_panel(panel).main_scroll == 0,
        v.with_panel(panel).selected == v.selected,
        v.with_panel(panel).current_repo == v.current_repo,
        v.with_session_panel(panel) == v.with_panel(panel).with_selection_restored(),
{
}

/// Switching to the worktrees of one repository keeps the selected worktree, and with it
/// its repository; switching to those of all changes nothing else.
pub proof fn law_modes_keep_the_selection(v: NavView, index: usize)
    requires
        v.focused_panel == PanelFocus::Worktrees || v.focused_panel == PanelFocus::Merges,
    ensures
        v.worktree_list_mode == WorktreeListMode::Repo ==> v.with_mode(WorktreeListMode::Global)
            == (NavView { worktree_list_mode: WorktreeListMode::Global, ..v }),
        v.worktree_list_mode == WorktreeListMode::Global ==> v.with_mode(
            WorktreeListMode::Global,
        ) == v,
        v.worktree_list_mode == WorktreeListMode::Repo ==> v.with_mode(WorktreeListMode::Repo)
            == v,
        v.worktree_list_mode == WorktreeListMode::Global && v.selected_session() == Some(index)
            && index < v.sessions.len() ==> v.with_mode(WorktreeListMode::Repo).selected == index
            && (v.sessions[index as int].repo_index < v.repos.len() ==> v.with_mode(
            WorktreeListMode::Repo,
        ).current_repo == v.sessions[index as int].repo_index),
        v.worktree_list_mode == WorktreeListMode::Global ==> v.with_mode(
            WorktreeListMode::Repo,
        ).worktree_list_mode == WorktreeListMode::Repo,
{
}

/// A filter is that of the focused list; the status panel has none.
pub proof fn law_filters_are_those_of_their_list(v: NavView, filter: Seq<char>)
    ensures
        v.focused_panel == PanelFocus::Status ==> v.with_filter(filter) == v,
        v.focused_panel == PanelFocus::Repos ==> v.with_filter(filter).repo_filter == filter
            && v.with_filter(filter).worktree_filter == v.worktree_filter,
        v.focused_panel == PanelFocus::Worktrees || v.focused_panel == PanelFocus::Merges
            ==> v.with_filter(filter).worktree_filter == filter && v.with_filter(
            filter,
        ).repo_filter == v.repo_filter,
        v.with_filter(filter).focused_panel == v.focused_panel,
        v.with_filter(filter).repos == v.repos,
        v.with_filter(filter).sessions == v.sessions,
{
}

proof fn lemma_key_place(repos: Seq<ManagedRepo>, n: nat, key: char)
    requires
        n <= repos.len(),
        n <= usize::MAX,
    ensures
        match crate::navigation::repo_with_key(repos, n, key) {
            Some(index) => index < n && repos[index as int].key == Some(key) && forall|k: int|
                0 <= k < index ==> (#[trigger] repos[k]).key != Some(key),
            None => forall|k: int| 0 <= k < n ==> (#[trigger] repos[k]).key != Some(key),
        },
    decreases n,
{
    if n > 0 {
        lemma_key_place(repos, (n - 1) as nat, key);
    }
}

/// A shortcut leads to the first repository that it is bound to, and takes the filter away
/// where the filter hides it.
pub proof fn law_shortcuts_lead_to_their_repository(v: NavView, key: char, index: usize)
    requires
        v.repos.len() <= usize::MAX,
    ensures
        index < v.repos.len() && v.repos[index as int].key == Some(key) && (forall|k: int|
            0 <= k < index ==> (#[trigger] v.repos[k]).key != Some(key)) ==> v.with_repo_key(
            key,
        ).current_repo == index && v.with_repo_key(key).repo_filter == (
        if v.repo_list().contains(index) {
            v.repo_filter
        } else {
            Seq::empty()
        }),
        (forall|k: int| 0 <= k < v.repos.len() ==> (#[trigger] v.repos[k]).key != Some(key))
            ==> v.with_repo_key(key) == v,
{
    lemma_key_place(v.repos, v.repos.len(), key);
}

proof fn lemma_root_place(repos: Seq<ManagedRepo>, n: nat, root: Seq<char>)
    requires
        n <= repos.len(),
        n <= usize::MAX,
    ensures
        match crate::navigation::repo_at_root(repos, n, root) {
            Some(index) => index < n && crate::text::bare_path(repos[index as int].repo.root@)
                == root && forall|k: int|
                0 <= k < index ==> crate::text::bare_path((#[trigger] repos[k]).repo.root@)
                    != root,
            None => forall|k: int|
                0 <= k < n ==> crate::text::bare_path((#[trigger] repos[k]).repo.root@) != root,
        },
    decreases n,
{
    if n > 0 {
        lemma_root_place(repos, (n - 1) as nat, root);
    }
}

/// A repository is found by its root, however the root is spelled; the first one counts.
pub proof fn law_repositories_are_found_by_their_root(repos: Seq<ManagedRepo>, root: Seq<char>)
    requires
        repos.len() <= usize::MAX,
    ensures
        match crate::navigation::repo_at_root(
            repos,
            repos.len(),
            crate::text::bare_path(root),
        ) {
            Some(index) => index < repos.len() && crate::text::same_path(
                repos[index as int].repo.root@,
                root,
            ) && forall|k: int|
                0 <= k < index ==> !crate::text::same_path(
                    (#[trigger] repos[k]).repo.root@,
                    root,
                ),
            None => forall|k: int|
                0 <= k < repos.len() ==> !crate::text::same_path(
                    (#[trigger] repos[k]).repo.root@,
                    root,
                ),
        },
{
    lemma_root_place(repos, repos.len(), crate::text::bare_path(root));
}

/// After repositories changed, the dashboard stands on the repository of the remembered
/// root, wherever that is now, as long as the filter lets it through; and the worktree of
/// the list is selected anew.
pub proof fn law_repository_is_found_again(v: NavView, root: Seq<char>, index: usize)
    requires
        v.repos.len() <= usize::MAX,
        v.selected_repo_root == Some(root),
        index < v.repos.len(),
        crate::text::same_path(v.repos[index as int].repo.root@, root),
        forall|k: int|
            0 <= k < index ==> !crate::text::same_path((#[trigger] v.repos[k]).repo.root@, root),
    ensures
        v.repo_list().contains(index) ==> v.with_valid_selections().current_repo == index
            && v.with_valid_selections().selected_repo_root == Some(
            v.repos[index as int].repo.root@,
        ),
        !v.repo_list().contains(index) && v.repo_list().len() > 0
            ==> v.with_valid_selections().current_repo == v.repo_list()[0],
        !v.repo_list().contains(index) && v.repo_list().len() == 0
            ==> v.with_valid_selections().current_repo == index,
        v.with_valid_selections().sessions == v.sessions,
        v.with_valid_selections().repos == v.repos,
{
    lemma_root_place(v.repos, v.repos.len(), crate::text::bare_path(root));
}

// ---------------------------------------------------------------------------
// The mouse
// ---------------------------------------------------------------------------

/// A point is inside a rectangle where it is neither left of it nor above it, and less than
/// its width and height away.
pub proof fn law_points_in_rectangles(x: u16, y: u16, rect: Rect)
    requires
        rect.x + rect.width <= u16::MAX,
        rect.y + rect.height <= u16::MAX,
    ensures
        crate::navigation::inside(x, y, rect) <==> rect.x <= x && x < rect.x + rect.width
            && rect.y <= y && y < rect.y + rect.height,
{
}

/// A click on a row of a list selects what the row shows and takes the focus there: the
/// rows of repositories start below their title, those of worktrees below their title and
/// their heads.
pub proof fn law_clicks_select_their_row(
    v: NavView,
    x: u16,
    y: u16,
    area: Rect,
    layout: SidebarLayout,
    row: int,
)
    requires
        x < layout.width,
        y + 1 < area.height,
        row >= 0,
    ensures
        crate::navigation::inside(x, y, layout.repos) && y == layout.repos.y + 1 + row && row
            < v.repo_list().len() ==> v.with_click(x, y, area, layout) == v.with_repo(
            v.repo_list()[row],
        ).with_panel(PanelFocus::Repos),
        !crate::navigation::inside(x, y, layout.repos) && crate::navigation::inside(
            x,
            y,
            layout.worktrees,
        ) && y == layout.worktrees.y + 2 + row && row < v.session_list_for(false).len()
            ==> v.with_click(x, y, area, layout) == v.with_session(
            v.session_list_for(false)[row],
        ).with_session_panel(PanelFocus::Worktrees),
        !crate::navigation::inside(x, y, layout.repos) && !crate::navigation::inside(
            x,
            y,
            layout.worktrees,
        ) && crate::navigation::inside(x, y, layout.merges) && y == layout.merges.y + 2 + row
            && row < v.session_list_for(true).len() ==> v.with_click(x, y, area, layout)
            == v.with_session(v.session_list_for(true)[row]).with_session_panel(
            PanelFocus::Merges,
        ),
        !crate::navigation::inside(x, y, layout.repos) && !crate::navigation::inside(
            x,
            y,
            layout.worktrees,
        ) && !crate::navigation::inside(x, y, layout.merges) ==> v.with_click(
            x,
            y,
            area,
            layout,
        ) == v,
{
}

/// A click outside the sidebar changes nothing; the wheel moves the main panel, and only
/// there.
pub proof fn law_wheel_moves_the_main_panel(
    v: NavView,
    x: u16,
    y: u16,
    area: Rect,
    layout: SidebarLayout,
)
    ensures
        x >= layout.width ==> v.with_mouse(MouseKind::LeftDown, x, y, area, layout) == v,
        layout.width <= x < area.width && y + 1 < area.height && v.main_scroll < usize::MAX
            ==> v.with_mouse(MouseKind::ScrollDown, x, y, area, layout) == (NavView {
            main_scroll: (v.main_scroll + 1) as usize,
            ..v
        }),
        layout.width <= x < area.width && y + 1 < area.height && v.main_scroll > 0
            ==> v.with_mouse(MouseKind::ScrollUp, x, y, area, layout) == (NavView {
            main_scroll: (v.main_scroll - 1) as usize,
            ..v
        }),
        x < layout.width ==> v.with_mouse(MouseKind::ScrollDown, x, y, area, layout) == v
            && v.with_mouse(MouseKind::ScrollUp, x, y, area, layout) == v,
        v.with_mouse(MouseKind::Unused, x, y, area, layout) == v,
        v.takes_mouse(MouseKind::LeftDown, x, y, area, layout),
        !v.takes_mouse(MouseKind::Unused, x, y, area, layout),
{
}

// ---------------------------------------------------------------------------
// The start, and what Enter opens
// ---------------------------------------------------------------------------

/// The dashboard starts with the focus on repositories, without filters, with the worktrees
/// of one repository, and with the change requests in the main panel.
pub proof fn law_start_of_the_dashboard(
    repos: Seq<ManagedRepo>,
    current_repo: usize,
    sessions: Seq<Session>,
)
    requires
        repos.len() <= usize::MAX,
    ensures
        ({
            let start = crate::navigation::start_view(repos, current_repo, sessions);
            &&& start.repos == repos
            &&& start.sessions == sessions
            &&& start.focused_panel == PanelFocus::Repos
            &&& !start.main_focused
            &&& start.main_scroll == 0
            &&& start.repo_filter.len() == 0
            &&& start.worktree_filter.len() == 0
            &&& start.worktree_list_mode == WorktreeListMode::Repo
            &&& start.repo_main_view == RepoMainView::ChangeRequests
            &&& start.worktree_by_repo == Map::<Seq<char>, Seq<char>>::empty()
        }),
{
}

/// What Enter opens: among repositories the shown change request or the default worktree,
/// among worktrees the shown plan or the agent; and where there is none, why.
pub proof fn law_enter_targets(v: NavView, plan_open: bool, target: OpenTmuxSessionTarget)
    requires
        v.enter_opens(plan_open, target),
    ensures
        target is PlanPhaseAgent ==> v.focused_panel == PanelFocus::Worktrees && v.main_focused
            && plan_open,
        target is RepoPr ==> v.focused_panel == PanelFocus::Repos && v.main_focused
            && v.shown_request() is Some,
        target matches OpenTmuxSessionTarget::RepoDefaultAgent(index) ==> v.focused_panel
            == PanelFocus::Repos && v.default_session() == Some(index),
        target is WorktreeAgent ==> (v.focused_panel == PanelFocus::Worktrees || v.focused_panel
            == PanelFocus::Merges) && v.selected_context() is Some,
        v.focused_panel == PanelFocus::Status ==> target is Blocked,
        target is Blocked ==> v.focused_panel == PanelFocus::Status || (v.focused_panel
            == PanelFocus::Repos && v.default_session() is None) || ((v.focused_panel
            == PanelFocus::Worktrees || v.focused_panel == PanelFocus::Merges)
            && v.selected_context() is None),
{
}

/// What a list shows of the time of the last news: the label of the last refresh; without
/// one, the day of the change request; and without that, a dash.
pub proof fn law_updated_labels(session: Session)
    ensures
        session.pr.last_refreshed matches Some(label) ==> crate::navigation::updated_label(session)
            == label@,
        session.pr.last_refreshed is None && session.pr.summary is None
            ==> crate::navigation::updated_label(session) == "-"@,
        session.pr.last_refreshed is None && session.pr.summary is Some
            && session.pr.summary->0.updated_at@.len() >= 10 ==> crate::navigation::updated_label(
            session,
        ) == session.pr.summary->0.updated_at@.subrange(0, 10),
        session.pr.last_refreshed is None && session.pr.summary is Some
            && session.pr.summary->0.updated_at@.len() < 10 ==> crate::navigation::updated_label(
            session,
        ) == session.pr.summary->0.updated_at@,
{
    if session.pr.summary is Some && session.pr.summary->0.updated_at@.len() >= 10 {
        assert(session.pr.summary->0.updated_at@.take(10) =~= session.pr.summary->0.updated_at@.subrange(0, 10));
        if session.pr.summary->0.updated_at@.len() == 10 {
            assert(session.pr.summary->0.updated_at@ =~= session.pr.summary->0.updated_at@.subrange(0, 10));
        }
    }
}

/// Moving in the main panel scrolls it by one line where it shows no change requests.
pub proof fn law_moves_scroll_the_main_panel(v: NavView, step: Step)
    requires
        v.main_focused,
        !v.moves_requests(),
    ensures
        step is Next && v.main_scroll < usize::MAX ==> v.with_move(step).main_scroll
            == v.main_scroll + 1,
        step is Previous && v.main_scroll > 0 ==> v.with_move(step).main_scroll == v.main_scroll
            - 1,
        step is Previous && v.main_scroll == 0 ==> v.with_move(step).main_scroll == 0,
        v.with_move(step).current_repo == v.current_repo,
        v.with_move(step).selected == v.selected,
{
}

/// When repositories come and go, the dashboard stands on the one whose root was selected
/// as long as it is there and listed; and in any case on a listed one, where one is listed.
pub proof fn law_repository_to_stand_on(v: NavView, root: Seq<char>, index: usize)
    requires
        0 < v.repos.len() <= usize::MAX,
        v.selected_repo_root == Some(root),
    ensures
        crate::navigation::repo_at_root(v.repos, v.repos.len(), crate::text::bare_path(root))
            == Some(index) && index < v.repos.len() && v.repo_list().contains(index)
            ==> v.repo_to_stand_on() == index,
        v.repo_list().len() > 0 ==> v.repo_list().contains(v.repo_to_stand_on()),
        crate::navigation::repo_at_root(v.repos, v.repos.len(), crate::text::bare_path(root))
            is None && v.current_repo < v.repos.len() && v.repo_list().contains(v.current_repo)
            ==> v.repo_to_stand_on() == v.current_repo,
        crate::navigation::repo_at_root(v.repos, v.repos.len(), crate::text::bare_path(root))
            is None && v.current_repo < v.repos.len() && !v.repo_list().contains(v.current_repo)
            && v.repo_list().len() > 0 ==> v.repo_to_stand_on() == v.repo_list()[0],
{
    let list = v.repo_list();
    if list.len() > 0 {
        assert(list.contains(list[0]));
    }
}

/// Coming back to a snapshot whose repository and worktree are gone leaves the current ones
/// where they are still listed.
pub proof fn law_snapshot_of_what_is_gone(v: NavView, root: Seq<char>, path: Seq<char>)
    requires
        crate::navigation::repo_at_root(v.repos, v.repos.len(), crate::text::bare_path(root))
            is None,
        crate::navigation::session_at_path(v.sessions, v.sessions.len(), path) is None,
        v.selected_session() is Some,
    ensures
        v.with_snapshot_repo(Some(root)) == v,
        v.with_snapshot_repo(None) == v,
        v.with_snapshot_session(Some(path)) == v,
        v.with_snapshot_session(None) == v,
{
}

/// Coming back to a worktree remembers it as that of its repository.
pub proof fn law_snapshot_worktree_is_remembered(v: NavView, path: Seq<char>, index: usize)
    requires
        crate::navigation::session_at_path(v.sessions, v.sessions.len(), path) == Some(index),
        index < v.sessions.len(),
        v.sessions[index as int].repo_index < v.repos.len(),
    ensures
        ({
            let back = v.with_snapshot_session(Some(path));
            let root = crate::text::bare_path(
                v.repos[v.sessions[index as int].repo_index as int].repo.root@,
            );
            &&& back.selected == index
            &&& back.worktree_by_repo.dom().contains(root)
            &&& back.worktree_by_repo[root] == v.sessions[index as int].path@
            &&& back.current_repo == v.current_repo
        }),
{
}

/// A new visibility is that of one worktree and changes nothing else.
pub proof fn law_visibility_of_a_worktree(v: NavView, index: usize, visibility: i16, i: int)
    requires
        index < v.sessions.len(),
        0 <= i < v.sessions.len(),
    ensures
        ({
            let after = v.with_visibility(index, visibility);
            &&& after.sessions.len() == v.sessions.len()
            &&& after.sessions[index as int].visibility == visibility
            &&& after.sessions[index as int].path == v.sessions[index as int].path
            &&& after.sessions[index as int].branch == v.sessions[index as int].branch
            &&& i != index ==> after.sessions[i] == v.sessions[i]
            &&& after.selected == v.selected
            &&& after.current_repo == v.current_repo
        }),
{
}

} // verus!
