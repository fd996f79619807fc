//! What the dashboard shows: figures, rows and pictures.
use vstd::prelude::*;

use crate::dashboard::DashboardOutputLines;
use crate::dashboard::LoopAction;
use crate::dashboard::RuntimeEvent;
use crate::frame::TmuxPortalCapture;
use crate::frame::WorktreeKind;
use crate::input::KeyEventKind;
use crate::keys::GenerationView;
use crate::keys::OutputView;
use crate::model::AgentState;
use crate::model::Session;
use crate::navigation::NavView;
use crate::navigation::PanelFocus;
use crate::navigation::Rect;
use crate::navigation::SidebarLayout;
use crate::navigation::WorktreeListMode;
use crate::run_book::value_at;
use crate::run_book::BookView;
use crate::runs::AutoRunStatus;
use crate::runs::PlanRunStatus;
use crate::status::figures_upto;
use crate::status::group;
use crate::status::Figures;
use crate::status::HealthIcons;
use crate::status::RunGroup;
use crate::tracker::TrackerView;
use crate::tui::TuiView;

verus! {

// ---------------------------------------------------------------------------
// Figures
// ---------------------------------------------------------------------------

/// How many of the first `n` worktrees something is so of, in one repository or in all.
pub open spec fn how_many(
    sessions: Seq<Session>,
    repo: Option<usize>,
    n: nat,
    is_so: spec_fn(Session) -> bool,
) -> nat
    decreases n,
{
    if n == 0 {
        0
    } else {
        let last = sessions[n - 1];
        how_many(sessions, repo, (n - 1) as nat, is_so) + (if (repo is None || repo->0
            == last.repo_index) && is_so(last) {
            1nat
        } else {
            0nat
        })
    }
}

proof fn lemma_figures(nav: NavView, repo: Option<usize>, n: nat)
    requires
        n <= nav.sessions.len(),
        n <= u64::MAX,
    ensures
        ({
            let figures = figures_upto(nav, repo, n);
            &&& figures.running == how_many(
                nav.sessions,
                repo,
                n,
                |s: Session|
                    s.agent_state == AgentState::Attached || s.agent_state == AgentState::Running,
            )
            &&& figures.attention == how_many(
                nav.sessions,
                repo,
                n,
                |s: Session|
                    s.agent_state == AgentState::NeedsInput || s.agent_state
                        == AgentState::NeedsRestart || s.agent_state == AgentState::ExitedError
                        || s.unseen_comments,
            )
            &&& figures.prs == how_many(
                nav.sessions,
                repo,
                n,
                |s: Session| s.pr.summary is Some,
            )
            &&& figures.ci_failed == how_many(
                nav.sessions,
                repo,
                n,
                |s: Session| s.pr.summary is Some && s.pr.summary->0.check_status@ == "failed"@,
            )
            &&& figures.ci_running == how_many(
                nav.sessions,
                repo,
                n,
                |s: Session| s.pr.summary is Some && s.pr.summary->0.check_status@ == "running"@,
            )
            &&& figures.dirty == how_many(
                nav.sessions,
                repo,
                n,
                |s: Session| s.dirty_files is Some,
            )
            &&& figures.running <= n
            &&& figures.attention <= n
            &&& figures.prs <= n
            &&& figures.ci_failed <= n
            &&& figures.ci_running <= n
            &&& figures.dirty <= n
        }),
    decreases n,
{
    if n > 0 {
        lemma_figures(nav, repo, (n - 1) as nat);
    }
}

/// The figures of a repository, or of all, count its worktrees: those whose agent is at
/// work, those that want attention, those with a change request, those whose checks failed
/// or are running, and those with changes.
pub proof fn law_figures_count(nav: NavView, repo: Option<usize>)
    requires
        nav.sessions.len() <= u64::MAX,
    ensures
        ({
            let figures = figures_upto(nav, repo, nav.sessions.len());
            let n = nav.sessions.len();
            &&& figures.running == how_many(
                nav.sessions,
                repo,
                n,
                |s: Session|
                    s.agent_state == AgentState::Attached || s.agent_state == AgentState::Running,
            )
            &&& figures.attention == how_many(
                nav.sessions,
                repo,
                n,
                |s: Session|
                    s.agent_state == AgentState::NeedsInput || s.agent_state
                        == AgentState::NeedsRestart || s.agent_state == AgentState::ExitedError
                        || s.unseen_comments,
            )
            &&& figures.prs == how_many(
                nav.sessions,
                repo,
                n,
                |s: Session| s.pr.summary is Some,
            )
            &&& figures.ci_failed == how_many(
                nav.sessions,
                repo,
                n,
                |s: Session| s.pr.summary is Some && s.pr.summary->0.check_status@ == "failed"@,
            )
            &&& figures.ci_running == how_many(
                nav.sessions,
                repo,
                n,
                |s: Session| s.pr.summary is Some && s.pr.summary->0.check_status@ == "running"@,
            )
            &&& figures.dirty == how_many(
                nav.sessions,
                repo,
                n,
                |s: Session| s.dirty_files is Some,
            )
        }),
{
    lemma_figures(nav, repo, nav.sessions.len());
}

/// How many commits the default branches among the first `n` worktrees are behind together.
pub open spec fn commits_behind(nav: NavView, repo: Option<usize>, n: nat) -> nat
    decreases n,
{
    if n == 0 {
        0
    } else {
        let last = nav.sessions[n - 1];
        let counts = (repo is None || repo->0 == last.repo_index) && last.repo_index
            < nav.repos.len() && nav.repos[last.repo_index as int].config.default_branch@
            == last.branch@ && last.behind_commits is Some;
        commits_behind(nav, repo, (n - 1) as nat) + (if counts {
            last.behind_commits->0 as nat
        } else {
            0nat
        })
    }
}

/// The commits that a repository is behind are those of the worktrees on its default
/// branch, and of no others.
pub proof fn law_commits_behind(nav: NavView, repo: Option<usize>, n: nat)
    requires
        n <= nav.sessions.len(),
        commits_behind(nav, repo, n) <= u64::MAX,
    ensures
        figures_upto(nav, repo, n).behind == commits_behind(nav, repo, n),
    decreases n,
{
    if n > 0 {
        law_commits_behind(nav, repo, (n - 1) as nat);
    }
}

/// A repository in which nothing is going on is said to be fine; otherwise the figures
/// follow their icons.
pub proof fn law_health_of_a_repository(figures: Figures, icons: HealthIcons)
    ensures
        figures.attention == 0 && figures.prs == 0 && figures.ci_failed == 0 && figures.ci_running
            == 0 && figures.behind == 0 ==> crate::status::health_text(figures, icons) == "ok"@,
        figures.attention > 0 || figures.prs > 0 || figures.ci_failed > 0 || figures.ci_running > 0
            || figures.behind > 0 ==> crate::status::health_text(figures, icons)
            == icons.attention@ + crate::text::decimal_text(figures.attention as nat) + " "@ + (
        icons.pull_requests@ + crate::text::decimal_text(figures.prs as nat)) + " "@ + (
        icons.ci_failed@ + crate::text::decimal_text(figures.ci_failed as nat)) + " "@ + (
        icons.ci_running@ + crate::text::decimal_text(figures.ci_running as nat)) + " "@ + (
        icons.behind@ + crate::text::decimal_text(figures.behind as nat)),
{
}

/// The runs that count as active are queued, running or paused; those that count as failed
/// failed or were aborted.
pub proof fn law_groups_of_runs(book: BookView, id: Seq<char>)
    ensures
        group(book, RunGroup::ActiveAuto).contains(id) <==> book.auto_runs.dom().contains(id) && (
        book.auto_runs[id].status == AutoRunStatus::Queued || book.auto_runs[id].status
            == AutoRunStatus::Running || book.auto_runs[id].status == AutoRunStatus::Paused),
        group(book, RunGroup::FailedAuto).contains(id) <==> book.auto_runs.dom().contains(id) && (
        book.auto_runs[id].status == AutoRunStatus::Failed || book.auto_runs[id].status
            == AutoRunStatus::Aborted),
        group(book, RunGroup::ActivePlan).contains(id) <==> book.plan_runs.dom().contains(id) && (
        book.plan_runs[id].status == PlanRunStatus::Queued || book.plan_runs[id].status
            == PlanRunStatus::Running || book.plan_runs[id].status == PlanRunStatus::Paused),
        group(book, RunGroup::FailedPlan).contains(id) <==> book.plan_runs.dom().contains(id) && (
        book.plan_runs[id].status == PlanRunStatus::Failed || book.plan_runs[id].status
            == PlanRunStatus::Aborted),
{
}

/// The status panel shows each figure under its own name, and marks those that matter where
/// they are not zero.
pub proof fn law_status_panel(nav: NavView, book: BookView)
    ensures
        ({
            let rows = crate::status::status_lines(nav, book);
            let figures = figures_upto(nav, None, nav.sessions.len());
            let shows = |i: int, label: Seq<char>, count: nat, matters: bool|
                rows[i].label == label && rows[i].value == crate::text::decimal_text(count)
                    && rows[i].attention == (matters && count > 0);
            &&& rows.len() == 13
            &&& shows(0, "repos"@, nav.repos.len(), false)
            &&& shows(1, "worktrees"@, nav.sessions.len(), false)
            &&& shows(2, "dirty"@, figures.dirty as nat, true)
            &&& shows(3, "agents"@, figures.running as nat, true)
            &&& shows(4, "auto"@, group(book, RunGroup::ActiveAuto).len(), true)
            &&& shows(5, "auto fail"@, group(book, RunGroup::FailedAuto).len(), true)
            &&& shows(6, "plans"@, group(book, RunGroup::ActivePlan).len(), true)
            &&& shows(7, "plan fail"@, group(book, RunGroup::FailedPlan).len(), true)
            &&& shows(8, "attention"@, figures.attention as nat, true)
            &&& shows(9, "open prs"@, figures.prs as nat, false)
            &&& shows(10, "ci failed"@, figures.ci_failed as nat, true)
            &&& shows(11, "ci running"@, figures.ci_running as nat, true)
            &&& shows(12, "behind"@, figures.behind as nat, true)
        }),
{
}

// ---------------------------------------------------------------------------
// Rows
// ---------------------------------------------------------------------------

/// Each repository of the list has a row that shows its label, its path, its key and its
/// health; the current one is marked.
pub proof fn law_rows_of_repositories(nav: NavView, icons: HealthIcons, i: int)
    requires
        0 <= i < nav.repo_list().len(),
    ensures
        ({
            let rows = crate::frame::repo_rows_of(nav, icons);
            let index = nav.repo_list()[i];
            let repo = nav.repos[index as int];
            &&& rows.len() == nav.repo_list().len()
            &&& rows[i].label == repo.label@
            &&& rows[i].root == repo.repo.root@
            &&& rows[i].key == repo.key
            &&& rows[i].selected == (index == nav.current_repo)
            &&& rows[i].health == crate::status::health_text(
                figures_upto(nav, Some(index), nav.sessions.len()),
                icons,
            )
        }),
{
}

/// Each worktree of the list has a row that shows what is known of it; the selected one is
/// marked.
pub proof fn law_rows_of_worktrees(nav: NavView, book: BookView, i: int)
    requires
        0 <= i < nav.session_list().len(),
    ensures
        ({
            let rows = crate::frame::worktree_rows_of(nav, book);
            let index = nav.session_list()[i];
            let session = nav.sessions[index as int];
            let known = session.repo_index < nav.repos.len();
            let row = rows[i];
            &&& rows.len() == nav.session_list().len()
            &&& row.session_index == index
            &&& known ==> row.repo_label == nav.repos[session.repo_index as int].label@
                && row.repo_root == nav.repos[session.repo_index as int].repo.root@
            &&& !known ==> row.repo_label == session.repo_label@ && row.repo_root.len() == 0
            &&& row.worktree_path == session.path_display@
            &&& row.branch == session.branch@
            &&& row.visibility == session.visibility
            &&& row.agent_state == session.agent_state
            &&& row.status_label == session.status_label@
            &&& row.pr == session.pr
            &&& row.wt_columns == session.wt_columns@
            &&& row.unseen_comments == session.unseen_comments
            &&& row.prompt_summary == session.prompt_summary@
            &&& row.classification == session.classification@
            &&& row.selected == (nav.selected_session() == Some(index))
            &&& row.updated_label == crate::navigation::updated_label(session)
            &&& row.kind == (if known && nav.repos[session.repo_index as int].config.default_branch@
                == session.branch@ {
                WorktreeKind::DefaultBranch
            } else if session.branch@ == "(detached)"@ {
                WorktreeKind::Detached
            } else {
                WorktreeKind::FeatureWorktree
            })
        }),
{
}

/// The row of a worktree shows the status of its automatic run and of its plan, where it
/// has one.
pub proof fn law_statuses_of_worktrees(book: BookView, path: Seq<char>)
    ensures
        ({
            let bare = crate::text::bare_path(path);
            let auto = value_at(book.active_auto_runs, bare);
            let plan = value_at(book.active_plan_runs, bare);
            &&& crate::frame::auto_status_at(book, path) == (if auto is Some
                && book.auto_runs.dom().contains(auto->0) {
                Some(book.auto_runs[auto->0].status)
            } else {
                None
            })
            &&& crate::frame::plan_status_at(book, path) == (if plan is Some
                && book.plan_runs.dom().contains(plan->0) {
                Some(book.plan_runs[plan->0].status)
            } else {
                None
            })
        }),
{
}

/// The row of a worktree takes both statuses from the worktree's own path.
pub proof fn law_rows_have_the_statuses_of_their_worktree(nav: NavView, book: BookView, i: int)
    requires
        0 <= i < nav.session_list().len(),
    ensures
        ({
            let row = crate::frame::worktree_rows_of(nav, book)[i];
            let path = nav.sessions[nav.session_list()[i] as int].path@;
            &&& row.auto_status == crate::frame::auto_status_at(book, path)
            &&& row.plan_status == crate::frame::plan_status_at(book, path)
        }),
{
}

/// The row of an open change request shows its summary, whether a worktree of the
/// repository belongs to it, and whether it is the selected one.
pub proof fn law_rows_of_requests(nav: NavView, i: int)
    requires
        0 <= i < nav.current_open_requests().len(),
        nav.current_repo < nav.repos.len(),
    ensures
        ({
            let row = crate::frame::request_rows_of(nav)[i];
            let repo = nav.repos[nav.current_repo as int];
            let at = nav.current_open_requests()[i];
            let summary = repo.pr_summaries@[at as int];
            &&& crate::frame::request_rows_of(nav).len() == nav.current_open_requests().len()
            &&& row.position == at
            &&& row.repo_label == repo.label@
            &&& row.summary == summary
            &&& row.selected == (nav.selected_number() == Some(summary.number))
            &&& row.has_worktree <==> exists|k: int|
                0 <= k < nav.sessions.len() && (#[trigger] nav.sessions[k]).repo_index
                    == nav.current_repo && nav.sessions[k].pr.summary is Some
                    && nav.sessions[k].pr.summary->0.number == summary.number
        }),
{
}

// ---------------------------------------------------------------------------
// Pictures of terminals
// ---------------------------------------------------------------------------

/// The picture that is asked for is that of the agent of the selected worktree, in the
/// generation that it runs in; without a worktree or an agent there is none.
pub proof fn law_picture_of_the_selected_agent(nav: NavView, tracker: TrackerView, index: usize)
    ensures
        nav.focused_panel != PanelFocus::Worktrees ==> crate::frame::portal_key(nav, tracker)
            is None,
        nav.selected_context() is None ==> crate::frame::portal_key(nav, tracker) is None,
        nav.focused_panel == PanelFocus::Worktrees && nav.selected_context() == Some(index) ==> ({
            let session = nav.sessions[index as int];
            let worktree = crate::keys::identity_view(
                nav.repos[session.repo_index as int].repo.root@,
                session,
            );
            if tracker.tmux_generations.dom().contains(worktree) {
                crate::frame::portal_key(nav, tracker) == Some(
                    GenerationView {
                        worktree,
                        generation: tracker.tmux_generations[worktree],
                    },
                )
            } else {
                crate::frame::portal_key(nav, tracker) is None
            }
        }),
{
}

/// A picture that was taken is shown under the branch that it was taken of; while there is
/// none, the selected branch is shown as loading.
pub proof fn law_shown_pictures(key: GenerationView, capture: TmuxPortalCapture)
    ensures
        crate::frame::portal_of(key, None).state is Loading,
        crate::frame::portal_of(key, None).branch == key.worktree.branch,
        capture.result is Ok ==> crate::frame::portal_of(key, Some(capture)).branch
            == capture.key@.worktree.branch && crate::frame::portal_of(key, Some(capture)).state
            == crate::frame::PortalStateView::Ready(
            crate::text::texts(capture.result->Ok_0@),
        ),
        capture.result is Err && capture.key@ == key ==> crate::frame::portal_of(
            key,
            Some(capture),
        ).state is Unavailable,
        capture.result is Err && capture.key@ != key ==> crate::frame::portal_of(
            key,
            Some(capture),
        ).state is Loading,
{
}

// ---------------------------------------------------------------------------
// News
// ---------------------------------------------------------------------------

/// The lines of an output are kept for its step, and are news where they differ from those
/// that were known.
pub proof fn law_lines_of_outputs(
    book: BookView,
    run_id: Seq<char>,
    step: usize,
    step_run_id: i64,
    root: Seq<char>,
    lines: DashboardOutputLines,
)
    ensures
        lines is Plan ==> ({
            let key = OutputView::Plan { root, run_id, step };
            let text = crate::text::texts(lines->Plan_0@);
            let after = crate::dashboard::book_with_output(book, key, lines);
            &&& value_at(after.plan_output, (run_id, step)) == Some(text)
            &&& after.auto_output == book.auto_output
            &&& after.plan_runs == book.plan_runs
            &&& crate::dashboard::output_is_new(book, key, lines) <==> value_at(
                book.plan_output,
                (run_id, step),
            ) != Some(text)
        }),
        lines is Auto ==> ({
            let key = OutputView::Auto { root, step_run_id };
            let text = crate::text::texts(lines->Auto_0@);
            let after = crate::dashboard::book_with_output(book, key, lines);
            &&& value_at(after.auto_output, (root, step_run_id)) == Some(text)
            &&& after.plan_output == book.plan_output
            &&& crate::dashboard::output_is_new(book, key, lines) <==> value_at(
                book.auto_output,
                (root, step_run_id),
            ) != Some(text)
        }),
{
}

/// News of runs begin a new revision, so that what was read before them no longer counts;
/// without news the revision stays.
pub proof fn law_revisions(view: TuiView, book: BookView)
    ensures
        view.with_book(book, true).book == book,
        view.with_book(book, false).book == book,
        view.with_book(book, false).tracker == view.tracker,
        view.tracker.workflow_revision < u64::MAX ==> view.with_book(
            book,
            true,
        ).tracker.workflow_revision == view.tracker.workflow_revision + 1,
        view.with_book(book, true).nav == view.nav,
        view.with_book(book, true).background == view.background,
{
}

/// What is known under a key is what a table holds there.
pub proof fn law_values_at_keys<K, V>(map: Map<K, V>, key: K)
    ensures
        map.dom().contains(key) ==> value_at(map, key) == Some(map[key]),
        !map.dom().contains(key) ==> value_at(map, key) is None,
        map.dom().contains(key) ==> value_at(map.remove(key), key) is None,
{
}

/// A pressed key runs its command, a mouse event that is taken and a new size draw the
/// dashboard, and coming back to it also reads it anew; nothing else has an effect.
pub proof fn law_answers_to_events(
    nav: NavView,
    keys: crate::input::KeyInputState,
    event: RuntimeEvent,
    area: Rect,
    layout: SidebarLayout,
)
    ensures
        ({
            let action = crate::dashboard::answer_to(nav, keys, event, area, layout);
            &&& action is Run <==> (event matches RuntimeEvent::Key(key) && key.kind
                == KeyEventKind::Press)
            &&& event matches RuntimeEvent::Key(key) ==> (key.kind == KeyEventKind::Press ==> action
                == LoopAction::Run(crate::input::command_of(keys, key)))
            &&& action == LoopAction::PollAndDraw <==> event is FocusGained
            &&& event is Resize ==> action == LoopAction::Draw
            &&& event is FocusLost ==> action == LoopAction::Ignore
            &&& event matches RuntimeEvent::Mouse { kind, x, y } ==> (action == LoopAction::Draw
                <==> nav.takes_mouse(kind, x, y, area, layout))
        }),
{
}

/// A stored list mode is taken over; without one the mode stays, and where it could not be
/// read that is said and the mode stays too.
pub proof fn law_stored_modes(
    view: TuiView,
    mode: WorktreeListMode,
    error: String,
    now_ms: u64,
)
    ensures
        crate::dashboard::with_stored_mode(view, Ok(Some(mode)), now_ms).nav.worktree_list_mode
            == mode,
        crate::dashboard::with_stored_mode(view, Ok(None), now_ms) == view,
        crate::dashboard::with_stored_mode(view, Err(error), now_ms) == view.with_message(
            "UI state was not loaded; keeping the current mode: "@ + error@,
            now_ms,
        ),
        crate::dashboard::with_stored_mode(view, Err(error), now_ms).nav == view.nav,
{
}

} // verus!
