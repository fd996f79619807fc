//! What holds of plans and automatic runs: which step is shown, which run is shown, what is
//! remembered of them, and when they are read.
use vstd::prelude::*;

use crate::keys::OutputView;
use crate::navigation::NavView;
use crate::navigation::PanelFocus;
use crate::run_book::value_at;
use crate::run_book::BookView;
use crate::run_book::ScopeView;
use crate::run_book::StateView;
use crate::run_book::WorkflowPollSnapshot;
use crate::runs::preferred;
use crate::runs::status_rank;
use crate::runs::AutoPlace;
use crate::runs::AutoPlaceView;
use crate::runs::AutoRun;
use crate::runs::AutoStepView;
use crate::runs::AutoView;
use crate::runs::PlanRun;
use crate::runs::PlanRunStatus;
use crate::runs::PlanStep;
use crate::runs::PlanStepStatus;
use crate::runs::PlanView;
use crate::runs::Tier;
use crate::tracker::TrackerView;

verus! {

// ---------------------------------------------------------------------------
// The step that is shown
// ---------------------------------------------------------------------------

/// Whether a step is under way.
pub open spec fn is_under_way(step: PlanStep) -> bool {
    step.status == PlanStepStatus::Starting || step.status == PlanStepStatus::Running
}

/// Whether a step that is neither done nor skipped has begun or ended.
pub open spec fn was_touched(step: PlanStep) -> bool {
    step.status != PlanStepStatus::Done && step.status != PlanStepStatus::Skipped && (
    step.started_unix_ms is Some || step.finished_unix_ms is Some)
}

/// Whether a step has ended.
pub open spec fn has_ended(step: PlanStep) -> bool {
    step.status == PlanStepStatus::Done || step.status == PlanStepStatus::Failed || step.status
        == PlanStepStatus::Aborted || step.status == PlanStepStatus::Skipped
}

/// A time, or the beginning of time where there is none.
pub open spec fn moment(time: Option<u64>) -> u64 {
    if time is Some {
        time->0
    } else {
        0
    }
}

/// Whether the first of two steps is shown rather than the second: it is of a later time, or
/// of the same time and a higher number.
pub open spec fn is_later(time: u64, step: PlanStep, other_time: u64, other: PlanStep) -> bool {
    time > other_time || (time == other_time && step.step >= other.step)
}

/// Of the steps that are under way the one that started last is shown; no other step is
/// shown while one is under way.
pub proof fn law_latest_active_step_is_shown(run: PlanView, i: int)
    requires
        0 <= i < run.steps.len(),
        is_under_way(run.steps[i]),
    ensures
        exists|k: int|
            0 <= k < run.steps.len() && is_under_way(#[trigger] run.steps[k]) && run.steps[k].step
                == preferred(run) && is_later(
                moment(run.steps[k].started_unix_ms),
                run.steps[k],
                moment(run.steps[i].started_unix_ms),
                run.steps[i],
            ),
{
    crate::runs::lemma_latest_step(run.steps, Tier::Active, run.steps.len());
    let best = crate::runs::latest_step(run.steps, Tier::Active, run.steps.len())->0;
    assert(crate::runs::in_tier(Tier::Active, run.steps[i]));
    let k = choose|k: int|
        0 <= k < run.steps.len() && crate::runs::in_tier(Tier::Active, #[trigger] run.steps[k])
            && crate::runs::tier_time(Tier::Active, run.steps[k]) == best.0 && run.steps[k].step
            == best.1;
    assert(is_under_way(run.steps[k]));
}

/// Where no step is under way, of those that were begun and are not finished the one of the
/// latest time is shown.
pub proof fn law_latest_touched_step_is_shown(run: PlanView, i: int)
    requires
        0 <= i < run.steps.len(),
        was_touched(run.steps[i]),
        forall|k: int| 0 <= k < run.steps.len() ==> !is_under_way(#[trigger] run.steps[k]),
    ensures
        exists|k: int|
            0 <= k < run.steps.len() && was_touched(#[trigger] run.steps[k]) && run.steps[k].step
                == preferred(run) && is_later(
                if run.steps[k].started_unix_ms is Some {
                    run.steps[k].started_unix_ms->0
                } else {
                    moment(run.steps[k].finished_unix_ms)
                },
                run.steps[k],
                if run.steps[i].started_unix_ms is Some {
                    run.steps[i].started_unix_ms->0
                } else {
                    moment(run.steps[i].finished_unix_ms)
                },
                run.steps[i],
            ),
{
    crate::runs::lemma_latest_step(run.steps, Tier::Active, run.steps.len());
    crate::runs::lemma_latest_step(run.steps, Tier::Touched, run.steps.len());
    if crate::runs::latest_step(run.steps, Tier::Active, run.steps.len()) is Some {
        let best = crate::runs::latest_step(run.steps, Tier::Active, run.steps.len())->0;
        let k = choose|k: int|
            0 <= k < run.steps.len() && crate::runs::in_tier(
                Tier::Active,
                #[trigger] run.steps[k],
            ) && crate::runs::tier_time(Tier::Active, run.steps[k]) == best.0
                && run.steps[k].step == best.1;
        assert(is_under_way(run.steps[k]));
    }
    assert(crate::runs::in_tier(Tier::Touched, run.steps[i]));
    let best = crate::runs::latest_step(run.steps, Tier::Touched, run.steps.len())->0;
    let k = choose|k: int|
        0 <= k < run.steps.len() && crate::runs::in_tier(Tier::Touched, #[trigger] run.steps[k])
            && crate::runs::tier_time(Tier::Touched, run.steps[k]) == best.0 && run.steps[k].step
            == best.1;
    assert(was_touched(run.steps[k]));
}

/// Where no step was begun but some ended, the one that ended last is shown.
pub proof fn law_latest_ended_step_is_shown(run: PlanView, i: int)
    requires
        0 <= i < run.steps.len(),
        has_ended(run.steps[i]),
        forall|k: int|
            0 <= k < run.steps.len() ==> !is_under_way(#[trigger] run.steps[k]) && !was_touched(
                run.steps[k],
            ),
    ensures
        exists|k: int|
            0 <= k < run.steps.len() && has_ended(#[trigger] run.steps[k]) && run.steps[k].step
                == preferred(run) && is_later(
                moment(run.steps[k].finished_unix_ms),
                run.steps[k],
                moment(run.steps[i].finished_unix_ms),
                run.steps[i],
            ),
{
    crate::runs::lemma_latest_step(run.steps, Tier::Active, run.steps.len());
    crate::runs::lemma_latest_step(run.steps, Tier::Touched, run.steps.len());
    crate::runs::lemma_latest_step(run.steps, Tier::Ended, run.steps.len());
    if crate::runs::latest_step(run.steps, Tier::Active, run.steps.len()) is Some {
        let best = crate::runs::latest_step(run.steps, Tier::Active, run.steps.len())->0;
        let k = choose|k: int|
            0 <= k < run.steps.len() && crate::runs::in_tier(
                Tier::Active,
                #[trigger] run.steps[k],
            ) && crate::runs::tier_time(Tier::Active, run.steps[k]) == best.0
                && run.steps[k].step == best.1;
        assert(is_under_way(run.steps[k]));
    }
    if crate::runs::latest_step(run.steps, Tier::Touched, run.steps.len()) is Some {
        let best = crate::runs::latest_step(run.steps, Tier::Touched, run.steps.len())->0;
        let k = choose|k: int|
            0 <= k < run.steps.len() && crate::runs::in_tier(
                Tier::Touched,
                #[trigger] run.steps[k],
            ) && crate::runs::tier_time(Tier::Touched, run.steps[k]) == best.0
                && run.steps[k].step == best.1;
        assert(was_touched(run.steps[k]));
    }
    assert(crate::runs::in_tier(Tier::Ended, run.steps[i]));
    let best = crate::runs::latest_step(run.steps, Tier::Ended, run.steps.len())->0;
    let k = choose|k: int|
        0 <= k < run.steps.len() && crate::runs::in_tier(Tier::Ended, #[trigger] run.steps[k])
            && crate::runs::tier_time(Tier::Ended, run.steps[k]) == best.0 && run.steps[k].step
            == best.1;
    assert(has_ended(run.steps[k]));
}

/// Where nothing has happened yet, the step that the run names is shown, or the one of the
/// highest number where it has no such step.
pub proof fn law_unbegun_runs_show_their_own_step(run: PlanView, i: int)
    requires
        forall|k: int|
            0 <= k < run.steps.len() ==> !is_under_way(#[trigger] run.steps[k]) && !was_touched(
                run.steps[k],
            ) && !has_ended(run.steps[k]),
    ensures
        run.steps.len() == 0 ==> preferred(run) == run.selected_step,
        0 <= i < run.steps.len() && run.steps[i].step == run.selected_step ==> preferred(run)
            == run.selected_step,
        0 <= i < run.steps.len() && (forall|k: int|
            0 <= k < run.steps.len() ==> (#[trigger] run.steps[k]).step != run.selected_step)
            ==> preferred(run) >= run.steps[i].step,
{
    let n = run.steps.len();
    crate::runs::lemma_latest_step(run.steps, Tier::Active, n);
    crate::runs::lemma_latest_step(run.steps, Tier::Touched, n);
    crate::runs::lemma_latest_step(run.steps, Tier::Ended, n);
    crate::runs::lemma_latest_step(run.steps, Tier::Any, n);
    if crate::runs::latest_step(run.steps, Tier::Active, n) is Some {
        let best = crate::runs::latest_step(run.steps, Tier::Active, n)->0;
        let k = choose|k: int|
            0 <= k < n && crate::runs::in_tier(Tier::Active, #[trigger] run.steps[k])
                && crate::runs::tier_time(Tier::Active, run.steps[k]) == best.0
                && run.steps[k].step == best.1;
        assert(is_under_way(run.steps[k]));
    }
    if crate::runs::latest_step(run.steps, Tier::Touched, n) is Some {
        let best = crate::runs::latest_step(run.steps, Tier::Touched, n)->0;
        let k = choose|k: int|
            0 <= k < n && crate::runs::in_tier(Tier::Touched, #[trigger] run.steps[k])
                && crate::runs::tier_time(Tier::Touched, run.steps[k]) == best.0
                && run.steps[k].step == best.1;
        assert(was_touched(run.steps[k]));
    }
    if crate::runs::latest_step(run.steps, Tier::Ended, n) is Some {
        let best = crate::runs::latest_step(run.steps, Tier::Ended, n)->0;
        let k = choose|k: int|
            0 <= k < n && crate::runs::in_tier(Tier::Ended, #[trigger] run.steps[k])
                && crate::runs::tier_time(Tier::Ended, run.steps[k]) == best.0
                && run.steps[k].step == best.1;
        assert(has_ended(run.steps[k]));
    }
    if 0 <= i < n {
        assert(crate::runs::in_tier(Tier::Any, run.steps[i]));
    }
}

/// A step that was chosen by hand is shown as long as the run has it; otherwise the step is
/// shown that the run itself is at.
pub proof fn law_chosen_steps(book: BookView, run: PlanView)
    ensures
        ({
            let chosen = value_at(book.selected_plan_step_by_run, run.id);
            let there = exists|k: int|
                0 <= k < run.steps.len() && Some((#[trigger] run.steps[k]).step) == chosen;
            &&& book.manual_plan_steps.contains(run.id) && there ==> Some(book.resolved_step(run))
                == chosen
            &&& !book.manual_plan_steps.contains(run.id) || !there ==> book.resolved_step(run)
                == preferred(run)
        }),
{
    let chosen = value_at(book.selected_plan_step_by_run, run.id);
    if exists|k: int|
        0 <= k < run.steps.len() && Some((#[trigger] run.steps[k]).step) == chosen {
        let k = choose|k: int|
            0 <= k < run.steps.len() && Some((#[trigger] run.steps[k]).step) == chosen;
        assert(run.steps[k].step == chosen->0);
    }
    if crate::runs::has_step(run.steps, book.selected_plan_step_by_run[run.id]) {
        let k = choose|k: int|
            0 <= k < run.steps.len() && (#[trigger] run.steps[k]).step
                == book.selected_plan_step_by_run[run.id];
        assert(run.steps[k].step == book.selected_plan_step_by_run[run.id]);
    }
}

// ---------------------------------------------------------------------------
// Runs of a worktree
// ---------------------------------------------------------------------------

/// Runs that are under way come first, then those that wait, then those that failed, then
/// drafts, and those that are done last.
pub proof fn law_order_of_statuses()
    ensures
        status_rank(PlanRunStatus::Running) < status_rank(PlanRunStatus::Queued),
        status_rank(PlanRunStatus::Queued) < status_rank(PlanRunStatus::Paused),
        status_rank(PlanRunStatus::Paused) < status_rank(PlanRunStatus::Failed),
        status_rank(PlanRunStatus::Failed) < status_rank(PlanRunStatus::Aborted),
        status_rank(PlanRunStatus::Aborted) < status_rank(PlanRunStatus::Draft),
        status_rank(PlanRunStatus::Draft) < status_rank(PlanRunStatus::Done),
{
}

/// In the list of a worktree's runs no run that is under way stands behind one that is not,
/// none that is not done stands behind one that is, and of those of one status the one that
/// changed last comes first.
pub proof fn law_running_runs_come_first(book: BookView, scope: ScopeView, p: int, q: int)
    requires
        book.plan_runs.dom().finite(),
        0 <= p < q < book.scope_runs(scope).len(),
    ensures
        ({
            let before = book.plan_runs[book.scope_runs(scope)[p]];
            let behind = book.plan_runs[book.scope_runs(scope)[q]];
            &&& behind.status == PlanRunStatus::Running ==> before.status == PlanRunStatus::Running
            &&& before.status == PlanRunStatus::Done ==> behind.status == PlanRunStatus::Done
            &&& before.status == behind.status ==> before.updated_unix_ms
                >= behind.updated_unix_ms
            &&& (behind.status == PlanRunStatus::Queued || behind.status == PlanRunStatus::Paused)
                ==> before.status != PlanRunStatus::Failed && before.status
                != PlanRunStatus::Aborted && before.status != PlanRunStatus::Draft
                && before.status != PlanRunStatus::Done
        }),
{
    crate::run_book::law_run_list_is_exact(book, scope);
    let a = book.scope_runs(scope)[p];
    let b = book.scope_runs(scope)[q];
    assert(a != b);
}

/// The runs of a worktree are those that were made for its repository and its path and are
/// not archived.
pub proof fn law_runs_of_a_worktree(book: BookView, scope: ScopeView, id: Seq<char>)
    requires
        book.plan_runs.dom().finite(),
    ensures
        book.scope_runs(scope).contains(id) <==> book.plan_runs.dom().contains(id)
            && book.plan_runs[id].repo_root == scope.root && crate::text::bare_path(
            book.plan_runs[id].scope_path,
        ) == crate::text::bare_path(scope.path) && book.plan_runs[id].archived_unix_ms is None,
{
    crate::run_book::law_run_list_is_exact(book, scope);
}

/// The run that is shown of a worktree is the one that was chosen for it, where it is still
/// listed, and the first of the list otherwise.
pub proof fn law_shown_run(book: BookView, scope: ScopeView)
    ensures
        ({
            let ids = book.scope_runs(scope);
            let chosen = value_at(book.active_plan_runs, crate::text::bare_path(scope.path));
            &&& chosen is Some && ids.contains(chosen->0) ==> book.scope_run(scope) == chosen
            &&& (chosen is None || !ids.contains(chosen->0)) && ids.len() > 0 ==> book.scope_run(
                scope,
            ) == Some(ids[0])
            &&& (chosen is None || !ids.contains(chosen->0)) && ids.len() == 0 ==> book.scope_run(
                scope,
            ) is None
        }),
{
}

/// The plan of the selected worktree is shown with the focus on worktrees, and not
/// otherwise.
pub proof fn law_plans_are_those_of_the_worktree(book: BookView, nav: NavView, index: usize)
    ensures
        nav.focused_panel != PanelFocus::Worktrees ==> book.plan_dashboard(nav) is None,
        nav.selected_context() is None ==> book.plan_dashboard(nav) is None,
        nav.focused_panel == PanelFocus::Worktrees && nav.selected_context() == Some(index) ==> ({
            let scope = ScopeView {
                root: nav.repos[nav.sessions[index as int].repo_index as int].repo.root@,
                path: nav.sessions[index as int].path@,
            };
            match book.plan_dashboard(nav) {
                Some(shown) => {
                    let id = book.scope_run(scope)->0;
                    let run = book.plan_runs[id];
                    let step = book.resolved_step(run);
                    &&& book.scope_run(scope) is Some
                    &&& shown.run == (PlanView { selected_step: step, ..run })
                    &&& shown.output_lines == (if book.plan_output.dom().contains((run.id, step)) {
                        book.plan_output[(run.id, step)]
                    } else {
                        Seq::empty()
                    })
                    &&& shown.runs.len() == book.scope_runs(
                        ScopeView { root: scope.root, path: run.scope_path },
                    ).len()
                },
                None => book.scope_run(scope) is None,
            }
        }),
{
}

/// The list beside a plan has one entry for each run, with its status, and marks the shown
/// one.
pub proof fn law_summaries_of_runs(
    book: BookView,
    scope: ScopeView,
    marked: Seq<char>,
    i: int,
)
    requires
        0 <= i < book.scope_runs(scope).len(),
    ensures
        ({
            let id = book.scope_runs(scope)[i];
            let run = book.plan_runs[id];
            let entry = book.summaries(scope, marked)[i];
            &&& book.summaries(scope, marked).len() == book.scope_runs(scope).len()
            &&& entry.id == run.id
            &&& entry.plan_display == run.plan_display
            &&& entry.scope_path == run.scope_path
            &&& entry.status == run.status
            &&& entry.updated_unix_ms == run.updated_unix_ms
            &&& entry.selected == (id == marked)
        }),
{
}

/// The viewer of an output follows its end, until it is told not to; then it stays where it
/// is, as long as there are so many lines.
pub proof fn law_viewers_follow_the_end(state: StateView, lines: nat)
    requires
        0 < lines <= usize::MAX,
    ensures
        crate::run_book::shown_state(None, lines).follow,
        crate::run_book::shown_state(None, lines).cursor == lines - 1,
        crate::run_book::shown_state(None, lines).expanded_blocks.len() == 0,
        state.follow ==> crate::run_book::shown_state(Some(state), lines) == (StateView {
            cursor: (lines - 1) as usize,
            ..state
        }),
        !state.follow && state.cursor < lines ==> crate::run_book::shown_state(Some(state), lines)
            == state,
        !state.follow && state.cursor >= lines ==> crate::run_book::shown_state(
            Some(state),
            lines,
        ) == (StateView { cursor: (lines - 1) as usize, ..state }),
{
}

// ---------------------------------------------------------------------------
// What is remembered of runs
// ---------------------------------------------------------------------------

/// A plan run that is remembered is known as it was told; other runs stay as they were. It
/// becomes the shown one of its worktree where none is known.
pub proof fn law_remembered_plan_runs(book: BookView, run: PlanView, other: Seq<char>)
    ensures
        ({
            let after = book.with_plan_run(run);
            let path = crate::text::bare_path(run.scope_path);
            let shown = value_at(book.active_plan_runs, path);
            &&& after.plan_runs.dom().contains(run.id) && after.plan_runs[run.id] == run
            &&& other != run.id ==> value_at(after.plan_runs, other) == value_at(
                book.plan_runs,
                other,
            )
            &&& shown is None ==> value_at(after.active_plan_runs, path) == Some(run.id)
            &&& shown is Some && shown->0 != run.id && !book.plan_runs.dom().contains(shown->0)
                ==> value_at(after.active_plan_runs, path) == Some(run.id)
            &&& shown is Some && book.plan_runs.dom().contains(shown->0)
                ==> after.active_plan_runs == book.active_plan_runs
            &&& other != path ==> value_at(after.active_plan_runs, other) == value_at(
                book.active_plan_runs,
                other,
            )
            &&& after.auto_runs == book.auto_runs
            &&& after.plan_output == book.plan_output
            &&& after.manual_plan_steps == book.manual_plan_steps
        }),
{
}

/// A run is news exactly where it is not known as it was told, however its path is spelled.
pub proof fn law_news_of_runs(book: BookView, plan: PlanView, auto: AutoView)
    ensures
        book.plan_run_is_new(plan) <==> !(book.plan_runs.dom().contains(plan.id) && (PlanView {
            scope_path: crate::text::bare_path(book.plan_runs[plan.id].scope_path),
            ..book.plan_runs[plan.id]
        }) == (PlanView { scope_path: crate::text::bare_path(plan.scope_path), ..plan })),
        book.auto_run_is_new(auto) <==> !(book.auto_runs.dom().contains(auto.id) && (AutoView {
            worktree_path: crate::text::bare_path(book.auto_runs[auto.id].worktree_path),
            ..book.auto_runs[auto.id]
        }) == (AutoView { worktree_path: crate::text::bare_path(auto.worktree_path), ..auto })),
{
}

/// An automatic run that is remembered is known as it was told and is the one of its
/// worktree; it becomes the selected one where none is. Its step is the chosen one, or the
/// one that it names, or its first.
pub proof fn law_remembered_auto_runs(book: BookView, run: AutoView, other: Seq<char>)
    ensures
        ({
            let after = book.with_auto_run(run);
            let path = crate::text::bare_path(run.worktree_path);
            let chosen = value_at(book.selected_auto_step_by_run, run.id);
            &&& after.auto_runs.dom().contains(run.id) && after.auto_runs[run.id] == run
            &&& value_at(after.active_auto_runs, path) == Some(run.id)
            &&& other != path ==> value_at(after.active_auto_runs, other) == value_at(
                book.active_auto_runs,
                other,
            )
            &&& other != run.id ==> value_at(after.auto_runs, other) == value_at(
                book.auto_runs,
                other,
            )
            &&& book.selected_auto_run is Some ==> after.selected_auto_run
                == book.selected_auto_run
            &&& book.selected_auto_run is None ==> after.selected_auto_run == Some(run.id)
            &&& chosen is Some ==> value_at(after.selected_auto_step_by_run, run.id) == chosen
            &&& chosen is None && run.selected_step_run_id is Some ==> value_at(
                after.selected_auto_step_by_run,
                run.id,
            ) == run.selected_step_run_id
            &&& chosen is None && run.selected_step_run_id is None && run.steps.len() > 0
                && run.steps[0].id is Some ==> value_at(after.selected_auto_step_by_run, run.id)
                == run.steps[0].id
            &&& after.plan_runs == book.plan_runs
        }),
{
}

/// What is taken over of a reading of the runs is what was read; what could not be read
/// stays as it was.
pub proof fn law_unread_runs_stay(book: BookView, snapshot: WorkflowPollSnapshot)
    ensures
        snapshot.plan_runs is Err && snapshot.auto_runs is Err && snapshot.linked_plan_runs is Err
            ==> book.with_poll(snapshot) == book && !book.poll_is_new(snapshot),
        snapshot.plan_runs is Err && snapshot.linked_plan_runs is Err ==> book.with_poll(
            snapshot,
        ) == book.with_polled_autos(snapshot),
        snapshot.auto_runs is Err && snapshot.linked_plan_runs is Err ==> book.with_poll(
            snapshot,
        ) == book.with_polled_plans(snapshot),
{
}

proof fn lemma_polled_plans(book: BookView, runs: Seq<PlanRun>, n: nat, i: int)
    requires
        n <= runs.len(),
        0 <= i < n,
        forall|j: int, k: int|
            0 <= j < k < runs.len() ==> (#[trigger] runs[j])@.id != (#[trigger] runs[k])@.id,
    ensures
        value_at(book.with_plan_runs(runs, n).plan_runs, runs[i]@.id) == Some(runs[i]@),
    decreases n,
{
    if i < n - 1 {
        lemma_polled_plans(book, runs, (n - 1) as nat, i);
        assert(runs[i]@.id != runs[n - 1]@.id);
    }
}

/// Every run that was read is known as it was read.
pub proof fn law_read_runs_are_known(book: BookView, snapshot: WorkflowPollSnapshot, i: int)
    requires
        snapshot.plan_runs is Ok,
        0 <= i < snapshot.plan_runs->Ok_0@.len(),
        forall|j: int, k: int|
            0 <= j < k < snapshot.plan_runs->Ok_0@.len() ==> (
            #[trigger] snapshot.plan_runs->Ok_0@[j])@.id != (
            #[trigger] snapshot.plan_runs->Ok_0@[k])@.id,
    ensures
        value_at(
            book.with_polled_plans(snapshot).plan_runs,
            snapshot.plan_runs->Ok_0@[i]@.id,
        ) == Some(snapshot.plan_runs->Ok_0@[i]@),
{
    let runs = snapshot.plan_runs->Ok_0@;
    lemma_polled_plans(book, runs, runs.len(), i);
}

// ---------------------------------------------------------------------------
// Automatic runs
// ---------------------------------------------------------------------------

/// With the focus on worktrees the automatic run of the selected worktree is shown, with the
/// focus on the status the selected run, and elsewhere none.
pub proof fn law_shown_auto_runs(book: BookView, nav: NavView, index: usize)
    ensures
        nav.focused_panel == PanelFocus::Repos || nav.focused_panel == PanelFocus::Merges
            ==> book.auto_dashboard(nav) is None,
        nav.focused_panel == PanelFocus::Worktrees && nav.selected_context() == Some(index) ==> ({
            let root = nav.repos[nav.sessions[index as int].repo_index as int].repo.root@;
            let id = value_at(
                book.active_auto_runs,
                crate::text::bare_path(nav.sessions[index as int].path@),
            );
            if id is Some && book.auto_runs.dom().contains(id->0) {
                book.auto_dashboard(nav) == Some(book.auto_dashboard_of(root, id->0))
            } else {
                book.auto_dashboard(nav) is None
            }
        }),
        nav.focused_panel == PanelFocus::Status && book.status_auto_run() is None
            ==> book.auto_dashboard(nav) is None,
{
}

/// The automatic run of the status panel is the selected one as long as it is that of a
/// worktree.
pub proof fn law_selected_auto_run(book: BookView, id: Seq<char>, path: Seq<char>)
    requires
        book.selected_auto_run == Some(id),
        book.auto_runs.dom().contains(id),
        book.active_auto_runs.dom().contains(path),
        book.active_auto_runs[path] == id,
    ensures
        book.status_auto_run() == Some(id),
{
    assert(book.is_active_auto(id));
}

/// What is shown of an automatic run: the run at its chosen step, with the output of that
/// step, and the plan that the step is linked to.
pub proof fn law_shown_auto_run(book: BookView, root: Seq<char>, id: Seq<char>)
    ensures
        ({
            let shown = book.auto_dashboard_of(root, id);
            let chosen = value_at(book.selected_auto_step_by_run, id);
            let run = book.auto_runs[id];
            let step = if chosen is Some {
                chosen
            } else if run.selected_step_run_id is Some {
                run.selected_step_run_id
            } else if run.steps.len() > 0 {
                run.steps[0].id
            } else {
                None
            };
            &&& chosen is Some ==> shown.run == (AutoView { selected_step_run_id: chosen, ..run })
            &&& chosen is None ==> shown.run == run
            &&& step is None ==> shown.output_lines.len() == 0
            &&& step is Some ==> shown.output_lines == (if book.auto_output.dom().contains(
                (crate::text::bare_path(root), step->0),
            ) {
                book.auto_output[(crate::text::bare_path(root), step->0)]
            } else {
                Seq::empty()
            })
        }),
{
}

// ---------------------------------------------------------------------------
// Moves
// ---------------------------------------------------------------------------

proof fn lemma_step_position(steps: Seq<PlanStep>, number: usize, n: nat)
    requires
        n <= steps.len(),
    ensures
        match crate::run_book::step_position(steps, number, n) {
            Some(at) => 0 <= at < n && steps[at].step == number && forall|k: int|
                0 <= k < at ==> (#[trigger] steps[k]).step != number,
            None => forall|k: int| 0 <= k < n ==> (#[trigger] steps[k]).step != number,
        },
    decreases n,
{
    if n > 0 {
        lemma_step_position(steps, number, (n - 1) as nat);
    }
}

/// A move between the steps of the shown plan chooses the neighbour by hand; at the ends
/// the step stays, and is chosen by hand all the same.
pub proof fn law_moves_between_steps(book: BookView, nav: NavView, at: int, direction: int)
    requires
        book.plan_dashboard(nav) is Some,
        0 <= at < book.plan_dashboard(nav)->0.run.steps.len(),
        value_at(book.selected_plan_step_by_run, book.plan_dashboard(nav)->0.run.id) == Some(
            book.plan_dashboard(nav)->0.run.steps[at].step,
        ),
        forall|j: int, k: int|
            0 <= j < k < book.plan_dashboard(nav)->0.run.steps.len() ==> (
            #[trigger] book.plan_dashboard(nav)->0.run.steps[j]).step != (
            #[trigger] book.plan_dashboard(nav)->0.run.steps[k]).step,
    ensures
        ({
            let run = book.plan_dashboard(nav)->0.run;
            let after = book.with_step_moved(nav, direction);
            &&& after.manual_plan_steps.contains(run.id)
            &&& 0 <= at + direction < run.steps.len() ==> value_at(
                after.selected_plan_step_by_run,
                run.id,
            ) == Some(run.steps[at + direction].step)
            &&& !(0 <= at + direction < run.steps.len()) ==> after.selected_plan_step_by_run
                == book.selected_plan_step_by_run
            &&& after.plan_runs == book.plan_runs
            &&& after.active_plan_runs == book.active_plan_runs
        }),
{
    let run = book.plan_dashboard(nav)->0.run;
    lemma_step_position(run.steps, run.steps[at].step, run.steps.len());
    let found = crate::run_book::step_position(run.steps, run.steps[at].step, run.steps.len());
    match found {
        Some(k) => {
            if k < at {
                assert(run.steps[k].step != run.steps[at].step);
            } else if at < k {
                assert(run.steps[at].step != run.steps[k].step);
            }
        },
        None => {},
    }
}

/// Moves between runs go round: one on from the last leads to the first, and one back from
/// the first to the last.
pub proof fn law_moves_between_runs(at: int, len: int)
    requires
        0 <= at < len,
    ensures
        crate::run_book::moved_position(at, 1, len) == (if at + 1 < len {
            at + 1
        } else {
            0
        }),
        crate::run_book::moved_position(at, -1, len) == (if at > 0 {
            at - 1
        } else {
            len - 1
        }),
{
    if at + 1 < len {
        assert((at + 1) % len == at + 1) by (nonlinear_arith)
            requires
                0 <= at,
                at + 1 < len,
        ;
    } else {
        assert((at + 1) % len == 0) by (nonlinear_arith)
            requires
                at + 1 == len,
                len > 0,
        ;
    }
}

proof fn lemma_name_position(ids: Seq<Seq<char>>, id: Seq<char>, n: nat)
    requires
        n <= ids.len(),
    ensures
        match crate::run_book::name_position(ids, id, n) {
            Some(at) => 0 <= at < n && ids[at] == id && forall|k: int|
                0 <= k < at ==> #[trigger] ids[k] != id,
            None => forall|k: int| 0 <= k < n ==> #[trigger] ids[k] != id,
        },
    decreases n,
{
    if n > 0 {
        lemma_name_position(ids, id, (n - 1) as nat);
    }
}

/// A move between the runs of the selected worktree shows the neighbour of the shown run
/// from then on; with fewer than two runs nothing moves.
pub proof fn law_moved_runs(book: BookView, nav: NavView, scope: ScopeView, at: int)
    requires
        book.plan_runs.dom().finite(),
        crate::run_book::plan_scope(nav) == Some(scope),
        0 <= at < book.scope_runs(scope).len(),
        book.scope_run(scope) == Some(book.scope_runs(scope)[at]),
    ensures
        ({
            let ids = book.scope_runs(scope);
            let path = crate::text::bare_path(scope.path);
            &&& ids.len() >= 2 ==> value_at(book.with_run_moved(nav, 1).active_plan_runs, path)
                == Some(
                ids[if at + 1 < ids.len() {
                    at + 1
                } else {
                    0
                }],
            )
            &&& ids.len() >= 2 ==> value_at(book.with_run_moved(nav, -1).active_plan_runs, path)
                == Some(
                ids[if at > 0 {
                    at - 1
                } else {
                    ids.len() - 1
                }],
            )
            &&& ids.len() < 2 ==> book.with_run_moved(nav, 1) == book && book.with_run_moved(
                nav,
                -1,
            ) == book
        }),
{
    let ids = book.scope_runs(scope);
    crate::run_book::law_run_list_is_exact(book, scope);
    lemma_name_position(ids, ids[at], ids.len());
    match crate::run_book::name_position(ids, ids[at], ids.len()) {
        Some(k) => {
            if k < at {
                assert(ids[k] != ids[at]);
            } else if at < k {
                assert(ids[at] != ids[k]);
            }
        },
        None => {},
    }
    law_moves_between_runs(at, ids.len() as int);
}

// ---------------------------------------------------------------------------
// Reading
// ---------------------------------------------------------------------------

/// The outputs that are read are those of the shown step of the shown plan and of the shown
/// step of the shown automatic run, with the plan that it is linked to.
pub proof fn law_wanted_outputs(book: BookView, nav: NavView, scope: ScopeView, id: Seq<char>)
    requires
        crate::run_book::plan_scope(nav) == Some(scope),
        book.scope_run(scope) == Some(id),
    ensures
        book.wanted_outputs(nav).contains(
            (OutputView::Plan {
                root: crate::text::bare_path(scope.root),
                run_id: id,
                step: book.resolved_step(book.plan_runs[id]),
            }),
        ),
        forall|root: Seq<char>, other: Seq<char>, step: usize|
            book.auto_dashboard(nav) is None && #[trigger] book.wanted_outputs(nav).contains(
                (OutputView::Plan { root, run_id: other, step }),
            ) ==> other == id && step == book.resolved_step(book.plan_runs[id]),
{
}

/// An output is read again once a second has passed, and not while it is being read.
pub proof fn law_due_outputs(
    book: BookView,
    nav: NavView,
    tracker: TrackerView,
    now_ms: u64,
    key: OutputView,
)
    ensures
        book.due_outputs(nav, tracker, now_ms).contains(key) <==> book.wanted_outputs(
            nav,
        ).contains(key) && !tracker.dashboard_outputs_in_flight.contains(key) && (
        !book.output_last_polled.dom().contains(key) || now_ms - book.output_last_polled[key]
            >= 1000),
{
}

proof fn lemma_due_polls(
    book: BookView,
    nav: NavView,
    tracker: TrackerView,
    force: bool,
    now_ms: u64,
    n: nat,
)
    requires
        n <= nav.repos.len(),
        n <= usize::MAX,
    ensures
        forall|i: usize| #[trigger]
            book.due_polls(nav, tracker, force, now_ms, n).contains(i) <==> i < n
                && book.poll_is_due(nav, tracker, i as int, force, now_ms),
    decreases n,
{
    if n > 0 {
        lemma_due_polls(book, nav, tracker, force, now_ms, (n - 1) as nat);
        let before = book.due_polls(nav, tracker, force, now_ms, (n - 1) as nat);
        let all = book.due_polls(nav, tracker, force, now_ms, n);
        assert forall|i: usize| #[trigger] all.contains(i) <==> i < n && book.poll_is_due(
            nav,
            tracker,
            i as int,
            force,
            now_ms,
        ) by {
            if all.contains(i) {
                let k = choose|k: int| 0 <= k < all.len() && all[k] == i;
                if k < before.len() {
                    assert(before[k] == i);
                    assert(before.contains(i));
                }
            }
            if before.contains(i) {
                let k = choose|k: int| 0 <= k < before.len() && before[k] == i;
                assert(all[k] == i);
            }
            if i == n - 1 && book.poll_is_due(nav, tracker, i as int, force, now_ms) {
                assert(all[before.len() as int] == i);
            }
        }
    }
}

/// The runs of a repository are read again once a second has passed or when that is asked
/// for, and not while they are being read.
pub proof fn law_due_polls(
    book: BookView,
    nav: NavView,
    tracker: TrackerView,
    force: bool,
    now_ms: u64,
    i: usize,
)
    requires
        nav.repos.len() <= usize::MAX,
    ensures
        ({
            let root = crate::text::bare_path(nav.repos[i as int].repo.root@);
            book.due_polls(nav, tracker, force, now_ms, nav.repos.len()).contains(i) <==> i
                < nav.repos.len() && !tracker.workflow_polls_in_flight.contains(root) && (force
                || !book.workflow_last_polled.dom().contains(root) || now_ms
                - book.workflow_last_polled[root] >= 1000)
        }),
        crate::run_book::WORKFLOW_MAINTENANCE_INTERVAL_MS == 60 * 60 * 1000,
{
    lemma_due_polls(book, nav, tracker, force, now_ms, nav.repos.len());
}

/// What has just been read is remembered with its time, and nothing else is.
pub proof fn law_times_of_reading<K>(polled: Map<K, u64>, due: Set<K>, now_ms: u64, key: K)
    ensures
        due.contains(key) ==> value_at(crate::run_book::polled_now(polled, due, now_ms), key)
            == Some(now_ms),
        !due.contains(key) ==> value_at(crate::run_book::polled_now(polled, due, now_ms), key)
            == value_at(polled, key),
{
}

/// The plan that an automatic run's shown step is linked to is shown with the run: it is
/// looked for among the plans of worktrees first, and then among those that are only linked.
pub proof fn law_linked_plans(book: BookView, root: Seq<char>, id: Seq<char>, at: int)
    requires
        !book.selected_auto_step_by_run.dom().contains(id),
        book.auto_runs[id].selected_step_run_id is Some,
        0 <= at < book.auto_runs[id].steps.len(),
        book.auto_runs[id].steps[at].id == book.auto_runs[id].selected_step_run_id,
        forall|k: int|
            0 <= k < at ==> (#[trigger] book.auto_runs[id].steps[k]).id
                != book.auto_runs[id].selected_step_run_id,
    ensures
        ({
            let linked = book.auto_dashboard_of(root, id).linked_plan_dashboard;
            let plan = book.auto_runs[id].steps[at].plan_run_id;
            &&& plan is None ==> linked is None
            &&& plan is Some && book.plan_runs.dom().contains(plan->0) ==> linked == Some(
                book.dashboard_of(root, plan->0, book.plan_runs[plan->0]),
            )
            &&& plan is Some && !book.plan_runs.dom().contains(plan->0)
                && book.linked_plan_runs.dom().contains(plan->0) ==> linked == Some(
                book.dashboard_of(root, plan->0, book.linked_plan_runs[plan->0]),
            )
            &&& plan is Some && !book.plan_runs.dom().contains(plan->0)
                && !book.linked_plan_runs.dom().contains(plan->0) ==> linked is None
        }),
{
    let steps = book.auto_runs[id].steps;
    lemma_auto_step(steps, book.auto_runs[id].selected_step_run_id, at);
}

proof fn lemma_auto_step(steps: Seq<AutoStepView>, id: Option<i64>, at: int)
    requires
        0 <= at < steps.len(),
        steps[at].id == id,
        forall|k: int| 0 <= k < at ==> (#[trigger] steps[k]).id != id,
    ensures
        crate::run_book::auto_step_with(steps, id) == Some(steps[at]),
    decreases steps.len(),
{
    if at < steps.len() - 1 {
        lemma_auto_step(steps.drop_last(), id, at);
    } else {
        lemma_no_auto_step(steps.drop_last(), id);
    }
}

proof fn lemma_no_auto_step(steps: Seq<AutoStepView>, id: Option<i64>)
    requires
        forall|k: int| 0 <= k < steps.len() ==> (#[trigger] steps[k]).id != id,
    ensures
        crate::run_book::auto_step_with(steps, id) is None,
    decreases steps.len(),
{
    if steps.len() > 0 {
        lemma_no_auto_step(steps.drop_last(), id);
    }
}

/// With the focus on worktrees, the output of the shown step of the worktree's automatic run
/// is read, and that of the plan that the step is linked to.
pub proof fn law_wanted_outputs_of_auto_runs(
    book: BookView,
    nav: NavView,
    scope: ScopeView,
    id: Seq<char>,
    at: int,
)
    requires
        nav.focused_panel == PanelFocus::Worktrees,
        crate::run_book::plan_scope(nav) == Some(scope),
        value_at(book.active_auto_runs, crate::text::bare_path(scope.path)) == Some(id),
        book.auto_runs.dom().contains(id),
        !book.selected_auto_step_by_run.dom().contains(id),
        book.auto_runs[id].selected_step_run_id is Some,
        0 <= at < book.auto_runs[id].steps.len(),
        book.auto_runs[id].steps[at].id == book.auto_runs[id].selected_step_run_id,
        forall|k: int|
            0 <= k < at ==> (#[trigger] book.auto_runs[id].steps[k]).id
                != book.auto_runs[id].selected_step_run_id,
    ensures
        ({
            let wanted = book.wanted_outputs(nav);
            let root = crate::text::bare_path(scope.root);
            let plan = book.auto_runs[id].steps[at].plan_run_id;
            &&& wanted.contains(
                (OutputView::Auto {
                    root,
                    step_run_id: book.auto_runs[id].selected_step_run_id->0,
                }),
            )
            &&& plan is Some && book.plan_runs.dom().contains(plan->0) ==> wanted.contains(
                (OutputView::Plan {
                    root,
                    run_id: plan->0,
                    step: book.resolved_step(book.plan_runs[plan->0]),
                }),
            )
            &&& plan is Some && !book.plan_runs.dom().contains(plan->0)
                && book.linked_plan_runs.dom().contains(plan->0) ==> wanted.contains(
                (OutputView::Plan {
                    root,
                    run_id: plan->0,
                    step: book.resolved_step(book.linked_plan_runs[plan->0]),
                }),
            )
            &&& forall|other: Seq<char>, step_run_id: i64| #[trigger]
                wanted.contains((OutputView::Auto { root: other, step_run_id })) ==> other == root
                    && step_run_id == book.auto_runs[id].selected_step_run_id->0
        }),
{
    lemma_auto_step(book.auto_runs[id].steps, book.auto_runs[id].selected_step_run_id, at);
}

proof fn lemma_linked_runs(book: BookView, runs: Seq<PlanRun>, n: nat, i: int)
    requires
        n <= runs.len(),
        0 <= i < n,
        forall|j: int, k: int|
            0 <= j < k < runs.len() ==> (#[trigger] runs[j])@.id != (#[trigger] runs[k])@.id,
    ensures
        value_at(book.with_linked_runs(runs, n).linked_plan_runs, runs[i]@.id) == Some(runs[i]@),
    decreases n,
{
    if i < n - 1 {
        lemma_linked_runs(book, runs, (n - 1) as nat, i);
        assert(runs[i]@.id != runs[n - 1]@.id);
    }
}

proof fn lemma_polled_autos(book: BookView, runs: Seq<AutoRun>, n: nat, i: int)
    requires
        n <= runs.len(),
        0 <= i < n,
        forall|j: int, k: int|
            0 <= j < k < runs.len() ==> (#[trigger] runs[j])@.id != (#[trigger] runs[k])@.id,
    ensures
        value_at(book.with_auto_runs(runs, n).auto_runs, runs[i]@.id) == Some(runs[i]@),
    decreases n,
{
    if i < n - 1 {
        lemma_polled_autos(book, runs, (n - 1) as nat, i);
        assert(runs[i]@.id != runs[n - 1]@.id);
    }
}

/// Every automatic run and every linked plan that was read is known as it was read.
pub proof fn law_read_auto_runs_are_known(book: BookView, snapshot: WorkflowPollSnapshot, i: int)
    ensures
        (snapshot.auto_runs matches Ok(runs) && 0 <= i < runs@.len() && forall|j: int, k: int|
            0 <= j < k < runs@.len() ==> (#[trigger] runs@[j])@.id != (#[trigger] runs@[k])@.id)
            ==> value_at(
            book.with_polled_autos(snapshot).auto_runs,
            snapshot.auto_runs->Ok_0@[i]@.id,
        ) == Some(snapshot.auto_runs->Ok_0@[i]@),
        (snapshot.linked_plan_runs matches Ok(runs) && 0 <= i < runs@.len() && forall|
            j: int,
            k: int,
        |
            0 <= j < k < runs@.len() ==> (#[trigger] runs@[j])@.id != (#[trigger] runs@[k])@.id)
            ==> value_at(
            book.with_poll(snapshot).linked_plan_runs,
            snapshot.linked_plan_runs->Ok_0@[i]@.id,
        ) == Some(snapshot.linked_plan_runs->Ok_0@[i]@),
{
    if let Ok(runs) = snapshot.auto_runs {
        if 0 <= i < runs@.len() && forall|j: int, k: int|
            0 <= j < k < runs@.len() ==> (#[trigger] runs@[j])@.id != (#[trigger] runs@[k])@.id {
            lemma_polled_autos(book, runs@, runs@.len(), i);
        }
    }
    if let Ok(runs) = snapshot.linked_plan_runs {
        if 0 <= i < runs@.len() && forall|j: int, k: int|
            0 <= j < k < runs@.len() ==> (#[trigger] runs@[j])@.id != (#[trigger] runs@[k])@.id {
            let before = book.with_polled_plans(snapshot).with_polled_autos(snapshot);
            lemma_linked_runs(before, runs@, runs@.len(), i);
        }
    }
}

/// A reading of one run of a kind is news exactly where that run was not known as it is.
pub proof fn law_news_of_readings(book: BookView, plan: PlanRun, auto: AutoRun)
    ensures
        book.plan_runs_are_new(seq![plan], 1) == book.plan_run_is_new(plan@),
        book.auto_runs_are_new(seq![auto], 1) == book.auto_run_is_new(auto@),
        book.linked_runs_are_new(seq![plan], 1) <==> (!book.linked_plan_runs.dom().contains(
            plan@.id,
        ) || book.linked_plan_runs[plan@.id].plain() != plan@.plain()),
{
    reveal_with_fuel(BookView::plan_runs_are_new, 2);
    reveal_with_fuel(BookView::auto_runs_are_new, 2);
    reveal_with_fuel(BookView::linked_runs_are_new, 2);
    reveal_with_fuel(BookView::with_plan_runs, 2);
    reveal_with_fuel(BookView::with_auto_runs, 2);
    reveal_with_fuel(BookView::with_linked_runs, 2);
}

/// Without a selected automatic run the status panel shows that of some worktree, and no
/// known one changed later; it shows none where no worktree has a known one.
pub proof fn law_latest_auto_run(book: BookView, path: Seq<char>)
    requires
        book.selected_auto_run is None,
        book.active_auto_runs.dom().finite(),
        book.active_auto_runs.dom().contains(path),
        book.auto_runs.dom().contains(book.active_auto_runs[path]),
    ensures
        ({
            let shown = book.status_auto_run();
            &&& shown is Some
            &&& book.is_active_auto(shown->0)
            &&& book.auto_runs[shown->0].updated_unix_ms
                >= book.auto_runs[book.active_auto_runs[path]].updated_unix_ms
        }),
{
    let places = book.auto_places();
    let place_at = |at: Seq<char>|
        AutoPlaceView {
            path: at,
            updated_unix_ms: book.auto_runs[book.active_auto_runs[at]].updated_unix_ms,
        };
    let all = book.active_auto_runs.dom().map(place_at);
    book.active_auto_runs.dom().lemma_map_finite(place_at);
    assert(places.subset_of(all)) by {
        assert forall|place: AutoPlaceView| places.contains(place) implies all.contains(place) by {
            assert(book.active_auto_runs.dom().contains(place.path));
            assert(place_at(place.path) == place);
        }
    }
    vstd::set_lib::lemma_set_subset_finite(all, places);
    crate::table::lemma_ordered_exists::<AutoPlace>(places);
    let list = crate::table::ordered::<AutoPlace>(places);
    let wanted = place_at(path);
    assert(places.contains(wanted));
    assert(list.contains(wanted));
    let at = choose|k: int| 0 <= k < list.len() && list[k] == wanted;
    assert(list.contains(list.last()));
    assert(places.contains(list.last()));
    assert(book.active_auto_runs.dom().contains(list.last().path));
    if at < list.len() - 1 {
        assert(<AutoPlace as crate::table::Key>::before(list[at], list[list.len() - 1]));
    }
}

/// Stored runs are tidied up when that is asked for or an hour has passed, and not while it
/// is under way.
pub proof fn law_stored_runs_are_tidied_up(book: BookView, in_flight: bool, now_ms: u64)
    ensures
        crate::run_book::maintenance_is_due(book, in_flight, now_ms) <==> !in_flight && (
        book.maintenance_due || now_ms - book.maintenance_last_started_ms >= 60 * 60 * 1000),
{
}

/// At the start no run is known, nothing is chosen and nothing has been read.
pub proof fn law_no_run_is_known_at_the_start(now_ms: u64, id: Seq<char>)
    ensures
        ({
            let start = crate::run_book::empty_book(now_ms);
            &&& !start.plan_runs.dom().contains(id)
            &&& !start.auto_runs.dom().contains(id)
            &&& !start.linked_plan_runs.dom().contains(id)
            &&& !start.active_plan_runs.dom().contains(id)
            &&& !start.active_auto_runs.dom().contains(id)
            &&& !start.manual_plan_steps.contains(id)
            &&& !start.selected_plan_step_by_run.dom().contains(id)
            &&& !start.selected_auto_step_by_run.dom().contains(id)
            &&& start.selected_auto_run is None
            &&& start.plan_output.dom().is_empty()
            &&& start.auto_output.dom().is_empty()
            &&& !start.workflow_last_polled.dom().contains(id)
            &&& start.output_last_polled.dom().is_empty()
            &&& !crate::run_book::maintenance_is_due(start, false, now_ms)
        }),
{
}

} // verus!
