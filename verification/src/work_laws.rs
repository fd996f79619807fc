//! What holds of background work: which results count, what its end lets go of, in what
//! order it is taken, and what is left at the end.
use vstd::prelude::*;

use crate::agent_state::AgentObservationMode;
use crate::background::MarkerKeyView;
use crate::background_runtime::RuntimeView;
use crate::jobs::JobKeyView;
use crate::jobs::JobMetadata;
use crate::jobs::JobOutcome;
use crate::jobs::MetadataView;
use crate::jobs::ShutdownReason;
use crate::jobs::TuiJobKind;
use crate::keys::GenerationView;
use crate::keys::OutputView;
use crate::keys::WorktreeView;
use crate::model::AgentState;
use crate::model::Session;
use crate::navigation::NavView;
use crate::routing::RoutePhase;
use crate::routing::Router;
use crate::shutdown::CleanupFacts;
use crate::shutdown::CleanupStage;
use crate::shutdown::RemoteActionKind;
use crate::shutdown::RunEnd;
use crate::shutdown::RunOutcome;
use crate::shutdown::ShutdownSignal;
use crate::tracker::TrackerView;
use crate::tui::TuiView;

verus! {

// ---------------------------------------------------------------------------
// Which results count
// ---------------------------------------------------------------------------

/// A worktree is told apart by its repository, its branch and its path, however the paths
/// are spelled.
pub proof fn law_identity_of_worktrees(root: Seq<char>, session: Session)
    ensures
        crate::keys::identity_view(root, session).root == crate::text::bare_path(root),
        crate::keys::identity_view(root, session).branch == session.branch@,
        crate::keys::identity_view(root, session).path == crate::text::bare_path(session.path@),
{
}

/// Whether a session is that of a worktree.
pub proof fn law_sessions_of_worktrees(nav: NavView, session: Session, worktree: WorktreeView)
    ensures
        crate::tracker::belongs_to(nav, session, worktree) <==> session.repo_index
            < nav.repos.len() && worktree.root == crate::text::bare_path(
            nav.repos[session.repo_index as int].repo.root@,
        ) && worktree.branch == session.branch@ && worktree.path == crate::text::bare_path(
            session.path@,
        ),
{
}

/// A result about a worktree counts while the worktree is in the generation that the result
/// is of, and no longer.
pub proof fn law_results_count_in_their_generation(
    tracker: TrackerView,
    nav: NavView,
    job: MetadataView,
    worktree: WorktreeView,
    key: GenerationView,
)
    ensures
        job.key == JobKeyView::Worktree(worktree) ==> (tracker.counts(nav, job)
            <==> tracker.worktree_generations.dom().contains(worktree)
            && tracker.worktree_generations[worktree] == job.generation),
        job.key == JobKeyView::Pr(key) || job.key == JobKeyView::Delete(key) || job.key
            == JobKeyView::Opencode(key) ==> (tracker.counts(nav, job) <==> key.generation
            == job.generation && tracker.worktree_generations.dom().contains(key.worktree)
            && tracker.worktree_generations[key.worktree] == job.generation),
        job.key == JobKeyView::Tmux(key) ==> (tracker.counts(nav, job) <==> key.generation
            == job.generation && tracker.tmux_generations.dom().contains(key.worktree)
            && tracker.tmux_generations[key.worktree] == key.generation),
        job.key == JobKeyView::PrPersistence(key) ==> (tracker.counts(nav, job)
            <==> key.generation == job.generation && tracker.pr_persistence_versions.dom().contains(
            key,
        )),
        job.key == JobKeyView::AgentStatePersistence(worktree) ==> (tracker.counts(nav, job)
            <==> tracker.agent_state_in_flight.contains(worktree)),
{
}

/// A result about a repository counts while the repository is managed and its worktrees
/// have not been read anew; one about runs counts while there have been no news of them.
pub proof fn law_results_about_repositories(
    tracker: TrackerView,
    nav: NavView,
    job: MetadataView,
    root: Seq<char>,
    output: OutputView,
)
    requires
        nav.repos.len() <= usize::MAX,
    ensures
        ({
            let managed = exists|i: int|
                0 <= i < nav.repos.len() && crate::text::bare_path(
                    (#[trigger] nav.repos[i]).repo.root@,
                ) == root;
            &&& job.key == JobKeyView::Repository(root) && job.kind
                != TuiJobKind::RemoteReconciliation ==> (tracker.counts(nav, job)
                <==> job.generation == tracker.session_inventory_generation && managed)
            &&& job.key == JobKeyView::Repository(root) && job.kind
                == TuiJobKind::RemoteReconciliation ==> tracker.counts(nav, job)
            &&& job.key == JobKeyView::WorktrunkHookLogs(root) ==> (tracker.counts(nav, job)
                <==> managed)
            &&& job.key == JobKeyView::WorkflowRepository(root) ==> (tracker.counts(nav, job)
                <==> job.generation == tracker.workflow_revision)
            &&& job.key == JobKeyView::DashboardOutput(output) ==> (tracker.counts(nav, job)
                <==> job.generation == tracker.workflow_revision)
            &&& job.key == JobKeyView::Inventory && job.kind != TuiJobKind::WorkflowMaintenance
                ==> (tracker.counts(nav, job) <==> job.generation
                == tracker.session_inventory_generation)
            &&& job.key == JobKeyView::System ==> tracker.counts(nav, job)
        }),
{
    lemma_managed(nav, nav.repos.len(), root);
}

proof fn lemma_managed(nav: NavView, n: nat, root: Seq<char>)
    requires
        n <= nav.repos.len(),
        n <= usize::MAX,
    ensures
        crate::navigation::repo_at_root(nav.repos, n, root) is Some <==> exists|i: int|
            0 <= i < n && crate::text::bare_path((#[trigger] nav.repos[i]).repo.root@) == root,
        crate::navigation::repo_at_root(nav.repos, n, root) matches Some(index) ==> index < n
            && crate::text::bare_path(nav.repos[index as int].repo.root@) == root,
    decreases n,
{
    if n > 0 {
        lemma_managed(nav, (n - 1) as nat, root);
    }
}

/// The end of a piece of work lets go of its own slot, and of no other.
pub proof fn law_end_of_work_frees_its_slot(
    tracker: TrackerView,
    job: MetadataView,
    key: GenerationView,
    worktree: WorktreeView,
    root: Seq<char>,
    output: OutputView,
)
    ensures
        ({
            let after = tracker.cleared(job);
            &&& job.kind == TuiJobKind::SessionRefresh ==> !after.session_refresh_in_flight
            &&& job.kind == TuiJobKind::WorkflowMaintenance
                ==> !after.workflow_maintenance_in_flight
            &&& job.kind == TuiJobKind::AgentStatePersistence && job.key
                == JobKeyView::AgentStatePersistence(worktree)
                ==> !after.agent_state_in_flight.contains(worktree)
            &&& job.kind == TuiJobKind::PrSummary && job.key == JobKeyView::Repository(root)
                ==> !after.pr_summary_polls_in_flight.contains(root)
            &&& job.kind == TuiJobKind::PrDetails && job.key == JobKeyView::Pr(key)
                ==> !after.pr_polls_in_flight.contains(key)
            &&& job.kind == TuiJobKind::PrPersistence && job.key == JobKeyView::PrPersistence(key)
                ==> !after.pr_persistence_in_flight.contains(key)
            &&& job.kind == TuiJobKind::DeferredMergeCleanup && job.key == JobKeyView::Delete(key)
                ==> !after.merge_cleanups_in_flight.contains(key)
            &&& job.kind == TuiJobKind::WorkflowPoll && job.key
                == JobKeyView::WorkflowRepository(root) ==> !after.workflow_polls_in_flight.contains(
                root,
            )
            &&& job.kind == TuiJobKind::DashboardOutput && job.key == JobKeyView::DashboardOutput(
                output,
            ) ==> !after.dashboard_outputs_in_flight.contains(output)
            &&& job.kind == TuiJobKind::DeleteSession && job.key == JobKeyView::Delete(key)
                ==> !after.delete_sessions_in_flight.contains(key)
            &&& job.kind == TuiJobKind::TmuxWarmup && job.key == JobKeyView::Tmux(key)
                ==> !after.tmux_warmups_in_flight.contains(key)
            &&& job.kind == TuiJobKind::TmuxPortal && job.key == JobKeyView::Tmux(key)
                ==> !after.tmux_portal_polls_in_flight.dom().contains(key)
            &&& job.kind == TuiJobKind::WorktreeColumns && job.key == JobKeyView::Repository(root)
                ==> !after.wt_polls_in_flight.contains(root)
            &&& job.kind == TuiJobKind::WorktrunkHookLogs && job.key
                == JobKeyView::WorktrunkHookLogs(root) ==> !after.hook_log_polls_in_flight.contains(
                root,
            )
            &&& job.kind == TuiJobKind::DefaultBranch && job.key == JobKeyView::Worktree(worktree)
                ==> !after.default_branch_polls_in_flight.contains(worktree.root)
            &&& job.kind == TuiJobKind::OpencodePoll && job.key == JobKeyView::Opencode(key)
                ==> !after.opencode_polls_in_flight.contains(key)
        }),
{
}

/// The end of a piece of work leaves the slots of other kinds of work alone, and of its own
/// kind it frees one slot at most.
pub proof fn law_end_of_work_leaves_other_slots(
    tracker: TrackerView,
    job: MetadataView,
    key: GenerationView,
)
    ensures
        ({
            let after = tracker.cleared(job);
            &&& job.kind != TuiJobKind::DeleteSession ==> after.delete_sessions_in_flight
                == tracker.delete_sessions_in_flight
            &&& job.kind == TuiJobKind::DeleteSession && job.key != JobKeyView::Delete(key)
                ==> (after.delete_sessions_in_flight.contains(key)
                <==> tracker.delete_sessions_in_flight.contains(key))
            &&& job.kind != TuiJobKind::SessionRefresh ==> after.session_refresh_in_flight
                == tracker.session_refresh_in_flight
            &&& job.kind != TuiJobKind::AgentStatePersistence ==> after.agent_state_in_flight
                == tracker.agent_state_in_flight
            &&& job.kind != TuiJobKind::PrDetails ==> after.pr_polls_in_flight
                == tracker.pr_polls_in_flight
            &&& job.kind != TuiJobKind::PrSummary ==> after.pr_summary_polls_in_flight
                == tracker.pr_summary_polls_in_flight
            &&& job.kind != TuiJobKind::PrPersistence ==> after.pr_persistence_in_flight
                == tracker.pr_persistence_in_flight
            &&& job.kind != TuiJobKind::TmuxWarmup ==> after.tmux_warmups_in_flight
                == tracker.tmux_warmups_in_flight
            &&& job.kind != TuiJobKind::TmuxPortal ==> after.tmux_portal_polls_in_flight
                == tracker.tmux_portal_polls_in_flight
            &&& job.kind != TuiJobKind::WorkflowPoll ==> after.workflow_polls_in_flight
                == tracker.workflow_polls_in_flight
            &&& job.kind != TuiJobKind::DeferredMergeCleanup ==> after.merge_cleanups_in_flight
                == tracker.merge_cleanups_in_flight
            &&& job.kind != TuiJobKind::OpencodeListener ==> after.opencode_listeners
                == tracker.opencode_listeners
            &&& after.worktree_generations == tracker.worktree_generations
            &&& after.tmux_generations == tracker.tmux_generations
            &&& after.agent_state_pending == tracker.agent_state_pending
            &&& after.session_inventory_generation == tracker.session_inventory_generation
            &&& after.workflow_revision == tracker.workflow_revision
            &&& after.session_refresh_pending == tracker.session_refresh_pending
        }),
{
}

// ---------------------------------------------------------------------------
// States of agents
// ---------------------------------------------------------------------------

/// A request to store the state of an agent names the repository as it is spelled, the
/// branch, the name of the stored session, the generation of the worktree and the state; it
/// takes the place of an earlier request for the same worktree.
pub proof fn law_requests_to_store_states(
    tracker: TrackerView,
    nav: NavView,
    index: int,
    state: Option<AgentState>,
    other: WorktreeView,
)
    requires
        0 <= index < nav.sessions.len(),
        nav.sessions[index].repo_index < nav.repos.len(),
    ensures
        ({
            let session = nav.sessions[index];
            let root = nav.repos[session.repo_index as int].repo.root@;
            let worktree = WorktreeView {
                root: crate::text::bare_path(root),
                branch: session.branch@,
                path: crate::text::bare_path(session.path@),
            };
            let after = tracker.with_request(nav, index, state);
            let request = after.agent_state_pending[worktree];
            &&& after.agent_state_pending.dom().contains(worktree)
            &&& request.root == root
            &&& request.branch == session.branch@
            &&& request.worktree_session_id == session.worktree_session_id@
            &&& request.state == state
            &&& request.generation == (if tracker.worktree_generations.dom().contains(worktree) {
                tracker.worktree_generations[worktree]
            } else {
                0
            })
            &&& other != worktree ==> (after.agent_state_pending.dom().contains(other)
                <==> tracker.agent_state_pending.dom().contains(other))
            &&& other != worktree && tracker.agent_state_pending.dom().contains(other)
                ==> after.agent_state_pending[other] == tracker.agent_state_pending[other]
            &&& after.agent_state_in_flight == tracker.agent_state_in_flight
        }),
{
}

/// A request to store a state is dropped with its worktree, but a request to take a state
/// out of the store is not.
pub proof fn law_dropped_requests(
    tracker: TrackerView,
    live: Set<WorktreeView>,
    worktree: WorktreeView,
)
    requires
        tracker.agent_state_pending.dom().contains(worktree),
    ensures
        tracker.with_live(live).agent_state_pending.dom().contains(worktree) <==> live.contains(
            worktree,
        ) || tracker.agent_state_pending[worktree].state is None,
        tracker.with_live(live).agent_state_pending.dom().contains(worktree)
            ==> tracker.with_live(live).agent_state_pending[worktree]
            == tracker.agent_state_pending[worktree],
        tracker.with_live(live).agent_state_in_flight == tracker.agent_state_in_flight,
{
}

/// What is told of an agent: its worktree, the label and the branch as the dashboard shows
/// them, its state, and the settings of its repository for notifications.
pub proof fn law_observations(nav: NavView, index: int, state: AgentState)
    requires
        0 <= index < nav.sessions.len(),
        nav.sessions[index].repo_index < nav.repos.len(),
    ensures
        ({
            let session = nav.sessions[index];
            let seen = crate::agent_state::observed(nav, index);
            &&& seen.repo_label == session.repo_label@
            &&& seen.branch == session.branch@
            &&& seen.state == session.agent_state
            &&& seen.config == nav.repos[session.repo_index as int].config.notifications
            &&& seen.session.branch == session.branch@
            &&& seen.session.path == crate::text::bare_path(session.path@)
        }),
        crate::agent_state::with_state(nav.sessions, index, state).len() == nav.sessions.len(),
        crate::agent_state::with_state(nav.sessions, index, state)[index] == (Session {
            agent_state: state,
            ..nav.sessions[index]
        }),
        crate::agent_state::had_stopped(state) <==> state == AgentState::NeedsInput || state
            == AgentState::ExitedOk || state == AgentState::ExitedError || state
            == AgentState::NeedsRestart,
{
}

proof fn lemma_observations(nav: NavView, n: nat)
    requires
        n <= nav.sessions.len(),
        n <= usize::MAX,
    ensures
        forall|i: int|
            0 <= i < n && nav.sessions[i].repo_index < nav.repos.len() ==>
            #[trigger] crate::agent_state::observations_upto(nav, n).contains(
                crate::agent_state::observed(nav, i),
            ),
    decreases n,
{
    if n > 0 {
        lemma_observations(nav, (n - 1) as nat);
        let before = crate::agent_state::observations_upto(nav, (n - 1) as nat);
        let all = crate::agent_state::observations_upto(nav, n);
        assert forall|i: int| 0 <= i < n && nav.sessions[i].repo_index < nav.repos.len() implies
            #[trigger] all.contains(crate::agent_state::observed(nav, i)) by {
            let seen = crate::agent_state::observed(nav, i);
            if i < n - 1 {
                assert(before.contains(seen));
                let k = choose|k: int| 0 <= k < before.len() && before[k] == seen;
                assert(all[k] == seen);
            } else {
                assert(all[before.len() as int] == seen);
            }
        }
    }
}

/// When notifications are begun anew, every agent of a managed repository is told of.
pub proof fn law_every_agent_is_told_of(nav: NavView, i: int)
    requires
        nav.sessions.len() <= usize::MAX,
        0 <= i < nav.sessions.len(),
        nav.sessions[i].repo_index < nav.repos.len(),
    ensures
        crate::agent_state::observations_upto(nav, nav.sessions.len()).contains(
            crate::agent_state::observed(nav, i),
        ),
{
    lemma_observations(nav, nav.sessions.len());
}

// ---------------------------------------------------------------------------
// The order in which results are taken
// ---------------------------------------------------------------------------

/// Ends of work are taken first, then what cannot wait, then events, then the rest.
pub proof fn law_order_of_a_round(now_ms: u64, router: Router)
    ensures
        RoutePhase::Terminals.after() == RoutePhase::Urgent,
        RoutePhase::Urgent.after() == RoutePhase::Stream,
        RoutePhase::Stream.after() == RoutePhase::Rest,
        RoutePhase::Rest.after() == RoutePhase::Finished,
        RoutePhase::Finished.after() == RoutePhase::Finished,
        router.phase == RoutePhase::Finished ==> !router.goes_on(now_ms),
        router.processed >= router.limit ==> !router.goes_on(now_ms),
        router.phase != RoutePhase::Finished && router.processed < router.limit && now_ms
            < router.deadline_ms ==> router.goes_on(now_ms),
        now_ms >= router.deadline_ms && (router.phase != RoutePhase::Terminals || router.processed
            > 0) ==> !router.goes_on(now_ms),
        crate::routing::TUI_TICK_ITEM_BUDGET == 32,
        crate::routing::TUI_TICK_TIME_BUDGET_MS == 8,
{
}

/// What cannot wait: deletions, and what is about the selected worktree.
pub proof fn law_priorities(
    selected: Option<WorktreeView>,
    job: MetadataView,
    worktree: WorktreeView,
    key: GenerationView,
)
    ensures
        job.kind == TuiJobKind::DeleteSession ==> crate::routing::priority_of(selected, job) == 0,
        job.kind != TuiJobKind::DeleteSession && selected is None ==> crate::routing::priority_of(
            selected,
            job,
        ) == 3,
        job.kind != TuiJobKind::DeleteSession && selected is Some && (job.key
            == JobKeyView::Worktree(selected->0) || job.key == JobKeyView::AgentStatePersistence(
            selected->0,
        ) || (key.worktree == selected->0 && (job.key == JobKeyView::Tmux(key) || job.key
            == JobKeyView::Pr(key) || job.key == JobKeyView::PrPersistence(key) || job.key
            == JobKeyView::Opencode(key)))) ==> crate::routing::priority_of(selected, job) == 1,
        job.kind != TuiJobKind::DeleteSession && selected is Some && worktree != selected->0
            && job.key == JobKeyView::Worktree(worktree) ==> crate::routing::priority_of(
            selected,
            job,
        ) == 3,
        job.kind != TuiJobKind::DeleteSession && (job.key is Inventory || job.key is System
            || job.key is Repository || job.key is WorkflowRepository || job.key is Delete)
            ==> crate::routing::priority_of(selected, job) == 3,
{
}

proof fn lemma_stale(view: TuiView, active: Seq<JobMetadata>)
    ensures
        forall|id: u64| #[trigger]
            crate::routing::stale_ids(view, active).contains(id) ==> exists|i: int|
                0 <= i < active.len() && (#[trigger] active[i]).id == id && !view.tracker.counts(
                    view.nav,
                    active[i]@,
                ) && !view.background.followed.contains(id),
        forall|i: int|
            0 <= i < active.len() && !view.tracker.counts(view.nav, (#[trigger] active[i])@)
                && !view.background.followed.contains(active[i].id) ==> crate::routing::stale_ids(
                view,
                active,
            ).contains(active[i].id),
    decreases active.len(),
{
    if active.len() > 0 {
        let init = active.drop_last();
        lemma_stale(view, init);
        let before = crate::routing::stale_ids(view, init);
        let all = crate::routing::stale_ids(view, active);
        assert(active[active.len() - 1] == active.last());
        assert forall|id: u64| #[trigger] all.contains(id) implies exists|i: int|
            0 <= i < active.len() && (#[trigger] active[i]).id == id && !view.tracker.counts(
                view.nav,
                active[i]@,
            ) && !view.background.followed.contains(id) by {
            let k = choose|k: int| 0 <= k < all.len() && all[k] == id;
            if k < before.len() {
                assert(before[k] == id);
                assert(before.contains(id));
                let i = choose|i: int|
                    0 <= i < init.len() && (#[trigger] init[i]).id == id && !view.tracker.counts(
                        view.nav,
                        init[i]@,
                    ) && !view.background.followed.contains(id);
                assert(active[i] == init[i]);
            }
        }
        assert forall|i: int|
            0 <= i < active.len() && !view.tracker.counts(view.nav, (#[trigger] active[i])@)
                && !view.background.followed.contains(active[i].id) implies all.contains(
            active[i].id,
        ) by {
            if i < init.len() {
                assert(init[i] == active[i]);
                assert(before.contains(active[i].id));
                let k = choose|k: int| 0 <= k < before.len() && before[k] == active[i].id;
                assert(all[k] == active[i].id);
            } else {
                assert(all[before.len() as int] == active[i].id);
            }
        }
    }
}

/// Exactly the work whose result no longer counts is cancelled, but for changes to remotes
/// that are followed.
pub proof fn law_stale_work_is_cancelled(view: TuiView, active: Seq<JobMetadata>, i: int, id: u64)
    requires
        0 <= i < active.len(),
    ensures
        !view.tracker.counts(view.nav, active[i]@) && !view.background.followed.contains(
            active[i].id,
        ) ==> crate::routing::stale_ids(view, active).contains(active[i].id),
        crate::routing::stale_ids(view, active).contains(id) ==> !view.background.followed.contains(
            id,
        ) && exists|k: int|
            0 <= k < active.len() && (#[trigger] active[k]).id == id && !view.tracker.counts(
                view.nav,
                active[k]@,
            ),
{
    lemma_stale(view, active);
}

// ---------------------------------------------------------------------------
// Ends of work
// ---------------------------------------------------------------------------

/// A change to a remote leaves a marker where it is followed and ended in any other way
/// than by completing or by not having begun.
pub proof fn law_unsure_changes_leave_markers(
    view: TuiView,
    job: MetadataView,
    outcome: JobOutcome,
)
    requires
        job.kind == TuiJobKind::RemoteAction,
        view.background.followed.contains(job.id),
        view.background.contexts.dom().contains(job.id),
    ensures
        outcome is Failed || outcome is Panicked || outcome is Canceled
            || outcome is DeadlineExceeded ==> crate::routing::marker_is_wanted(view, job, outcome),
        outcome is Completed || outcome is SpawnFailed ==> !crate::routing::marker_is_wanted(
            view,
            job,
            outcome,
        ),
{
}

/// Nothing else leaves a marker.
pub proof fn law_other_work_leaves_no_markers(
    view: TuiView,
    job: MetadataView,
    outcome: JobOutcome,
)
    requires
        crate::routing::marker_is_wanted(view, job, outcome),
    ensures
        job.kind == TuiJobKind::RemoteAction,
        view.background.followed.contains(job.id),
        view.background.contexts.dom().contains(job.id),
        !(outcome is Completed),
{
}

/// A change to a remote that failed is let go of, and what it failed with is told, together
/// with why its marker could not be stored; other changes stay followed.
pub proof fn law_failed_changes_are_told(
    background: RuntimeView,
    id: u64,
    error: Seq<char>,
    marker_error: Option<Seq<char>>,
    other: u64,
)
    ensures
        ({
            let after = crate::routing::with_failed_action(background, id, error, marker_error);
            &&& after.failures.dom().contains(id)
            &&& marker_error is None ==> after.failures[id] == error && after.shutdown_errors
                == background.shutdown_errors
            &&& marker_error is Some ==> after.failures[id] == error + "; "@ + marker_error->0
                && after.shutdown_errors == background.shutdown_errors.push(marker_error->0)
            &&& !after.followed.contains(id)
            &&& !after.contexts.dom().contains(id)
            &&& other != id ==> (after.followed.contains(other) <==> background.followed.contains(
                other,
            ))
            &&& other != id && background.contexts.dom().contains(other)
                ==> after.contexts.dom().contains(other) && after.contexts[other]
                == background.contexts[other]
            &&& after.markers == background.markers
            &&& after.pending == background.pending
        }),
{
}

/// A stored marker that could not be read keeps every change waiting: the repositories stay
/// unread, and that is told at the end.
pub proof fn law_unread_markers_keep_changes_waiting(
    background: RuntimeView,
    job: MetadataView,
    root: Seq<char>,
)
    requires
        job.kind == TuiJobKind::RemoteReconciliation,
        job.key == JobKeyView::System,
    ensures
        ({
            let after = crate::routing::with_recovery(background, job);
            &&& after.loading == Set::<Seq<char>>::empty()
            &&& after.loaded == background.loaded
            &&& after.markers == background.markers
            &&& after.shutdown_errors == background.shutdown_errors.push(
                "remote mutation marker loading failed; coordinated mutations remain blocked"@,
            )
        }),
{
}

/// Work that is not about markers changes nothing of what is known of changes to remotes by
/// failing.
pub proof fn law_other_failures_keep_markers(background: RuntimeView, job: MetadataView)
    ensures
        job.kind != TuiJobKind::RemoteReconciliation ==> crate::routing::with_recovery(
            background,
            job,
        ) == background,
        crate::routing::with_recovery(background, job).markers == background.markers,
        crate::routing::with_recovery(background, job).followed == background.followed,
        crate::routing::with_recovery(background, job).loaded == background.loaded,
        crate::routing::with_recovery(background, job).pending == background.pending,
{
}

/// Work counts as failed unless it completed or was cancelled; what it failed with is what
/// it says, or else what became of it.
pub proof fn law_failures_of_work(outcome: JobOutcome)
    ensures
        outcome.is_failure() <==> !(outcome is Completed) && !(outcome is Canceled),
        outcome matches JobOutcome::Failed(error) ==> outcome.remote_error() == error@
            && outcome.message() == Some(error@),
        outcome matches JobOutcome::SpawnFailed(error) ==> outcome.remote_error() == error@
            && outcome.message() == Some(error@),
        outcome matches JobOutcome::Panicked(error) ==> outcome.remote_error() == error@
            && outcome.message() == Some(error@),
        outcome is Canceled ==> outcome.remote_error() == "remote action canceled"@,
        outcome is DeadlineExceeded ==> outcome.remote_error() == "remote action timed out"@,
{
}

proof fn lemma_session_of(nav: NavView, n: nat, worktree: WorktreeView)
    requires
        n <= nav.sessions.len(),
        n <= usize::MAX,
    ensures
        match crate::routing::session_of(nav, n, worktree) {
            Some(index) => index < n && crate::tracker::belongs_to(
                nav,
                nav.sessions[index as int],
                worktree,
            ),
            None => forall|k: int|
                0 <= k < n ==> !crate::tracker::belongs_to(
                    nav,
                    #[trigger] nav.sessions[k],
                    worktree,
                ),
        },
    decreases n,
{
    if n > 0 {
        lemma_session_of(nav, (n - 1) as nat, worktree);
    }
}

/// The session of a worktree is one that belongs to it, where there is one.
pub proof fn law_session_of_a_worktree(nav: NavView, worktree: WorktreeView)
    requires
        nav.sessions.len() <= usize::MAX,
    ensures
        match crate::routing::session_of(nav, nav.sessions.len(), worktree) {
            Some(index) => index < nav.sessions.len() && crate::tracker::belongs_to(
                nav,
                nav.sessions[index as int],
                worktree,
            ),
            None => forall|k: int|
                0 <= k < nav.sessions.len() ==> !crate::tracker::belongs_to(
                    nav,
                    #[trigger] nav.sessions[k],
                    worktree,
                ),
        },
{
    lemma_session_of(nav, nav.sessions.len(), worktree);
}

/// A deletion that failed shows its worktree again and changes no other; the worktrees are
/// read anew.
pub proof fn law_failed_deletions(
    view: TuiView,
    worktree: WorktreeView,
    generation: u64,
    job: MetadataView,
    outcome: JobOutcome,
    other: int,
)
    requires
        view.nav.sessions.len() <= usize::MAX,
        job.kind == TuiJobKind::DeleteSession,
        job.key == JobKeyView::Delete(GenerationView { worktree, generation }),
    ensures
        ({
            let found = crate::routing::session_of(view.nav, view.nav.sessions.len(), worktree);
            let after = crate::routing::shown_again(view.nav, worktree).sessions;
            &&& after.len() == view.nav.sessions.len()
            &&& found matches Some(index) ==> after[index as int] == (Session {
                hidden: false,
                ..view.nav.sessions[index as int]
            })
            &&& 0 <= other < view.nav.sessions.len() && (found matches Some(index) ==> index
                != other) ==> after[other] == view.nav.sessions[other]
        }),
        !(outcome is Completed) ==> crate::routing::effects_of(view, job, outcome).refresh_sessions,
        outcome is Completed ==> !crate::routing::effects_of(view, job, outcome).refresh_sessions,
{
    lemma_session_of(view.nav, view.nav.sessions.len(), worktree);
}

/// What else the end of a piece of work leads to: old columns and hook logs are marked where
/// reading them failed, and the worktrees are read again where that failed or was asked for
/// meanwhile.
pub proof fn law_effects_of_ends(
    view: TuiView,
    job: MetadataView,
    outcome: JobOutcome,
    root: Seq<char>,
    place: Option<usize>,
)
    requires
        place == crate::navigation::repo_at_root(view.nav.repos, view.nav.repos.len(), root),
    ensures
        ({
            let effects = crate::routing::effects_of(view, job, outcome);
            let failed = !(outcome is Completed) && !(outcome is Canceled);
            &&& job.kind == TuiJobKind::WorktreeColumns && job.key == JobKeyView::Repository(root)
                ==> effects.stale_columns == (if failed {
                place
            } else {
                None
            })
            &&& job.kind != TuiJobKind::WorktreeColumns ==> effects.stale_columns is None
            &&& job.kind == TuiJobKind::WorktrunkHookLogs && job.key
                == JobKeyView::WorktrunkHookLogs(root) ==> effects.stale_hook_logs == (if failed {
                place
            } else {
                None
            })
            &&& job.kind != TuiJobKind::WorktrunkHookLogs ==> effects.stale_hook_logs is None
            &&& job.kind != TuiJobKind::DeleteSession ==> effects.refresh_worktrunk is None
                && !effects.refresh_sessions
            &&& job.kind == TuiJobKind::SessionRefresh ==> (effects.restart_refresh <==> failed
                || view.tracker.session_refresh_pending)
            &&& job.kind != TuiJobKind::SessionRefresh ==> !effects.restart_refresh
        }),
{
}

/// The slot of a deletion, of a cleanup or of a picture is kept until its result has been
/// taken, where the result counts; every other slot is free at the end of the work.
pub proof fn law_slots_at_the_end(view: TuiView, job: MetadataView, outcome: JobOutcome)
    ensures
        ({
            let due = (job.kind == TuiJobKind::DeferredMergeCleanup || job.kind
                == TuiJobKind::DeleteSession || job.kind == TuiJobKind::TmuxPortal)
                && outcome is Completed && view.tracker.counts(view.nav, job);
            &&& due ==> crate::routing::tracker_after(view, job, outcome) == view.tracker
            &&& !due && job.kind != TuiJobKind::SessionRefresh ==> crate::routing::tracker_after(
                view,
                job,
                outcome,
            ) == view.tracker.cleared(job)
            &&& job.kind == TuiJobKind::SessionRefresh ==> !crate::routing::tracker_after(
                view,
                job,
                outcome,
            ).session_refresh_pending && !crate::routing::tracker_after(
                view,
                job,
                outcome,
            ).session_refresh_in_flight
        }),
{
}

// ---------------------------------------------------------------------------
// The end
// ---------------------------------------------------------------------------

/// The end goes through its stages one after the other; it waits for changes to remotes up
/// to half an hour, marks those that are left, waits for the rest up to two seconds, and
/// takes what has come in until nothing more does.
pub proof fn law_stages_of_the_end(background: RuntimeView, facts: CleanupFacts, id: u64)
    ensures
        ({
            let next = |stage: CleanupStage|
                crate::shutdown::stage_after(stage, background, facts);
            &&& next(CleanupStage::Deliveries) == CleanupStage::Admission
            &&& next(CleanupStage::Admission) == CleanupStage::Servers
            &&& next(CleanupStage::Servers) == CleanupStage::Mutations
            &&& background.followed.contains(id) && facts.elapsed_ms < 1_800_000 ==> next(
                CleanupStage::Mutations,
            ) == CleanupStage::Mutations
            &&& background.followed.contains(id) && facts.elapsed_ms >= 1_800_000 ==> next(
                CleanupStage::Mutations,
            ) == CleanupStage::Unfinished
            &&& background.followed == Set::<u64>::empty() ==> next(CleanupStage::Mutations)
                == CleanupStage::Jobs
            &&& next(CleanupStage::Unfinished) == CleanupStage::Jobs
            &&& (facts.registry_has_jobs || !background.pending.dom().is_empty())
                && facts.elapsed_ms < 2_000 ==> next(CleanupStage::Jobs) == CleanupStage::Jobs
            &&& facts.elapsed_ms >= 2_000 ==> next(CleanupStage::Jobs) == CleanupStage::Drain
            &&& !facts.registry_has_jobs && background.pending.dom() == Set::<
                MarkerKeyView,
            >::empty() ==> next(CleanupStage::Jobs) == CleanupStage::Drain
            &&& facts.routed > 0 ==> next(CleanupStage::Drain) == CleanupStage::Drain
            &&& facts.routed == 0 ==> next(CleanupStage::Drain) == CleanupStage::Report
            &&& next(CleanupStage::Report) == CleanupStage::Done
            &&& next(CleanupStage::Done) == CleanupStage::Done
        }),
{
    if !background.pending.dom().is_empty() {
        assert(background.pending.dom().contains(background.pending.dom().choose()));
        assert(background.pending.dom() != Set::<MarkerKeyView>::empty());
    }
    if background.followed.contains(id) {
        assert(background.followed != Set::<u64>::empty());
    }
}

/// Why the dashboard ended: a panic counts first, then a signal, then what it was left for.
pub proof fn law_reasons_of_the_end(
    outcome: RunOutcome,
    reason: ShutdownReason,
    signal: ShutdownSignal,
)
    ensures
        crate::shutdown::end_reason(RunOutcome::Panicked, None) == ShutdownReason::Panic,
        crate::shutdown::end_reason(RunOutcome::Panicked, Some(signal)) == ShutdownReason::Panic,
        crate::shutdown::end_reason(RunOutcome::Left(reason), None) == reason,
        outcome is Failed ==> crate::shutdown::end_reason(outcome, None)
            == ShutdownReason::RunError,
        !(outcome is Panicked) ==> crate::shutdown::end_reason(
            outcome,
            Some(ShutdownSignal::Sigint),
        ) == ShutdownReason::Sigint,
        !(outcome is Panicked) ==> crate::shutdown::end_reason(
            outcome,
            Some(ShutdownSignal::Sigterm),
        ) == ShutdownReason::Sigterm,
        ShutdownReason::UserQuit.label_text() == "user_quit"@,
        ShutdownReason::Sigint.label_text() == "sigint"@,
        ShutdownReason::Sigterm.label_text() == "sigterm"@,
        ShutdownReason::RunError.label_text() == "run_error"@,
        ShutdownReason::Panic.label_text() == "panic"@,
{
}

proof fn lemma_unfinished(active: Seq<JobMetadata>, followed: Set<u64>)
    ensures
        forall|id: u64| #[trigger]
            crate::shutdown::unfinished_ids(active, followed).contains(id) ==> followed.contains(
                id,
            ),
        forall|i: int|
            0 <= i < active.len() && followed.contains((#[trigger] active[i]).id)
                ==> crate::shutdown::unfinished_ids(active, followed).contains(active[i].id),
    decreases active.len(),
{
    if active.len() > 0 {
        let init = active.drop_last();
        lemma_unfinished(init, followed);
        let before = crate::shutdown::unfinished_ids(init, followed);
        let all = crate::shutdown::unfinished_ids(active, followed);
        assert(active[active.len() - 1] == active.last());
        assert forall|id: u64| #[trigger] all.contains(id) implies followed.contains(id) by {
            let k = choose|k: int| 0 <= k < all.len() && all[k] == id;
            if k < before.len() {
                assert(before[k] == id);
                assert(before.contains(id));
            }
        }
        assert forall|i: int|
            0 <= i < active.len() && followed.contains(
                (#[trigger] active[i]).id,
            ) implies all.contains(active[i].id) by {
            if i < init.len() {
                assert(init[i] == active[i]);
                assert(before.contains(active[i].id));
                let k = choose|k: int| 0 <= k < before.len() && before[k] == active[i].id;
                assert(all[k] == active[i].id);
            } else {
                assert(all[before.len() as int] == active[i].id);
            }
        }
    }
}

/// The changes to remotes that are marked at the end are those that are followed and still
/// at work.
pub proof fn law_unfinished_changes(active: Seq<JobMetadata>, followed: Set<u64>, i: int, id: u64)
    ensures
        0 <= i < active.len() && followed.contains(active[i].id)
            ==> crate::shutdown::unfinished_ids(active, followed).contains(active[i].id),
        crate::shutdown::unfinished_ids(active, followed).contains(id) ==> followed.contains(id),
{
    lemma_unfinished(active, followed);
}

/// A late result of a change to a remote lets the change go; where it is not sure, that is
/// told, and where its marker could not be stored either, that is told too.
pub proof fn law_late_results(
    background: RuntimeView,
    id: u64,
    error: Option<Seq<char>>,
    marker: Option<Seq<char>>,
    other: u64,
)
    ensures
        ({
            let after = crate::shutdown::with_late_result(background, id, error, marker);
            let known = background.contexts.dom().contains(id);
            let lost = "remote mutation is missing its reconciliation target"@;
            &&& !after.followed.contains(id)
            &&& !after.contexts.dom().contains(id)
            &&& other != id ==> (after.followed.contains(other) <==> background.followed.contains(
                other,
            ))
            &&& error is None ==> after.failures == background.failures && after.shutdown_errors
                == background.shutdown_errors
            &&& error is Some && known && marker is None ==> after.failures
                == background.failures.insert(id, error->0) && after.shutdown_errors
                == background.shutdown_errors
            &&& error is Some && known && marker is Some ==> after.failures
                == background.failures.insert(id, error->0 + "; "@ + marker->0)
                && after.shutdown_errors == background.shutdown_errors.push(marker->0)
            &&& error is Some && !known ==> after.failures == background.failures.insert(
                id,
                error->0 + "; "@ + lost,
            ) && after.shutdown_errors == background.shutdown_errors.push(lost)
            &&& after.markers == background.markers
        }),
{
}

/// The end is an error exactly where something went wrong: an error that came up, a marker
/// that is not stored, or work that had to be left; and each of these is told.
pub proof fn law_errors_at_the_end(
    background: RuntimeView,
    errors: Seq<Seq<char>>,
    unfinished: usize,
    i: int,
)
    ensures
        ({
            let all = crate::shutdown::end_errors(background, errors, unfinished);
            let lost = background.pending.dom().len();
            &&& all.len() == errors.len() + background.shutdown_errors.len() + (if lost > 0 {
                1int
            } else {
                0int
            }) + (if unfinished > 0 {
                1int
            } else {
                0int
            })
            &&& 0 <= i < errors.len() ==> all[i] == errors[i]
            &&& 0 <= i < background.shutdown_errors.len() ==> all[errors.len() + i]
                == background.shutdown_errors[i]
            &&& lost > 0 ==> all[errors.len() + background.shutdown_errors.len() as int]
                == "shutdown durability failure: "@ + crate::text::decimal_text(lost)
                + " remote mutation marker write(s) remain unacknowledged after 2s"@
            &&& unfinished > 0 ==> all.last() == "detached "@ + crate::text::decimal_text(
                unfinished as nat,
            ) + " uncooperative job(s) after shutdown grace period"@
        }),
{
}

// ---------------------------------------------------------------------------
// Changes of states
// ---------------------------------------------------------------------------

/// A state that stays is not told. A change is told as one where it is to be noticed, and
/// as a new starting point otherwise.
pub proof fn law_told_changes(previous: AgentState, current: AgentState)
    ensures
        forall|notify: bool|
            (#[trigger] crate::agent_state::told_change(previous, current, notify)) is None
                <==> previous == current,
        previous != current ==> crate::agent_state::told_change(previous, current, true) == Some(
            AgentObservationMode::Transition,
        ),
        previous != current ==> crate::agent_state::told_change(previous, current, false) == Some(
            AgentObservationMode::Baseline,
        ),
{
}

/// A change that came from elsewhere is told as one, but for an agent that had stopped and
/// shows signs of life to somebody who is attached, where that is to be passed over.
pub proof fn law_told_external_changes(previous: AgentState, current: AgentState, suppress: bool)
    ensures
        ({
            let told = crate::agent_state::told_external_change(previous, current, suppress);
            &&& told is None <==> previous == current
            &&& told == Some(AgentObservationMode::AttachedLiveness) <==> suppress && current
                == AgentState::Attached && (previous == AgentState::NeedsInput || previous
                == AgentState::ExitedOk || previous == AgentState::ExitedError || previous
                == AgentState::NeedsRestart)
            &&& told == Some(AgentObservationMode::Transition) || told == Some(
                AgentObservationMode::AttachedLiveness,
            ) || told is None
        }),
{
}

/// A new state is that of one worktree and changes nothing else.
pub proof fn law_state_of_a_worktree(
    sessions: Seq<Session>,
    index: int,
    state: AgentState,
    i: int,
)
    requires
        0 <= index < sessions.len(),
        0 <= i < sessions.len(),
    ensures
        ({
            let after = crate::agent_state::with_state(sessions, index, state);
            &&& after.len() == sessions.len()
            &&& after[index].agent_state == state
            &&& after[index].path == sessions[index].path
            &&& after[index].branch == sessions[index].branch
            &&& i != index ==> after[i] == sessions[i]
        }),
{
}

// ---------------------------------------------------------------------------
// Ends
// ---------------------------------------------------------------------------

/// A panic goes on after the cleanup. Otherwise the error of the loop is what the run gives,
/// unless a signal came; without one the run gives what the cleanup gave. An error of the
/// cleanup that is not given is recorded.
pub proof fn law_ends_of_runs(
    outcome: RunOutcome,
    signal: Option<ShutdownSignal>,
    cleanup: Result<(), String>,
)
    ensures
        ({
            let end = crate::shutdown::end_of_run(outcome, signal, cleanup);
            &&& outcome is Panicked <==> end is Resume || end is RecordAndResume
            &&& outcome is Panicked && cleanup is Err ==> end == RunEnd::RecordAndResume(
                cleanup->Err_0,
            )
            &&& outcome is Panicked && cleanup is Ok ==> end is Resume
            &&& outcome is Left ==> end == RunEnd::Return(cleanup)
            &&& outcome is Failed && signal is Some ==> end == RunEnd::Return(cleanup)
            &&& outcome matches RunOutcome::Failed(error) ==> (signal is None && cleanup is Ok ==> end
                == RunEnd::Return(Err::<(), String>(error)))
            &&& outcome matches RunOutcome::Failed(error) ==> (signal is None && cleanup is Err
                ==> end == RunEnd::RecordAndReturn(cleanup->Err_0, Err::<(), String>(error)))
        }),
{
}

/// A change whose result is not sure, or whose completion is not, comes to an error at the
/// end that says so; one that could not be stored to its storing error where it brought
/// something to store; and any other to none.
pub proof fn law_ends_of_changes(
    result: Result<RemoteActionKind, String>,
    stored: Result<(), String>,
    uncertain: Option<String>,
)
    ensures
        ({
            let error = crate::shutdown::end_of_action(result, stored, uncertain);
            let stores = result is Ok && (result->Ok_0 == RemoteActionKind::Cache || result->Ok_0
                == RemoteActionKind::Push || result->Ok_0 == RemoteActionKind::Resolved
                || result->Ok_0 == RemoteActionKind::Merge);
            let lost = stores && stored is Err;
            &&& result is Err ==> error == Some(
                "remote mutation result requires reconciliation: "@ + (result->Err_0)@,
            )
            &&& lost ==> error == Some((stored->Err_0)@)
            &&& result is Ok && !lost && uncertain is Some ==> error == Some(
                "remote mutation completion requires reconciliation: "@ + uncertain->0@,
            )
            &&& error is None <==> result is Ok && !lost && uncertain is None
        }),
{
}

/// A marker that was written is no longer waiting and counts as stored; one that was not is
/// no longer waiting either, and its failure is kept.
pub proof fn law_written_markers(
    background: RuntimeView,
    key: MarkerKeyView,
    result: Result<bool, String>,
)
    ensures
        ({
            let after = crate::routing::after_write(background, key, result);
            &&& !after.pending.dom().contains(key)
            &&& !after.enqueued.contains(key)
            &&& result == Ok::<bool, String>(true) ==> after.persisted.contains(key)
            &&& result != Ok::<bool, String>(true) ==> after.persisted == background.persisted
            &&& result is Ok ==> after.failures == background.failures
            &&& result matches Err(error) ==> after.failures.dom().contains(key.job_id)
                && after.failures[key.job_id] == error@
            &&& after.markers == background.markers
            &&& after.followed == background.followed
            &&& after.contexts == background.contexts
        }),
{
}

} // verus!
