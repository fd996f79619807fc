//! Which repository work is for, what starts with nothing under way, and how paths are
//! ordered.
use vstd::prelude::*;

use crate::jobs::repository_in;
use crate::jobs::repository_of;
use crate::jobs::JobKeyView;
use crate::jobs::JobOutcome;
use crate::jobs::MetadataView;
use crate::jobs::QueueStats;
use crate::jobs::TuiJobKey;
use crate::jobs::TuiJobKind;
use crate::keys::ListenerView;
use crate::keys::OutputView;
use crate::keys::WorktreeView;
use crate::navigation::NavView;
use crate::order::parts_less;
use crate::order::path_less;
use crate::order::text_less;
use crate::tracker::known_worktrees;
use crate::tracker::TrackerView;
use crate::tui::TuiView;

verus! {

// ---------------------------------------------------------------------------
// Repositories of work
// ---------------------------------------------------------------------------

/// Work is for the repository that its key names, or that of the worktree that its key
/// names; the inventory and the system are for none.
pub proof fn law_repositories_of_work(root: Seq<char>, worktree: WorktreeView)
    ensures
        repository_of(JobKeyView::Inventory) is None,
        repository_of(JobKeyView::System) is None,
        repository_of(JobKeyView::Repository(root)) == Some(root),
        repository_of(JobKeyView::WorktrunkHookLogs(root)) == Some(root),
        repository_of(JobKeyView::WorkflowRepository(root)) == Some(root),
        repository_of(JobKeyView::Worktree(worktree)) == Some(worktree.root),
        repository_of(JobKeyView::AgentStatePersistence(worktree)) == Some(worktree.root),
        forall|key: JobKeyView|
            (#[trigger] repository_of(key)) is None ==> key is Inventory || key is System,
{
}

/// Work on an output or a worktree is for its repository, whatever else its key says.
pub proof fn law_repositories_of_worktrees(key: JobKeyView)
    ensures
        key matches JobKeyView::DashboardOutput(OutputView::Plan { root, .. }) ==> repository_of(
            key,
        ) == Some(root),
        key matches JobKeyView::DashboardOutput(OutputView::Auto { root, .. }) ==> repository_of(
            key,
        ) == Some(root),
        key matches JobKeyView::Pr(k) ==> repository_of(key) == Some(k.worktree.root),
        key matches JobKeyView::PrPersistence(k) ==> repository_of(key) == Some(k.worktree.root),
        key matches JobKeyView::Delete(k) ==> repository_of(key) == Some(k.worktree.root),
        key matches JobKeyView::Tmux(k) ==> repository_of(key) == Some(k.worktree.root),
        key matches JobKeyView::Opencode(k) ==> repository_of(key) == Some(k.worktree.root),
        key matches JobKeyView::OpencodeListener(k) ==> repository_of(key) == Some(
            k.worktree.root,
        ),
{
}

/// The repository that a key holds is the one that the work is for.
pub proof fn law_held_repositories(key: TuiJobKey)
    ensures
        repository_in(key) is None <==> repository_of(key@) is None,
        repository_in(key) matches Some(repository) ==> repository_of(key@) == Some(repository@),
{
}

/// Every kind of work has a label of its own.
pub proof fn law_labels_of_work()
    ensures
        TuiJobKind::SessionRefresh.label_text() == "session_refresh"@,
        TuiJobKind::AgentStatePersistence.label_text() == "agent_state_persistence"@,
        TuiJobKind::WorkflowMaintenance.label_text() == "workflow_maintenance"@,
        TuiJobKind::PrSummary.label_text() == "pr_summary"@,
        TuiJobKind::PrDetails.label_text() == "pr_details"@,
        TuiJobKind::PrPersistence.label_text() == "pr_persistence"@,
        TuiJobKind::DeferredMergeCleanup.label_text() == "deferred_merge_cleanup"@,
        TuiJobKind::WorkflowPoll.label_text() == "workflow_poll"@,
        TuiJobKind::DashboardOutput.label_text() == "dashboard_output"@,
        TuiJobKind::DeleteSession.label_text() == "delete_session"@,
        TuiJobKind::TmuxWarmup.label_text() == "tmux_warmup"@,
        TuiJobKind::TmuxPortal.label_text() == "tmux_portal"@,
        TuiJobKind::WorktreeColumns.label_text() == "worktree_columns"@,
        TuiJobKind::WorktrunkHookLogs.label_text() == "worktrunk_hook_logs"@,
        TuiJobKind::DefaultBranch.label_text() == "default_branch"@,
        TuiJobKind::OpencodePoll.label_text() == "opencode_poll"@,
        TuiJobKind::OpencodeListener.label_text() == "opencode_listener"@,
        TuiJobKind::RemoteAction.label_text() == "remote_action"@,
        TuiJobKind::RemoteReconciliation.label_text() == "remote_reconciliation"@,
{
}

/// What failed work is reported with: its own message, or how it ended.
pub proof fn law_errors_of_remote_work(outcome: JobOutcome)
    ensures
        outcome matches JobOutcome::Failed(error) ==> outcome.remote_error() == error@,
        outcome matches JobOutcome::SpawnFailed(error) ==> outcome.remote_error() == error@,
        outcome matches JobOutcome::Panicked(error) ==> outcome.remote_error() == error@,
        outcome is Canceled ==> outcome.remote_error() == "remote action canceled"@,
        outcome is DeadlineExceeded ==> outcome.remote_error() == "remote action timed out"@,
        outcome is Completed ==> outcome.remote_error() == "remote action failed"@,
{
}

/// The record of the pressure on the queues holds each figure under its own name.
pub proof fn law_record_of_pressure(stats: QueueStats)
    ensures
        ({
            let shown = |n: u64| crate::text::decimal_text(n as nat);
            stats.json() == ("{\"event_depth\":"@ + shown(stats.event_depth)) + (
            ",\"event_capacity\":"@ + shown(stats.event_capacity)) + (",\"coalesced_depth\":"@
                + shown(stats.coalesced_depth)) + (",\"coalesced_capacity\":"@ + shown(
                stats.coalesced_capacity,
            )) + (",\"latest_depth\":"@ + shown(stats.latest_depth)) + (",\"terminal_depth\":"@
                + shown(stats.terminal_depth)) + (",\"overflow_count\":"@ + shown(
                stats.overflow_delta,
            )) + (",\"overflow_total\":"@ + shown(stats.overflow_total)) + (
            ",\"coalesced_count\":"@ + shown(stats.coalesced_delta)) + (",\"coalesced_total\":"@
                + shown(stats.coalesced_total)) + ",\"stream_dirty\":"@ + (if stats.dirty {
                "true"@
            } else {
                "false"@
            }) + "}"@
        }),
{
}

// ---------------------------------------------------------------------------
// What is under way
// ---------------------------------------------------------------------------

proof fn lemma_known_worktrees(nav: NavView, n: nat, worktree: WorktreeView)
    requires
        n <= nav.sessions.len(),
    ensures
        known_worktrees(nav, n).contains(worktree) <==> exists|i: int|
            0 <= i < n && (#[trigger] nav.sessions[i]).repo_index < nav.repos.len() && worktree
                == crate::keys::identity_view(
                nav.repos[nav.sessions[i].repo_index as int].repo.root@,
                nav.sessions[i],
            ),
    decreases n,
{
    if n > 0 {
        lemma_known_worktrees(nav, (n - 1) as nat, worktree);
        let session = nav.sessions[n - 1];
        if session.repo_index < nav.repos.len() && worktree == crate::keys::identity_view(
            nav.repos[session.repo_index as int].repo.root@,
            session,
        ) {
            assert(nav.sessions[n - 1] == session);
        }
    }
}

/// The known worktrees are those of the sessions of known repositories.
pub proof fn law_known_worktrees(nav: NavView, worktree: WorktreeView)
    ensures
        known_worktrees(nav, nav.sessions.len()).contains(worktree) <==> exists|i: int|
            0 <= i < nav.sessions.len() && (#[trigger] nav.sessions[i]).repo_index
                < nav.repos.len() && worktree == crate::keys::identity_view(
                nav.repos[nav.sessions[i].repo_index as int].repo.root@,
                nav.sessions[i],
            ),
{
    lemma_known_worktrees(nav, nav.sessions.len(), worktree);
}

/// At the start nothing is under way, and every known worktree is at its first generation.
pub proof fn law_nothing_is_under_way_at_the_start(nav: NavView, worktree: WorktreeView)
    ensures
        ({
            let start = crate::tracker::fresh_tracker(nav);
            let known = known_worktrees(nav, nav.sessions.len()).contains(worktree);
            &&& !start.session_refresh_in_flight
            &&& !start.session_refresh_pending
            &&& !start.workflow_maintenance_in_flight
            &&& start.session_inventory_generation == 0
            &&& start.workflow_revision == 0
            &&& known ==> start.worktree_generations.dom().contains(worktree)
                && start.worktree_generations[worktree] == 0
            &&& !known ==> !start.worktree_generations.dom().contains(worktree)
            &&& !start.agent_state_in_flight.contains(worktree)
            &&& !start.agent_state_pending.dom().contains(worktree)
            &&& !start.tmux_generations.dom().contains(worktree)
            &&& start.tmux_portal_polls_in_flight.dom().is_empty()
            &&& start.pr_summary_polls_in_flight.is_empty()
            &&& start.pr_polls_in_flight.is_empty()
            &&& start.pr_persistence_in_flight.is_empty()
            &&& start.merge_cleanups_in_flight.is_empty()
            &&& start.workflow_polls_in_flight.is_empty()
            &&& start.dashboard_outputs_in_flight.is_empty()
            &&& start.delete_sessions_in_flight.is_empty()
            &&& start.tmux_warmups_in_flight.is_empty()
            &&& start.wt_polls_in_flight.is_empty()
            &&& start.hook_log_polls_in_flight.is_empty()
            &&& start.default_branch_polls_in_flight.is_empty()
            &&& start.opencode_polls_in_flight.is_empty()
            &&& start.opencode_listeners.is_empty()
        }),
{
}

/// A state is stored once it is asked for and no other of the same worktree is being
/// stored.
pub proof fn law_states_that_can_be_stored(tracker: TrackerView, worktree: WorktreeView)
    ensures
        tracker.storable().contains(worktree) <==> tracker.agent_state_pending.dom().contains(
            worktree,
        ) && !tracker.agent_state_in_flight.contains(worktree),
{
}

/// A stream of events counts while a listed worktree is connected to its server and its
/// session.
pub proof fn law_streams_of_listed_worktrees(nav: NavView, stream: ListenerView)
    ensures
        crate::tracker::is_fed(nav, nav.sessions.len() as int, stream) <==> exists|i: int|
            0 <= i < nav.sessions.len() && nav.session_list().contains(i as usize)
                && crate::tracker::belongs_to(nav, #[trigger] nav.sessions[i], stream.worktree)
                && nav.sessions[i].opencode_status is Some && ({
                let status = nav.sessions[i].opencode_status->0;
                status.server_url is Some && status.server_url->0@ == stream.server_url
                    && status.session_id is Some && status.session_id->0@ == stream.session_id
            }),
{
    let n = nav.sessions.len() as int;
    if crate::tracker::is_fed(nav, n, stream) {
        let i = choose|i: int|
            0 <= i < n && i < nav.sessions.len() && #[trigger] crate::tracker::feeds(
                nav,
                i,
                stream,
            );
        assert(crate::tracker::belongs_to(nav, nav.sessions[i], stream.worktree));
    }
    assert forall|i: int|
        0 <= i < nav.sessions.len() && nav.session_list().contains(i as usize)
            && crate::tracker::belongs_to(nav, #[trigger] nav.sessions[i], stream.worktree)
            && nav.sessions[i].opencode_status is Some && ({
            let status = nav.sessions[i].opencode_status->0;
            status.server_url is Some && status.server_url->0@ == stream.server_url
                && status.session_id is Some && status.session_id->0@ == stream.session_id
        }) implies crate::tracker::is_fed(nav, n, stream) by {
        assert(crate::tracker::feeds(nav, i, stream));
    }
}

// ---------------------------------------------------------------------------
// Failed work
// ---------------------------------------------------------------------------

/// Where the stored markers cannot be read, every change request has to be looked into, and
/// nothing else of a worktree changes.
pub proof fn law_unread_markers_are_shown(
    before: NavView,
    after: NavView,
    job: MetadataView,
    i: int,
)
    requires
        crate::routing::nav_recovers(before, after, job),
        job.kind is RemoteReconciliation,
        job.key is System,
        0 <= i < before.sessions.len(),
    ensures
        after.sessions.len() == before.sessions.len(),
        after.sessions[i].pr.reconciliation is Some,
        after.sessions[i].pr.reconciliation->0@
            == "remote mutation marker loading failed; coordinated mutations remain blocked"@,
        after.sessions[i].branch == before.sessions[i].branch,
        after.sessions[i].pr.summary == before.sessions[i].pr.summary,
        after.sessions[i].agent_state == before.sessions[i].agent_state,
        after.repos == before.repos,
        after.selected == before.selected,
        after.current_repo == before.current_repo,
{
}

/// Other failures leave the lists as they are.
pub proof fn law_other_failures_keep_the_lists(before: NavView, after: NavView, job: MetadataView)
    requires
        crate::routing::nav_recovers(before, after, job),
        !(job.kind is DeleteSession),
        !(job.kind is RemoteReconciliation),
    ensures
        after == before,
{
}

/// The slots of cleanups, deletions and pictures that were completed are kept until the
/// result has come, as long as the result still counts.
pub proof fn law_slots_wait_for_results(view: TuiView, job: MetadataView, outcome: JobOutcome)
    ensures
        crate::routing::result_is_due(view, job, outcome) <==> outcome is Completed && (
        job.kind is DeferredMergeCleanup || job.kind is DeleteSession || job.kind is TmuxPortal)
            && view.tracker.counts(view.nav, job),
{
}

/// The worktree that is put first is the selected one, by its repository, path and branch.
pub proof fn law_worktree_that_is_put_first(nav: NavView, index: usize)
    ensures
        nav.selected_context() is None ==> crate::routing::selected_worktree(nav) is None,
        nav.selected_context() == Some(index) ==> crate::routing::selected_worktree(nav) == Some(
            crate::keys::identity_view(
                nav.repos[nav.sessions[index as int].repo_index as int].repo.root@,
                nav.sessions[index as int],
            ),
        ),
{
}

// ---------------------------------------------------------------------------
// The order of paths
// ---------------------------------------------------------------------------

proof fn lemma_first_difference(a: Seq<Seq<char>>, b: Seq<Seq<char>>, k: int)
    requires
        0 <= k < a.len(),
        k < b.len(),
        a[k] != b[k],
        forall|j: int| 0 <= j < k ==> a[j] == b[j],
    ensures
        parts_less(a, b) == crate::order::part_less(a[k], b[k]),
    decreases k,
{
    if k > 0 {
        assert(a.skip(1)[k - 1] == a[k]);
        assert(b.skip(1)[k - 1] == b[k]);
        lemma_first_difference(a.skip(1), b.skip(1), k - 1);
    }
}

proof fn lemma_start_comes_first(a: Seq<Seq<char>>, b: Seq<Seq<char>>)
    requires
        a.len() < b.len(),
        forall|j: int| 0 <= j < a.len() ==> a[j] == b[j],
    ensures
        parts_less(a, b),
        !parts_less(b, a),
    decreases a.len(),
{
    if a.len() > 0 {
        lemma_start_comes_first(a.skip(1), b.skip(1));
    }
}

/// Paths are ordered by their first differing components: nothing comes first, then one
/// dot, then two, then names by their text.
pub proof fn law_paths_are_ordered_by_components(a: Seq<char>, b: Seq<char>, k: int)
    requires
        0 <= k < crate::text::pieces(a, '/').len(),
        k < crate::text::pieces(b, '/').len(),
        crate::text::pieces(a, '/')[k] != crate::text::pieces(b, '/')[k],
        forall|j: int|
            0 <= j < k ==> crate::text::pieces(a, '/')[j] == crate::text::pieces(b, '/')[j],
    ensures
        ({
            let p = crate::text::pieces(a, '/')[k];
            let q = crate::text::pieces(b, '/')[k];
            let is_name = |part: Seq<char>|
                part.len() > 0 && part != seq!['.'] && part != seq!['.', '.'];
            &&& p.len() == 0 ==> path_less(a, b)
            &&& p == seq!['.'] && q.len() > 0 ==> path_less(a, b)
            &&& p == seq!['.', '.'] && is_name(q) ==> path_less(a, b)
            &&& is_name(p) && is_name(q) ==> (path_less(a, b) <==> text_less(p, q))
        }),
{
    let p = crate::text::pieces(a, '/')[k];
    let q = crate::text::pieces(b, '/')[k];
    lemma_first_difference(crate::text::pieces(a, '/'), crate::text::pieces(b, '/'), k);
    assert(seq!['.'].len() == 1 && seq!['.', '.'].len() == 2);
    if p.len() == 0 {
        assert(q.len() > 0) by {
            if q.len() == 0 {
                assert(p =~= q);
            }
        }
    }
}

/// A path comes before those below it.
pub proof fn law_paths_come_before_those_below(a: Seq<char>, b: Seq<char>)
    requires
        crate::text::pieces(a, '/').len() < crate::text::pieces(b, '/').len(),
        forall|j: int|
            0 <= j < crate::text::pieces(a, '/').len() ==> crate::text::pieces(a, '/')[j]
                == crate::text::pieces(b, '/')[j],
    ensures
        path_less(a, b),
        !path_less(b, a),
{
    lemma_start_comes_first(crate::text::pieces(a, '/'), crate::text::pieces(b, '/'));
}

/// The ends of deletions, of changes and of their reconciliation are never dropped; those of
/// any other work can be.
pub proof fn law_ends_that_are_never_dropped(kind: TuiJobKind)
    ensures
        crate::jobs::never_dropped(kind) <==> kind == TuiJobKind::DeleteSession || kind
            == TuiJobKind::RemoteAction || kind == TuiJobKind::RemoteReconciliation,
{
}

/// What a key stands for keeps its kind.
pub proof fn law_kinds_of_keys(key: TuiJobKey)
    ensures
        key is Inventory <==> key@ is Inventory,
        key is System <==> key@ is System,
        key is Repository <==> key@ is Repository,
        key is WorktrunkHookLogs <==> key@ is WorktrunkHookLogs,
        key is WorkflowRepository <==> key@ is WorkflowRepository,
        key is DashboardOutput <==> key@ is DashboardOutput,
        key is Worktree <==> key@ is Worktree,
        key is AgentStatePersistence <==> key@ is AgentStatePersistence,
        key is Pr <==> key@ is Pr,
        key is PrPersistence <==> key@ is PrPersistence,
        key is Delete <==> key@ is Delete,
        key is Tmux <==> key@ is Tmux,
        key is Opencode <==> key@ is Opencode,
        key is OpencodeListener <==> key@ is OpencodeListener,
{
}

/// Where a change to a remote ended badly, the failure to store its marker is told with its
/// error, as long as a marker was to be stored; where none was, only the error is told.
pub proof fn law_unstored_markers_are_told(
    view: TuiView,
    job: MetadataView,
    outcome: JobOutcome,
    problem: Seq<char>,
)
    requires
        job.kind is RemoteAction,
        !(outcome is Completed),
    ensures
        ({
            let after = crate::routing::background_after(view, job, outcome, Some(problem));
            let wanted = !(outcome is SpawnFailed) && view.background.followed.contains(job.id)
                && view.background.contexts.dom().contains(job.id);
            &&& after.failures.dom().contains(job.id)
            &&& wanted ==> after.failures[job.id] == outcome.remote_error() + "; "@ + problem
            &&& !wanted ==> after.failures[job.id] == outcome.remote_error()
            &&& wanted ==> after.shutdown_errors == view.background.shutdown_errors.push(problem)
            &&& !wanted ==> after.shutdown_errors == view.background.shutdown_errors
        }),
        crate::routing::background_after(view, job, outcome, None).failures[job.id]
            == outcome.remote_error(),
{
}

/// The end of other work that went well changes nothing that is known of changes.
pub proof fn law_other_ends_leave_changes_alone(
    view: TuiView,
    job: MetadataView,
    outcome: JobOutcome,
    problem: Option<Seq<char>>,
)
    requires
        outcome is Completed || (outcome is Canceled && !(job.kind is RemoteAction)),
    ensures
        crate::routing::background_after(view, job, outcome, problem) == view.background,
{
}

} // verus!
