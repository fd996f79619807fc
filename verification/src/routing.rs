//! Handing out the results of background work: in what order they are taken, which of them
//! count, and what their ends change.
use vstd::prelude::*;

use crate::background::MarkerKey;
use crate::background::RemoteContext;
use crate::background_runtime::RuntimeView;
use crate::jobs::JobKeyView;
use crate::jobs::JobMetadata;
use crate::jobs::JobOutcome;
use crate::jobs::MetadataView;
use crate::jobs::TuiJobKey;
use crate::jobs::TuiJobKind;
use crate::keys::identity_key;
use crate::keys::WorktreeSessionKey;
use crate::keys::WorktreeView;
use crate::model::PrCache;
use crate::model::Session;
use crate::navigation::find_repo_at_root;
use crate::navigation::NavView;
use crate::table::Key;
use crate::text::join3;
use crate::text::owned;
use crate::tracker::session_belongs_to;
use crate::tracker::TrackerView;
use crate::tui::Tui;
use crate::tui::TuiView;

verus! {

/// How many results one tick of the dashboard takes.
pub const TUI_TICK_ITEM_BUDGET: usize = 32;

/// For how many milliseconds one tick of the dashboard takes results.
pub const TUI_TICK_TIME_BUDGET_MS: u64 = 8;

// ---------------------------------------------------------------------------
// The order in which results are taken
// ---------------------------------------------------------------------------

/// What is taken next.
#[derive(Clone, Copy, Debug, PartialEq, Eq, Structural)]
pub enum RoutePhase {
    /// The ends of pieces of work.
    Terminals,
    /// Results that the user waits for.
    Urgent,
    /// Events of streams.
    Stream,
    /// All other results.
    Rest,
    /// Nothing.
    Finished,
}

impl RoutePhase {
    /// The place of a phase among all.
    pub open spec fn rank(self) -> int {
        match self {
            RoutePhase::Terminals => 0,
            RoutePhase::Urgent => 1,
            RoutePhase::Stream => 2,
            RoutePhase::Rest => 3,
            RoutePhase::Finished => 4,
        }
    }

    /// The phase that follows.
    pub open spec fn after(self) -> RoutePhase {
        match self {
            RoutePhase::Terminals => RoutePhase::Urgent,
            RoutePhase::Urgent => RoutePhase::Stream,
            RoutePhase::Stream => RoutePhase::Rest,
            RoutePhase::Rest => RoutePhase::Finished,
            RoutePhase::Finished => RoutePhase::Finished,
        }
    }
}

/// One round of taking results.
#[derive(Clone, Copy, Debug, PartialEq, Eq, Structural)]
pub struct Router {
    pub phase: RoutePhase,
    pub processed: usize,
    pub limit: usize,
    pub deadline_ms: u64,
}

impl Router {
    /// Whether the round has not taken more than it may.
    pub open spec fn valid(self) -> bool {
        self.processed <= self.limit
    }

    /// Whether the round goes on at a time. The first end of a piece of work is taken
    /// however late it is.
    pub open spec fn goes_on(self, now_ms: u64) -> bool {
        &&& !(self.phase is Finished)
        &&& self.processed < self.limit
        &&& now_ms < self.deadline_ms || (self.phase is Terminals && self.processed == 0)
    }

    /// A round of some results within some time.
    pub fn new(limit: usize, deadline_ms: u64) -> (r: Self)
        ensures
            r == (Router { phase: RoutePhase::Terminals, processed: 0, limit, deadline_ms }),
            r.valid(),
    {
        Router { phase: RoutePhase::Terminals, processed: 0, limit, deadline_ms }
    }

    /// The round of one tick.
    pub fn for_tick(now_ms: u64) -> (r: Self)
        ensures
            r == (Router {
                phase: RoutePhase::Terminals,
                processed: 0,
                limit: TUI_TICK_ITEM_BUDGET,
                deadline_ms: crate::background_runtime::later(
                    now_ms,
                    TUI_TICK_TIME_BUDGET_MS as int,
                ),
            }),
            r.valid(),
    {
        Router::new(TUI_TICK_ITEM_BUDGET, now_ms.saturating_add(TUI_TICK_TIME_BUDGET_MS))
    }

    /// What is to be taken next; a round that is over stays over.
    pub fn next(&mut self, now_ms: u64) -> (r: RoutePhase)
        ensures
            r == final(self).phase,
            *final(self) == (if old(self).goes_on(now_ms) {
                *old(self)
            } else {
                Router { phase: RoutePhase::Finished, ..*old(self) }
            }),
    {
        let in_time: bool = now_ms < self.deadline_ms || (self.phase == RoutePhase::Terminals
            && self.processed == 0);
        if self.phase == RoutePhase::Finished || self.processed >= self.limit || !in_time {
            self.phase = RoutePhase::Finished;
        }
        self.phase
    }

    /// Counts what was taken.
    pub fn took(&mut self)
        requires
            old(self).processed < old(self).limit,
        ensures
            *final(self) == (Router { processed: (old(self).processed + 1) as usize, ..*old(self) }),
            final(self).valid(),
    {
        self.processed += 1;
    }

    /// Goes on to the next phase, as nothing is left to take in this one.
    pub fn exhausted(&mut self)
        ensures
            *final(self) == (Router { phase: old(self).phase.after(), ..*old(self) }),
    {
        self.phase = match self.phase {
            RoutePhase::Terminals => RoutePhase::Urgent,
            RoutePhase::Urgent => RoutePhase::Stream,
            RoutePhase::Stream => RoutePhase::Rest,
            RoutePhase::Rest => RoutePhase::Finished,
            RoutePhase::Finished => RoutePhase::Finished,
        };
    }
}

/// A round takes what it asks for only within its budget: after each thing it took it is
/// still valid, and it never returns to an earlier phase.
pub proof fn law_round_stays_within_its_budget(router: Router, now_ms: u64)
    requires
        router.valid(),
    ensures
        router.goes_on(now_ms) ==> router.processed + 1 <= router.limit,
        router.phase.rank() <= router.phase.after().rank(),
        !(router.phase is Finished) ==> router.phase.rank() < router.phase.after().rank(),
{
}

/// The end of a piece of work is taken in every round that may take anything, however late
/// the round is; nothing else is taken after the deadline.
pub proof fn law_one_end_is_taken_in_every_round(limit: usize, deadline_ms: u64, now_ms: u64)
    requires
        limit > 0,
    ensures
        (Router { phase: RoutePhase::Terminals, processed: 0, limit, deadline_ms }).goes_on(now_ms),
        forall|router: Router|
            now_ms >= router.deadline_ms && #[trigger] router.goes_on(now_ms)
                ==> router.phase is Terminals && router.processed == 0,
{
}

// ---------------------------------------------------------------------------
// Which results come first
// ---------------------------------------------------------------------------

/// The worktree whose selection makes the result of some work urgent.
pub open spec fn worktree_of(key: JobKeyView) -> Option<WorktreeView> {
    match key {
        JobKeyView::Worktree(worktree) => Some(worktree),
        JobKeyView::AgentStatePersistence(worktree) => Some(worktree),
        JobKeyView::Tmux(key) => Some(key.worktree),
        JobKeyView::Pr(key) => Some(key.worktree),
        JobKeyView::PrPersistence(key) => Some(key.worktree),
        JobKeyView::Opencode(key) => Some(key.worktree),
        JobKeyView::OpencodeListener(stream) => Some(stream.worktree),
        _ => None,
    }
}

/// How long the result of some work can wait; a lower number comes first.
pub open spec fn priority_of(selected: Option<WorktreeView>, job: MetadataView) -> u8 {
    if job.kind is DeleteSession {
        0
    } else if selected is Some && worktree_of(job.key) == selected {
        1
    } else {
        3
    }
}

/// The selected worktree.
pub open spec fn selected_worktree(nav: NavView) -> Option<WorktreeView> {
    match nav.selected_context() {
        Some(index) => Some(
            crate::keys::identity_view(
                nav.repos[nav.sessions[index as int].repo_index as int].repo.root@,
                nav.sessions[index as int],
            ),
        ),
        None => None,
    }
}

/// How long the result of some work can wait.
pub fn job_priority(selected: &Option<WorktreeSessionKey>, metadata: &JobMetadata) -> (r: u8)
    ensures
        r == priority_of(
            match selected {
                Some(worktree) => Some(worktree@),
                None => None,
            },
            metadata@,
        ),
{
    if metadata.kind == TuiJobKind::DeleteSession {
        return 0;
    }
    let chosen: &WorktreeSessionKey = match selected {
        Some(worktree) => worktree,
        None => {
            return 3;
        },
    };
    let about: &WorktreeSessionKey = match &metadata.key {
        TuiJobKey::Worktree(worktree) => worktree,
        TuiJobKey::AgentStatePersistence(worktree) => worktree,
        TuiJobKey::Tmux(key) => &key.worktree,
        TuiJobKey::Pr(key) => &key.worktree,
        TuiJobKey::PrPersistence(key) => &key.worktree,
        TuiJobKey::Opencode(key) => &key.worktree,
        TuiJobKey::OpencodeListener(stream) => &stream.worktree,
        _ => {
            return 3;
        },
    };
    if about.same_key(chosen) {
        1
    } else {
        3
    }
}

/// Whether results of a priority are taken before the events of streams.
pub fn is_urgent(priority: u8) -> (r: bool)
    ensures
        r == (priority <= 1),
{
    priority <= 1
}

/// The end of a deletion comes before everything else, and what the selected worktree waits
/// for before the rest.
pub proof fn law_deletions_come_first(selected: Option<WorktreeView>, a: MetadataView, b: MetadataView)
    requires
        a.kind is DeleteSession,
        !(b.kind is DeleteSession),
    ensures
        priority_of(selected, a) < priority_of(selected, b),
        priority_of(selected, a) <= 1,
        worktree_of(b.key) is Some && worktree_of(b.key) == selected ==> priority_of(selected, b)
            <= 1,
        worktree_of(b.key) is None ==> priority_of(selected, b) > 1,
{
}

// ---------------------------------------------------------------------------
// The ends of pieces of work
// ---------------------------------------------------------------------------

/// What is left to be done after the end of a piece of work.
#[derive(Clone, Copy, Debug, PartialEq, Eq, Structural)]
pub struct TerminalEffects {
    /// The repository whose worktree columns are no longer to be trusted.
    pub stale_columns: Option<usize>,
    /// The repository whose list of hook logs is no longer to be trusted.
    pub stale_hook_logs: Option<usize>,
    /// The repository whose worktrees are to be read again.
    pub refresh_worktrunk: Option<usize>,
    /// Whether the list of worktrees is to be read again.
    pub refresh_sessions: bool,
    /// Whether the list of worktrees is to be read again unless the dashboard shuts down.
    pub restart_refresh: bool,
}

/// What worktree columns that are no longer to be trusted are marked with.
pub fn stale_columns_error() -> (r: &'static str)
    ensures
        r@ == "Worktrunk observation job failed or timed out"@,
{
    "Worktrunk observation job failed or timed out"
}

/// What a list of hook logs that is no longer to be trusted is marked with.
pub fn stale_hook_logs_error() -> (r: &'static str)
    ensures
        r@ == "Worktrunk hook-log inventory job failed or timed out"@,
{
    "Worktrunk hook-log inventory job failed or timed out"
}

/// A marker that is to be stored for a change to a remote without a sure result.
#[derive(Debug)]
pub struct MarkerRequest {
    pub context: RemoteContext,
    pub error: String,
}

/// The place of a repository.
pub open spec fn repo_place(nav: NavView, root: Seq<char>) -> Option<usize> {
    crate::navigation::repo_at_root(nav.repos, nav.repos.len(), root)
}

/// The first of the first `n` sessions that belongs to a worktree.
pub open spec fn session_of(nav: NavView, n: nat, worktree: WorktreeView) -> Option<usize>
    decreases n,
{
    if n == 0 {
        None
    } else {
        match session_of(nav, (n - 1) as nat, worktree) {
            Some(found) => Some(found),
            None => if crate::tracker::belongs_to(nav, nav.sessions[n - 1], worktree) {
                Some((n - 1) as usize)
            } else {
                None
            },
        }
    }
}

/// Whether the state that completed work leaves behind still comes with its result.
pub open spec fn result_is_due(view: TuiView, job: MetadataView, outcome: JobOutcome) -> bool {
    &&& job.kind is DeferredMergeCleanup || job.kind is DeleteSession || job.kind is TmuxPortal
    &&& outcome is Completed
    &&& view.tracker.counts(view.nav, job)
}

/// Whether a marker is to be stored for a change to a remote that ended badly.
pub open spec fn marker_is_wanted(view: TuiView, job: MetadataView, outcome: JobOutcome) -> bool {
    &&& job.kind is RemoteAction
    &&& !(outcome is Completed)
    &&& !(outcome is SpawnFailed)
    &&& view.background.followed.contains(job.id)
    &&& view.background.contexts.dom().contains(job.id)
}

/// What the failure to read the stored markers is reported with.
pub open spec fn markers_lost() -> Seq<char> {
    "remote mutation marker loading failed; coordinated mutations remain blocked"@
}

/// The runtime after a change to a remote ended badly. `marker_error` says why the marker
/// that was wanted could not be stored.
pub open spec fn with_failed_action(
    background: RuntimeView,
    id: u64,
    error: Seq<char>,
    marker_error: Option<Seq<char>>,
) -> RuntimeView {
    let told = match marker_error {
        Some(text) => error + "; "@ + text,
        None => error,
    };
    RuntimeView {
        failures: background.failures.insert(id, told),
        shutdown_errors: match marker_error {
            Some(text) => background.shutdown_errors.push(text),
            None => background.shutdown_errors,
        },
        followed: background.followed.remove(id),
        contexts: background.contexts.remove(id),
        ..background
    }
}

/// The runtime after some work failed.
pub open spec fn with_recovery(background: RuntimeView, job: MetadataView) -> RuntimeView {
    if job.kind is RemoteReconciliation {
        let released = background.with_failed_reconciliation(job.id);
        if job.key is System {
            RuntimeView {
                loading: Set::empty(),
                shutdown_errors: released.shutdown_errors.push(markers_lost()),
                ..released
            }
        } else {
            released
        }
    } else {
        background
    }
}

/// The dashboard with the worktree of a failed deletion in the list again.
pub open spec fn shown_again(nav: NavView, worktree: WorktreeView) -> NavView {
    let shown = match session_of(nav, nav.sessions.len(), worktree) {
        Some(index) => NavView {
            sessions: nav.sessions.update(
                index as int,
                Session { hidden: false, ..nav.sessions[index as int] },
            ),
            ..nav
        },
        None => nav,
    };
    shown.with_valid_selections()
}

/// Whether a session is as before but for the reason why its change request has to be
/// looked into.
pub open spec fn requires_reconciliation(before: Session, after: Session, error: Seq<char>) -> bool {
    &&& after == (Session {
        pr: PrCache { reconciliation: after.pr.reconciliation, ..before.pr },
        ..before
    })
    &&& crate::text::opt_text(after.pr.reconciliation) == Some(error)
}

/// How the navigation changes when some work fails.
pub open spec fn nav_recovers(before: NavView, after: NavView, job: MetadataView) -> bool {
    match (job.kind, job.key) {
        (TuiJobKind::RemoteReconciliation, JobKeyView::System) => {
            &&& after == (NavView { sessions: after.sessions, ..before })
            &&& after.sessions.len() == before.sessions.len()
            &&& forall|i: int|
                0 <= i < before.sessions.len() ==> requires_reconciliation(
                    before.sessions[i],
                    #[trigger] after.sessions[i],
                    markers_lost(),
                )
        },
        (TuiJobKind::DeleteSession, JobKeyView::Delete(key)) => after == shown_again(
            before,
            key.worktree,
        ),
        _ => after == before,
    }
}

/// What is under way after the end of a piece of work.
pub open spec fn tracker_after(view: TuiView, job: MetadataView, outcome: JobOutcome) -> TrackerView {
    let cleared = if result_is_due(view, job, outcome) {
        view.tracker
    } else {
        view.tracker.cleared(job)
    };
    if job.kind is SessionRefresh {
        TrackerView { session_refresh_pending: false, ..cleared }
    } else {
        cleared
    }
}

/// The runtime after the end of a piece of work.
pub open spec fn background_after(
    view: TuiView,
    job: MetadataView,
    outcome: JobOutcome,
    marker_error: Option<Seq<char>>,
) -> RuntimeView {
    let reported = if job.kind is RemoteAction && !(outcome is Completed) {
        with_failed_action(
            view.background,
            job.id,
            outcome.remote_error(),
            if marker_is_wanted(view, job, outcome) {
                marker_error
            } else {
                None
            },
        )
    } else {
        view.background
    };
    if outcome.is_failure() {
        with_recovery(reported, job)
    } else {
        reported
    }
}

/// What is left to be done after the end of a piece of work.
pub open spec fn effects_of(view: TuiView, job: MetadataView, outcome: JobOutcome) -> TerminalEffects {
    TerminalEffects {
        stale_columns: match (job.kind, job.key) {
            (TuiJobKind::WorktreeColumns, JobKeyView::Repository(root)) => if outcome.is_failure() {
                repo_place(view.nav, root)
            } else {
                None
            },
            _ => None,
        },
        stale_hook_logs: match (job.kind, job.key) {
            (TuiJobKind::WorktrunkHookLogs, JobKeyView::WorktrunkHookLogs(root)) => if outcome.is_failure() {
                repo_place(view.nav, root)
            } else {
                None
            },
            _ => None,
        },
        refresh_worktrunk: match (job.kind, job.key) {
            (TuiJobKind::DeleteSession, JobKeyView::Delete(key)) => if !(outcome is Completed) {
                repo_place(view.nav, key.worktree.root)
            } else {
                None
            },
            _ => None,
        },
        refresh_sessions: job.kind is DeleteSession && job.key is Delete && !(outcome is Completed),
        restart_refresh: job.kind is SessionRefresh && (outcome.is_failure()
            || view.tracker.session_refresh_pending),
    }
}

/// The pieces of work whose results nothing takes.
pub open spec fn stale_ids(view: TuiView, active: Seq<JobMetadata>) -> Seq<u64>
    decreases active.len(),
{
    if active.len() == 0 {
        Seq::empty()
    } else {
        let before = stale_ids(view, active.drop_last());
        let job = active.last();
        if view.tracker.counts(view.nav, job@) || view.background.followed.contains(job.id) {
            before
        } else {
            before.push(job.id)
        }
    }
}

/// A change to a remote that is followed is never cancelled for being out of date.
pub proof fn law_followed_changes_are_not_cancelled(
    view: TuiView,
    active: Seq<JobMetadata>,
    id: u64,
)
    requires
        view.background.followed.contains(id),
    ensures
        !stale_ids(view, active).contains(id),
    decreases active.len(),
{
    if active.len() > 0 {
        let before = stale_ids(view, active.drop_last());
        law_followed_changes_are_not_cancelled(view, active.drop_last(), id);
        if stale_ids(view, active).contains(id) {
            let k = choose|k: int|
                0 <= k < stale_ids(view, active).len() && stale_ids(view, active)[k] == id;
            if k < before.len() {
                assert(before[k] == id);
            }
        }
    }
}

/// What is known of markers after one was written or was not.
pub open spec fn after_write(
    background: RuntimeView,
    key: crate::background::MarkerKeyView,
    result: Result<bool, String>,
) -> RuntimeView {
    RuntimeView {
        pending: background.pending.remove(key),
        enqueued: background.enqueued.remove(key),
        persisted: if result == Ok::<bool, String>(true) {
            background.persisted.insert(key)
        } else {
            background.persisted
        },
        failures: match result {
            Ok(_) => background.failures,
            Err(error) => background.failures.insert(key.job_id, error@),
        },
        ..background
    }
}

impl Tui {
    /// The selected worktree.
    pub fn selected_worktree_key(&self) -> (r: Option<WorktreeSessionKey>)
        ensures
            match r {
                Some(worktree) => selected_worktree(self@.nav) == Some(worktree@),
                None => selected_worktree(self@.nav) is None,
            },
    {
        match self.navigation.selected_worktree_context() {
            Some(index) => {
                let session: &Session = &self.navigation.sessions[index];
                Some(
                    identity_key(
                        self.navigation.repos[session.repo_index].repo.root.as_str(),
                        session,
                    ),
                )
            },
            None => None,
        }
    }

    /// Whether the results of some work are taken: they still count, or the work changes a
    /// remote and is followed. Other work is cancelled, and what it brings is dropped.
    pub fn result_is_taken(&self, metadata: &JobMetadata) -> (r: bool)
        ensures
            r == (self@.tracker.counts(self@.nav, metadata@)
                || self@.background.followed.contains(metadata.id)),
    {
        self.tracker.job_generation_is_current(&self.navigation, metadata)
            || self.background.remote_action_is_tracked(metadata.id)
    }

    /// The active pieces of work that are to be cancelled, as nothing takes their results.
    pub fn stale_jobs(&self, active: &Vec<JobMetadata>) -> (r: Vec<u64>)
        ensures
            r@ == stale_ids(self@, active@),
    {
        let mut stale: Vec<u64> = Vec::new();
        let mut i: usize = 0;
        while i < active.len()
            invariant
                i <= active@.len(),
                stale@ == stale_ids(self@, active@.take(i as int)),
            decreases active.len() - i,
        {
            assert(active@.take(i + 1).drop_last() =~= active@.take(i as int));
            if !self.result_is_taken(&active[i]) {
                stale.push(active[i].id);
            }
            i += 1;
        }
        assert(active@.take(active@.len() as int) =~= active@);
        stale
    }

    /// Whether an event of a stream is taken.
    pub fn event_is_taken(&self, metadata: &JobMetadata) -> (r: bool)
        ensures
            r == self@.tracker.counts(self@.nav, metadata@),
    {
        self.tracker.job_generation_is_current(&self.navigation, metadata)
    }

    /// Takes notice of a result that is dropped.
    pub fn drop_result(&mut self, metadata: &JobMetadata)
        ensures
            final(self)@ == (TuiView {
                tracker: old(self)@.tracker.cleared(metadata@),
                ..old(self)@
            }),
    {
        self.tracker.clear_tui_job_in_flight(metadata);
    }

    /// The worktree whose agent has to be asked anew, as events of its stream were lost.
    pub fn lost_events_of(&self, metadata: &JobMetadata) -> (r: Option<WorktreeSessionKey>)
        ensures
            match r {
                Some(worktree) => self@.tracker.counts(self@.nav, metadata@) && (metadata@.key matches
                    JobKeyView::OpencodeListener(stream) && stream.worktree == worktree@),
                None => !self@.tracker.counts(self@.nav, metadata@)
                    || !(metadata@.key is OpencodeListener),
            },
    {
        if !self.event_is_taken(metadata) {
            return None;
        }
        match &metadata.key {
            TuiJobKey::OpencodeListener(stream) => Some(stream.worktree.copy_key()),
            _ => None,
        }
    }

    /// Takes the writer's answer for a marker; where the writer failed, so has the change
    /// that the marker is for.
    pub fn marker_written(&mut self, key: &MarkerKey, result: Result<bool, String>)
        ensures
            final(self)@.background == after_write(old(self)@.background, key@, result),
            final(self)@ == (TuiView {
                background: RuntimeView {
                    pending: old(self)@.background.pending.remove(key@),
                    enqueued: old(self)@.background.enqueued.remove(key@),
                    persisted: if result == Ok::<bool, String>(true) {
                        old(self)@.background.persisted.insert(key@)
                    } else {
                        old(self)@.background.persisted
                    },
                    failures: match result {
                        Ok(_) => old(self)@.background.failures,
                        Err(error) => old(self)@.background.failures.insert(key@.job_id, error@),
                    },
                    ..old(self)@.background
                },
                ..old(self)@
            }),
    {
        self.background.apply_persistence_result(key, &result);
        match result {
            Ok(_) => {},
            Err(error) => {
                self.background.record_remote_failure(key.job_id, error);
            },
        }
    }

    /// The marker that is to be stored at the end of a change to a remote.
    pub fn marker_for_terminal(&self, metadata: &JobMetadata, outcome: &JobOutcome) -> (r: Option<
        MarkerRequest,
    >)
        ensures
            match r {
                Some(request) => marker_is_wanted(self@, metadata@, *outcome)
                    && request.context@ == self@.background.contexts[metadata.id]
                    && request.error@ == outcome.remote_error(),
                None => !marker_is_wanted(self@, metadata@, *outcome),
            },
    {
        if metadata.kind != TuiJobKind::RemoteAction || matches!(
            outcome,
            JobOutcome::Completed | JobOutcome::SpawnFailed(_)
        ) || !self.background.remote_action_is_tracked(metadata.id) {
            return None;
        }
        match self.background.remote_context(metadata.id) {
            Some(context) => Some(
                MarkerRequest { context, error: outcome.remote_action_error() },
            ),
            None => None,
        }
    }

    fn report_failed_action(
        &mut self,
        metadata: &JobMetadata,
        outcome: &JobOutcome,
        marker_error: Option<String>,
    )
        requires
            metadata.kind is RemoteAction,
            !(*outcome is Completed),
        ensures
            final(self)@ == (TuiView {
                background: with_failed_action(
                    old(self)@.background,
                    metadata.id,
                    outcome.remote_error(),
                    if marker_is_wanted(old(self)@, metadata@, *outcome) {
                        crate::text::opt_text(marker_error)
                    } else {
                        None
                    },
                ),
                ..old(self)@
            }),
    {
        let error: String = outcome.remote_action_error();
        let wanted: bool = self.marker_for_terminal(metadata, outcome).is_some();
        match marker_error {
            Some(text) => {
                if wanted {
                    let told: String = join3(error.as_str(), "; ", text.as_str());
                    self.background.record_remote_failure(metadata.id, told);
                    self.background.push_shutdown_error(text);
                } else {
                    self.background.record_remote_failure(metadata.id, error);
                }
            },
            None => {
                self.background.record_remote_failure(metadata.id, error);
            },
        }
        self.background.finish_remote_action(metadata.id);
    }

    fn require_reconciliation(&mut self)
        ensures
            final(self)@ == (TuiView { nav: final(self)@.nav, ..old(self)@ }),
            final(self)@.nav == (NavView {
                sessions: final(self)@.nav.sessions,
                ..old(self)@.nav
            }),
            final(self)@.nav.sessions.len() == old(self)@.nav.sessions.len(),
            forall|i: int|
                0 <= i < old(self)@.nav.sessions.len() ==> requires_reconciliation(
                    old(self)@.nav.sessions[i],
                    #[trigger] final(self)@.nav.sessions[i],
                    markers_lost(),
                ),
    {
        let mut i: usize = 0;
        while i < self.navigation.sessions.len()
            invariant
                i <= self.navigation.sessions@.len(),
                self@ == (TuiView { nav: self@.nav, ..old(self)@ }),
                self@.nav == (NavView { sessions: self@.nav.sessions, ..old(self)@.nav }),
                self@.nav.sessions.len() == old(self)@.nav.sessions.len(),
                forall|k: int|
                    0 <= k < i ==> requires_reconciliation(
                        old(self)@.nav.sessions[k],
                        #[trigger] self@.nav.sessions[k],
                        markers_lost(),
                    ),
                forall|k: int|
                    i <= k < old(self)@.nav.sessions.len() ==> #[trigger] self@.nav.sessions[k]
                        == old(self)@.nav.sessions[k],
            decreases self.navigation.sessions.len() - i,
        {
            let ghost before = self@.nav.sessions;
            let mut session: Session = self.navigation.sessions.remove(i);
            session.pr.reconciliation = Some(
                owned("remote mutation marker loading failed; coordinated mutations remain blocked"),
            );
            self.navigation.sessions.insert(i, session);
            assert(self@.nav.sessions =~= before.update(i as int, session));
            i += 1;
        }
    }

    fn show_again(&mut self, worktree: &WorktreeSessionKey)
        ensures
            final(self)@ == (TuiView {
                nav: shown_again(old(self)@.nav, worktree@),
                ..old(self)@
            }),
    {
        match self.session_index_for_worktree(worktree) {
            Some(index) => {
                let mut session: Session = self.navigation.sessions.remove(index);
                session.hidden = false;
                self.navigation.sessions.insert(index, session);
                assert(self@.nav.sessions =~= old(self)@.nav.sessions.update(
                    index as int,
                    Session { hidden: false, ..old(self)@.nav.sessions[index as int] },
                ));
            },
            None => {},
        }
        self.navigation.ensure_navigation_valid();
    }

    fn session_index_for_worktree(&self, worktree: &WorktreeSessionKey) -> (r: Option<usize>)
        ensures
            r == session_of(self@.nav, self@.nav.sessions.len(), worktree@),
            r matches Some(index) ==> index < self@.nav.sessions.len(),
    {
        let mut found: Option<usize> = None;
        let mut i: usize = 0;
        while i < self.navigation.sessions.len()
            invariant
                i <= self.navigation.sessions@.len(),
                found == session_of(self@.nav, i as nat, worktree@),
                found matches Some(index) ==> index < self@.nav.sessions.len(),
            decreases self.navigation.sessions.len() - i,
        {
            if found.is_none() && session_belongs_to(
                &self.navigation,
                &self.navigation.sessions[i],
                worktree,
            ) {
                found = Some(i);
            }
            i += 1;
        }
        found
    }

    /// The session that work on a worktree is for: the first that belongs to the worktree.
    pub fn session_index_for_job_key(&self, key: &TuiJobKey) -> (r: Option<usize>)
        ensures
            r == (match key@ {
                JobKeyView::Worktree(worktree) => session_of(
                    self@.nav,
                    self@.nav.sessions.len(),
                    worktree,
                ),
                _ => None,
            }),
            r matches Some(index) ==> index < self@.nav.sessions.len(),
    {
        match key {
            TuiJobKey::Worktree(worktree) => self.session_index_for_worktree(worktree),
            _ => None,
        }
    }

    /// Makes up for failed work: a worktree whose deletion failed is listed again, a marker
    /// that was looked into can be looked into again, and the list of worktrees is to be
    /// read again.
    pub fn recover_failed_tui_job(&mut self, metadata: &JobMetadata)
        ensures
            final(self)@ == (TuiView {
                nav: final(self)@.nav,
                tracker: if metadata.kind is SessionRefresh {
                    TrackerView { session_refresh_pending: true, ..old(self)@.tracker }
                } else {
                    old(self)@.tracker
                },
                background: with_recovery(old(self)@.background, metadata@),
                ..old(self)@
            }),
            nav_recovers(old(self)@.nav, final(self)@.nav, metadata@),
    {
        if metadata.kind == TuiJobKind::SessionRefresh {
            self.tracker.session_refresh_pending = true;
        }
        if metadata.kind == TuiJobKind::RemoteReconciliation {
            self.background.fail_reconciliation_job(metadata.id);
            if matches!(metadata.key, TuiJobKey::System) {
                self.background.fail_marker_loads();
                self.require_reconciliation();
                self.background.push_shutdown_error(
                    owned(
                        "remote mutation marker loading failed; coordinated mutations remain blocked",
                    ),
                );
            }
        }
        if metadata.kind == TuiJobKind::DeleteSession {
            match &metadata.key {
                TuiJobKey::Delete(key) => {
                    self.show_again(&key.worktree);
                },
                _ => {},
            }
        }
    }

    fn repo_of(&self, root: &str) -> (r: Option<usize>)
        ensures
            r == repo_place(self@.nav, crate::text::bare_path(root@)),
    {
        find_repo_at_root(&self.navigation.repos, root)
    }

    fn effects(&self, metadata: &JobMetadata, outcome: &JobOutcome) -> (r: TerminalEffects)
        ensures
            r == effects_of(self@, metadata@, *outcome),
    {
        let failed: bool = outcome.failed();
        let completed: bool = matches!(outcome, JobOutcome::Completed);
        let mut effects: TerminalEffects = TerminalEffects {
            stale_columns: None,
            stale_hook_logs: None,
            refresh_worktrunk: None,
            refresh_sessions: false,
            restart_refresh: metadata.kind == TuiJobKind::SessionRefresh && (failed
                || self.tracker.session_refresh_pending),
        };
        match (metadata.kind, &metadata.key) {
            (TuiJobKind::WorktreeColumns, TuiJobKey::Repository(repository)) => {
                if failed {
                    effects.stale_columns = self.repo_of(repository.root.as_str());
                }
            },
            (TuiJobKind::WorktrunkHookLogs, TuiJobKey::WorktrunkHookLogs(repository)) => {
                if failed {
                    effects.stale_hook_logs = self.repo_of(repository.root.as_str());
                }
            },
            (TuiJobKind::DeleteSession, TuiJobKey::Delete(key)) => {
                if !completed {
                    effects.refresh_worktrunk = self.repo_of(
                        key.worktree.repository.root.as_str(),
                    );
                    effects.refresh_sessions = true;
                }
            },
            _ => {},
        }
        effects
    }

    /// Takes the end of a piece of work. `marker_error` says why the marker that was wanted
    /// for it could not be stored, and means nothing where none was wanted.
    pub fn take_terminal(
        &mut self,
        metadata: &JobMetadata,
        outcome: &JobOutcome,
        marker_error: Option<String>,
    ) -> (r: TerminalEffects)
        ensures
            r == effects_of(old(self)@, metadata@, *outcome),
            final(self)@ == (TuiView {
                nav: final(self)@.nav,
                tracker: tracker_after(old(self)@, metadata@, *outcome),
                background: background_after(
                    old(self)@,
                    metadata@,
                    *outcome,
                    crate::text::opt_text(marker_error),
                ),
                ..old(self)@
            }),
            if outcome.is_failure() {
                nav_recovers(old(self)@.nav, final(self)@.nav, metadata@)
            } else {
                final(self)@.nav == old(self)@.nav
            },
    {
        let effects: TerminalEffects = self.effects(metadata, outcome);
        let due: bool = matches!(
            metadata.kind,
            TuiJobKind::DeferredMergeCleanup | TuiJobKind::DeleteSession | TuiJobKind::TmuxPortal
        ) && matches!(outcome, JobOutcome::Completed) && self.event_is_taken(metadata);
        if metadata.kind == TuiJobKind::RemoteAction && !matches!(outcome, JobOutcome::Completed) {
            self.report_failed_action(metadata, outcome, marker_error);
        }
        if !due {
            self.tracker.clear_tui_job_in_flight(metadata);
        }
        if outcome.failed() {
            self.recover_failed_tui_job(metadata);
        }
        if metadata.kind == TuiJobKind::SessionRefresh {
            self.tracker.session_refresh_pending = false;
        }
        effects
    }
}

/// A worktree whose deletion failed is no longer hidden.
pub proof fn law_failed_deletion_shows_the_worktree_again(nav: NavView, worktree: WorktreeView)
    requires
        nav.sessions.len() <= usize::MAX,
        session_of(nav, nav.sessions.len(), worktree) is Some,
    ensures
        ({
            let index = session_of(nav, nav.sessions.len(), worktree)->0;
            &&& index < nav.sessions.len()
            &&& shown_again(nav, worktree).sessions.len() == nav.sessions.len()
            &&& !shown_again(nav, worktree).sessions[index as int].hidden
        }),
{
    lemma_session_of(nav, nav.sessions.len(), worktree);
}

proof fn lemma_session_of(nav: NavView, n: nat, worktree: WorktreeView)
    requires
        n <= nav.sessions.len(),
        nav.sessions.len() <= usize::MAX,
    ensures
        session_of(nav, n, worktree) matches Some(index) ==> index < n
            && crate::tracker::belongs_to(nav, nav.sessions[index as int], worktree),
    decreases n,
{
    if n > 0 {
        lemma_session_of(nav, (n - 1) as nat, worktree);
    }
}

/// A failed read of the list of worktrees is always followed by another one.
pub proof fn law_failed_refresh_is_repeated(view: TuiView, job: MetadataView, outcome: JobOutcome)
    requires
        job.kind is SessionRefresh,
        outcome.is_failure(),
    ensures
        effects_of(view, job, outcome).restart_refresh,
        !tracker_after(view, job, outcome).session_refresh_pending,
        !tracker_after(view, job, outcome).session_refresh_in_flight,
{
}

/// The slot of a deletion is kept until the result has been taken: the end alone does not
/// free it.
pub proof fn law_slot_is_kept_until_the_result_comes(view: TuiView, job: MetadataView)
    requires
        job.kind is DeleteSession,
        view.tracker.counts(view.nav, job),
    ensures
        tracker_after(view, job, JobOutcome::Completed) == view.tracker,
{
}

/// A change to a remote that ended badly is no longer followed, and what it failed with is
/// known.
pub proof fn law_failed_action_is_reported(
    view: TuiView,
    job: MetadataView,
    outcome: JobOutcome,
    marker_error: Option<Seq<char>>,
)
    requires
        job.kind is RemoteAction,
        !(outcome is Completed),
    ensures
        !background_after(view, job, outcome, marker_error).followed.contains(job.id),
        background_after(view, job, outcome, marker_error).failures.dom().contains(job.id),
        marker_error is None ==> background_after(view, job, outcome, marker_error).failures[job.id]
            == outcome.remote_error(),
{
}

} // verus!
