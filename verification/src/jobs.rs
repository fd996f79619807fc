//! The background work of the dashboard: what kinds there are, what a piece of work is
//! for, and how one ends.
use vstd::prelude::*;

use crate::keys::AgentSessionWarmupKey;
use crate::keys::DashboardOutputKey;
use crate::keys::DeleteSessionKey;
use crate::keys::GenerationView;
use crate::keys::ListenerView;
use crate::keys::OpencodeListenerKey;
use crate::keys::OpencodePollKey;
use crate::keys::OutputView;
use crate::keys::PrPollKey;
use crate::keys::WorktreeRepositoryKey;
use crate::keys::WorktreeSessionKey;
use crate::keys::WorktreeView;
use crate::table::Key;
use crate::text::decimal;
use crate::text::join2;
use crate::text::join3;
use crate::text::owned;

verus! {

/// What a piece of background work does.
#[derive(Clone, Copy, Debug, PartialEq, Eq, Structural)]
pub enum TuiJobKind {
    SessionRefresh,
    AgentStatePersistence,
    WorkflowMaintenance,
    PrSummary,
    PrDetails,
    PrPersistence,
    DeferredMergeCleanup,
    WorkflowPoll,
    DashboardOutput,
    DeleteSession,
    TmuxWarmup,
    TmuxPortal,
    WorktreeColumns,
    WorktrunkHookLogs,
    DefaultBranch,
    OpencodePoll,
    OpencodeListener,
    RemoteAction,
    RemoteReconciliation,
}

/// Whether the end of a kind of work is never dropped.
pub open spec fn never_dropped(kind: TuiJobKind) -> bool {
    kind is DeleteSession || kind is RemoteAction || kind is RemoteReconciliation
}

impl TuiJobKind {
    /// The name of the kind in records.
    pub open spec fn label_text(self) -> Seq<char> {
        match self {
            TuiJobKind::SessionRefresh => "session_refresh"@,
            TuiJobKind::AgentStatePersistence => "agent_state_persistence"@,
            TuiJobKind::WorkflowMaintenance => "workflow_maintenance"@,
            TuiJobKind::PrSummary => "pr_summary"@,
            TuiJobKind::PrDetails => "pr_details"@,
            TuiJobKind::PrPersistence => "pr_persistence"@,
            TuiJobKind::DeferredMergeCleanup => "deferred_merge_cleanup"@,
            TuiJobKind::WorkflowPoll => "workflow_poll"@,
            TuiJobKind::DashboardOutput => "dashboard_output"@,
            TuiJobKind::DeleteSession => "delete_session"@,
            TuiJobKind::TmuxWarmup => "tmux_warmup"@,
            TuiJobKind::TmuxPortal => "tmux_portal"@,
            TuiJobKind::WorktreeColumns => "worktree_columns"@,
            TuiJobKind::WorktrunkHookLogs => "worktrunk_hook_logs"@,
            TuiJobKind::DefaultBranch => "default_branch"@,
            TuiJobKind::OpencodePoll => "opencode_poll"@,
            TuiJobKind::OpencodeListener => "opencode_listener"@,
            TuiJobKind::RemoteAction => "remote_action"@,
            TuiJobKind::RemoteReconciliation => "remote_reconciliation"@,
        }
    }

    /// The name of the kind in records.
    pub fn label(&self) -> (r: &'static str)
        ensures
            r@ == self.label_text(),
    {
        match self {
            TuiJobKind::SessionRefresh => "session_refresh",
            TuiJobKind::AgentStatePersistence => "agent_state_persistence",
            TuiJobKind::WorkflowMaintenance => "workflow_maintenance",
            TuiJobKind::PrSummary => "pr_summary",
            TuiJobKind::PrDetails => "pr_details",
            TuiJobKind::PrPersistence => "pr_persistence",
            TuiJobKind::DeferredMergeCleanup => "deferred_merge_cleanup",
            TuiJobKind::WorkflowPoll => "workflow_poll",
            TuiJobKind::DashboardOutput => "dashboard_output",
            TuiJobKind::DeleteSession => "delete_session",
            TuiJobKind::TmuxWarmup => "tmux_warmup",
            TuiJobKind::TmuxPortal => "tmux_portal",
            TuiJobKind::WorktreeColumns => "worktree_columns",
            TuiJobKind::WorktrunkHookLogs => "worktrunk_hook_logs",
            TuiJobKind::DefaultBranch => "default_branch",
            TuiJobKind::OpencodePoll => "opencode_poll",
            TuiJobKind::OpencodeListener => "opencode_listener",
            TuiJobKind::RemoteAction => "remote_action",
            TuiJobKind::RemoteReconciliation => "remote_reconciliation",
        }
    }

    /// Whether the result of the work must not be lost on the way.
    pub fn is_reliable(&self) -> (r: bool)
        ensures
            r == never_dropped(*self),
            r == (*self is DeleteSession || *self is RemoteAction
                || *self is RemoteReconciliation),
    {
        matches!(
            self,
            TuiJobKind::DeleteSession | TuiJobKind::RemoteAction | TuiJobKind::RemoteReconciliation
        )
    }
}

/// What a piece of background work is for.
#[derive(Debug)]
pub enum TuiJobKey {
    /// Work for the list of worktrees as a whole.
    Inventory,
    /// Work for the whole process, which no change of generation makes out of date.
    System,
    Repository(WorktreeRepositoryKey),
    WorktrunkHookLogs(WorktreeRepositoryKey),
    WorkflowRepository(WorktreeRepositoryKey),
    DashboardOutput(DashboardOutputKey),
    Worktree(WorktreeSessionKey),
    AgentStatePersistence(WorktreeSessionKey),
    Pr(PrPollKey),
    PrPersistence(PrPollKey),
    Delete(DeleteSessionKey),
    Tmux(AgentSessionWarmupKey),
    Opencode(OpencodePollKey),
    OpencodeListener(OpencodeListenerKey),
}

/// What work is for, as contracts speak of it.
#[verifier::ext_equal]
pub enum JobKeyView {
    Inventory,
    System,
    Repository(Seq<char>),
    WorktrunkHookLogs(Seq<char>),
    WorkflowRepository(Seq<char>),
    DashboardOutput(OutputView),
    Worktree(WorktreeView),
    AgentStatePersistence(WorktreeView),
    Pr(GenerationView),
    PrPersistence(GenerationView),
    Delete(GenerationView),
    Tmux(GenerationView),
    Opencode(GenerationView),
    OpencodeListener(ListenerView),
}

impl View for TuiJobKey {
    type V = JobKeyView;

    open spec fn view(&self) -> JobKeyView {
        match self {
            TuiJobKey::Inventory => JobKeyView::Inventory,
            TuiJobKey::System => JobKeyView::System,
            TuiJobKey::Repository(key) => JobKeyView::Repository(key@),
            TuiJobKey::WorktrunkHookLogs(key) => JobKeyView::WorktrunkHookLogs(key@),
            TuiJobKey::WorkflowRepository(key) => JobKeyView::WorkflowRepository(key@),
            TuiJobKey::DashboardOutput(key) => JobKeyView::DashboardOutput(key@),
            TuiJobKey::Worktree(key) => JobKeyView::Worktree(key@),
            TuiJobKey::AgentStatePersistence(key) => JobKeyView::AgentStatePersistence(key@),
            TuiJobKey::Pr(key) => JobKeyView::Pr(key@),
            TuiJobKey::PrPersistence(key) => JobKeyView::PrPersistence(key@),
            TuiJobKey::Delete(key) => JobKeyView::Delete(key@),
            TuiJobKey::Tmux(key) => JobKeyView::Tmux(key@),
            TuiJobKey::Opencode(key) => JobKeyView::Opencode(key@),
            TuiJobKey::OpencodeListener(key) => JobKeyView::OpencodeListener(key@),
        }
    }
}

impl TuiJobKey {
    /// A copy of the key.
    pub fn copy(&self) -> (r: Self)
        ensures
            r@ == self@,
    {
        match self {
            TuiJobKey::Inventory => TuiJobKey::Inventory,
            TuiJobKey::System => TuiJobKey::System,
            TuiJobKey::Repository(key) => TuiJobKey::Repository(key.copy_key()),
            TuiJobKey::WorktrunkHookLogs(key) => TuiJobKey::WorktrunkHookLogs(key.copy_key()),
            TuiJobKey::WorkflowRepository(key) => TuiJobKey::WorkflowRepository(key.copy_key()),
            TuiJobKey::DashboardOutput(key) => TuiJobKey::DashboardOutput(key.copy_key()),
            TuiJobKey::Worktree(key) => TuiJobKey::Worktree(key.copy_key()),
            TuiJobKey::AgentStatePersistence(key) => TuiJobKey::AgentStatePersistence(
                key.copy_key(),
            ),
            TuiJobKey::Pr(key) => TuiJobKey::Pr(key.copy_key()),
            TuiJobKey::PrPersistence(key) => TuiJobKey::PrPersistence(key.copy_key()),
            TuiJobKey::Delete(key) => TuiJobKey::Delete(key.copy_key()),
            TuiJobKey::Tmux(key) => TuiJobKey::Tmux(key.copy_key()),
            TuiJobKey::Opencode(key) => TuiJobKey::Opencode(key.copy_key()),
            TuiJobKey::OpencodeListener(key) => TuiJobKey::OpencodeListener(key.copy_key()),
        }
    }
}

/// The root of the repository that work is for, where it is for one.
pub open spec fn repository_of(key: JobKeyView) -> Option<Seq<char>> {
    match key {
        JobKeyView::Inventory => None,
        JobKeyView::System => None,
        JobKeyView::Repository(root) => Some(root),
        JobKeyView::WorktrunkHookLogs(root) => Some(root),
        JobKeyView::WorkflowRepository(root) => Some(root),
        JobKeyView::DashboardOutput(OutputView::Plan { root, .. }) => Some(root),
        JobKeyView::DashboardOutput(OutputView::Auto { root, .. }) => Some(root),
        JobKeyView::Worktree(worktree) => Some(worktree.root),
        JobKeyView::AgentStatePersistence(worktree) => Some(worktree.root),
        JobKeyView::Pr(key) => Some(key.worktree.root),
        JobKeyView::PrPersistence(key) => Some(key.worktree.root),
        JobKeyView::Delete(key) => Some(key.worktree.root),
        JobKeyView::Tmux(key) => Some(key.worktree.root),
        JobKeyView::Opencode(key) => Some(key.worktree.root),
        JobKeyView::OpencodeListener(key) => Some(key.worktree.root),
    }
}

/// The repository that a key holds, where it holds one.
pub open spec fn repository_in(key: TuiJobKey) -> Option<WorktreeRepositoryKey> {
    match key {
        TuiJobKey::Inventory => None,
        TuiJobKey::System => None,
        TuiJobKey::Repository(repository) => Some(repository),
        TuiJobKey::WorktrunkHookLogs(repository) => Some(repository),
        TuiJobKey::WorkflowRepository(repository) => Some(repository),
        TuiJobKey::DashboardOutput(DashboardOutputKey::Plan { repository, .. }) => Some(
            repository,
        ),
        TuiJobKey::DashboardOutput(DashboardOutputKey::Auto { repository, .. }) => Some(
            repository,
        ),
        TuiJobKey::Worktree(worktree) => Some(worktree.repository),
        TuiJobKey::AgentStatePersistence(worktree) => Some(worktree.repository),
        TuiJobKey::Pr(key) => Some(key.worktree.repository),
        TuiJobKey::PrPersistence(key) => Some(key.worktree.repository),
        TuiJobKey::Delete(key) => Some(key.worktree.repository),
        TuiJobKey::Tmux(key) => Some(key.worktree.repository),
        TuiJobKey::Opencode(key) => Some(key.worktree.repository),
        TuiJobKey::OpencodeListener(key) => Some(key.worktree.repository),
    }
}

/// The repository that work is for, where it is for one.
pub fn repository_key_for_job_key(key: &TuiJobKey) -> (r: Option<&WorktreeRepositoryKey>)
    ensures
        match r {
            Some(repository) => repository_in(*key) == Some(*repository) && repository_of(key@)
                == Some(repository@),
            None => repository_in(*key) is None && repository_of(key@) is None,
        },
{
    match key {
        TuiJobKey::Inventory => None,
        TuiJobKey::System => None,
        TuiJobKey::Repository(repository) => Some(repository),
        TuiJobKey::WorktrunkHookLogs(repository) => Some(repository),
        TuiJobKey::WorkflowRepository(repository) => Some(repository),
        TuiJobKey::DashboardOutput(DashboardOutputKey::Plan { repository, .. }) => Some(
            repository,
        ),
        TuiJobKey::DashboardOutput(DashboardOutputKey::Auto { repository, .. }) => Some(
            repository,
        ),
        TuiJobKey::Worktree(worktree) => Some(&worktree.repository),
        TuiJobKey::AgentStatePersistence(worktree) => Some(&worktree.repository),
        TuiJobKey::Pr(key) => Some(&key.worktree.repository),
        TuiJobKey::PrPersistence(key) => Some(&key.worktree.repository),
        TuiJobKey::Delete(key) => Some(&key.worktree.repository),
        TuiJobKey::Tmux(key) => Some(&key.worktree.repository),
        TuiJobKey::Opencode(key) => Some(&key.worktree.repository),
        TuiJobKey::OpencodeListener(key) => Some(&key.worktree.repository),
    }
}

/// The root of the repository that work is for, where it is for one.
pub fn repository_root_for_job_key(key: &TuiJobKey) -> (r: Option<String>)
    ensures
        match r {
            Some(root) => repository_in(*key) is Some && root@ == repository_in(*key)->0.root@
                && repository_of(key@) == Some(crate::text::bare_path(root@)),
            None => repository_in(*key) is None && repository_of(key@) is None,
        },
{
    match repository_key_for_job_key(key) {
        Some(repository) => Some(repository.root.clone()),
        None => None,
    }
}

/// A piece of background work.
#[derive(Debug)]
pub struct JobMetadata {
    pub id: u64,
    pub kind: TuiJobKind,
    pub key: TuiJobKey,
    pub generation: u64,
}

/// A piece of background work, as contracts speak of it.
#[verifier::ext_equal]
pub struct MetadataView {
    pub id: u64,
    pub kind: TuiJobKind,
    pub key: JobKeyView,
    pub generation: u64,
}

impl JobMetadata {
    /// The work as contracts speak of it.
    pub open spec fn view(&self) -> MetadataView {
        MetadataView {
            id: self.id,
            kind: self.kind,
            key: self.key@,
            generation: self.generation,
        }
    }
}

/// How a piece of work ended.
#[derive(Debug)]
pub enum JobOutcome {
    Completed,
    Canceled,
    Failed(String),
    SpawnFailed(String),
    Panicked(String),
    DeadlineExceeded,
}

/// How much a record matters.
#[derive(Clone, Copy, Debug, PartialEq, Eq, Structural)]
pub enum LogLevel {
    Debug,
    Info,
    Warn,
    Error,
}

impl JobOutcome {
    /// Whether the work did not do what it was for.
    pub open spec fn is_failure(&self) -> bool {
        !(*self is Completed) && !(*self is Canceled)
    }

    /// Whether the work did not do what it was for.
    pub fn failed(&self) -> (r: bool)
        ensures
            r == self.is_failure(),
    {
        !matches!(self, JobOutcome::Completed | JobOutcome::Canceled)
    }

    /// What went wrong, as the work tells it.
    pub open spec fn message(&self) -> Option<Seq<char>> {
        match self {
            JobOutcome::Failed(error) => Some(error@),
            JobOutcome::SpawnFailed(error) => Some(error@),
            JobOutcome::Panicked(error) => Some(error@),
            _ => None,
        }
    }

    /// What went wrong, as the work tells it.
    pub fn error_message(&self) -> (r: Option<String>)
        ensures
            crate::text::opt_text(r) == self.message(),
    {
        match self {
            JobOutcome::Failed(error) => Some(error.clone()),
            JobOutcome::SpawnFailed(error) => Some(error.clone()),
            JobOutcome::Panicked(error) => Some(error.clone()),
            _ => None,
        }
    }

    /// What a change to a remote is reported to have failed with.
    pub open spec fn remote_error(&self) -> Seq<char> {
        match self.message() {
            Some(error) => error,
            None => if *self is Canceled {
                "remote action canceled"@
            } else if *self is DeadlineExceeded {
                "remote action timed out"@
            } else {
                "remote action failed"@
            },
        }
    }

    /// What a change to a remote is reported to have failed with.
    pub fn remote_action_error(&self) -> (r: String)
        ensures
            r@ == self.remote_error(),
    {
        match self {
            JobOutcome::Failed(error) => error.clone(),
            JobOutcome::SpawnFailed(error) => error.clone(),
            JobOutcome::Panicked(error) => error.clone(),
            JobOutcome::Canceled => owned("remote action canceled"),
            JobOutcome::DeadlineExceeded => owned("remote action timed out"),
            JobOutcome::Completed => owned("remote action failed"),
        }
    }

    /// How much the record of the end matters.
    pub fn log_level(&self) -> (r: LogLevel)
        ensures
            r == (if self.is_failure() {
                LogLevel::Error
            } else {
                LogLevel::Debug
            }),
    {
        if self.failed() {
            LogLevel::Error
        } else {
            LogLevel::Debug
        }
    }
}

/// The record of the end of a piece of work; `outcome` names how it ended.
pub fn terminal_message(metadata: &JobMetadata, outcome: &str) -> (r: String)
    ensures
        r@ == "TUI job "@ + metadata.kind.label_text() + " #"@ + crate::text::decimal_text(
            metadata.id as nat,
        ) + " finished with "@ + outcome@,
{
    let id: String = decimal(metadata.id);
    let mut text: String = join3("TUI job ", metadata.kind.label(), " #");
    text.append(id.as_str());
    text.append(" finished with ");
    text.append(outcome);
    text
}

/// How far the queues between the work and the dashboard are filled.
#[derive(Clone, Copy, Debug)]
pub struct QueueStats {
    pub event_depth: u64,
    pub event_capacity: u64,
    pub coalesced_depth: u64,
    pub coalesced_capacity: u64,
    pub latest_depth: u64,
    pub terminal_depth: u64,
    pub overflow_delta: u64,
    pub overflow_total: u64,
    pub coalesced_delta: u64,
    pub coalesced_total: u64,
    pub dirty: bool,
}

/// A number of a record.
pub open spec fn field(name: Seq<char>, value: u64) -> Seq<char> {
    name + crate::text::decimal_text(value as nat)
}

fn add_field(text: &mut String, name: &str, value: u64)
    ensures
        final(text)@ == old(text)@ + field(name@, value),
{
    let digits: String = decimal(value);
    text.append(name);
    text.append(digits.as_str());
    assert(text@ =~= old(text)@ + field(name@, value));
}

impl QueueStats {
    /// Whether the pressure on the queues is worth a record.
    pub fn under_pressure(&self) -> (r: bool)
        ensures
            r == (self.overflow_delta > 0 || self.coalesced_delta > 0),
    {
        self.overflow_delta > 0 || self.coalesced_delta > 0
    }

    /// How much the record of the pressure matters.
    pub fn log_level(&self) -> (r: LogLevel)
        ensures
            r == (if self.overflow_delta > 0 {
                LogLevel::Warn
            } else {
                LogLevel::Debug
            }),
    {
        if self.overflow_delta > 0 {
            LogLevel::Warn
        } else {
            LogLevel::Debug
        }
    }

    /// The record of the pressure in words.
    pub fn pressure_message(&self) -> (r: String)
        ensures
            r@ == field("TUI delivery pressure: "@, self.overflow_delta) + field(
                " overflowed, "@,
                self.coalesced_delta,
            ) + " coalesced"@,
    {
        let mut text: String = owned("");
        assert(text@ =~= Seq::<char>::empty()) by {
            reveal_strlit("");
        }
        add_field(&mut text, "TUI delivery pressure: ", self.overflow_delta);
        assert(text@ =~= field("TUI delivery pressure: "@, self.overflow_delta));
        add_field(&mut text, " overflowed, ", self.coalesced_delta);
        text.append(" coalesced");
        text
    }

    /// The record of the pressure as a JSON object.
    pub open spec fn json(&self) -> Seq<char> {
        field("{\"event_depth\":"@, self.event_depth) + field(
            ",\"event_capacity\":"@,
            self.event_capacity,
        ) + field(",\"coalesced_depth\":"@, self.coalesced_depth) + field(
            ",\"coalesced_capacity\":"@,
            self.coalesced_capacity,
        ) + field(",\"latest_depth\":"@, self.latest_depth) + field(
            ",\"terminal_depth\":"@,
            self.terminal_depth,
        ) + field(",\"overflow_count\":"@, self.overflow_delta) + field(
            ",\"overflow_total\":"@,
            self.overflow_total,
        ) + field(",\"coalesced_count\":"@, self.coalesced_delta) + field(
            ",\"coalesced_total\":"@,
            self.coalesced_total,
        ) + ",\"stream_dirty\":"@ + (if self.dirty {
            "true"@
        } else {
            "false"@
        }) + "}"@
    }

    /// The record of the pressure as a JSON object.
    pub fn pressure_json(&self) -> (r: String)
        ensures
            r@ == self.json(),
    {
        let mut text: String = owned("");
        assert(text@ =~= Seq::<char>::empty()) by {
            reveal_strlit("");
        }
        add_field(&mut text, "{\"event_depth\":", self.event_depth);
        assert(text@ =~= field("{\"event_depth\":"@, self.event_depth));
        add_field(&mut text, ",\"event_capacity\":", self.event_capacity);
        add_field(&mut text, ",\"coalesced_depth\":", self.coalesced_depth);
        add_field(&mut text, ",\"coalesced_capacity\":", self.coalesced_capacity);
        add_field(&mut text, ",\"latest_depth\":", self.latest_depth);
        add_field(&mut text, ",\"terminal_depth\":", self.terminal_depth);
        add_field(&mut text, ",\"overflow_count\":", self.overflow_delta);
        add_field(&mut text, ",\"overflow_total\":", self.overflow_total);
        add_field(&mut text, ",\"coalesced_count\":", self.coalesced_delta);
        add_field(&mut text, ",\"coalesced_total\":", self.coalesced_total);
        text.append(",\"stream_dirty\":");
        if self.dirty {
            text.append("true");
        } else {
            text.append("false");
        }
        text.append("}");
        text
    }
}

/// What a poll of change requests brought.
#[derive(Debug)]
pub enum PrPollResult {
    Summary { repository: WorktreeRepositoryKey, sessions: Vec<WorktreeSessionKey> },
    Details { key: PrPollKey },
    Persistence { key: PrPollKey, version: u64, details: bool, result: Result<(), String> },
}

/// Where the result of a poll of change requests goes: of the results for one place
/// only the latest counts.
#[derive(Debug)]
pub enum PrDeliveryKey {
    Summary(WorktreeRepositoryKey),
    Details(PrPollKey),
    Persistence(PrPollKey),
}

/// Where a result goes, as contracts speak of it.
#[verifier::ext_equal]
pub enum DeliveryView {
    Summary(Seq<char>),
    Details(GenerationView),
    Persistence(GenerationView),
}

impl View for PrDeliveryKey {
    type V = DeliveryView;

    open spec fn view(&self) -> DeliveryView {
        match self {
            PrDeliveryKey::Summary(repository) => DeliveryView::Summary(repository@),
            PrDeliveryKey::Details(key) => DeliveryView::Details(key@),
            PrDeliveryKey::Persistence(key) => DeliveryView::Persistence(key@),
        }
    }
}

/// Where the result of a poll of change requests goes.
pub fn pr_delivery_key(result: &PrPollResult) -> (r: PrDeliveryKey)
    ensures
        r@ == (match result {
            PrPollResult::Summary { repository, .. } => DeliveryView::Summary(repository@),
            PrPollResult::Details { key } => DeliveryView::Details(key@),
            PrPollResult::Persistence { key, .. } => DeliveryView::Persistence(key@),
        }),
{
    match result {
        PrPollResult::Summary { repository, .. } => PrDeliveryKey::Summary(repository.copy_key()),
        PrPollResult::Details { key } => PrDeliveryKey::Details(key.copy_key()),
        PrPollResult::Persistence { key, .. } => PrDeliveryKey::Persistence(key.copy_key()),
    }
}

/// Why the dashboard ends.
#[derive(Clone, Copy, Debug, PartialEq, Eq, Structural)]
pub enum ShutdownReason {
    UserQuit,
    Sigint,
    Sigterm,
    RunError,
    Panic,
}

impl ShutdownReason {
    /// The name of the reason in records.
    pub open spec fn label_text(self) -> Seq<char> {
        match self {
            ShutdownReason::UserQuit => "user_quit"@,
            ShutdownReason::Sigint => "sigint"@,
            ShutdownReason::Sigterm => "sigterm"@,
            ShutdownReason::RunError => "run_error"@,
            ShutdownReason::Panic => "panic"@,
        }
    }

    /// The name of the reason in records.
    pub fn label(self) -> (r: &'static str)
        ensures
            r@ == self.label_text(),
    {
        match self {
            ShutdownReason::UserQuit => "user_quit",
            ShutdownReason::Sigint => "sigint",
            ShutdownReason::Sigterm => "sigterm",
            ShutdownReason::RunError => "run_error",
            ShutdownReason::Panic => "panic",
        }
    }
}

/// The record of the end of the dashboard.
pub fn shutdown_message(reason: ShutdownReason, active_jobs: u64, unfinished: u64) -> (r: String)
    ensures
        r@ == "TUI shutdown cleanup finished: reason="@ + reason.label_text() + field(
            ", active_jobs="@,
            active_jobs,
        ) + field(", unfinished_jobs="@, unfinished),
{
    let mut text: String = join2("TUI shutdown cleanup finished: reason=", reason.label());
    add_field(&mut text, ", active_jobs=", active_jobs);
    add_field(&mut text, ", unfinished_jobs=", unfinished);
    text
}

/// The record of a failure to clean up.
pub fn cleanup_failure_message(error: &str) -> (r: String)
    ensures
        r@ == "TUI cleanup failed: "@ + error@,
{
    join2("TUI cleanup failed: ", error)
}

} // verus!
