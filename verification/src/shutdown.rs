//! The end of the dashboard: what may still come in, how long it waits, and what it reports.
use vstd::prelude::*;

use crate::background_runtime::RuntimeView;
use crate::jobs::JobKeyView;
use crate::jobs::JobMetadata;
use crate::jobs::ShutdownReason;
use crate::jobs::TuiJobKey;
use crate::model::PrCache;
use crate::model::Session;
use crate::navigation::NavView;
use crate::routing::MarkerRequest;
use crate::text::decimal;
use crate::text::join2;
use crate::text::join3;
use crate::text::join_with;
use crate::text::owned;
use crate::tui::Tui;
use crate::tui::TuiView;

verus! {

/// For how many milliseconds the end waits for work other than changes to remotes.
pub const TUI_JOB_SHUTDOWN_GRACE_MS: u64 = 2_000;

/// For how many milliseconds the end waits for changes to remotes.
pub const TUI_MUTATION_SHUTDOWN_BOUND_MS: u64 = 1_800_000;

// ---------------------------------------------------------------------------
// Signals
// ---------------------------------------------------------------------------

/// A signal that ends the dashboard.
#[derive(Clone, Copy, Debug, PartialEq, Eq, Structural)]
pub enum ShutdownSignal {
    Sigint,
    Sigterm,
}

/// Where a signal that came in is noted.
#[derive(Clone, Copy, Debug, PartialEq, Eq, Structural)]
pub struct ShutdownNotification {
    pub signal: Option<ShutdownSignal>,
}

impl ShutdownNotification {
    /// A notification without a signal.
    pub fn new() -> (r: Self)
        ensures
            r.signal is None,
    {
        ShutdownNotification { signal: None }
    }

    /// Notes a signal.
    pub fn request(&mut self, signal: ShutdownSignal)
        ensures
            final(self).signal == Some(signal),
    {
        self.signal = Some(signal);
    }
}

/// Why a signal ends the dashboard.
pub open spec fn reason_of(signal: ShutdownSignal) -> ShutdownReason {
    match signal {
        ShutdownSignal::Sigint => ShutdownReason::Sigint,
        ShutdownSignal::Sigterm => ShutdownReason::Sigterm,
    }
}

/// Why the dashboard is to end, where a signal asks for that.
pub fn requested_shutdown(notification: &ShutdownNotification) -> (r: Option<ShutdownReason>)
    ensures
        r == (match notification.signal {
            Some(signal) => Some(reason_of(signal)),
            None => None,
        }),
{
    match notification.signal {
        Some(ShutdownSignal::Sigint) => Some(ShutdownReason::Sigint),
        Some(ShutdownSignal::Sigterm) => Some(ShutdownReason::Sigterm),
        None => None,
    }
}

// ---------------------------------------------------------------------------
// How a run ends
// ---------------------------------------------------------------------------

/// How the loop of the dashboard ended.
#[derive(Debug)]
pub enum RunOutcome {
    /// The loop was left for a reason.
    Left(ShutdownReason),
    /// The loop failed.
    Failed(String),
    /// The loop panicked.
    Panicked,
}

/// Why the dashboard ends.
pub open spec fn end_reason(outcome: RunOutcome, signal: Option<ShutdownSignal>) -> ShutdownReason {
    match outcome {
        RunOutcome::Panicked => ShutdownReason::Panic,
        _ => match signal {
            Some(given) => reason_of(given),
            None => match outcome {
                RunOutcome::Left(reason) => reason,
                _ => ShutdownReason::RunError,
            },
        },
    }
}

/// Why the dashboard ends: a panic counts before a signal, and a signal before what the loop
/// says itself.
pub fn shutdown_reason(outcome: &RunOutcome, signal: Option<ShutdownSignal>) -> (r: ShutdownReason)
    ensures
        r == end_reason(*outcome, signal),
{
    match outcome {
        RunOutcome::Panicked => ShutdownReason::Panic,
        RunOutcome::Left(reason) => match signal {
            Some(ShutdownSignal::Sigint) => ShutdownReason::Sigint,
            Some(ShutdownSignal::Sigterm) => ShutdownReason::Sigterm,
            None => *reason,
        },
        RunOutcome::Failed(_) => match signal {
            Some(ShutdownSignal::Sigint) => ShutdownReason::Sigint,
            Some(ShutdownSignal::Sigterm) => ShutdownReason::Sigterm,
            None => ShutdownReason::RunError,
        },
    }
}

/// What is left to be done once the work of a run has been cleaned up.
#[derive(Debug)]
pub enum RunEnd {
    /// The run gives a result.
    Return(Result<(), String>),
    /// The error of the cleanup is recorded, then the run gives a result.
    RecordAndReturn(String, Result<(), String>),
    /// The panic goes on.
    Resume,
    /// The error of the cleanup is recorded, then the panic goes on.
    RecordAndResume(String),
}

/// What a run comes to, given how its cleanup went.
pub open spec fn end_of_run(
    outcome: RunOutcome,
    signal: Option<ShutdownSignal>,
    cleanup: Result<(), String>,
) -> RunEnd {
    match outcome {
        RunOutcome::Panicked => match cleanup {
            Ok(_) => RunEnd::Resume,
            Err(failure) => RunEnd::RecordAndResume(failure),
        },
        RunOutcome::Left(_) => RunEnd::Return(cleanup),
        RunOutcome::Failed(error) => if signal is Some {
            RunEnd::Return(cleanup)
        } else {
            match cleanup {
                Ok(_) => RunEnd::Return(Err(error)),
                Err(failure) => RunEnd::RecordAndReturn(failure, Err(error)),
            }
        },
    }
}

/// What a run comes to, given how its cleanup went. An error of the loop is what the run
/// gives; the error of the cleanup counts only where the loop ended well or a signal came.
pub fn finish_run(outcome: RunOutcome, signal: Option<ShutdownSignal>, cleanup: Result<(), String>) -> (r:
    RunEnd)
    ensures
        r == end_of_run(outcome, signal, cleanup),
        match outcome {
            RunOutcome::Panicked => match cleanup {
                Ok(_) => r is Resume,
                Err(failure) => r == RunEnd::RecordAndResume(failure),
            },
            RunOutcome::Left(_) => r == RunEnd::Return(cleanup),
            RunOutcome::Failed(error) => if signal is Some {
                r == RunEnd::Return(cleanup)
            } else {
                match cleanup {
                    Ok(_) => r == RunEnd::Return(Err::<(), String>(error)),
                    Err(failure) => r == RunEnd::RecordAndReturn(failure, Err::<(), String>(error)),
                }
            },
        },
{
    match outcome {
        RunOutcome::Panicked => match cleanup {
            Ok(_) => RunEnd::Resume,
            Err(failure) => RunEnd::RecordAndResume(failure),
        },
        RunOutcome::Left(_) => RunEnd::Return(cleanup),
        RunOutcome::Failed(error) => {
            if signal.is_some() {
                RunEnd::Return(cleanup)
            } else {
                match cleanup {
                    Ok(_) => RunEnd::Return(Err(error)),
                    Err(failure) => RunEnd::RecordAndReturn(failure, Err(error)),
                }
            }
        },
    }
}

/// What a panic of the cleanup is reported with.
pub fn cleanup_panic_message(payload: Option<&str>) -> (r: String)
    ensures
        r@ == "TUI cleanup panicked: "@ + (match payload {
            Some(text) => text@,
            None => "non-string panic payload"@,
        }),
{
    match payload {
        Some(text) => join2("TUI cleanup panicked: ", text),
        None => join2("TUI cleanup panicked: ", "non-string panic payload"),
    }
}

// ---------------------------------------------------------------------------
// Changes to remotes that come in at the end
// ---------------------------------------------------------------------------

/// What a change to a remote brought.
#[derive(Clone, Copy, Debug, PartialEq, Eq, Structural)]
pub enum RemoteActionKind {
    Cache,
    Push,
    Resolved,
    Merge,
    WorktrunkUserConfig,
    ChangeRequests,
    MergeRejected,
    Complete,
}

impl RemoteActionKind {
    /// Whether the change brought what is now known of a change request.
    pub fn carries_cache(self) -> (r: bool)
        ensures
            r == (self is Cache || self is Push || self is Resolved || self is Merge),
    {
        matches!(
            self,
            RemoteActionKind::Cache
            | RemoteActionKind::Push
            | RemoteActionKind::Resolved
            | RemoteActionKind::Merge
        )
    }
}

/// The error that a change comes to at the end, where it comes to one.
pub open spec fn end_of_action(
    result: Result<RemoteActionKind, String>,
    stored: Result<(), String>,
    uncertain: Option<String>,
) -> Option<Seq<char>> {
    match result {
        Err(error) => Some("remote mutation result requires reconciliation: "@ + error@),
        Ok(kind) => if stored is Err && (kind is Cache || kind is Push || kind is Resolved
            || kind is Merge) {
            Some(stored->Err_0@)
        } else {
            match uncertain {
                Some(error) => Some(
                    "remote mutation completion requires reconciliation: "@ + error@,
                ),
                None => None,
            }
        },
    }
}

/// What a change to a remote that came in at the end comes to. `stored` says how storing
/// what it brought went, and `uncertain` why the result is not sure.
pub fn shutdown_action_result(
    result: Result<RemoteActionKind, String>,
    stored: Result<(), String>,
    uncertain: Option<String>,
) -> (r: Result<(), String>)
    ensures
        error_text(r) == end_of_action(result, stored, uncertain),
        match result {
            Err(error) => r matches Err(text) && text@
                == "remote mutation result requires reconciliation: "@ + error@,
            Ok(kind) => if stored is Err && (kind is Cache || kind is Push || kind is Resolved
                || kind is Merge) {
                r == stored
            } else {
                match uncertain {
                    Some(error) => r matches Err(text) && text@
                        == "remote mutation completion requires reconciliation: "@ + error@,
                    None => r is Ok,
                }
            },
        },
{
    match result {
        Err(error) => Err(
            join2("remote mutation result requires reconciliation: ", error.as_str()),
        ),
        Ok(kind) => {
            if kind.carries_cache() && stored.is_err() {
                return stored;
            }
            match uncertain {
                Some(error) => Err(
                    join2("remote mutation completion requires reconciliation: ", error.as_str()),
                ),
                None => Ok(()),
            }
        },
    }
}

/// The runtime after a change to a remote came in while the dashboard shuts down.
pub open spec fn with_late_result(
    background: RuntimeView,
    id: u64,
    error: Option<Seq<char>>,
    marker: Option<Seq<char>>,
) -> RuntimeView {
    let known = background.contexts.dom().contains(id);
    let marker_error = if known {
        marker
    } else {
        Some("remote mutation is missing its reconciliation target"@)
    };
    let told = match error {
        None => background,
        Some(text) => match marker_error {
            None => RuntimeView { failures: background.failures.insert(id, text), ..background },
            Some(failure) => RuntimeView {
                failures: background.failures.insert(id, text + "; "@ + failure),
                shutdown_errors: background.shutdown_errors.push(failure),
                ..background
            },
        },
    };
    RuntimeView {
        followed: told.followed.remove(id),
        contexts: told.contexts.remove(id),
        ..told
    }
}

/// The error of a result, as a text.
pub open spec fn error_text(result: Result<(), String>) -> Option<Seq<char>> {
    match result {
        Ok(_) => None,
        Err(error) => Some(error@),
    }
}

impl Tui {
    /// Where what a change to a remote brought is stored: with the session that the change
    /// is for.
    pub fn shutdown_cache_target(&self, key: &TuiJobKey) -> (r: Result<usize, String>)
        ensures
            match key@ {
                JobKeyView::Worktree(worktree) => match crate::routing::session_of(
                    self@.nav,
                    self@.nav.sessions.len(),
                    worktree,
                ) {
                    Some(index) => r == Ok::<usize, String>(index),
                    None => r matches Err(error) && error@
                        == "remote mutation worktree no longer exists"@,
                },
                _ => r matches Err(error) && error@ == "remote mutation worktree no longer exists"@,
            },
            r matches Ok(index) ==> index < self@.nav.sessions.len(),
    {
        match self.session_index_for_job_key(key) {
            Some(index) => Ok(index),
            None => Err(owned("remote mutation worktree no longer exists")),
        }
    }

    /// Takes over what is now known of the change request of a session.
    pub fn store_cache(&mut self, index: usize, cache: PrCache)
        ensures
            final(self)@ == (if index < old(self)@.nav.sessions.len() {
                TuiView {
                    nav: NavView {
                        sessions: old(self)@.nav.sessions.update(
                            index as int,
                            Session { pr: cache, ..old(self)@.nav.sessions[index as int] },
                        ),
                        ..old(self)@.nav
                    },
                    ..old(self)@
                }
            } else {
                old(self)@
            }),
    {
        if index < self.navigation.sessions.len() {
            let mut session: Session = self.navigation.sessions.remove(index);
            session.pr = cache;
            self.navigation.sessions.insert(index, session);
            assert(self@.nav.sessions =~= old(self)@.nav.sessions.update(
                index as int,
                Session { pr: cache, ..old(self)@.nav.sessions[index as int] },
            ));
        }
    }

    /// Whether the result of a change to a remote is taken by the end of the dashboard.
    pub fn takes_late_result(&self, id: u64) -> (r: bool)
        ensures
            r == (self@.background.draining && self@.background.followed.contains(id)),
    {
        self.background.is_draining() && self.background.remote_action_is_tracked(id)
    }

    /// The marker that is to be stored for a change to a remote without a sure result; none
    /// can be stored for a change of which too little is known.
    pub fn marker_for_unsure_action(&self, id: u64, error: &str) -> (r: Result<
        MarkerRequest,
        String,
    >)
        ensures
            match r {
                Ok(request) => self@.background.contexts.dom().contains(id) && request.context@
                    == self@.background.contexts[id] && request.error@ == error@,
                Err(text) => !self@.background.contexts.dom().contains(id) && text@
                    == "remote mutation is missing its reconciliation target"@,
            },
    {
        match self.background.remote_context(id) {
            Some(context) => Ok(MarkerRequest { context, error: owned(error) }),
            None => Err(owned("remote mutation is missing its reconciliation target")),
        }
    }

    /// Takes the result of a change to a remote at the end. `marker` says how storing a
    /// marker for a result that is not sure went, and means nothing for a sure one.
    pub fn take_late_result(&mut self, id: u64, result: Result<(), String>, marker: Result<
        (),
        String,
    >)
        ensures
            final(self)@ == (TuiView {
                background: with_late_result(
                    old(self)@.background,
                    id,
                    error_text(result),
                    error_text(marker),
                ),
                ..old(self)@
            }),
    {
        match result {
            Ok(_) => {},
            Err(error) => {
                let failure: Option<String> = match self.background.remote_context(id) {
                    Some(_) => match marker {
                        Ok(_) => None,
                        Err(text) => Some(text),
                    },
                    None => Some(owned("remote mutation is missing its reconciliation target")),
                };
                match failure {
                    None => {
                        self.background.record_remote_failure(id, error);
                    },
                    Some(text) => {
                        let told: String = join3(error.as_str(), "; ", text.as_str());
                        self.background.push_shutdown_error(text);
                        self.background.record_remote_failure(id, told);
                    },
                }
            },
        }
        self.background.finish_remote_action(id);
    }

    /// Takes the result of a change to a remote that had come in before the end began; says
    /// what error the end reports for it.
    pub fn take_routed_result(&mut self, id: u64, result: Result<(), String>, marker: Result<
        (),
        String,
    >) -> (r: Option<String>)
        ensures
            ({
                let before = old(self)@.background;
                if !before.followed.contains(id) {
                    r is None && final(self)@ == old(self)@
                } else if !before.contexts.dom().contains(id) {
                    crate::text::opt_text(r) == Some(
                        "remote mutation "@ + crate::text::decimal_text(id as nat)
                            + " was routed without its reconciliation key"@,
                    ) && final(self)@ == old(self)@
                } else {
                    &&& crate::text::opt_text(r) == (match (
                        error_text(result),
                        error_text(marker),
                    ) {
                        (Some(error), Some(failure)) => Some(error + "; "@ + failure),
                        _ => None,
                    })
                    &&& final(self)@ == (TuiView {
                        background: RuntimeView {
                            followed: before.followed.remove(id),
                            contexts: before.contexts.remove(id),
                            ..before
                        },
                        ..old(self)@
                    })
                }
            }),
    {
        if !self.background.remote_action_is_tracked(id) {
            return None;
        }
        if self.background.remote_context(id).is_none() {
            let number: String = decimal(id);
            return Some(
                join3(
                    "remote mutation ",
                    number.as_str(),
                    " was routed without its reconciliation key",
                ),
            );
        }
        self.background.finish_remote_action(id);
        match result {
            Ok(_) => None,
            Err(error) => match marker {
                Ok(_) => None,
                Err(failure) => Some(join3(error.as_str(), "; ", failure.as_str())),
            },
        }
    }
}

// ---------------------------------------------------------------------------
// The order of the end
// ---------------------------------------------------------------------------

/// What the end of the dashboard does next.
#[derive(Clone, Copy, Debug, PartialEq, Eq, Structural)]
pub enum CleanupStage {
    /// Takes what had already come in.
    Deliveries,
    /// Takes no more work.
    Admission,
    /// Stops the servers that the dashboard owns.
    Servers,
    /// Waits for changes to remotes.
    Mutations,
    /// Stores markers for the changes that are still under way.
    Unfinished,
    /// Waits for all other work.
    Jobs,
    /// Takes what is left.
    Drain,
    /// Reports.
    Report,
    /// Nothing.
    Done,
}

/// What the end of the dashboard is looking at when it goes on.
#[derive(Clone, Copy, Debug, PartialEq, Eq, Structural)]
pub struct CleanupFacts {
    /// For how many milliseconds the stage has lasted.
    pub elapsed_ms: u64,
    /// Whether the registry still has work.
    pub registry_has_jobs: bool,
    /// How many results the stage took the last time.
    pub routed: usize,
}

impl CleanupStage {
    /// The place of a stage among all.
    pub open spec fn rank(self) -> int {
        match self {
            CleanupStage::Deliveries => 0,
            CleanupStage::Admission => 1,
            CleanupStage::Servers => 2,
            CleanupStage::Mutations => 3,
            CleanupStage::Unfinished => 4,
            CleanupStage::Jobs => 5,
            CleanupStage::Drain => 6,
            CleanupStage::Report => 7,
            CleanupStage::Done => 8,
        }
    }
}

/// The stage that follows a stage of the end.
pub open spec fn stage_after(
    stage: CleanupStage,
    background: RuntimeView,
    facts: CleanupFacts,
) -> CleanupStage {
    let mutating = background.followed != Set::<u64>::empty();
    let busy = facts.registry_has_jobs || background.pending.dom() != Set::<
        crate::background::MarkerKeyView,
    >::empty();
    match stage {
        CleanupStage::Deliveries => CleanupStage::Admission,
        CleanupStage::Admission => CleanupStage::Servers,
        CleanupStage::Servers => CleanupStage::Mutations,
        CleanupStage::Mutations => if !mutating {
            CleanupStage::Jobs
        } else if facts.elapsed_ms < TUI_MUTATION_SHUTDOWN_BOUND_MS {
            CleanupStage::Mutations
        } else {
            CleanupStage::Unfinished
        },
        CleanupStage::Unfinished => CleanupStage::Jobs,
        CleanupStage::Jobs => if busy && facts.elapsed_ms < TUI_JOB_SHUTDOWN_GRACE_MS {
            CleanupStage::Jobs
        } else {
            CleanupStage::Drain
        },
        CleanupStage::Drain => if facts.routed > 0 {
            CleanupStage::Drain
        } else {
            CleanupStage::Report
        },
        CleanupStage::Report => CleanupStage::Done,
        CleanupStage::Done => CleanupStage::Done,
    }
}

/// Whether a piece of work is a change to a remote that is followed.
pub open spec fn unfinished_ids(active: Seq<JobMetadata>, followed: Set<u64>) -> Seq<u64>
    decreases active.len(),
{
    if active.len() == 0 {
        Seq::empty()
    } else {
        let before = unfinished_ids(active.drop_last(), followed);
        if followed.contains(active.last().id) {
            before.push(active.last().id)
        } else {
            before
        }
    }
}

/// The errors that the end of the dashboard reports.
pub open spec fn end_errors(
    background: RuntimeView,
    errors: Seq<Seq<char>>,
    unfinished: usize,
) -> Seq<Seq<char>> {
    let unresolved = background.pending.dom().len();
    let with_shutdown = errors + background.shutdown_errors;
    let with_markers = if unresolved > 0 {
        with_shutdown.push(
            "shutdown durability failure: "@ + crate::text::decimal_text(unresolved)
                + " remote mutation marker write(s) remain unacknowledged after 2s"@,
        )
    } else {
        with_shutdown
    };
    if unfinished > 0 {
        with_markers.push(
            "detached "@ + crate::text::decimal_text(unfinished as nat)
                + " uncooperative job(s) after shutdown grace period"@,
        )
    } else {
        with_markers
    }
}

impl Tui {
    /// The stage of the end that follows.
    pub fn next_cleanup_stage(&self, stage: CleanupStage, facts: CleanupFacts) -> (r: CleanupStage)
        ensures
            r == stage_after(stage, self@.background, facts),
    {
        match stage {
            CleanupStage::Deliveries => CleanupStage::Admission,
            CleanupStage::Admission => CleanupStage::Servers,
            CleanupStage::Servers => CleanupStage::Mutations,
            CleanupStage::Mutations => {
                if !self.background.has_tracked_remote_actions() {
                    CleanupStage::Jobs
                } else if facts.elapsed_ms < TUI_MUTATION_SHUTDOWN_BOUND_MS {
                    CleanupStage::Mutations
                } else {
                    CleanupStage::Unfinished
                }
            },
            CleanupStage::Unfinished => CleanupStage::Jobs,
            CleanupStage::Jobs => {
                if self.background.has_jobs(facts.registry_has_jobs) && facts.elapsed_ms
                    < TUI_JOB_SHUTDOWN_GRACE_MS {
                    CleanupStage::Jobs
                } else {
                    CleanupStage::Drain
                }
            },
            CleanupStage::Drain => {
                if facts.routed > 0 {
                    CleanupStage::Drain
                } else {
                    CleanupStage::Report
                }
            },
            CleanupStage::Report => CleanupStage::Done,
            CleanupStage::Done => CleanupStage::Done,
        }
    }

    /// The changes to remotes among the active pieces of work: those that have to be marked
    /// and cancelled once the end has waited long enough.
    pub fn unfinished_mutations(&self, active: &Vec<JobMetadata>) -> (r: Vec<u64>)
        ensures
            r@ == unfinished_ids(active@, self@.background.followed),
    {
        let mut found: Vec<u64> = Vec::new();
        let mut i: usize = 0;
        while i < active.len()
            invariant
                i <= active@.len(),
                found@ == unfinished_ids(active@.take(i as int), self@.background.followed),
            decreases active.len() - i,
        {
            assert(active@.take(i + 1).drop_last() =~= active@.take(i as int));
            if self.background.remote_action_is_tracked(active[i].id) {
                found.push(active[i].id);
            }
            i += 1;
        }
        assert(active@.take(active@.len() as int) =~= active@);
        found
    }

    /// The marker that is to be stored for a change to a remote that outlasted the end.
    pub fn marker_for_overdue_action(&self, id: u64) -> (r: Result<MarkerRequest, String>)
        ensures
            match r {
                Ok(request) => self@.background.contexts.dom().contains(id) && request.context@
                    == self@.background.contexts[id] && request.error@
                    == "remote mutation exceeded the 1800s TUI shutdown bound"@,
                Err(text) => !self@.background.contexts.dom().contains(id) && text@
                    == "remote mutation is missing its reconciliation target"@,
            },
    {
        self.marker_for_unsure_action(id, "remote mutation exceeded the 1800s TUI shutdown bound")
    }

    /// Reports the end: nothing is followed any more, and the errors that came up on the way
    /// are told in one line.
    pub fn finish_cleanup(&mut self, errors: Vec<String>, unfinished: usize) -> (r: Result<
        (),
        String,
    >)
        ensures
            ({
                let all = end_errors(
                    old(self)@.background,
                    crate::text::texts(errors@),
                    unfinished,
                );
                match r {
                    Ok(_) => all.len() == 0,
                    Err(text) => all.len() > 0 && text@ == crate::text::joined(all, "; "@),
                }
            }),
            final(self)@ == (TuiView {
                background: RuntimeView {
                    followed: Set::empty(),
                    contexts: Map::empty(),
                    shutdown_errors: Seq::empty(),
                    ..old(self)@.background
                },
                ..old(self)@
            }),
    {
        let ghost given = crate::text::texts(errors@);
        let mut all: Vec<String> = errors;
        let mut pending: Vec<String> = self.background.take_shutdown_errors();
        let ghost pushed = crate::text::texts(pending@);
        all.append(&mut pending);
        assert(crate::text::texts(all@) =~= given + pushed);
        let unresolved: usize = self.background.unresolved_marker_persistence();
        if unresolved > 0 {
            let number: String = decimal(unresolved as u64);
            let text: String = join3(
                "shutdown durability failure: ",
                number.as_str(),
                " remote mutation marker write(s) remain unacknowledged after 2s",
            );
            let ghost before = crate::text::texts(all@);
            all.push(text);
            assert(crate::text::texts(all@) =~= before.push(text@));
        }
        self.background.abandon_unfinished();
        if unfinished > 0 {
            let number: String = decimal(unfinished as u64);
            let text: String = join3(
                "detached ",
                number.as_str(),
                " uncooperative job(s) after shutdown grace period",
            );
            let ghost before = crate::text::texts(all@);
            all.push(text);
            assert(crate::text::texts(all@) =~= before.push(text@));
        }
        if all.len() == 0 {
            Ok(())
        } else {
            Err(join_with(&all, "; "))
        }
    }
}

/// The end of the dashboard never returns to an earlier stage: in particular it takes what
/// had already come in before it stops taking work, and reports last.
pub proof fn law_end_goes_forward(stage: CleanupStage, background: RuntimeView, facts: CleanupFacts)
    ensures
        stage.rank() <= stage_after(stage, background, facts).rank(),
        stage is Deliveries ==> stage_after(stage, background, facts) is Admission,
{
}

/// No stage of the end waits for ever: a wait is over once its time is up, whatever is still
/// under way.
pub proof fn law_waits_are_bounded(background: RuntimeView, facts: CleanupFacts)
    ensures
        facts.elapsed_ms >= TUI_MUTATION_SHUTDOWN_BOUND_MS ==> !(stage_after(
            CleanupStage::Mutations,
            background,
            facts,
        ) is Mutations),
        facts.elapsed_ms >= TUI_JOB_SHUTDOWN_GRACE_MS ==> !(stage_after(
            CleanupStage::Jobs,
            background,
            facts,
        ) is Jobs),
{
}

/// Changes to remotes that are still under way when the wait is over are marked before
/// anything else is done.
pub proof fn law_overdue_changes_are_marked(background: RuntimeView, facts: CleanupFacts)
    requires
        background.followed != Set::<u64>::empty(),
    ensures
        stage_after(CleanupStage::Mutations, background, facts) is Mutations
            || stage_after(CleanupStage::Mutations, background, facts) is Unfinished,
{
}

/// Unless the loop panicked, a signal is the reason for the end whatever the loop says.
pub proof fn law_signal_is_the_reason(outcome: RunOutcome, signal: ShutdownSignal)
    requires
        !(outcome is Panicked),
    ensures
        end_reason(outcome, Some(signal)) == reason_of(signal),
{
}

} // verus!
