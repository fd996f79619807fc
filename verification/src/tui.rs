//! The dashboard as a whole.
use vstd::prelude::*;

use crate::background_runtime::BackgroundRuntime;
use crate::background_runtime::RuntimeView;
use crate::frame::LeaderHint;
use crate::frame::TmuxPortalSnapshot;
use crate::harness::Harnesses;
use crate::keys::WorktreeView;
use crate::model::ManagedRepo;
use crate::model::Session;
use crate::navigation::NavView;
use crate::navigation::Navigation;
use crate::navigation::WorktreeMainView;
use crate::notices::StatusLine;
use crate::run_book::BookView;
use crate::run_book::RunBook;
use crate::tracker::JobTracker;
use crate::tracker::TrackerView;

verus! {

/// The dashboard: where it stands, what work is under way, what is known of runs, and what
/// the status line says.
pub struct Tui {
    pub navigation: Navigation,
    pub tracker: JobTracker,
    pub background: BackgroundRuntime,
    pub book: RunBook,
    pub status: StatusLine,
    pub leader_hint: Option<LeaderHint>,
    pub portal: Option<TmuxPortalSnapshot>,
    pub harnesses: Harnesses,
    pub worktree_main_view: WorktreeMainView,
}

/// The dashboard, as contracts speak of it.
#[verifier::ext_equal]
pub struct TuiView {
    pub nav: NavView,
    pub tracker: TrackerView,
    pub background: RuntimeView,
    pub book: BookView,
    pub message: Option<Seq<char>>,
    pub message_until_ms: Option<u64>,
    pub leader_hint: Option<LeaderHint>,
    pub portal: Option<TmuxPortalSnapshot>,
    pub harnesses: Map<WorktreeView, Seq<char>>,
    pub worktree_main_view: WorktreeMainView,
}

impl TuiView {
    /// The dashboard with a message on the status line.
    pub open spec fn with_message(self, message: Seq<char>, now_ms: u64) -> TuiView {
        TuiView {
            message: Some(message),
            message_until_ms: Some(crate::notices::until_of(now_ms)),
            ..self
        }
    }

    /// The dashboard with an error and what it came from on the status line.
    pub open spec fn with_error(self, context: Seq<char>, error: Seq<char>, now_ms: u64) -> TuiView {
        self.with_message(context + ": "@ + error, now_ms)
    }
}

impl Tui {
    /// The dashboard as contracts speak of it.
    pub open spec fn view(&self) -> TuiView {
        TuiView {
            nav: self.navigation@,
            tracker: self.tracker@,
            background: self.background@,
            book: self.book@,
            message: crate::text::opt_text(self.status.message),
            message_until_ms: self.status.until_ms,
            leader_hint: self.leader_hint,
            portal: self.portal,
            harnesses: self.harnesses@,
            worktree_main_view: self.worktree_main_view,
        }
    }

    /// A dashboard for some repositories and their worktrees: the repository list has the
    /// focus, nothing is under way, and the selections are valid.
    pub fn new(repos: Vec<ManagedRepo>, current_repo: usize, sessions: Vec<Session>, now_ms: u64) -> (r:
        Self)
        ensures
            r@.nav == crate::navigation::start_view(repos@, current_repo, sessions@),
            r@.tracker == crate::tracker::fresh_tracker(r@.nav),
            r@.background == crate::background_runtime::fresh_runtime(now_ms),
            r@.book == crate::run_book::empty_book(now_ms),
            r@.message is None,
            r@.message_until_ms is None,
            r@.leader_hint is None,
            r@.portal is None,
            r@.harnesses == Map::<WorktreeView, Seq<char>>::empty(),
            r@.worktree_main_view == WorktreeMainView::Details,
    {
        let navigation: Navigation = Navigation::new(repos, current_repo, sessions);
        let tracker: JobTracker = JobTracker::new(&navigation);
        Tui {
            navigation,
            tracker,
            background: BackgroundRuntime::new(now_ms),
            book: RunBook::new(now_ms),
            status: StatusLine::new(),
            leader_hint: None,
            portal: None,
            harnesses: Harnesses::new(),
            worktree_main_view: WorktreeMainView::Details,
        }
    }

    /// Shows a message for a while.
    pub fn show_message(&mut self, message: &str, now_ms: u64)
        ensures
            final(self)@ == old(self)@.with_message(message@, now_ms),
    {
        self.status.show_message(message, now_ms);
    }

    /// Shows an error with what it came from for a while.
    pub fn show_error(&mut self, context: &str, error: &str, now_ms: u64)
        ensures
            final(self)@ == old(self)@.with_error(context@, error@, now_ms),
    {
        self.status.show_error(context, error, now_ms);
    }
}

} // verus!
