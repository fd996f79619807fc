//! What the dashboard takes from runs, what it shows, and how its loop answers events.
use vstd::prelude::*;

use crate::dialog::ChoiceList;
use crate::frame::leader_hint_model;
use crate::frame::repo_pr_rows;
use crate::frame::repo_rows;
use crate::frame::tmux_portal_model;
use crate::frame::worktree_rows;
use crate::frame::LeaderHint;
use crate::frame::Programs;
use crate::frame::RepoPrRow;
use crate::frame::RepoRow;
use crate::frame::TmuxPortalModel;
use crate::frame::WorktreeRow;
use crate::input::DashboardCommand;
use crate::input::KeyEvent;
use crate::input::KeyEventKind;
use crate::input::KeyInput;
use crate::keys::DashboardOutputKey;
use crate::keys::OutputView;
use crate::model::Config;
use crate::model::Session;
use crate::navigation::MouseKind;
use crate::navigation::NavView;
use crate::navigation::PanelFocus;
use crate::navigation::Rect;
use crate::navigation::RepoMainView;
use crate::navigation::SidebarLayout;
use crate::navigation::WorktreeListMode;
use crate::navigation::WorktreeMainView;
use crate::run_book::AutoDashboard;
use crate::run_book::BookView;
use crate::run_book::PlanDashboard;
use crate::run_book::WorkflowPollSnapshot;
use crate::runs::AutoRun;
use crate::runs::PlanRun;
use crate::status::status_rows;
use crate::status::HealthIcons;
use crate::status::StatusRow;
use crate::text::join2;
use crate::text::join_with;
use crate::text::owned;
use crate::tracker::TrackerView;
use crate::tui::Tui;
use crate::tui::TuiView;

verus! {

// ---------------------------------------------------------------------------
// Runs
// ---------------------------------------------------------------------------

/// The revision that follows a revision, within those that fit.
pub open spec fn next_revision(revision: u64) -> u64 {
    if revision == u64::MAX {
        revision
    } else {
        (revision + 1) as u64
    }
}

impl TuiView {
    /// The dashboard with another revision of what is known of runs: what is being read is
    /// out of date.
    pub open spec fn with_new_revision(self) -> TuiView {
        TuiView {
            tracker: TrackerView {
                workflow_revision: next_revision(self.tracker.workflow_revision),
                ..self.tracker
            },
            ..self
        }
    }

    /// The dashboard with other knowledge of runs, of another revision where that is news.
    pub open spec fn with_book(self, book: BookView, news: bool) -> TuiView {
        let taken = TuiView { book, ..self };
        if news {
            taken.with_new_revision()
        } else {
            taken
        }
    }
}

/// Lines of output of a step.
#[derive(Debug)]
pub enum DashboardOutputLines {
    Plan(Vec<String>),
    Auto(Vec<String>),
}

/// What is known of runs after some output came in, where it belongs to the step that it
/// was read for.
pub open spec fn book_with_output(
    book: BookView,
    key: OutputView,
    lines: DashboardOutputLines,
) -> BookView {
    match (key, lines) {
        (OutputView::Plan { run_id, step, .. }, DashboardOutputLines::Plan(lines)) => BookView {
            plan_output: book.plan_output.insert((run_id, step), crate::text::texts(lines@)),
            ..book
        },
        (OutputView::Auto { root, step_run_id }, DashboardOutputLines::Auto(lines)) => BookView {
            auto_output: book.auto_output.insert((root, step_run_id), crate::text::texts(lines@)),
            ..book
        },
        _ => book,
    }
}

/// Whether output that came in is news.
pub open spec fn output_is_new(book: BookView, key: OutputView, lines: DashboardOutputLines) -> bool {
    match (key, lines) {
        (OutputView::Plan { run_id, step, .. }, DashboardOutputLines::Plan(lines)) =>
            crate::run_book::value_at(book.plan_output, (run_id, step)) != Some(
            crate::text::texts(lines@),
        ),
        (OutputView::Auto { root, step_run_id }, DashboardOutputLines::Auto(lines)) =>
            crate::run_book::value_at(book.auto_output, (root, step_run_id)) != Some(
            crate::text::texts(lines@),
        ),
        _ => false,
    }
}

impl Tui {
    /// Takes notice that what is known of runs is out of date.
    pub fn invalidate_workflow_snapshots(&mut self)
        ensures
            final(self)@ == old(self)@.with_new_revision(),
    {
        self.tracker.workflow_revision = self.tracker.workflow_revision.saturating_add(1);
    }

    /// Takes over a run of a plan; says whether it is news.
    pub fn remember_plan_run(&mut self, run: PlanRun) -> (r: bool)
        ensures
            r == old(self)@.book.plan_run_is_new(run@),
            final(self)@ == old(self)@.with_book(old(self)@.book.with_plan_run(run@), r),
    {
        let changed: bool = self.book.remember_plan_run_snapshot(run);
        if changed {
            self.invalidate_workflow_snapshots();
        }
        changed
    }

    /// Takes over a run of automatic work; says whether it is news.
    pub fn remember_auto_run(&mut self, run: AutoRun) -> (r: bool)
        ensures
            r == old(self)@.book.auto_run_is_new(run@),
            final(self)@ == old(self)@.with_book(old(self)@.book.with_auto_run(run@), r),
    {
        let changed: bool = self.book.remember_auto_run_snapshot(run);
        if changed {
            self.invalidate_workflow_snapshots();
        }
        changed
    }

    /// Takes over what a poll of a repository's runs brought, unless something changed since
    /// the poll began; says whether it is news.
    pub fn take_workflow_poll(
        &mut self,
        revision: u64,
        snapshot: Result<WorkflowPollSnapshot, String>,
    ) -> (r: bool)
        ensures
            ({
                let before = old(self)@;
                match snapshot {
                    Ok(brought) => if revision == before.tracker.workflow_revision {
                        r == before.book.poll_is_new(brought) && final(self)@ == (TuiView {
                            book: before.book.with_poll(brought),
                            ..before
                        })
                    } else {
                        !r && final(self)@ == before
                    },
                    Err(_) => !r && final(self)@ == before,
                }
            }),
    {
        self.book.apply_workflow_poll(self.tracker.workflow_revision, revision, snapshot)
    }

    /// Takes over the output of a step, unless something changed since it was read; says
    /// whether it is news.
    pub fn take_dashboard_output(
        &mut self,
        key: &DashboardOutputKey,
        revision: u64,
        lines: Result<DashboardOutputLines, String>,
    ) -> (r: bool)
        ensures
            ({
                let before = old(self)@;
                match lines {
                    Ok(brought) => if revision == before.tracker.workflow_revision {
                        r == output_is_new(before.book, key@, brought) && final(self)@ == (TuiView {
                            book: book_with_output(before.book, key@, brought),
                            ..before
                        })
                    } else {
                        !r && final(self)@ == before
                    },
                    Err(_) => !r && final(self)@ == before,
                }
            }),
    {
        if revision != self.tracker.workflow_revision {
            return false;
        }
        let brought: DashboardOutputLines = match lines {
            Ok(brought) => brought,
            Err(_) => {
                return false;
            },
        };
        match (key, brought) {
            (
                DashboardOutputKey::Plan { run_id, step, .. },
                DashboardOutputLines::Plan(lines),
            ) => self.book.accept_plan_output(run_id.as_str(), *step, lines),
            (
                DashboardOutputKey::Auto { repository, step_run_id },
                DashboardOutputLines::Auto(lines),
            ) => self.book.accept_auto_output(repository.root.as_str(), *step_run_id, lines),
            _ => false,
        }
    }
}

/// What was being read of runs while one became known is not taken over any more.
pub proof fn law_news_of_runs_make_older_reads_void(view: TuiView, book: BookView)
    requires
        view.tracker.workflow_revision < u64::MAX,
    ensures
        view.with_book(book, true).tracker.workflow_revision != view.tracker.workflow_revision,
{
}

// ---------------------------------------------------------------------------
// What is shown
// ---------------------------------------------------------------------------

/// Everything that one picture of the dashboard shows.
pub struct FrameModel<'a> {
    /// The settings of the current repository.
    pub config: &'a Config,
    pub sessions: &'a Vec<Session>,
    pub status: Vec<StatusRow>,
    pub repos: Vec<RepoRow>,
    pub worktrees: Vec<WorktreeRow<'a>>,
    pub repo_prs: Vec<RepoPrRow<'a>>,
    pub current_repo_index: usize,
    pub selected_repo_label: String,
    pub selected_repo_root: String,
    pub selected_session: Option<usize>,
    pub selected_comment: usize,
    pub focus: PanelFocus,
    pub main_focused: bool,
    pub main_scroll: usize,
    pub repo_main_view: RepoMainView,
    pub worktree_main_view: WorktreeMainView,
    pub worktree_list_mode: WorktreeListMode,
    pub mode_label: &'static str,
    pub status_message: Option<String>,
    pub repo_filter: String,
    pub worktree_filter: String,
    pub leader_hint: Option<ChoiceList>,
    pub auto_dashboard: Option<AutoDashboard>,
    pub plan_dashboard: Option<PlanDashboard>,
    pub tmux_portal: Option<TmuxPortalModel>,
}

impl Tui {
    /// Everything that one picture of the dashboard shows. `fallback_root` and
    /// `fallback_config` stand for the repository where there is none.
    pub fn frame_model<'a>(
        &'a self,
        icons: &HealthIcons,
        programs: Programs,
        fallback_root: &str,
        fallback_config: &'a Config,
    ) -> (r: FrameModel<'a>)
        ensures
            *r.config == (if self@.nav.current_repo < self@.nav.repos.len() {
                self@.nav.repos[self@.nav.current_repo as int].config
            } else {
                *fallback_config
            }),
            r.sessions@ == self@.nav.sessions,
            crate::status::status_row_views(r.status@) == crate::status::status_lines(
                self@.nav,
                self@.book,
            ),
            crate::frame::repo_row_views(r.repos@) == crate::frame::repo_rows_of(
                self@.nav,
                *icons,
            ),
            crate::frame::worktree_row_views(r.worktrees@) == crate::frame::worktree_rows_of(
                self@.nav,
                self@.book,
            ),
            crate::frame::request_row_views(r.repo_prs@) == crate::frame::request_rows_of(
                self@.nav,
            ),
            r.current_repo_index == self@.nav.current_repo,
            r.selected_repo_label@ == (if self@.nav.current_repo < self@.nav.repos.len() {
                self@.nav.repos[self@.nav.current_repo as int].label@
            } else {
                "no repo"@
            }),
            r.selected_repo_root@ == (if self@.nav.current_repo < self@.nav.repos.len() {
                self@.nav.repos[self@.nav.current_repo as int].repo.root@
            } else {
                fallback_root@
            }),
            r.selected_session == self@.nav.selected_session(),
            r.selected_comment == self@.nav.selected_comment,
            r.focus == self@.nav.focused_panel,
            r.main_focused == self@.nav.main_focused,
            r.main_scroll == self@.nav.main_scroll,
            r.repo_main_view == self@.nav.repo_main_view,
            r.worktree_main_view == self@.worktree_main_view,
            r.worktree_list_mode == self@.nav.worktree_list_mode,
            r.mode_label@ == "normal"@,
            crate::text::opt_text(r.status_message) == self@.message,
            r.repo_filter@ == self@.nav.repo_filter,
            r.worktree_filter@ == self@.nav.worktree_filter,
            match self@.leader_hint {
                Some(LeaderHint::Root) => r.leader_hint matches Some(list) && list.title@
                    == "Shortcuts"@ && list.options() == crate::frame::root_hints(
                    self@.nav.focused_panel,
                ),
                Some(LeaderHint::Git) => r.leader_hint matches Some(list) && list.title@
                    == "Git Actions"@ && list.options() == crate::frame::git_hints(
                    self@.nav,
                    programs,
                ),
                _ => r.leader_hint is None,
            },
            crate::run_book::auto_dashboard_view(r.auto_dashboard) == self@.book.auto_dashboard(
                self@.nav,
            ),
            crate::run_book::plan_dashboard_view(r.plan_dashboard) == self@.book.plan_dashboard(
                self@.nav,
            ),
            match r.tmux_portal {
                Some(model) => match crate::frame::portal_key(self@.nav, self@.tracker) {
                    Some(key) => model@ == crate::frame::portal_of(
                        key,
                        match self@.portal {
                            Some(snapshot) => snapshot.capture,
                            None => None,
                        },
                    ),
                    None => false,
                },
                None => crate::frame::portal_key(self@.nav, self@.tracker) is None,
            },
    {
        let current: usize = self.navigation.current_repo;
        let (label, root): (String, String) = if current < self.navigation.repos.len() {
            (
                self.navigation.repos[current].label.clone(),
                self.navigation.repos[current].repo.root.clone(),
            )
        } else {
            (owned("no repo"), owned(fallback_root))
        };
        FrameModel {
            config: if current < self.navigation.repos.len() {
                &self.navigation.repos[current].config
            } else {
                fallback_config
            },
            sessions: &self.navigation.sessions,
            status: status_rows(&self.navigation, &self.book),
            repos: repo_rows(&self.navigation, icons),
            worktrees: worktree_rows(&self.navigation, &self.book),
            repo_prs: repo_pr_rows(&self.navigation),
            current_repo_index: current,
            selected_repo_label: label,
            selected_repo_root: root,
            selected_session: self.navigation.selected_worktree_index(),
            selected_comment: self.navigation.selected_comment,
            focus: self.navigation.focused_panel,
            main_focused: self.navigation.main_focused,
            main_scroll: self.navigation.main_scroll,
            repo_main_view: self.navigation.repo_main_view,
            worktree_main_view: self.worktree_main_view,
            worktree_list_mode: self.navigation.worktree_list_mode,
            mode_label: "normal",
            status_message: crate::text::copy_opt(&self.status.message),
            repo_filter: self.navigation.repo_filter.clone(),
            worktree_filter: self.navigation.worktree_filter.clone(),
            leader_hint: leader_hint_model(&self.navigation, self.leader_hint, programs),
            auto_dashboard: self.book.current_auto_dashboard(&self.navigation),
            plan_dashboard: self.book.current_plan_dashboard(&self.navigation),
            tmux_portal: tmux_portal_model(&self.navigation, &self.tracker, &self.portal),
        }
    }
}

// ---------------------------------------------------------------------------
// The loop
// ---------------------------------------------------------------------------

/// What one tick of background work changed.
#[derive(Clone, Copy, Debug, PartialEq, Eq, Structural)]
pub struct TuiBackgroundChanges {
    pub sessions: bool,
    pub tmux: bool,
    pub tmux_portal: bool,
    pub worktree_columns: bool,
    pub worktrunk_hook_logs: bool,
    pub default_branch: bool,
    pub opencode_status: bool,
    pub opencode_events: bool,
    pub workflows: bool,
    pub dashboard_output: bool,
    pub pull_requests: bool,
    pub delete_sessions: bool,
    pub status_message: bool,
}

impl Default for TuiBackgroundChanges {
    fn default() -> (r: Self)
        ensures
            r == (TuiBackgroundChanges {
                sessions: false,
                tmux: false,
                tmux_portal: false,
                worktree_columns: false,
                worktrunk_hook_logs: false,
                default_branch: false,
                opencode_status: false,
                opencode_events: false,
                workflows: false,
                dashboard_output: false,
                pull_requests: false,
                delete_sessions: false,
                status_message: false,
            }),
    {
        TuiBackgroundChanges {
            sessions: false,
            tmux: false,
            tmux_portal: false,
            worktree_columns: false,
            worktrunk_hook_logs: false,
            default_branch: false,
            opencode_status: false,
            opencode_events: false,
            workflows: false,
            dashboard_output: false,
            pull_requests: false,
            delete_sessions: false,
            status_message: false,
        }
    }
}

impl TuiBackgroundChanges {
    /// Whether anything changed, so that the dashboard has to be drawn anew.
    pub fn any(&self) -> (r: bool)
        ensures
            r == !(!self.sessions && !self.tmux && !self.tmux_portal && !self.worktree_columns
                && !self.worktrunk_hook_logs && !self.default_branch && !self.opencode_status
                && !self.opencode_events && !self.workflows && !self.dashboard_output
                && !self.pull_requests && !self.delete_sessions && !self.status_message),
    {
        self.tmux || self.sessions || self.tmux_portal || self.worktree_columns
            || self.worktrunk_hook_logs || self.default_branch || self.opencode_status
            || self.opencode_events || self.workflows || self.dashboard_output
            || self.pull_requests || self.delete_sessions || self.status_message
    }
}

/// What the terminal tells the dashboard.
#[derive(Clone, Copy, Debug)]
pub enum RuntimeEvent {
    Key(KeyEvent),
    Mouse { kind: MouseKind, x: u16, y: u16 },
    Resize,
    FocusGained,
    FocusLost,
}

/// How the loop answers an event.
#[derive(Clone, Copy, Debug, PartialEq, Eq, Structural)]
pub enum LoopAction {
    /// Nothing is to be drawn.
    Ignore,
    /// The dashboard is drawn anew.
    Draw,
    /// Worktrees, default branches and change requests are read anew, and the dashboard is
    /// drawn.
    PollAndDraw,
    /// A command is carried out.
    Run(DashboardCommand),
}

/// How the loop answers an event.
pub open spec fn answer_to(
    nav: NavView,
    keys: crate::input::KeyInputState,
    event: RuntimeEvent,
    area: Rect,
    layout: SidebarLayout,
) -> LoopAction {
    match event {
        RuntimeEvent::Key(key) => if key.kind == KeyEventKind::Press {
            LoopAction::Run(crate::input::command_of(keys, key))
        } else {
            LoopAction::Ignore
        },
        RuntimeEvent::Mouse { kind, x, y } => if nav.takes_mouse(kind, x, y, area, layout) {
            LoopAction::Draw
        } else {
            LoopAction::Ignore
        },
        RuntimeEvent::Resize => LoopAction::Draw,
        RuntimeEvent::FocusGained => LoopAction::PollAndDraw,
        RuntimeEvent::FocusLost => LoopAction::Ignore,
    }
}

/// The dashboard with the list mode that was stored, where one was.
pub open spec fn with_stored_mode(
    view: TuiView,
    loaded: Result<Option<WorktreeListMode>, String>,
    now_ms: u64,
) -> TuiView {
    match loaded {
        Ok(Some(mode)) => TuiView {
            nav: (NavView { worktree_list_mode: mode, ..view.nav }).with_selection_restored(),
            ..view
        },
        Ok(None) => view,
        Err(error) => view.with_message(
            "UI state was not loaded; keeping the current mode: "@ + error@,
            now_ms,
        ),
    }
}

impl Tui {
    /// Answers an event of the terminal.
    pub fn handle_event(
        &mut self,
        event: RuntimeEvent,
        keys: &mut KeyInput,
        area: Rect,
        layout: SidebarLayout,
    ) -> (r: LoopAction)
        ensures
            r == answer_to(old(self)@.nav, old(keys)@, event, area, layout),
            match event {
                RuntimeEvent::Key(key) => {
                    &&& final(self)@ == old(self)@
                    &&& key.kind == KeyEventKind::Press ==> r == LoopAction::Run(
                        crate::input::command_of(old(keys)@, key),
                    ) && final(keys)@ == crate::input::state_after(
                        crate::input::command_of(old(keys)@, key),
                    )
                    &&& key.kind != KeyEventKind::Press ==> r == LoopAction::Ignore && final(keys)@
                        == old(keys)@
                },
                RuntimeEvent::Mouse { kind, x, y } => {
                    &&& final(keys)@ == old(keys)@
                    &&& final(self)@ == (TuiView {
                        nav: old(self)@.nav.with_mouse(kind, x, y, area, layout),
                        ..old(self)@
                    })
                    &&& r == (if old(self)@.nav.takes_mouse(kind, x, y, area, layout) {
                        LoopAction::Draw
                    } else {
                        LoopAction::Ignore
                    })
                },
                RuntimeEvent::Resize => final(self)@ == old(self)@ && final(keys)@ == old(keys)@
                    && r == LoopAction::Draw,
                RuntimeEvent::FocusGained => final(self)@ == old(self)@ && final(keys)@ == old(
                    keys,
                )@ && r == LoopAction::PollAndDraw,
                RuntimeEvent::FocusLost => final(self)@ == old(self)@ && final(keys)@ == old(keys)@
                    && r == LoopAction::Ignore,
            },
    {
        match event {
            RuntimeEvent::Key(key) => match keys.map_event(key) {
                Some(command) => LoopAction::Run(command),
                None => LoopAction::Ignore,
            },
            RuntimeEvent::Mouse { kind, x, y } => {
                if self.navigation.handle_mouse_event(kind, x, y, area, layout) {
                    LoopAction::Draw
                } else {
                    LoopAction::Ignore
                }
            },
            RuntimeEvent::Resize => LoopAction::Draw,
            RuntimeEvent::FocusGained => LoopAction::PollAndDraw,
            RuntimeEvent::FocusLost => LoopAction::Ignore,
        }
    }

    /// Takes over the way in which worktrees were listed in an earlier session.
    pub fn use_persisted_ui_state(
        &mut self,
        loaded: Result<Option<WorktreeListMode>, String>,
        now_ms: u64,
    )
        ensures
            final(self)@ == with_stored_mode(old(self)@, loaded, now_ms),
            final(self)@ == (match loaded {
                Ok(Some(mode)) => TuiView {
                    nav: (NavView {
                        worktree_list_mode: mode,
                        ..old(self)@.nav
                    }).with_selection_restored(),
                    ..old(self)@
                },
                Ok(None) => old(self)@,
                Err(error) => old(self)@.with_message(
                    "UI state was not loaded; keeping the current mode: "@ + error@,
                    now_ms,
                ),
            }),
    {
        match loaded {
            Ok(Some(mode)) => {
                self.navigation.worktree_list_mode = mode;
                self.navigation.restore_selected_worktree_for_repo();
            },
            Ok(None) => {},
            Err(error) => {
                let text: String = join2(
                    "UI state was not loaded; keeping the current mode: ",
                    error.as_str(),
                );
                self.show_message(text.as_str(), now_ms);
            },
        }
    }

    /// Whether the dashboard starts by asking for a repository, as it has none.
    pub fn needs_first_repository(&self) -> (r: bool)
        ensures
            r == (self@.nav.repos.len() == 0),
    {
        self.navigation.repos.len() == 0
    }

    /// Takes notice of how adding the first repository went.
    pub fn first_repository_added(&mut self, result: Result<(), String>, now_ms: u64)
        ensures
            final(self)@ == (match result {
                Ok(_) => old(self)@,
                Err(error) => old(self)@.with_error("add repository failed"@, error@, now_ms),
            }),
    {
        match result {
            Ok(_) => {},
            Err(error) => {
                self.show_error("add repository failed", error.as_str(), now_ms);
            },
        }
    }

    /// Shows what restarting interrupted work warned of, where it warned of anything.
    pub fn show_recovery_warnings(&mut self, warnings: &Vec<String>, now_ms: u64)
        ensures
            final(self)@ == (if warnings@.len() == 0 {
                old(self)@
            } else {
                old(self)@.with_message(
                    crate::text::joined(crate::text::texts(warnings@), "; "@),
                    now_ms,
                )
            }),
    {
        if warnings.len() > 0 {
            let text: String = join_with(warnings, "; ");
            self.show_message(text.as_str(), now_ms);
        }
    }

    /// Takes the message on the status line away once it was shown long enough; says
    /// whether it did.
    pub fn expire_status_message(&mut self, now_ms: u64) -> (r: bool)
        ensures
            r == (old(self)@.message_until_ms matches Some(until) && now_ms >= until),
            final(self)@ == (if r {
                TuiView { message: None, message_until_ms: None, ..old(self)@ }
            } else {
                old(self)@
            }),
    {
        self.status.expire_status_message(now_ms)
    }
}

/// Every command other than those that go on with a key sequence takes the hint away.
pub proof fn law_hint_goes_with_the_next_command(
    hint: Option<LeaderHint>,
    command: DashboardCommand,
)
    requires
        !crate::commands::keeps_sequence(command),
    ensures
        crate::commands::hint_after(hint, command) is None,
{
}

} // verus!
