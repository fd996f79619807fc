//! What the commands of the dashboard do: what they change at once, what they refuse, and
//! the work that they ask for.
use vstd::prelude::*;

use crate::frame::LeaderHint;
use crate::frame::Programs;
use crate::git_actions::git_action_enabled;
use crate::git_actions::selected_repo_list_support;
use crate::git_actions::GitAction;
use crate::input::DashboardCommand;
use crate::model::SupportLevel;
use crate::navigation::NavView;
use crate::navigation::OpenTmuxSessionTarget;
use crate::navigation::PanelFocus;
use crate::navigation::Step;
use crate::navigation::WorktreeListMode;
use crate::run_book::BookView;
use crate::text::owned;
use crate::tui::Tui;
use crate::tui::TuiView;

verus! {

/// What is kept from one command to the next.
#[derive(Clone, Copy, Debug, PartialEq, Eq, Structural)]
pub struct CommandState {
    /// Whether the first key of the sequence that leads to the top has been pressed.
    pub pending_g: bool,
}

/// Work that a command asks for.
#[derive(Clone, Copy, Debug, PartialEq, Eq, Structural)]
pub enum Task {
    SelectWorkflow(Step),
    SaveListMode(WorktreeListMode),
    /// Let the shown workflow take the key, if it wants it.
    WorkflowEnter,
    /// Show a comment of a session's change request.
    ShowComment(usize, usize),
    EnterAgent(usize),
    EnterSelectedAgent,
    OpenRepoPr,
    OpenPlanPhase,
    LaunchWorkflow,
    CreateAiWorkflow,
    ToggleWorkflow,
    RetryWorkflow,
    CancelWorkflow,
    Configure,
    RepoLazyGit,
    WorktreeLazyGit,
    OpenPr,
    OpenDevelopmentUrl,
    ShowHookLogs,
    SubmitReview,
    RepoTerminal,
    WorktreeTerminal,
    ShowHelp,
    ReorderRepositories,
    RefreshSessions,
    SetVisibility(usize, i16),
    Push,
    MergeRequest,
    Repair(GitAction),
    ResolveComments,
    PullDefault,
    CreateSession,
    MigrateHarness(usize),
    AbortAgent,
    OpenRemotePr,
    Archive,
    Unarchive,
    DeleteSession,
    Search,
}

/// What follows a command.
#[derive(Clone, Copy, Debug, PartialEq, Eq, Structural)]
pub enum CommandOutcome {
    Continue,
    Quit,
    Perform(Task),
}

/// Whether a command leaves the hint and the begun key sequence alone.
pub open spec fn keeps_sequence(command: DashboardCommand) -> bool {
    command is Leader || command is LeaderGit || command is LeaderWorkflow
        || command is WorkflowPauseResume || command is WorkflowRetry || command is MigrateHarness
}

/// The hint after a command.
pub open spec fn hint_after(hint: Option<LeaderHint>, command: DashboardCommand) -> Option<
    LeaderHint,
> {
    match command {
        DashboardCommand::Leader => Some(LeaderHint::Root),
        DashboardCommand::LeaderGit => Some(LeaderHint::Git),
        DashboardCommand::LeaderWorkflow => Some(LeaderHint::Workflow),
        _ => if keeps_sequence(command) {
            hint
        } else {
            None
        },
    }
}

/// Whether a key sequence is begun after a command.
pub open spec fn pending_after(pending: bool, command: DashboardCommand) -> bool {
    if keeps_sequence(command) {
        pending
    } else {
        command is G && !pending
    }
}

/// Where the dashboard stands after a command.
pub open spec fn nav_after(nav: NavView, command: DashboardCommand, pending: bool) -> NavView {
    match command {
        DashboardCommand::Down => nav.with_move(Step::Next),
        DashboardCommand::Up => nav.with_move(Step::Previous),
        DashboardCommand::Left => nav.with_main_view(
            crate::navigation::RepoMainView::ChangeRequests,
        ),
        DashboardCommand::Right => nav.with_main_view(crate::navigation::RepoMainView::Kanban),
        DashboardCommand::FocusNext => nav.with_panel(
            crate::navigation::panel_after(nav.focused_panel),
        ),
        DashboardCommand::FocusPrevious => nav.with_panel(
            crate::navigation::panel_before(nav.focused_panel),
        ),
        DashboardCommand::FocusMain => (NavView { main_focused: true, ..nav }).with_request(),
        DashboardCommand::FocusStatus => nav.with_panel(PanelFocus::Status),
        DashboardCommand::FocusRepos => nav.with_panel(PanelFocus::Repos),
        DashboardCommand::FocusWorktrees => nav.with_session_panel(PanelFocus::Worktrees),
        DashboardCommand::FocusMerges => nav.with_session_panel(PanelFocus::Merges),
        DashboardCommand::Bottom => nav.with_end(true),
        DashboardCommand::G => if pending {
            nav.with_end(false)
        } else {
            nav
        },
        DashboardCommand::PreviousView => nav.with_mode(WorktreeListMode::Global),
        DashboardCommand::NextView => nav.with_mode(WorktreeListMode::Repo),
        DashboardCommand::RepoShortcut(key) => nav.with_repo_key(key),
        _ => nav,
    }
}

/// Whether a move in the main panel is left to the steps of a plan.
pub open spec fn moves_steps(nav: NavView) -> bool {
    nav.main_focused && !nav.moves_requests() && !nav.moves_comments()
}

/// What is known of runs after a command.
pub open spec fn book_after(
    book: BookView,
    nav: NavView,
    command: DashboardCommand,
    pending: bool,
) -> BookView {
    let moved = nav_after(nav, command, pending);
    match command {
        DashboardCommand::Down => if moves_steps(nav) {
            book.with_step_moved(moved, 1)
        } else {
            book
        },
        DashboardCommand::Up => if moves_steps(nav) {
            book.with_step_moved(moved, -1)
        } else {
            book
        },
        _ => book,
    }
}

/// Why a command is refused, where it is.
pub open spec fn refusal(nav: NavView, deleting: bool, command: DashboardCommand) -> Option<
    Seq<char>,
> {
    match command {
        DashboardCommand::Quit => if deleting {
            Some("delete in progress; wait for it to finish before quitting"@)
        } else {
            None
        },
        DashboardCommand::Terminal => if nav.focused_panel is Status {
            Some("focus repos or worktrees to open a terminal"@)
        } else {
            None
        },
        DashboardCommand::VisibilityUp => visibility_refusal(nav),
        DashboardCommand::VisibilityDown => visibility_refusal(nav),
        DashboardCommand::RepoShortcut(key) => if crate::navigation::repo_with_key(
            nav.repos,
            nav.repos.len(),
            key,
        ) is Some {
            None
        } else {
            Some("no repository is bound to "@ + seq![key])
        },
        DashboardCommand::PullDefault => if nav.focused_panel is Repos {
            None
        } else {
            Some("focus repos to pull the default branch"@)
        },
        DashboardCommand::Create => if nav.focused_panel is Repos {
            None
        } else {
            Some("focus repos to create a worktree session"@)
        },
        DashboardCommand::MigrateHarness => if nav.in_session_panel() {
            None
        } else {
            Some("focus worktrees or merges to migrate an agent harness"@)
        },
        DashboardCommand::OpenRemotePrs => if !(nav.focused_panel is Repos) {
            Some("focus repos to open a remote PR worktree"@)
        } else if crate::git_actions::list_support(nav) != Some(SupportLevel::Supported) {
            Some("remote PR listing is unavailable for this provider"@)
        } else {
            None
        },
        DashboardCommand::Delete => if nav.focused_panel is Status {
            Some("focus worktrees to delete a worktree/session"@)
        } else if nav.focused_panel is Repos {
            Some("repository removal is available from r"@)
        } else {
            None
        },
        DashboardCommand::Unarchive => if nav.focused_panel is Repos {
            None
        } else {
            Some("focus repos to unarchive a worktree"@)
        },
        DashboardCommand::DeletePermanent => if nav.in_session_panel() {
            None
        } else {
            Some("focus worktrees or merges to permanently delete a worktree/session"@)
        },
        DashboardCommand::Search => if nav.focused_panel is Status {
            Some("status panel has no filter"@)
        } else {
            None
        },
        _ => None,
    }
}

/// Why a change of visibility is refused, where it is.
pub open spec fn visibility_refusal(nav: NavView) -> Option<Seq<char>> {
    if nav.in_session_panel() {
        None
    } else {
        Some("focus worktrees or merges to change visibility"@)
    }
}

/// The work of a change of visibility.
pub open spec fn visibility_task(nav: NavView, delta: i16) -> Option<Task> {
    match nav.selected_context() {
        Some(index) => Some(
            Task::SetVisibility(
                index,
                crate::navigation::adjusted(
                    nav.sessions[index as int].visibility,
                    delta,
                ) as i16,
            ),
        ),
        None => None,
    }
}

/// The work of an action, where the action is on offer.
pub open spec fn action_task(nav: NavView, action: GitAction, program: bool, task: Task) -> Option<
    Task,
> {
    if crate::git_actions::action_is_on(nav, action, program) {
        Some(task)
    } else {
        None
    }
}

/// The work that a command asks for, where it is not refused.
pub open spec fn task_for(nav: NavView, programs: Programs, command: DashboardCommand) -> Option<
    Task,
> {
    match command {
        DashboardCommand::PreviousBlock => Some(Task::SelectWorkflow(Step::Previous)),
        DashboardCommand::NextBlock => Some(Task::SelectWorkflow(Step::Next)),
        DashboardCommand::PreviousView => if nav.changes_mode(WorktreeListMode::Global) {
            Some(Task::SaveListMode(WorktreeListMode::Global))
        } else {
            None
        },
        DashboardCommand::NextView => if nav.changes_mode(WorktreeListMode::Repo) {
            Some(Task::SaveListMode(WorktreeListMode::Repo))
        } else {
            None
        },
        DashboardCommand::OpenTmuxSession => Some(Task::WorkflowEnter),
        DashboardCommand::WorkflowLauncher => Some(Task::LaunchWorkflow),
        DashboardCommand::WorkflowAi => Some(Task::CreateAiWorkflow),
        DashboardCommand::WorkflowPauseResume => Some(Task::ToggleWorkflow),
        DashboardCommand::WorkflowRetry => Some(Task::RetryWorkflow),
        DashboardCommand::Configuration => Some(Task::Configure),
        DashboardCommand::LazyGit => action_task(
            nav,
            GitAction::LazyGit,
            programs.lazygit,
            if nav.focused_panel is Repos {
                Task::RepoLazyGit
            } else {
                Task::WorktreeLazyGit
            },
        ),
        DashboardCommand::OpenPr => action_task(nav, GitAction::OpenPr, false, Task::OpenPr),
        DashboardCommand::OpenDevelopmentUrl => Some(Task::OpenDevelopmentUrl),
        DashboardCommand::WorktrunkLogs => Some(Task::ShowHookLogs),
        DashboardCommand::SubmitReview => action_task(
            nav,
            GitAction::SubmitReview,
            programs.gh,
            Task::SubmitReview,
        ),
        DashboardCommand::Terminal => Some(
            if nav.focused_panel is Repos {
                Task::RepoTerminal
            } else {
                Task::WorktreeTerminal
            },
        ),
        DashboardCommand::Help => Some(Task::ShowHelp),
        DashboardCommand::Refresh => Some(
            if nav.focused_panel is Repos && !nav.main_focused {
                Task::ReorderRepositories
            } else {
                Task::RefreshSessions
            },
        ),
        DashboardCommand::VisibilityUp => visibility_task(nav, 1),
        DashboardCommand::VisibilityDown => visibility_task(nav, (-1) as i16),
        DashboardCommand::Push => action_task(nav, GitAction::Push, false, Task::Push),
        DashboardCommand::Merge => action_task(nav, GitAction::Merge, false, Task::MergeRequest),
        DashboardCommand::CiFix => action_task(
            nav,
            GitAction::CiFix,
            false,
            Task::Repair(GitAction::CiFix),
        ),
        DashboardCommand::ReviewFix => action_task(
            nav,
            GitAction::ReviewFix,
            false,
            Task::Repair(GitAction::ReviewFix),
        ),
        DashboardCommand::ResolveAllComments => action_task(
            nav,
            GitAction::ResolveAllComments,
            false,
            Task::ResolveComments,
        ),
        DashboardCommand::PullDefault => Some(Task::PullDefault),
        DashboardCommand::Create => Some(Task::CreateSession),
        DashboardCommand::MigrateHarness => match nav.selected_session() {
            Some(index) => Some(Task::MigrateHarness(index)),
            None => None,
        },
        DashboardCommand::AbortOpencode => Some(Task::CancelWorkflow),
        DashboardCommand::OpenRemotePrs => Some(Task::OpenRemotePr),
        DashboardCommand::Delete => Some(Task::Archive),
        DashboardCommand::Unarchive => Some(Task::Unarchive),
        DashboardCommand::DeletePermanent => Some(Task::DeleteSession),
        DashboardCommand::Search => Some(Task::Search),
        _ => None,
    }
}

/// Whether worktrees are being deleted.
pub open spec fn is_deleting(view: TuiView) -> bool {
    view.tracker.delete_sessions_in_flight != Set::<crate::keys::GenerationView>::empty()
}

/// The dashboard after a command.
pub open spec fn after_command(
    view: TuiView,
    command: DashboardCommand,
    pending: bool,
    now_ms: u64,
) -> TuiView {
    let moved = TuiView {
        nav: nav_after(view.nav, command, pending),
        book: book_after(view.book, view.nav, command, pending),
        leader_hint: hint_after(view.leader_hint, command),
        ..view
    };
    match refusal(view.nav, is_deleting(view), command) {
        Some(message) => moved.with_message(message, now_ms),
        None => moved,
    }
}

/// What follows a command.
pub open spec fn outcome_of(view: TuiView, programs: Programs, command: DashboardCommand) -> CommandOutcome {
    if refusal(view.nav, is_deleting(view), command) is Some {
        CommandOutcome::Continue
    } else if command is Quit {
        CommandOutcome::Quit
    } else {
        match task_for(view.nav, programs, command) {
            Some(task) => CommandOutcome::Perform(task),
            None => CommandOutcome::Continue,
        }
    }
}

/// The dashboard after it was asked to quit.
pub open spec fn after_quit(view: TuiView, now_ms: u64) -> TuiView {
    if is_deleting(view) {
        view.with_message("delete in progress; wait for it to finish before quitting"@, now_ms)
    } else {
        view
    }
}

impl Tui {
    /// Whether the dashboard can be left now: not while worktrees are being deleted. Where
    /// it cannot, the status line says so.
    pub fn confirm_quit(&mut self, now_ms: u64) -> (r: bool)
        ensures
            final(self)@ == after_quit(old(self)@, now_ms),
            r == !is_deleting(old(self)@),
            final(self)@ == (if r {
                old(self)@
            } else {
                old(self)@.with_message(
                    "delete in progress; wait for it to finish before quitting"@,
                    now_ms,
                )
            }),
    {
        if self.tracker.delete_sessions_in_flight.is_empty() {
            return true;
        }
        self.show_message("delete in progress; wait for it to finish before quitting", now_ms);
        false
    }

    fn command_refusal(&self, command: DashboardCommand) -> (r: Option<String>)
        ensures
            crate::text::opt_text(r) == refusal(self@.nav, is_deleting(self@), command),
    {
        let panel: PanelFocus = self.navigation.focused_panel;
        let in_session_panel: bool = self.navigation.is_worktree_session_panel();
        let message: &str = match command {
            DashboardCommand::Quit => {
                if self.tracker.delete_sessions_in_flight.is_empty() {
                    return None;
                }
                "delete in progress; wait for it to finish before quitting"
            },
            DashboardCommand::Terminal => {
                if panel != PanelFocus::Status {
                    return None;
                }
                "focus repos or worktrees to open a terminal"
            },
            DashboardCommand::VisibilityUp | DashboardCommand::VisibilityDown => {
                if in_session_panel {
                    return None;
                }
                "focus worktrees or merges to change visibility"
            },
            DashboardCommand::RepoShortcut(key) => {
                let mut found: bool = false;
                let mut i: usize = 0;
                while i < self.navigation.repos.len()
                    invariant
                        i <= self.navigation.repos.len(),
                        found == (crate::navigation::repo_with_key(
                            self.navigation@.repos,
                            i as nat,
                            key,
                        ) is Some),
                    decreases self.navigation.repos.len() - i,
                {
                    if self.navigation.repos[i].key == Some(key) {
                        found = true;
                    }
                    i += 1;
                }
                if found {
                    return None;
                }
                let mut text: String = owned("no repository is bound to ");
                text.push(key);
                assert(text@ =~= "no repository is bound to "@ + seq![key]);
                return Some(text);
            },
            DashboardCommand::PullDefault => {
                if panel == PanelFocus::Repos {
                    return None;
                }
                "focus repos to pull the default branch"
            },
            DashboardCommand::Create => {
                if panel == PanelFocus::Repos {
                    return None;
                }
                "focus repos to create a worktree session"
            },
            DashboardCommand::MigrateHarness => {
                if in_session_panel {
                    return None;
                }
                "focus worktrees or merges to migrate an agent harness"
            },
            DashboardCommand::OpenRemotePrs => {
                if panel != PanelFocus::Repos {
                    "focus repos to open a remote PR worktree"
                } else {
                    match selected_repo_list_support(&self.navigation) {
                        Some(SupportLevel::Supported) => {
                            return None;
                        },
                        _ => "remote PR listing is unavailable for this provider",
                    }
                }
            },
            DashboardCommand::Delete => {
                if panel == PanelFocus::Status {
                    "focus worktrees to delete a worktree/session"
                } else if panel == PanelFocus::Repos {
                    "repository removal is available from r"
                } else {
                    return None;
                }
            },
            DashboardCommand::Unarchive => {
                if panel == PanelFocus::Repos {
                    return None;
                }
                "focus repos to unarchive a worktree"
            },
            DashboardCommand::DeletePermanent => {
                if in_session_panel {
                    return None;
                }
                "focus worktrees or merges to permanently delete a worktree/session"
            },
            DashboardCommand::Search => {
                if panel != PanelFocus::Status {
                    return None;
                }
                "status panel has no filter"
            },
            _ => {
                return None;
            },
        };
        Some(owned(message))
    }

    fn offered(&self, action: GitAction, program: bool, task: Task) -> (r: Option<Task>)
        ensures
            r == action_task(self@.nav, action, program, task),
    {
        if git_action_enabled(&self.navigation, action, program) {
            Some(task)
        } else {
            None
        }
    }

    fn visibility_change(&self, delta: i16) -> (r: Option<Task>)
        ensures
            r == visibility_task(self@.nav, delta),
    {
        match self.navigation.adjust_selected_visibility(delta) {
            Some((index, visibility)) => Some(Task::SetVisibility(index, visibility)),
            None => None,
        }
    }

    fn mode_change(&self, mode: WorktreeListMode) -> (r: Option<Task>)
        ensures
            r == (if self@.nav.changes_mode(mode) {
                Some(Task::SaveListMode(mode))
            } else {
                None
            }),
    {
        if self.navigation.is_worktree_session_panel() && self.navigation.worktree_list_mode
            != mode {
            Some(Task::SaveListMode(mode))
        } else {
            None
        }
    }

    fn command_task(&self, programs: Programs, command: DashboardCommand) -> (r: Option<Task>)
        ensures
            r == task_for(self@.nav, programs, command),
    {
        let panel: PanelFocus = self.navigation.focused_panel;
        match command {
            DashboardCommand::PreviousBlock => Some(Task::SelectWorkflow(Step::Previous)),
            DashboardCommand::NextBlock => Some(Task::SelectWorkflow(Step::Next)),
            DashboardCommand::PreviousView => self.mode_change(WorktreeListMode::Global),
            DashboardCommand::NextView => self.mode_change(WorktreeListMode::Repo),
            DashboardCommand::OpenTmuxSession => Some(Task::WorkflowEnter),
            DashboardCommand::WorkflowLauncher => Some(Task::LaunchWorkflow),
            DashboardCommand::WorkflowAi => Some(Task::CreateAiWorkflow),
            DashboardCommand::WorkflowPauseResume => Some(Task::ToggleWorkflow),
            DashboardCommand::WorkflowRetry => Some(Task::RetryWorkflow),
            DashboardCommand::Configuration => Some(Task::Configure),
            DashboardCommand::LazyGit => {
                let task: Task = if panel == PanelFocus::Repos {
                    Task::RepoLazyGit
                } else {
                    Task::WorktreeLazyGit
                };
                self.offered(GitAction::LazyGit, programs.lazygit, task)
            },
            DashboardCommand::OpenPr => self.offered(GitAction::OpenPr, false, Task::OpenPr),
            DashboardCommand::OpenDevelopmentUrl => Some(Task::OpenDevelopmentUrl),
            DashboardCommand::WorktrunkLogs => Some(Task::ShowHookLogs),
            DashboardCommand::SubmitReview => self.offered(
                GitAction::SubmitReview,
                programs.gh,
                Task::SubmitReview,
            ),
            DashboardCommand::Terminal => {
                if panel == PanelFocus::Repos {
                    Some(Task::RepoTerminal)
                } else {
                    Some(Task::WorktreeTerminal)
                }
            },
            DashboardCommand::Help => Some(Task::ShowHelp),
            DashboardCommand::Refresh => {
                if panel == PanelFocus::Repos && !self.navigation.main_focused {
                    Some(Task::ReorderRepositories)
                } else {
                    Some(Task::RefreshSessions)
                }
            },
            DashboardCommand::VisibilityUp => self.visibility_change(1),
            DashboardCommand::VisibilityDown => self.visibility_change(-1),
            DashboardCommand::Push => self.offered(GitAction::Push, false, Task::Push),
            DashboardCommand::Merge => self.offered(GitAction::Merge, false, Task::MergeRequest),
            DashboardCommand::CiFix => self.offered(
                GitAction::CiFix,
                false,
                Task::Repair(GitAction::CiFix),
            ),
            DashboardCommand::ReviewFix => self.offered(
                GitAction::ReviewFix,
                false,
                Task::Repair(GitAction::ReviewFix),
            ),
            DashboardCommand::ResolveAllComments => self.offered(
                GitAction::ResolveAllComments,
                false,
                Task::ResolveComments,
            ),
            DashboardCommand::PullDefault => Some(Task::PullDefault),
            DashboardCommand::Create => Some(Task::CreateSession),
            DashboardCommand::MigrateHarness => match self.navigation.selected_worktree_index() {
                Some(index) => Some(Task::MigrateHarness(index)),
                None => None,
            },
            DashboardCommand::AbortOpencode => Some(Task::CancelWorkflow),
            DashboardCommand::OpenRemotePrs => Some(Task::OpenRemotePr),
            DashboardCommand::Delete => Some(Task::Archive),
            DashboardCommand::Unarchive => Some(Task::Unarchive),
            DashboardCommand::DeletePermanent => Some(Task::DeleteSession),
            DashboardCommand::Search => Some(Task::Search),
            _ => None,
        }
    }

    /// Moves down in the focused list or in the main panel, there in the steps of a plan
    /// where nothing else takes the move.
    pub fn move_down(&mut self)
        ensures
            final(self)@ == (TuiView {
                nav: nav_after(old(self)@.nav, DashboardCommand::Down, false),
                book: book_after(
                    old(self)@.book,
                    old(self)@.nav,
                    DashboardCommand::Down,
                    false,
                ),
                ..old(self)@
            }),
    {
        if self.navigation.move_down() {
            let _ = self.book.move_plan_step_selection(&self.navigation, 1);
        }
    }

    /// Moves up in the focused list or in the main panel, there in the steps of a plan
    /// where nothing else takes the move.
    pub fn move_up(&mut self)
        ensures
            final(self)@ == (TuiView {
                nav: nav_after(old(self)@.nav, DashboardCommand::Up, false),
                book: book_after(old(self)@.book, old(self)@.nav, DashboardCommand::Up, false),
                ..old(self)@
            }),
    {
        if self.navigation.move_up() {
            let _ = self.book.move_plan_step_selection(&self.navigation, -1);
        }
    }

    fn apply_move(&mut self, command: DashboardCommand, pending: bool)
        ensures
            final(self)@ == (TuiView {
                nav: nav_after(old(self)@.nav, command, pending),
                book: book_after(old(self)@.book, old(self)@.nav, command, pending),
                ..old(self)@
            }),
    {
        match command {
            DashboardCommand::Down => {
                self.move_down();
            },
            DashboardCommand::Up => {
                self.move_up();
            },
            DashboardCommand::Left => {
                self.navigation.move_left();
            },
            DashboardCommand::Right => {
                self.navigation.move_right();
            },
            DashboardCommand::FocusNext => {
                self.navigation.focus_next_panel();
            },
            DashboardCommand::FocusPrevious => {
                self.navigation.focus_previous_panel();
            },
            DashboardCommand::FocusMain => {
                self.navigation.focus_main();
            },
            DashboardCommand::FocusStatus => {
                self.navigation.focus_status();
            },
            DashboardCommand::FocusRepos => {
                self.navigation.focus_repos();
            },
            DashboardCommand::FocusWorktrees => {
                self.navigation.focus_worktrees();
            },
            DashboardCommand::FocusMerges => {
                self.navigation.focus_merges();
            },
            DashboardCommand::Bottom => {
                self.navigation.select_bottom_visible();
            },
            DashboardCommand::G => {
                if pending {
                    self.navigation.select_top_visible();
                }
            },
            DashboardCommand::PreviousView => {
                let _ = self.navigation.switch_worktree_list_mode(WorktreeListMode::Global);
            },
            DashboardCommand::NextView => {
                let _ = self.navigation.switch_worktree_list_mode(WorktreeListMode::Repo);
            },
            DashboardCommand::RepoShortcut(key) => {
                let _ = self.navigation.select_repo_by_key(key);
            },
            _ => {},
        }
    }

    /// Carries out a command as far as the dashboard itself is concerned; says what work is
    /// left to be done.
    pub fn dispatch_command(
        &mut self,
        command: DashboardCommand,
        state: &mut CommandState,
        programs: Programs,
        now_ms: u64,
    ) -> (r: CommandOutcome)
        ensures
            final(self)@ == after_command(old(self)@, command, old(state).pending_g, now_ms),
            final(state).pending_g == pending_after(old(state).pending_g, command),
            r == outcome_of(old(self)@, programs, command),
    {
        let pending: bool = state.pending_g;
        let refused: Option<String> = self.command_refusal(command);
        let task: Option<Task> = self.command_task(programs, command);
        self.apply_move(command, pending);
        match command {
            DashboardCommand::Leader => {
                self.leader_hint = Some(LeaderHint::Root);
            },
            DashboardCommand::LeaderGit => {
                self.leader_hint = Some(LeaderHint::Git);
            },
            DashboardCommand::LeaderWorkflow => {
                self.leader_hint = Some(LeaderHint::Workflow);
            },
            DashboardCommand::WorkflowPauseResume
            | DashboardCommand::WorkflowRetry
            | DashboardCommand::MigrateHarness => {},
            DashboardCommand::G => {
                self.leader_hint = None;
                state.pending_g = !pending;
            },
            _ => {
                self.leader_hint = None;
                state.pending_g = false;
            },
        }
        match refused {
            Some(message) => {
                self.show_message(message.as_str(), now_ms);
                CommandOutcome::Continue
            },
            None => {
                if matches!(command, DashboardCommand::Quit) {
                    return CommandOutcome::Quit;
                }
                match task {
                    Some(task) => CommandOutcome::Perform(task),
                    None => CommandOutcome::Continue,
                }
            },
        }
    }
}

/// What an error of some work is shown under. The error of other work ends the dashboard.
pub open spec fn error_title(task: Task) -> Option<Seq<char>> {
    match task {
        Task::OpenPlanPhase => Some("plan phase tmux failed"@),
        Task::LaunchWorkflow => Some("workflow launcher failed"@),
        Task::CreateAiWorkflow => Some("AI Workflow creation failed"@),
        Task::ToggleWorkflow => Some("Workflow control failed"@),
        Task::RetryWorkflow => Some("Workflow retry failed"@),
        Task::CancelWorkflow => Some("Workflow control failed"@),
        Task::Configure => Some("configuration failed"@),
        Task::RepoLazyGit => Some("repository lazygit failed"@),
        Task::WorktreeLazyGit => Some("lazygit failed"@),
        Task::OpenPr => Some("open PR failed"@),
        Task::OpenDevelopmentUrl => Some("open development URL failed"@),
        Task::ShowHookLogs => Some("Worktrunk hook logs failed"@),
        Task::SubmitReview => Some("submit review failed"@),
        Task::RepoTerminal => Some("repository terminal failed"@),
        Task::WorktreeTerminal => Some("terminal failed"@),
        Task::ReorderRepositories => Some("reorder repositories failed"@),
        Task::SetVisibility(_, _) => Some("visibility update failed"@),
        Task::Push => Some("push failed"@),
        Task::MergeRequest => Some("merge failed"@),
        Task::Repair(action) => Some(
            if action is CiFix {
                "CI failure prompt failed"@
            } else {
                "review fix failed"@
            },
        ),
        Task::ResolveComments => Some("resolve review comments failed"@),
        Task::PullDefault => Some("pull failed"@),
        Task::CreateSession => Some("create session failed"@),
        Task::AbortAgent => Some("abort failed"@),
        Task::OpenRemotePr => Some("open remote PR worktree failed"@),
        Task::Archive => Some("archive failed"@),
        Task::Unarchive => Some("unarchive failed"@),
        Task::DeleteSession => Some("delete failed"@),
        _ => None,
    }
}

fn task_error_title(task: Task) -> (r: Option<&'static str>)
    ensures
        match r {
            Some(title) => error_title(task) == Some(title@),
            None => error_title(task) is None,
        },
{
    match task {
        Task::OpenPlanPhase => Some("plan phase tmux failed"),
        Task::LaunchWorkflow => Some("workflow launcher failed"),
        Task::CreateAiWorkflow => Some("AI Workflow creation failed"),
        Task::ToggleWorkflow => Some("Workflow control failed"),
        Task::RetryWorkflow => Some("Workflow retry failed"),
        Task::CancelWorkflow => Some("Workflow control failed"),
        Task::Configure => Some("configuration failed"),
        Task::RepoLazyGit => Some("repository lazygit failed"),
        Task::WorktreeLazyGit => Some("lazygit failed"),
        Task::OpenPr => Some("open PR failed"),
        Task::OpenDevelopmentUrl => Some("open development URL failed"),
        Task::ShowHookLogs => Some("Worktrunk hook logs failed"),
        Task::SubmitReview => Some("submit review failed"),
        Task::RepoTerminal => Some("repository terminal failed"),
        Task::WorktreeTerminal => Some("terminal failed"),
        Task::ReorderRepositories => Some("reorder repositories failed"),
        Task::SetVisibility(_, _) => Some("visibility update failed"),
        Task::Push => Some("push failed"),
        Task::MergeRequest => Some("merge failed"),
        Task::Repair(GitAction::CiFix) => Some("CI failure prompt failed"),
        Task::Repair(_) => Some("review fix failed"),
        Task::ResolveComments => Some("resolve review comments failed"),
        Task::PullDefault => Some("pull failed"),
        Task::CreateSession => Some("create session failed"),
        Task::AbortAgent => Some("abort failed"),
        Task::OpenRemotePr => Some("open remote PR worktree failed"),
        Task::Archive => Some("archive failed"),
        Task::Unarchive => Some("unarchive failed"),
        Task::DeleteSession => Some("delete failed"),
        _ => None,
    }
}

/// The comment that Enter opens, where it opens one.
pub open spec fn comment_to_open(nav: NavView) -> Option<Task> {
    if nav.main_focused && nav.in_session_panel() && nav.selected_comment < nav.comment_count() {
        match nav.selected_session() {
            Some(index) => Some(Task::ShowComment(index, nav.selected_comment)),
            None => None,
        }
    } else {
        None
    }
}

/// The work of Enter, where the shown workflow did not take the key.
pub open spec fn enter_task(nav: NavView, plan_open: bool) -> Option<Task> {
    match comment_to_open(nav) {
        Some(task) => Some(task),
        None => match nav.focused_panel {
            PanelFocus::Status => None,
            PanelFocus::Repos => if nav.main_focused && nav.shown_request() is Some {
                Some(Task::OpenRepoPr)
            } else {
                match nav.default_session() {
                    Some(index) => Some(Task::EnterAgent(index)),
                    None => None,
                }
            },
            _ => if nav.focused_panel is Worktrees && nav.main_focused && plan_open {
                Some(Task::OpenPlanPhase)
            } else if nav.selected_context() is None {
                None
            } else {
                Some(Task::EnterSelectedAgent)
            },
        },
    }
}

/// What Enter says where it opens nothing.
pub open spec fn enter_refusal(nav: NavView) -> Seq<char> {
    match nav.focused_panel {
        PanelFocus::Status => "status has no Enter action"@,
        PanelFocus::Repos => "selected repository has no default worktree"@,
        _ => "selected repository has no visible worktrees"@,
    }
}

/// What follows work that succeeded; `said` is what the work says of itself.
pub open spec fn outcome_after(view: TuiView, task: Task, said: bool) -> CommandOutcome {
    match task {
        Task::WorkflowEnter => if said {
            CommandOutcome::Continue
        } else {
            match enter_task(view.nav, view.book.plan_dashboard(view.nav) is Some) {
                Some(next) => CommandOutcome::Perform(next),
                None => CommandOutcome::Continue,
            }
        },
        Task::CancelWorkflow => if !said && view.nav.in_session_panel() {
            CommandOutcome::Perform(Task::AbortAgent)
        } else {
            CommandOutcome::Continue
        },
        _ => CommandOutcome::Continue,
    }
}

/// The dashboard after work that succeeded.
pub open spec fn after_task(view: TuiView, task: Task, said: bool, now_ms: u64) -> TuiView {
    match task {
        Task::WorkflowEnter => if !said && enter_task(
            view.nav,
            view.book.plan_dashboard(view.nav) is Some,
        ) is None {
            view.with_message(enter_refusal(view.nav), now_ms)
        } else {
            view
        },
        Task::CancelWorkflow => if !said && !view.nav.in_session_panel() {
            view.with_message("focus worktrees or merges to abort an agent session"@, now_ms)
        } else {
            view
        },
        Task::CreateSession => if said {
            TuiView { nav: view.nav.with_session_panel(PanelFocus::Worktrees), ..view }
        } else {
            view
        },
        Task::SetVisibility(index, visibility) => TuiView {
            nav: view.nav.with_visibility(index, visibility),
            ..view
        },
        _ => view,
    }
}

/// What a search is titled with, and what it starts with, in the focused panel.
pub open spec fn search_of(nav: NavView) -> Option<(Seq<char>, Seq<char>)> {
    match nav.focused_panel {
        PanelFocus::Status => None,
        PanelFocus::Repos => Some(("Search Repositories"@, nav.repo_filter)),
        _ => Some(("Search Worktrees"@, nav.worktree_filter)),
    }
}

impl Tui {
    /// The comment that Enter opens, where it opens one: the session and the row.
    pub fn selected_comment_to_open(&self) -> (r: Option<(usize, usize)>)
        ensures
            match r {
                Some((index, row)) => comment_to_open(self@.nav) == Some(
                    Task::ShowComment(index, row),
                ),
                None => comment_to_open(self@.nav) is None,
            },
    {
        if !self.navigation.main_focused || !self.navigation.is_worktree_session_panel() {
            return None;
        }
        if self.navigation.selected_comment >= self.navigation.selected_comment_rows() {
            return None;
        }
        match self.navigation.selected_worktree_index() {
            Some(index) => Some((index, self.navigation.selected_comment)),
            None => None,
        }
    }

    /// What Enter opens, with the shown run of a plan taken into account.
    pub fn open_tmux_session_target(&self) -> (r: OpenTmuxSessionTarget)
        ensures
            self@.nav.enter_opens(self@.book.plan_dashboard(self@.nav) is Some, r),
    {
        let plan_open: bool = self.book.current_plan_dashboard(&self.navigation).is_some();
        self.navigation.open_tmux_session_target(plan_open)
    }

    fn enter(&mut self, now_ms: u64) -> (r: CommandOutcome)
        ensures
            r == outcome_after(old(self)@, Task::WorkflowEnter, false),
            final(self)@ == after_task(old(self)@, Task::WorkflowEnter, false, now_ms),
    {
        match self.selected_comment_to_open() {
            Some((index, row)) => {
                return CommandOutcome::Perform(Task::ShowComment(index, row));
            },
            None => {},
        }
        match self.open_tmux_session_target() {
            OpenTmuxSessionTarget::PlanPhaseAgent => CommandOutcome::Perform(Task::OpenPlanPhase),
            OpenTmuxSessionTarget::WorktreeAgent => CommandOutcome::Perform(
                Task::EnterSelectedAgent,
            ),
            OpenTmuxSessionTarget::RepoPr => CommandOutcome::Perform(Task::OpenRepoPr),
            OpenTmuxSessionTarget::RepoDefaultAgent(index) => CommandOutcome::Perform(
                Task::EnterAgent(index),
            ),
            OpenTmuxSessionTarget::Blocked(message) => {
                self.show_message(message, now_ms);
                CommandOutcome::Continue
            },
        }
    }

    /// Takes the result of work that a command asked for; says what follows. An error is
    /// shown where the work has a title to show it under, and ends the dashboard elsewhere.
    pub fn finish_task(&mut self, task: Task, result: Result<bool, String>, now_ms: u64) -> (r:
        Result<CommandOutcome, String>)
        ensures
            match result {
                Ok(said) => r == Ok::<CommandOutcome, String>(
                    outcome_after(old(self)@, task, said),
                ) && final(self)@ == after_task(old(self)@, task, said, now_ms),
                Err(error) => match error_title(task) {
                    Some(title) => r == Ok::<CommandOutcome, String>(CommandOutcome::Continue)
                        && final(self)@ == old(self)@.with_error(title, error@, now_ms),
                    None => r == Err::<CommandOutcome, String>(error) && final(self)@ == old(
                        self,
                    )@,
                },
            },
    {
        let said: bool = match result {
            Ok(said) => said,
            Err(error) => {
                match task_error_title(task) {
                    Some(title) => {
                        self.show_error(title, error.as_str(), now_ms);
                        return Ok(CommandOutcome::Continue);
                    },
                    None => {
                        return Err(error);
                    },
                }
            },
        };
        match task {
            Task::WorkflowEnter => {
                if said {
                    Ok(CommandOutcome::Continue)
                } else {
                    Ok(self.enter(now_ms))
                }
            },
            Task::CancelWorkflow => {
                if said {
                    Ok(CommandOutcome::Continue)
                } else if self.navigation.is_worktree_session_panel() {
                    Ok(CommandOutcome::Perform(Task::AbortAgent))
                } else {
                    self.show_message(
                        "focus worktrees or merges to abort an agent session",
                        now_ms,
                    );
                    Ok(CommandOutcome::Continue)
                }
            },
            Task::CreateSession => {
                if said {
                    self.navigation.focus_worktrees();
                }
                Ok(CommandOutcome::Continue)
            },
            Task::SetVisibility(index, visibility) => {
                self.navigation.set_visibility(index, visibility);
                Ok(CommandOutcome::Continue)
            },
            _ => Ok(CommandOutcome::Continue),
        }
    }

    /// The title of the search in the focused list, and the filter that it starts from; the
    /// status panel has none.
    pub fn search_prompt(&self) -> (r: Option<(&'static str, String)>)
        ensures
            (match r {
                Some((title, initial)) => Some((title@, initial@)),
                None => None,
            }) == search_of(self@.nav),
            match self@.nav.focused_panel {
                PanelFocus::Status => r is None,
                PanelFocus::Repos => r matches Some((title, initial)) && title@
                    == "Search Repositories"@ && initial@ == self@.nav.repo_filter,
                _ => r matches Some((title, initial)) && title@ == "Search Worktrees"@ && initial@
                    == self@.nav.worktree_filter,
            },
    {
        match self.navigation.focused_panel {
            PanelFocus::Status => None,
            PanelFocus::Repos => Some(
                ("Search Repositories", self.navigation.repo_filter.clone()),
            ),
            _ => Some(("Search Worktrees", self.navigation.worktree_filter.clone())),
        }
    }
}

/// The dashboard is never left while worktrees are being deleted, and can be left at any
/// other time, whatever the agents are doing.
pub proof fn law_quitting_waits_for_deletions(view: TuiView, programs: Programs, pending: bool, now_ms: u64)
    ensures
        outcome_of(view, programs, DashboardCommand::Quit) == CommandOutcome::Quit
            <==> !is_deleting(view),
        is_deleting(view) ==> after_command(
            view,
            DashboardCommand::Quit,
            pending,
            now_ms,
        ).message is Some,
{
}

/// No other command leaves the dashboard.
pub proof fn law_only_quit_leaves(view: TuiView, programs: Programs, command: DashboardCommand)
    requires
        outcome_of(view, programs, command) == CommandOutcome::Quit,
    ensures
        command is Quit,
{
}

/// A command that is refused says why and asks for no work.
pub proof fn law_refused_commands_say_why(
    view: TuiView,
    programs: Programs,
    command: DashboardCommand,
    pending: bool,
    now_ms: u64,
)
    requires
        refusal(view.nav, is_deleting(view), command) is Some,
    ensures
        outcome_of(view, programs, command) == CommandOutcome::Continue,
        after_command(view, command, pending, now_ms).message == refusal(
            view.nav,
            is_deleting(view),
            command,
        ),
        after_command(view, command, pending, now_ms).nav == nav_after(view.nav, command, pending),
{
}

/// The top of a list takes the same key twice in a row: any command between, other than
/// those that leave a key sequence alone, begins the sequence anew.
pub proof fn law_top_takes_two_keys(nav: NavView, between: DashboardCommand)
    requires
        !keeps_sequence(between),
        !(between is G),
    ensures
        !pending_after(false, between),
        !pending_after(true, between),
        pending_after(false, DashboardCommand::G),
        nav_after(nav, DashboardCommand::G, false) == nav,
        nav_after(nav, DashboardCommand::G, true) == nav.with_end(false),
        !pending_after(true, DashboardCommand::G),
{
}

} // verus!
