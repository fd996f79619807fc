//! What commands are for: the work that each of them asks for, and the reasons for which
//! they are refused.
use vstd::prelude::*;

use crate::commands::error_title;
use crate::commands::outcome_of;
use crate::commands::CommandOutcome;
use crate::commands::Task;
use crate::frame::LeaderHint;
use crate::frame::Programs;
use crate::git_actions::GitAction;
use crate::input::DashboardCommand;
use crate::model::SupportLevel;
use crate::navigation::NavView;
use crate::navigation::PanelFocus;
use crate::navigation::RepoMainView;
use crate::navigation::Step;
use crate::navigation::WorktreeListMode;
use crate::tui::TuiView;

verus! {

/// Whether the focus is on a list of worktrees.
pub open spec fn on_worktrees(view: TuiView) -> bool {
    view.nav.focused_panel == PanelFocus::Worktrees || view.nav.focused_panel == PanelFocus::Merges
}

// ---------------------------------------------------------------------------
// Archiving and deleting
// ---------------------------------------------------------------------------

/// With the focus on worktrees, the command to delete archives; only the command to delete
/// for good asks for the deletion of a worktree.
pub proof fn law_deleting_archives(
    view: TuiView,
    programs: Programs,
    command: DashboardCommand,
)
    ensures
        on_worktrees(view) ==> outcome_of(view, programs, DashboardCommand::Delete)
            == CommandOutcome::Perform(Task::Archive),
        on_worktrees(view) ==> outcome_of(view, programs, DashboardCommand::DeletePermanent)
            == CommandOutcome::Perform(Task::DeleteSession),
        view.nav.focused_panel == PanelFocus::Repos ==> outcome_of(
            view,
            programs,
            DashboardCommand::Unarchive,
        ) == CommandOutcome::Perform(Task::Unarchive),
        outcome_of(view, programs, command) == CommandOutcome::Perform(Task::DeleteSession)
            ==> command == DashboardCommand::DeletePermanent && on_worktrees(view),
        outcome_of(view, programs, command) == CommandOutcome::Perform(Task::Archive)
            ==> command == DashboardCommand::Delete && on_worktrees(view),
        outcome_of(view, programs, command) == CommandOutcome::Perform(Task::Unarchive)
            ==> command == DashboardCommand::Unarchive && view.nav.focused_panel
            == PanelFocus::Repos,
{
}

// ---------------------------------------------------------------------------
// Work
// ---------------------------------------------------------------------------

/// Every piece of work that a command leads to is asked for by the command of its name, and
/// by no other.
pub proof fn law_work_is_asked_for_by_its_command(
    view: TuiView,
    programs: Programs,
    command: DashboardCommand,
    task: Task,
)
    requires
        outcome_of(view, programs, command) == CommandOutcome::Perform(task),
    ensures
        match task {
            Task::SelectWorkflow(Step::Previous) => command == DashboardCommand::PreviousBlock,
            Task::SelectWorkflow(Step::Next) => command == DashboardCommand::NextBlock,
            Task::SaveListMode(WorktreeListMode::Global) => command
                == DashboardCommand::PreviousView && on_worktrees(view)
                && view.nav.worktree_list_mode != WorktreeListMode::Global,
            Task::SaveListMode(WorktreeListMode::Repo) => command == DashboardCommand::NextView
                && on_worktrees(view) && view.nav.worktree_list_mode != WorktreeListMode::Repo,
            Task::WorkflowEnter => command == DashboardCommand::OpenTmuxSession,
            Task::ShowComment(_, _) => false,
            Task::EnterAgent(_) => false,
            Task::EnterSelectedAgent => false,
            Task::OpenRepoPr => false,
            Task::OpenPlanPhase => false,
            Task::AbortAgent => false,
            Task::LaunchWorkflow => command == DashboardCommand::WorkflowLauncher,
            Task::CreateAiWorkflow => command == DashboardCommand::WorkflowAi,
            Task::ToggleWorkflow => command == DashboardCommand::WorkflowPauseResume,
            Task::RetryWorkflow => command == DashboardCommand::WorkflowRetry,
            Task::CancelWorkflow => command == DashboardCommand::AbortOpencode,
            Task::Configure => command == DashboardCommand::Configuration,
            Task::RepoLazyGit => command == DashboardCommand::LazyGit && view.nav.focused_panel
                == PanelFocus::Repos && programs.lazygit,
            Task::WorktreeLazyGit => command == DashboardCommand::LazyGit && on_worktrees(view)
                && programs.lazygit,
            Task::OpenPr => command == DashboardCommand::OpenPr,
            Task::OpenDevelopmentUrl => command == DashboardCommand::OpenDevelopmentUrl,
            Task::ShowHookLogs => command == DashboardCommand::WorktrunkLogs,
            Task::SubmitReview => command == DashboardCommand::SubmitReview && programs.gh,
            Task::RepoTerminal => command == DashboardCommand::Terminal && view.nav.focused_panel
                == PanelFocus::Repos,
            Task::WorktreeTerminal => command == DashboardCommand::Terminal && on_worktrees(view),
            Task::ShowHelp => command == DashboardCommand::Help,
            Task::ReorderRepositories => command == DashboardCommand::Refresh
                && view.nav.focused_panel == PanelFocus::Repos && !view.nav.main_focused,
            Task::RefreshSessions => command == DashboardCommand::Refresh && (
            view.nav.focused_panel != PanelFocus::Repos || view.nav.main_focused),
            Task::SetVisibility(index, visibility) => (command == DashboardCommand::VisibilityUp
                || command == DashboardCommand::VisibilityDown) && on_worktrees(view)
                && view.nav.selected_session() == Some(index),
            Task::Push => command == DashboardCommand::Push,
            Task::MergeRequest => command == DashboardCommand::Merge,
            Task::Repair(action) => (action == GitAction::CiFix && command
                == DashboardCommand::CiFix) || (action == GitAction::ReviewFix && command
                == DashboardCommand::ReviewFix),
            Task::ResolveComments => command == DashboardCommand::ResolveAllComments,
            Task::PullDefault => command == DashboardCommand::PullDefault
                && view.nav.focused_panel == PanelFocus::Repos,
            Task::CreateSession => command == DashboardCommand::Create && view.nav.focused_panel
                == PanelFocus::Repos,
            Task::MigrateHarness(index) => command == DashboardCommand::MigrateHarness
                && on_worktrees(view) && view.nav.selected_session() == Some(index),
            Task::OpenRemotePr => command == DashboardCommand::OpenRemotePrs
                && view.nav.focused_panel == PanelFocus::Repos,
            Task::Archive => command == DashboardCommand::Delete && on_worktrees(view),
            Task::Unarchive => command == DashboardCommand::Unarchive && view.nav.focused_panel
                == PanelFocus::Repos,
            Task::DeleteSession => command == DashboardCommand::DeletePermanent
                && on_worktrees(view),
            Task::Search => command == DashboardCommand::Search && view.nav.focused_panel
                != PanelFocus::Status,
        },
{
}

/// The commands that need nothing but their panel always lead to their work.
pub proof fn law_commands_lead_to_their_work(view: TuiView, programs: Programs)
    ensures
        outcome_of(view, programs, DashboardCommand::PreviousBlock) == CommandOutcome::Perform(
            Task::SelectWorkflow(Step::Previous),
        ),
        outcome_of(view, programs, DashboardCommand::NextBlock) == CommandOutcome::Perform(
            Task::SelectWorkflow(Step::Next),
        ),
        outcome_of(view, programs, DashboardCommand::OpenTmuxSession) == CommandOutcome::Perform(
            Task::WorkflowEnter,
        ),
        outcome_of(view, programs, DashboardCommand::WorkflowLauncher) == CommandOutcome::Perform(
            Task::LaunchWorkflow,
        ),
        outcome_of(view, programs, DashboardCommand::WorkflowAi) == CommandOutcome::Perform(
            Task::CreateAiWorkflow,
        ),
        outcome_of(view, programs, DashboardCommand::WorkflowPauseResume)
            == CommandOutcome::Perform(Task::ToggleWorkflow),
        outcome_of(view, programs, DashboardCommand::WorkflowRetry) == CommandOutcome::Perform(
            Task::RetryWorkflow,
        ),
        outcome_of(view, programs, DashboardCommand::AbortOpencode) == CommandOutcome::Perform(
            Task::CancelWorkflow,
        ),
        outcome_of(view, programs, DashboardCommand::Configuration) == CommandOutcome::Perform(
            Task::Configure,
        ),
        outcome_of(view, programs, DashboardCommand::OpenDevelopmentUrl)
            == CommandOutcome::Perform(Task::OpenDevelopmentUrl),
        outcome_of(view, programs, DashboardCommand::WorktrunkLogs) == CommandOutcome::Perform(
            Task::ShowHookLogs,
        ),
        outcome_of(view, programs, DashboardCommand::Help) == CommandOutcome::Perform(
            Task::ShowHelp,
        ),
        view.nav.focused_panel == PanelFocus::Repos && !view.nav.main_focused ==> outcome_of(
            view,
            programs,
            DashboardCommand::Refresh,
        ) == CommandOutcome::Perform(Task::ReorderRepositories),
        view.nav.focused_panel != PanelFocus::Repos || view.nav.main_focused ==> outcome_of(
            view,
            programs,
            DashboardCommand::Refresh,
        ) == CommandOutcome::Perform(Task::RefreshSessions),
        view.nav.focused_panel == PanelFocus::Repos ==> outcome_of(
            view,
            programs,
            DashboardCommand::Terminal,
        ) == CommandOutcome::Perform(Task::RepoTerminal),
        on_worktrees(view) ==> outcome_of(view, programs, DashboardCommand::Terminal)
            == CommandOutcome::Perform(Task::WorktreeTerminal),
        view.nav.focused_panel == PanelFocus::Repos ==> outcome_of(
            view,
            programs,
            DashboardCommand::PullDefault,
        ) == CommandOutcome::Perform(Task::PullDefault),
        view.nav.focused_panel == PanelFocus::Repos ==> outcome_of(
            view,
            programs,
            DashboardCommand::Create,
        ) == CommandOutcome::Perform(Task::CreateSession),
        view.nav.focused_panel != PanelFocus::Status ==> outcome_of(
            view,
            programs,
            DashboardCommand::Search,
        ) == CommandOutcome::Perform(Task::Search),
        on_worktrees(view) && view.nav.worktree_list_mode != WorktreeListMode::Global
            ==> outcome_of(view, programs, DashboardCommand::PreviousView)
            == CommandOutcome::Perform(Task::SaveListMode(WorktreeListMode::Global)),
        on_worktrees(view) && view.nav.worktree_list_mode != WorktreeListMode::Repo
            ==> outcome_of(view, programs, DashboardCommand::NextView) == CommandOutcome::Perform(
            Task::SaveListMode(WorktreeListMode::Repo),
        ),
        on_worktrees(view) && view.nav.selected_session() is Some ==> outcome_of(
            view,
            programs,
            DashboardCommand::MigrateHarness,
        ) == CommandOutcome::Perform(Task::MigrateHarness(view.nav.selected_session()->0)),
        view.nav.focused_panel == PanelFocus::Repos && view.nav.current_repo
            < view.nav.repos.len()
            && view.nav.repos[view.nav.current_repo as int].remote_capabilities is Some
            && view.nav.repos[view.nav.current_repo as int].remote_capabilities->0.list_change_requests
            == SupportLevel::Supported ==> outcome_of(
            view,
            programs,
            DashboardCommand::OpenRemotePrs,
        ) == CommandOutcome::Perform(Task::OpenRemotePr),
{
}

/// The commands for change requests lead to their work exactly where their action is on
/// offer.
pub proof fn law_actions_lead_to_their_work(view: TuiView, programs: Programs)
    ensures
        crate::git_actions::action_is_on(view.nav, GitAction::OpenPr, false) <==> outcome_of(
            view,
            programs,
            DashboardCommand::OpenPr,
        ) == CommandOutcome::Perform(Task::OpenPr),
        crate::git_actions::action_is_on(view.nav, GitAction::Push, false) <==> outcome_of(
            view,
            programs,
            DashboardCommand::Push,
        ) == CommandOutcome::Perform(Task::Push),
        crate::git_actions::action_is_on(view.nav, GitAction::Merge, false) <==> outcome_of(
            view,
            programs,
            DashboardCommand::Merge,
        ) == CommandOutcome::Perform(Task::MergeRequest),
        crate::git_actions::action_is_on(view.nav, GitAction::CiFix, false) <==> outcome_of(
            view,
            programs,
            DashboardCommand::CiFix,
        ) == CommandOutcome::Perform(Task::Repair(GitAction::CiFix)),
        crate::git_actions::action_is_on(view.nav, GitAction::ReviewFix, false) <==> outcome_of(
            view,
            programs,
            DashboardCommand::ReviewFix,
        ) == CommandOutcome::Perform(Task::Repair(GitAction::ReviewFix)),
        crate::git_actions::action_is_on(view.nav, GitAction::ResolveAllComments, false)
            <==> outcome_of(view, programs, DashboardCommand::ResolveAllComments)
            == CommandOutcome::Perform(Task::ResolveComments),
        crate::git_actions::action_is_on(view.nav, GitAction::SubmitReview, programs.gh)
            <==> outcome_of(view, programs, DashboardCommand::SubmitReview)
            == CommandOutcome::Perform(Task::SubmitReview),
        view.nav.focused_panel == PanelFocus::Repos && crate::git_actions::action_is_on(
            view.nav,
            GitAction::LazyGit,
            programs.lazygit,
        ) ==> outcome_of(view, programs, DashboardCommand::LazyGit) == CommandOutcome::Perform(
            Task::RepoLazyGit,
        ),
        on_worktrees(view) && crate::git_actions::action_is_on(
            view.nav,
            GitAction::LazyGit,
            programs.lazygit,
        ) ==> outcome_of(view, programs, DashboardCommand::LazyGit) == CommandOutcome::Perform(
            Task::WorktreeLazyGit,
        ),
{
}

/// Raising and lowering change the visibility of the selected worktree by one, between minus
/// nine and nine.
pub proof fn law_visibility_moves_by_one(view: TuiView, programs: Programs, index: usize)
    requires
        on_worktrees(view),
        view.nav.selected_session() == Some(index),
        view.nav.sessions[index as int].repo_index < view.nav.repos.len(),
    ensures
        -9 <= view.nav.sessions[index as int].visibility < 9 ==> outcome_of(
            view,
            programs,
            DashboardCommand::VisibilityUp,
        ) == CommandOutcome::Perform(
            Task::SetVisibility(index, (view.nav.sessions[index as int].visibility + 1) as i16),
        ),
        -9 < view.nav.sessions[index as int].visibility <= 9 ==> outcome_of(
            view,
            programs,
            DashboardCommand::VisibilityDown,
        ) == CommandOutcome::Perform(
            Task::SetVisibility(index, (view.nav.sessions[index as int].visibility - 1) as i16),
        ),
        view.nav.sessions[index as int].visibility == 9 ==> outcome_of(
            view,
            programs,
            DashboardCommand::VisibilityUp,
        ) == CommandOutcome::Perform(Task::SetVisibility(index, 9)),
        view.nav.sessions[index as int].visibility == -9 ==> outcome_of(
            view,
            programs,
            DashboardCommand::VisibilityDown,
        ) == CommandOutcome::Perform(Task::SetVisibility(index, -9i16)),
{
}

// ---------------------------------------------------------------------------
// Refusals
// ---------------------------------------------------------------------------

/// What the status line says of a refused command, and no other command is refused.
pub proof fn law_refusals_name_the_panel(
    view: TuiView,
    command: DashboardCommand,
    pending: bool,
    now_ms: u64,
)
    ensures
        ({
            let said = crate::commands::after_command(view, command, pending, now_ms).message;
            let panel = view.nav.focused_panel;
            let on_repos = panel == PanelFocus::Repos;
            match command {
                DashboardCommand::Quit => said == (
                if view.tracker.delete_sessions_in_flight.is_empty() {
                    view.message
                } else {
                    Some("delete in progress; wait for it to finish before quitting"@)
                }),
                DashboardCommand::Terminal => said == (if panel == PanelFocus::Status {
                    Some("focus repos or worktrees to open a terminal"@)
                } else {
                    view.message
                }),
                DashboardCommand::VisibilityUp => said == (if on_worktrees(view) {
                    view.message
                } else {
                    Some("focus worktrees or merges to change visibility"@)
                }),
                DashboardCommand::VisibilityDown => said == (if on_worktrees(view) {
                    view.message
                } else {
                    Some("focus worktrees or merges to change visibility"@)
                }),
                DashboardCommand::RepoShortcut(key) => said == (if exists|i: int|
                    0 <= i < view.nav.repos.len() && (#[trigger] view.nav.repos[i]).key == Some(
                        key,
                    ) {
                    view.message
                } else {
                    Some("no repository is bound to "@ + seq![key])
                }),
                DashboardCommand::PullDefault => said == (if on_repos {
                    view.message
                } else {
                    Some("focus repos to pull the default branch"@)
                }),
                DashboardCommand::Create => said == (if on_repos {
                    view.message
                } else {
                    Some("focus repos to create a worktree session"@)
                }),
                DashboardCommand::MigrateHarness => said == (if on_worktrees(view) {
                    view.message
                } else {
                    Some("focus worktrees or merges to migrate an agent harness"@)
                }),
                DashboardCommand::OpenRemotePrs => if !on_repos {
                    said == Some("focus repos to open a remote PR worktree"@)
                } else {
                    said == view.message || said == Some(
                        "remote PR listing is unavailable for this provider"@,
                    )
                },
                DashboardCommand::Delete => said == (if panel == PanelFocus::Status {
                    Some("focus worktrees to delete a worktree/session"@)
                } else if on_repos {
                    Some("repository removal is available from r"@)
                } else {
                    view.message
                }),
                DashboardCommand::Unarchive => said == (if on_repos {
                    view.message
                } else {
                    Some("focus repos to unarchive a worktree"@)
                }),
                DashboardCommand::DeletePermanent => said == (if on_worktrees(view) {
                    view.message
                } else {
                    Some("focus worktrees or merges to permanently delete a worktree/session"@)
                }),
                DashboardCommand::Search => said == (if panel == PanelFocus::Status {
                    Some("status panel has no filter"@)
                } else {
                    view.message
                }),
                _ => said == view.message,
            }
        }),
{
    if view.tracker.delete_sessions_in_flight.is_empty() {
        assert(view.tracker.delete_sessions_in_flight =~= Set::empty());
    } else {
        assert(view.tracker.delete_sessions_in_flight.contains(
            view.tracker.delete_sessions_in_flight.choose(),
        ));
    }
    match command {
        DashboardCommand::RepoShortcut(key) => {
            lemma_repo_with_key(view.nav.repos, view.nav.repos.len(), key);
        },
        _ => {},
    }
}

proof fn lemma_repo_with_key(repos: Seq<crate::model::ManagedRepo>, n: nat, key: char)
    requires
        n <= repos.len(),
    ensures
        crate::navigation::repo_with_key(repos, n, key) is Some <==> exists|i: int|
            0 <= i < n && (#[trigger] repos[i]).key == Some(key),
    decreases n,
{
    if n > 0 {
        lemma_repo_with_key(repos, (n - 1) as nat, key);
    }
}

/// A provider that is known to list its change requests is not refused; one of which that
/// is not known is.
pub proof fn law_unlisted_providers_are_refused(view: TuiView, pending: bool, now_ms: u64)
    requires
        view.nav.focused_panel == PanelFocus::Repos,
    ensures
        view.nav.current_repo < view.nav.repos.len()
            && view.nav.repos[view.nav.current_repo as int].remote_capabilities is Some
            && view.nav.repos[view.nav.current_repo as int].remote_capabilities->0.list_change_requests
            == SupportLevel::Supported ==> crate::commands::after_command(
            view,
            DashboardCommand::OpenRemotePrs,
            pending,
            now_ms,
        ).message == view.message,
        !(view.nav.current_repo < view.nav.repos.len()
            && view.nav.repos[view.nav.current_repo as int].remote_capabilities is Some
            && view.nav.repos[view.nav.current_repo as int].remote_capabilities->0.list_change_requests
            == SupportLevel::Supported) ==> crate::commands::after_command(
            view,
            DashboardCommand::OpenRemotePrs,
            pending,
            now_ms,
        ).message == Some("remote PR listing is unavailable for this provider"@),
{
}

// ---------------------------------------------------------------------------
// Moves
// ---------------------------------------------------------------------------

/// Commands that are not about the position leave it, and what is known of runs, alone.
pub proof fn law_other_commands_do_not_move(
    view: TuiView,
    command: DashboardCommand,
    pending: bool,
    now_ms: u64,
)
    requires
        !(command is Down),
        !(command is Up),
        !(command is Left),
        !(command is Right),
        !(command is FocusNext),
        !(command is FocusPrevious),
        !(command is FocusMain),
        !(command is FocusStatus),
        !(command is FocusRepos),
        !(command is FocusWorktrees),
        !(command is FocusMerges),
        !(command is Bottom),
        !(command is G),
        !(command is PreviousView),
        !(command is NextView),
        !(command is RepoShortcut),
    ensures
        crate::commands::after_command(view, command, pending, now_ms).nav == view.nav,
        crate::commands::after_command(view, command, pending, now_ms).book == view.book,
        crate::commands::after_command(view, command, pending, now_ms).tracker == view.tracker,
        crate::commands::after_command(view, command, pending, now_ms).background
            == view.background,
        crate::commands::after_command(view, command, pending, now_ms).harnesses
            == view.harnesses,
{
}

/// The commands that name a panel lead to it, and those that name a view of a repository
/// show it where the main panel has the focus.
pub proof fn law_commands_lead_to_their_panel(view: TuiView, pending: bool, now_ms: u64)
    ensures
        ({
            let after = |command: DashboardCommand|
                crate::commands::after_command(view, command, pending, now_ms).nav;
            let panel = view.nav.focused_panel;
            &&& after(DashboardCommand::FocusStatus).focused_panel == PanelFocus::Status
            &&& after(DashboardCommand::FocusRepos).focused_panel == PanelFocus::Repos
            &&& after(DashboardCommand::FocusWorktrees).focused_panel == PanelFocus::Worktrees
            &&& after(DashboardCommand::FocusMerges).focused_panel == PanelFocus::Merges
            &&& !after(DashboardCommand::FocusStatus).main_focused
            &&& !after(DashboardCommand::FocusRepos).main_focused
            &&& !after(DashboardCommand::FocusWorktrees).main_focused
            &&& !after(DashboardCommand::FocusMerges).main_focused
            &&& !after(DashboardCommand::FocusNext).main_focused
            &&& !after(DashboardCommand::FocusPrevious).main_focused
            &&& after(DashboardCommand::FocusMain).main_focused
            &&& after(DashboardCommand::FocusMain).focused_panel == panel
            &&& after(DashboardCommand::FocusNext).focused_panel == (match panel {
                PanelFocus::Status => PanelFocus::Repos,
                PanelFocus::Repos => PanelFocus::Worktrees,
                PanelFocus::Worktrees => PanelFocus::Merges,
                PanelFocus::Merges => PanelFocus::Status,
            })
            &&& after(DashboardCommand::FocusPrevious).focused_panel == (match panel {
                PanelFocus::Repos => PanelFocus::Status,
                PanelFocus::Worktrees => PanelFocus::Repos,
                PanelFocus::Merges => PanelFocus::Worktrees,
                PanelFocus::Status => PanelFocus::Merges,
            })
            &&& after(DashboardCommand::Left).repo_main_view == (if panel == PanelFocus::Repos
                && view.nav.main_focused {
                RepoMainView::ChangeRequests
            } else {
                view.nav.repo_main_view
            })
            &&& after(DashboardCommand::Right).repo_main_view == (if panel == PanelFocus::Repos
                && view.nav.main_focused {
                RepoMainView::Kanban
            } else {
                view.nav.repo_main_view
            })
            &&& after(DashboardCommand::PreviousView).worktree_list_mode == (if on_worktrees(
                view,
            ) {
                WorktreeListMode::Global
            } else {
                view.nav.worktree_list_mode
            })
            &&& after(DashboardCommand::NextView).worktree_list_mode == (if on_worktrees(view) {
                WorktreeListMode::Repo
            } else {
                view.nav.worktree_list_mode
            })
        }),
{
}

/// The hint that is shown after a leader key goes with the next command; only the commands
/// that control a workflow or a harness leave it.
pub proof fn law_leader_hints(
    view: TuiView,
    command: DashboardCommand,
    pending: bool,
    now_ms: u64,
)
    ensures
        crate::commands::after_command(view, command, pending, now_ms).leader_hint == (
        match command {
            DashboardCommand::Leader => Some(LeaderHint::Root),
            DashboardCommand::LeaderGit => Some(LeaderHint::Git),
            DashboardCommand::LeaderWorkflow => Some(LeaderHint::Workflow),
            DashboardCommand::WorkflowPauseResume => view.leader_hint,
            DashboardCommand::WorkflowRetry => view.leader_hint,
            DashboardCommand::MigrateHarness => view.leader_hint,
            _ => None,
        }),
{
}

// ---------------------------------------------------------------------------
// The end of work
// ---------------------------------------------------------------------------

/// The errors of these pieces of work end the dashboard; those of all others are shown.
pub proof fn law_errors_that_end_the_dashboard(task: Task)
    ensures
        error_title(task) is None <==> (task is SelectWorkflow || task is SaveListMode
            || task is WorkflowEnter || task is ShowComment || task is EnterAgent
            || task is EnterSelectedAgent || task is OpenRepoPr || task is ShowHelp
            || task is RefreshSessions || task is MigrateHarness || task is Search),
{
}

/// An error is shown under the name of the work that it is of.
pub proof fn law_errors_are_shown_under_their_work()
    ensures
        error_title(Task::Archive) == Some("archive failed"@),
        error_title(Task::DeleteSession) == Some("delete failed"@),
        error_title(Task::Unarchive) == Some("unarchive failed"@),
        error_title(Task::Push) == Some("push failed"@),
        error_title(Task::MergeRequest) == Some("merge failed"@),
        error_title(Task::Repair(GitAction::CiFix)) == Some("CI failure prompt failed"@),
        error_title(Task::Repair(GitAction::ReviewFix)) == Some("review fix failed"@),
        error_title(Task::ResolveComments) == Some("resolve review comments failed"@),
        error_title(Task::PullDefault) == Some("pull failed"@),
        error_title(Task::CreateSession) == Some("create session failed"@),
        error_title(Task::AbortAgent) == Some("abort failed"@),
        error_title(Task::OpenRemotePr) == Some("open remote PR worktree failed"@),
        error_title(Task::OpenPr) == Some("open PR failed"@),
        error_title(Task::SubmitReview) == Some("submit review failed"@),
        error_title(Task::RepoLazyGit) == Some("repository lazygit failed"@),
        error_title(Task::WorktreeLazyGit) == Some("lazygit failed"@),
        error_title(Task::RepoTerminal) == Some("repository terminal failed"@),
        error_title(Task::WorktreeTerminal) == Some("terminal failed"@),
        error_title(Task::LaunchWorkflow) == Some("workflow launcher failed"@),
        error_title(Task::CreateAiWorkflow) == Some("AI Workflow creation failed"@),
        error_title(Task::ToggleWorkflow) == Some("Workflow control failed"@),
        error_title(Task::CancelWorkflow) == Some("Workflow control failed"@),
        error_title(Task::RetryWorkflow) == Some("Workflow retry failed"@),
        error_title(Task::Configure) == Some("configuration failed"@),
        error_title(Task::OpenDevelopmentUrl) == Some("open development URL failed"@),
        error_title(Task::ShowHookLogs) == Some("Worktrunk hook logs failed"@),
        error_title(Task::ReorderRepositories) == Some("reorder repositories failed"@),
        error_title(Task::OpenPlanPhase) == Some("plan phase tmux failed"@),
        forall|index: usize, visibility: i16| #[trigger]
            error_title(Task::SetVisibility(index, visibility)) == Some(
                "visibility update failed"@,
            ),
{
}

/// Aborting cancels the shown workflow first; only where there was none is the agent of the
/// selected worktree aborted, and only with the focus on worktrees.
pub proof fn law_aborting_comes_after_canceling(view: TuiView, said: bool, now_ms: u64)
    ensures
        crate::commands::outcome_after(view, Task::CancelWorkflow, said) == (if !said
            && on_worktrees(view) {
            CommandOutcome::Perform(Task::AbortAgent)
        } else {
            CommandOutcome::Continue
        }),
        crate::commands::after_task(view, Task::CancelWorkflow, said, now_ms).message == (if !said
            && !on_worktrees(view) {
            Some("focus worktrees or merges to abort an agent session"@)
        } else {
            view.message
        }),
        forall|task: Task|
            !(task is WorkflowEnter) && !(task is CancelWorkflow) ==> #[trigger]
            crate::commands::outcome_after(view, task, said) == CommandOutcome::Continue,
{
}

/// Once a worktree has been created the focus is on worktrees, and once a visibility has
/// been stored the worktree has it. Other work changes nothing by its end.
pub proof fn law_work_that_ended_is_shown(
    view: TuiView,
    task: Task,
    said: bool,
    now_ms: u64,
    index: usize,
    visibility: i16,
)
    ensures
        crate::commands::after_task(view, Task::CreateSession, true, now_ms).nav.focused_panel
            == PanelFocus::Worktrees,
        crate::commands::after_task(view, Task::CreateSession, false, now_ms) == view,
        index < view.nav.sessions.len() ==> crate::commands::after_task(
            view,
            Task::SetVisibility(index, visibility),
            said,
            now_ms,
        ).nav.sessions[index as int].visibility == visibility,
        !(task is WorkflowEnter) && !(task is CancelWorkflow) && !(task is CreateSession) && !(
        task is SetVisibility) ==> crate::commands::after_task(view, task, said, now_ms) == view,
{
}

/// What Enter leads to where no workflow takes it: a selected comment first; then, among
/// repositories, the shown change request or the worktree of the default branch; and, among
/// worktrees, the shown plan or the agent.
pub proof fn law_enter_opens_what_is_selected(view: TuiView, plan_open: bool)
    ensures
        ({
            let nav = view.nav;
            let panel = nav.focused_panel;
            let opened = crate::commands::enter_task(nav, plan_open);
            let on_comment = nav.main_focused && on_worktrees(view) && nav.selected_session()
                is Some && nav.sessions[nav.selected_session()->0 as int].pr.details is Some
                && nav.selected_comment < nav.sessions[nav.selected_session()->0 as int].pr.details->0.comment_rows@.len();
            if on_comment {
                opened == Some(Task::ShowComment(nav.selected_session()->0, nav.selected_comment))
            } else if panel == PanelFocus::Status {
                opened is None
            } else if panel == PanelFocus::Repos {
                if nav.main_focused && nav.shown_request() is Some {
                    opened == Some(Task::OpenRepoPr)
                } else if nav.default_session() is Some {
                    opened == Some(Task::EnterAgent(nav.default_session()->0))
                } else {
                    opened is None
                }
            } else if panel == PanelFocus::Worktrees && nav.main_focused && plan_open {
                opened == Some(Task::OpenPlanPhase)
            } else if nav.selected_session() is Some
                && nav.sessions[nav.selected_session()->0 as int].repo_index < nav.repos.len() {
                opened == Some(Task::EnterSelectedAgent)
            } else {
                opened is None
            }
        }),
        crate::commands::enter_refusal(view.nav) == (match view.nav.focused_panel {
            PanelFocus::Status => "status has no Enter action"@,
            PanelFocus::Repos => "selected repository has no default worktree"@,
            PanelFocus::Worktrees => "selected repository has no visible worktrees"@,
            PanelFocus::Merges => "selected repository has no visible worktrees"@,
        }),
{
}

/// Enter goes on where no workflow took it, and says why where there is nothing to open.
pub proof fn law_enter_goes_on(view: TuiView, now_ms: u64)
    ensures
        ({
            let plan_open = view.book.plan_dashboard(view.nav) is Some;
            let opened = crate::commands::enter_task(view.nav, plan_open);
            &&& crate::commands::outcome_after(view, Task::WorkflowEnter, true)
                == CommandOutcome::Continue
            &&& crate::commands::after_task(view, Task::WorkflowEnter, true, now_ms) == view
            &&& opened is Some ==> crate::commands::outcome_after(
                view,
                Task::WorkflowEnter,
                false,
            ) == CommandOutcome::Perform(opened->0)
            &&& opened is None ==> crate::commands::outcome_after(view, Task::WorkflowEnter, false)
                == CommandOutcome::Continue && crate::commands::after_task(
                view,
                Task::WorkflowEnter,
                false,
                now_ms,
            ).message == Some(crate::commands::enter_refusal(view.nav))
        }),
{
}

/// A message is shown for five seconds, and an error together with what it is about.
pub proof fn law_messages_are_shown_for_a_while(
    view: TuiView,
    message: Seq<char>,
    error: Seq<char>,
    now_ms: u64,
)
    ensures
        view.with_message(message, now_ms).message == Some(message),
        view.with_error(message, error, now_ms).message == Some(message + ": "@ + error),
        now_ms + 5000 <= u64::MAX ==> view.with_message(message, now_ms).message_until_ms == Some(
            (now_ms + 5000) as u64,
        ),
        view.with_message(message, now_ms).nav == view.nav,
        view.with_message(message, now_ms).background == view.background,
        view.with_message(message, now_ms).tracker == view.tracker,
        view.with_message(message, now_ms).book == view.book,
{
}

/// Up and Down in the main panel move between the steps of the shown plan where it shows
/// neither change requests nor comments; no other command touches what is known of runs.
pub proof fn law_commands_move_between_steps(view: TuiView, pending: bool, now_ms: u64)
    ensures
        ({
            let down = crate::commands::after_command(
                view,
                DashboardCommand::Down,
                pending,
                now_ms,
            );
            let up = crate::commands::after_command(view, DashboardCommand::Up, pending, now_ms);
            let in_steps = view.nav.main_focused && !view.nav.moves_requests()
                && !view.nav.moves_comments();
            &&& in_steps ==> down.book == view.book.with_step_moved(down.nav, 1)
            &&& in_steps ==> up.book == view.book.with_step_moved(up.nav, -1)
            &&& !in_steps ==> down.book == view.book && up.book == view.book
        }),
        forall|command: DashboardCommand|
            command != DashboardCommand::Down && command != DashboardCommand::Up
                ==> (#[trigger] crate::commands::after_command(
                view,
                command,
                pending,
                now_ms,
            )).book == view.book,
{
}

/// A search starts with the filter of the focused list, under the list's name; the status
/// panel has none.
pub proof fn law_searches(nav: NavView)
    ensures
        nav.focused_panel == PanelFocus::Status <==> crate::commands::search_of(nav) is None,
        nav.focused_panel == PanelFocus::Repos ==> crate::commands::search_of(nav) == Some(
            ("Search Repositories"@, nav.repo_filter),
        ),
        nav.focused_panel == PanelFocus::Worktrees || nav.focused_panel == PanelFocus::Merges
            ==> crate::commands::search_of(nav) == Some(("Search Worktrees"@, nav.worktree_filter)),
{
}

/// The dashboard quits unless a worktree is being deleted; then it says so and stays as it
/// is otherwise.
pub proof fn law_quitting_waits_for_deletions(view: TuiView, now_ms: u64)
    ensures
        view.tracker.delete_sessions_in_flight.is_empty() ==> crate::commands::after_quit(
            view,
            now_ms,
        ) == view && !crate::commands::is_deleting(view),
        !view.tracker.delete_sessions_in_flight.is_empty() ==> crate::commands::is_deleting(view)
            && crate::commands::after_quit(view, now_ms) == view.with_message(
            "delete in progress; wait for it to finish before quitting"@,
            now_ms,
        ),
{
    if view.tracker.delete_sessions_in_flight.is_empty() {
        assert(view.tracker.delete_sessions_in_flight =~= Set::empty());
    }
}

} // verus!
