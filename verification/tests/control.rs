use prism::background::RemoteContext;
use prism::background::RemoteMutationTarget;
use prism::commands::CommandOutcome;
use prism::commands::CommandState;
use prism::commands::Task;
use prism::dashboard::LoopAction;
use prism::dashboard::RuntimeEvent;
use prism::dashboard::TuiBackgroundChanges;
use prism::frame::LeaderHint;
use prism::frame::Programs;
use prism::harness::harness_choice;
use prism::harness::migrate_worktree_harness;
use prism::harness::prepare_worktree_harness_for_open;
use prism::harness::HarnessAssociation;
use prism::harness::HarnessChoice;
use prism::harness::Migration;
use prism::input::DashboardCommand;
use prism::input::KeyCode;
use prism::input::KeyEvent;
use prism::input::KeyInput;
use prism::input::KeyModifiers;
use prism::jobs::JobMetadata;
use prism::jobs::JobOutcome;
use prism::jobs::shutdown_message;
use prism::jobs::ShutdownReason;
use prism::jobs::TuiJobKey;
use prism::jobs::TuiJobKind;
use prism::keys::identity_key;
use prism::keys::OpencodeListenerKey;
use prism::keys::WorktreeGeneration;
use prism::keys::WorktreeRepositoryKey;
use prism::model::AgentState;
use prism::model::Capabilities;
use prism::model::CommentRow;
use prism::model::Config;
use prism::model::ManagedRepo;
use prism::model::NotificationSettings;
use prism::model::PrCache;
use prism::model::PrDetails;
use prism::model::PrSummary;
use prism::model::Repository;
use prism::model::Session;
use prism::model::SupportLevel;
use prism::navigation::MouseKind;
use prism::navigation::PanelFocus;
use prism::navigation::Rect;
use prism::navigation::SidebarLayout;
use prism::navigation::Step;
use prism::navigation::WorktreeListMode;
use prism::routing::job_priority;
use prism::routing::RoutePhase;
use prism::routing::Router;
use prism::shutdown::cleanup_panic_message;
use prism::shutdown::finish_run;
use prism::shutdown::requested_shutdown;
use prism::shutdown::shutdown_action_result;
use prism::shutdown::shutdown_reason;
use prism::shutdown::CleanupFacts;
use prism::shutdown::CleanupStage;
use prism::shutdown::RemoteActionKind;
use prism::shutdown::RunEnd;
use prism::shutdown::RunOutcome;
use prism::shutdown::ShutdownNotification;
use prism::shutdown::ShutdownSignal;
use prism::table::Key;
use prism::table::Table;
use prism::tui::Tui;

fn config() -> Config {
    Config {
        default_agent: "opencode".to_string(),
        default_harness: "opencode".to_string(),
        default_branch: "main".to_string(),
        shell: "/bin/sh".to_string(),
        headless_agent: true,
        notifications: NotificationSettings { bits: 0 },
        tools: Table::new(),
        agent_commands: Table::new(),
    }
}

fn pr_cache() -> PrCache {
    PrCache {
        summary: None,
        details: None,
        details_trusted: false,
        last_refreshed: None,
        reconciliation: None,
    }
}

fn session(repo_index: usize, root: &str, branch: &str) -> Session {
    let path = format!("{root}/{branch}");
    Session {
        repo_index,
        repo_label: format!("repo-{repo_index}"),
        branch: branch.to_string(),
        path: path.clone(),
        path_display: path,
        prompt_summary: String::new(),
        classification: "work".to_string(),
        wt_columns: Vec::new(),
        worktree_session_id: String::new(),
        visibility: 0,
        hidden: false,
        unseen_comments: false,
        agent_state: AgentState::Idle,
        status_label: "clean".to_string(),
        dirty_files: None,
        behind_commits: None,
        pr: pr_cache(),
        opencode_status: None,
    }
}

fn managed(root: &str, key: Option<char>) -> ManagedRepo {
    ManagedRepo::new(
        Repository {
            root: root.to_string(),
            root_hash: 1,
        },
        config(),
        root.trim_start_matches('/').to_string(),
        key,
    )
}

fn dashboard() -> Tui {
    Tui::new(
        vec![managed("/repo-one", Some('1')), managed("/repo-two", Some('2'))],
        0,
        vec![
            session(0, "/repo-one", "main"),
            session(0, "/repo-one", "feature-one"),
            session(1, "/repo-two", "main"),
            session(1, "/repo-two", "feature-two"),
        ],
        0,
    )
}

const PROGRAMS: Programs = Programs {
    lazygit: true,
    gh: true,
};

fn run(tui: &mut Tui, state: &mut CommandState, command: DashboardCommand) -> CommandOutcome {
    tui.dispatch_command(command, state, PROGRAMS, 100)
}

fn fresh() -> CommandState {
    CommandState { pending_g: false }
}

fn generation(tui: &Tui, index: usize, generation: u64) -> WorktreeGeneration {
    let root = &tui.navigation.repos[tui.navigation.sessions[index].repo_index]
        .repo
        .root;
    WorktreeGeneration {
        worktree: identity_key(root, &tui.navigation.sessions[index]),
        generation,
    }
}

fn delete_job(tui: &Tui, index: usize) -> JobMetadata {
    JobMetadata {
        id: 4,
        kind: TuiJobKind::DeleteSession,
        key: TuiJobKey::Delete(generation(tui, index, 0)),
        generation: 0,
    }
}

fn unknown_change() -> RemoteContext {
    RemoteContext {
        key: TuiJobKey::Inventory,
        target: RemoteMutationTarget::Unknown {
            marker_id: "x".to_string(),
        },
        ledger: "ledger".to_string(),
    }
}

// ---------------------------------------------------------------------------
// Commands
// ---------------------------------------------------------------------------

#[test]
fn quitting_waits_for_deletions() {
    let mut tui = dashboard();
    let mut state = fresh();
    let key = generation(&tui, 1, 0);
    tui.tracker.delete_sessions_in_flight.insert(key.copy_key());
    assert_eq!(
        run(&mut tui, &mut state, DashboardCommand::Quit),
        CommandOutcome::Continue
    );
    assert_eq!(
        tui.status.message.as_deref(),
        Some("delete in progress; wait for it to finish before quitting")
    );
    tui.tracker.delete_sessions_in_flight.remove(&key);
    assert_eq!(
        run(&mut tui, &mut state, DashboardCommand::Quit),
        CommandOutcome::Quit
    );
}

#[test]
fn the_top_of_a_list_takes_the_same_key_twice() {
    let mut tui = dashboard();
    let mut state = fresh();
    run(&mut tui, &mut state, DashboardCommand::Bottom);
    assert_eq!(tui.navigation.current_repo, 1);
    run(&mut tui, &mut state, DashboardCommand::G);
    assert!(state.pending_g);
    run(&mut tui, &mut state, DashboardCommand::Other);
    assert!(!state.pending_g);
    run(&mut tui, &mut state, DashboardCommand::G);
    run(&mut tui, &mut state, DashboardCommand::G);
    assert!(!state.pending_g);
    assert_eq!(tui.navigation.current_repo, 0);
}

#[test]
fn leader_keys_show_a_hint_until_the_next_command() {
    let mut tui = dashboard();
    let mut state = fresh();
    run(&mut tui, &mut state, DashboardCommand::Leader);
    assert_eq!(tui.leader_hint, Some(LeaderHint::Root));
    run(&mut tui, &mut state, DashboardCommand::LeaderGit);
    assert_eq!(tui.leader_hint, Some(LeaderHint::Git));
    run(&mut tui, &mut state, DashboardCommand::Down);
    assert_eq!(tui.leader_hint, None);
}

#[test]
fn refused_commands_say_why() {
    for (panel, command, message) in [
        (
            PanelFocus::Status,
            DashboardCommand::Terminal,
            "focus repos or worktrees to open a terminal",
        ),
        (
            PanelFocus::Repos,
            DashboardCommand::VisibilityUp,
            "focus worktrees or merges to change visibility",
        ),
        (
            PanelFocus::Worktrees,
            DashboardCommand::PullDefault,
            "focus repos to pull the default branch",
        ),
        (
            PanelFocus::Worktrees,
            DashboardCommand::Create,
            "focus repos to create a worktree session",
        ),
        (
            PanelFocus::Repos,
            DashboardCommand::MigrateHarness,
            "focus worktrees or merges to migrate an agent harness",
        ),
        (
            PanelFocus::Worktrees,
            DashboardCommand::OpenRemotePrs,
            "focus repos to open a remote PR worktree",
        ),
        (
            PanelFocus::Repos,
            DashboardCommand::OpenRemotePrs,
            "remote PR listing is unavailable for this provider",
        ),
        (
            PanelFocus::Status,
            DashboardCommand::Delete,
            "focus worktrees to delete a worktree/session",
        ),
        (
            PanelFocus::Repos,
            DashboardCommand::Delete,
            "repository removal is available from r",
        ),
        (
            PanelFocus::Worktrees,
            DashboardCommand::Unarchive,
            "focus repos to unarchive a worktree",
        ),
        (
            PanelFocus::Repos,
            DashboardCommand::DeletePermanent,
            "focus worktrees or merges to permanently delete a worktree/session",
        ),
        (
            PanelFocus::Repos,
            DashboardCommand::RepoShortcut('7'),
            "no repository is bound to 7",
        ),
        (
            PanelFocus::Status,
            DashboardCommand::Search,
            "status panel has no filter",
        ),
    ] {
        let mut tui = dashboard();
        let mut state = fresh();
        tui.navigation.focused_panel = panel;
        assert_eq!(run(&mut tui, &mut state, command), CommandOutcome::Continue);
        assert_eq!(tui.status.message.as_deref(), Some(message));
        assert_eq!(tui.status.until_ms, Some(5_100));
    }
}

#[test]
fn commands_ask_for_their_work() {
    let perform = CommandOutcome::Perform;
    for (panel, command, outcome) in [
        (
            PanelFocus::Repos,
            DashboardCommand::LazyGit,
            perform(Task::RepoLazyGit),
        ),
        (
            PanelFocus::Worktrees,
            DashboardCommand::LazyGit,
            perform(Task::WorktreeLazyGit),
        ),
        (
            PanelFocus::Repos,
            DashboardCommand::Terminal,
            perform(Task::RepoTerminal),
        ),
        (
            PanelFocus::Repos,
            DashboardCommand::Refresh,
            perform(Task::ReorderRepositories),
        ),
        (
            PanelFocus::Worktrees,
            DashboardCommand::Refresh,
            perform(Task::RefreshSessions),
        ),
        (
            PanelFocus::Worktrees,
            DashboardCommand::VisibilityUp,
            perform(Task::SetVisibility(1, 1)),
        ),
        (
            PanelFocus::Worktrees,
            DashboardCommand::Push,
            perform(Task::Push),
        ),
        (
            PanelFocus::Worktrees,
            DashboardCommand::Merge,
            CommandOutcome::Continue,
        ),
        (
            PanelFocus::Worktrees,
            DashboardCommand::PreviousView,
            perform(Task::SaveListMode(WorktreeListMode::Global)),
        ),
        (
            PanelFocus::Worktrees,
            DashboardCommand::NextView,
            CommandOutcome::Continue,
        ),
        (
            PanelFocus::Repos,
            DashboardCommand::NextBlock,
            perform(Task::SelectWorkflow(Step::Next)),
        ),
    ] {
        let mut tui = dashboard();
        let mut state = fresh();
        tui.navigation.select_worktree(1);
        tui.navigation.focused_panel = panel;
        assert_eq!(run(&mut tui, &mut state, command), outcome);
        assert_eq!(tui.status.message, None);
    }
}

#[test]
fn errors_are_shown_under_the_title_of_their_work() {
    let mut tui = dashboard();
    let shown = tui.finish_task(Task::Push, Err("rejected".to_string()), 0);
    assert_eq!(shown, Ok(CommandOutcome::Continue));
    assert_eq!(tui.status.message.as_deref(), Some("push failed: rejected"));
    let passed_on = tui.finish_task(Task::EnterSelectedAgent, Err("gone".to_string()), 0);
    assert_eq!(passed_on, Err("gone".to_string()));
}

#[test]
fn work_that_is_done_changes_the_dashboard() {
    let mut tui = dashboard();
    let created = tui.finish_task(Task::CreateSession, Ok(true), 0);
    assert_eq!(created, Ok(CommandOutcome::Continue));
    assert_eq!(tui.navigation.focused_panel, PanelFocus::Worktrees);
    let _ = tui.finish_task(Task::SetVisibility(3, 2), Ok(true), 0);
    assert_eq!(tui.navigation.sessions[3].visibility, 2);
    let aborted = tui.finish_task(Task::CancelWorkflow, Ok(false), 0);
    assert_eq!(aborted, Ok(CommandOutcome::Perform(Task::AbortAgent)));
    tui.navigation.focused_panel = PanelFocus::Repos;
    let refused = tui.finish_task(Task::CancelWorkflow, Ok(false), 0);
    assert_eq!(refused, Ok(CommandOutcome::Continue));
    assert_eq!(
        tui.status.message.as_deref(),
        Some("focus worktrees or merges to abort an agent session")
    );
}

#[test]
fn enter_opens_the_selected_comment_before_anything_else() {
    let mut tui = dashboard();
    tui.navigation.focus_worktrees();
    tui.navigation.select_worktree(1);
    tui.navigation.sessions[1].pr.summary = Some(PrSummary {
        number: 1,
        identity: None,
        on_github: false,
        title: "PR".to_string(),
        author: "author".to_string(),
        body: String::new(),
        url: "https://example.test/pr/1".to_string(),
        review_decision: String::new(),
        requested_reviewers: Vec::new(),
        head_ref: "feature".to_string(),
        base_ref: "main".to_string(),
        head_sha: "abc123".to_string(),
        merge_state_status: String::new(),
        comment_count: 0,
        draft: false,
        state: "OPEN".to_string(),
        merged: false,
        finishing: false,
        updated_at: String::new(),
        check_status: String::new(),
        capabilities: Capabilities {
            list_change_requests: SupportLevel::Supported,
            fetch_change_request: SupportLevel::Supported,
            resolve_review_thread: SupportLevel::Supported,
            ci_logs: SupportLevel::Supported,
            review_threads: SupportLevel::Supported,
            guarded_merge: SupportLevel::Supported,
        },
    });
    tui.navigation.sessions[1].pr.details = Some(PrDetails {
        ci_failures: 0,
        reviews: 0,
        review_comments: Vec::new(),
        comment_rows: vec![CommentRow {
            kind: String::new(),
            author: String::new(),
            resolved: String::new(),
            context: String::new(),
            body: "text".to_string(),
        }],
    });
    let in_list = tui.finish_task(Task::WorkflowEnter, Ok(false), 0);
    assert_eq!(
        in_list,
        Ok(CommandOutcome::Perform(Task::EnterSelectedAgent))
    );
    tui.navigation.focus_main();
    let in_main = tui.finish_task(Task::WorkflowEnter, Ok(false), 0);
    assert_eq!(
        in_main,
        Ok(CommandOutcome::Perform(Task::ShowComment(1, 0)))
    );
    let taken = tui.finish_task(Task::WorkflowEnter, Ok(true), 0);
    assert_eq!(taken, Ok(CommandOutcome::Continue));
}

#[test]
fn searches_start_from_the_filter_of_their_list() {
    let mut tui = dashboard();
    tui.navigation.repo_filter = "one".to_string();
    assert_eq!(
        tui.search_prompt(),
        Some(("Search Repositories", "one".to_string()))
    );
    tui.navigation.focused_panel = PanelFocus::Merges;
    assert_eq!(
        tui.search_prompt(),
        Some(("Search Worktrees", String::new()))
    );
    tui.navigation.focused_panel = PanelFocus::Status;
    assert_eq!(tui.search_prompt(), None);
}

// ---------------------------------------------------------------------------
// The loop
// ---------------------------------------------------------------------------

#[test]
fn events_are_answered() {
    let mut tui = dashboard();
    let mut keys = KeyInput::default();
    let area = Rect {
        x: 0,
        y: 0,
        width: 100,
        height: 40,
    };
    let none = Rect {
        x: 0,
        y: 0,
        width: 0,
        height: 0,
    };
    let layout = SidebarLayout {
        width: 30,
        repos: Rect {
            x: 0,
            y: 4,
            width: 30,
            height: 8,
        },
        worktrees: none,
        merges: none,
    };
    let press = KeyEvent::new(KeyCode::Char('j'), KeyModifiers::none());
    assert_eq!(
        tui.handle_event(RuntimeEvent::Key(press), &mut keys, area, layout),
        LoopAction::Run(DashboardCommand::Down)
    );
    assert_eq!(
        tui.handle_event(RuntimeEvent::Resize, &mut keys, area, layout),
        LoopAction::Draw
    );
    assert_eq!(
        tui.handle_event(RuntimeEvent::FocusGained, &mut keys, area, layout),
        LoopAction::PollAndDraw
    );
    assert_eq!(
        tui.handle_event(RuntimeEvent::FocusLost, &mut keys, area, layout),
        LoopAction::Ignore
    );
    let click = RuntimeEvent::Mouse {
        kind: MouseKind::LeftDown,
        x: 2,
        y: 6,
    };
    assert_eq!(
        tui.handle_event(click, &mut keys, area, layout),
        LoopAction::Draw
    );
    assert_eq!(tui.navigation.current_repo, 1);
    let unused = RuntimeEvent::Mouse {
        kind: MouseKind::Unused,
        x: 2,
        y: 6,
    };
    assert_eq!(
        tui.handle_event(unused, &mut keys, area, layout),
        LoopAction::Ignore
    );
}

#[test]
fn any_change_is_drawn() {
    assert!(!TuiBackgroundChanges::default().any());
    let changes = TuiBackgroundChanges {
        dashboard_output: true,
        ..TuiBackgroundChanges::default()
    };
    assert!(changes.any());
}

#[test]
fn an_empty_dashboard_asks_for_a_repository() {
    let mut tui = Tui::new(Vec::new(), 3, Vec::new(), 0);
    assert!(tui.needs_first_repository());
    tui.first_repository_added(Err("no such directory".to_string()), 0);
    assert_eq!(
        tui.status.message.as_deref(),
        Some("add repository failed: no such directory")
    );
    assert!(!dashboard().needs_first_repository());
}

// ---------------------------------------------------------------------------
// Results of background work
// ---------------------------------------------------------------------------

#[test]
fn tui_tick_terminal_budget_retains_every_remaining_outcome() {
    let mut tui = dashboard();
    let mut waiting: Vec<JobMetadata> = (0..100)
        .map(|id| JobMetadata {
            id,
            kind: TuiJobKind::WorkflowMaintenance,
            key: TuiJobKey::Inventory,
            generation: 0,
        })
        .collect();
    let mut router = Router::for_tick(0);
    while router.next(1) == RoutePhase::Terminals {
        match waiting.pop() {
            Some(metadata) => {
                router.took();
                tui.take_terminal(&metadata, &JobOutcome::Completed, None);
            }
            None => router.exhausted(),
        }
    }
    assert_eq!(router.processed, 32);
    assert_eq!(waiting.len(), 68);
}

#[test]
fn a_late_round_still_takes_one_end() {
    let mut router = Router::new(32, 5);
    assert_eq!(router.next(9), RoutePhase::Terminals);
    router.took();
    assert_eq!(router.next(9), RoutePhase::Finished);
    let mut idle = Router::new(32, 5);
    idle.exhausted();
    assert_eq!(idle.next(9), RoutePhase::Finished);
    let mut early = Router::new(32, 5);
    early.exhausted();
    assert_eq!(early.next(4), RoutePhase::Urgent);
    early.exhausted();
    assert_eq!(early.next(4), RoutePhase::Stream);
    early.exhausted();
    assert_eq!(early.next(4), RoutePhase::Rest);
    early.exhausted();
    assert_eq!(early.next(4), RoutePhase::Finished);
}

#[test]
fn deletions_and_the_selected_worktree_come_first() {
    let mut tui = dashboard();
    tui.navigation.focus_worktrees();
    tui.navigation.select_worktree(1);
    let selected = tui.selected_worktree_key();
    let poll = |index: usize| JobMetadata {
        id: 1,
        kind: TuiJobKind::OpencodePoll,
        key: TuiJobKey::Opencode(generation(&tui, index, 0)),
        generation: 0,
    };
    assert_eq!(job_priority(&selected, &delete_job(&tui, 3)), 0);
    assert_eq!(job_priority(&selected, &poll(1)), 1);
    assert_eq!(job_priority(&selected, &poll(3)), 3);
    assert_eq!(job_priority(&None, &poll(1)), 3);
}

#[test]
fn a_failed_deletion_shows_the_worktree_again() {
    let mut tui = dashboard();
    let job = delete_job(&tui, 3);
    tui.navigation.sessions[3].hidden = true;
    tui.tracker
        .delete_sessions_in_flight
        .insert(generation(&tui, 3, 0));
    let effects = tui.take_terminal(&job, &JobOutcome::Failed("busy".to_string()), None);
    assert!(!tui.navigation.sessions[3].hidden);
    assert!(tui.tracker.delete_sessions_in_flight.is_empty());
    assert_eq!(effects.refresh_worktrunk, Some(1));
    assert!(effects.refresh_sessions);
}

#[test]
fn the_slot_of_a_deletion_is_kept_until_its_result_comes() {
    let mut tui = dashboard();
    let job = delete_job(&tui, 3);
    tui.tracker
        .delete_sessions_in_flight
        .insert(generation(&tui, 3, 0));
    tui.take_terminal(&job, &JobOutcome::Completed, None);
    assert_eq!(tui.tracker.delete_sessions_in_flight.len(), 1);
    tui.drop_result(&job);
    assert!(tui.tracker.delete_sessions_in_flight.is_empty());
}

#[test]
fn a_failed_refresh_is_repeated() {
    let mut tui = dashboard();
    tui.tracker.session_refresh_in_flight = true;
    let job = JobMetadata {
        id: 1,
        kind: TuiJobKind::SessionRefresh,
        key: TuiJobKey::Inventory,
        generation: 0,
    };
    let effects = tui.take_terminal(&job, &JobOutcome::DeadlineExceeded, None);
    assert!(effects.restart_refresh);
    assert!(!tui.tracker.session_refresh_in_flight);
    assert!(!tui.tracker.session_refresh_pending);
    let effects = tui.take_terminal(&job, &JobOutcome::Completed, None);
    assert!(!effects.restart_refresh);
}

#[test]
fn stale_opencode_job_payload_is_rejected_after_generation_changes() {
    let mut tui = dashboard();
    let key = generation(&tui, 1, 0);
    tui.tracker.opencode_polls_in_flight.insert(key.copy_key());
    let job = JobMetadata {
        id: 9,
        kind: TuiJobKind::OpencodePoll,
        key: TuiJobKey::Opencode(key.copy_key()),
        generation: 0,
    };
    assert!(tui.result_is_taken(&job));
    tui.tracker
        .worktree_generations
        .insert(key.worktree.copy_key(), 1);
    assert!(!tui.result_is_taken(&job));
    assert_eq!(tui.stale_jobs(&vec![job]), vec![9]);
}

#[test]
fn failed_changes_to_remotes_are_reported_and_marked() {
    let mut tui = dashboard();
    tui.background.track_remote_action(7, unknown_change());
    let job = JobMetadata {
        id: 7,
        kind: TuiJobKind::RemoteAction,
        key: TuiJobKey::Inventory,
        generation: 9,
    };
    assert!(tui.result_is_taken(&job));
    let outcome = JobOutcome::DeadlineExceeded;
    let request = tui.marker_for_terminal(&job, &outcome).unwrap();
    assert_eq!(request.error, "remote action timed out");
    assert_eq!(request.context.ledger, "ledger");
    tui.take_terminal(&job, &outcome, Some("disk full".to_string()));
    assert!(!tui.background.remote_action_is_tracked(7));
    assert_eq!(
        tui.background.take_remote_failure(7).as_deref(),
        Some("remote action timed out; disk full")
    );
    assert_eq!(tui.background.take_shutdown_errors(), ["disk full"]);
    assert!(tui
        .marker_for_terminal(&job, &JobOutcome::Canceled)
        .is_none());
}

#[test]
fn unread_markers_keep_every_change_request_closed() {
    let mut tui = dashboard();
    let job = JobMetadata {
        id: 2,
        kind: TuiJobKind::RemoteReconciliation,
        key: TuiJobKey::System,
        generation: 0,
    };
    tui.take_terminal(&job, &JobOutcome::Panicked("oops".to_string()), None);
    let text = "remote mutation marker loading failed; coordinated mutations remain blocked";
    for session in &tui.navigation.sessions {
        assert_eq!(session.pr.reconciliation.as_deref(), Some(text));
    }
    assert_eq!(tui.background.take_shutdown_errors(), [text]);
}

#[test]
fn columns_of_a_failed_poll_are_stale() {
    let mut tui = dashboard();
    let job = JobMetadata {
        id: 2,
        kind: TuiJobKind::WorktreeColumns,
        key: TuiJobKey::Repository(WorktreeRepositoryKey::new("/repo-two".to_string())),
        generation: 0,
    };
    let effects = tui.take_terminal(&job, &JobOutcome::Failed("slow".to_string()), None);
    assert_eq!(effects.stale_columns, Some(1));
    let effects = tui.take_terminal(&job, &JobOutcome::Canceled, None);
    assert_eq!(effects.stale_columns, None);
}

// ---------------------------------------------------------------------------
// The end
// ---------------------------------------------------------------------------

#[test]
fn shutdown_notification_requests_the_matching_run_loop_exit_path() {
    let mut notification = ShutdownNotification::new();
    assert_eq!(requested_shutdown(&notification), None);

    notification.request(ShutdownSignal::Sigterm);

    assert_eq!(
        requested_shutdown(&notification),
        Some(ShutdownReason::Sigterm)
    );
}

#[test]
fn an_error_of_the_loop_is_what_the_run_gives() {
    let failed = || RunOutcome::Failed("injected draw error".to_string());
    assert_eq!(shutdown_reason(&failed(), None), ShutdownReason::RunError);
    assert!(matches!(
        finish_run(failed(), None, Ok(())),
        RunEnd::Return(Err(error)) if error == "injected draw error"
    ));
    assert!(matches!(
        finish_run(failed(), None, Err("stuck".to_string())),
        RunEnd::RecordAndReturn(failure, Err(error))
            if failure == "stuck" && error == "injected draw error"
    ));
}

#[test]
fn a_signal_counts_before_an_error_of_the_loop() {
    let mut notification = ShutdownNotification::new();
    notification.request(ShutdownSignal::Sigterm);
    let outcome = RunOutcome::Failed("interactive subprocess canceled".to_string());
    assert_eq!(
        shutdown_reason(&outcome, notification.signal),
        ShutdownReason::Sigterm
    );
    assert!(matches!(
        finish_run(outcome, notification.signal, Ok(())),
        RunEnd::Return(Ok(()))
    ));
}

#[test]
fn a_panic_goes_on_after_the_cleanup() {
    assert_eq!(
        shutdown_reason(&RunOutcome::Panicked, Some(ShutdownSignal::Sigint)),
        ShutdownReason::Panic
    );
    assert!(matches!(
        finish_run(RunOutcome::Panicked, None, Ok(())),
        RunEnd::Resume
    ));
    assert!(matches!(
        finish_run(RunOutcome::Panicked, None, Err("stuck".to_string())),
        RunEnd::RecordAndResume(failure) if failure == "stuck"
    ));
    assert_eq!(
        cleanup_panic_message(None),
        "TUI cleanup panicked: non-string panic payload"
    );
    assert_eq!(
        cleanup_panic_message(Some("index")),
        "TUI cleanup panicked: index"
    );
}

#[test]
fn the_end_goes_through_its_stages() {
    let mut tui = dashboard();
    let idle = CleanupFacts {
        elapsed_ms: 0,
        registry_has_jobs: false,
        routed: 0,
    };
    let mut stage = CleanupStage::Deliveries;
    let mut seen = vec![stage];
    while stage != CleanupStage::Done {
        stage = tui.next_cleanup_stage(stage, idle);
        seen.push(stage);
    }
    assert_eq!(
        seen,
        [
            CleanupStage::Deliveries,
            CleanupStage::Admission,
            CleanupStage::Servers,
            CleanupStage::Mutations,
            CleanupStage::Jobs,
            CleanupStage::Drain,
            CleanupStage::Report,
            CleanupStage::Done,
        ]
    );
    tui.background.track_remote_action(7, unknown_change());
    let waiting = CleanupFacts {
        elapsed_ms: 1_799_999,
        ..idle
    };
    assert_eq!(
        tui.next_cleanup_stage(CleanupStage::Mutations, waiting),
        CleanupStage::Mutations
    );
    let over = CleanupFacts {
        elapsed_ms: 1_800_000,
        ..idle
    };
    assert_eq!(
        tui.next_cleanup_stage(CleanupStage::Mutations, over),
        CleanupStage::Unfinished
    );
    let busy = CleanupFacts {
        elapsed_ms: 1_999,
        registry_has_jobs: true,
        routed: 0,
    };
    assert_eq!(
        tui.next_cleanup_stage(CleanupStage::Jobs, busy),
        CleanupStage::Jobs
    );
    let late = CleanupFacts {
        elapsed_ms: 2_000,
        ..busy
    };
    assert_eq!(
        tui.next_cleanup_stage(CleanupStage::Jobs, late),
        CleanupStage::Drain
    );
}

#[test]
fn overdue_changes_are_marked() {
    let mut tui = dashboard();
    tui.background.track_remote_action(7, unknown_change());
    let active = |id: u64| JobMetadata {
        id,
        kind: TuiJobKind::RemoteAction,
        key: TuiJobKey::Inventory,
        generation: 0,
    };
    assert_eq!(
        tui.unfinished_mutations(&vec![active(3), active(7)]),
        vec![7]
    );
    assert_eq!(
        tui.marker_for_overdue_action(7).unwrap().error,
        "remote mutation exceeded the 1800s TUI shutdown bound"
    );
    assert_eq!(
        tui.marker_for_overdue_action(3).unwrap_err(),
        "remote mutation is missing its reconciliation target"
    );
}

#[test]
fn results_at_the_end_are_taken_once() {
    let mut tui = dashboard();
    tui.background.track_remote_action(7, unknown_change());
    assert!(!tui.takes_late_result(7));
    tui.background.begin_shutdown(1);
    assert!(tui.takes_late_result(7));
    tui.take_late_result(7, Err("lost".to_string()), Err("disk full".to_string()));
    assert!(!tui.takes_late_result(7));
    assert_eq!(
        tui.background.take_remote_failure(7).as_deref(),
        Some("lost; disk full")
    );
    assert_eq!(
        tui.finish_cleanup(vec!["first".to_string()], 2),
        Err(
            "first; disk full; detached 2 uncooperative job(s) after shutdown grace period"
                .to_string()
        )
    );
    assert_eq!(tui.finish_cleanup(Vec::new(), 0), Ok(()));
}

#[test]
fn results_that_had_come_in_before_the_end_are_settled() {
    let mut tui = dashboard();
    assert_eq!(tui.take_routed_result(7, Ok(()), Ok(())), None);
    tui.background.track_remote_action(7, unknown_change());
    assert_eq!(
        tui.take_routed_result(7, Err("lost".to_string()), Err("full".to_string())),
        Some("lost; full".to_string())
    );
    assert!(!tui.background.remote_action_is_tracked(7));
}

#[test]
fn unsure_results_have_to_be_looked_into() {
    assert_eq!(
        shutdown_action_result(Err("timeout".to_string()), Ok(()), None),
        Err("remote mutation result requires reconciliation: timeout".to_string())
    );
    assert_eq!(
        shutdown_action_result(
            Ok(RemoteActionKind::Push),
            Err("no session".to_string()),
            None
        ),
        Err("no session".to_string())
    );
    assert_eq!(
        shutdown_action_result(
            Ok(RemoteActionKind::Complete),
            Err("no session".to_string()),
            None
        ),
        Ok(())
    );
    assert_eq!(
        shutdown_action_result(
            Ok(RemoteActionKind::Merge),
            Ok(()),
            Some("queued".to_string())
        ),
        Err("remote mutation completion requires reconciliation: queued".to_string())
    );
}

#[test]
fn what_a_change_brought_is_stored_with_its_worktree() {
    let mut tui = dashboard();
    let key = TuiJobKey::Worktree(generation(&tui, 3, 0).worktree);
    assert_eq!(tui.shutdown_cache_target(&key), Ok(3));
    let mut cache = pr_cache();
    cache.last_refreshed = Some("now".to_string());
    tui.store_cache(3, cache);
    assert_eq!(
        tui.navigation.sessions[3].pr.last_refreshed.as_deref(),
        Some("now")
    );
    assert_eq!(
        tui.shutdown_cache_target(&TuiJobKey::System),
        Err("remote mutation worktree no longer exists".to_string())
    );
}

/// A dashboard that listens to the events of an agent, and the work that does so.
fn listening(label: &str) -> (Tui, Vec<JobMetadata>) {
    let root = format!("/tmp/prism-cleanup-{label}");
    let mut tui = Tui::new(
        vec![managed(&root, None)],
        0,
        vec![session(0, &format!("{root}/worktree"), "feature")],
        0,
    );
    let stream = || OpencodeListenerKey {
        worktree: identity_key(&root, &tui.navigation.sessions[0]),
        generation: 0,
        session_id: "ses_1".to_string(),
        server_url: "http://127.0.0.1:41000".to_string(),
    };
    let (kept, named) = (stream(), stream());
    tui.tracker.opencode_listeners.insert(kept);
    let job = JobMetadata {
        id: 1,
        kind: TuiJobKind::OpencodeListener,
        key: TuiJobKey::OpencodeListener(named),
        generation: 0,
    };
    (tui, vec![job])
}

/// Ends a dashboard whose work stops as soon as it is cancelled; gives back how many pieces
/// of work were active and what the end reports.
fn clean_up(tui: &mut Tui, active: &mut Vec<JobMetadata>) -> (usize, Result<(), String>) {
    let count = tui.background.begin_shutdown(active.len());
    let mut stopped: Vec<JobMetadata> = Vec::new();
    let mut stage = CleanupStage::Deliveries;
    let mut report = Ok(());
    while stage != CleanupStage::Done {
        let mut routed = 0;
        match stage {
            CleanupStage::Admission => {
                let kept = tui.background.stop_admission_for_shutdown().unwrap();
                let (left, cancelled): (Vec<_>, Vec<_>) = active
                    .drain(..)
                    .partition(|job| kept.contains(&job.id));
                *active = left;
                stopped = cancelled;
            }
            CleanupStage::Mutations | CleanupStage::Jobs | CleanupStage::Drain => {
                while let Some(job) = stopped.pop() {
                    tui.take_terminal(&job, &JobOutcome::Canceled, None);
                    routed += 1;
                }
            }
            CleanupStage::Report => report = tui.finish_cleanup(Vec::new(), active.len()),
            _ => {}
        }
        let facts = CleanupFacts {
            elapsed_ms: 0,
            registry_has_jobs: !active.is_empty() || !stopped.is_empty(),
            routed,
        };
        stage = tui.next_cleanup_stage(stage, facts);
    }
    (count, report)
}

#[test]
fn cleanup_cancels_and_joins_listener_job() {
    let (mut tui, mut active) = listening("user-quit");

    let (active_jobs, report) = clean_up(&mut tui, &mut active);

    assert_eq!(report, Ok(()));
    assert!(!tui.background.has_jobs(!active.is_empty()));
    assert!(tui.tracker.opencode_listeners.is_empty());
    assert_eq!(
        shutdown_message(ShutdownReason::UserQuit, active_jobs as u64, 0),
        "TUI shutdown cleanup finished: reason=user_quit, active_jobs=1, unfinished_jobs=0"
    );
}

#[test]
fn run_error_path_cleans_up_active_listener() {
    let (mut tui, mut active) = listening("run-error");
    let outcome = RunOutcome::Failed("injected draw error".to_string());

    assert_eq!(shutdown_reason(&outcome, None), ShutdownReason::RunError);
    let (_, report) = clean_up(&mut tui, &mut active);
    let RunEnd::Return(Err(error)) = finish_run(outcome, None, report) else {
        panic!("the error of the loop is what the run gives");
    };

    assert_eq!(error, "injected draw error");
    assert!(!tui.background.has_jobs(!active.is_empty()));
    assert!(tui.tracker.opencode_listeners.is_empty());
}

#[test]
fn sigterm_exit_path_cleans_up_active_listener() {
    let (mut tui, mut active) = listening("sigterm");
    let mut notification = ShutdownNotification::new();
    notification.request(ShutdownSignal::Sigterm);
    assert_eq!(
        requested_shutdown(&notification),
        Some(ShutdownReason::Sigterm)
    );
    let outcome = RunOutcome::Failed("interactive subprocess canceled".to_string());

    let (_, report) = clean_up(&mut tui, &mut active);
    let end = finish_run(outcome, notification.signal, report);

    assert!(matches!(end, RunEnd::Return(Ok(()))));
    assert!(!tui.background.has_jobs(!active.is_empty()));
    assert!(tui.tracker.opencode_listeners.is_empty());
}

// ---------------------------------------------------------------------------
// Harnesses
// ---------------------------------------------------------------------------

#[test]
fn a_changed_default_harness_is_asked_about() {
    let tui = dashboard();
    let other = HarnessAssociation {
        harness_id: "codex".to_string(),
        keep: false,
    };
    let list = prepare_worktree_harness_for_open(&tui.navigation, 1, &other).unwrap();
    assert_eq!(list.title, "Worktree Harness Changed");
    let labels: Vec<(&str, &str)> = list
        .choices
        .iter()
        .map(|choice| (choice.key.as_str(), choice.label.as_str()))
        .collect();
    assert_eq!(
        labels,
        [
            ("m", "Migrate to opencode"),
            ("l", "Later; open codex and ask next time"),
            ("k", "Keep codex; stop asking"),
        ]
    );
    let kept = HarnessAssociation {
        harness_id: "codex".to_string(),
        keep: true,
    };
    assert!(prepare_worktree_harness_for_open(&tui.navigation, 1, &kept).is_none());
    assert_eq!(harness_choice(Some("m")), HarnessChoice::Migrate);
    assert_eq!(harness_choice(Some("k")), HarnessChoice::Keep);
    assert_eq!(harness_choice(Some("l")), HarnessChoice::Later);
    assert_eq!(harness_choice(None), HarnessChoice::Later);
}

#[test]
fn worktrees_move_to_the_default_harness() {
    let tui = dashboard();
    let association = |id: &str, keep: bool| HarnessAssociation {
        harness_id: id.to_string(),
        keep,
    };
    assert!(matches!(
        migrate_worktree_harness(&tui.navigation, 9, &association("codex", false)),
        Migration::Nothing
    ));
    assert!(matches!(
        migrate_worktree_harness(&tui.navigation, 1, &association("opencode", false)),
        Migration::AlreadyUses(message) if message == "worktree already uses harness 'opencode'"
    ));
    assert!(matches!(
        migrate_worktree_harness(&tui.navigation, 1, &association("opencode", true)),
        Migration::Move { target, message }
            if target == "opencode" && message == "migrated worktree to harness 'opencode'"
    ));
}

#[test]
fn the_default_harness_is_not_the_default_agent() {
    let mut tui = dashboard();
    tui.navigation.repos[0].config.default_agent = "custom".to_string();
    tui.navigation.repos[0].config.default_harness = "codex".to_string();
    let association = |id: &str| HarnessAssociation {
        harness_id: id.to_string(),
        keep: false,
    };
    assert!(prepare_worktree_harness_for_open(&tui.navigation, 1, &association("codex")).is_none());
    let list = prepare_worktree_harness_for_open(&tui.navigation, 1, &association("custom"));
    assert_eq!(list.unwrap().choices[0].label, "Migrate to codex");
    assert!(matches!(
        migrate_worktree_harness(&tui.navigation, 1, &association("custom")),
        Migration::Move { target, .. } if target == "codex"
    ));
}

#[test]
fn harnesses_of_worktrees_that_are_gone_are_forgotten() {
    let mut tui = dashboard();
    let wanted = tui
        .harnesses
        .refresh_worktree_harness_configs(&tui.navigation);
    assert_eq!(wanted, [0, 1, 2, 3]);
    let first = generation(&tui, 0, 0).worktree;
    let last = generation(&tui, 3, 0).worktree;
    tui.harnesses.learn(first.copy_key(), "opencode".to_string());
    tui.harnesses.learn(first.copy_key(), "codex".to_string());
    tui.harnesses.learn(last.copy_key(), "codex".to_string());
    assert_eq!(
        tui.harnesses.get(&first).map(String::as_str),
        Some("opencode")
    );
    tui.navigation.sessions.pop();
    let wanted = tui
        .harnesses
        .refresh_worktree_harness_configs(&tui.navigation);
    assert_eq!(wanted, [1, 2]);
    assert!(tui.harnesses.get(&last).is_none());
    tui.tracker.session_refresh_in_flight = true;
    let wanted = tui
        .harnesses
        .reload_worktree_harness_config(&mut tui.tracker, &tui.navigation, 0);
    assert_eq!(wanted, [0, 1, 2]);
    assert_eq!(tui.tracker.session_inventory_generation, 1);
    assert!(tui.tracker.session_refresh_pending);
}
