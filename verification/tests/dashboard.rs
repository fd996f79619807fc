use prism::frame::repo_pr_rows;
use prism::frame::Programs;
use prism::frame::TmuxPortalCapture;
use prism::frame::TmuxPortalSnapshot;
use prism::frame::TmuxPortalState;
use prism::git_actions::git_action_enabled;
use prism::git_actions::GitAction;
use prism::keys::identity_key;
use prism::keys::PrPollKey;
use prism::keys::WorktreeGeneration;
use prism::keys::WorktreeRepositoryKey;
use prism::model::AgentState;
use prism::model::Capabilities;
use prism::model::CommentRow;
use prism::model::Config;
use prism::model::ManagedRepo;
use prism::model::NotificationSettings;
use prism::model::PrCache;
use prism::model::PrDetails;
use prism::model::PrSummary;
use prism::model::Repository;
use prism::model::ReviewComment;
use prism::model::Session;
use prism::model::SupportLevel;
use prism::navigation::OpenTmuxSessionTarget;
use prism::navigation::PanelFocus;
use prism::navigation::RepoMainView;
use prism::navigation::WorktreeListMode;
use prism::navigation::WorktreeMainView;
use prism::runs::AutoRun;
use prism::runs::AutoRunStatus;
use prism::runs::PlanRun;
use prism::runs::PlanRunStatus;
use prism::runs::PlanStep;
use prism::runs::PlanStepStatus;
use prism::status::HealthIcons;
use prism::table::Key;
use prism::table::Table;
use prism::tui::Tui;

fn test_config() -> Config {
    Config {
        default_agent: "opencode".to_string(),
        default_harness: "opencode".to_string(),
        default_branch: "main".to_string(),
        shell: "/bin/sh".to_string(),
        headless_agent: true,
        notifications: NotificationSettings { bits: 0 },
        tools: Table::new(),
        agent_commands: Table::new(),
    }
}

fn no_pr() -> PrCache {
    PrCache {
        summary: None,
        details: None,
        details_trusted: false,
        last_refreshed: None,
        reconciliation: None,
    }
}

fn observed(summary: PrSummary, details: Option<PrDetails>) -> PrCache {
    PrCache {
        summary: Some(summary),
        details,
        details_trusted: true,
        last_refreshed: None,
        reconciliation: None,
    }
}

fn no_details() -> PrDetails {
    PrDetails {
        ci_failures: 0,
        reviews: 0,
        review_comments: Vec::new(),
        comment_rows: Vec::new(),
    }
}

fn test_session(repo_index: usize, root: &str, branch: &str) -> Session {
    let path = format!("{root}/{branch}");
    Session {
        repo_index,
        repo_label: format!("repo-{repo_index}"),
        branch: branch.to_string(),
        path: path.clone(),
        path_display: path,
        prompt_summary: String::new(),
        classification: "work".to_string(),
        wt_columns: Vec::new(),
        worktree_session_id: String::new(),
        visibility: 0,
        hidden: false,
        unseen_comments: false,
        agent_state: AgentState::Idle,
        status_label: "clean".to_string(),
        dirty_files: None,
        behind_commits: None,
        pr: no_pr(),
        opencode_status: None,
    }
}

fn all_supported() -> Capabilities {
    Capabilities {
        list_change_requests: SupportLevel::Supported,
        fetch_change_request: SupportLevel::Supported,
        resolve_review_thread: SupportLevel::Supported,
        ci_logs: SupportLevel::Supported,
        review_threads: SupportLevel::Supported,
        guarded_merge: SupportLevel::Supported,
    }
}

fn test_pr_summary(merged: bool) -> PrSummary {
    PrSummary {
        number: 1,
        identity: None,
        on_github: false,
        title: "PR".to_string(),
        author: "author".to_string(),
        body: String::new(),
        url: "https://example.test/pr/1".to_string(),
        review_decision: String::new(),
        requested_reviewers: Vec::new(),
        head_ref: "feature".to_string(),
        base_ref: "main".to_string(),
        head_sha: "abc123".to_string(),
        merge_state_status: String::new(),
        comment_count: 0,
        draft: false,
        state: if merged { "MERGED" } else { "OPEN" }.to_string(),
        merged,
        finishing: false,
        updated_at: String::new(),
        check_status: String::new(),
        capabilities: all_supported(),
    }
}

fn managed(root: &str, key: Option<char>) -> ManagedRepo {
    ManagedRepo::new(
        Repository {
            root: root.to_string(),
            root_hash: 1,
        },
        test_config(),
        root.trim_start_matches('/').to_string(),
        key,
    )
}

fn test_tui() -> Tui {
    let repos = vec![managed("/repo-one", Some('1')), managed("/repo-two", Some('2'))];
    let sessions = vec![
        test_session(0, "/repo-one", "main"),
        test_session(0, "/repo-one", "feature-one"),
        test_session(1, "/repo-two", "main"),
        test_session(1, "/repo-two", "feature-two"),
    ];
    Tui::new(repos, 0, sessions, 0)
}

fn single(root: &str, sessions: Vec<Session>) -> Tui {
    Tui::new(vec![managed(root, None)], 0, sessions, 0)
}

fn test_auto_run(id: &str, worktree_path: &str, updated_unix_ms: u64) -> AutoRun {
    AutoRun {
        id: id.to_string(),
        repo_root: "/repo-one".to_string(),
        worktree_path: worktree_path.to_string(),
        status: AutoRunStatus::Running,
        selected_step_run_id: None,
        updated_unix_ms,
        steps: Vec::new(),
        record: String::new(),
    }
}

fn test_plan_run(id: &str, scope_path: &str) -> PlanRun {
    PlanRun {
        id: id.to_string(),
        repo_root: "/repo-one".to_string(),
        scope_path: scope_path.to_string(),
        plan_display: "plan.md".to_string(),
        status: PlanRunStatus::Running,
        selected_step: 1,
        updated_unix_ms: 1,
        archived_unix_ms: None,
        steps: Vec::new(),
        record: String::new(),
    }
}

fn test_plan_run_with_steps(id: &str, scope_path: &str, selected_step: usize) -> PlanRun {
    let mut run = test_plan_run(id, scope_path);
    run.selected_step = selected_step;
    run.steps = (1..=3)
        .map(|step| PlanStep {
            step,
            status: if step == selected_step {
                PlanStepStatus::Running
            } else {
                PlanStepStatus::Queued
            },
            started_unix_ms: if step == selected_step {
                Some(step as u64)
            } else {
                None
            },
            finished_unix_ms: None,
        })
        .collect();
    run
}

fn icons() -> HealthIcons {
    HealthIcons {
        attention: "!".to_string(),
        pull_requests: "P".to_string(),
        ci_failed: "x".to_string(),
        ci_running: "~".to_string(),
        behind: "<".to_string(),
    }
}

#[test]
fn running_agent_does_not_block_quit() {
    let mut session = test_session(0, "/tmp/repo", "feature");
    session.agent_state = AgentState::Running;
    let mut tui = single("/tmp/repo", vec![session]);

    assert!(tui.confirm_quit(0));
    assert!(tui.status.message.is_none());
}

#[test]
fn git_actions_disable_pr_operations_until_a_pr_is_known() {
    let mut tui = single("/tmp/repo", vec![test_session(0, "/tmp/repo", "feature")]);
    tui.navigation.focused_panel = PanelFocus::Worktrees;
    let enabled =
        |tui: &Tui, action: GitAction| git_action_enabled(&tui.navigation, action, false);

    assert!(enabled(&tui, GitAction::Push));
    assert!(!enabled(&tui, GitAction::OpenPr));
    assert!(!enabled(&tui, GitAction::Merge));

    tui.navigation.sessions[0].pr = observed(test_pr_summary(false), None);
    assert!(enabled(&tui, GitAction::OpenPr));
    assert!(enabled(&tui, GitAction::Merge));
    assert!(!enabled(&tui, GitAction::CiFix));
    let mut failing = no_details();
    failing.ci_failures = 1;
    tui.navigation.sessions[0].pr = observed(test_pr_summary(false), Some(failing));
    assert!(enabled(&tui, GitAction::CiFix));

    tui.navigation.sessions[0].pr = observed(test_pr_summary(true), None);
    assert!(enabled(&tui, GitAction::OpenPr));
    assert!(!enabled(&tui, GitAction::Merge));
    assert!(!enabled(&tui, GitAction::ReviewFix));

    let mut closed = test_pr_summary(false);
    closed.state = "CLOSED".to_string();
    tui.navigation.sessions[0].pr = observed(closed, None);
    assert!(enabled(&tui, GitAction::OpenPr));
    assert!(!enabled(&tui, GitAction::Merge));
    assert!(!enabled(&tui, GitAction::CiFix));
}

#[test]
fn review_resolution_action_requires_main_panel_and_unresolved_threads() {
    let mut tui = single("/tmp/repo", vec![test_session(0, "/tmp/repo", "feature")]);
    tui.navigation.focused_panel = PanelFocus::Worktrees;
    let enabled = |tui: &Tui| {
        git_action_enabled(&tui.navigation, GitAction::ResolveAllComments, false)
    };
    let commented = |thread: &str, resolved: bool| {
        let mut details = no_details();
        details.review_comments = vec![ReviewComment {
            thread_id: thread.to_string(),
            resolved,
        }];
        observed(test_pr_summary(false), Some(details))
    };
    tui.navigation.sessions[0].pr = commented("thread-1", false);

    assert!(!enabled(&tui));

    tui.navigation.focus_main();
    assert!(enabled(&tui));

    tui.navigation.sessions[0].pr.details_trusted = false;
    assert!(!enabled(&tui));

    tui.navigation.sessions[0].pr = commented("  ", false);
    assert!(!enabled(&tui));

    tui.navigation.sessions[0].pr = commented("thread-1", true);
    assert!(!enabled(&tui));
}

#[test]
fn submit_review_requires_the_configured_gh_executable() {
    let mut tui = single("/tmp/repo", Vec::new());
    tui.navigation.focused_panel = PanelFocus::Repos;
    tui.navigation.main_focused = true;
    tui.navigation.repos[0].pr_summaries = vec![test_pr_summary(false)];
    let enabled = |tui: &Tui, gh: bool| {
        git_action_enabled(&tui.navigation, GitAction::SubmitReview, gh)
    };

    assert!(!enabled(&tui, false));
    assert!(enabled(&tui, true));

    tui.navigation.main_focused = false;
    assert!(!enabled(&tui, true));
}

#[test]
fn only_open_requests_are_reviewed() {
    let mut tui = single("/tmp/repo", Vec::new());
    tui.navigation.focused_panel = PanelFocus::Repos;
    tui.navigation.main_focused = true;
    let request = |state: &str, identity: Option<&str>, on_github: bool| {
        let mut summary = test_pr_summary(false);
        summary.state = state.to_string();
        summary.identity = identity.map(str::to_string);
        summary.on_github = on_github;
        summary
    };
    let mut enabled = |summaries: Vec<PrSummary>| {
        tui.navigation.repos[0].pr_summaries = summaries;
        git_action_enabled(&tui.navigation, GitAction::SubmitReview, true)
    };

    assert!(!enabled(vec![request("DRAFT", Some("github:1"), true)]));
    assert!(!enabled(vec![request("OPEN", Some("gitlab:1"), false)]));
    assert!(enabled(vec![request("open", Some("github:1"), true)]));
    assert!(!enabled(vec![test_pr_summary(true)]));
    assert!(!enabled(Vec::new()));
}

#[test]
fn rows_are_those_of_open_requests() {
    let mut tui = single("/tmp/repo", Vec::new());
    tui.navigation.focused_panel = PanelFocus::Repos;
    let request = |number: u64, state: &str, identity: Option<&str>| {
        let mut summary = test_pr_summary(false);
        summary.number = number;
        summary.state = state.to_string();
        summary.identity = identity.map(str::to_string);
        summary
    };
    tui.navigation.repos[0].pr_summaries = vec![
        request(1, "DRAFT", Some("github:1")),
        request(2, "OPEN", None),
        request(3, "CLOSED", Some("github:3")),
        request(4, "Open", Some("github:4")),
        test_pr_summary(true),
    ];
    let rows = |tui: &Tui| -> Vec<(usize, u64, bool)> {
        repo_pr_rows(&tui.navigation)
            .into_iter()
            .map(|row| (row.position, row.summary.number, row.selected))
            .collect()
    };

    assert_eq!(rows(&tui), [(1, 2, false), (3, 4, false)]);
    assert_eq!(tui.navigation.selected_repo_pr_number(), None);
    assert_eq!(tui.navigation.request_for_review(), Some(1));

    tui.navigation.focus_main();
    assert_eq!(tui.navigation.selected_repo_pr_number(), Some(1));
    tui.navigation.move_down();
    assert_eq!(tui.navigation.selected_repo_pr_number(), Some(4));
    assert_eq!(rows(&tui), [(1, 2, false), (3, 4, true)]);
    assert_eq!(tui.navigation.request_for_review(), Some(3));
}

#[test]
fn request_actions_belong_to_the_worktrees_panel() {
    let mut merging = test_session(0, "/tmp/repo", "feature");
    let mut details = no_details();
    details.review_comments = vec![ReviewComment {
        thread_id: "thread-1".to_string(),
        resolved: false,
    }];
    merging.pr = observed(test_pr_summary(false), Some(details));
    let mut tui = single("/tmp/repo", vec![merging]);
    let enabled = |tui: &Tui, action: GitAction| {
        git_action_enabled(&tui.navigation, action, false)
    };
    tui.navigation.focused_panel = PanelFocus::Worktrees;
    tui.navigation.main_focused = true;
    assert!(enabled(&tui, GitAction::ResolveAllComments));
    assert!(enabled(&tui, GitAction::Push));

    if let Some(summary) = &mut tui.navigation.sessions[0].pr.summary {
        summary.finishing = true;
    }
    tui.navigation.focused_panel = PanelFocus::Merges;
    assert_eq!(tui.navigation.selected_worktree_index(), Some(0));
    assert!(!enabled(&tui, GitAction::ResolveAllComments));
    assert!(!enabled(&tui, GitAction::OpenPr));
    assert!(!enabled(&tui, GitAction::Push));
}

#[test]
fn tmux_portal_keeps_previous_capture_while_new_selection_loads() {
    let mut tui = single(
        "/tmp/repo",
        vec![
            test_session(0, "/tmp/repo-a", "feature-a"),
            test_session(0, "/tmp/repo-b", "feature-b"),
        ],
    );
    tui.navigation.focused_panel = PanelFocus::Worktrees;
    let previous = identity_key("/tmp/repo", &tui.navigation.sessions[0]);
    let selected = identity_key("/tmp/repo", &tui.navigation.sessions[1]);
    tui.tracker.tmux_generations.insert(previous.copy_key(), 0);
    tui.tracker.tmux_generations.insert(selected.copy_key(), 0);
    tui.portal = Some(TmuxPortalSnapshot {
        key: WorktreeGeneration {
            worktree: previous.copy_key(),
            generation: 0,
        },
        capture: Some(TmuxPortalCapture {
            key: WorktreeGeneration {
                worktree: previous,
                generation: 0,
            },
            result: Ok(vec!["previous capture".to_string()]),
        }),
    });
    tui.navigation.select_worktree(1);

    let programs = Programs {
        lazygit: false,
        gh: false,
    };
    let settings = test_config();
    let model = tui
        .frame_model(&icons(), programs, "/", &settings)
        .tmux_portal
        .expect("tmux portal model");
    let TmuxPortalState::Ready(lines) = model.state else {
        panic!("previous capture should survive the selection redraw");
    };
    assert_eq!(model.branch, "feature-a");
    assert_eq!(lines, ["previous capture"]);
}

#[test]
fn tui_defaults_to_repos_panel_focus() {
    let tui = test_tui();

    assert_eq!(tui.navigation.focused_panel, PanelFocus::Repos);
}

#[test]
fn switching_repos_does_not_change_worktree_selection_until_worktrees_focus() {
    let mut tui = test_tui();

    tui.navigation.select_worktree(1);
    tui.navigation.select_repo(1);

    assert_eq!(tui.navigation.selected, 1);

    tui.navigation.focus_worktrees();

    assert_eq!(tui.navigation.selected_worktree_index(), Some(3));
}

#[test]
fn repeated_worktree_focus_does_not_change_list_mode() {
    let mut tui = test_tui();
    tui.navigation.focus_worktrees();

    assert_eq!(tui.navigation.worktree_list_mode, WorktreeListMode::Repo);
    assert_eq!(tui.navigation.visible_session_indices(), vec![1]);

    tui.navigation.focus_worktrees();

    assert_eq!(tui.navigation.worktree_list_mode, WorktreeListMode::Repo);
    assert_eq!(tui.navigation.visible_session_indices(), vec![1]);
}

#[test]
fn switching_from_global_to_repo_mode_preserves_selected_worktree() {
    let mut tui = test_tui();
    tui.navigation.worktree_list_mode = WorktreeListMode::Global;
    tui.navigation.focus_worktrees();
    tui.navigation.select_worktree(1);
    tui.navigation.select_repo(1);
    tui.navigation.sessions[3].hidden = true;

    tui.navigation
        .switch_worktree_list_mode(WorktreeListMode::Repo);

    assert_eq!(tui.navigation.current_repo, 0);
    assert_eq!(tui.navigation.selected_worktree_index(), Some(1));
}

#[test]
fn persisted_worktree_list_mode_is_taken_over_and_updates_on_switch() {
    let mut tui = test_tui();

    tui.use_persisted_ui_state(Ok(Some(WorktreeListMode::Global)), 0);

    assert_eq!(tui.navigation.worktree_list_mode, WorktreeListMode::Global);

    tui.navigation.focus_worktrees();
    assert!(tui
        .navigation
        .switch_worktree_list_mode(WorktreeListMode::Repo));

    assert_eq!(tui.navigation.worktree_list_mode, WorktreeListMode::Repo);
}

#[test]
fn unreadable_ui_state_keeps_the_mode_and_is_reported() {
    let mut tui = Tui::new(Vec::new(), 0, Vec::new(), 0);

    tui.use_persisted_ui_state(Err("/tmp/ui-state.toml: not a mode".to_string()), 7);

    assert_eq!(tui.navigation.worktree_list_mode, WorktreeListMode::Repo);
    assert_eq!(
        tui.status.message.as_deref(),
        Some("UI state was not loaded; keeping the current mode: /tmp/ui-state.toml: not a mode")
    );
    assert!(!tui.expire_status_message(5_006));
    assert!(tui.expire_status_message(5_007));
    assert!(tui.status.message.is_none());
}

#[test]
fn worktree_filter_clear_restores_remembered_worktree() {
    let mut tui = test_tui();
    tui.navigation.select_worktree(1);

    tui.navigation.worktree_filter = "main".to_string();
    tui.navigation.restore_selected_worktree_for_repo();

    assert_eq!(tui.navigation.selected_worktree_index(), None);

    tui.navigation.worktree_filter.clear();
    tui.navigation.restore_selected_worktree_for_repo();

    assert_eq!(tui.navigation.selected_worktree_index(), Some(1));
}

#[test]
fn hidden_sessions_are_not_visible_in_normal_worktree_list() {
    let mut tui = test_tui();
    tui.navigation.sessions[1].hidden = true;
    tui.navigation.selected = 1;

    assert!(!tui.navigation.visible_session_indices().contains(&1));
    assert_eq!(tui.navigation.selected_worktree_index(), None);
}

#[test]
fn horizontal_keys_switch_repo_view_without_changing_focus() {
    let mut tui = test_tui();
    tui.navigation.focused_panel = PanelFocus::Repos;

    tui.navigation.move_right();

    assert_eq!(tui.navigation.focused_panel, PanelFocus::Repos);
    assert_eq!(tui.navigation.repo_main_view, RepoMainView::ChangeRequests);

    tui.navigation.focus_main();
    tui.navigation.move_right();

    assert_eq!(tui.navigation.focused_panel, PanelFocus::Repos);
    assert_eq!(tui.navigation.repo_main_view, RepoMainView::Kanban);

    tui.navigation.move_left();

    assert_eq!(tui.navigation.focused_panel, PanelFocus::Repos);
    assert_eq!(tui.navigation.repo_main_view, RepoMainView::ChangeRequests);

    tui.navigation.focused_panel = PanelFocus::Worktrees;
    tui.navigation.main_focused = false;
    tui.navigation.move_left();

    assert_eq!(tui.navigation.focused_panel, PanelFocus::Worktrees);
    assert_eq!(tui.navigation.repo_main_view, RepoMainView::ChangeRequests);
}

#[test]
fn main_panel_scrolls_when_pr_comments_are_selectable() {
    let mut tui = test_tui();
    tui.navigation.focus_worktrees();
    tui.navigation.select_worktree(1);
    let row = |body: &str| CommentRow {
        kind: String::new(),
        author: String::new(),
        resolved: String::new(),
        context: String::new(),
        body: body.to_string(),
    };
    let mut details = no_details();
    details.comment_rows = vec![row("first comment"), row("second comment")];
    tui.navigation.sessions[1].pr = observed(test_pr_summary(false), Some(details));
    tui.navigation.focus_main();

    tui.move_down();

    assert_eq!(tui.navigation.main_scroll, 1);
    assert_eq!(tui.navigation.selected_comment, 1);

    tui.move_up();

    assert_eq!(tui.navigation.main_scroll, 0);
    assert_eq!(tui.navigation.selected_comment, 0);
}

#[test]
fn sidebar_navigation_leaves_main_focus() {
    let mut tui = test_tui();
    tui.navigation.focus_main();

    tui.navigation.focus_repos();
    assert!(!tui.navigation.main_focused);
    assert_eq!(tui.navigation.focused_panel, PanelFocus::Repos);

    tui.navigation.focus_main();
    tui.navigation.focus_next_panel();
    assert!(!tui.navigation.main_focused);
    assert_eq!(tui.navigation.focused_panel, PanelFocus::Worktrees);
}

#[test]
fn worktree_plan_dashboard_is_not_gated_by_horizontal_keys() {
    let mut tui = test_tui();
    tui.navigation.focused_panel = PanelFocus::Worktrees;
    tui.navigation.select_worktree(1);
    tui.remember_plan_run(test_plan_run("plan", "/repo-one/feature-one"));

    assert_eq!(tui.worktree_main_view, WorktreeMainView::Details);
    assert!(tui.book.current_plan_dashboard(&tui.navigation).is_some());

    tui.navigation.move_left();

    assert_eq!(tui.navigation.focused_panel, PanelFocus::Worktrees);
    assert_eq!(tui.worktree_main_view, WorktreeMainView::Details);
    assert!(tui.book.current_plan_dashboard(&tui.navigation).is_some());

    tui.navigation.focus_main();
    tui.navigation.move_right();

    assert_eq!(tui.navigation.focused_panel, PanelFocus::Worktrees);
    assert_eq!(tui.worktree_main_view, WorktreeMainView::Details);
    assert!(tui.book.current_plan_dashboard(&tui.navigation).is_some());

    tui.navigation.move_left();

    assert_eq!(tui.navigation.focused_panel, PanelFocus::Worktrees);
    assert_eq!(tui.worktree_main_view, WorktreeMainView::Details);
    assert!(tui.book.current_plan_dashboard(&tui.navigation).is_some());
}

#[test]
fn plan_runs_for_same_worktree_keep_independent_selection_history() {
    let mut tui = test_tui();
    tui.navigation.focused_panel = PanelFocus::Worktrees;
    tui.navigation.select_worktree(1);
    tui.worktree_main_view = WorktreeMainView::Plan;
    let mut first = test_plan_run("plan-a", "/repo-one/feature-one");
    first.updated_unix_ms = 10;
    let mut second = test_plan_run("plan-b", "/repo-one/feature-one");
    second.updated_unix_ms = 20;

    tui.remember_plan_run(first);
    tui.remember_plan_run(second);

    let dashboard = tui.book.current_plan_dashboard(&tui.navigation).unwrap();
    assert_eq!(dashboard.run.id, "plan-a");
    assert_eq!(dashboard.runs.len(), 2);

    assert!(tui.book.move_plan_run_selection(&tui.navigation, 1));

    let dashboard = tui.book.current_plan_dashboard(&tui.navigation).unwrap();
    assert_eq!(dashboard.run.id, "plan-b");
    assert_eq!(dashboard.runs.iter().filter(|run| run.selected).count(), 1);
}

#[test]
fn open_tmux_session_target_blocks_status_enter() {
    let mut tui = test_tui();
    tui.navigation.focused_panel = PanelFocus::Status;

    assert_eq!(
        tui.open_tmux_session_target(),
        OpenTmuxSessionTarget::Blocked("status has no Enter action")
    );
}

#[test]
fn open_tmux_session_target_blocks_status_enter_with_auto_run() {
    let mut tui = test_tui();
    tui.navigation.focused_panel = PanelFocus::Status;
    tui.remember_auto_run(test_auto_run("auto", "/repo-one/feature-one", 20));

    assert_eq!(
        tui.open_tmux_session_target(),
        OpenTmuxSessionTarget::Blocked("status has no Enter action")
    );
}

#[test]
fn open_tmux_session_target_opens_repo_default_from_repos() {
    let mut tui = test_tui();
    tui.navigation.focused_panel = PanelFocus::Repos;

    assert_eq!(
        tui.open_tmux_session_target(),
        OpenTmuxSessionTarget::RepoDefaultAgent(0)
    );
}

#[test]
fn open_tmux_session_target_ignores_worktree_filter_for_repo_default() {
    let mut tui = test_tui();
    tui.navigation.focused_panel = PanelFocus::Repos;
    tui.navigation.worktree_filter = "missing".to_string();

    assert_eq!(
        tui.open_tmux_session_target(),
        OpenTmuxSessionTarget::RepoDefaultAgent(0)
    );
}

#[test]
fn open_tmux_session_target_opens_feature_worktree_agent() {
    let mut tui = test_tui();
    tui.navigation.focused_panel = PanelFocus::Worktrees;
    tui.navigation.select_worktree(1);

    assert_eq!(
        tui.open_tmux_session_target(),
        OpenTmuxSessionTarget::WorktreeAgent
    );
}

#[test]
fn open_tmux_session_target_opens_selected_plan_phase_from_main() {
    let mut tui = test_tui();
    tui.navigation.focused_panel = PanelFocus::Worktrees;
    tui.navigation.select_worktree(1);
    tui.navigation.focus_main();
    tui.remember_plan_run(test_plan_run_with_steps("plan", "/repo-one/feature-one", 1));

    assert_eq!(
        tui.open_tmux_session_target(),
        OpenTmuxSessionTarget::PlanPhaseAgent
    );
}

#[test]
fn open_tmux_session_target_blocks_default_branch_in_worktree_panel() {
    let mut tui = test_tui();
    tui.navigation.focused_panel = PanelFocus::Worktrees;
    tui.navigation.select_worktree(0);

    assert_eq!(
        tui.open_tmux_session_target(),
        OpenTmuxSessionTarget::Blocked("selected repository has no visible worktrees")
    );
}

#[test]
fn selected_repo_identity_survives_repo_reordering() {
    let mut tui = test_tui();
    tui.navigation.select_repo(1);
    tui.navigation.repos.swap(0, 1);
    for session in &mut tui.navigation.sessions {
        session.repo_index = 1 - session.repo_index;
    }

    tui.navigation.ensure_navigation_valid();

    assert_eq!(tui.navigation.current_repo, 0);
    let current = tui.navigation.selected_repo_context().unwrap();
    assert_eq!(tui.navigation.repos[current].repo.root, "/repo-two");
}

#[test]
fn status_auto_dashboard_uses_selected_run() {
    let mut tui = test_tui();
    tui.navigation.focused_panel = PanelFocus::Status;
    tui.remember_auto_run(test_auto_run("run-a", "/repo-one/a-worktree", 10));
    tui.remember_auto_run(test_auto_run("run-b", "/repo-one/z-worktree", 20));
    tui.book.selected_auto_run = Some("run-b".to_string());

    let dashboard = tui.book.current_auto_dashboard(&tui.navigation).unwrap();

    assert_eq!(dashboard.run.id, "run-b");
    assert_eq!(dashboard.run.worktree_path, "/repo-one/z-worktree");
}

#[test]
fn standalone_plan_dashboard_is_hidden_outside_worktrees() {
    let mut tui = test_tui();
    tui.navigation.focused_panel = PanelFocus::Status;
    tui.remember_plan_run(test_plan_run("plan", "/repo-one"));

    assert!(tui.book.current_plan_dashboard(&tui.navigation).is_none());

    tui.navigation.focused_panel = PanelFocus::Repos;

    assert!(tui.book.current_plan_dashboard(&tui.navigation).is_none());
}

#[test]
fn plan_step_selection_follows_persisted_active_step_until_manual_navigation() {
    let mut tui = test_tui();
    let mut run = test_plan_run_with_steps("plan", "/repo-one/feature-one", 1);
    let selected = |tui: &Tui| {
        tui.book
            .selected_plan_step_by_run
            .get(&"plan".to_string())
            .copied()
    };

    tui.remember_plan_run(run.copy());
    assert_eq!(selected(&tui), Some(1));

    run.selected_step = 2;
    run.steps[0].status = PlanStepStatus::Done;
    run.steps[0].finished_unix_ms = Some(20);
    run.steps[1].status = PlanStepStatus::Running;
    run.steps[1].started_unix_ms = Some(30);
    tui.remember_plan_run(run.copy());
    assert_eq!(selected(&tui), Some(2));

    tui.navigation.focused_panel = PanelFocus::Worktrees;
    tui.navigation.select_worktree(1);
    tui.worktree_main_view = WorktreeMainView::Plan;
    tui.book.move_plan_step_selection(&tui.navigation, -1);
    assert_eq!(selected(&tui), Some(1));

    run.selected_step = 3;
    run.steps[1].status = PlanStepStatus::Done;
    run.steps[1].finished_unix_ms = Some(40);
    run.steps[2].status = PlanStepStatus::Running;
    run.steps[2].started_unix_ms = Some(50);
    tui.remember_plan_run(run);
    assert_eq!(selected(&tui), Some(1));
}

#[test]
fn plan_step_selection_prefers_latest_finished_step_after_completion() {
    let mut tui = test_tui();
    let mut run = test_plan_run_with_steps("plan", "/repo-one", 1);
    run.status = PlanRunStatus::Done;
    run.selected_step = 1;
    for (index, step) in run.steps.iter_mut().enumerate() {
        step.status = PlanStepStatus::Done;
        step.finished_unix_ms = Some(10 + index as u64);
    }

    tui.remember_plan_run(run);

    assert_eq!(
        tui.book.selected_plan_step_by_run.get(&"plan".to_string()),
        Some(&3)
    );
}

#[test]
fn pr_poll_identity_uses_repository_and_worktree_generation_not_repo_order() {
    let repository = WorktreeRepositoryKey::new("/tmp/repo".to_string());
    let mut session = test_session(0, "/tmp/repo", "feature");
    let first = PrPollKey::for_repository_session_generation(&repository, &session, 3);

    session.repo_index = 9;
    let reordered = PrPollKey::for_repository_session_generation(&repository, &session, 3);
    let recreated = PrPollKey::for_repository_session_generation(&repository, &session, 4);

    assert!(first.same_key(&reordered));
    assert!(!first.same_key(&recreated));
}
