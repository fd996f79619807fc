use prism::agent_state::accept_external_agent_state_change;
use prism::agent_state::agent_observation;
use prism::agent_state::apply_agent_state;
use prism::agent_state::reseed_desktop_notifications;
use prism::agent_state::AgentObservationMode;
use prism::dashboard::DashboardOutputLines;
use prism::dialog::press_choice;
use prism::dialog::ChoiceEnd;
use prism::dialog::ChoiceList;
use prism::dialog::ConfirmDialog;
use prism::dialog::HelpDialog;
use prism::dialog::KeyChoice;
use prism::dialog::NoticeDialog;
use prism::dialog::PromptDialog;
use prism::dialog::PromptEnd;
use prism::dialog::Verdict;
use prism::form::form_field;
use prism::form::pick_workflow_file;
use prism::form::picked_file;
use prism::form::validate_workflow_form;
use prism::form::FormCheck;
use prism::form::FormDialog;
use prism::form::FormVerdict;
use prism::form::WorkflowInput;
use prism::frame::leader_hint_model;
use prism::frame::repo_pr_rows;
use prism::frame::repo_rows;
use prism::frame::worktree_rows;
use prism::frame::LeaderHint;
use prism::frame::Programs;
use prism::frame::WorktreeKind;
use prism::git_actions::git_action_enabled;
use prism::git_actions::git_action_execution;
use prism::git_actions::git_action_for_command;
use prism::git_actions::remote_pr_list_choice;
use prism::git_actions::GitAction;
use prism::git_actions::GitActionExecution;
use prism::input::DashboardCommand;
use prism::input::KeyCode;
use prism::input::KeyEvent;
use prism::input::KeyModifiers;
use prism::jobs::cleanup_failure_message;
use prism::jobs::repository_root_for_job_key;
use prism::jobs::shutdown_message;
use prism::jobs::terminal_message;
use prism::jobs::JobMetadata;
use prism::jobs::JobOutcome;
use prism::jobs::LogLevel;
use prism::jobs::QueueStats;
use prism::jobs::ShutdownReason;
use prism::jobs::TuiJobKey;
use prism::jobs::TuiJobKind;
use prism::keys::identity_key;
use prism::keys::DashboardOutputKey;
use prism::keys::WorktreeRepositoryKey;
use prism::model::AgentState;
use prism::model::Capabilities;
use prism::model::CommentRow;
use prism::model::Config;
use prism::model::ManagedRepo;
use prism::model::NotificationSettings;
use prism::model::PrCache;
use prism::model::PrSummary;
use prism::model::Repository;
use prism::model::Session;
use prism::model::SupportLevel;
use prism::model::WtColumn;
use prism::navigation::PanelFocus;
use prism::notices::archive_lines;
use prism::notices::comment_lines;
use prism::notices::delete_lines;
use prism::notices::keybinding_items;
use prism::notices::recovery_decisions;
use prism::notices::recovery_items;
use prism::notices::WorkflowEntry;
use prism::order::less;
use prism::order::path_before;
use prism::run_book::PlanStepKey;
use prism::run_book::WorkflowPollSnapshot;
use prism::runs::preferred_plan_step;
use prism::runs::PlanRun;
use prism::runs::PlanRunStatus;
use prism::runs::PlanStep;
use prism::runs::PlanStepStatus;
use prism::shell::command_line;
use prism::shell::split_command_words;
use prism::status::HealthIcons;
use prism::table::Key;
use prism::table::KeySet;
use prism::table::Table;
use prism::toggle::OrderedToggleItem;
use prism::toggle::ToggleDialog;
use prism::toggle::ToggleEnd;
use prism::text::is_same_path;
use prism::tui::Tui;

fn press(code: KeyCode) -> KeyEvent {
    KeyEvent::new(code, KeyModifiers::none())
}

fn config() -> Config {
    Config {
        default_agent: "opencode".to_string(),
        default_harness: "opencode".to_string(),
        default_branch: "main".to_string(),
        shell: "/bin/sh".to_string(),
        headless_agent: true,
        notifications: NotificationSettings { bits: 0 },
        tools: Table::new(),
        agent_commands: Table::new(),
    }
}

fn session(repo_index: usize, root: &str, branch: &str) -> Session {
    let path = format!("{root}/{branch}");
    Session {
        repo_index,
        repo_label: format!("repo-{repo_index}"),
        branch: branch.to_string(),
        path: path.clone(),
        path_display: path,
        prompt_summary: String::new(),
        classification: "work".to_string(),
        wt_columns: Vec::new(),
        worktree_session_id: String::new(),
        visibility: 0,
        hidden: false,
        unseen_comments: false,
        agent_state: AgentState::Idle,
        status_label: "clean".to_string(),
        dirty_files: None,
        behind_commits: None,
        pr: PrCache {
            summary: None,
            details: None,
            details_trusted: false,
            last_refreshed: None,
            reconciliation: None,
        },
        opencode_status: None,
    }
}

fn managed(root: &str, key: Option<char>) -> ManagedRepo {
    ManagedRepo::new(
        Repository {
            root: root.to_string(),
            root_hash: 1,
        },
        config(),
        root.trim_start_matches('/').to_string(),
        key,
    )
}

fn dashboard() -> Tui {
    Tui::new(
        vec![managed("/repo-one", Some('1')), managed("/repo-two", Some('2'))],
        0,
        vec![
            session(0, "/repo-one", "main"),
            session(0, "/repo-one", "feature-one"),
            session(1, "/repo-two", "main"),
            session(1, "/repo-two", "feature-two"),
        ],
        0,
    )
}

fn supported() -> Capabilities {
    Capabilities {
        list_change_requests: SupportLevel::Supported,
        fetch_change_request: SupportLevel::Supported,
        resolve_review_thread: SupportLevel::Supported,
        ci_logs: SupportLevel::Supported,
        review_threads: SupportLevel::Supported,
        guarded_merge: SupportLevel::Supported,
    }
}

fn open_request(number: u64) -> PrSummary {
    PrSummary {
        number,
        identity: Some(format!("github:{number}")),
        on_github: true,
        title: "PR".to_string(),
        author: "author".to_string(),
        body: String::new(),
        url: "https://example.test/pr/1".to_string(),
        review_decision: String::new(),
        requested_reviewers: Vec::new(),
        head_ref: "feature".to_string(),
        base_ref: "main".to_string(),
        head_sha: "abc123".to_string(),
        merge_state_status: String::new(),
        comment_count: 0,
        draft: false,
        state: "OPEN".to_string(),
        merged: false,
        finishing: false,
        updated_at: String::new(),
        check_status: String::new(),
        capabilities: supported(),
    }
}

fn plan_run(id: &str, path: &str) -> PlanRun {
    PlanRun {
        id: id.to_string(),
        repo_root: "/repo-one".to_string(),
        scope_path: path.to_string(),
        plan_display: "plan.md".to_string(),
        status: PlanRunStatus::Running,
        selected_step: 1,
        updated_unix_ms: 1,
        archived_unix_ms: None,
        steps: Vec::new(),
        record: String::new(),
    }
}

// ---------------------------------------------------------------------------
// Dialogs
// ---------------------------------------------------------------------------

#[test]
fn typing_edits_a_line_from_its_end() {
    let mut prompt = PromptDialog {
        input: "ab".to_string(),
    };
    assert_eq!(prompt.press(press(KeyCode::Char('é'))), Verdict::Open);
    assert_eq!(prompt.input, "abé");
    assert_eq!(prompt.press(press(KeyCode::Backspace)), Verdict::Open);
    assert_eq!(prompt.press(press(KeyCode::Backspace)), Verdict::Open);
    assert_eq!(prompt.input, "a");
    assert_eq!(
        prompt.press(KeyEvent::new(KeyCode::Char('x'), KeyModifiers::control())),
        Verdict::Open
    );
    assert_eq!(prompt.input, "a");
    assert_eq!(
        prompt.press(press(KeyCode::Enter)),
        Verdict::Closed(PromptEnd::Submitted)
    );
    assert_eq!(
        prompt.press(press(KeyCode::Esc)),
        Verdict::Closed(PromptEnd::Cancelled)
    );
}

#[test]
fn an_answer_that_means_nothing_keeps_the_question_open() {
    let mut question = ConfirmDialog::new(true);
    for c in "maybe".chars() {
        question.press(press(KeyCode::Char(c)));
    }
    assert_eq!(question.press(press(KeyCode::Enter)), Verdict::Open);
    assert!(question.invalid);
    assert_eq!(question.input, "");
    question.press(press(KeyCode::Char('N')));
    assert_eq!(question.press(press(KeyCode::Enter)), Verdict::Closed(false));
    assert_eq!(question.press(press(KeyCode::Esc)), Verdict::Closed(true));
}

#[test]
fn notices_scroll_and_close() {
    let mut notice = NoticeDialog { scroll: 0 };
    assert_eq!(notice.press(press(KeyCode::Up)), Verdict::Open);
    assert_eq!(notice.scroll, 0);
    assert_eq!(notice.press(press(KeyCode::Char('j'))), Verdict::Open);
    assert_eq!(notice.scroll, 1);
    assert_eq!(notice.press(press(KeyCode::Char('q'))), Verdict::Closed(()));
}

#[test]
fn help_is_filtered_while_the_filter_is_edited() {
    let mut help = HelpDialog::new();
    assert_eq!(help.press(press(KeyCode::Char('/'))), Verdict::Open);
    assert_eq!(help.press(press(KeyCode::Char('g'))), Verdict::Open);
    assert_eq!(help.filter, "g");
    assert_eq!(help.press(press(KeyCode::Enter)), Verdict::Open);
    assert!(!help.editing_filter);
    assert_eq!(help.press(press(KeyCode::Down)), Verdict::Open);
    assert_eq!(help.scroll, 1);
    assert_eq!(help.press(press(KeyCode::Char('x'))), Verdict::Closed(()));
}

#[test]
fn a_key_chooses_its_option() {
    let list = ChoiceList {
        title: "Pick".to_string(),
        choices: vec![KeyChoice::new("M", "merge"), KeyChoice::disabled("x", "stop")],
    };
    assert!(matches!(
        press_choice(&list, press(KeyCode::Char('m'))),
        Some(ChoiceEnd::Chosen(key)) if key == "m"
    ));
    assert!(press_choice(&list, press(KeyCode::Char('x'))).is_none());
    assert!(matches!(
        press_choice(&list, press(KeyCode::Esc)),
        Some(ChoiceEnd::Cancelled)
    ));
}

#[test]
fn switches_are_accepted_in_their_order() {
    let item = |id: &str, enabled: bool| OrderedToggleItem {
        id: id.to_string(),
        label: id.to_string(),
        enabled,
    };
    let mut dialog = ToggleDialog::ordered(vec![
        item("a", false),
        item("b", true),
        item("c", true),
    ]);
    dialog.press(press(KeyCode::Char('J')));
    let accepted = dialog.press(press(KeyCode::Enter));
    assert!(matches!(
        accepted,
        Verdict::Closed(ToggleEnd::Accepted(ids)) if ids == ["c", "b"]
    ));
    let mut fixed = ToggleDialog::fixed(vec![item("0", false), item("1", false)]);
    fixed.press(press(KeyCode::Down));
    fixed.press(press(KeyCode::Char(' ')));
    let accepted = fixed.press(press(KeyCode::Enter));
    assert!(matches!(
        accepted,
        Verdict::Closed(ToggleEnd::Accepted(ids)) if ids == ["1"]
    ));
}

// ---------------------------------------------------------------------------
// Forms
// ---------------------------------------------------------------------------

#[test]
fn fields_say_what_they_take() {
    let of = |input: WorkflowInput| form_field("name", &input, &None, &None, true).constraint;
    let text = |min, max| {
        of(WorkflowInput::Text {
            min_length: min,
            max_length: max,
        })
    };
    assert_eq!(text(Some(1), Some(80)).as_deref(), Some("1–80 chars"));
    assert_eq!(text(Some(3), None).as_deref(), Some("at least 3 chars"));
    assert_eq!(text(None, Some(9)).as_deref(), Some("at most 9 chars"));
    assert_eq!(text(None, None), None);
    assert_eq!(
        of(WorkflowInput::Number {
            min: Some("0.5".to_string()),
            max: None
        })
        .as_deref(),
        Some("at least 0.5")
    );
    assert_eq!(
        of(WorkflowInput::Choice {
            options: vec!["a".to_string(), "b".to_string()]
        })
        .as_deref(),
        Some("2 options")
    );
    assert_eq!(of(WorkflowInput::Bool), None);
}

#[test]
fn keys_edit_the_selected_field() {
    let options = vec!["low".to_string(), "high".to_string()];
    let mut form = FormDialog::new(vec![
        form_field(
            "title",
            &WorkflowInput::Text {
                min_length: None,
                max_length: None,
            },
            &None,
            &None,
            true,
        ),
        form_field("fast", &WorkflowInput::Bool, &None, &None, false),
        form_field(
            "level",
            &WorkflowInput::Choice { options },
            &Some("low".to_string()),
            &None,
            false,
        ),
        form_field(
            "file",
            &WorkflowInput::File {
                glob: "*.md".to_string(),
            },
            &None,
            &None,
            false,
        ),
    ]);
    form.press(press(KeyCode::Char('h')));
    form.press(press(KeyCode::Char('i')));
    assert_eq!(form.fields[0].value, "hi");
    form.press(press(KeyCode::Tab));
    form.press(press(KeyCode::Char(' ')));
    assert_eq!(form.fields[1].value, "true");
    form.press(press(KeyCode::Down));
    form.press(press(KeyCode::Right));
    assert_eq!(form.fields[2].value, "high");
    form.press(press(KeyCode::Right));
    assert_eq!(form.fields[2].value, "high");
    form.press(press(KeyCode::Enter));
    assert_eq!(form.dropdown, Some(1));
    form.press(press(KeyCode::Char('k')));
    form.press(press(KeyCode::Enter));
    assert_eq!(form.dropdown, None);
    assert_eq!(form.fields[2].value, "low");
    form.press(press(KeyCode::Down));
    assert_eq!(form.press(press(KeyCode::Enter)), FormVerdict::PickFile(3));
    form.picked(3, Err("no files".to_string()));
    assert_eq!(form.error.as_deref(), Some("no files"));
    form.picked(3, Ok(Some("notes.md".to_string())));
    form.press(press(KeyCode::Down));
    assert_eq!(form.error, None);
    assert_eq!(form.press(press(KeyCode::Enter)), FormVerdict::Submit);
    assert_eq!(form.press(press(KeyCode::Esc)), FormVerdict::Cancelled);
}

#[test]
fn values_are_checked_one_after_the_other() {
    let input = WorkflowInput::Bool;
    let fields = vec![
        form_field("a", &input, &None, &None, true),
        form_field("b", &input, &None, &None, true),
    ];
    let defaults = vec![Some("true".to_string()), None];
    assert!(matches!(
        validate_workflow_form(&fields, &defaults, &vec![]),
        FormCheck::Check(0, raw) if raw == "true"
    ));
    assert!(matches!(
        validate_workflow_form(&fields, &defaults, &vec![Ok("true".to_string())]),
        FormCheck::Invalid(1, problem) if problem == "Workflow input 'b' is required"
    ));
    assert!(matches!(
        validate_workflow_form(&fields, &defaults, &vec![Err("odd".to_string())]),
        FormCheck::Invalid(0, problem) if problem == "Workflow input 'a': odd"
    ));
    let both = vec![Some("true".to_string()), Some("false".to_string())];
    let checked = vec![Ok("true".to_string()), Ok("false".to_string())];
    assert!(matches!(
        validate_workflow_form(&fields, &both, &checked),
        FormCheck::Passed(values) if values == ["true", "false"]
    ));
}

#[test]
fn the_file_picker_can_be_left() {
    assert_eq!(
        pick_workflow_file("plan", "*.md", "/work", 0),
        Err("no files match '*.md' under /work".to_string())
    );
    assert_eq!(
        pick_workflow_file("plan", "*.md", "/work", 2).unwrap(),
        [
            "--prompt=plan> ",
            "--header=Select a file matching *.md",
            "--height=80%",
            "--reverse",
        ]
    );
    assert_eq!(picked_file(Some(130), false, "exit status: 130", ""), Ok(None));
    assert_eq!(
        picked_file(Some(2), false, "exit status: 2", ""),
        Err("Workflow input picker exited with exit status: 2".to_string())
    );
    assert_eq!(
        picked_file(Some(0), true, "exit status: 0", "a.md\r\n"),
        Ok(Some("a.md".to_string()))
    );
    assert_eq!(picked_file(Some(0), true, "exit status: 0", "\n"), Ok(None));
}

// ---------------------------------------------------------------------------
// Texts
// ---------------------------------------------------------------------------

#[test]
fn questions_name_the_worktree_and_its_warnings() {
    let lines = |list: Vec<prism::notices::DialogLine>| -> Vec<(String, bool)> {
        list.into_iter()
            .map(|line| (line.text, line.attention))
            .collect()
    };
    assert_eq!(
        lines(delete_lines("feature", "/work", &vec!["dirty".to_string()])),
        [
            ("branch: feature".to_string(), false),
            ("path: /work".to_string(), false),
            ("dirty".to_string(), true),
        ]
    );
    let archive = lines(archive_lines("feature", "/work", &Vec::new()));
    assert_eq!(
        archive[2].0,
        "No warnings detected; worktree files stay on disk."
    );
    assert_eq!(archive.len(), 4);
    let comment = lines(comment_lines(&CommentRow {
        kind: "inline".to_string(),
        author: "ada".to_string(),
        resolved: "No".to_string(),
        context: "  ".to_string(),
        body: "why?".to_string(),
    }));
    assert_eq!(comment.len(), 5);
    assert_eq!(comment[2], ("resolved: No".to_string(), true));
    assert_eq!(comment[4].0, "why?");
}

#[test]
fn interrupted_work_is_offered_with_its_age() {
    let entry = |recover: bool, heartbeat: Option<i64>| WorkflowEntry {
        recover,
        repo_label: "repo".to_string(),
        worktree: "feature".to_string(),
        step: None,
        heartbeat_unix_ms: heartbeat,
    };
    let items = recovery_items(
        &vec![entry(false, None), entry(true, Some(1_000)), entry(true, Some(0))],
        60_999,
    );
    let labels: Vec<&str> = items.iter().map(|item| item.label.as_str()).collect();
    assert_eq!(
        labels,
        [
            "repo / feature  Workflow  Workflow  59s ago",
            "repo / feature  Workflow  Workflow  1m ago",
        ]
    );
    assert_eq!(items[1].id, "1");
    assert_eq!(
        recovery_decisions(2, &vec!["1".to_string()]),
        vec![false, true]
    );
    let mut tui = dashboard();
    tui.show_recovery_warnings(&Vec::new(), 0);
    assert_eq!(tui.status.message, None);
    tui.show_recovery_warnings(&vec!["a".to_string(), "b".to_string()], 0);
    assert_eq!(tui.status.message.as_deref(), Some("a; b"));
}

#[test]
fn help_lists_every_binding() {
    let items = keybinding_items();
    assert_eq!(items.len(), 32);
    assert_eq!(items[31], "q, Ctrl-C    quit");
}

#[test]
fn records_name_the_work() {
    let job = JobMetadata {
        id: 12,
        kind: TuiJobKind::PrSummary,
        key: TuiJobKey::Repository(WorktreeRepositoryKey::new("/repo-one".to_string())),
        generation: 0,
    };
    assert_eq!(
        terminal_message(&job, "completed"),
        "TUI job pr_summary #12 finished with completed"
    );
    assert_eq!(
        repository_root_for_job_key(&job.key).as_deref(),
        Some("/repo-one")
    );
    assert_eq!(repository_root_for_job_key(&TuiJobKey::System), None);
    assert_eq!(
        shutdown_message(ShutdownReason::UserQuit, 1, 0),
        "TUI shutdown cleanup finished: reason=user_quit, active_jobs=1, unfinished_jobs=0"
    );
    assert_eq!(
        cleanup_failure_message("stuck"),
        "TUI cleanup failed: stuck"
    );
    assert_eq!(
        JobOutcome::SpawnFailed("no thread".to_string()).error_message(),
        Some("no thread".to_string())
    );
    assert_eq!(JobOutcome::Canceled.error_message(), None);
    assert_eq!(JobOutcome::DeadlineExceeded.log_level(), LogLevel::Error);
    assert_eq!(JobOutcome::Canceled.log_level(), LogLevel::Debug);
    assert!(TuiJobKind::RemoteAction.is_reliable());
    assert!(!TuiJobKind::TmuxPortal.is_reliable());
}

#[test]
fn pressure_on_the_queues_is_recorded() {
    let stats = QueueStats {
        event_depth: 1,
        event_capacity: 2,
        coalesced_depth: 3,
        coalesced_capacity: 4,
        latest_depth: 5,
        terminal_depth: 6,
        overflow_delta: 7,
        overflow_total: 8,
        coalesced_delta: 9,
        coalesced_total: 10,
        dirty: true,
    };
    assert!(stats.under_pressure());
    assert_eq!(stats.log_level(), LogLevel::Warn);
    assert_eq!(
        stats.pressure_message(),
        "TUI delivery pressure: 7 overflowed, 9 coalesced"
    );
    assert_eq!(
        stats.pressure_json(),
        "{\"event_depth\":1,\"event_capacity\":2,\"coalesced_depth\":3,\"coalesced_capacity\":4,\"latest_depth\":5,\"terminal_depth\":6,\"overflow_count\":7,\"overflow_total\":8,\"coalesced_count\":9,\"coalesced_total\":10,\"stream_dirty\":true}"
    );
}

#[test]
fn quoted_words_are_read_back() {
    let words: Vec<String> = ["opencode", "", "two words", "that's", "a\"b", "\\", "$HOME"]
        .iter()
        .map(|word| word.to_string())
        .collect();
    let line = command_line(&words);
    assert_eq!(split_command_words(&line), words);
    assert_eq!(
        split_command_words("agent  --flag 'one two' \"three\\\"four\" a\\ b"),
        ["agent", "--flag", "one two", "three\"four", "a b"]
    );
}

#[test]
fn paths_are_ordered_by_their_components() {
    assert!(path_before("/a/b", "/a-b"));
    assert!(!path_before("/a-b", "/a/b"));
    assert!(less("/a-b", "/a/b"));
    assert!(!less("same", "same"));
    assert!(less("a", "ab"));
}

// ---------------------------------------------------------------------------
// Agents
// ---------------------------------------------------------------------------

#[test]
fn changes_of_an_agent_are_stored_and_passed_on() {
    let mut tui = dashboard();
    tui.navigation.sessions[1].worktree_session_id = "stored-one".to_string();
    tui.navigation.repos[0].config.notifications = NotificationSettings { bits: 5 };
    let mode = apply_agent_state(
        &mut tui.navigation,
        &mut tui.tracker,
        1,
        AgentState::Running,
        true,
    );
    assert_eq!(mode, Some(AgentObservationMode::Transition));
    assert_eq!(tui.navigation.sessions[1].agent_state, AgentState::Running);
    let again = apply_agent_state(
        &mut tui.navigation,
        &mut tui.tracker,
        1,
        AgentState::Running,
        true,
    );
    assert_eq!(again, None);
    let started = tui.tracker.start_agent_state_persistence_jobs();
    assert_eq!(started.len(), 1);
    assert_eq!(started[0].1.state, Some(AgentState::Running));
    assert_eq!(started[0].1.branch, "feature-one");
    assert_eq!(started[0].1.root, "/repo-one");
    assert_eq!(started[0].1.worktree_session_id, "stored-one");
    tui.tracker.queue_agent_state_removal(&tui.navigation, 1);
    assert!(tui.tracker.start_agent_state_persistence_jobs().is_empty());
    let mut none = KeySet::new();
    none.insert(identity_key("/repo-two", &tui.navigation.sessions[3]));
    tui.tracker.retain_agent_state_persistence_for(&none);
    assert_eq!(tui.tracker.agent_state_pending.len(), 1);
    let observation = agent_observation(&tui.navigation, 1).unwrap();
    assert_eq!(observation.branch, "feature-one");
    assert_eq!(observation.state, AgentState::Running);
    assert_eq!(observation.config, NotificationSettings { bits: 5 });
    assert!(agent_observation(&tui.navigation, 9).is_none());
    assert_eq!(reseed_desktop_notifications(&tui.navigation).len(), 4);
}

#[test]
fn an_agent_that_is_attached_again_is_only_alive() {
    let mut tui = dashboard();
    tui.navigation.sessions[1].agent_state = AgentState::Attached;
    let mut mode = |previous, suppress| {
        accept_external_agent_state_change(
            &tui.navigation,
            &mut tui.tracker,
            1,
            previous,
            suppress,
        )
    };
    assert_eq!(
        mode(AgentState::NeedsInput, true),
        Some(AgentObservationMode::AttachedLiveness)
    );
    assert_eq!(
        mode(AgentState::NeedsInput, false),
        Some(AgentObservationMode::Transition)
    );
    assert_eq!(
        mode(AgentState::Running, true),
        Some(AgentObservationMode::Transition)
    );
    assert_eq!(mode(AgentState::Attached, true), None);
}

// ---------------------------------------------------------------------------
// Runs
// ---------------------------------------------------------------------------

#[test]
fn the_step_under_way_is_shown() {
    let mut run = plan_run("plan", "/repo-one/feature-one");
    let step = |step: usize, status: PlanStepStatus| PlanStep {
        step,
        status,
        started_unix_ms: Some(step as u64),
        finished_unix_ms: None,
    };
    run.steps = vec![
        step(1, PlanStepStatus::Done),
        step(2, PlanStepStatus::Running),
        step(3, PlanStepStatus::Queued),
    ];
    assert_eq!(preferred_plan_step(&run), 2);
}

#[test]
fn reads_that_began_before_news_are_void() {
    let mut tui = dashboard();
    let before = tui.tracker.workflow_revision;
    assert!(tui.remember_plan_run(plan_run("plan", "/repo-one/feature-one")));
    assert!(!tui.remember_plan_run(plan_run("plan", "/repo-one/feature-one")));
    assert_eq!(tui.tracker.workflow_revision, before + 1);
    let snapshot = || WorkflowPollSnapshot {
        plan_runs: Ok(vec![plan_run("other", "/repo-one/feature-one")]),
        auto_runs: Err("busy".to_string()),
        linked_plan_runs: Ok(Vec::new()),
    };
    assert!(!tui.take_workflow_poll(before, Ok(snapshot())));
    assert!(tui.take_workflow_poll(before + 1, Ok(snapshot())));
    assert!(!tui.take_workflow_poll(before + 1, Ok(snapshot())));
    assert!(!tui.take_workflow_poll(before + 1, Err("busy".to_string())));
}

#[test]
fn output_is_taken_for_its_step() {
    let mut tui = dashboard();
    let key = DashboardOutputKey::Plan {
        repository: WorktreeRepositoryKey::new("/repo-one".to_string()),
        run_id: "plan".to_string(),
        step: 2,
    };
    let plan = |text: &str| Ok(DashboardOutputLines::Plan(vec![text.to_string()]));
    assert!(!tui.take_dashboard_output(&key, 9, plan("late")));
    assert!(tui.take_dashboard_output(&key, 0, plan("line")));
    assert!(!tui.take_dashboard_output(&key, 0, plan("line")));
    let auto = Ok(DashboardOutputLines::Auto(vec!["line".to_string()]));
    assert!(!tui.take_dashboard_output(&key, 0, auto));
    let stored = tui.book.plan_output.get(&PlanStepKey {
        run_id: "plan".to_string(),
        step: 2,
    });
    assert_eq!(stored.unwrap(), &["line"]);
}

#[test]
fn runs_are_read_once_a_second() {
    let mut tui = dashboard();
    let first = tui
        .book
        .start_workflow_polls(&mut tui.tracker, &tui.navigation, false, 5_000);
    assert_eq!(first, [0, 1]);
    let flying = tui
        .book
        .start_workflow_polls(&mut tui.tracker, &tui.navigation, true, 9_000);
    assert!(flying.is_empty());
    let done = JobMetadata {
        id: 1,
        kind: TuiJobKind::WorkflowPoll,
        key: TuiJobKey::WorkflowRepository(WorktreeRepositoryKey::new("/repo-one".to_string())),
        generation: 0,
    };
    tui.tracker.clear_tui_job_in_flight(&done);
    let early = tui
        .book
        .start_workflow_polls(&mut tui.tracker, &tui.navigation, false, 5_999);
    assert!(early.is_empty());
    let due = tui
        .book
        .start_workflow_polls(&mut tui.tracker, &tui.navigation, false, 6_000);
    assert_eq!(due, [0]);
}

#[test]
fn stored_runs_are_tidied_up_when_asked_or_hourly() {
    let mut tui = dashboard();
    assert!(!tui.book.poll_workflow_maintenance(&mut tui.tracker, 1_000));
    tui.book.request_workflow_maintenance();
    assert!(tui.book.poll_workflow_maintenance(&mut tui.tracker, 1_000));
    tui.book.request_workflow_maintenance();
    assert!(!tui.book.poll_workflow_maintenance(&mut tui.tracker, 1_000));
    tui.tracker.workflow_maintenance_in_flight = false;
    assert!(tui.book.poll_workflow_maintenance(&mut tui.tracker, 1_001));
    tui.tracker.workflow_maintenance_in_flight = false;
    assert!(!tui.book.poll_workflow_maintenance(&mut tui.tracker, 3_601_000));
    assert!(tui.book.poll_workflow_maintenance(&mut tui.tracker, 3_601_001));
}

#[test]
fn outputs_of_the_shown_run_are_read_once_a_second() {
    let mut tui = dashboard();
    tui.navigation.focused_panel = PanelFocus::Worktrees;
    tui.navigation.select_worktree(1);
    tui.remember_plan_run(plan_run("plan", "/repo-one/feature-one"));
    let started = tui
        .book
        .start_dashboard_outputs(&mut tui.tracker, &tui.navigation, 100);
    assert_eq!(started.len(), 1);
    let again = tui
        .book
        .start_dashboard_outputs(&mut tui.tracker, &tui.navigation, 5_000);
    assert!(again.is_empty());
}

// ---------------------------------------------------------------------------
// What is shown
// ---------------------------------------------------------------------------

fn icons() -> HealthIcons {
    HealthIcons {
        attention: "!".to_string(),
        pull_requests: "P".to_string(),
        ci_failed: "x".to_string(),
        ci_running: "~".to_string(),
        behind: "<".to_string(),
    }
}

#[test]
fn rows_show_repositories_and_worktrees() {
    let mut tui = dashboard();
    tui.navigation.sessions[1].pr.summary = Some(open_request(5));
    tui.navigation.sessions[1].classification = "review".to_string();
    tui.navigation.sessions[1].wt_columns = vec![WtColumn {
        name: "ci".to_string(),
        value: "green".to_string(),
    }];
    tui.navigation.repos[0].pr_summaries = vec![open_request(5)];
    let rows = repo_rows(&tui.navigation, &icons());
    assert_eq!(rows.len(), 2);
    assert_eq!(rows[0].label, "repo-one");
    assert!(rows[0].selected && !rows[1].selected);
    tui.remember_plan_run(plan_run("plan", "/repo-one/feature-one"));
    let worktrees = worktree_rows(&tui.navigation, &tui.book);
    assert_eq!(worktrees.len(), 1);
    assert_eq!(worktrees[0].branch, "feature-one");
    assert!(matches!(worktrees[0].kind, WorktreeKind::FeatureWorktree));
    assert_eq!(worktrees[0].plan_status, Some(PlanRunStatus::Running));
    assert_eq!(worktrees[0].classification, "review");
    assert_eq!(worktrees[0].pr.summary.as_ref().map(|pr| pr.number), Some(5));
    assert_eq!(worktrees[0].wt_columns[0].name, "ci");
    let requests = repo_pr_rows(&tui.navigation);
    assert_eq!(requests[0].repo_label, "repo-one");
    assert_eq!(requests[0].summary.title, "PR");
    assert!(requests[0].has_worktree);
    let mut fallback = config();
    fallback.default_branch = "trunk".to_string();
    let frame = tui.frame_model(
        &icons(),
        Programs {
            lazygit: true,
            gh: false,
        },
        "/fallback",
        &fallback,
    );
    assert_eq!(frame.selected_repo_label, "repo-one");
    assert_eq!(frame.sessions.len(), 4);
    assert_eq!(frame.config.default_branch, "main");
    let plans = frame
        .status
        .iter()
        .find(|row| row.label == "plans")
        .unwrap();
    assert_eq!((plans.value.as_str(), plans.attention), ("1", true));
    let empty = Tui::new(Vec::new(), 0, Vec::new(), 0);
    let frame = empty.frame_model(
        &icons(),
        Programs {
            lazygit: true,
            gh: false,
        },
        "/fallback",
        &fallback,
    );
    assert_eq!(frame.selected_repo_label, "no repo");
    assert_eq!(frame.selected_repo_root, "/fallback");
    assert_eq!(frame.config.default_branch, "trunk");
}

#[test]
fn hints_follow_the_panel() {
    let tui = dashboard();
    let programs = Programs {
        lazygit: false,
        gh: false,
    };
    let hints = leader_hint_model(&tui.navigation, Some(LeaderHint::Root), programs).unwrap();
    assert_eq!(hints.title, "Shortcuts");
    assert_eq!(hints.choices[1].label, "open remote PR");
    let git = leader_hint_model(&tui.navigation, Some(LeaderHint::Git), programs).unwrap();
    assert_eq!(git.title, "Git Actions");
    assert!(git.choices[0].disabled);
    assert!(leader_hint_model(&tui.navigation, None, programs).is_none());
}

#[test]
fn submitting_a_review_takes_the_program_and_a_request() {
    let mut tui = dashboard();
    tui.navigation.main_focused = true;
    tui.navigation.repos[0].pr_summaries = vec![open_request(1)];
    tui.navigation.ensure_selected_repo_pr();
    assert!(!git_action_enabled(
        &tui.navigation,
        GitAction::SubmitReview,
        false
    ));
    assert!(git_action_enabled(
        &tui.navigation,
        GitAction::SubmitReview,
        true
    ));
}

#[test]
fn repairs_are_started_as_workflows() {
    assert_eq!(
        git_action_for_command(DashboardCommand::CiFix),
        Some(GitAction::CiFix)
    );
    assert_eq!(git_action_for_command(DashboardCommand::Help), None);
    assert_eq!(
        git_action_execution(GitAction::Merge),
        Some((GitActionExecution::ProviderMerge, "merge failed"))
    );
    assert_eq!(
        git_action_execution(GitAction::ReviewFix),
        Some((GitActionExecution::Stabilize, "review fix failed"))
    );
    assert_eq!(git_action_execution(GitAction::Push), None);
    let tui = dashboard();
    assert!(remote_pr_list_choice(&tui.navigation).disabled);
}

#[test]
fn where_the_dashboard_stood_is_restored() {
    let mut tui = dashboard();
    tui.navigation.focus_worktrees();
    tui.navigation.select_worktree(1);
    let snapshot = tui.navigation.navigation_snapshot();
    tui.navigation.select_repo(1);
    tui.navigation.focus_status();
    tui.navigation.restore_navigation_snapshot(snapshot);
    assert_eq!(tui.navigation.current_repo, 0);
    assert_eq!(tui.navigation.selected_worktree_index(), Some(1));
    assert_eq!(tui.navigation.focused_panel, PanelFocus::Worktrees);
}

#[test]
fn paths_are_compared_by_their_components() {
    assert!(is_same_path("/repo", "/repo/"));
    assert!(is_same_path("/a//b/./c", "/a/b/c"));
    assert!(is_same_path("a/.", "a"));
    assert!(!is_same_path("./a", "a"));
    assert!(!is_same_path("/a", "a"));
    assert!(!is_same_path("/a/../b", "/b"));
    assert!(!is_same_path("", "."));
    assert!(!is_same_path("/repo", "/repository"));

    let mut tui = dashboard();
    tui.navigation.select_repo(1);
    let snapshot = tui.navigation.navigation_snapshot();
    tui.navigation.repos[1].repo.root = "/repo-two/".to_string();
    tui.navigation.select_repo(0);
    tui.navigation.restore_navigation_snapshot(snapshot);
    assert_eq!(tui.navigation.current_repo, 1);
}

#[test]
fn paths_are_keys_however_they_are_spelled() {
    let key = |root: &str| WorktreeRepositoryKey::new(root.to_string());
    assert!(key("/repo").same_key(&key("/repo/")));
    assert!(!key("/repo").same_key(&key("/repo-two")));
    assert!(key("/a/b").comes_before(&key("/a.b")));
    assert!(key("/a/..").comes_before(&key("/a/!")));
    assert!(!key("/a//b").comes_before(&key("/a/b")));

    let mut session_one = session(0, "/repo-one", "feature-one");
    let plain = identity_key("/repo-one", &session_one);
    session_one.path = "/repo-one//feature-one/.".to_string();
    assert!(plain.same_key(&identity_key("/repo-one/", &session_one)));

    let mut keys = KeySet::new();
    assert!(keys.insert(plain));
    assert!(!keys.insert(identity_key("/repo-one/", &session_one)));

    let mut tui = dashboard();
    tui.remember_plan_run(plan_run("plan", "/repo-one/./feature-one"));
    assert_eq!(
        tui.book.plan_run_ids_for_scope("/repo-one", "/repo-one/feature-one/"),
        ["plan"]
    );
    assert!(tui
        .book
        .plan_run_ids_for_scope("/repo-one/", "/repo-one/feature-one")
        .is_empty());
    assert!(!tui.remember_plan_run(plan_run("plan", "/repo-one/feature-one")));

    tui.navigation.repos[0].repo.root = "/repo-one/".to_string();
    tui.navigation.select_worktree(1);
    tui.navigation.repos[0].repo.root = "/repo-one".to_string();
    tui.navigation.selected = 0;
    tui.navigation.focus_worktrees();
    assert_eq!(tui.navigation.selected, 1);
}

#[test]
fn keys_leave_all_but_the_value_of_a_field() {
    let mut form = FormDialog::new(vec![form_field(
        "title",
        &WorkflowInput::Text {
            min_length: Some(1),
            max_length: Some(80),
        },
        &None,
        &Some("What it is about".to_string()),
        true,
    )]);
    form.press(KeyEvent::new(
        KeyCode::Char('x'),
        KeyModifiers {
            shift: false,
            control: false,
            alt: false,
        },
    ));
    let field = &form.fields[0];
    assert_eq!(field.value, "x");
    assert_eq!(field.name, "title");
    assert_eq!(field.description.as_deref(), Some("What it is about"));
    assert_eq!(field.constraint.as_deref(), Some("1–80 chars"));
    assert!(field.required);
}

#[test]
fn a_filter_narrows_the_focused_list() {
    let mut tui = dashboard();
    tui.navigation.apply_filter("TWO".to_string());
    assert_eq!(tui.navigation.visible_repo_indices(), [1]);
    tui.navigation.apply_filter(String::new());
    assert_eq!(tui.navigation.visible_repo_indices(), [0, 1]);
}
