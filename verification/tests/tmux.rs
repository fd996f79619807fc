use prism::model::AgentState;
use prism::model::Config;
use prism::model::NotificationSettings;
use prism::model::PrCache;
use prism::model::Repository;
use prism::model::Session;
use prism::shell::shell_quote;
use prism::table::Table;
use prism::tmux::agent_session_prefix;
use prism::tmux::agent_shell_command;
use prism::tmux::pane_command_matches_agent;
use prism::tmux::pane_start_command_matches_agent;
use prism::tmux::OpencodeRuntime;
use prism::tmux::TmuxAgentSession;
use prism::tmux::TmuxWindow;
use prism::tmux_flow::agent_session_running;
use prism::tmux_flow::attach_or_create_agent;
use prism::tmux_flow::attach_or_create_plan_mode;
use prism::tmux_flow::attach_or_create_window;
use prism::tmux_flow::ensure_agent_session;
use prism::tmux_flow::kill_agent_session;
use prism::tmux_flow::kill_agent_sessions_for_branch;
use prism::tmux_flow::latest_agent_session_generation;
use prism::tmux_flow::paste_agent_prompt;
use prism::tmux_flow::Call;
use prism::tmux_flow::CallKind;
use prism::tmux_flow::Progress;
use prism::tmux_flow::Reply;
use prism::tmux_flow::SESSION_READY_POLL_INTERVAL_MS;

fn repository(root: &str) -> Repository {
    Repository {
        root: root.to_string(),
        root_hash: 0x1234_5678_9abc_def0,
    }
}

fn config() -> Config {
    let mut config = Config {
        default_agent: "opencode".to_string(),
        default_harness: "opencode".to_string(),
        default_branch: "feature".to_string(),
        shell: "/bin/sh".to_string(),
        headless_agent: true,
        notifications: NotificationSettings { bits: 0 },
        tools: Table::new(),
        agent_commands: Table::new(),
    };
    config
        .tools
        .insert("opencode".to_string(), "opencode".to_string());
    config
}

fn session(path: &str, branch: &str) -> Session {
    Session {
        repo_index: 0,
        repo_label: "repo".to_string(),
        branch: branch.to_string(),
        path: path.to_string(),
        path_display: path.to_string(),
        prompt_summary: String::new(),
        classification: "work".to_string(),
        wt_columns: Vec::new(),
        worktree_session_id: String::new(),
        visibility: 0,
        hidden: false,
        unseen_comments: false,
        agent_state: AgentState::Idle,
        status_label: "clean".to_string(),
        dirty_files: None,
        behind_commits: None,
        pr: PrCache {
            summary: None,
            details: None,
            details_trusted: false,
            last_refreshed: None,
            reconciliation: None,
        },
        opencode_status: None,
    }
}

fn reply(success: bool, stdout: &str, stderr: &str) -> Reply {
    Reply {
        error: None,
        success,
        stdout: stdout.to_string(),
        stderr: stderr.to_string(),
        status: if success {
            "exit status: 0".to_string()
        } else {
            "exit status: 1".to_string()
        },
        elapsed_ms: 0,
        runtime: None,
    }
}

fn done() -> Reply {
    reply(true, "", "")
}

fn says(stdout: &str) -> Reply {
    reply(true, stdout, "")
}

fn refused() -> Reply {
    reply(false, "", "")
}

/// Runs a sequence against scripted answers; time passes only while the sequence pauses.
fn drive<T, F, A>(flow: F, mut answer: A) -> (Result<T, String>, Vec<String>)
where
    F: Fn(&Vec<Reply>) -> Progress<T>,
    A: FnMut(&Call) -> Reply,
{
    let mut replies: Vec<Reply> = Vec::new();
    let mut commands: Vec<String> = Vec::new();
    let mut clock: u64 = 0;
    loop {
        match flow(&replies) {
            Progress::Got(value, _) => return (Ok(value), commands),
            Progress::Fail(error, _) => return (Err(error), commands),
            Progress::Ask(call) => {
                let mut given = match call.kind {
                    CallKind::StartClock => {
                        clock = 0;
                        done()
                    }
                    CallKind::ReadClock => done(),
                    CallKind::Sleep => {
                        clock += SESSION_READY_POLL_INTERVAL_MS;
                        done()
                    }
                    CallKind::Output | CallKind::Attach | CallKind::Feed | CallKind::Capture => {
                        commands.push(call.args.join(" "));
                        let mut given = answer(&call);
                        if call.kind != CallKind::Output && !given.success {
                            given.error = Some("command failed".to_string());
                        }
                        given
                    }
                    _ => answer(&call),
                };
                given.elapsed_ms = clock;
                replies.push(given);
            }
        }
        assert!(replies.len() < 2_000);
    }
}

#[test]
fn tmux_session_names_are_stable_and_safe() {
    let repo = repository("/repo/my project");

    let runtime = TmuxAgentSession::for_worktree_session(&repo, "feature/foo:bar", 3);
    let name = runtime.name();

    assert!(name.starts_with("prism-"));
    assert!(name.ends_with("-feature_foo_bar-3"));
    assert!(!name.contains('/'));
    assert!(!name.contains(':'));
}

#[test]
fn tmux_agent_session_exposes_runtime_targets() {
    let repo = repository("/repo/my project");

    let runtime = TmuxAgentSession::for_worktree_session(&repo, "feature/foo:bar", 3);

    assert_eq!(
        runtime.name(),
        TmuxAgentSession::for_worktree_session(&repo, "feature/foo:bar", 3).name()
    );
    assert_eq!(
        runtime.target(TmuxWindow::Agent),
        format!("{}:1", runtime.name())
    );
    assert_eq!(
        runtime.target(TmuxWindow::LazyGit),
        format!("{}:2", runtime.name())
    );
    assert_eq!(
        runtime.target(TmuxWindow::Terminal),
        format!("{}:3", runtime.name())
    );
    assert_eq!(
        runtime.prompt_buffer_name(),
        format!("{}-prompt", runtime.name())
    );
}

#[test]
fn session_names_hold_the_hash_of_the_repository() {
    let repo = repository("/repo/my project");
    let runtime = TmuxAgentSession::for_worktree_session(&repo, "feature/foo:bar", 3);
    assert_eq!(
        runtime.name(),
        "prism-123456789abcdef0-feature_foo_bar-3"
    );
}

#[test]
fn shell_quote_preserves_argument_boundaries() {
    assert_eq!(shell_quote("opencode"), "opencode");
    assert_eq!(shell_quote(""), "''");
    assert_eq!(shell_quote("two words"), "'two words'");
    assert_eq!(shell_quote("that's"), "'that'\"'\"'s'");
}

#[test]
fn pane_command_only_counts_the_configured_agent_as_running() {
    let mut config = config();
    config.default_agent = "opencode".to_string();
    config
        .tools
        .insert("opencode".to_string(), "opencode".to_string());

    assert!(pane_command_matches_agent(&config, "opencode"));
    assert!(pane_command_matches_agent(&config, "opencode.exe"));
    assert!(!pane_command_matches_agent(&config, "bash"));
    assert!(!pane_command_matches_agent(&config, "zsh"));
    assert!(pane_start_command_matches_agent(
        &config,
        r#""/usr/local/bin/opencode attach http://127.0.0.1:41000""#
    ));
    assert!(!pane_start_command_matches_agent(&config, r#""/bin/bash""#));
}

#[test]
fn plan_mode_runs_in_detachable_tmux_session() {
    let (result, commands) = drive(
        |replies| {
            attach_or_create_plan_mode(
                "prism-plan-test",
                "/tmp/plan",
                "prism --repo /repo plan; status=$?",
                replies,
            )
        },
        |call| match call.args[0].as_str() {
            "has-session" => refused(),
            "new-session" | "set-option" | "attach-session" => done(),
            _ => refused(),
        },
    );
    assert_eq!(result, Ok(()));
    let commands = commands.join("\n");
    assert!(commands.contains("new-session -d -s prism-plan-test"));
    assert!(commands.contains("-n plan"));
    assert!(commands.contains("prism --repo /repo plan; status=$?"));
    assert!(commands.contains("set-option -t prism-plan-test"));
    assert!(commands.contains("detach-on-destroy on"));
    assert!(commands.contains("attach-session -t prism-plan-test"));
}

#[test]
fn rejects_prompt_placeholder_for_interactive_tmux_command() {
    let mut config = config();
    config.default_agent = "custom".to_string();
    config.agent_commands.insert(
        "custom".to_string(),
        "custom-agent --prompt {prompt}".to_string(),
    );
    let session = session("/tmp/placeholder", "feature");

    let error = agent_shell_command(&config, &session, None).unwrap_err();

    assert!(error.contains("prompt placeholder"));
}

fn started_agent(call: &Call) -> Reply {
    match call.args[0].as_str() {
        "has-session" => refused(),
        "display-message" => says("opencode\n"),
        _ => done(),
    }
}

#[test]
fn opencode_runtime_uses_attach_command_for_agent_window() {
    let repo = repository("/tmp/attach");
    let mut config = config();
    config
        .tools
        .insert("opencode".to_string(), "/usr/bin/opencode".to_string());
    let session = session("/tmp/attach/worktree", "feature");

    let (result, commands) = drive(
        |replies| ensure_agent_session(&repo, &config, &session, 0, replies),
        |call| {
            if call.kind == CallKind::LoadRuntime || call.kind == CallKind::PrepareRuntime {
                let mut known = done();
                known.runtime = Some(OpencodeRuntime {
                    server_url: "http://127.0.0.1:41234".to_string(),
                    worktree_path: "/tmp/attach/worktree".to_string(),
                    opencode_session_id: Some("ses_123".to_string()),
                });
                known
            } else {
                started_agent(call)
            }
        },
    );

    assert_eq!(result, Ok(false));
    let commands = commands.join("\n");
    assert!(commands.contains("/usr/bin/opencode attach http://127.0.0.1:41234"));
    assert!(commands.contains("--dir"));
    assert!(commands.contains("/tmp/attach/worktree"));
    assert!(commands.contains("--session ses_123"));
}

#[test]
fn ensure_agent_session_resolves_opencode_session_before_tmux_attach() {
    let repo = repository("/tmp/resolve");
    let mut config = config();
    config.default_branch = "main".to_string();
    config
        .tools
        .insert("opencode".to_string(), "/usr/bin/opencode".to_string());
    let session = session("/tmp/resolve/worktree", "feature");
    let mut prepared = 0;

    let (result, commands) = drive(
        |replies| ensure_agent_session(&repo, &config, &session, 0, replies),
        |call| {
            if call.kind == CallKind::PrepareRuntime {
                prepared += 1;
                let mut known = done();
                known.runtime = Some(OpencodeRuntime {
                    server_url: "http://127.0.0.1:41235".to_string(),
                    worktree_path: "/tmp/resolve/worktree".to_string(),
                    opencode_session_id: Some("ses_123".to_string()),
                });
                known
            } else {
                started_agent(call)
            }
        },
    );

    assert_eq!(result, Ok(false));
    assert_eq!(prepared, 1);
    let commands = commands.join("\n");
    assert!(commands.contains("/usr/bin/opencode attach http://127.0.0.1:41235"));
    assert!(commands.contains("--session ses_123"));
}

#[test]
fn latest_agent_session_generation_reads_highest_existing_generation() {
    let repo = repository("/tmp/latest");
    let prefix = agent_session_prefix(&repo, "feature");
    let listing = format!("{prefix}0\n{prefix}7\n{prefix}not-a-number\nother-session\n");

    let (generation, _) = drive(
        |replies| latest_agent_session_generation(&repo, "feature", replies),
        |call| match call.args[0].as_str() {
            "list-sessions" => says(&listing),
            _ => refused(),
        },
    );

    assert_eq!(generation, Ok(Some(7)));
}

fn waiting_agent(call: &Call, screen: &str) -> Reply {
    match call.args[0].as_str() {
        "has-session" | "set-option" | "move-window" | "rename-window" | "new-window"
        | "list-windows" | "load-buffer" | "paste-buffer" => done(),
        "display-message" => says("opencode\n"),
        "capture-pane" => says(screen),
        _ => refused(),
    }
}

#[test]
fn paste_agent_prompt_loads_and_pastes_tmux_buffer() {
    let repo = repository("/tmp/paste");
    let config = config();
    let session = session("/tmp/paste/worktree", "feature");
    let prompt =
        "  fix review comments\nquote: \"that's fine\"\n$PATH && rm -rf nope\n--leading-dash";
    let mut loaded = String::new();

    let (result, commands) = drive(
        |replies| paste_agent_prompt(&repo, &config, &session, 0, prompt, replies),
        |call| {
            if call.kind == CallKind::Feed {
                loaded = call.input.clone();
            }
            waiting_agent(call, "Ask anything\n")
        },
    );

    assert_eq!(result, Ok(()));
    assert_eq!(loaded, prompt);
    let commands = commands.join("\n");
    assert!(commands.contains("load-buffer -b"));
    assert!(commands.contains("paste-buffer -d -b"));
    assert!(!commands.contains("attach-session"));
}

#[test]
fn paste_agent_prompt_does_not_require_window_zero() {
    let repo = repository("/tmp/base-index");
    let config = config();
    let session = session("/tmp/base-index/worktree", "feature");
    let mut loaded = String::new();

    let (result, commands) = drive(
        |replies| paste_agent_prompt(&repo, &config, &session, 0, "hello", replies),
        |call| {
            if call.args.iter().any(|arg| arg.contains(":0.0")) {
                return reply(false, "", "can't find window 0");
            }
            if call.kind == CallKind::Feed {
                loaded = call.input.clone();
            }
            waiting_agent(call, "Ask anything\n")
        },
    );

    assert_eq!(result, Ok(()));
    assert_eq!(loaded, "hello");
    assert!(!commands.join("\n").contains(":0.0"));
}

#[test]
fn paste_agent_prompt_waits_for_opencode_input() {
    let repo = repository("/tmp/input-ready");
    let config = config();
    let session = session("/tmp/input-ready/worktree", "feature");
    let mut loaded = String::new();
    let mut captures = 0;

    let (result, commands) = drive(
        |replies| paste_agent_prompt(&repo, &config, &session, 0, "hello", replies),
        |call| {
            if call.kind == CallKind::Feed {
                loaded = call.input.clone();
            }
            if call.args[0] == "capture-pane" {
                captures += 1;
                if captures < 3 {
                    return says("Starting OpenCode...\n");
                }
            }
            waiting_agent(call, "Ask anything\n")
        },
    );

    assert_eq!(result, Ok(()));
    assert_eq!(loaded, "hello");
    assert_eq!(captures, 3);
    let commands = commands.join("\n");
    assert!(commands.find("capture-pane").unwrap() < commands.find("load-buffer").unwrap());
}

#[test]
fn paste_agent_prompt_persists_prompt_in_target_opencode_session() {
    let repo = repository("/tmp/api-paste");
    let mut config = config();
    config.default_branch = "main".to_string();
    let session = session("/tmp/api-paste/worktree", "feature");
    let prompt =
        "  fix review comments\nquote: \"that's fine\"\n$PATH && rm -rf nope\n--leading-dash";
    let mut there = false;
    let mut submitted: Vec<(Vec<String>, String)> = Vec::new();

    let (result, commands) = drive(
        |replies| paste_agent_prompt(&repo, &config, &session, 0, prompt, replies),
        |call| match call.kind {
            CallKind::PrepareRuntime | CallKind::LoadRuntime => {
                let mut known = done();
                known.runtime = Some(OpencodeRuntime {
                    server_url: "http://127.0.0.1:41236".to_string(),
                    worktree_path: "/tmp/api-paste/worktree".to_string(),
                    opencode_session_id: Some("ses_123".to_string()),
                });
                known
            }
            CallKind::SubmitPrompt => {
                submitted.push((call.args.clone(), call.input.clone()));
                done()
            }
            _ => match call.args[0].as_str() {
                "has-session" => {
                    if there {
                        done()
                    } else {
                        refused()
                    }
                }
                "new-session" => {
                    there = true;
                    done()
                }
                _ => waiting_agent(call, "Starting OpenCode...\n"),
            },
        },
    );

    assert_eq!(result, Ok(()));
    assert_eq!(submitted.len(), 1);
    assert!(submitted[0].0.iter().any(|arg| arg == "ses_123"));
    assert_eq!(submitted[0].1, prompt);
    let commands = commands.join("\n");
    assert!(commands.contains("new-session -d -s"));
    assert!(commands.contains("opencode attach"));
    assert!(!commands.contains("load-buffer"));
    assert!(!commands.contains("paste-buffer"));
}

#[test]
fn ensure_agent_session_sets_detach_on_destroy() {
    let repo = repository("/tmp/detach");
    let config = config();
    let session = session("/tmp/detach/worktree", "feature");

    let (result, commands) = drive(
        |replies| ensure_agent_session(&repo, &config, &session, 0, replies),
        started_agent,
    );

    assert_eq!(result, Ok(false));
    let commands = commands.join("\n");
    assert!(commands.contains("new-session -d -s"));
    assert!(commands.contains("-n opencode"));
    assert!(commands.contains("set-option -t"));
    assert!(commands.contains("detach-on-destroy on"));
    assert!(commands.contains("base-index 1"));
    assert!(commands.contains("new-window -d -t"));
    assert!(commands.contains("-n lazygit"));
    assert!(commands.contains("-n terminal"));
}

#[test]
fn ensure_agent_session_replaces_existing_session_without_agent() {
    let repo = repository("/tmp/stale");
    let config = config();
    let session = session("/tmp/stale/worktree", "feature");

    let (result, commands) = drive(
        |replies| ensure_agent_session(&repo, &config, &session, 0, replies),
        |call| match call.args.first().map(String::as_str) {
            Some("display-message") => says("bash\n"),
            _ => done(),
        },
    );

    assert_eq!(result, Ok(false));
    let commands = commands.join("\n");
    assert!(commands.contains("display-message -p -t"));
    assert!(commands.contains("kill-session -t"));
    assert!(commands.contains("new-session -d -s"));
}

#[test]
fn ensure_agent_session_recovers_when_session_disappears_before_configure() {
    let repo = repository("/tmp/vanished");
    let config = config();
    let session = session("/tmp/vanished/worktree", "feature");
    let mut configured = 0;

    let (result, commands) = drive(
        |replies| ensure_agent_session(&repo, &config, &session, 0, replies),
        |call| match call.args.first().map(String::as_str) {
            Some("set-option") => {
                configured += 1;
                if configured == 1 {
                    reply(false, "", "can't find session: vanished\n")
                } else {
                    done()
                }
            }
            Some("display-message") => says("opencode\n"),
            _ => done(),
        },
    );

    assert_eq!(result, Ok(true));
    let commands = commands.join("\n");
    assert!(commands.contains("new-session -d -s"));
    assert!(commands.contains("set-option -t"));
    assert!(!commands.contains("kill-session -t"));
}

#[test]
fn attach_return_after_destroy_does_not_recreate_immediately() {
    let repo = repository("/tmp/attach-destroy");
    let config = config();
    let session = session("/tmp/attach-destroy/worktree", "feature");
    let mut there = false;

    let (result, commands) = drive(
        |replies| attach_or_create_agent(&repo, &config, &session, 0, replies),
        |call| match call.args.first().map(String::as_str) {
            Some("has-session") => {
                if there {
                    done()
                } else {
                    refused()
                }
            }
            Some("new-session") => {
                there = true;
                done()
            }
            Some("set-option") => {
                if there {
                    done()
                } else {
                    reply(false, "", "can't find session: vanished\n")
                }
            }
            Some("display-message") => says("opencode\n"),
            Some("attach-session") => {
                there = false;
                refused()
            }
            _ => done(),
        },
    );

    assert_eq!(result, Ok(()));
    let text = commands.join("\n");
    assert_eq!(text.matches("new-session -d -s").count(), 1);
    assert_eq!(text.matches("attach-session -t").count(), 1);
    let attach = commands
        .iter()
        .find(|line| line.starts_with("attach-session -t "))
        .unwrap();
    assert!(!attach.contains(":1"));
}

#[test]
fn attach_existing_agent_does_not_require_opencode_server() {
    let repo = repository("/tmp/existing");
    let mut config = config();
    config.default_branch = "main".to_string();
    config
        .tools
        .insert("opencode".to_string(), "/tmp/existing/opencode".to_string());
    let session = session("/tmp/existing/worktree", "feature");
    let mut asked_for_a_server = false;

    let (result, commands) = drive(
        |replies| attach_or_create_agent(&repo, &config, &session, 0, replies),
        |call| match call.args.first().map(String::as_str) {
            Some("has-session" | "set-option" | "move-window" | "attach-session")
            | Some("rename-window") => done(),
            Some("display-message") => says("opencode\n"),
            Some("list-windows") => says("1\n2\n3\n"),
            _ => {
                asked_for_a_server |= call.kind == CallKind::PrepareRuntime;
                refused()
            }
        },
    );

    assert_eq!(result, Ok(()));
    assert!(!asked_for_a_server);
    let commands = commands.join("\n");
    assert!(commands.contains("attach-session -t"));
    assert!(!commands.contains("new-session -d -s"));
}

#[test]
fn attach_companion_windows_targets_named_indices() {
    let repo = repository("/tmp/companion");
    let config = config();
    let session = session("/tmp/companion/worktree", "feature");

    let (result, commands) = drive(
        |replies| {
            attach_or_create_window(&repo, &config, &session, 0, TmuxWindow::LazyGit, replies)
        },
        started_agent,
    );

    assert_eq!(result, Ok(()));
    let text = commands.join("\n");
    assert!(text.contains("new-window -d -t"));
    assert!(text.contains("-n lazygit"));
    assert!(text.contains("-n terminal"));
    let attach = commands
        .iter()
        .find(|line| line.starts_with("attach-session -t "))
        .unwrap();
    assert!(attach.contains(":2"));
}

#[test]
fn ending_a_session_that_is_gone_succeeds() {
    let repo = repository("/tmp/gone");
    let (result, commands) = drive(
        |replies| kill_agent_session(&repo, "feature", 4, replies),
        |_| reply(false, "", "can't find session: gone\n"),
    );
    assert_eq!(result, Ok(()));
    assert_eq!(commands.len(), 1);
    assert!(commands[0].starts_with("kill-session -t prism-"));
    assert!(commands[0].ends_with("-feature-4"));
}

#[test]
fn all_sessions_of_a_branch_are_ended() {
    let repo = repository("/tmp/branch");
    let prefix = agent_session_prefix(&repo, "feature");
    let listing = format!("{prefix}0\nother\n{prefix}3\n");
    let (result, commands) = drive(
        |replies| kill_agent_sessions_for_branch(&repo, "feature", replies),
        |call| match call.args[0].as_str() {
            "list-sessions" => says(&listing),
            _ => done(),
        },
    );
    assert_eq!(result, Ok(()));
    assert_eq!(
        commands[1..],
        [
            format!("kill-session -t {prefix}0"),
            format!("kill-session -t {prefix}3"),
        ]
    );
}

#[test]
fn a_session_runs_while_its_pane_runs_the_agent() {
    let repo = repository("/tmp/running");
    let config = config();
    let session = session("/tmp/running/worktree", "feature");
    let (running, _) = drive(
        |replies| agent_session_running(&repo, &config, &session, 0, replies),
        |call| match call.args[0].as_str() {
            "display-message" => says("opencode\n"),
            _ => done(),
        },
    );
    assert_eq!(running, Ok(true));
    let (running, _) = drive(
        |replies| agent_session_running(&repo, &config, &session, 0, replies),
        |_| refused(),
    );
    assert_eq!(running, Ok(false));
}
