//! How sessions are named, looked at, started, attached to and ended, step by step.
use vstd::prelude::*;

use crate::model::Config;
use crate::tmux::is_agent_command;
use crate::tmux::OpencodeRuntime;
use crate::tmux::TmuxWindow;
use crate::tmux_flow::attach_outcome;
use crate::tmux_flow::companions_outcome;
use crate::tmux_flow::configure_outcome;
use crate::tmux_flow::create_outcome;
use crate::tmux_flow::ensure_outcome;
use crate::tmux_flow::fresh_outcome;
use crate::tmux_flow::kill_all_outcome;
use crate::tmux_flow::kill_branch_outcome;
use crate::tmux_flow::listed_sessions;
use crate::tmux_flow::plan_mode_outcome;
use crate::tmux_flow::poll_running_outcome;
use crate::tmux_flow::ready_outcome;
use crate::tmux_flow::running_outcome;
use crate::tmux_flow::start_outcome;
use crate::tmux_flow::status_error;
use crate::tmux_flow::wait_running_outcome;
use crate::tmux_flow::with_prefix;
use crate::tmux_flow::CallKind;
use crate::tmux_flow::CallView;
use crate::tmux_flow::Outcome;
use crate::tmux_flow::Reply;

verus! {

// ---------------------------------------------------------------------------
// Names
// ---------------------------------------------------------------------------

/// A session is named after its repository, its branch and its generation. In the branch,
/// letters, digits, hyphens, underscores and dots stay, and anything else is written as an
/// underscore.
pub proof fn law_session_names(root_hash: u64, branch: Seq<char>, generation: u64, i: int)
    requires
        0 <= i < branch.len(),
    ensures
        ({
            let safe = crate::tmux::safe_name(branch);
            let c = branch[i];
            let stays = ('a' <= c <= 'z') || ('A' <= c <= 'Z') || ('0' <= c <= '9') || c == '-' || c
                == '_' || c == '.';
            &&& safe.len() == branch.len()
            &&& stays ==> safe[i] == c
            &&& !stays ==> safe[i] == '_'
            &&& crate::tmux::session_name(root_hash, branch, generation) == "prism-"@
                + crate::text::hex_text(root_hash as nat, 16) + "-"@ + safe + "-"@
                + crate::text::decimal_text(generation as nat)
        }),
{
}

/// A session's name starts with the prefix that all sessions of its branch share.
pub proof fn law_sessions_of_a_branch_share_a_prefix(
    root_hash: u64,
    branch: Seq<char>,
    generation: u64,
)
    ensures
        ({
            let prefix = crate::tmux::session_prefix(root_hash, branch);
            let name = crate::tmux::session_name(root_hash, branch, generation);
            &&& crate::text::has_prefix(name, prefix)
            &&& name.skip(prefix.len() as int) == crate::text::decimal_text(generation as nat)
        }),
{
    let prefix = crate::tmux::session_prefix(root_hash, branch);
    let name = crate::tmux::session_name(root_hash, branch, generation);
    assert(name.subrange(0, prefix.len() as int) =~= prefix);
    assert(name.skip(prefix.len() as int) =~= crate::text::decimal_text(generation as nat));
}

/// The first window is titled with the agent's name, the others with what they run.
pub proof fn law_titles_of_windows(config: &Config)
    ensures
        TmuxWindow::Agent.title(config) == config.default_agent@,
        TmuxWindow::LazyGit.title(config) == "lazygit"@,
        TmuxWindow::Terminal.title(config) == "terminal"@,
{
}

/// A tool or an agent runs what is configured for it, or else the program of its own name.
pub proof fn law_configured_programs(config: &Config, name: Seq<char>)
    ensures
        config.tools@.dom().contains(name) ==> config.tool_text(name) == config.tools@[name]@,
        !config.tools@.dom().contains(name) ==> config.tool_text(name) == name,
        config.agent_commands@.dom().contains(config.default_agent@) ==> config.agent_line()
            == config.agent_commands@[config.default_agent@]@,
        !config.agent_commands@.dom().contains(config.default_agent@) ==> config.agent_line()
            == config.default_agent@,
        config.runs_opencode() <==> config.default_agent@ == "opencode"@,
{
}

// ---------------------------------------------------------------------------
// What tmux says
// ---------------------------------------------------------------------------

/// A call failed where it could not be made, or where tmux did not exit well; then what
/// tmux printed is the reason, or its exit status where it printed nothing.
pub proof fn law_failures_of_calls(reply: Reply)
    ensures
        reply.error is None && reply.success <==> status_error(reply) is None,
        reply.error is Some ==> status_error(reply) == Some(reply.error->0@),
        reply.error is None && !reply.success && crate::text::trimmed(reply.stderr@).len() == 0
            ==> status_error(reply) == Some("tmux exited with "@ + reply.status@),
        reply.error is None && !reply.success && crate::text::trimmed(reply.stderr@).len() > 0
            ==> status_error(reply) == Some(crate::text::trimmed(reply.stderr@)),
{
}

/// A session is gone where tmux cannot find the session, its window or its pane, or where
/// no tmux runs.
pub proof fn law_missing_sessions(before: Seq<char>, behind: Seq<char>, error: Seq<char>)
    ensures
        crate::tmux::says_missing(before + "can't find session"@ + behind),
        crate::tmux::says_missing(before + "can't find window"@ + behind),
        crate::tmux::says_missing(before + "can't find pane"@ + behind),
        crate::tmux::says_missing(before + "no server running"@ + behind),
        crate::tmux::says_missing(error) ==> crate::text::has_text(error, "can't find session"@)
            || crate::text::has_text(error, "can't find window"@) || crate::text::has_text(
            error,
            "can't find pane"@,
        ) || crate::text::has_text(error, "no server running"@),
{
    crate::text_laws::law_texts_in_texts(before, "can't find session"@, behind);
    crate::text_laws::law_texts_in_texts(before, "can't find window"@, behind);
    crate::text_laws::law_texts_in_texts(before, "can't find pane"@, behind);
    crate::text_laws::law_texts_in_texts(before, "no server running"@, behind);
}

/// OpenCode takes input once its screen asks for it or shows its command key.
pub proof fn law_screens_that_take_input(before: Seq<char>, behind: Seq<char>, screen: Seq<char>)
    ensures
        crate::tmux::shows_input(before + "Ask anything"@ + behind),
        crate::tmux::shows_input(before + "ctrl+p commands"@ + behind),
        crate::tmux::shows_input(screen) ==> crate::text::has_text(screen, "Ask anything"@)
            || crate::text::has_text(screen, "ctrl+p commands"@),
{
    crate::text_laws::law_texts_in_texts(before, "Ask anything"@, behind);
    crate::text_laws::law_texts_in_texts(before, "ctrl+p commands"@, behind);
}

// ---------------------------------------------------------------------------
// Agents
// ---------------------------------------------------------------------------

/// OpenCode is known by the file name of its program, with or without `.exe`; another agent
/// by that of the first word of its command line; and an agent without a command line by
/// nothing.
pub proof fn law_commands_of_agents(config: &Config, command: Seq<char>)
    ensures
        ({
            let opencode = crate::tmux::program_name(config.tool_text("opencode"@));
            let words = crate::shell::words_of(config.agent_line());
            &&& config.default_agent@ == "opencode"@ ==> (is_agent_command(config, command)
                <==> command == opencode || command == opencode + ".exe"@)
            &&& config.default_agent@ != "opencode"@ && words.len() > 0 ==> (is_agent_command(
                config,
                command,
            ) <==> command == crate::tmux::program_name(words[0]))
            &&& config.default_agent@ != "opencode"@ && words.len() == 0 ==> !is_agent_command(
                config,
                command,
            )
        }),
{
}

/// The name of a program is that of its file, and a text that names no file stands for
/// itself.
pub proof fn law_names_of_programs(directory: Seq<char>, name: Seq<char>, program: Seq<char>)
    requires
        name.len() > 0,
        !name.contains('/'),
        name != seq!['.'],
        name != seq!['.', '.'],
    ensures
        crate::tmux::program_name(directory.push('/') + name) == name,
        crate::text::file_name_of(program) is None ==> crate::tmux::program_name(program)
            == program,
{
    crate::text_laws::law_file_names(directory, name);
}

/// A pane was started for an agent where the first word of its command, whose quotes around
/// the whole are dropped, names the agent's program.
pub proof fn law_started_agents(config: &Config, command: Seq<char>)
    requires
        !command.contains('"'),
    ensures
        ({
            let words = crate::shell::words_of(command);
            let quoted = seq!['"'] + command + seq!['"'];
            let starts = words.len() > 0 && is_agent_command(
                config,
                crate::tmux::program_name(words[0]),
            );
            &&& crate::tmux::starts_agent(config, command) == starts
            &&& crate::tmux::starts_agent(config, quoted) == starts
        }),
{
    let quoted = seq!['"'] + command + seq!['"'];
    assert(quoted.subrange(1, quoted.len() - 1) =~= command);
    assert(quoted[0] == '"' && quoted.last() == '"');
    if command.len() > 0 {
        assert(command.contains(command[0]));
    }
}

/// OpenCode attaches to the session of a server that runs for the worktree; without one it
/// is started plainly. Another agent is started by its command line.
pub proof fn law_words_that_start_agents(
    config: &Config,
    path: Seq<char>,
    runtime: OpencodeRuntime,
)
    ensures
        config.default_agent@ != "opencode"@ ==> crate::tmux::agent_words(
            config,
            path,
            Some(runtime),
        ) == crate::shell::words_of(config.agent_line()) && crate::tmux::agent_words(
            config,
            path,
            None,
        ) == crate::shell::words_of(config.agent_line()),
        config.default_agent@ == "opencode"@ ==> crate::tmux::agent_words(config, path, None)
            == seq![config.tool_text("opencode"@)],
        config.default_agent@ == "opencode"@ && runtime.opencode_session_id is None
            ==> crate::tmux::agent_words(config, path, Some(runtime)) == seq![
            config.tool_text("opencode"@),
        ],
        config.default_agent@ == "opencode"@ && runtime.opencode_session_id is Some
            ==> crate::tmux::agent_words(config, path, Some(runtime)) == seq![
            config.tool_text("opencode"@),
            "attach"@,
            runtime.server_url@,
            "--dir"@,
            path,
            "--session"@,
            runtime.opencode_session_id->0@,
        ],
{
}

/// An agent is run by a command line that reads back as its words. One without words, and
/// one that waits for a prompt in its command, is refused.
pub proof fn law_command_lines_of_agents(config: &Config, words: Seq<Seq<char>>)
    ensures
        ({
            let command = crate::tmux::shell_command(config, words);
            let waits = exists|i: int|
                0 <= i < words.len() && crate::text::has_text(#[trigger] words[i], "{prompt"@);
            &&& words.len() == 0 ==> command == Err::<Seq<char>, Seq<char>>(
                "agent '"@ + config.default_agent@ + "' has an empty command"@,
            )
            &&& words.len() > 0 && waits ==> command == Err::<Seq<char>, Seq<char>>(
                "agent '"@ + config.default_agent@
                    + "' command contains a prompt placeholder; configure an interactive command for tmux attach"@,
            )
            &&& words.len() > 0 && !waits ==> command is Ok && crate::shell::words_of(
                command->Ok_0,
            ) == words
        }),
{
    crate::shell::law_quoting_keeps_words(words);
}

/// A server is of use to a worktree where it has an address and runs for the worktree's
/// path, and where loading it went well.
pub proof fn law_servers_of_use(reply: Reply, runtime: OpencodeRuntime, path: Seq<char>)
    ensures
        crate::tmux::is_usable(runtime, path) <==> runtime.server_url@.len() > 0
            && runtime.worktree_path@ == path,
        reply.runtime is None || reply.error is Some ==> crate::tmux_flow::usable(reply, path)
            is None,
        reply.error is None && reply.runtime == Some(runtime) && runtime.server_url@.len() > 0
            && runtime.worktree_path@ == path ==> crate::tmux_flow::usable(reply, path) == Some(
            runtime,
        ),
        crate::tmux_flow::usable(reply, path) matches Some(known) ==> known.worktree_path@ == path
            && known.server_url@.len() > 0,
{
}

// ---------------------------------------------------------------------------
// Looking at a session
// ---------------------------------------------------------------------------

/// A call of tmux that a step asks for.
pub open spec fn tmux_call(kind: CallKind, args: Seq<Seq<char>>) -> CallView {
    CallView { kind, args, input: Seq::empty() }
}

/// An agent runs where its session is there and its first window runs the agent's program,
/// or else was started with it. A session that is gone, and a pane that says nothing, runs
/// no agent.
pub proof fn law_running_agents(config: &Config, name: Seq<char>, replies: Seq<Reply>, at: nat)
    requires
        at <= replies.len(),
    ensures
        ({
            let outcome = running_outcome(config, name, replies, at);
            let there = replies[at as int].error is None && replies[at as int].success;
            let second = replies[at as int + 1];
            let current = crate::text::trimmed(second.stdout@);
            let says = second.error is None && current.len() > 0;
            let third = replies[at as int + 2];
            let started = crate::text::trimmed(third.stdout@);
            &&& replies.len() == at ==> outcome == Outcome::<bool>::Ask(
                tmux_call(CallKind::Output, seq!["has-session"@, "-t"@, name]),
            )
            &&& replies.len() > at && !there ==> outcome == Outcome::Got(false, at + 1)
            &&& replies.len() == at + 1 && there ==> outcome == Outcome::<bool>::Ask(
                tmux_call(
                    CallKind::Capture,
                    seq![
                        "display-message"@,
                        "-p"@,
                        "-t"@,
                        name + ":1"@,
                        "#{pane_current_command}"@,
                    ],
                ),
            )
            &&& replies.len() > at + 1 && there && !says ==> outcome == Outcome::Got(false, at + 2)
            &&& replies.len() > at + 1 && there && says && is_agent_command(config, current)
                ==> outcome == Outcome::Got(true, at + 2)
            &&& replies.len() == at + 2 && there && says && !is_agent_command(config, current)
                ==> outcome == Outcome::<bool>::Ask(
                tmux_call(
                    CallKind::Capture,
                    seq!["display-message"@, "-p"@, "-t"@, name + ":1"@, "#{pane_start_command}"@],
                ),
            )
            &&& replies.len() > at + 2 && there && says && !is_agent_command(config, current)
                ==> outcome == Outcome::Got(
                third.error is None && started.len() > 0 && crate::tmux::starts_agent(
                    config,
                    started,
                ),
                at + 3,
            )
        }),
{
    crate::tmux_call_laws::law_windows_have_fixed_places(name);
}

/// Waiting for an agent starts a clock, looks at the session, and ends once the agent runs.
/// While it does not, the clock is read; the wait ends there without an agent when the time
/// is over, and otherwise goes on after a pause.
pub proof fn law_waiting_for_agents(
    config: &Config,
    name: Seq<char>,
    timeout_ms: u64,
    replies: Seq<Reply>,
    at: nat,
    n: nat,
)
    ensures
        replies.len() == at ==> wait_running_outcome(config, name, timeout_ms, replies, at)
            == Outcome::<bool>::Ask(tmux_call(CallKind::StartClock, Seq::empty())),
        replies.len() > at ==> wait_running_outcome(config, name, timeout_ms, replies, at)
            == poll_running_outcome(config, name, timeout_ms, replies, at + 1),
        running_outcome(config, name, replies, at) == Outcome::Got(true, n)
            ==> poll_running_outcome(config, name, timeout_ms, replies, at) == Outcome::Got(true, n),
        running_outcome(config, name, replies, at) == Outcome::Got(false, n) ==> ({
            let outcome = poll_running_outcome(config, name, timeout_ms, replies, at);
            let over = replies[n as int].elapsed_ms >= timeout_ms;
            &&& replies.len() == n ==> outcome == Outcome::<bool>::Ask(
                tmux_call(CallKind::ReadClock, Seq::empty()),
            )
            &&& replies.len() > n && over ==> outcome == Outcome::Got(false, n + 1)
            &&& replies.len() == n + 1 && !over ==> outcome == Outcome::<bool>::Ask(
                tmux_call(CallKind::Sleep, Seq::empty()),
            )
            &&& replies.len() > n + 1 && !over && n >= at ==> outcome == poll_running_outcome(
                config,
                name,
                timeout_ms,
                replies,
                n + 2,
            )
        }),
{
}

/// How long is waited: a quarter of a second for a session that was there, two seconds for
/// one that was made, five for the input of an agent, with a look every twentieth of a
/// second.
pub proof fn law_waits_are_bounded(
    config: &Config,
    branch: Seq<char>,
    directory: Seq<char>,
    name: Seq<char>,
    replies: Seq<Reply>,
    at: nat,
)
    requires
        at + 2 <= replies.len(),
        config.default_agent@ != "opencode"@,
        replies[at as int].error is None,
        replies[at as int].success,
        replies[at as int + 1].error is None,
        replies[at as int + 1].success,
        wait_running_outcome(config, name, 250, replies, at + 2) is Ask,
    ensures
        ensure_outcome(config, branch, directory, name, replies, at) == wait_running_outcome(
            config,
            name,
            250,
            replies,
            at + 2,
        ),
        crate::tmux_flow::CREATED_SESSION_READY_WAIT_MS == 2000,
        crate::tmux_flow::AGENT_INPUT_READY_WAIT_MS == 5000,
        crate::tmux_flow::SESSION_READY_POLL_INTERVAL_MS == 50,
{
}

// ---------------------------------------------------------------------------
// Starting a session
// ---------------------------------------------------------------------------

/// The windows of a session are set up in a fixed order: numbering from one and kept, the
/// first window moved to its place and titled with the agent's name, and lazygit and the
/// terminal opened behind it.
pub proof fn law_windows_are_set_up_in_order(
    config: &Config,
    directory: Seq<char>,
    name: Seq<char>,
    replies: Seq<Reply>,
    at: nat,
)
    requires
        at <= replies.len(),
        forall|i: int|
            at <= i < replies.len() ==> (#[trigger] replies[i]).error is None
                && replies[i].success,
        replies.len() > at + 4 ==> !crate::text::lines_of(
            replies[at as int + 4].stdout@,
        ).contains("2"@),
        replies.len() > at + 6 ==> !crate::text::lines_of(
            replies[at as int + 6].stdout@,
        ).contains("3"@),
    ensures
        ({
            let outcome = companions_outcome(config, directory, name, replies, at);
            let asks = |args: Seq<Seq<char>>|
                outcome == Outcome::<()>::Ask(tmux_call(CallKind::Output, args));
            &&& replies.len() == at ==> asks(
                seq!["set-option"@, "-t"@, name, "base-index"@, "1"@],
            )
            &&& replies.len() == at + 1 ==> asks(
                seq!["set-option"@, "-t"@, name, "renumber-windows"@, "off"@],
            )
            &&& replies.len() == at + 2 ==> asks(
                seq!["move-window"@, "-s"@, name + ":0"@, "-t"@, name + ":1"@],
            )
            &&& replies.len() == at + 3 ==> asks(
                seq!["rename-window"@, "-t"@, name + ":1"@, config.default_agent@],
            )
            &&& replies.len() == at + 4 || replies.len() == at + 6 ==> asks(
                seq!["list-windows"@, "-t"@, name, "-F"@, "#{window_index}"@],
            )
            &&& replies.len() == at + 5 ==> asks(
                seq![
                    "new-window"@,
                    "-d"@,
                    "-t"@,
                    name + ":2"@,
                    "-n"@,
                    "lazygit"@,
                    "-c"@,
                    directory,
                    config.tool_text("lazygit"@),
                ],
            )
            &&& replies.len() == at + 7 ==> asks(
                seq![
                    "new-window"@,
                    "-d"@,
                    "-t"@,
                    name + ":3"@,
                    "-n"@,
                    "terminal"@,
                    "-c"@,
                    directory,
                    config.shell@,
                ],
            )
            &&& replies.len() >= at + 8 ==> outcome == Outcome::Got((), at + 8)
        }),
{
    crate::tmux_call_laws::law_windows_have_fixed_places(name);
}

/// A session that is to be detached from when it ends is told so; whether it was there is
/// what came back, and any other failure is one.
pub proof fn law_sessions_are_configured(name: Seq<char>, replies: Seq<Reply>, at: nat)
    requires
        at <= replies.len(),
    ensures
        ({
            let outcome = configure_outcome(name, replies, at);
            let error = status_error(replies[at as int]);
            &&& replies.len() == at ==> outcome == Outcome::<bool>::Ask(
                tmux_call(
                    CallKind::Output,
                    seq!["set-option"@, "-t"@, name, "detach-on-destroy"@, "on"@],
                ),
            )
            &&& replies.len() > at && error is None ==> outcome == Outcome::Got(true, at + 1)
            &&& replies.len() > at && error is Some && crate::tmux::says_missing(error->0)
                ==> outcome == Outcome::Got(false, at + 1)
            &&& replies.len() > at && error is Some && !crate::tmux::says_missing(error->0)
                ==> outcome == Outcome::<bool>::Fail(error->0, at + 1)
        }),
{
}

/// A session is started detached in its worktree, under its name, with a window titled with
/// the agent's name that runs the agent's command line. An agent that has none is refused
/// before anything is asked for.
pub proof fn law_sessions_are_started(
    config: &Config,
    directory: Seq<char>,
    name: Seq<char>,
    runtime: Option<OpencodeRuntime>,
    replies: Seq<Reply>,
    at: nat,
)
    requires
        at <= replies.len(),
    ensures
        ({
            let command = crate::tmux::shell_command(
                config,
                crate::tmux::agent_words(config, directory, runtime),
            );
            let outcome = start_outcome(config, directory, name, runtime, replies, at);
            let error = status_error(replies[at as int]);
            &&& command matches Err(problem) ==> outcome == Outcome::<()>::Fail(problem, at)
            &&& command is Ok && replies.len() == at ==> outcome == Outcome::<()>::Ask(
                tmux_call(
                    CallKind::Output,
                    seq![
                        "new-session"@,
                        "-d"@,
                        "-s"@,
                        name,
                        "-n"@,
                        config.default_agent@,
                        "-c"@,
                        directory,
                        command->Ok_0,
                    ],
                ),
            )
            &&& command is Ok && replies.len() > at && error is None ==> outcome == Outcome::Got(
                (),
                at + 1,
            )
            &&& command is Ok && replies.len() > at && error is Some ==> outcome
                == Outcome::<()>::Fail(error->0, at + 1)
        }),
{
}

/// A new session of OpenCode uses the server that was prepared for it, and else the one
/// that is stored for its worktree; another agent needs none.
pub proof fn law_servers_of_new_sessions(
    config: &Config,
    branch: Seq<char>,
    directory: Seq<char>,
    name: Seq<char>,
    prepared: usize,
    replies: Seq<Reply>,
    at: nat,
)
    requires
        at <= replies.len(),
        prepared < replies.len(),
    ensures
        config.default_agent@ == "opencode"@ && replies[prepared as int].runtime is Some
            ==> create_outcome(config, branch, directory, name, Some(prepared), replies, at)
            == start_outcome(
            config,
            directory,
            name,
            replies[prepared as int].runtime,
            replies,
            at,
        ),
        config.default_agent@ == "opencode"@ && replies.len() == at ==> create_outcome(
            config,
            branch,
            directory,
            name,
            None,
            replies,
            at,
        ) == Outcome::<()>::Ask(tmux_call(CallKind::LoadRuntime, seq![branch, directory])),
        config.default_agent@ == "opencode"@ && replies.len() > at ==> create_outcome(
            config,
            branch,
            directory,
            name,
            None,
            replies,
            at,
        ) == start_outcome(
            config,
            directory,
            name,
            crate::tmux_flow::usable(replies[at as int], directory),
            replies,
            at + 1,
        ),
        config.default_agent@ != "opencode"@ ==> create_outcome(
            config,
            branch,
            directory,
            name,
            None,
            replies,
            at,
        ) == start_outcome(config, directory, name, None, replies, at),
{
}

/// A new session is started, configured and given its windows, and after that the agent is
/// waited for, two seconds at most: what the wait found is the answer.
pub proof fn law_new_sessions(
    config: &Config,
    branch: Seq<char>,
    directory: Seq<char>,
    name: Seq<char>,
    prepared: Option<usize>,
    replies: Seq<Reply>,
    at: nat,
    started: nat,
    configured: nat,
    there: bool,
    opened: nat,
)
    ensures
        ({
            let outcome = fresh_outcome(config, branch, directory, name, prepared, replies, at);
            let created = create_outcome(config, branch, directory, name, prepared, replies, at);
            &&& created matches Outcome::Ask(asked) ==> outcome == Outcome::<bool>::Ask(asked)
            &&& created matches Outcome::Fail(error, n) ==> outcome == Outcome::<bool>::Fail(
                error,
                n,
            )
            &&& created == Outcome::Got((), started) && configure_outcome(name, replies, started)
                == Outcome::Got(there, configured) && companions_outcome(
                config,
                directory,
                name,
                replies,
                configured,
            ) == Outcome::Got((), opened) ==> outcome == wait_running_outcome(
                config,
                name,
                2000,
                replies,
                opened,
            )
        }),
{
}

/// For OpenCode outside the default branch a server is prepared before anything else, and
/// without it there is no session.
pub proof fn law_servers_are_prepared_first(
    config: &Config,
    branch: Seq<char>,
    directory: Seq<char>,
    name: Seq<char>,
    replies: Seq<Reply>,
    at: nat,
)
    requires
        at <= replies.len(),
        config.default_agent@ == "opencode"@,
        branch != config.default_branch@,
    ensures
        replies.len() == at ==> ensure_outcome(config, branch, directory, name, replies, at)
            == Outcome::<bool>::Ask(tmux_call(CallKind::PrepareRuntime, seq![branch, directory])),
        replies.len() > at && replies[at as int].error is Some ==> ensure_outcome(
            config,
            branch,
            directory,
            name,
            replies,
            at,
        ) == Outcome::<bool>::Fail(
            "prepare opencode runtime: "@ + replies[at as int].error->0@,
            at + 1,
        ),
        replies.len() == at + 1 && replies[at as int].error is None ==> ensure_outcome(
            config,
            branch,
            directory,
            name,
            replies,
            at,
        ) == Outcome::<bool>::Ask(
            tmux_call(CallKind::Output, seq!["has-session"@, "-t"@, name]),
        ),
        replies.len() > at + 1 && replies[at as int].error is None && replies[at as int + 1].error
            is None && !replies[at as int + 1].success && at <= usize::MAX ==> ensure_outcome(
            config,
            branch,
            directory,
            name,
            replies,
            at,
        ) == fresh_outcome(config, branch, directory, name, Some(at as usize), replies, at + 2),
{
}

/// A session that is not there is made. One that is there is kept where its agent runs, and
/// then only its windows are looked after; where no agent runs in it, it is ended and made
/// again.
pub proof fn law_sessions_are_kept_while_their_agent_runs(
    config: &Config,
    branch: Seq<char>,
    directory: Seq<char>,
    name: Seq<char>,
    replies: Seq<Reply>,
    at: nat,
    n: nat,
    opened: nat,
)
    requires
        at < replies.len(),
        config.default_agent@ != "opencode"@ || branch == config.default_branch@,
        replies[at as int].error is None,
    ensures
        ({
            let outcome = ensure_outcome(config, branch, directory, name, replies, at);
            let made = |from: nat|
                fresh_outcome(config, branch, directory, name, None, replies, from);
            let wait = wait_running_outcome(config, name, 250, replies, at + 2);
            let ready = replies.len() > at + 1 && status_error(replies[at as int + 1]) is None;
            &&& !replies[at as int].success ==> outcome == made(at + 1)
            &&& replies[at as int].success && replies.len() > at + 1 && (status_error(
                replies[at as int + 1],
            ) matches Some(error) && crate::tmux::says_missing(error)) ==> outcome == made(at + 2)
            &&& replies[at as int].success && ready && wait == Outcome::Got(true, n)
                && companions_outcome(config, directory, name, replies, n) == Outcome::Got(
                (),
                opened,
            ) ==> outcome == Outcome::Got(true, opened)
            &&& replies[at as int].success && ready && wait == Outcome::Got(false, n)
                && replies.len() == n ==> outcome == Outcome::<bool>::Ask(
                tmux_call(CallKind::Output, seq!["kill-session"@, "-t"@, name]),
            )
            &&& replies[at as int].success && ready && wait == Outcome::Got(false, n)
                && replies.len() > n && status_error(replies[n as int]) is None ==> outcome
                == made(n + 1)
        }),
{
}

/// To be attached to, a session whose agent does not run, or that went away, is made ready
/// as a whole.
pub proof fn law_sessions_to_attach_to(
    config: &Config,
    branch: Seq<char>,
    directory: Seq<char>,
    name: Seq<char>,
    replies: Seq<Reply>,
    at: nat,
    n: nat,
    configured: nat,
    ready: bool,
    end: nat,
)
    requires
        at <= replies.len(),
    ensures
        running_outcome(config, name, replies, at) == Outcome::Got(false, n) && ensure_outcome(
            config,
            branch,
            directory,
            name,
            replies,
            n,
        ) == Outcome::Got(ready, end) ==> ready_outcome(
            config,
            branch,
            directory,
            name,
            replies,
            at,
        ) == Outcome::Got((), end),
        running_outcome(config, name, replies, at) == Outcome::Got(true, n) && configure_outcome(
            name,
            replies,
            n,
        ) == Outcome::Got(false, configured) && ensure_outcome(
            config,
            branch,
            directory,
            name,
            replies,
            configured,
        ) == Outcome::Got(ready, end) ==> ready_outcome(
            config,
            branch,
            directory,
            name,
            replies,
            at,
        ) == Outcome::Got((), end),
        running_outcome(config, name, replies, at) == Outcome::Got(true, n) && configure_outcome(
            name,
            replies,
            n,
        ) == Outcome::Got(true, configured) ==> ready_outcome(
            config,
            branch,
            directory,
            name,
            replies,
            at,
        ) == companions_outcome(config, directory, name, replies, configured),
{
}

// ---------------------------------------------------------------------------
// Attaching
// ---------------------------------------------------------------------------

/// Attaching asks for the very target that was given. It succeeds where tmux could be run;
/// where not, the failure counts only while the session is still there.
pub proof fn law_attaching(target: Seq<char>, name: Seq<char>, replies: Seq<Reply>, at: nat)
    requires
        at <= replies.len(),
    ensures
        ({
            let outcome = attach_outcome(target, name, replies, at);
            let failed = replies[at as int].error is Some;
            let gone = replies[at as int + 1].error is None && !replies[at as int + 1].success;
            &&& replies.len() == at ==> outcome == Outcome::<()>::Ask(
                tmux_call(CallKind::Attach, seq!["attach-session"@, "-t"@, target]),
            )
            &&& replies.len() > at && !failed ==> outcome == Outcome::Got((), at + 1)
            &&& replies.len() == at + 1 && failed ==> outcome == Outcome::<()>::Ask(
                tmux_call(CallKind::Output, seq!["has-session"@, "-t"@, name]),
            )
            &&& replies.len() > at + 1 && failed && !gone ==> outcome == Outcome::<()>::Fail(
                replies[at as int].error->0@,
                at + 2,
            )
            &&& replies.len() > at + 1 && failed && gone ==> outcome == Outcome::Got((), at + 2)
        }),
{
}

/// A planning session that is there is attached to. Otherwise it is started in its
/// directory with its command, told to be detached from when it ends, and attached to.
pub proof fn law_planning_sessions(
    name: Seq<char>,
    directory: Seq<char>,
    command: Seq<char>,
    replies: Seq<Reply>,
)
    requires
        forall|i: int| 0 <= i < replies.len() ==> (#[trigger] replies[i]).error is None,
        forall|i: int| 1 <= i < replies.len() ==> (#[trigger] replies[i]).success,
    ensures
        ({
            let outcome = plan_mode_outcome(name, directory, command, replies);
            let there = replies[0].success;
            let attach = Outcome::<()>::Ask(
                tmux_call(CallKind::Attach, seq!["attach-session"@, "-t"@, name]),
            );
            &&& replies.len() == 0 ==> outcome == Outcome::<()>::Ask(
                tmux_call(CallKind::Output, seq!["has-session"@, "-t"@, name]),
            )
            &&& replies.len() == 1 && there ==> outcome == attach
            &&& replies.len() > 1 && there ==> outcome == Outcome::Got((), 2nat)
            &&& replies.len() == 1 && !there ==> outcome == Outcome::<()>::Ask(
                tmux_call(
                    CallKind::Output,
                    seq![
                        "new-session"@,
                        "-d"@,
                        "-s"@,
                        name,
                        "-n"@,
                        "plan"@,
                        "-c"@,
                        directory,
                        command,
                    ],
                ),
            )
            &&& replies.len() == 2 && !there ==> outcome == Outcome::<()>::Ask(
                tmux_call(
                    CallKind::Output,
                    seq!["set-option"@, "-t"@, name, "detach-on-destroy"@, "on"@],
                ),
            )
            &&& replies.len() == 3 && !there ==> outcome == attach
            &&& replies.len() > 3 && !there ==> outcome == Outcome::Got((), 4nat)
        }),
{
}

// ---------------------------------------------------------------------------
// Ending sessions
// ---------------------------------------------------------------------------

proof fn lemma_with_prefix(items: Seq<Seq<char>>, prefix: Seq<char>, item: Seq<char>)
    ensures
        with_prefix(items, prefix).contains(item) <==> items.contains(item)
            && crate::text::has_prefix(item, prefix),
    decreases items.len(),
{
    if items.len() > 0 {
        let init = items.drop_last();
        let before = with_prefix(init, prefix);
        let now = with_prefix(items, prefix);
        lemma_with_prefix(init, prefix, item);
        if items.contains(item) && item != items.last() {
            let at = choose|k: int| 0 <= k < items.len() && items[k] == item;
            assert(init[at] == item);
        }
        if init.contains(item) {
            let at = choose|k: int| 0 <= k < init.len() && init[k] == item;
            assert(items[at] == item);
        }
        assert(items[items.len() - 1] == items.last());
        if crate::text::has_prefix(items.last(), prefix) {
            assert(now[before.len() as int] == items.last());
            if before.contains(item) {
                let at = choose|k: int| 0 <= k < before.len() && before[k] == item;
                assert(now[at] == item);
            }
            if now.contains(item) && item != items.last() {
                let at = choose|k: int| 0 <= k < now.len() && now[k] == item;
                assert(before[at] == item);
            }
        }
    }
}

/// The sessions of a branch are the lines of the list that start with the branch's prefix.
/// Where no tmux runs there are none, and any other failure is one.
pub proof fn law_listed_sessions(reply: Reply, prefix: Seq<char>, name: Seq<char>)
    ensures
        ({
            let listed = listed_sessions(reply, prefix);
            let error = crate::text::trimmed(reply.stderr@);
            &&& reply.error is None && reply.success ==> listed is Ok && (
            listed->Ok_0.contains(name) <==> crate::text::lines_of(reply.stdout@).contains(name)
                && crate::text::has_prefix(name, prefix))
            &&& reply.error is None && !reply.success && crate::tmux::says_missing(error)
                ==> listed == Ok::<Seq<Seq<char>>, Seq<char>>(Seq::empty())
            &&& reply.error is None && !reply.success && !crate::tmux::says_missing(error)
                ==> listed is Err && Some(listed->Err_0) == status_error(reply)
            &&& reply.error is Some ==> listed == Err::<Seq<Seq<char>>, Seq<char>>(
                reply.error->0@,
            )
        }),
{
    lemma_with_prefix(crate::text::lines_of(reply.stdout@), prefix, name);
}

/// Sessions are ended one by one in their order, each by its own name.
pub proof fn law_sessions_are_ended_one_by_one(
    names: Seq<Seq<char>>,
    replies: Seq<Reply>,
    at: nat,
)
    requires
        at <= replies.len(),
        forall|i: int|
            at <= i < replies.len() ==> (#[trigger] replies[i]).error is None
                && replies[i].success,
    ensures
        replies.len() - at < names.len() ==> kill_all_outcome(names, replies, at)
            == Outcome::<()>::Ask(
            tmux_call(
                CallKind::Output,
                seq!["kill-session"@, "-t"@, names[replies.len() - at]],
            ),
        ),
        replies.len() - at >= names.len() ==> kill_all_outcome(names, replies, at) == Outcome::Got(
            (),
            at + names.len(),
        ),
    decreases names.len(),
{
    if names.len() > 0 && at < replies.len() {
        law_sessions_are_ended_one_by_one(names.skip(1), replies, at + 1);
    }
}

/// Ending the sessions of a branch lists the sessions first and ends those of the branch.
pub proof fn law_sessions_of_a_branch_are_ended(prefix: Seq<char>, replies: Seq<Reply>)
    ensures
        replies.len() == 0 ==> kill_branch_outcome(prefix, replies) == Outcome::<()>::Ask(
            tmux_call(CallKind::Output, seq!["list-sessions"@, "-F"@, "#{session_name}"@]),
        ),
        replies.len() > 0 ==> match listed_sessions(replies[0], prefix) {
            Ok(names) => kill_branch_outcome(prefix, replies) == kill_all_outcome(
                names,
                replies,
                1,
            ),
            Err(error) => kill_branch_outcome(prefix, replies) == Outcome::<()>::Fail(error, 1),
        },
{
}

/// The latest generation of a branch is asked of the list of sessions; a list that fails
/// has none.
pub proof fn law_latest_generations(prefix: Seq<char>, replies: Seq<Reply>)
    ensures
        replies.len() == 0 ==> crate::tmux_flow::latest_outcome(prefix, replies)
            == Outcome::<Option<u64>>::Ask(
            tmux_call(CallKind::Output, seq!["list-sessions"@, "-F"@, "#{session_name}"@]),
        ),
        replies.len() > 0 && listed_sessions(replies[0], prefix) is Err
            ==> crate::tmux_flow::latest_outcome(prefix, replies) == Outcome::Got(
            None::<u64>,
            1nat,
        ),
        replies.len() > 0 && listed_sessions(replies[0], prefix) is Ok
            ==> crate::tmux_flow::latest_outcome(prefix, replies) == Outcome::Got(
            crate::tmux_flow::latest_generation(
                listed_sessions(replies[0], prefix)->Ok_0,
                prefix,
            ),
            1nat,
        ),
{
}

/// Ending a session asks for that session; that it is gone already is no failure, and any
/// other failure is one.
pub proof fn law_ending_a_session(name: Seq<char>, replies: Seq<Reply>, at: nat)
    requires
        at <= replies.len(),
    ensures
        ({
            let outcome = crate::tmux_flow::tolerant_outcome(
                crate::tmux_flow::kill_args(name),
                replies,
                at,
            );
            let error = status_error(replies[at as int]);
            &&& replies.len() == at ==> outcome == Outcome::<()>::Ask(
                tmux_call(CallKind::Output, seq!["kill-session"@, "-t"@, name]),
            )
            &&& replies.len() > at && error is None ==> outcome == Outcome::Got((), at + 1)
            &&& replies.len() > at && error is Some && crate::tmux::says_missing(error->0)
                ==> outcome == Outcome::Got((), at + 1)
            &&& replies.len() > at && error is Some && !crate::tmux::says_missing(error->0)
                ==> outcome == Outcome::<()>::Fail(error->0, at + 1)
        }),
{
}

} // verus!
