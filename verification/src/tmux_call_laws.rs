//! What the calls to tmux are for: which window each of them reaches, which program each
//! window runs, and how a prompt gets to its agent.
use vstd::prelude::*;

use crate::model::Config;
use crate::tmux::TmuxWindow;
use crate::tmux_flow::CallKind;
use crate::tmux_flow::CallView;
use crate::tmux_flow::Outcome;
use crate::tmux_flow::Reply;

verus! {

// ---------------------------------------------------------------------------
// Windows
// ---------------------------------------------------------------------------

/// The agent is in the first window of its session, lazygit in the second, and the terminal
/// in the third.
pub proof fn law_windows_have_fixed_places(name: Seq<char>)
    ensures
        crate::tmux::target_text(name, TmuxWindow::Agent) == name + ":1"@,
        crate::tmux::target_text(name, TmuxWindow::LazyGit) == name + ":2"@,
        crate::tmux::target_text(name, TmuxWindow::Terminal) == name + ":3"@,
        crate::text::decimal_text(1) == "1"@,
        crate::text::decimal_text(2) == "2"@,
        crate::text::decimal_text(3) == "3"@,
{
    reveal_strlit(":");
    reveal_strlit("1");
    reveal_strlit("2");
    reveal_strlit("3");
    reveal_strlit(":1");
    reveal_strlit(":2");
    reveal_strlit(":3");
    assert(crate::text::decimal_text(1) =~= "1"@);
    assert(crate::text::decimal_text(2) =~= "2"@);
    assert(crate::text::decimal_text(3) =~= "3"@);
    assert(crate::tmux::target_text(name, TmuxWindow::Agent) =~= name + ":1"@);
    assert(crate::tmux::target_text(name, TmuxWindow::LazyGit) =~= name + ":2"@);
    assert(crate::tmux::target_text(name, TmuxWindow::Terminal) =~= name + ":3"@);
}

/// Whether a call opens a window with its program: lazygit in the second window, and the
/// shell in the third.
pub open spec fn opens_its_program(
    config: &Config,
    directory: Seq<char>,
    name: Seq<char>,
    args: Seq<Seq<char>>,
) -> bool {
    &&& args.len() == 9
    &&& args[1] == "-d"@
    &&& args[2] == "-t"@
    &&& args[4] == "-n"@
    &&& args[6] == "-c"@
    &&& args[7] == directory
    &&& args[3] == name + ":2"@ || args[3] == name + ":3"@
    &&& args[3] == name + ":2"@ ==> args[5] == "lazygit"@ && (if config.tools@.dom().contains(
        "lazygit"@,
    ) {
        args[8] == config.tools@["lazygit"@]@
    } else {
        args[8] == "lazygit"@
    })
    &&& args[3] == name + ":3"@ ==> args[5] == "terminal"@ && args[8] == config.shell@
}

/// What may be asked for while a session is made ready: every call names the session or a
/// window of it.
pub open spec fn is_session_call(
    config: &Config,
    branch: Seq<char>,
    directory: Seq<char>,
    name: Seq<char>,
    asked: CallView,
) -> bool {
    let args = asked.args;
    &&& asked.input.len() == 0
    &&& match asked.kind {
        CallKind::Output => {
            ||| args == seq!["has-session"@, "-t"@, name]
            ||| args == seq!["kill-session"@, "-t"@, name]
            ||| args == seq!["list-windows"@, "-t"@, name, "-F"@, "#{window_index}"@]
            ||| args == seq!["set-option"@, "-t"@, name, "detach-on-destroy"@, "on"@]
            ||| args == seq!["set-option"@, "-t"@, name, "base-index"@, "1"@]
            ||| args == seq!["set-option"@, "-t"@, name, "renumber-windows"@, "off"@]
            ||| args == seq!["move-window"@, "-s"@, name + ":0"@, "-t"@, name + ":1"@]
            ||| args == seq!["rename-window"@, "-t"@, name + ":1"@, config.default_agent@]
            ||| args == seq!["rename-window"@, "-t"@, name + ":2"@, "lazygit"@]
            ||| args == seq!["rename-window"@, "-t"@, name + ":3"@, "terminal"@]
            ||| args.len() > 0 && args[0] == "new-window"@ && opens_its_program(
                config,
                directory,
                name,
                args,
            )
            ||| args.len() == 9 && args == seq![
                "new-session"@,
                "-d"@,
                "-s"@,
                name,
                "-n"@,
                config.default_agent@,
                "-c"@,
                directory,
                args[8],
            ]
        },
        CallKind::Capture => {
            ||| args == seq![
                "display-message"@,
                "-p"@,
                "-t"@,
                name + ":1"@,
                "#{pane_current_command}"@,
            ]
            ||| args == seq![
                "display-message"@,
                "-p"@,
                "-t"@,
                name + ":1"@,
                "#{pane_start_command}"@,
            ]
        },
        CallKind::StartClock => args.len() == 0,
        CallKind::ReadClock => args.len() == 0,
        CallKind::Sleep => args.len() == 0,
        CallKind::PrepareRuntime => args == seq![branch, directory],
        CallKind::LoadRuntime => args == seq![branch, directory],
        _ => false,
    }
}

proof fn lemma_words_differ()
    ensures
        "has-session"@ != "new-window"@,
        "kill-session"@ != "new-window"@,
        "list-windows"@ != "new-window"@,
        "set-option"@ != "new-window"@,
        "move-window"@ != "new-window"@,
        "rename-window"@ != "new-window"@,
        "new-session"@ != "new-window"@,
        "display-message"@ != "new-window"@,
        "has-session"@ != "paste-buffer"@,
        "kill-session"@ != "paste-buffer"@,
        "list-windows"@ != "paste-buffer"@,
        "set-option"@ != "paste-buffer"@,
        "move-window"@ != "paste-buffer"@,
        "rename-window"@ != "paste-buffer"@,
        "new-session"@ != "paste-buffer"@,
        "new-window"@ != "paste-buffer"@,
        "display-message"@ != "paste-buffer"@,
        "load-buffer"@ != "paste-buffer"@,
        "capture-pane"@ != "paste-buffer"@,
        "capture-pane"@ != "new-window"@,
        "load-buffer"@ != "new-window"@,
{
    reveal_strlit("has-session");
    reveal_strlit("kill-session");
    reveal_strlit("list-windows");
    reveal_strlit("set-option");
    reveal_strlit("move-window");
    reveal_strlit("rename-window");
    reveal_strlit("new-session");
    reveal_strlit("new-window");
    reveal_strlit("display-message");
    reveal_strlit("paste-buffer");
    reveal_strlit("load-buffer");
    reveal_strlit("capture-pane");
    assert("kill-session"@[0] == 'k');
    assert("list-windows"@[0] == 'l');
    assert("capture-pane"@[0] == 'c');
    assert("paste-buffer"@[0] == 'p');
    assert("set-option"@[0] == 's');
    assert("new-window"@[0] == 'n');
    assert("new-window"@.len() == 10);
    assert("new-session"@.len() == 11);
}

pub proof fn lemma_first_word(
    config: &Config,
    branch: Seq<char>,
    directory: Seq<char>,
    name: Seq<char>,
    asked: CallView,
)
    requires
        is_session_call(config, branch, directory, name, asked),
        asked.args.len() > 0,
    ensures
        asked.args[0] == "new-window"@ && asked.kind == CallKind::Output ==> opens_its_program(
            config,
            directory,
            name,
            asked.args,
        ),
        asked.kind == CallKind::Output ==> asked.args[0] != "paste-buffer"@,
{
    lemma_words_differ();
    let args = asked.args;
    let first = args[0];
    if asked.kind == CallKind::Output && !(args.len() > 0 && first == "new-window"@
        && opens_its_program(config, directory, name, args)) {
        assert(first == "has-session"@ || first == "kill-session"@ || first == "list-windows"@
            || first == "set-option"@ || first == "move-window"@ || first == "rename-window"@
            || first == "new-session"@);
    }
}

proof fn lemma_window_calls(
    config: &Config,
    branch: Seq<char>,
    directory: Seq<char>,
    name: Seq<char>,
    replies: Seq<Reply>,
)
    ensures
        forall|window: TmuxWindow, at: nat|
            #![trigger crate::tmux_flow::ensure_window_outcome(config, directory, name, window, replies, at)]
            crate::tmux_flow::ensure_window_outcome(
                config,
                directory,
                name,
                window,
                replies,
                at,
            ) matches Outcome::Ask(asked) ==> is_session_call(
                config,
                branch,
                directory,
                name,
                asked,
            ),
{
    law_windows_have_fixed_places(name);
    assert forall|window: TmuxWindow, at: nat|
        #![trigger crate::tmux_flow::ensure_window_outcome(config, directory, name, window, replies, at)]
        crate::tmux_flow::ensure_window_outcome(
            config,
            directory,
            name,
            window,
            replies,
            at,
        ) matches Outcome::Ask(asked) ==> is_session_call(
        config,
        branch,
        directory,
        name,
        asked,
    ) by {
        match crate::tmux_flow::window_exists_outcome(name, window, replies, at) {
            Outcome::Got(there, n) => {
                if !there && window != TmuxWindow::Agent {
                    lemma_window_names_differ(name);
                }
            },
            _ => {},
        }
    }
}

proof fn lemma_window_names_differ(name: Seq<char>)
    ensures
        name + ":1"@ != name + ":2"@,
        name + ":1"@ != name + ":3"@,
        name + ":2"@ != name + ":3"@,
{
    reveal_strlit(":1");
    reveal_strlit(":2");
    reveal_strlit(":3");
    assert((name + ":1"@)[name.len() as int + 1] == '1');
    assert((name + ":2"@)[name.len() as int + 1] == '2');
    assert((name + ":3"@)[name.len() as int + 1] == '3');
}

proof fn lemma_companion_calls(
    config: &Config,
    branch: Seq<char>,
    directory: Seq<char>,
    name: Seq<char>,
    replies: Seq<Reply>,
)
    ensures
        forall|at: nat|
            #![trigger crate::tmux_flow::companions_outcome(config, directory, name, replies, at)]
            crate::tmux_flow::companions_outcome(
                config,
                directory,
                name,
                replies,
                at,
            ) matches Outcome::Ask(asked) ==> is_session_call(
                config,
                branch,
                directory,
                name,
                asked,
            ),
{
    law_windows_have_fixed_places(name);
    lemma_window_calls(config, branch, directory, name, replies);
}

proof fn lemma_poll_calls(
    config: &Config,
    branch: Seq<char>,
    directory: Seq<char>,
    name: Seq<char>,
    timeout_ms: u64,
    replies: Seq<Reply>,
    at: nat,
)
    ensures
        crate::tmux_flow::poll_running_outcome(
            config,
            name,
            timeout_ms,
            replies,
            at,
        ) matches Outcome::Ask(asked) ==> is_session_call(config, branch, directory, name, asked),
    decreases replies.len() - at,
{
    law_windows_have_fixed_places(name);
    match crate::tmux_flow::running_outcome(config, name, replies, at) {
        Outcome::Got(false, n) => {
            if n + 1 < replies.len() && replies[n as int].elapsed_ms < timeout_ms {
                lemma_poll_calls(config, branch, directory, name, timeout_ms, replies, n + 2);
            }
        },
        _ => {},
    }
}

proof fn lemma_wait_calls(
    config: &Config,
    branch: Seq<char>,
    directory: Seq<char>,
    name: Seq<char>,
    replies: Seq<Reply>,
)
    ensures
        forall|timeout_ms: u64, at: nat|
            #![trigger crate::tmux_flow::wait_running_outcome(config, name, timeout_ms, replies, at)]
            crate::tmux_flow::wait_running_outcome(
                config,
                name,
                timeout_ms,
                replies,
                at,
            ) matches Outcome::Ask(asked) ==> is_session_call(
                config,
                branch,
                directory,
                name,
                asked,
            ),
{
    assert forall|timeout_ms: u64, at: nat|
        #![trigger crate::tmux_flow::wait_running_outcome(config, name, timeout_ms, replies, at)]
        crate::tmux_flow::wait_running_outcome(
            config,
            name,
            timeout_ms,
            replies,
            at,
        ) matches Outcome::Ask(asked) ==> is_session_call(
        config,
        branch,
        directory,
        name,
        asked,
    ) by {
        lemma_poll_calls(config, branch, directory, name, timeout_ms, replies, at + 1);
    }
}

proof fn lemma_fresh_calls(
    config: &Config,
    branch: Seq<char>,
    directory: Seq<char>,
    name: Seq<char>,
    replies: Seq<Reply>,
)
    ensures
        forall|prepared: Option<usize>, at: nat|
            #![trigger crate::tmux_flow::fresh_outcome(config, branch, directory, name, prepared, replies, at)]
            crate::tmux_flow::fresh_outcome(
                config,
                branch,
                directory,
                name,
                prepared,
                replies,
                at,
            ) matches Outcome::Ask(asked) ==> is_session_call(
                config,
                branch,
                directory,
                name,
                asked,
            ),
{
    lemma_companion_calls(config, branch, directory, name, replies);
    lemma_wait_calls(config, branch, directory, name, replies);
}

/// Making a session ready only ever asks for calls to that session and its windows. A
/// window that it opens runs its own program: lazygit in the second, the shell in the third.
pub proof fn law_session_calls_stay_in_the_session(
    config: &Config,
    branch: Seq<char>,
    directory: Seq<char>,
    name: Seq<char>,
    replies: Seq<Reply>,
    at: nat,
)
    ensures
        crate::tmux_flow::ensure_outcome(
            config,
            branch,
            directory,
            name,
            replies,
            at,
        ) matches Outcome::Ask(asked) ==> is_session_call(config, branch, directory, name, asked),
        crate::tmux_flow::ready_outcome(
            config,
            branch,
            directory,
            name,
            replies,
            at,
        ) matches Outcome::Ask(asked) ==> is_session_call(config, branch, directory, name, asked),
{
    law_windows_have_fixed_places(name);
    lemma_companion_calls(config, branch, directory, name, replies);
    lemma_wait_calls(config, branch, directory, name, replies);
    lemma_fresh_calls(config, branch, directory, name, replies);
    lemma_ensure_calls(config, branch, directory, name, replies);
}

proof fn lemma_ensure_calls(
    config: &Config,
    branch: Seq<char>,
    directory: Seq<char>,
    name: Seq<char>,
    replies: Seq<Reply>,
)
    ensures
        forall|at: nat|
            #![trigger crate::tmux_flow::ensure_outcome(config, branch, directory, name, replies, at)]
            crate::tmux_flow::ensure_outcome(
                config,
                branch,
                directory,
                name,
                replies,
                at,
            ) matches Outcome::Ask(asked) ==> is_session_call(
                config,
                branch,
                directory,
                name,
                asked,
            ),
{
    law_windows_have_fixed_places(name);
    lemma_companion_calls(config, branch, directory, name, replies);
    lemma_wait_calls(config, branch, directory, name, replies);
    lemma_fresh_calls(config, branch, directory, name, replies);
}

/// Every window that is opened while a session is made ready for somebody to attach to it
/// runs its own program: the second window the configured lazygit, or the program of that
/// name where none is configured, and the third the configured shell. Both open in the
/// worktree.
pub proof fn law_opened_windows_run_their_programs(
    config: &Config,
    branch: Seq<char>,
    directory: Seq<char>,
    name: Seq<char>,
    replies: Seq<Reply>,
    at: nat,
    asked: CallView,
)
    requires
        crate::tmux_flow::ready_outcome(config, branch, directory, name, replies, at)
            == Outcome::<()>::Ask(asked) || crate::tmux_flow::ensure_outcome(
            config,
            branch,
            directory,
            name,
            replies,
            at,
        ) == Outcome::<bool>::Ask(asked),
        asked.kind == CallKind::Output,
        asked.args.len() > 0,
        asked.args[0] == "new-window"@,
    ensures
        asked.args.len() == 9,
        asked.args[3] == name + ":2"@ || asked.args[3] == name + ":3"@,
        asked.args[3] == name + ":2"@ && config.tools@.dom().contains("lazygit"@)
            ==> asked.args.last() == config.tools@["lazygit"@]@,
        asked.args[3] == name + ":2"@ && !config.tools@.dom().contains("lazygit"@)
            ==> asked.args.last() == "lazygit"@,
        asked.args[3] == name + ":3"@ ==> asked.args.last() == config.shell@,
        asked.args[7] == directory,
{
    assert(is_session_call(config, branch, directory, name, asked)) by {
        law_session_calls_stay_in_the_session(config, branch, directory, name, replies, at);
    }
    lemma_first_word(config, branch, directory, name, asked);
}

/// A window that the list of windows does not show is opened, and one that it shows is not
/// opened again.
pub proof fn law_missing_windows_are_opened(
    config: &Config,
    directory: Seq<char>,
    name: Seq<char>,
    replies: Seq<Reply>,
    at: nat,
)
    requires
        replies.len() == at + 1,
        replies[at as int].error is None,
        replies[at as int].success,
    ensures
        !crate::text::lines_of(replies[at as int].stdout@).contains("2"@)
            ==> (crate::tmux_flow::ensure_window_outcome(
            config,
            directory,
            name,
            TmuxWindow::LazyGit,
            replies,
            at,
        ) matches Outcome::Ask(asked) && asked.kind == CallKind::Output && asked.args[0]
            == "new-window"@ && asked.args[3] == name + ":2"@),
        crate::text::lines_of(replies[at as int].stdout@).contains("2"@)
            ==> crate::tmux_flow::ensure_window_outcome(
            config,
            directory,
            name,
            TmuxWindow::LazyGit,
            replies,
            at,
        ) == Outcome::<()>::Ask(
            (CallView {
                kind: CallKind::Output,
                args: seq!["rename-window"@, "-t"@, name + ":2"@, "lazygit"@],
                input: Seq::empty(),
            }),
        ),
        !crate::text::lines_of(replies[at as int].stdout@).contains("3"@)
            ==> (crate::tmux_flow::ensure_window_outcome(
            config,
            directory,
            name,
            TmuxWindow::Terminal,
            replies,
            at,
        ) matches Outcome::Ask(asked) && asked.kind == CallKind::Output && asked.args[0]
            == "new-window"@ && asked.args[3] == name + ":3"@),
        crate::text::lines_of(replies[at as int].stdout@).contains("3"@)
            ==> crate::tmux_flow::ensure_window_outcome(
            config,
            directory,
            name,
            TmuxWindow::Terminal,
            replies,
            at,
        ) == Outcome::<()>::Ask(
            (CallView {
                kind: CallKind::Output,
                args: seq!["rename-window"@, "-t"@, name + ":3"@, "terminal"@],
                input: Seq::empty(),
            }),
        ),
{
    law_windows_have_fixed_places(name);
}

} // verus!
