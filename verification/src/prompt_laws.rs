//! How a prompt gets to its agent: what is loaded, where it is pasted, and what success
//! means.
use vstd::prelude::*;

use crate::model::Config;
use crate::tmux::OpencodeRuntime;
use crate::tmux::TmuxWindow;
use crate::tmux_call_laws::is_session_call;
use crate::tmux_flow::CallKind;
use crate::tmux_flow::CallView;
use crate::tmux_flow::Outcome;
use crate::tmux_flow::Reply;

verus! {

// ---------------------------------------------------------------------------
// What has happened does not depend on what comes
// ---------------------------------------------------------------------------

/// Whether what came of a number of replies came of them alone.
pub open spec fn is_steady<T>(whole: Outcome<T>, part: Outcome<T>, at: nat, m: nat) -> bool {
    match whole {
        Outcome::Got(_, n) => at <= n && (n <= m ==> part == whole),
        Outcome::Fail(_, n) => at <= n && (n <= m ==> part == whole),
        Outcome::Ask(_) => true,
    }
}

proof fn lemma_steady_poll_input_at(
    target: Seq<char>,
    timeout_ms: u64,
    replies: Seq<Reply>,
    m: nat,
    at: nat,
)
    requires
        m <= replies.len(),
    ensures
        is_steady(
            crate::tmux_flow::poll_input_outcome(target, timeout_ms, replies, at),
            crate::tmux_flow::poll_input_outcome(
                target,
                timeout_ms,
                replies.take(m as int),
                at,
            ),
            at,
            m,
        ),
    decreases replies.len() - at,
{
    if at + 3 <= replies.len() {
        lemma_steady_poll_input_at(target, timeout_ms, replies, m, at + 3);
    }
}

proof fn lemma_steady_poll_input(target: Seq<char>, replies: Seq<Reply>, m: nat)
    requires
        m <= replies.len(),
    ensures
        forall|timeout_ms: u64, at: nat|
            #![trigger crate::tmux_flow::poll_input_outcome(target, timeout_ms, replies, at)]
            is_steady(
                crate::tmux_flow::poll_input_outcome(target, timeout_ms, replies, at),
                crate::tmux_flow::poll_input_outcome(
                    target,
                    timeout_ms,
                    replies.take(m as int),
                    at,
                ),
                at,
                m,
            ),
{
    assert forall|timeout_ms: u64, at: nat|
        #![trigger crate::tmux_flow::poll_input_outcome(target, timeout_ms, replies, at)]
        is_steady(
            crate::tmux_flow::poll_input_outcome(target, timeout_ms, replies, at),
            crate::tmux_flow::poll_input_outcome(
                target,
                timeout_ms,
                replies.take(m as int),
                at,
            ),
            at,
            m,
        ) by {
        lemma_steady_poll_input_at(target, timeout_ms, replies, m, at);
    }
}

proof fn lemma_steady_wait_input(config: &Config, target: Seq<char>, replies: Seq<Reply>, m: nat)
    requires
        m <= replies.len(),
    ensures
        forall|timeout_ms: u64, at: nat|
            #![trigger crate::tmux_flow::wait_input_outcome(config, target, timeout_ms, replies, at)]
            is_steady(
                crate::tmux_flow::wait_input_outcome(config, target, timeout_ms, replies, at),
                crate::tmux_flow::wait_input_outcome(
                    config,
                    target,
                    timeout_ms,
                    replies.take(m as int),
                    at,
                ),
                at,
                m,
            ),
{
    lemma_steady_poll_input(target, replies, m);
}

// ---------------------------------------------------------------------------
// Pasting
// ---------------------------------------------------------------------------

/// While a prompt is pasted, the only thing that is loaded is the prompt itself, into the
/// buffer of its session; the only thing that is pasted is that buffer, and into the window
/// of the agent; and the only window that is looked at is that of the agent.
pub proof fn law_prompt_is_pasted_to_its_agent(
    config: &Config,
    name: Seq<char>,
    prompt: Seq<char>,
    replies: Seq<Reply>,
    at: nat,
    asked: CallView,
)
    requires
        crate::tmux_flow::paste_outcome(config, name, prompt, replies, at) == Outcome::<()>::Ask(
            asked,
        ),
    ensures
        asked.kind == CallKind::Feed ==> asked.args == seq![
            "load-buffer"@,
            "-b"@,
            name + "-prompt"@,
            "-"@,
        ] && asked.input == prompt,
        asked.kind == CallKind::Output ==> asked.args == seq![
            "paste-buffer"@,
            "-d"@,
            "-b"@,
            name + "-prompt"@,
            "-t"@,
            name + ":1"@,
        ],
        asked.kind == CallKind::Capture ==> asked.args == seq![
            "capture-pane"@,
            "-p"@,
            "-t"@,
            name + ":1"@,
        ],
        asked.kind == CallKind::Feed || asked.kind == CallKind::Output || asked.kind
            == CallKind::Capture || asked.kind == CallKind::StartClock || asked.kind
            == CallKind::ReadClock || asked.kind == CallKind::Sleep,
{
    crate::tmux_call_laws::law_windows_have_fixed_places(name);
    lemma_input_calls(
        crate::tmux::target_text(name, TmuxWindow::Agent),
        crate::tmux_flow::AGENT_INPUT_READY_WAIT_MS,
        replies,
        at + 1,
    );
}

proof fn lemma_input_calls(target: Seq<char>, timeout_ms: u64, replies: Seq<Reply>, at: nat)
    ensures
        crate::tmux_flow::poll_input_outcome(target, timeout_ms, replies, at) matches Outcome::Ask(
            asked,
        ) ==> (asked.kind == CallKind::Capture && asked.args == seq![
            "capture-pane"@,
            "-p"@,
            "-t"@,
            target,
        ]) || asked.kind == CallKind::ReadClock || asked.kind == CallKind::Sleep,
    decreases replies.len() - at,
{
    if at + 2 < replies.len() {
        lemma_input_calls(target, timeout_ms, replies, at + 3);
    }
}

/// A prompt is pasted only once it has been loaded: the call before was the one that loaded
/// it, and it did not fail.
pub proof fn law_prompt_is_loaded_before_it_is_pasted(
    config: &Config,
    name: Seq<char>,
    prompt: Seq<char>,
    replies: Seq<Reply>,
    at: nat,
)
    requires
        at <= replies.len(),
        crate::tmux_flow::paste_outcome(config, name, prompt, replies, at) matches Outcome::Ask(
            asked,
        ) && asked.kind == CallKind::Output,
    ensures
        replies.len() > at,
        replies.last().error is None,
        crate::tmux_flow::paste_outcome(config, name, prompt, replies.drop_last(), at)
            == Outcome::<()>::Ask(
            (CallView {
                kind: CallKind::Feed,
                args: seq!["load-buffer"@, "-b"@, name + "-prompt"@, "-"@],
                input: prompt,
            }),
        ),
{
    let m = (replies.len() - 1) as nat;
    let target = crate::tmux::target_text(name, TmuxWindow::Agent);
    let wait = crate::tmux_flow::AGENT_INPUT_READY_WAIT_MS;
    lemma_input_calls(target, wait, replies, at + 1);
    if replies.len() > 0 {
        lemma_steady_wait_input(config, target, replies, m);
        assert(replies.take(m as int) =~= replies.drop_last());
    }
    lemma_input_bounds(target, wait, replies, at + 1);
}

proof fn lemma_input_bounds(target: Seq<char>, timeout_ms: u64, replies: Seq<Reply>, at: nat)
    ensures
        crate::tmux_flow::poll_input_outcome(target, timeout_ms, replies, at) matches Outcome::Got(
            _,
            n,
        ) ==> at < n <= replies.len(),
    decreases replies.len() - at,
{
    if at + 2 < replies.len() {
        lemma_input_bounds(target, timeout_ms, replies, at + 3);
    }
}

/// Pasting succeeds only where the call that pastes the prompt into the window of the agent
/// succeeded.
pub proof fn law_success_means_that_the_prompt_was_pasted(
    config: &Config,
    name: Seq<char>,
    prompt: Seq<char>,
    replies: Seq<Reply>,
    at: nat,
    n: nat,
)
    requires
        at <= replies.len(),
        crate::tmux_flow::paste_outcome(config, name, prompt, replies, at) == Outcome::Got((), n),
    ensures
        at + 2 <= n <= replies.len(),
        replies[n - 1].error is None,
        replies[n - 1].success,
        replies[n - 2].error is None,
        crate::tmux_flow::paste_outcome(config, name, prompt, replies.take(n - 1), at)
            == Outcome::<()>::Ask(
            (CallView {
                kind: CallKind::Output,
                args: seq![
                    "paste-buffer"@,
                    "-d"@,
                    "-b"@,
                    name + "-prompt"@,
                    "-t"@,
                    name + ":1"@,
                ],
                input: Seq::empty(),
            }),
        ),
{
    crate::tmux_call_laws::law_windows_have_fixed_places(name);
    let target = crate::tmux::target_text(name, TmuxWindow::Agent);
    let wait = crate::tmux_flow::AGENT_INPUT_READY_WAIT_MS;
    lemma_input_bounds(target, wait, replies, at + 1);
    lemma_steady_wait_input(config, target, replies, (n - 1) as nat);
}

/// An agent that is not OpenCode takes its prompt at once: the first call loads it, the
/// second pastes it, and then it is done.
pub proof fn law_plain_agents_get_their_prompt_at_once(
    config: &Config,
    name: Seq<char>,
    prompt: Seq<char>,
    replies: Seq<Reply>,
    at: nat,
)
    requires
        config.default_agent@ != "opencode"@,
        at <= replies.len(),
        forall|i: int|
            at <= i < replies.len() ==> (#[trigger] replies[i]).error is None
                && replies[i].success,
    ensures
        replies.len() == at ==> crate::tmux_flow::paste_outcome(config, name, prompt, replies, at)
            == Outcome::<()>::Ask(
            (CallView {
                kind: CallKind::Feed,
                args: seq!["load-buffer"@, "-b"@, name + "-prompt"@, "-"@],
                input: prompt,
            }),
        ),
        replies.len() == at + 1 ==> crate::tmux_flow::paste_outcome(
            config,
            name,
            prompt,
            replies,
            at,
        ) == Outcome::<()>::Ask(
            (CallView {
                kind: CallKind::Output,
                args: seq![
                    "paste-buffer"@,
                    "-d"@,
                    "-b"@,
                    name + "-prompt"@,
                    "-t"@,
                    name + ":1"@,
                ],
                input: Seq::empty(),
            }),
        ),
        replies.len() >= at + 2 ==> crate::tmux_flow::paste_outcome(
            config,
            name,
            prompt,
            replies,
            at,
        ) == Outcome::Got((), at + 2),
{
    crate::tmux_call_laws::law_windows_have_fixed_places(name);
}

/// OpenCode gets its prompt pasted only once it has shown that it takes input; if it has
/// not within five seconds, that is an error. Until then its window is looked at again and
/// again.
pub proof fn law_opencode_is_watched_for_input(
    config: &Config,
    name: Seq<char>,
    prompt: Seq<char>,
    replies: Seq<Reply>,
    at: nat,
)
    requires
        config.default_agent@ == "opencode"@,
        at <= replies.len(),
    ensures
        replies.len() == at ==> crate::tmux_flow::paste_outcome(config, name, prompt, replies, at)
            == Outcome::<()>::Ask(
            (CallView { kind: CallKind::StartClock, args: Seq::empty(), input: Seq::empty() }),
        ),
        replies.len() == at + 1 ==> crate::tmux_flow::paste_outcome(
            config,
            name,
            prompt,
            replies,
            at,
        ) == Outcome::<()>::Ask(
            (CallView {
                kind: CallKind::Capture,
                args: seq!["capture-pane"@, "-p"@, "-t"@, name + ":1"@],
                input: Seq::empty(),
            }),
        ),
        replies.len() == at + 2 && replies[at as int + 1].error is None && (crate::text::has_text(
            replies[at as int + 1].stdout@,
            "Ask anything"@,
        ) || crate::text::has_text(replies[at as int + 1].stdout@, "ctrl+p commands"@))
            ==> crate::tmux_flow::paste_outcome(config, name, prompt, replies, at)
            == Outcome::<()>::Ask(
            (CallView {
                kind: CallKind::Feed,
                args: seq!["load-buffer"@, "-b"@, name + "-prompt"@, "-"@],
                input: prompt,
            }),
        ),
        replies.len() == at + 3 && (replies[at as int + 1].error is Some || !(crate::text::has_text(
            replies[at as int + 1].stdout@,
            "Ask anything"@,
        ) || crate::text::has_text(replies[at as int + 1].stdout@, "ctrl+p commands"@)))
            && replies[at as int + 2].elapsed_ms >= 5000 ==> crate::tmux_flow::paste_outcome(
            config,
            name,
            prompt,
            replies,
            at,
        ) == Outcome::<()>::Fail("agent prompt did not become ready"@, at + 3),
        replies.len() == at + 3 && (replies[at as int + 1].error is Some || !(crate::text::has_text(
            replies[at as int + 1].stdout@,
            "Ask anything"@,
        ) || crate::text::has_text(replies[at as int + 1].stdout@, "ctrl+p commands"@)))
            && replies[at as int + 2].elapsed_ms < 5000 ==> crate::tmux_flow::paste_outcome(
            config,
            name,
            prompt,
            replies,
            at,
        ) == Outcome::<()>::Ask(
            (CallView { kind: CallKind::Sleep, args: Seq::empty(), input: Seq::empty() }),
        ),
{
    crate::tmux_call_laws::law_windows_have_fixed_places(name);
}

// ---------------------------------------------------------------------------
// Handing a prompt over
// ---------------------------------------------------------------------------

/// An agent that is not OpenCode, or that works on the default branch, gets its prompt
/// pasted as soon as its session is ready; where the session does not get ready, nothing is
/// pasted and that is an error.
pub proof fn law_ready_sessions_get_their_prompt_pasted(
    config: &Config,
    branch: Seq<char>,
    directory: Seq<char>,
    name: Seq<char>,
    prompt: Seq<char>,
    replies: Seq<Reply>,
    n: nat,
)
    requires
        config.default_agent@ != "opencode"@ || branch == config.default_branch@,
    ensures
        crate::tmux_flow::ensure_outcome(config, branch, directory, name, replies, 0)
            == Outcome::Got(true, n) ==> crate::tmux_flow::prompt_outcome(
            config,
            branch,
            directory,
            name,
            prompt,
            replies,
        ) == crate::tmux_flow::paste_outcome(config, name, prompt, replies, n),
        crate::tmux_flow::ensure_outcome(config, branch, directory, name, replies, 0)
            == Outcome::Got(false, n) ==> crate::tmux_flow::prompt_outcome(
            config,
            branch,
            directory,
            name,
            prompt,
            replies,
        ) == Outcome::<()>::Fail("agent session did not become ready"@, n),
{
    assert(crate::tmux_flow::prompt_outcome(config, branch, directory, name, prompt, replies)
        == crate::tmux_flow::ensure_outcome(config, branch, directory, name, replies, 0).and(
        |ready: bool, n: nat|
            if ready {
                crate::tmux_flow::paste_outcome(config, name, prompt, replies, n)
            } else {
                Outcome::Fail("agent session did not become ready"@, n)
            },
    ));
}

/// OpenCode on a branch of its own is reached through its server: the runtime of the
/// worktree is prepared first, then the session is made ready, and then the server that the
/// runtime names is given the prompt for the session that the runtime names. Only where
/// that fails is the prompt pasted, and only into a session that got ready.
pub proof fn law_opencode_gets_its_prompt_from_its_server(
    config: &Config,
    branch: Seq<char>,
    directory: Seq<char>,
    name: Seq<char>,
    prompt: Seq<char>,
    replies: Seq<Reply>,
    runtime: OpencodeRuntime,
    ready: bool,
    n: nat,
)
    requires
        config.default_agent@ == "opencode"@,
        branch != config.default_branch@,
    ensures
        replies.len() == 0 ==> crate::tmux_flow::prompt_outcome(
            config,
            branch,
            directory,
            name,
            prompt,
            replies,
        ) == Outcome::<()>::Ask(
            (CallView {
                kind: CallKind::PrepareRuntime,
                args: seq![branch, directory],
                input: Seq::empty(),
            }),
        ),
        replies.len() > 0 && replies[0].error is Some ==> crate::tmux_flow::prompt_outcome(
            config,
            branch,
            directory,
            name,
            prompt,
            replies,
        ) == Outcome::<()>::Fail(
            "prepare opencode runtime for prompt: "@ + replies[0].error->0@,
            1,
        ),
        replies.len() > 0 && replies[0].error is None && (replies[0].runtime is None
            || replies[0].runtime->0.opencode_session_id is None)
            ==> crate::tmux_flow::prompt_outcome(config, branch, directory, name, prompt, replies)
            == Outcome::<()>::Fail("OpenCode session ID is not available"@, 1),
        replies.len() > 0 && replies[0].error is None && replies[0].runtime == Some(runtime)
            && runtime.opencode_session_id is Some && crate::tmux_flow::ensure_outcome(
            config,
            branch,
            directory,
            name,
            replies,
            1,
        ) == Outcome::Got(ready, n) ==> ({
            let whole = crate::tmux_flow::prompt_outcome(
                config,
                branch,
                directory,
                name,
                prompt,
                replies,
            );
            let pasted = crate::tmux_flow::paste_outcome(config, name, prompt, replies, n + 1);
            if n >= replies.len() {
                whole == Outcome::<()>::Ask(
                    (CallView {
                        kind: CallKind::SubmitPrompt,
                        args: seq![runtime.server_url@, runtime.opencode_session_id->0@],
                        input: prompt,
                    }),
                )
            } else if replies[n as int].error is None {
                whole == Outcome::Got((), n + 1)
            } else if !ready {
                whole == Outcome::<()>::Fail(
                    "submit opencode prompt through API failed: "@ + replies[n as int].error->0@
                        + "; agent session did not become ready"@,
                    n + 1,
                )
            } else {
                match pasted {
                    Outcome::Fail(failure, m) => whole == Outcome::<()>::Fail(
                        "submit opencode prompt through API failed: "@
                            + replies[n as int].error->0@ + "; paste fallback failed: "@ + failure,
                        m,
                    ),
                    other => whole == other,
                }
            }
        }),
{
    if replies.len() > 0 && replies[0].error is None && replies[0].runtime == Some(runtime)
        && runtime.opencode_session_id is Some {
        let id = runtime.opencode_session_id->0;
        assert(crate::tmux_flow::prompt_outcome(config, branch, directory, name, prompt, replies)
            == crate::tmux_flow::ensure_outcome(config, branch, directory, name, replies, 1).and(
            |ready: bool, n: nat|
                crate::tmux_flow::submit_outcome(
                    config,
                    name,
                    runtime.server_url@,
                    id@,
                    ready,
                    prompt,
                    replies,
                    n,
                ),
        ));
    }
}

spec fn reaches_the_agent(name: Seq<char>, prompt: Seq<char>, asked: CallView) -> bool {
    &&& asked.kind == CallKind::Feed ==> asked.args == seq![
        "load-buffer"@,
        "-b"@,
        name + "-prompt"@,
        "-"@,
    ] && asked.input == prompt
    &&& asked.kind == CallKind::Output && asked.args.len() > 0 && asked.args[0]
        == "paste-buffer"@ ==> asked.args == seq![
        "paste-buffer"@,
        "-d"@,
        "-b"@,
        name + "-prompt"@,
        "-t"@,
        name + ":1"@,
    ]
    &&& asked.kind == CallKind::SubmitPrompt ==> asked.input == prompt
}

proof fn lemma_session_calls_reach(
    config: &Config,
    branch: Seq<char>,
    directory: Seq<char>,
    name: Seq<char>,
    prompt: Seq<char>,
    asked: CallView,
)
    requires
        is_session_call(config, branch, directory, name, asked),
    ensures
        reaches_the_agent(name, prompt, asked),
{
    if asked.args.len() > 0 {
        crate::tmux_call_laws::lemma_first_word(config, branch, directory, name, asked);
    }
}

proof fn lemma_paste_calls_reach(
    config: &Config,
    name: Seq<char>,
    prompt: Seq<char>,
    replies: Seq<Reply>,
    at: nat,
)
    ensures
        crate::tmux_flow::paste_outcome(config, name, prompt, replies, at) matches Outcome::Ask(
            asked,
        ) ==> reaches_the_agent(name, prompt, asked),
{
    match crate::tmux_flow::paste_outcome(config, name, prompt, replies, at) {
        Outcome::Ask(asked) => {
            law_prompt_is_pasted_to_its_agent(config, name, prompt, replies, at, asked);
        },
        _ => {},
    }
}

proof fn lemma_submit_calls_reach(
    config: &Config,
    name: Seq<char>,
    server_url: Seq<char>,
    session_id: Seq<char>,
    ready: bool,
    prompt: Seq<char>,
    replies: Seq<Reply>,
    at: nat,
)
    ensures
        crate::tmux_flow::submit_outcome(
            config,
            name,
            server_url,
            session_id,
            ready,
            prompt,
            replies,
            at,
        ) matches Outcome::Ask(asked) ==> reaches_the_agent(name, prompt, asked),
{
    lemma_paste_calls_reach(config, name, prompt, replies, at + 1);
}

proof fn lemma_ensure_calls_reach(
    config: &Config,
    branch: Seq<char>,
    directory: Seq<char>,
    name: Seq<char>,
    prompt: Seq<char>,
    replies: Seq<Reply>,
    at: nat,
)
    ensures
        crate::tmux_flow::ensure_outcome(
            config,
            branch,
            directory,
            name,
            replies,
            at,
        ) matches Outcome::Ask(asked) ==> reaches_the_agent(name, prompt, asked),
{
    match crate::tmux_flow::ensure_outcome(config, branch, directory, name, replies, at) {
        Outcome::Ask(asked) => {
            assert(is_session_call(config, branch, directory, name, asked)) by {
                crate::tmux_call_laws::law_session_calls_stay_in_the_session(
                    config,
                    branch,
                    directory,
                    name,
                    replies,
                    at,
                );
            }
            lemma_session_calls_reach(config, branch, directory, name, prompt, asked);
        },
        _ => {},
    }
}

proof fn lemma_and_reaches<T>(
    first: Outcome<T>,
    next: spec_fn(T, nat) -> Outcome<()>,
    name: Seq<char>,
    prompt: Seq<char>,
)
    requires
        first matches Outcome::Ask(asked) ==> reaches_the_agent(name, prompt, asked),
        forall|value: T, n: nat|
            #![trigger next(value, n)]
            next(value, n) matches Outcome::Ask(asked) ==> reaches_the_agent(name, prompt, asked),
    ensures
        first.and(next) matches Outcome::Ask(asked) ==> reaches_the_agent(name, prompt, asked),
{
}

/// Handing a prompt over never loads anything but the prompt, never pastes anything but
/// what was loaded, and never pastes it anywhere but into the window of the agent.
pub proof fn law_prompts_reach_no_other_window(
    config: &Config,
    branch: Seq<char>,
    directory: Seq<char>,
    name: Seq<char>,
    prompt: Seq<char>,
    replies: Seq<Reply>,
    asked: CallView,
)
    requires
        crate::tmux_flow::prompt_outcome(config, branch, directory, name, prompt, replies)
            == Outcome::<()>::Ask(asked),
    ensures
        asked.kind == CallKind::Feed ==> asked.args == seq![
            "load-buffer"@,
            "-b"@,
            name + "-prompt"@,
            "-"@,
        ] && asked.input == prompt,
        asked.kind == CallKind::Output && asked.args.len() > 0 && asked.args[0] == "paste-buffer"@
            ==> asked.args == seq![
            "paste-buffer"@,
            "-d"@,
            "-b"@,
            name + "-prompt"@,
            "-t"@,
            name + ":1"@,
        ],
        asked.kind == CallKind::SubmitPrompt ==> asked.input == prompt,
{
    if config.default_agent@ == "opencode"@ && branch != config.default_branch@ {
        if replies.len() > 0 && replies[0].error is None && replies[0].runtime is Some
            && replies[0].runtime->0.opencode_session_id is Some {
            let url = replies[0].runtime->0.server_url@;
            let id = replies[0].runtime->0.opencode_session_id->0@;
            let next = |ready: bool, n: nat|
                crate::tmux_flow::submit_outcome(
                    config,
                    name,
                    url,
                    id,
                    ready,
                    prompt,
                    replies,
                    n,
                );
            let first = crate::tmux_flow::ensure_outcome(
                config,
                branch,
                directory,
                name,
                replies,
                1,
            );
            assert(reaches_the_agent(name, prompt, asked)) by {
                assert(crate::tmux_flow::prompt_outcome(
                    config,
                    branch,
                    directory,
                    name,
                    prompt,
                    replies,
                ) == first.and(next));
                assert forall|ready: bool, n: nat|
                    #![trigger next(ready, n)]
                    next(ready, n) matches Outcome::Ask(asked) ==> reaches_the_agent(
                        name,
                        prompt,
                        asked,
                    ) by {
                    lemma_submit_calls_reach(config, name, url, id, ready, prompt, replies, n);
                }
                lemma_ensure_calls_reach(config, branch, directory, name, prompt, replies, 1);
                lemma_and_reaches(first, next, name, prompt);
            }
        }
    } else {
        let next = |ready: bool, n: nat|
            if ready {
                crate::tmux_flow::paste_outcome(config, name, prompt, replies, n)
            } else {
                Outcome::Fail("agent session did not become ready"@, n)
            };
        let first = crate::tmux_flow::ensure_outcome(config, branch, directory, name, replies, 0);
        assert(reaches_the_agent(name, prompt, asked)) by {
            assert(crate::tmux_flow::prompt_outcome(
                config,
                branch,
                directory,
                name,
                prompt,
                replies,
            ) == first.and(next));
            assert forall|ready: bool, n: nat|
                #![trigger next(ready, n)]
                next(ready, n) matches Outcome::Ask(asked) ==> reaches_the_agent(
                    name,
                    prompt,
                    asked,
                ) by {
                lemma_paste_calls_reach(config, name, prompt, replies, n);
            }
            lemma_ensure_calls_reach(config, branch, directory, name, prompt, replies, 0);
            lemma_and_reaches(first, next, name, prompt);
        }
    }
}

} // verus!
