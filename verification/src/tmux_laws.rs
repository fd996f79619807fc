//! What holds of agent sessions as a whole.
use vstd::prelude::*;

use crate::model::Config;
use crate::tmux::TmuxWindow;
use crate::tmux_flow::CallKind;
use crate::tmux_flow::Outcome;
use crate::tmux_flow::Reply;

verus! {

proof fn lemma_hex_is_safe(n: nat, width: nat)
    ensures
        crate::text::hex_text(n, width).len() == width,
        forall|i: int|
            0 <= i < width ==> crate::tmux::is_safe_char(
                #[trigger] crate::text::hex_text(n, width)[i],
            ),
    decreases width,
{
    if width > 0 {
        lemma_hex_is_safe(n / 16, (width - 1) as nat);
    }
}

proof fn lemma_decimal_is_safe(n: nat)
    ensures
        forall|i: int|
            0 <= i < crate::text::decimal_text(n).len() ==> crate::tmux::is_safe_char(
                #[trigger] crate::text::decimal_text(n)[i],
            ),
    decreases n,
{
    let text = crate::text::decimal_text(n);
    assert forall|i: int| 0 <= i < text.len() implies crate::tmux::is_safe_char(
        #[trigger] text[i],
    ) by {
        if n >= 10 {
            lemma_decimal_is_safe(n / 10);
            if i < text.len() - 1 {
                assert(text[i] == crate::text::decimal_text(n / 10)[i]);
            }
        }
    }
}

/// A session name holds only ASCII letters, digits, hyphens, underscores and dots,
/// whatever the branch is called: no slash and no colon.
pub proof fn law_session_names_are_safe(root_hash: u64, branch: Seq<char>, generation: u64)
    ensures
        forall|i: int|
            0 <= i < crate::tmux::session_name(root_hash, branch, generation).len()
                ==> crate::tmux::is_safe_char(
                #[trigger] crate::tmux::session_name(root_hash, branch, generation)[i],
            ),
        !crate::tmux::session_name(root_hash, branch, generation).contains('/'),
        !crate::tmux::session_name(root_hash, branch, generation).contains(':'),
{
    reveal_strlit("prism-");
    reveal_strlit("-");
    lemma_hex_is_safe(root_hash as nat, 16);
    lemma_decimal_is_safe(generation as nat);
    let a = "prism-"@ + crate::text::hex_text(root_hash as nat, 16);
    let b = a + "-"@;
    let c = b + crate::tmux::safe_name(branch);
    let prefix = crate::tmux::session_prefix(root_hash, branch);
    assert(prefix == c + "-"@);
    let name = crate::tmux::session_name(root_hash, branch, generation);
    assert forall|i: int| 0 <= i < name.len() implies crate::tmux::is_safe_char(
        #[trigger] name[i],
    ) by {
        if i >= prefix.len() {
            assert(name[i] == crate::text::decimal_text(generation as nat)[i - prefix.len()]);
        } else {
            assert(name[i] == prefix[i]);
            if i < a.len() {
                assert(prefix[i] == a[i]);
                if i >= 6 {
                    assert(a[i] == crate::text::hex_text(root_hash as nat, 16)[i - 6]);
                }
            } else if i < b.len() {
                assert(prefix[i] == "-"@[0]);
            } else if i < c.len() {
                assert(prefix[i] == crate::tmux::safe_name(branch)[i - b.len()]);
            }
        }
    }
}

/// A session name starts with its branch's prefix, and the generation is read back
/// from it.
pub proof fn law_generation_is_read_back(root_hash: u64, branch: Seq<char>, generation: u64)
    ensures
        crate::tmux_flow::generation_of(
            crate::tmux::session_name(root_hash, branch, generation),
            crate::tmux::session_prefix(root_hash, branch),
        ) == Some(generation),
{
    let prefix = crate::tmux::session_prefix(root_hash, branch);
    let name = crate::tmux::session_name(root_hash, branch, generation);
    let number = crate::text::decimal_text(generation as nat);
    assert(name.subrange(0, prefix.len() as int) =~= prefix);
    assert(crate::text::has_prefix(name, prefix));
    assert(name.skip(prefix.len() as int) =~= number);
    crate::text::law_decimal_round_trip(generation as nat);
}

/// Two generations of a branch never share a session.
pub proof fn law_generations_have_own_sessions(
    root_hash: u64,
    branch: Seq<char>,
    first: u64,
    second: u64,
)
    requires
        crate::tmux::session_name(root_hash, branch, first) == crate::tmux::session_name(
            root_hash,
            branch,
            second,
        ),
    ensures
        first == second,
{
    law_generation_is_read_back(root_hash, branch, first);
    law_generation_is_read_back(root_hash, branch, second);
}

/// The windows of a session have targets of their own.
pub proof fn law_windows_have_own_targets(name: Seq<char>, first: TmuxWindow, second: TmuxWindow)
    requires
        crate::tmux::target_text(name, first) == crate::tmux::target_text(name, second),
    ensures
        first == second,
{
    let head = name + ":"@;
    let a = crate::text::decimal_text(first.index_of() as nat);
    let b = crate::text::decimal_text(second.index_of() as nat);
    assert((head + a).skip(head.len() as int) =~= a);
    assert((head + b).skip(head.len() as int) =~= b);
    crate::text::law_decimal_round_trip(first.index_of() as nat);
    crate::text::law_decimal_round_trip(second.index_of() as nat);
}

/// The latest generation is that of some session, and no session has a higher one;
/// there is none exactly where no session has a generation.
pub proof fn law_latest_generation_is_highest(names: Seq<Seq<char>>, prefix: Seq<char>)
    ensures
        match crate::tmux_flow::latest_generation(names, prefix) {
            Some(latest) => {
                &&& exists|i: int|
                    0 <= i < names.len() && #[trigger] crate::tmux_flow::generation_of(
                        names[i],
                        prefix,
                    ) == Some(latest)
                &&& forall|i: int|
                    0 <= i < names.len() ==> match #[trigger] crate::tmux_flow::generation_of(
                        names[i],
                        prefix,
                    ) {
                        Some(generation) => generation <= latest,
                        None => true,
                    }
            },
            None => forall|i: int|
                0 <= i < names.len() ==> #[trigger] crate::tmux_flow::generation_of(
                    names[i],
                    prefix,
                ) is None,
        },
    decreases names.len(),
{
    if names.len() > 0 {
        let init = names.drop_last();
        law_latest_generation_is_highest(init, prefix);
        let n = names.len() - 1;
        assert(names.last() == names[n]);
        assert forall|i: int| 0 <= i < init.len() implies init[i] == #[trigger] names[i] by {}
        match crate::tmux_flow::latest_generation(init, prefix) {
            Some(latest) => {
                let w = choose|i: int|
                    0 <= i < init.len() && #[trigger] crate::tmux_flow::generation_of(
                        init[i],
                        prefix,
                    ) == Some(latest);
                assert(crate::tmux_flow::generation_of(names[w], prefix) == Some(latest));
            },
            None => {},
        }
        assert forall|i: int| 0 <= i < n implies crate::tmux_flow::generation_of(init[i], prefix)
            == #[trigger] crate::tmux_flow::generation_of(names[i], prefix) by {}
        match crate::tmux_flow::generation_of(names[n], prefix) {
            Some(_) => {},
            None => {},
        }
    }
}

/// Ending a session that is gone is no failure.
pub proof fn law_ending_a_missing_session_succeeds(name: Seq<char>, reply: Reply)
    requires
        crate::tmux_flow::status_error(reply) matches Some(error) && crate::tmux::says_missing(
            error,
        ),
    ensures
        crate::tmux_flow::tolerant_outcome(crate::tmux_flow::kill_args(name), seq![reply], 0)
            == Outcome::Got((), 1nat),
{
}

/// An attach that fails because the session has ended is no failure: coming back
/// from a session that was closed neither reports an error nor creates it again.
pub proof fn law_attach_ends_with_its_session(
    target: Seq<char>,
    name: Seq<char>,
    replies: Seq<Reply>,
    at: nat,
)
    requires
        at + 2 <= replies.len(),
        replies[at as int].error is Some,
        replies[at as int + 1].error is None,
        !replies[at as int + 1].success,
    ensures
        crate::tmux_flow::attach_outcome(target, name, replies, at) == Outcome::Got((), at + 2),
{
}

/// Every call for a session's windows runs tmux; none prepares a server.
proof fn lemma_companions_only_run_tmux(
    config: &Config,
    directory: Seq<char>,
    name: Seq<char>,
    replies: Seq<Reply>,
    at: nat,
)
    ensures
        crate::tmux_flow::companions_outcome(config, directory, name, replies, at) matches Outcome::Ask(
            asked,
        ) ==> asked.kind == CallKind::Output,
{
}

/// Attaching to an agent that already runs asks neither for a server nor for a new
/// session: until it attaches, it only looks at the session and at its windows.
pub proof fn law_running_agent_needs_no_server(
    config: &Config,
    branch: Seq<char>,
    directory: Seq<char>,
    name: Seq<char>,
    replies: Seq<Reply>,
    used: nat,
    configured: nat,
)
    requires
        crate::tmux_flow::running_outcome(config, name, replies, 0) == Outcome::Got(true, used),
        crate::tmux_flow::configure_outcome(name, replies, used) == Outcome::Got(true, configured),
    ensures
        crate::tmux_flow::ready_outcome(config, branch, directory, name, replies, 0)
            == crate::tmux_flow::companions_outcome(config, directory, name, replies, configured),
        crate::tmux_flow::ready_outcome(config, branch, directory, name, replies, 0) matches Outcome::Ask(
            asked,
        ) ==> asked.kind == CallKind::Output,
{
    lemma_companions_only_run_tmux(config, directory, name, replies, configured);
}

/// Whether some reply from a position on shows that OpenCode takes input.
pub open spec fn input_was_shown(replies: Seq<Reply>, at: nat) -> bool {
    exists|i: int|
        at <= i < replies.len() && (#[trigger] replies[i]).error is None
            && crate::tmux::shows_input(replies[i].stdout@)
}

proof fn lemma_ready_was_shown(target: Seq<char>, timeout_ms: u64, replies: Seq<Reply>, at: nat)
    ensures
        crate::tmux_flow::poll_input_outcome(target, timeout_ms, replies, at) matches Outcome::Got(
            true,
            _,
        ) ==> input_was_shown(replies, at),
        crate::tmux_flow::poll_input_outcome(target, timeout_ms, replies, at) matches Outcome::Ask(
            asked,
        ) ==> asked.kind != CallKind::Feed,
    decreases replies.len() - at,
{
    if at + 2 < replies.len() {
        lemma_ready_was_shown(target, timeout_ms, replies, at + 3);
    }
}

/// A prompt is not loaded for pasting before OpenCode was seen to take input.
pub proof fn law_prompt_waits_for_input(
    config: &Config,
    name: Seq<char>,
    prompt: Seq<char>,
    replies: Seq<Reply>,
    at: nat,
)
    requires
        config.runs_opencode(),
        crate::tmux_flow::paste_outcome(config, name, prompt, replies, at) matches Outcome::Ask(
            asked,
        ) && asked.kind == CallKind::Feed,
    ensures
        input_was_shown(replies, at),
{
    let target = crate::tmux::target_text(name, TmuxWindow::Agent);
    lemma_ready_was_shown(
        target,
        crate::tmux_flow::AGENT_INPUT_READY_WAIT_MS,
        replies,
        at + 1,
    );
}

} // verus!
