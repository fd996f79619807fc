//! The sequences of tmux commands that create, attach, feed and end agent
//! sessions.
//!
//! A sequence is a function of the replies received so far. It asks for one more
//! call, or it has failed, or it has its result. A driver makes the call that is
//! asked for, appends the reply, and asks again.
use vstd::prelude::*;

use crate::model::Config;
use crate::model::Repository;
use crate::model::Session;
use crate::text::decimal;
use crate::text::has_item;
use crate::text::join2;
use crate::text::lines;
use crate::text::owned;
use crate::text::parse_u64;
use crate::text::starts_with;
use crate::text::strip_prefix;
use crate::text::trim;
use crate::tmux::agent_session_prefix;
use crate::tmux::agent_shell_command;
use crate::tmux::opencode_input_ready;
use crate::tmux::pane_command_matches_agent;
use crate::tmux::pane_start_command_matches_agent;
use crate::tmux::tmux_missing_session_error;
use crate::tmux::usable_opencode_runtime;
use crate::tmux::window_target;
use crate::tmux::OpencodeRuntime;
use crate::tmux::TmuxAgentSession;
use crate::tmux::TmuxWindow;

verus! {

/// How long an agent may take to show up in a session that was already there.
pub const EXISTING_SESSION_READY_WAIT_MS: u64 = 250;

/// How long an agent may take to show up in a session that was just created.
pub const CREATED_SESSION_READY_WAIT_MS: u64 = 2000;

/// The pause between two looks at a session.
pub const SESSION_READY_POLL_INTERVAL_MS: u64 = 50;

/// How long an agent may take to accept input.
pub const AGENT_INPUT_READY_WAIT_MS: u64 = 5000;

// ---------------------------------------------------------------------------
// Calls and replies
// ---------------------------------------------------------------------------

/// What a call does.
#[derive(Clone, Copy, Debug, PartialEq, Eq, Structural)]
pub enum CallKind {
    /// Run tmux with the arguments and report its output, whatever its status.
    Output,
    /// Run tmux with the arguments on the terminal of the dashboard.
    Attach,
    /// Run tmux with the arguments and the input on its standard input.
    Feed,
    /// Run tmux with the arguments and report its standard output.
    Capture,
    /// Make an OpenCode server with a session ready for a branch and a worktree.
    PrepareRuntime,
    /// Look up the OpenCode server last used for a branch and a worktree.
    LoadRuntime,
    /// Submit the input as a prompt to a server and a session.
    SubmitPrompt,
    /// Note the time.
    StartClock,
    /// Report the time since it was noted.
    ReadClock,
    /// Pause for the poll interval.
    Sleep,
}

/// A call for the driver to make.
#[derive(Debug)]
pub struct Call {
    pub kind: CallKind,
    pub args: Vec<String>,
    pub input: String,
}

/// The reply to a call.
#[derive(Debug)]
pub struct Reply {
    /// Why the call could not be made, or why it failed where its status matters.
    pub error: Option<String>,
    pub success: bool,
    pub stdout: String,
    pub stderr: String,
    /// The exit status in words.
    pub status: String,
    pub elapsed_ms: u64,
    pub runtime: Option<OpencodeRuntime>,
}

/// How far a sequence has come, with the number of replies it has used.
#[derive(Debug)]
pub enum Progress<T> {
    Ask(Call),
    Fail(String, usize),
    Got(T, usize),
}

/// A call as its contract speaks of it.
#[verifier::ext_equal]
pub struct CallView {
    pub kind: CallKind,
    pub args: Seq<Seq<char>>,
    pub input: Seq<char>,
}

/// How far a sequence has come, as its contract speaks of it.
pub enum Outcome<T> {
    Ask(CallView),
    Fail(Seq<char>, nat),
    Got(T, nat),
}

impl Call {
    /// The call as a contract speaks of it.
    pub open spec fn view(&self) -> CallView {
        CallView {
            kind: self.kind,
            args: crate::text::texts(self.args@),
            input: self.input@,
        }
    }
}

impl<T> Progress<T> {
    /// The progress as a contract speaks of it.
    pub open spec fn outcome(self) -> Outcome<T> {
        match self {
            Progress::Ask(call) => Outcome::Ask(call@),
            Progress::Fail(error, n) => Outcome::Fail(error@, n as nat),
            Progress::Got(value, n) => Outcome::Got(value, n as nat),
        }
    }
}

impl<T> Outcome<T> {
    /// Whether the replies used lie between two bounds.
    pub open spec fn within(self, from: nat, to: nat) -> bool {
        match self {
            Outcome::Ask(_) => true,
            Outcome::Fail(_, n) => from <= n <= to,
            Outcome::Got(_, n) => from <= n <= to,
        }
    }

    /// What follows a result; a question or a failure stays.
    pub open spec fn and<U>(self, next: spec_fn(T, nat) -> Outcome<U>) -> Outcome<U> {
        match self {
            Outcome::Ask(call) => Outcome::Ask(call),
            Outcome::Fail(error, n) => Outcome::Fail(error, n),
            Outcome::Got(value, n) => next(value, n),
        }
    }
}

/// A call without input.
pub open spec fn call_view(kind: CallKind, args: Seq<Seq<char>>) -> CallView {
    CallView { kind, args, input: Seq::empty() }
}

fn call(kind: CallKind, args: Vec<String>) -> (r: Call)
    ensures
        r@ == call_view(kind, crate::text::texts(args@)),
{
    Call { kind, args, input: String::new() }
}

fn bare_call(kind: CallKind) -> (r: Call)
    ensures
        r@ == call_view(kind, Seq::empty()),
{
    let r = call(kind, Vec::new());
    assert(r@.args =~= Seq::<Seq<char>>::empty());
    r
}

// ---------------------------------------------------------------------------
// Arguments
// ---------------------------------------------------------------------------

pub open spec fn has_session_args(name: Seq<char>) -> Seq<Seq<char>> {
    seq!["has-session"@, "-t"@, name]
}

pub open spec fn attach_args(target: Seq<char>) -> Seq<Seq<char>> {
    seq!["attach-session"@, "-t"@, target]
}

pub open spec fn new_session_args(
    name: Seq<char>,
    title: Seq<char>,
    directory: Seq<char>,
    command: Seq<char>,
) -> Seq<Seq<char>> {
    seq!["new-session"@, "-d"@, "-s"@, name, "-n"@, title, "-c"@, directory, command]
}

pub open spec fn option_args(name: Seq<char>, option: Seq<char>, value: Seq<char>) -> Seq<
    Seq<char>,
> {
    seq!["set-option"@, "-t"@, name, option, value]
}

pub open spec fn move_args(name: Seq<char>) -> Seq<Seq<char>> {
    seq![
        "move-window"@,
        "-s"@,
        name + ":0"@,
        "-t"@,
        crate::tmux::target_text(name, TmuxWindow::Agent),
    ]
}

pub open spec fn rename_args(config: &Config, name: Seq<char>, window: TmuxWindow) -> Seq<
    Seq<char>,
> {
    seq!["rename-window"@, "-t"@, crate::tmux::target_text(name, window), window.title(config)]
}

pub open spec fn new_window_args(
    config: &Config,
    name: Seq<char>,
    window: TmuxWindow,
    directory: Seq<char>,
    command: Seq<char>,
) -> Seq<Seq<char>> {
    seq![
        "new-window"@,
        "-d"@,
        "-t"@,
        crate::tmux::target_text(name, window),
        "-n"@,
        window.title(config),
        "-c"@,
        directory,
        command,
    ]
}

pub open spec fn list_windows_args(name: Seq<char>) -> Seq<Seq<char>> {
    seq!["list-windows"@, "-t"@, name, "-F"@, "#{window_index}"@]
}

pub open spec fn list_sessions_args() -> Seq<Seq<char>> {
    seq!["list-sessions"@, "-F"@, "#{session_name}"@]
}

pub open spec fn kill_args(name: Seq<char>) -> Seq<Seq<char>> {
    seq!["kill-session"@, "-t"@, name]
}

pub open spec fn display_args(target: Seq<char>, what: Seq<char>) -> Seq<Seq<char>> {
    seq!["display-message"@, "-p"@, "-t"@, target, what]
}

pub open spec fn capture_args(target: Seq<char>) -> Seq<Seq<char>> {
    seq!["capture-pane"@, "-p"@, "-t"@, target]
}

pub open spec fn load_buffer_args(buffer: Seq<char>) -> Seq<Seq<char>> {
    seq!["load-buffer"@, "-b"@, buffer, "-"@]
}

pub open spec fn paste_buffer_args(buffer: Seq<char>, target: Seq<char>) -> Seq<Seq<char>> {
    seq!["paste-buffer"@, "-d"@, "-b"@, buffer, "-t"@, target]
}

fn words3(a: &str, b: &str, c: &str) -> (r: Vec<String>)
    ensures
        crate::text::texts(r@) == seq![a@, b@, c@],
{
    let mut r: Vec<String> = Vec::new();
    r.push(owned(a));
    r.push(owned(b));
    r.push(owned(c));
    assert(crate::text::texts(r@) =~= seq![a@, b@, c@]);
    r
}

fn words4(a: &str, b: &str, c: &str, d: &str) -> (r: Vec<String>)
    ensures
        crate::text::texts(r@) == seq![a@, b@, c@, d@],
{
    let mut r: Vec<String> = words3(a, b, c);
    let ghost before = crate::text::texts(r@);
    r.push(owned(d));
    assert(crate::text::texts(r@) =~= before.push(d@));
    assert(crate::text::texts(r@) =~= seq![a@, b@, c@, d@]);
    r
}

fn words5(a: &str, b: &str, c: &str, d: &str, e: &str) -> (r: Vec<String>)
    ensures
        crate::text::texts(r@) == seq![a@, b@, c@, d@, e@],
{
    let mut r: Vec<String> = words4(a, b, c, d);
    let ghost before = crate::text::texts(r@);
    r.push(owned(e));
    assert(crate::text::texts(r@) =~= before.push(e@));
    assert(crate::text::texts(r@) =~= seq![a@, b@, c@, d@, e@]);
    r
}

fn append_words(items: &mut Vec<String>, more: Vec<String>)
    ensures
        crate::text::texts(final(items)@) == crate::text::texts(old(items)@) + crate::text::texts(
            more@,
        ),
{
    let mut rest: Vec<String> = more;
    items.append(&mut rest);
    assert(crate::text::texts(items@) =~= crate::text::texts(old(items)@) + crate::text::texts(
        more@,
    ));
}

// ---------------------------------------------------------------------------
// Single calls
// ---------------------------------------------------------------------------

/// Why a tmux command failed, if it did.
pub open spec fn status_error(reply: Reply) -> Option<Seq<char>> {
    match reply.error {
        Some(error) => Some(error@),
        None => if reply.success {
            None
        } else if crate::text::trimmed(reply.stderr@).len() == 0 {
            Some("tmux exited with "@ + reply.status@)
        } else {
            Some(crate::text::trimmed(reply.stderr@))
        },
    }
}

fn failure(reply: &Reply) -> (r: Option<String>)
    ensures
        crate::text::opt_text(r) == status_error(*reply),
{
    match &reply.error {
        Some(error) => Some(error.clone()),
        None => {
            if reply.success {
                return None;
            }
            let stderr: String = trim(reply.stderr.as_str());
            if stderr.as_str().unicode_len() == 0 {
                Some(join2("tmux exited with ", reply.status.as_str()))
            } else {
                Some(stderr)
            }
        },
    }
}

/// Running a tmux command whose status matters.
pub open spec fn status_outcome(args: Seq<Seq<char>>, replies: Seq<Reply>, at: nat) -> Outcome<()> {
    if at >= replies.len() {
        Outcome::Ask(call_view(CallKind::Output, args))
    } else {
        match status_error(replies[at as int]) {
            None => Outcome::Got((), at + 1),
            Some(error) => Outcome::Fail(error, at + 1),
        }
    }
}

fn run_tmux_status(args: Vec<String>, replies: &Vec<Reply>, at: usize) -> (r: Progress<()>)
    requires
        at <= replies.len(),
    ensures
        r.outcome() == status_outcome(crate::text::texts(args@), replies@, at as nat),
        r.outcome().within(at as nat + 1, replies.len() as nat),
{
    if at == replies.len() {
        return Progress::Ask(call(CallKind::Output, args));
    }
    match failure(&replies[at]) {
        None => Progress::Got((), at + 1),
        Some(error) => Progress::Fail(error, at + 1),
    }
}

/// Running a tmux command whose target may be gone: then there is nothing to do.
pub open spec fn tolerant_outcome(args: Seq<Seq<char>>, replies: Seq<Reply>, at: nat) -> Outcome<
    (),
> {
    match status_outcome(args, replies, at) {
        Outcome::Fail(error, n) => if crate::tmux::says_missing(error) {
            Outcome::Got((), n)
        } else {
            Outcome::Fail(error, n)
        },
        other => other,
    }
}

fn run_tolerant(args: Vec<String>, replies: &Vec<Reply>, at: usize) -> (r: Progress<()>)
    requires
        at <= replies.len(),
    ensures
        r.outcome() == tolerant_outcome(crate::text::texts(args@), replies@, at as nat),
        r.outcome().within(at as nat + 1, replies.len() as nat),
{
    match run_tmux_status(args, replies, at) {
        Progress::Fail(error, n) => {
            if tmux_missing_session_error(error.as_str()) {
                Progress::Got((), n)
            } else {
                Progress::Fail(error, n)
            }
        },
        other => other,
    }
}

/// A call of which only the failure matters.
pub open spec fn plain_outcome(asked: CallView, replies: Seq<Reply>, at: nat) -> Outcome<()> {
    if at >= replies.len() {
        Outcome::Ask(asked)
    } else {
        match replies[at as int].error {
            None => Outcome::Got((), at + 1),
            Some(error) => Outcome::Fail(error@, at + 1),
        }
    }
}

fn run_plain(asked: Call, replies: &Vec<Reply>, at: usize) -> (r: Progress<()>)
    requires
        at <= replies.len(),
    ensures
        r.outcome() == plain_outcome(asked@, replies@, at as nat),
        r.outcome().within(at as nat + 1, replies.len() as nat),
{
    if at == replies.len() {
        return Progress::Ask(asked);
    }
    match &replies[at].error {
        None => Progress::Got((), at + 1),
        Some(error) => Progress::Fail(error.clone(), at + 1),
    }
}

/// Asking tmux whether a session exists.
pub open spec fn exists_outcome(name: Seq<char>, replies: Seq<Reply>, at: nat) -> Outcome<bool> {
    if at >= replies.len() {
        Outcome::Ask(call_view(CallKind::Output, has_session_args(name)))
    } else {
        match replies[at as int].error {
            None => Outcome::Got(replies[at as int].success, at + 1),
            Some(error) => Outcome::Fail(error@, at + 1),
        }
    }
}

fn session_exists(name: &str, replies: &Vec<Reply>, at: usize) -> (r: Progress<bool>)
    requires
        at <= replies.len(),
    ensures
        r.outcome() == exists_outcome(name@, replies@, at as nat),
        r.outcome().within(at as nat + 1, replies.len() as nat),
{
    if at == replies.len() {
        return Progress::Ask(call(CallKind::Output, words3("has-session", "-t", name)));
    }
    match &replies[at].error {
        None => Progress::Got(replies[at].success, at + 1),
        Some(error) => Progress::Fail(error.clone(), at + 1),
    }
}

/// Asking tmux whether a session has a window.
pub open spec fn window_exists_outcome(
    name: Seq<char>,
    window: TmuxWindow,
    replies: Seq<Reply>,
    at: nat,
) -> Outcome<bool> {
    if at >= replies.len() {
        Outcome::Ask(call_view(CallKind::Output, list_windows_args(name)))
    } else {
        let reply = replies[at as int];
        match reply.error {
            None => Outcome::Got(
                reply.success && crate::text::lines_of(reply.stdout@).contains(
                    crate::text::decimal_text(window.index_of() as nat),
                ),
                at + 1,
            ),
            Some(error) => Outcome::Fail(error@, at + 1),
        }
    }
}

fn window_exists(name: &str, window: TmuxWindow, replies: &Vec<Reply>, at: usize) -> (r: Progress<
    bool,
>)
    requires
        at <= replies.len(),
    ensures
        r.outcome() == window_exists_outcome(name@, window, replies@, at as nat),
        r.outcome().within(at as nat + 1, replies.len() as nat),
{
    if at == replies.len() {
        return Progress::Ask(
            call(CallKind::Output, words5("list-windows", "-t", name, "-F", "#{window_index}")),
        );
    }
    match &replies[at].error {
        None => {
            if !replies[at].success {
                return Progress::Got(false, at + 1);
            }
            let listed: Vec<String> = lines(replies[at].stdout.as_str());
            let index: String = decimal(window.index() as u64);
            Progress::Got(has_item(&listed, index.as_str()), at + 1)
        },
        Some(error) => Progress::Fail(error.clone(), at + 1),
    }
}

// ---------------------------------------------------------------------------
// Preparing a session
// ---------------------------------------------------------------------------

/// Making a session survive the end of its last process under another client;
/// the result says whether the session is still there.
pub open spec fn configure_outcome(name: Seq<char>, replies: Seq<Reply>, at: nat) -> Outcome<bool> {
    match status_outcome(option_args(name, "detach-on-destroy"@, "on"@), replies, at) {
        Outcome::Got(_, n) => Outcome::Got(true, n),
        Outcome::Fail(error, n) => if crate::tmux::says_missing(error) {
            Outcome::Got(false, n)
        } else {
            Outcome::Fail(error, n)
        },
        Outcome::Ask(asked) => Outcome::Ask(asked),
    }
}

fn configure_agent_session(name: &str, replies: &Vec<Reply>, at: usize) -> (r: Progress<bool>)
    requires
        at <= replies.len(),
    ensures
        r.outcome() == configure_outcome(name@, replies@, at as nat),
        r.outcome().within(at as nat + 1, replies.len() as nat),
{
    let args: Vec<String> = words5("set-option", "-t", name, "detach-on-destroy", "on");
    match run_tmux_status(args, replies, at) {
        Progress::Got(_, n) => Progress::Got(true, n),
        Progress::Fail(error, n) => {
            if tmux_missing_session_error(error.as_str()) {
                Progress::Got(false, n)
            } else {
                Progress::Fail(error, n)
            }
        },
        Progress::Ask(asked) => Progress::Ask(asked),
    }
}

/// Moving the first window of a session to the agent's index. It may already be
/// there.
pub open spec fn move_outcome(name: Seq<char>, replies: Seq<Reply>, at: nat) -> Outcome<()> {
    match status_outcome(move_args(name), replies, at) {
        Outcome::Fail(error, n) => if crate::tmux::says_missing(error) || crate::text::has_text(
            error,
            "same index"@,
        ) {
            Outcome::Got((), n)
        } else {
            Outcome::Fail(error, n)
        },
        other => other,
    }
}

fn move_initial_window_to_one(name: &str, replies: &Vec<Reply>, at: usize) -> (r: Progress<()>)
    requires
        at <= replies.len(),
    ensures
        r.outcome() == move_outcome(name@, replies@, at as nat),
        r.outcome().within(at as nat + 1, replies.len() as nat),
{
    let first: String = join2(name, ":0");
    let target: String = window_target(name, TmuxWindow::Agent);
    let args: Vec<String> = words5("move-window", "-s", first.as_str(), "-t", target.as_str());
    match run_tmux_status(args, replies, at) {
        Progress::Fail(error, n) => {
            if tmux_missing_session_error(error.as_str()) || crate::text::contains(
                error.as_str(),
                "same index",
            ) {
                Progress::Got((), n)
            } else {
                Progress::Fail(error, n)
            }
        },
        other => other,
    }
}

fn rename_window(
    config: &Config,
    name: &str,
    window: TmuxWindow,
    replies: &Vec<Reply>,
    at: usize,
) -> (r: Progress<()>)
    requires
        at <= replies.len(),
    ensures
        r.outcome() == tolerant_outcome(rename_args(config, name@, window), replies@, at as nat),
        r.outcome().within(at as nat + 1, replies.len() as nat),
{
    let target: String = window_target(name, window);
    let title: String = window.name(config);
    let args: Vec<String> = words4("rename-window", "-t", target.as_str(), title.as_str());
    run_tolerant(args, replies, at)
}

/// The command of a companion window.
pub open spec fn window_command(config: &Config, window: TmuxWindow) -> Seq<char> {
    match window {
        TmuxWindow::LazyGit => config.tool_text("lazygit"@),
        _ => config.shell@,
    }
}

/// Having a window in a session: one that is there gets its title, one that is
/// not is created. The agent's window is never created here.
pub open spec fn ensure_window_outcome(
    config: &Config,
    directory: Seq<char>,
    name: Seq<char>,
    window: TmuxWindow,
    replies: Seq<Reply>,
    at: nat,
) -> Outcome<()> {
    window_exists_outcome(name, window, replies, at).and(
        |there: bool, n: nat|
            if there {
                tolerant_outcome(rename_args(config, name, window), replies, n)
            } else if window == TmuxWindow::Agent {
                Outcome::Got((), n)
            } else {
                status_outcome(
                    new_window_args(
                        config,
                        name,
                        window,
                        directory,
                        window_command(config, window),
                    ),
                    replies,
                    n,
                )
            },
    )
}

fn ensure_window(
    config: &Config,
    session: &Session,
    name: &str,
    window: TmuxWindow,
    replies: &Vec<Reply>,
    at: usize,
) -> (r: Progress<()>)
    requires
        at <= replies.len(),
    ensures
        r.outcome() == ensure_window_outcome(
            config,
            session.path@,
            name@,
            window,
            replies@,
            at as nat,
        ),
        r.outcome().within(at as nat + 1, replies.len() as nat),
{
    let (there, n): (bool, usize) = match window_exists(name, window, replies, at) {
        Progress::Ask(asked) => {
            return Progress::Ask(asked);
        },
        Progress::Fail(error, n) => {
            return Progress::Fail(error, n);
        },
        Progress::Got(there, n) => (there, n),
    };
    if there {
        return rename_window(config, name, window, replies, n);
    }
    let command: String = match window {
        TmuxWindow::Agent => {
            return Progress::Got((), n);
        },
        TmuxWindow::LazyGit => config.tool("lazygit"),
        TmuxWindow::Terminal => config.shell.clone(),
    };
    let target: String = window_target(name, window);
    let title: String = window.name(config);
    let mut args: Vec<String> = words5("new-window", "-d", "-t", target.as_str(), "-n");
    let tail: Vec<String> = words4(
        title.as_str(),
        "-c",
        session.path.as_str(),
        command.as_str(),
    );
    append_words(&mut args, tail);
    assert(crate::text::texts(args@) =~= new_window_args(
        config,
        name@,
        window,
        session.path@,
        window_command(config, window),
    ));
    run_tmux_status(args, replies, n)
}

/// Giving a session its windows: numbered from one, the agent first, then lazygit
/// and a terminal.
pub open spec fn companions_outcome(
    config: &Config,
    directory: Seq<char>,
    name: Seq<char>,
    replies: Seq<Reply>,
    at: nat,
) -> Outcome<()> {
    status_outcome(option_args(name, "base-index"@, "1"@), replies, at).and(
        |_u: (), n: nat|
            status_outcome(option_args(name, "renumber-windows"@, "off"@), replies, n).and(
                |_u: (), n: nat|
                    move_outcome(name, replies, n).and(
                        |_u: (), n: nat|
                            tolerant_outcome(
                                rename_args(config, name, TmuxWindow::Agent),
                                replies,
                                n,
                            ).and(
                                |_u: (), n: nat|
                                    ensure_window_outcome(
                                        config,
                                        directory,
                                        name,
                                        TmuxWindow::LazyGit,
                                        replies,
                                        n,
                                    ).and(
                                        |_u: (), n: nat|
                                            ensure_window_outcome(
                                                config,
                                                directory,
                                                name,
                                                TmuxWindow::Terminal,
                                                replies,
                                                n,
                                            ),
                                    ),
                            ),
                    ),
            ),
    )
}

fn ensure_companion_windows(
    config: &Config,
    session: &Session,
    name: &str,
    replies: &Vec<Reply>,
    at: usize,
) -> (r: Progress<()>)
    requires
        at <= replies.len(),
    ensures
        r.outcome() == companions_outcome(config, session.path@, name@, replies@, at as nat),
        r.outcome().within(at as nat + 1, replies.len() as nat),
{
    let base: Vec<String> = words5("set-option", "-t", name, "base-index", "1");
    let n: usize = match run_tmux_status(base, replies, at) {
        Progress::Got(_, n) => n,
        other => {
            return other;
        },
    };
    let renumber: Vec<String> = words5("set-option", "-t", name, "renumber-windows", "off");
    let n: usize = match run_tmux_status(renumber, replies, n) {
        Progress::Got(_, n) => n,
        other => {
            return other;
        },
    };
    let n: usize = match move_initial_window_to_one(name, replies, n) {
        Progress::Got(_, n) => n,
        other => {
            return other;
        },
    };
    let n: usize = match rename_window(config, name, TmuxWindow::Agent, replies, n) {
        Progress::Got(_, n) => n,
        other => {
            return other;
        },
    };
    let n: usize = match ensure_window(config, session, name, TmuxWindow::LazyGit, replies, n) {
        Progress::Got(_, n) => n,
        other => {
            return other;
        },
    };
    ensure_window(config, session, name, TmuxWindow::Terminal, replies, n)
}

// ---------------------------------------------------------------------------
// Watching a session
// ---------------------------------------------------------------------------

/// What a pane query reported, without the white space around it.
pub open spec fn pane_text(reply: Reply) -> Option<Seq<char>> {
    if reply.error is None && crate::text::trimmed(reply.stdout@).len() > 0 {
        Some(crate::text::trimmed(reply.stdout@))
    } else {
        None
    }
}

fn pane_report(reply: &Reply) -> (r: Option<String>)
    ensures
        crate::text::opt_text(r) == pane_text(*reply),
{
    match &reply.error {
        Some(_) => None,
        None => {
            let text: String = trim(reply.stdout.as_str());
            if text.as_str().unicode_len() == 0 {
                None
            } else {
                Some(text)
            }
        },
    }
}

/// Finding out whether the agent runs in a session: by the command that runs in
/// its window, or else by the command that the window was started with. A session
/// that cannot be asked counts as not running.
pub open spec fn running_outcome(
    config: &Config,
    name: Seq<char>,
    replies: Seq<Reply>,
    at: nat,
) -> Outcome<bool> {
    let target = crate::tmux::target_text(name, TmuxWindow::Agent);
    match exists_outcome(name, replies, at) {
        Outcome::Ask(asked) => Outcome::Ask(asked),
        Outcome::Fail(_, n) => Outcome::Got(false, n),
        Outcome::Got(false, n) => Outcome::Got(false, n),
        Outcome::Got(true, n) => if n >= replies.len() {
            Outcome::Ask(
                call_view(CallKind::Capture, display_args(target, "#{pane_current_command}"@)),
            )
        } else {
            match pane_text(replies[n as int]) {
                None => Outcome::Got(false, n + 1),
                Some(current) => if crate::tmux::is_agent_command(config, current) {
                    Outcome::Got(true, n + 1)
                } else if n + 1 >= replies.len() {
                    Outcome::Ask(
                        call_view(
                            CallKind::Capture,
                            display_args(target, "#{pane_start_command}"@),
                        ),
                    )
                } else {
                    match pane_text(replies[n as int + 1]) {
                        None => Outcome::Got(false, n + 2),
                        Some(started) => Outcome::Got(
                            crate::tmux::starts_agent(config, started),
                            n + 2,
                        ),
                    }
                },
            }
        },
    }
}

fn tmux_agent_session_running(
    config: &Config,
    name: &str,
    replies: &Vec<Reply>,
    at: usize,
) -> (r: Progress<bool>)
    requires
        at <= replies.len(),
    ensures
        r.outcome() == running_outcome(config, name@, replies@, at as nat),
        r.outcome().within(at as nat + 1, replies.len() as nat),
        !(r is Fail),
{
    let n: usize = match session_exists(name, replies, at) {
        Progress::Ask(asked) => {
            return Progress::Ask(asked);
        },
        Progress::Fail(_, n) => {
            return Progress::Got(false, n);
        },
        Progress::Got(there, n) => {
            if !there {
                return Progress::Got(false, n);
            }
            n
        },
    };
    let target: String = window_target(name, TmuxWindow::Agent);
    if n == replies.len() {
        return Progress::Ask(
            call(
                CallKind::Capture,
                words5("display-message", "-p", "-t", target.as_str(), "#{pane_current_command}"),
            ),
        );
    }
    let current: String = match pane_report(&replies[n]) {
        None => {
            return Progress::Got(false, n + 1);
        },
        Some(current) => current,
    };
    if pane_command_matches_agent(config, current.as_str()) {
        return Progress::Got(true, n + 1);
    }
    if n + 1 == replies.len() {
        return Progress::Ask(
            call(
                CallKind::Capture,
                words5("display-message", "-p", "-t", target.as_str(), "#{pane_start_command}"),
            ),
        );
    }
    match pane_report(&replies[n + 1]) {
        None => Progress::Got(false, n + 2),
        Some(started) => Progress::Got(
            pane_start_command_matches_agent(config, started.as_str()),
            n + 2,
        ),
    }
}

/// Looking at a session again and again, until the agent runs in it or the time
/// is over.
pub open spec fn poll_running_outcome(
    config: &Config,
    name: Seq<char>,
    timeout_ms: u64,
    replies: Seq<Reply>,
    at: nat,
) -> Outcome<bool>
    decreases replies.len() - at,
{
    match running_outcome(config, name, replies, at) {
        Outcome::Ask(asked) => Outcome::Ask(asked),
        Outcome::Fail(error, n) => Outcome::Fail(error, n),
        Outcome::Got(true, n) => Outcome::Got(true, n),
        Outcome::Got(false, n) => if n >= replies.len() {
            Outcome::Ask(call_view(CallKind::ReadClock, Seq::empty()))
        } else if replies[n as int].elapsed_ms >= timeout_ms {
            Outcome::Got(false, n + 1)
        } else if n + 1 >= replies.len() {
            Outcome::Ask(call_view(CallKind::Sleep, Seq::empty()))
        } else {
            poll_running_outcome(config, name, timeout_ms, replies, n + 2)
        },
    }
}

/// Waiting for the agent to run in a session.
pub open spec fn wait_running_outcome(
    config: &Config,
    name: Seq<char>,
    timeout_ms: u64,
    replies: Seq<Reply>,
    at: nat,
) -> Outcome<bool> {
    if at >= replies.len() {
        Outcome::Ask(call_view(CallKind::StartClock, Seq::empty()))
    } else {
        poll_running_outcome(config, name, timeout_ms, replies, at + 1)
    }
}

fn wait_for_agent_session_running(
    config: &Config,
    name: &str,
    timeout_ms: u64,
    replies: &Vec<Reply>,
    at: usize,
) -> (r: Progress<bool>)
    requires
        at <= replies.len(),
    ensures
        r.outcome() == wait_running_outcome(config, name@, timeout_ms, replies@, at as nat),
        r.outcome().within(at as nat + 1, replies.len() as nat),
        !(r is Fail),
{
    if at == replies.len() {
        return Progress::Ask(bare_call(CallKind::StartClock));
    }
    let mut pos: usize = at + 1;
    loop
        invariant
            at < pos <= replies.len(),
            poll_running_outcome(config, name@, timeout_ms, replies@, at as nat + 1)
                == poll_running_outcome(config, name@, timeout_ms, replies@, pos as nat),
            at < replies.len(),
        decreases replies.len() - pos,
    {
        match tmux_agent_session_running(config, name, replies, pos) {
            Progress::Ask(asked) => {
                return Progress::Ask(asked);
            },
            Progress::Fail(error, n) => {
                return Progress::Fail(error, n);
            },
            Progress::Got(running, n) => {
                if running {
                    return Progress::Got(true, n);
                }
                if n == replies.len() {
                    return Progress::Ask(bare_call(CallKind::ReadClock));
                }
                if replies[n].elapsed_ms >= timeout_ms {
                    return Progress::Got(false, n + 1);
                }
                if n + 1 == replies.len() {
                    return Progress::Ask(bare_call(CallKind::Sleep));
                }
                pos = n + 2;
            },
        }
    }
}

/// Looking at a pane again and again, until the agent takes input or the time is
/// over.
pub open spec fn poll_input_outcome(
    target: Seq<char>,
    timeout_ms: u64,
    replies: Seq<Reply>,
    at: nat,
) -> Outcome<bool>
    decreases replies.len() - at,
{
    if at >= replies.len() {
        Outcome::Ask(call_view(CallKind::Capture, capture_args(target)))
    } else if replies[at as int].error is None && crate::tmux::shows_input(
        replies[at as int].stdout@,
    ) {
        Outcome::Got(true, at + 1)
    } else if at + 1 >= replies.len() {
        Outcome::Ask(call_view(CallKind::ReadClock, Seq::empty()))
    } else if replies[at as int + 1].elapsed_ms >= timeout_ms {
        Outcome::Got(false, at + 2)
    } else if at + 2 >= replies.len() {
        Outcome::Ask(call_view(CallKind::Sleep, Seq::empty()))
    } else {
        poll_input_outcome(target, timeout_ms, replies, at + 3)
    }
}

/// Waiting for an agent to take input. Only OpenCode shows when it does; any other
/// agent counts as ready.
pub open spec fn wait_input_outcome(
    config: &Config,
    target: Seq<char>,
    timeout_ms: u64,
    replies: Seq<Reply>,
    at: nat,
) -> Outcome<bool> {
    if !config.runs_opencode() {
        Outcome::Got(true, at)
    } else if at >= replies.len() {
        Outcome::Ask(call_view(CallKind::StartClock, Seq::empty()))
    } else {
        poll_input_outcome(target, timeout_ms, replies, at + 1)
    }
}

fn wait_for_agent_input_ready(
    config: &Config,
    target: &str,
    timeout_ms: u64,
    replies: &Vec<Reply>,
    at: usize,
) -> (r: Progress<bool>)
    requires
        at <= replies.len(),
    ensures
        r.outcome() == wait_input_outcome(config, target@, timeout_ms, replies@, at as nat),
        r.outcome().within(at as nat, replies.len() as nat),
        !(r is Fail),
{
    if !config.uses_opencode() {
        return Progress::Got(true, at);
    }
    if at == replies.len() {
        return Progress::Ask(bare_call(CallKind::StartClock));
    }
    let mut pos: usize = at + 1;
    loop
        invariant
            at < pos <= replies.len(),
            config.runs_opencode(),
            at < replies.len(),
            poll_input_outcome(target@, timeout_ms, replies@, at as nat + 1) == poll_input_outcome(
                target@,
                timeout_ms,
                replies@,
                pos as nat,
            ),
        decreases replies.len() - pos,
    {
        if pos == replies.len() {
            return Progress::Ask(
                call(CallKind::Capture, words4("capture-pane", "-p", "-t", target)),
            );
        }
        if replies[pos].error.is_none() && opencode_input_ready(replies[pos].stdout.as_str()) {
            return Progress::Got(true, pos + 1);
        }
        if pos + 1 == replies.len() {
            return Progress::Ask(bare_call(CallKind::ReadClock));
        }
        if replies[pos + 1].elapsed_ms >= timeout_ms {
            return Progress::Got(false, pos + 2);
        }
        if pos + 2 == replies.len() {
            return Progress::Ask(bare_call(CallKind::Sleep));
        }
        pos = pos + 3;
    }
}

// ---------------------------------------------------------------------------
// Creating a session
// ---------------------------------------------------------------------------

/// Preparing the OpenCode server of a worktree; the result is the position of the
/// reply that describes it. Only a task branch under OpenCode has a server.
pub open spec fn runtime_outcome(
    config: &Config,
    branch: Seq<char>,
    directory: Seq<char>,
    replies: Seq<Reply>,
    at: nat,
) -> Outcome<Option<usize>> {
    if !config.runs_opencode() || branch == config.default_branch@ {
        Outcome::Got(None, at)
    } else if at >= replies.len() {
        Outcome::Ask(call_view(CallKind::PrepareRuntime, seq![branch, directory]))
    } else {
        match replies[at as int].error {
            Some(error) => Outcome::Fail("prepare opencode runtime: "@ + error@, at + 1),
            None => Outcome::Got(Some(at as usize), at + 1),
        }
    }
}

fn words2(a: &str, b: &str) -> (r: Vec<String>)
    ensures
        crate::text::texts(r@) == seq![a@, b@],
{
    let mut r: Vec<String> = Vec::new();
    r.push(owned(a));
    r.push(owned(b));
    assert(crate::text::texts(r@) =~= seq![a@, b@]);
    r
}

fn opencode_runtime_for_session(
    config: &Config,
    session: &Session,
    replies: &Vec<Reply>,
    at: usize,
) -> (r: Progress<Option<usize>>)
    requires
        at <= replies.len(),
    ensures
        r.outcome() == runtime_outcome(
            config,
            session.branch@,
            session.path@,
            replies@,
            at as nat,
        ),
        r.outcome().within(at as nat, replies.len() as nat),
        r matches Progress::Got(Some(i), _) ==> i < replies.len(),
{
    if !config.uses_opencode() || config.is_default_branch(session.branch.as_str()) {
        return Progress::Got(None, at);
    }
    if at == replies.len() {
        return Progress::Ask(
            call(
                CallKind::PrepareRuntime,
                words2(session.branch.as_str(), session.path.as_str()),
            ),
        );
    }
    match &replies[at].error {
        Some(error) => Progress::Fail(
            join2("prepare opencode runtime: ", error.as_str()),
            at + 1,
        ),
        None => Progress::Got(Some(at), at + 1),
    }
}

/// The server described by a reply, where the reply is known and describes one.
pub open spec fn described(replies: Seq<Reply>, prepared: Option<usize>) -> Option<
    OpencodeRuntime,
> {
    match prepared {
        Some(i) => replies[i as int].runtime,
        None => None,
    }
}

/// The stored server of a reply, where it still fits the worktree.
pub open spec fn usable(reply: Reply, directory: Seq<char>) -> Option<OpencodeRuntime> {
    match reply.runtime {
        Some(runtime) => if reply.error is None && crate::tmux::is_usable(runtime, directory) {
            Some(runtime)
        } else {
            None
        },
        None => None,
    }
}

/// Creating the session with a command, or refusing to.
pub open spec fn start_outcome(
    config: &Config,
    directory: Seq<char>,
    name: Seq<char>,
    runtime: Option<OpencodeRuntime>,
    replies: Seq<Reply>,
    at: nat,
) -> Outcome<()> {
    match crate::tmux::shell_command(
        config,
        crate::tmux::agent_words(config, directory, runtime),
    ) {
        Err(error) => Outcome::Fail(error, at),
        Ok(command) => status_outcome(
            new_session_args(name, TmuxWindow::Agent.title(config), directory, command),
            replies,
            at,
        ),
    }
}

/// Creating the session of a worktree. Under OpenCode, a server that was not just
/// prepared is looked up.
pub open spec fn create_outcome(
    config: &Config,
    branch: Seq<char>,
    directory: Seq<char>,
    name: Seq<char>,
    prepared: Option<usize>,
    replies: Seq<Reply>,
    at: nat,
) -> Outcome<()> {
    if !config.runs_opencode() || described(replies, prepared) is Some {
        start_outcome(config, directory, name, described(replies, prepared), replies, at)
    } else if at >= replies.len() {
        Outcome::Ask(call_view(CallKind::LoadRuntime, seq![branch, directory]))
    } else {
        start_outcome(
            config,
            directory,
            name,
            usable(replies[at as int], directory),
            replies,
            at + 1,
        )
    }
}

fn start_session(
    config: &Config,
    session: &Session,
    name: &str,
    runtime: Option<&OpencodeRuntime>,
    replies: &Vec<Reply>,
    at: usize,
) -> (r: Progress<()>)
    requires
        at <= replies.len(),
    ensures
        r.outcome() == start_outcome(
            config,
            session.path@,
            name@,
            match runtime {
                Some(known) => Some(*known),
                None => None,
            },
            replies@,
            at as nat,
        ),
        r.outcome().within(at as nat, replies.len() as nat),
{
    match agent_shell_command(config, session, runtime) {
        Err(error) => Progress::Fail(error, at),
        Ok(command) => {
            let title: String = TmuxWindow::Agent.name(config);
            let mut args: Vec<String> = words5("new-session", "-d", "-s", name, "-n");
            let tail: Vec<String> = words4(
                title.as_str(),
                "-c",
                session.path.as_str(),
                command.as_str(),
            );
            append_words(&mut args, tail);
            assert(crate::text::texts(args@) =~= new_session_args(
                name@,
                TmuxWindow::Agent.title(config),
                session.path@,
                command@,
            ));
            run_tmux_status(args, replies, at)
        },
    }
}

fn create_detached_agent_session(
    config: &Config,
    session: &Session,
    name: &str,
    prepared: Option<usize>,
    replies: &Vec<Reply>,
    at: usize,
) -> (r: Progress<()>)
    requires
        at <= replies.len(),
        prepared matches Some(i) ==> i < replies.len(),
    ensures
        r.outcome() == create_outcome(
            config,
            session.branch@,
            session.path@,
            name@,
            prepared,
            replies@,
            at as nat,
        ),
        r.outcome().within(at as nat, replies.len() as nat),
{
    let known: Option<&OpencodeRuntime> = match prepared {
        Some(i) => replies[i].runtime.as_ref(),
        None => None,
    };
    if !config.uses_opencode() || known.is_some() {
        return start_session(config, session, name, known, replies, at);
    }
    if at == replies.len() {
        return Progress::Ask(
            call(
                CallKind::LoadRuntime,
                words2(session.branch.as_str(), session.path.as_str()),
            ),
        );
    }
    let stored: Option<&OpencodeRuntime> = if replies[at].error.is_none() {
        usable_opencode_runtime(&replies[at].runtime, session)
    } else {
        None
    };
    start_session(config, session, name, stored, replies, at + 1)
}

/// Creating a session, and giving it its options and its windows.
pub open spec fn fresh_outcome(
    config: &Config,
    branch: Seq<char>,
    directory: Seq<char>,
    name: Seq<char>,
    prepared: Option<usize>,
    replies: Seq<Reply>,
    at: nat,
) -> Outcome<bool> {
    create_outcome(config, branch, directory, name, prepared, replies, at).and(
        |_u: (), n: nat|
            configure_outcome(name, replies, n).and(
                |_there: bool, n: nat|
                    companions_outcome(config, directory, name, replies, n).and(
                        |_u: (), n: nat|
                            wait_running_outcome(
                                config,
                                name,
                                CREATED_SESSION_READY_WAIT_MS,
                                replies,
                                n,
                            ),
                    ),
            ),
    )
}

fn create_fresh_session(
    config: &Config,
    session: &Session,
    name: &str,
    prepared: Option<usize>,
    replies: &Vec<Reply>,
    at: usize,
) -> (r: Progress<bool>)
    requires
        at <= replies.len(),
        prepared matches Some(i) ==> i < replies.len(),
    ensures
        r.outcome() == fresh_outcome(
            config,
            session.branch@,
            session.path@,
            name@,
            prepared,
            replies@,
            at as nat,
        ),
        r.outcome().within(at as nat, replies.len() as nat),
{
    let n: usize = match create_detached_agent_session(
        config,
        session,
        name,
        prepared,
        replies,
        at,
    ) {
        Progress::Ask(asked) => {
            return Progress::Ask(asked);
        },
        Progress::Fail(error, n) => {
            return Progress::Fail(error, n);
        },
        Progress::Got(_, n) => n,
    };
    let n: usize = match configure_agent_session(name, replies, n) {
        Progress::Got(_, n) => n,
        other => {
            return other;
        },
    };
    let n: usize = match ensure_companion_windows(config, session, name, replies, n) {
        Progress::Ask(asked) => {
            return Progress::Ask(asked);
        },
        Progress::Fail(error, n) => {
            return Progress::Fail(error, n);
        },
        Progress::Got(_, n) => n,
    };
    wait_for_agent_session_running(config, name, CREATED_SESSION_READY_WAIT_MS, replies, n)
}

/// Having the agent run in its session. A session in which it does not show up is
/// ended and created anew; one that vanishes under way is created anew. The
/// result says whether the agent runs.
pub open spec fn ensure_outcome(
    config: &Config,
    branch: Seq<char>,
    directory: Seq<char>,
    name: Seq<char>,
    replies: Seq<Reply>,
    at: nat,
) -> Outcome<bool> {
    runtime_outcome(config, branch, directory, replies, at).and(
        |prepared: Option<usize>, n: nat|
            exists_outcome(name, replies, n).and(
                |there: bool, n: nat|
                    if !there {
                        fresh_outcome(config, branch, directory, name, prepared, replies, n)
                    } else {
                        configure_outcome(name, replies, n).and(
                            |configured: bool, n: nat|
                                if !configured {
                                    fresh_outcome(
                                        config,
                                        branch,
                                        directory,
                                        name,
                                        prepared,
                                        replies,
                                        n,
                                    )
                                } else {
                                    wait_running_outcome(
                                        config,
                                        name,
                                        EXISTING_SESSION_READY_WAIT_MS,
                                        replies,
                                        n,
                                    ).and(
                                        |running: bool, n: nat|
                                            if running {
                                                companions_outcome(
                                                    config,
                                                    directory,
                                                    name,
                                                    replies,
                                                    n,
                                                ).and(|_u: (), n: nat| Outcome::Got(true, n))
                                            } else {
                                                tolerant_outcome(
                                                    kill_args(name),
                                                    replies,
                                                    n,
                                                ).and(
                                                    |_u: (), n: nat|
                                                        fresh_outcome(
                                                            config,
                                                            branch,
                                                            directory,
                                                            name,
                                                            prepared,
                                                            replies,
                                                            n,
                                                        ),
                                                )
                                            },
                                    )
                                },
                        )
                    },
            ),
    )
}

fn kill_session(name: &str, replies: &Vec<Reply>, at: usize) -> (r: Progress<()>)
    requires
        at <= replies.len(),
    ensures
        r.outcome() == tolerant_outcome(kill_args(name@), replies@, at as nat),
        r.outcome().within(at as nat + 1, replies.len() as nat),
{
    run_tolerant(words3("kill-session", "-t", name), replies, at)
}

fn ensure_tmux_agent_session(
    config: &Config,
    session: &Session,
    name: &str,
    replies: &Vec<Reply>,
    at: usize,
) -> (r: Progress<bool>)
    requires
        at <= replies.len(),
    ensures
        r.outcome() == ensure_outcome(
            config,
            session.branch@,
            session.path@,
            name@,
            replies@,
            at as nat,
        ),
        r.outcome().within(at as nat, replies.len() as nat),
{
    let (prepared, n): (Option<usize>, usize) = match opencode_runtime_for_session(
        config,
        session,
        replies,
        at,
    ) {
        Progress::Ask(asked) => {
            return Progress::Ask(asked);
        },
        Progress::Fail(error, n) => {
            return Progress::Fail(error, n);
        },
        Progress::Got(prepared, n) => (prepared, n),
    };
    let (there, n): (bool, usize) = match session_exists(name, replies, n) {
        Progress::Got(there, n) => (there, n),
        other => {
            return other;
        },
    };
    if !there {
        return create_fresh_session(config, session, name, prepared, replies, n);
    }
    let (configured, n): (bool, usize) = match configure_agent_session(name, replies, n) {
        Progress::Got(configured, n) => (configured, n),
        other => {
            return other;
        },
    };
    if !configured {
        return create_fresh_session(config, session, name, prepared, replies, n);
    }
    let (running, n): (bool, usize) = match wait_for_agent_session_running(
        config,
        name,
        EXISTING_SESSION_READY_WAIT_MS,
        replies,
        n,
    ) {
        Progress::Got(running, n) => (running, n),
        other => {
            return other;
        },
    };
    if running {
        return match ensure_companion_windows(config, session, name, replies, n) {
            Progress::Ask(asked) => Progress::Ask(asked),
            Progress::Fail(error, n) => Progress::Fail(error, n),
            Progress::Got(_, n) => Progress::Got(true, n),
        };
    }
    let n: usize = match kill_session(name, replies, n) {
        Progress::Ask(asked) => {
            return Progress::Ask(asked);
        },
        Progress::Fail(error, n) => {
            return Progress::Fail(error, n);
        },
        Progress::Got(_, n) => n,
    };
    create_fresh_session(config, session, name, prepared, replies, n)
}

/// Having a session ready to attach to. An agent that already runs is left as it
/// is, without preparing a server for it.
pub open spec fn ready_outcome(
    config: &Config,
    branch: Seq<char>,
    directory: Seq<char>,
    name: Seq<char>,
    replies: Seq<Reply>,
    at: nat,
) -> Outcome<()> {
    running_outcome(config, name, replies, at).and(
        |running: bool, n: nat|
            if !running {
                ensure_outcome(config, branch, directory, name, replies, n).and(
                    |_ready: bool, n: nat| Outcome::Got((), n),
                )
            } else {
                configure_outcome(name, replies, n).and(
                    |there: bool, n: nat|
                        if there {
                            companions_outcome(config, directory, name, replies, n)
                        } else {
                            ensure_outcome(config, branch, directory, name, replies, n).and(
                                |_ready: bool, n: nat| Outcome::Got((), n),
                            )
                        },
                )
            },
    )
}

fn ensure_tmux_agent_session_for_attach(
    config: &Config,
    session: &Session,
    name: &str,
    replies: &Vec<Reply>,
    at: usize,
) -> (r: Progress<()>)
    requires
        at <= replies.len(),
    ensures
        r.outcome() == ready_outcome(
            config,
            session.branch@,
            session.path@,
            name@,
            replies@,
            at as nat,
        ),
        r.outcome().within(at as nat, replies.len() as nat),
{
    let (running, n): (bool, usize) = match tmux_agent_session_running(config, name, replies, at) {
        Progress::Ask(asked) => {
            return Progress::Ask(asked);
        },
        Progress::Fail(error, n) => {
            return Progress::Fail(error, n);
        },
        Progress::Got(running, n) => (running, n),
    };
    let mut n: usize = n;
    if running {
        match configure_agent_session(name, replies, n) {
            Progress::Ask(asked) => {
                return Progress::Ask(asked);
            },
            Progress::Fail(error, n) => {
                return Progress::Fail(error, n);
            },
            Progress::Got(there, m) => {
                if there {
                    return ensure_companion_windows(config, session, name, replies, m);
                }
                n = m;
            },
        }
    }
    match ensure_tmux_agent_session(config, session, name, replies, n) {
        Progress::Ask(asked) => Progress::Ask(asked),
        Progress::Fail(error, n) => Progress::Fail(error, n),
        Progress::Got(_, n) => Progress::Got((), n),
    }
}

// ---------------------------------------------------------------------------
// Attaching
// ---------------------------------------------------------------------------

/// Attaching to a target of a session. An attach that ends because the session is
/// gone has done its work.
pub open spec fn attach_outcome(
    target: Seq<char>,
    name: Seq<char>,
    replies: Seq<Reply>,
    at: nat,
) -> Outcome<()> {
    match plain_outcome(call_view(CallKind::Attach, attach_args(target)), replies, at) {
        Outcome::Fail(error, n) => match exists_outcome(name, replies, n) {
            Outcome::Ask(asked) => Outcome::Ask(asked),
            Outcome::Got(false, n) => Outcome::Got((), n),
            Outcome::Got(true, n) => Outcome::Fail(error, n),
            Outcome::Fail(_, n) => Outcome::Fail(error, n),
        },
        other => other,
    }
}

fn attach(target: &str, name: &str, replies: &Vec<Reply>, at: usize) -> (r: Progress<()>)
    requires
        at <= replies.len(),
    ensures
        r.outcome() == attach_outcome(target@, name@, replies@, at as nat),
        r.outcome().within(at as nat + 1, replies.len() as nat),
{
    let asked: Call = call(CallKind::Attach, words3("attach-session", "-t", target));
    match run_plain(asked, replies, at) {
        Progress::Fail(error, n) => match session_exists(name, replies, n) {
            Progress::Ask(asked) => Progress::Ask(asked),
            Progress::Fail(_, n) => Progress::Fail(error, n),
            Progress::Got(there, n) => {
                if there {
                    Progress::Fail(error, n)
                } else {
                    Progress::Got((), n)
                }
            },
        },
        other => other,
    }
}

/// Attaches to the agent session of a worktree, creating it where it is missing.
pub fn attach_or_create_agent(
    repo: &Repository,
    config: &Config,
    session: &Session,
    generation: u64,
    replies: &Vec<Reply>,
) -> (r: Progress<()>)
    ensures
        ({
            let name = crate::tmux::session_name(repo.root_hash, session.branch@, generation);
            r.outcome() == ready_outcome(
                config,
                session.branch@,
                session.path@,
                name,
                replies@,
                0,
            ).and(|_u: (), n: nat| attach_outcome(name, name, replies@, n))
        }),
{
    let runtime = TmuxAgentSession::for_worktree_session(repo, session.branch.as_str(), generation);
    match ensure_tmux_agent_session_for_attach(config, session, runtime.name(), replies, 0) {
        Progress::Got(_, n) => attach(runtime.name(), runtime.name(), replies, n),
        other => other,
    }
}

/// Attaches to a window of the agent session of a worktree, creating the session
/// where it is missing.
pub fn attach_or_create_window(
    repo: &Repository,
    config: &Config,
    session: &Session,
    generation: u64,
    window: TmuxWindow,
    replies: &Vec<Reply>,
) -> (r: Progress<()>)
    ensures
        ({
            let name = crate::tmux::session_name(repo.root_hash, session.branch@, generation);
            r.outcome() == ready_outcome(
                config,
                session.branch@,
                session.path@,
                name,
                replies@,
                0,
            ).and(
                |_u: (), n: nat|
                    attach_outcome(
                        crate::tmux::target_text(name, window),
                        name,
                        replies@,
                        n,
                    ),
            )
        }),
{
    let runtime = TmuxAgentSession::for_worktree_session(repo, session.branch.as_str(), generation);
    match ensure_tmux_agent_session_for_attach(config, session, runtime.name(), replies, 0) {
        Progress::Got(_, n) => {
            let target: String = runtime.target(window);
            attach(target.as_str(), runtime.name(), replies, n)
        },
        other => other,
    }
}

/// Attaching to a session that runs a plan, creating it where it is missing.
pub open spec fn plan_mode_outcome(
    name: Seq<char>,
    directory: Seq<char>,
    command: Seq<char>,
    replies: Seq<Reply>,
) -> Outcome<()> {
    exists_outcome(name, replies, 0).and(
        |there: bool, n: nat|
            if there {
                attach_outcome(name, name, replies, n)
            } else {
                status_outcome(
                    new_session_args(name, "plan"@, directory, command),
                    replies,
                    n,
                ).and(
                    |_u: (), n: nat|
                        status_outcome(
                            option_args(name, "detach-on-destroy"@, "on"@),
                            replies,
                            n,
                        ).and(|_u: (), n: nat| attach_outcome(name, name, replies, n)),
                )
            },
    )
}

/// Attaches to a session that runs a plan, creating it where it is missing.
pub fn attach_or_create_plan_mode(
    name: &str,
    cwd: &str,
    command: &str,
    replies: &Vec<Reply>,
) -> (r: Progress<()>)
    ensures
        r.outcome() == plan_mode_outcome(name@, cwd@, command@, replies@),
{
    let (there, n): (bool, usize) = match session_exists(name, replies, 0) {
        Progress::Ask(asked) => {
            return Progress::Ask(asked);
        },
        Progress::Fail(error, n) => {
            return Progress::Fail(error, n);
        },
        Progress::Got(there, n) => (there, n),
    };
    if there {
        return attach(name, name, replies, n);
    }
    let mut args: Vec<String> = words5("new-session", "-d", "-s", name, "-n");
    let tail: Vec<String> = words4("plan", "-c", cwd, command);
    append_words(&mut args, tail);
    assert(crate::text::texts(args@) =~= new_session_args(name@, "plan"@, cwd@, command@));
    let n: usize = match run_tmux_status(args, replies, n) {
        Progress::Got(_, n) => n,
        other => {
            return other;
        },
    };
    let option: Vec<String> = words5("set-option", "-t", name, "detach-on-destroy", "on");
    let n: usize = match run_tmux_status(option, replies, n) {
        Progress::Got(_, n) => n,
        other => {
            return other;
        },
    };
    attach(name, name, replies, n)
}

/// Has the agent of a worktree run in its session; the result says whether it
/// does.
pub fn ensure_agent_session(
    repo: &Repository,
    config: &Config,
    session: &Session,
    generation: u64,
    replies: &Vec<Reply>,
) -> (r: Progress<bool>)
    ensures
        r.outcome() == ensure_outcome(
            config,
            session.branch@,
            session.path@,
            crate::tmux::session_name(repo.root_hash, session.branch@, generation),
            replies@,
            0,
        ),
{
    let runtime = TmuxAgentSession::for_worktree_session(repo, session.branch.as_str(), generation);
    ensure_tmux_agent_session(config, session, runtime.name(), replies, 0)
}

/// Whether the agent of a worktree runs in its session.
pub fn agent_session_running(
    repo: &Repository,
    config: &Config,
    session: &Session,
    generation: u64,
    replies: &Vec<Reply>,
) -> (r: Progress<bool>)
    ensures
        r.outcome() == running_outcome(
            config,
            crate::tmux::session_name(repo.root_hash, session.branch@, generation),
            replies@,
            0,
        ),
        !(r is Fail),
{
    let runtime = TmuxAgentSession::for_worktree_session(repo, session.branch.as_str(), generation);
    tmux_agent_session_running(config, runtime.name(), replies, 0)
}

// ---------------------------------------------------------------------------
// Prompts
// ---------------------------------------------------------------------------

/// Pasting a prompt into the agent's window, once the agent takes input.
pub open spec fn paste_outcome(
    config: &Config,
    name: Seq<char>,
    prompt: Seq<char>,
    replies: Seq<Reply>,
    at: nat,
) -> Outcome<()> {
    let target = crate::tmux::target_text(name, TmuxWindow::Agent);
    let buffer = name + "-prompt"@;
    wait_input_outcome(config, target, AGENT_INPUT_READY_WAIT_MS, replies, at).and(
        |ready: bool, n: nat|
            if !ready {
                Outcome::Fail("agent prompt did not become ready"@, n)
            } else {
                plain_outcome(
                    CallView {
                        kind: CallKind::Feed,
                        args: load_buffer_args(buffer),
                        input: prompt,
                    },
                    replies,
                    n,
                ).and(
                    |_u: (), n: nat| status_outcome(paste_buffer_args(buffer, target), replies, n),
                )
            },
    )
}

fn paste_prompt_into_tmux(
    config: &Config,
    runtime: &TmuxAgentSession,
    prompt: &str,
    replies: &Vec<Reply>,
    at: usize,
) -> (r: Progress<()>)
    requires
        at <= replies.len(),
    ensures
        r.outcome() == paste_outcome(config, runtime@, prompt@, replies@, at as nat),
        r.outcome().within(at as nat, replies.len() as nat),
{
    let target: String = runtime.target(TmuxWindow::Agent);
    let (ready, n): (bool, usize) = match wait_for_agent_input_ready(
        config,
        target.as_str(),
        AGENT_INPUT_READY_WAIT_MS,
        replies,
        at,
    ) {
        Progress::Ask(asked) => {
            return Progress::Ask(asked);
        },
        Progress::Fail(error, n) => {
            return Progress::Fail(error, n);
        },
        Progress::Got(ready, n) => (ready, n),
    };
    if !ready {
        return Progress::Fail(owned("agent prompt did not become ready"), n);
    }
    let buffer: String = runtime.prompt_buffer_name();
    let load = Call {
        kind: CallKind::Feed,
        args: words4("load-buffer", "-b", buffer.as_str(), "-"),
        input: owned(prompt),
    };
    let n: usize = match run_plain(load, replies, n) {
        Progress::Got(_, n) => n,
        other => {
            return other;
        },
    };
    let mut args: Vec<String> = words4("paste-buffer", "-d", "-b", buffer.as_str());
    let tail: Vec<String> = words2("-t", target.as_str());
    append_words(&mut args, tail);
    assert(crate::text::texts(args@) =~= paste_buffer_args(
        runtime@ + "-prompt"@,
        crate::tmux::target_text(runtime@, TmuxWindow::Agent),
    ));
    run_tmux_status(args, replies, n)
}

/// What an error of the API adds to the errors of a prompt.
pub open spec fn api_failure(error: Seq<char>) -> Seq<char> {
    "submit opencode prompt through API failed: "@ + error
}

/// Submitting a prompt through the API of a server, with pasting as the fallback.
pub open spec fn submit_outcome(
    config: &Config,
    name: Seq<char>,
    server_url: Seq<char>,
    session_id: Seq<char>,
    ready: bool,
    prompt: Seq<char>,
    replies: Seq<Reply>,
    at: nat,
) -> Outcome<()> {
    let asked = CallView {
        kind: CallKind::SubmitPrompt,
        args: seq![server_url, session_id],
        input: prompt,
    };
    match plain_outcome(asked, replies, at) {
        Outcome::Fail(error, n) => if !ready {
            Outcome::Fail(api_failure(error) + "; agent session did not become ready"@, n)
        } else {
            match paste_outcome(config, name, prompt, replies, n) {
                Outcome::Fail(paste_error, n) => Outcome::Fail(
                    api_failure(error) + "; paste fallback failed: "@ + paste_error,
                    n,
                ),
                other => other,
            }
        },
        other => other,
    }
}

/// Handing a prompt to the agent of a worktree. OpenCode on a task branch gets it
/// through its API; any other agent gets it pasted.
pub open spec fn prompt_outcome(
    config: &Config,
    branch: Seq<char>,
    directory: Seq<char>,
    name: Seq<char>,
    prompt: Seq<char>,
    replies: Seq<Reply>,
) -> Outcome<()> {
    if config.runs_opencode() && branch != config.default_branch@ {
        if replies.len() == 0 {
            Outcome::Ask(call_view(CallKind::PrepareRuntime, seq![branch, directory]))
        } else {
            match (replies[0].error, replies[0].runtime) {
                (Some(error), _) => Outcome::Fail(
                    "prepare opencode runtime for prompt: "@ + error@,
                    1,
                ),
                (
                    None,
                    Some(OpencodeRuntime { server_url, opencode_session_id: Some(id), .. }),
                ) => ensure_outcome(config, branch, directory, name, replies, 1).and(
                    |ready: bool, n: nat|
                        submit_outcome(
                            config,
                            name,
                            server_url@,
                            id@,
                            ready,
                            prompt,
                            replies,
                            n,
                        ),
                ),
                _ => Outcome::Fail("OpenCode session ID is not available"@, 1),
            }
        }
    } else {
        ensure_outcome(config, branch, directory, name, replies, 0).and(
            |ready: bool, n: nat|
                if ready {
                    paste_outcome(config, name, prompt, replies, n)
                } else {
                    Outcome::Fail("agent session did not become ready"@, n)
                },
        )
    }
}

fn submit_prompt(
    config: &Config,
    runtime: &TmuxAgentSession,
    server_url: &str,
    session_id: &str,
    ready: bool,
    prompt: &str,
    replies: &Vec<Reply>,
    at: usize,
) -> (r: Progress<()>)
    requires
        at <= replies.len(),
    ensures
        r.outcome() == submit_outcome(
            config,
            runtime@,
            server_url@,
            session_id@,
            ready,
            prompt@,
            replies@,
            at as nat,
        ),
{
    let asked = Call {
        kind: CallKind::SubmitPrompt,
        args: words2(server_url, session_id),
        input: owned(prompt),
    };
    match run_plain(asked, replies, at) {
        Progress::Fail(error, n) => {
            let mut message: String = join2(
                "submit opencode prompt through API failed: ",
                error.as_str(),
            );
            if !ready {
                message.append("; agent session did not become ready");
                return Progress::Fail(message, n);
            }
            match paste_prompt_into_tmux(config, runtime, prompt, replies, n) {
                Progress::Fail(paste_error, n) => {
                    message.append("; paste fallback failed: ");
                    message.append(paste_error.as_str());
                    Progress::Fail(message, n)
                },
                other => other,
            }
        },
        other => other,
    }
}

/// Hands a prompt to the agent of a worktree.
pub fn paste_agent_prompt(
    repo: &Repository,
    config: &Config,
    session: &Session,
    generation: u64,
    prompt: &str,
    replies: &Vec<Reply>,
) -> (r: Progress<()>)
    ensures
        r.outcome() == prompt_outcome(
            config,
            session.branch@,
            session.path@,
            crate::tmux::session_name(repo.root_hash, session.branch@, generation),
            prompt@,
            replies@,
        ),
{
    let runtime = TmuxAgentSession::for_worktree_session(repo, session.branch.as_str(), generation);
    if config.uses_opencode() && !config.is_default_branch(session.branch.as_str()) {
        if replies.len() == 0 {
            return Progress::Ask(
                call(
                    CallKind::PrepareRuntime,
                    words2(session.branch.as_str(), session.path.as_str()),
                ),
            );
        }
        match &replies[0].error {
            Some(error) => {
                return Progress::Fail(
                    join2("prepare opencode runtime for prompt: ", error.as_str()),
                    1,
                );
            },
            None => {},
        }
        let (server_url, session_id): (String, String) = match &replies[0].runtime {
            Some(prepared) => match &prepared.opencode_session_id {
                Some(id) => (prepared.server_url.clone(), id.clone()),
                None => {
                    return Progress::Fail(owned("OpenCode session ID is not available"), 1);
                },
            },
            None => {
                return Progress::Fail(owned("OpenCode session ID is not available"), 1);
            },
        };
        return match ensure_tmux_agent_session(config, session, runtime.name(), replies, 1) {
            Progress::Ask(asked) => Progress::Ask(asked),
            Progress::Fail(error, n) => Progress::Fail(error, n),
            Progress::Got(ready, n) => submit_prompt(
                config,
                &runtime,
                server_url.as_str(),
                session_id.as_str(),
                ready,
                prompt,
                replies,
                n,
            ),
        };
    }
    match ensure_tmux_agent_session(config, session, runtime.name(), replies, 0) {
        Progress::Ask(asked) => Progress::Ask(asked),
        Progress::Fail(error, n) => Progress::Fail(error, n),
        Progress::Got(ready, n) => {
            if ready {
                paste_prompt_into_tmux(config, &runtime, prompt, replies, n)
            } else {
                Progress::Fail(owned("agent session did not become ready"), n)
            }
        },
    }
}

// ---------------------------------------------------------------------------
// Ending and listing sessions
// ---------------------------------------------------------------------------

/// Ends the session of a branch and generation.
pub fn kill_agent_session(
    repo: &Repository,
    branch: &str,
    generation: u64,
    replies: &Vec<Reply>,
) -> (r: Progress<()>)
    ensures
        r.outcome() == tolerant_outcome(
            kill_args(crate::tmux::session_name(repo.root_hash, branch@, generation)),
            replies@,
            0,
        ),
{
    let runtime = TmuxAgentSession::for_worktree_session(repo, branch, generation);
    kill_session(runtime.name(), replies, 0)
}

/// The texts that start with a prefix, in their order.
pub open spec fn with_prefix(items: Seq<Seq<char>>, prefix: Seq<char>) -> Seq<Seq<char>>
    decreases items.len(),
{
    if items.len() == 0 {
        Seq::empty()
    } else if crate::text::has_prefix(items.last(), prefix) {
        with_prefix(items.drop_last(), prefix).push(items.last())
    } else {
        with_prefix(items.drop_last(), prefix)
    }
}

/// The sessions that a listing names with a prefix. Where tmux has no server, there
/// are none.
pub open spec fn listed_sessions(reply: Reply, prefix: Seq<char>) -> Result<
    Seq<Seq<char>>,
    Seq<char>,
> {
    match status_error(reply) {
        None => Ok(with_prefix(crate::text::lines_of(reply.stdout@), prefix)),
        Some(error) => if reply.error is None && crate::tmux::says_missing(
            crate::text::trimmed(reply.stderr@),
        ) {
            Ok(Seq::empty())
        } else {
            Err(error)
        },
    }
}

/// The sessions that a listing names with a prefix.
pub fn agent_session_names_with_prefix(reply: &Reply, prefix: &str) -> (r: Result<
    Vec<String>,
    String,
>)
    ensures
        match r {
            Ok(names) => listed_sessions(*reply, prefix@) == Ok::<_, Seq<char>>(
                crate::text::texts(names@),
            ),
            Err(error) => listed_sessions(*reply, prefix@) == Err::<Seq<Seq<char>>, _>(error@),
        },
{
    match failure(reply) {
        Some(error) => {
            let stderr: String = trim(reply.stderr.as_str());
            if reply.error.is_none() && tmux_missing_session_error(stderr.as_str()) {
                let none: Vec<String> = Vec::new();
                assert(crate::text::texts(none@) =~= Seq::<Seq<char>>::empty());
                return Ok(none);
            }
            Err(error)
        },
        None => {
            let all: Vec<String> = lines(reply.stdout.as_str());
            let ghost listed = crate::text::texts(all@);
            let mut out: Vec<String> = Vec::new();
            let mut i: usize = 0;
            assert(crate::text::texts(out@) =~= with_prefix(listed.take(0), prefix@));
            while i < all.len()
                invariant
                    i <= all.len(),
                    listed == crate::text::texts(all@),
                    crate::text::texts(out@) == with_prefix(listed.take(i as int), prefix@),
                decreases all.len() - i,
            {
                let ghost before = crate::text::texts(out@);
                proof {
                    assert(listed.take(i + 1).drop_last() =~= listed.take(i as int));
                    assert(listed.take(i + 1).last() == all@[i as int]@);
                }
                if starts_with(all[i].as_str(), prefix) {
                    out.push(all[i].clone());
                    assert(crate::text::texts(out@) =~= before.push(all@[i as int]@));
                }
                i += 1;
            }
            assert(listed.take(all.len() as int) =~= listed);
            Ok(out)
        },
    }
}

/// Ending sessions one after the other.
pub open spec fn kill_all_outcome(
    names: Seq<Seq<char>>,
    replies: Seq<Reply>,
    at: nat,
) -> Outcome<()>
    decreases names.len(),
{
    if names.len() == 0 {
        Outcome::Got((), at)
    } else {
        match tolerant_outcome(kill_args(names[0]), replies, at) {
            Outcome::Got(_, n) => kill_all_outcome(names.skip(1), replies, n),
            other => other,
        }
    }
}

/// Ending all sessions of a branch.
pub open spec fn kill_branch_outcome(prefix: Seq<char>, replies: Seq<Reply>) -> Outcome<()> {
    if replies.len() == 0 {
        Outcome::Ask(call_view(CallKind::Output, list_sessions_args()))
    } else {
        match listed_sessions(replies[0], prefix) {
            Err(error) => Outcome::Fail(error, 1),
            Ok(names) => kill_all_outcome(names, replies, 1),
        }
    }
}

/// Ends all sessions of a branch, whatever their generation.
pub fn kill_agent_sessions_for_branch(
    repo: &Repository,
    branch: &str,
    replies: &Vec<Reply>,
) -> (r: Progress<()>)
    ensures
        r.outcome() == kill_branch_outcome(
            crate::tmux::session_prefix(repo.root_hash, branch@),
            replies@,
        ),
{
    let prefix: String = agent_session_prefix(repo, branch);
    if replies.len() == 0 {
        return Progress::Ask(
            call(CallKind::Output, words3("list-sessions", "-F", "#{session_name}")),
        );
    }
    let names: Vec<String> = match agent_session_names_with_prefix(&replies[0], prefix.as_str()) {
        Err(error) => {
            return Progress::Fail(error, 1);
        },
        Ok(names) => names,
    };
    let ghost all = crate::text::texts(names@);
    let mut n: usize = 1;
    let mut i: usize = 0;
    assert(all.skip(0) =~= all);
    while i < names.len()
        invariant
            i <= names.len(),
            n <= replies.len(),
            all == crate::text::texts(names@),
            kill_all_outcome(all, replies@, 1) == kill_all_outcome(
                all.skip(i as int),
                replies@,
                n as nat,
            ),
            kill_branch_outcome(
                crate::tmux::session_prefix(repo.root_hash, branch@),
                replies@,
            ) == kill_all_outcome(all, replies@, 1),
        decreases names.len() - i,
    {
        proof {
            assert(all.skip(i as int)[0] == names@[i as int]@);
            assert(all.skip(i as int).skip(1) =~= all.skip(i + 1));
        }
        match kill_session(names[i].as_str(), replies, n) {
            Progress::Got(_, m) => {
                n = m;
            },
            other => {
                return other;
            },
        }
        i += 1;
    }
    Progress::Got((), n)
}

/// The generation that a session name ends in.
pub open spec fn generation_of(name: Seq<char>, prefix: Seq<char>) -> Option<u64> {
    if crate::text::has_prefix(name, prefix) {
        match crate::text::number_of(name.skip(prefix.len() as int)) {
            Some(n) => if n <= u64::MAX {
                Some(n as u64)
            } else {
                None
            },
            None => None,
        }
    } else {
        None
    }
}

/// The highest generation among session names.
pub open spec fn latest_generation(names: Seq<Seq<char>>, prefix: Seq<char>) -> Option<u64>
    decreases names.len(),
{
    if names.len() == 0 {
        None
    } else {
        match (
            latest_generation(names.drop_last(), prefix),
            generation_of(names.last(), prefix),
        ) {
            (Some(a), Some(b)) => Some(
                if a >= b {
                    a
                } else {
                    b
                },
            ),
            (Some(a), None) => Some(a),
            (None, other) => other,
        }
    }
}

fn highest_generation(names: &Vec<String>, prefix: &str) -> (r: Option<u64>)
    ensures
        r == latest_generation(crate::text::texts(names@), prefix@),
{
    let ghost all = crate::text::texts(names@);
    let mut best: Option<u64> = None;
    let mut i: usize = 0;
    while i < names.len()
        invariant
            i <= names.len(),
            all == crate::text::texts(names@),
            best == latest_generation(all.take(i as int), prefix@),
        decreases names.len() - i,
    {
        proof {
            assert(all.take(i + 1).drop_last() =~= all.take(i as int));
            assert(all.take(i + 1).last() == names@[i as int]@);
        }
        let found: Option<u64> = match strip_prefix(names[i].as_str(), prefix) {
            Some(rest) => parse_u64(rest.as_str()),
            None => None,
        };
        best = match (best, found) {
            (Some(a), Some(b)) => Some(
                if a >= b {
                    a
                } else {
                    b
                },
            ),
            (Some(a), None) => Some(a),
            (None, other) => other,
        };
        i += 1;
    }
    assert(all.take(names.len() as int) =~= all);
    best
}

/// Finding the highest generation of a branch's sessions. A listing that fails
/// counts as one without sessions.
pub open spec fn latest_outcome(prefix: Seq<char>, replies: Seq<Reply>) -> Outcome<Option<u64>> {
    if replies.len() == 0 {
        Outcome::Ask(call_view(CallKind::Output, list_sessions_args()))
    } else {
        match listed_sessions(replies[0], prefix) {
            Err(_) => Outcome::Got(None, 1),
            Ok(names) => Outcome::Got(latest_generation(names, prefix), 1),
        }
    }
}

/// The highest generation of a branch's sessions.
pub fn latest_agent_session_generation(
    repo: &Repository,
    branch: &str,
    replies: &Vec<Reply>,
) -> (r: Progress<Option<u64>>)
    ensures
        r.outcome() == latest_outcome(
            crate::tmux::session_prefix(repo.root_hash, branch@),
            replies@,
        ),
{
    let prefix: String = agent_session_prefix(repo, branch);
    if replies.len() == 0 {
        return Progress::Ask(
            call(CallKind::Output, words3("list-sessions", "-F", "#{session_name}")),
        );
    }
    match agent_session_names_with_prefix(&replies[0], prefix.as_str()) {
        Err(_) => Progress::Got(None, 1),
        Ok(names) => Progress::Got(highest_generation(&names, prefix.as_str()), 1),
    }
}

} // verus!
