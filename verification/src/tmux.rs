//! Agent sessions in tmux: their names, how their agents are recognised, and the
//! command lines that start those agents.
use vstd::prelude::*;

use crate::model::Config;
use crate::model::Repository;
use crate::model::Session;
use crate::shell::command_line;
use crate::shell::split_command_words;
use crate::text::ascii_word_char;
use crate::text::chars_of;
use crate::text::contains;
use crate::text::decimal;
use crate::text::file_name;
use crate::text::hex;
use crate::text::join2;
use crate::text::join3;
use crate::text::owned;
use crate::text::same;
use crate::text::slice_text;

verus! {

// ---------------------------------------------------------------------------
// Names
// ---------------------------------------------------------------------------

/// The characters that tmux accepts in a session name without giving them a
/// meaning of their own.
pub open spec fn is_safe_char(c: char) -> bool {
    crate::text::is_ascii_word_char(c) || c == '-' || c == '_' || c == '.'
}

/// A text with every unsafe character replaced by an underscore.
pub open spec fn safe_name(s: Seq<char>) -> Seq<char> {
    Seq::new(
        s.len(),
        |i: int|
            if is_safe_char(s[i]) {
                s[i]
            } else {
                '_'
            },
    )
}

/// Replaces the characters that tmux could take for something else.
pub fn safe_tmux_name(value: &str) -> (r: String)
    ensures
        r@ == safe_name(value@),
{
    let chars: Vec<char> = chars_of(value);
    let mut out: String = String::new();
    let mut i: usize = 0;
    while i < chars.len()
        invariant
            i <= chars.len(),
            out@ == safe_name(chars@.take(i as int)),
        decreases chars.len() - i,
    {
        let c: char = chars[i];
        if ascii_word_char(c) || c == '-' || c == '_' || c == '.' {
            out.push(c);
        } else {
            out.push('_');
        }
        i += 1;
        assert(out@ =~= safe_name(chars@.take(i as int)));
    }
    assert(chars@.take(chars.len() as int) =~= chars@);
    out
}

/// What the names of all sessions of a branch start with.
pub open spec fn session_prefix(root_hash: u64, branch: Seq<char>) -> Seq<char> {
    "prism-"@ + crate::text::hex_text(root_hash as nat, 16) + "-"@ + safe_name(branch) + "-"@
}

/// The name of the session of a branch and generation.
pub open spec fn session_name(root_hash: u64, branch: Seq<char>, generation: u64) -> Seq<char> {
    session_prefix(root_hash, branch) + crate::text::decimal_text(generation as nat)
}

/// What the names of all sessions of a branch start with.
pub fn agent_session_prefix(repo: &Repository, branch: &str) -> (r: String)
    ensures
        r@ == session_prefix(repo.root_hash, branch@),
{
    let hash: String = hex(repo.root_hash, 16);
    let safe: String = safe_tmux_name(branch);
    let mut out: String = join3("prism-", hash.as_str(), "-");
    out.append(safe.as_str());
    out.append("-");
    out
}

/// The tmux session of a worktree's agent.
#[derive(Debug)]
pub struct TmuxAgentSession {
    name: String,
}

/// The windows of an agent session.
#[derive(Clone, Copy, Debug, PartialEq, Eq, Structural)]
pub enum TmuxWindow {
    Agent,
    LazyGit,
    Terminal,
}

/// The tmux target of a window.
pub open spec fn target_text(name: Seq<char>, window: TmuxWindow) -> Seq<char> {
    name + ":"@ + crate::text::decimal_text(window.index_of() as nat)
}

impl TmuxWindow {
    /// The index of a window in its session.
    pub open spec fn index_of(self) -> u8 {
        match self {
            TmuxWindow::Agent => 1,
            TmuxWindow::LazyGit => 2,
            TmuxWindow::Terminal => 3,
        }
    }

    /// The title of a window.
    pub open spec fn title(self, config: &Config) -> Seq<char> {
        match self {
            TmuxWindow::Agent => config.default_agent@,
            TmuxWindow::LazyGit => "lazygit"@,
            TmuxWindow::Terminal => "terminal"@,
        }
    }

    /// The index of a window in its session.
    pub fn index(self) -> (r: u8)
        ensures
            r == self.index_of(),
    {
        match self {
            TmuxWindow::Agent => 1,
            TmuxWindow::LazyGit => 2,
            TmuxWindow::Terminal => 3,
        }
    }

    /// The title of a window.
    pub fn name(self, config: &Config) -> (r: String)
        ensures
            r@ == self.title(config),
    {
        match self {
            TmuxWindow::Agent => config.default_agent.clone(),
            TmuxWindow::LazyGit => owned("lazygit"),
            TmuxWindow::Terminal => owned("terminal"),
        }
    }
}

/// The tmux target of a window.
pub fn window_target(name: &str, window: TmuxWindow) -> (r: String)
    ensures
        r@ == target_text(name@, window),
{
    let index: String = decimal(window.index() as u64);
    join3(name, ":", index.as_str())
}

impl TmuxAgentSession {
    /// The session's name.
    pub closed spec fn view(&self) -> Seq<char> {
        self.name@
    }

    /// The session of a branch and generation.
    pub fn for_worktree_session(repo: &Repository, branch: &str, generation: u64) -> (r: Self)
        ensures
            r@ == session_name(repo.root_hash, branch@, generation),
    {
        let mut name: String = agent_session_prefix(repo, branch);
        let number: String = decimal(generation);
        name.append(number.as_str());
        TmuxAgentSession { name }
    }

    /// The session's name.
    pub fn name(&self) -> (r: &str)
        ensures
            r@ == self@,
    {
        self.name.as_str()
    }

    /// The tmux target of a window of the session.
    pub fn target(&self, window: TmuxWindow) -> (r: String)
        ensures
            r@ == target_text(self@, window),
    {
        window_target(self.name.as_str(), window)
    }

    /// The tmux buffer through which prompts reach the session.
    pub fn prompt_buffer_name(&self) -> (r: String)
        ensures
            r@ == self@ + "-prompt"@,
    {
        join2(self.name.as_str(), "-prompt")
    }
}

// ---------------------------------------------------------------------------
// What tmux and the agent say
// ---------------------------------------------------------------------------

/// Whether an error of tmux says that its target is gone.
pub open spec fn says_missing(error: Seq<char>) -> bool {
    ||| crate::text::has_text(error, "can't find session"@)
    ||| crate::text::has_text(error, "can't find window"@)
    ||| crate::text::has_text(error, "can't find pane"@)
    ||| crate::text::has_text(error, "no server running"@)
}

/// Whether an error of tmux says that its target is gone.
pub fn tmux_missing_session_error(error: &str) -> (r: bool)
    ensures
        r == says_missing(error@),
{
    contains(error, "can't find session") || contains(error, "can't find window") || contains(
        error,
        "can't find pane",
    ) || contains(error, "no server running")
}

/// Whether the screen of OpenCode shows that it takes input.
pub open spec fn shows_input(output: Seq<char>) -> bool {
    crate::text::has_text(output, "Ask anything"@) || crate::text::has_text(
        output,
        "ctrl+p commands"@,
    )
}

/// Whether the screen of OpenCode shows that it takes input.
pub fn opencode_input_ready(output: &str) -> (r: bool)
    ensures
        r == shows_input(output@),
{
    contains(output, "Ask anything") || contains(output, "ctrl+p commands")
}

/// The file name of a program, or the whole text where it has none.
pub open spec fn program_name(program: Seq<char>) -> Seq<char> {
    match crate::text::file_name_of(program) {
        Some(name) => name,
        None => program,
    }
}

fn program_file(program: &str) -> (r: String)
    ensures
        r@ == program_name(program@),
{
    match file_name(program) {
        Some(name) => name,
        None => owned(program),
    }
}

/// The program of the configured agent.
pub open spec fn agent_program(config: &Config) -> Option<Seq<char>> {
    if config.runs_opencode() {
        Some(config.tool_text("opencode"@))
    } else {
        let words = crate::shell::words_of(config.agent_line());
        if words.len() == 0 {
            None
        } else {
            Some(words[0])
        }
    }
}

/// Whether a command that runs in a pane is the configured agent.
pub open spec fn is_agent_command(config: &Config, command: Seq<char>) -> bool {
    match agent_program(config) {
        Some(program) => {
            ||| command == program_name(program)
            ||| config.runs_opencode() && command == program_name(program) + ".exe"@
        },
        None => false,
    }
}

/// Whether a command that runs in a pane is the configured agent.
pub fn pane_command_matches_agent(config: &Config, pane_command: &str) -> (r: bool)
    ensures
        r == is_agent_command(config, pane_command@),
{
    let opencode: bool = config.uses_opencode();
    let program: String = if opencode {
        config.tool("opencode")
    } else {
        let line: String = config.agent_command(config.default_agent.as_str());
        let words: Vec<String> = split_command_words(line.as_str());
        if words.len() == 0 {
            assert(crate::shell::words_of(config.agent_line()).len() == 0);
            return false;
        }
        assert(crate::shell::words_of(config.agent_line())[0] == words@[0]@);
        words[0].clone()
    };
    let expected: String = program_file(program.as_str());
    if same(pane_command, expected.as_str()) {
        return true;
    }
    let windows_name: String = join2(expected.as_str(), ".exe");
    opencode && same(pane_command, windows_name.as_str())
}

/// A text without a pair of double quotes around it.
pub open spec fn without_quotes(s: Seq<char>) -> Seq<char> {
    if s.len() >= 2 && s[0] == '"' && s.last() == '"' {
        s.subrange(1, s.len() - 1)
    } else {
        s
    }
}

/// Whether the command that a pane was started with is the configured agent.
pub open spec fn starts_agent(config: &Config, command: Seq<char>) -> bool {
    let words = crate::shell::words_of(without_quotes(command));
    words.len() > 0 && is_agent_command(config, program_name(words[0]))
}

/// Whether the command that a pane was started with is the configured agent.
pub fn pane_start_command_matches_agent(config: &Config, pane_start_command: &str) -> (r: bool)
    ensures
        r == starts_agent(config, pane_start_command@),
{
    let chars: Vec<char> = chars_of(pane_start_command);
    let n: usize = chars.len();
    let bare: String = if n >= 2 && chars[0] == '"' && chars[n - 1] == '"' {
        slice_text(&chars, 1, n - 1)
    } else {
        owned(pane_start_command)
    };
    assert(bare@ == without_quotes(pane_start_command@));
    let words: Vec<String> = split_command_words(bare.as_str());
    if words.len() == 0 {
        assert(crate::shell::words_of(bare@).len() == 0);
        return false;
    }
    assert(crate::shell::words_of(bare@)[0] == words@[0]@);
    let executable: String = program_file(words[0].as_str());
    pane_command_matches_agent(config, executable.as_str())
}

// ---------------------------------------------------------------------------
// The command line of an agent
// ---------------------------------------------------------------------------

/// An OpenCode server that a worktree has used.
#[derive(Debug)]
pub struct OpencodeRuntime {
    pub server_url: String,
    pub worktree_path: String,
    pub opencode_session_id: Option<String>,
}

/// Whether a stored server still fits a worktree.
pub open spec fn is_usable(runtime: OpencodeRuntime, path: Seq<char>) -> bool {
    runtime.server_url@.len() > 0 && runtime.worktree_path@ == path
}

/// A stored server, where it still fits the worktree.
pub fn usable_opencode_runtime<'a>(
    stored: &'a Option<OpencodeRuntime>,
    session: &Session,
) -> (r: Option<&'a OpencodeRuntime>)
    ensures
        match *stored {
            Some(runtime) => if is_usable(runtime, session.path@) {
                r == Some(&runtime)
            } else {
                r is None
            },
            None => r is None,
        },
{
    match stored {
        Some(runtime) => {
            if runtime.server_url.as_str().unicode_len() > 0 && same(
                runtime.worktree_path.as_str(),
                session.path.as_str(),
            ) {
                Some(runtime)
            } else {
                None
            }
        },
        None => None,
    }
}

/// The words of the command that starts the agent in its window.
pub open spec fn agent_words(
    config: &Config,
    path: Seq<char>,
    runtime: Option<OpencodeRuntime>,
) -> Seq<Seq<char>> {
    if config.runs_opencode() {
        match runtime {
            Some(OpencodeRuntime { server_url, opencode_session_id: Some(id), .. }) => seq![
                config.tool_text("opencode"@),
                "attach"@,
                server_url@,
                "--dir"@,
                path,
                "--session"@,
                id@,
            ],
            _ => seq![config.tool_text("opencode"@)],
        }
    } else {
        crate::shell::words_of(config.agent_line())
    }
}

/// The words of the command that starts the agent in its window: OpenCode
/// attaches to its server where a session on it is known.
pub fn interactive_agent_argv(
    config: &Config,
    session: &Session,
    runtime: Option<&OpencodeRuntime>,
) -> (r: Vec<String>)
    ensures
        crate::text::texts(r@) == agent_words(
            config,
            session.path@,
            match runtime {
                Some(known) => Some(*known),
                None => None,
            },
        ),
{
    if !config.uses_opencode() {
        let line: String = config.agent_command(config.default_agent.as_str());
        return split_command_words(line.as_str());
    }
    let mut out: Vec<String> = Vec::new();
    out.push(config.tool("opencode"));
    match runtime {
        Some(known) => {
            match &known.opencode_session_id {
                Some(id) => {
                    out.push(owned("attach"));
                    out.push(known.server_url.clone());
                    out.push(owned("--dir"));
                    out.push(session.path.clone());
                    out.push(owned("--session"));
                    out.push(id.clone());
                },
                None => {},
            }
        },
        None => {},
    }
    assert(crate::text::texts(out@) =~= agent_words(
        config,
        session.path@,
        match runtime {
            Some(known) => Some(*known),
            None => None,
        },
    ));
    out
}

/// Whether a word asks for a prompt to be filled in.
pub open spec fn wants_prompt(words: Seq<Seq<char>>) -> bool {
    exists|i: int| 0 <= i < words.len() && crate::text::has_text(#[trigger] words[i], "{prompt"@)
}

/// The command that starts the agent in its window, or why there is none.
pub open spec fn shell_command(config: &Config, words: Seq<Seq<char>>) -> Result<
    Seq<char>,
    Seq<char>,
> {
    if words.len() == 0 {
        Err("agent '"@ + config.default_agent@ + "' has an empty command"@)
    } else if wants_prompt(words) {
        Err(
            "agent '"@ + config.default_agent@
                + "' command contains a prompt placeholder; configure an interactive command for tmux attach"@,
        )
    } else {
        Ok(crate::text::joined(crate::shell::quoted_all(words), seq![' ']))
    }
}

/// The view of a result with texts on both sides.
pub open spec fn text_result(r: Result<String, String>) -> Result<Seq<char>, Seq<char>> {
    match r {
        Ok(value) => Ok(value@),
        Err(error) => Err(error@),
    }
}

/// The command that starts the agent in its window. An empty command is refused,
/// and so is one that wants a prompt, since the window is interactive.
pub fn agent_shell_command(
    config: &Config,
    session: &Session,
    runtime: Option<&OpencodeRuntime>,
) -> (r: Result<String, String>)
    ensures
        text_result(r) == shell_command(
            config,
            agent_words(
                config,
                session.path@,
                match runtime {
                    Some(known) => Some(*known),
                    None => None,
                },
            ),
        ),
{
    let argv: Vec<String> = interactive_agent_argv(config, session, runtime);
    let ghost words = crate::text::texts(argv@);
    if argv.len() == 0 {
        return Err(join3("agent '", config.default_agent.as_str(), "' has an empty command"));
    }
    let mut i: usize = 0;
    while i < argv.len()
        invariant
            i <= argv.len(),
            words == crate::text::texts(argv@),
            argv.len() > 0,
            words == agent_words(
                config,
                session.path@,
                match runtime {
                    Some(known) => Some(*known),
                    None => None,
                },
            ),
            forall|k: int| 0 <= k < i ==> !crate::text::has_text(#[trigger] words[k], "{prompt"@),
        decreases argv.len() - i,
    {
        if contains(argv[i].as_str(), "{prompt") {
            assert(crate::text::has_text(words[i as int], "{prompt"@));
            return Err(
                join3(
                    "agent '",
                    config.default_agent.as_str(),
                    "' command contains a prompt placeholder; configure an interactive command for tmux attach",
                ),
            );
        }
        i += 1;
    }
    assert(!wants_prompt(words));
    Ok(command_line(&argv))
}

} // verus!
