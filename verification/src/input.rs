//! Keys, and how a run of key presses becomes dashboard commands.
use vstd::prelude::*;

verus! {

/// A key.
#[derive(Clone, Copy, Debug, PartialEq, Eq, Structural)]
pub enum KeyCode {
    Char(char),
    Enter,
    Esc,
    Backspace,
    Tab,
    BackTab,
    Up,
    Down,
    Left,
    Right,
    Home,
    End,
    Delete,
    Unnamed,
}

/// Whether a key was pressed, is held down, or was let go.
#[derive(Clone, Copy, Debug, PartialEq, Eq, Structural)]
pub enum KeyEventKind {
    Press,
    Repeat,
    Release,
}

/// The modifier keys that were held.
#[derive(Clone, Copy, Debug, PartialEq, Eq, Structural)]
pub struct KeyModifiers {
    pub shift: bool,
    pub control: bool,
    pub alt: bool,
}

impl KeyModifiers {
    /// No modifier.
    pub fn none() -> (r: Self)
        ensures
            r == (KeyModifiers { shift: false, control: false, alt: false }),
    {
        KeyModifiers { shift: false, control: false, alt: false }
    }

    /// Shift alone.
    pub fn shift() -> (r: Self)
        ensures
            r == (KeyModifiers { shift: true, control: false, alt: false }),
    {
        KeyModifiers { shift: true, control: false, alt: false }
    }

    /// Control alone.
    pub fn control() -> (r: Self)
        ensures
            r == (KeyModifiers { shift: false, control: true, alt: false }),
    {
        KeyModifiers { shift: false, control: true, alt: false }
    }
}

/// A key event of the terminal.
#[derive(Clone, Copy, Debug, PartialEq, Eq, Structural)]
pub struct KeyEvent {
    pub code: KeyCode,
    pub modifiers: KeyModifiers,
    pub kind: KeyEventKind,
}

impl KeyEvent {
    /// A press of a key.
    pub fn new(code: KeyCode, modifiers: KeyModifiers) -> (r: Self)
        ensures
            r == (KeyEvent { code, modifiers, kind: KeyEventKind::Press }),
    {
        KeyEvent { code, modifiers, kind: KeyEventKind::Press }
    }

    /// Whether neither control nor alt was held.
    pub open spec fn is_plain(self) -> bool {
        !self.modifiers.control && !self.modifiers.alt
    }

    /// Whether the key ends a dialog: escape, or control and `c`.
    pub open spec fn is_cancel(self) -> bool {
        self.code == KeyCode::Esc || (self.code == KeyCode::Char('c') && self.modifiers.control)
    }

    /// The character that a plain key types, unless it is a control character.
    pub open spec fn typed(self) -> Option<char> {
        match self.code {
            KeyCode::Char(c) => if self.is_plain() && !crate::text::is_control(c) {
                Some(c)
            } else {
                None
            },
            _ => None,
        }
    }
}

/// Whether neither control nor alt was held.
pub fn plain_key(event: KeyEvent) -> (r: bool)
    ensures
        r == event.is_plain(),
{
    !event.modifiers.control && !event.modifiers.alt
}

/// Whether control was held.
pub fn ctrl_key(event: KeyEvent) -> (r: bool)
    ensures
        r == event.modifiers.control,
{
    event.modifiers.control
}

/// Whether the key ends a dialog.
pub fn cancel_key(event: KeyEvent) -> (r: bool)
    ensures
        r == event.is_cancel(),
{
    match event.code {
        KeyCode::Esc => true,
        KeyCode::Char(c) => c == 'c' && event.modifiers.control,
        _ => false,
    }
}

/// The character that a plain key types.
pub fn typed_char(event: KeyEvent) -> (r: Option<char>)
    ensures
        r == event.typed(),
{
    match event.code {
        KeyCode::Char(c) => {
            if plain_key(event) && !crate::text::control(c) {
                Some(c)
            } else {
                None
            }
        },
        _ => None,
    }
}

/// A command that the dashboard understands.
#[derive(Clone, Copy, Debug, PartialEq, Eq, Structural)]
pub enum DashboardCommand {
    Up,
    Down,
    Left,
    Right,
    FocusNext,
    FocusPrevious,
    FocusMain,
    FocusStatus,
    FocusRepos,
    FocusWorktrees,
    FocusMerges,
    Bottom,
    G,
    PreviousBlock,
    NextBlock,
    PreviousView,
    NextView,
    Leader,
    LeaderGit,
    LeaderWorkflow,
    OpenTmuxSession,
    WorkflowLauncher,
    WorkflowAi,
    WorkflowPauseResume,
    WorkflowRetry,
    Configuration,
    LazyGit,
    OpenPr,
    OpenDevelopmentUrl,
    WorktrunkLogs,
    SubmitReview,
    Terminal,
    Help,
    Refresh,
    VisibilityUp,
    VisibilityDown,
    RepoShortcut(char),
    OpenRemotePrs,
    Push,
    Merge,
    CiFix,
    ReviewFix,
    ResolveAllComments,
    PullDefault,
    Create,
    AbortOpencode,
    Delete,
    Unarchive,
    MigrateHarness,
    DeletePermanent,
    Search,
    Quit,
    Other,
}

/// Where the reader of a key sequence stands.
#[derive(Clone, Copy, Debug, PartialEq, Eq, Structural)]
pub enum KeyInputState {
    Normal,
    Leader,
    LeaderG,
    LeaderWorkflow,
}

/// The command of a plain character outside a leader sequence.
pub open spec fn char_command(c: char) -> DashboardCommand {
    if c == 'q' {
        DashboardCommand::Quit
    } else if c == ' ' {
        DashboardCommand::Leader
    } else if c == 'k' {
        DashboardCommand::Up
    } else if c == 'j' {
        DashboardCommand::Down
    } else if c == 'h' {
        DashboardCommand::Left
    } else if c == 'l' {
        DashboardCommand::Right
    } else if c == 'G' {
        DashboardCommand::Bottom
    } else if c == 'g' {
        DashboardCommand::G
    } else if c == '{' {
        DashboardCommand::PreviousBlock
    } else if c == '}' {
        DashboardCommand::NextBlock
    } else if c == '[' {
        DashboardCommand::PreviousView
    } else if c == ']' {
        DashboardCommand::NextView
    } else if c == 'r' {
        DashboardCommand::Refresh
    } else if c == 'o' {
        DashboardCommand::OpenDevelopmentUrl
    } else if c == 'L' {
        DashboardCommand::WorktrunkLogs
    } else if c == '>' {
        DashboardCommand::VisibilityUp
    } else if c == '<' {
        DashboardCommand::VisibilityDown
    } else if c == '0' {
        DashboardCommand::FocusMain
    } else if c == '1' {
        DashboardCommand::FocusStatus
    } else if c == '2' {
        DashboardCommand::FocusRepos
    } else if c == '3' {
        DashboardCommand::FocusWorktrees
    } else if c == 'p' {
        DashboardCommand::PullDefault
    } else if c == 'W' {
        DashboardCommand::WorkflowLauncher
    } else if c == 'u' {
        DashboardCommand::WorkflowPauseResume
    } else if c == 'f' {
        DashboardCommand::WorkflowRetry
    } else if c == 'c' {
        DashboardCommand::Create
    } else if c == 'x' {
        DashboardCommand::AbortOpencode
    } else if c == 'X' {
        DashboardCommand::DeletePermanent
    } else if c == 'C' {
        DashboardCommand::OpenRemotePrs
    } else if c == 'D' {
        DashboardCommand::Delete
    } else if c == 'U' {
        DashboardCommand::Unarchive
    } else if c == 'M' {
        DashboardCommand::MigrateHarness
    } else if c == '?' {
        DashboardCommand::Help
    } else if c == '/' {
        DashboardCommand::Search
    } else {
        DashboardCommand::Other
    }
}

/// The command of a key outside a leader sequence. Control and `c`, in either
/// case, quits; control and a slash or an underscore opens a terminal.
pub open spec fn normal_command(event: KeyEvent) -> DashboardCommand {
    match event.code {
        KeyCode::Char(c) => if event.modifiers.control && (c == 'c' || c == 'C') {
            DashboardCommand::Quit
        } else if event.modifiers.control && (c == '/' || c == '_') {
            DashboardCommand::Terminal
        } else if event.is_plain() {
            char_command(c)
        } else {
            DashboardCommand::Other
        },
        KeyCode::Tab => DashboardCommand::FocusNext,
        KeyCode::BackTab => DashboardCommand::FocusPrevious,
        KeyCode::Enter => DashboardCommand::OpenTmuxSession,
        KeyCode::Up => DashboardCommand::Up,
        KeyCode::Down => DashboardCommand::Down,
        KeyCode::Left => DashboardCommand::Left,
        KeyCode::Right => DashboardCommand::Right,
        _ => DashboardCommand::Other,
    }
}

/// The command of a key after the leader key.
pub open spec fn leader_command(event: KeyEvent) -> DashboardCommand {
    match event.code {
        KeyCode::Enter => DashboardCommand::Terminal,
        KeyCode::Char(c) => if !event.is_plain() {
            DashboardCommand::Other
        } else if c == ' ' {
            DashboardCommand::OpenTmuxSession
        } else if c == 'w' {
            DashboardCommand::LeaderWorkflow
        } else if c == 'c' {
            DashboardCommand::Configuration
        } else if c == 'g' {
            DashboardCommand::LeaderGit
        } else if '1' <= c && c <= '9' {
            DashboardCommand::RepoShortcut(c)
        } else {
            DashboardCommand::Other
        },
        _ => DashboardCommand::Other,
    }
}

/// The command of a key after the leader key and `w`.
pub open spec fn workflow_command(event: KeyEvent) -> DashboardCommand {
    match event.code {
        KeyCode::Char(c) => if event.is_plain() && c == 'a' {
            DashboardCommand::WorkflowAi
        } else if event.is_plain() && c == 'w' {
            DashboardCommand::WorkflowLauncher
        } else {
            DashboardCommand::Other
        },
        _ => DashboardCommand::Other,
    }
}

/// The command of a key after the leader key and `g`.
pub open spec fn git_command(event: KeyEvent) -> DashboardCommand {
    match event.code {
        KeyCode::Char(c) => if !event.is_plain() {
            DashboardCommand::Other
        } else if c == 'g' {
            DashboardCommand::LazyGit
        } else if c == 'o' {
            DashboardCommand::OpenPr
        } else if c == 'v' {
            DashboardCommand::SubmitReview
        } else if c == 'P' {
            DashboardCommand::Push
        } else if c == 'M' {
            DashboardCommand::Merge
        } else if c == 'c' {
            DashboardCommand::CiFix
        } else if c == 'f' {
            DashboardCommand::ReviewFix
        } else if c == 'R' {
            DashboardCommand::ResolveAllComments
        } else if c == 'p' {
            DashboardCommand::PullDefault
        } else {
            DashboardCommand::Other
        },
        _ => DashboardCommand::Other,
    }
}

/// The command of a key press.
pub open spec fn command_of(state: KeyInputState, event: KeyEvent) -> DashboardCommand {
    match state {
        KeyInputState::Normal => normal_command(event),
        KeyInputState::Leader => leader_command(event),
        KeyInputState::LeaderG => git_command(event),
        KeyInputState::LeaderWorkflow => workflow_command(event),
    }
}

/// Where the reader stands after a command: inside a leader sequence exactly while
/// one is under way.
pub open spec fn state_after(command: DashboardCommand) -> KeyInputState {
    match command {
        DashboardCommand::Leader => KeyInputState::Leader,
        DashboardCommand::LeaderGit => KeyInputState::LeaderG,
        DashboardCommand::LeaderWorkflow => KeyInputState::LeaderWorkflow,
        _ => KeyInputState::Normal,
    }
}

/// Reads key events and turns them into commands.
pub struct KeyInput {
    state: KeyInputState,
}

impl Default for KeyInput {
    fn default() -> (r: Self)
        ensures
            r@ == KeyInputState::Normal,
    {
        KeyInput { state: KeyInputState::Normal }
    }
}

impl KeyInput {
    /// Where the reader stands.
    pub closed spec fn view(&self) -> KeyInputState {
        self.state
    }

    /// The command of a key event. Only a press gives one; any other event leaves
    /// the reader where it stands.
    pub fn map_event(&mut self, event: KeyEvent) -> (r: Option<DashboardCommand>)
        ensures
            event.kind != KeyEventKind::Press ==> r is None && final(self)@ == old(self)@,
            event.kind == KeyEventKind::Press ==> r == Some(command_of(old(self)@, event))
                && final(self)@ == state_after(command_of(old(self)@, event)),
    {
        match event.kind {
            KeyEventKind::Press => {},
            _ => {
                return None;
            },
        }
        let command: DashboardCommand = match self.state {
            KeyInputState::Normal => map_normal(event),
            KeyInputState::Leader => map_leader(event),
            KeyInputState::LeaderG => map_leader_git(event),
            KeyInputState::LeaderWorkflow => map_leader_workflow(event),
        };
        self.state = match command {
            DashboardCommand::Leader => KeyInputState::Leader,
            DashboardCommand::LeaderGit => KeyInputState::LeaderG,
            DashboardCommand::LeaderWorkflow => KeyInputState::LeaderWorkflow,
            _ => KeyInputState::Normal,
        };
        Some(command)
    }
}

fn map_char(c: char) -> (r: DashboardCommand)
    ensures
        r == char_command(c),
{
    match c {
        'q' => DashboardCommand::Quit,
        ' ' => DashboardCommand::Leader,
        'k' => DashboardCommand::Up,
        'j' => DashboardCommand::Down,
        'h' => DashboardCommand::Left,
        'l' => DashboardCommand::Right,
        'G' => DashboardCommand::Bottom,
        'g' => DashboardCommand::G,
        '{' => DashboardCommand::PreviousBlock,
        '}' => DashboardCommand::NextBlock,
        '[' => DashboardCommand::PreviousView,
        ']' => DashboardCommand::NextView,
        'r' => DashboardCommand::Refresh,
        'o' => DashboardCommand::OpenDevelopmentUrl,
        'L' => DashboardCommand::WorktrunkLogs,
        '>' => DashboardCommand::VisibilityUp,
        '<' => DashboardCommand::VisibilityDown,
        '0' => DashboardCommand::FocusMain,
        '1' => DashboardCommand::FocusStatus,
        '2' => DashboardCommand::FocusRepos,
        '3' => DashboardCommand::FocusWorktrees,
        'p' => DashboardCommand::PullDefault,
        'W' => DashboardCommand::WorkflowLauncher,
        'u' => DashboardCommand::WorkflowPauseResume,
        'f' => DashboardCommand::WorkflowRetry,
        'c' => DashboardCommand::Create,
        'x' => DashboardCommand::AbortOpencode,
        'X' => DashboardCommand::DeletePermanent,
        'C' => DashboardCommand::OpenRemotePrs,
        'D' => DashboardCommand::Delete,
        'U' => DashboardCommand::Unarchive,
        'M' => DashboardCommand::MigrateHarness,
        '?' => DashboardCommand::Help,
        '/' => DashboardCommand::Search,
        _ => DashboardCommand::Other,
    }
}

fn map_normal(event: KeyEvent) -> (r: DashboardCommand)
    ensures
        r == normal_command(event),
{
    match event.code {
        KeyCode::Char(c) => {
            if ctrl_key(event) && (c == 'c' || c == 'C') {
                DashboardCommand::Quit
            } else if ctrl_key(event) && (c == '/' || c == '_') {
                DashboardCommand::Terminal
            } else if plain_key(event) {
                map_char(c)
            } else {
                DashboardCommand::Other
            }
        },
        KeyCode::Tab => DashboardCommand::FocusNext,
        KeyCode::BackTab => DashboardCommand::FocusPrevious,
        KeyCode::Enter => DashboardCommand::OpenTmuxSession,
        KeyCode::Up => DashboardCommand::Up,
        KeyCode::Down => DashboardCommand::Down,
        KeyCode::Left => DashboardCommand::Left,
        KeyCode::Right => DashboardCommand::Right,
        _ => DashboardCommand::Other,
    }
}

fn map_leader(event: KeyEvent) -> (r: DashboardCommand)
    ensures
        r == leader_command(event),
{
    match event.code {
        KeyCode::Enter => DashboardCommand::Terminal,
        KeyCode::Char(c) => {
            if !plain_key(event) {
                DashboardCommand::Other
            } else if c == ' ' {
                DashboardCommand::OpenTmuxSession
            } else if c == 'w' {
                DashboardCommand::LeaderWorkflow
            } else if c == 'c' {
                DashboardCommand::Configuration
            } else if c == 'g' {
                DashboardCommand::LeaderGit
            } else if '1' <= c && c <= '9' {
                DashboardCommand::RepoShortcut(c)
            } else {
                DashboardCommand::Other
            }
        },
        _ => DashboardCommand::Other,
    }
}

fn map_leader_workflow(event: KeyEvent) -> (r: DashboardCommand)
    ensures
        r == workflow_command(event),
{
    match event.code {
        KeyCode::Char(c) => {
            if plain_key(event) && c == 'a' {
                DashboardCommand::WorkflowAi
            } else if plain_key(event) && c == 'w' {
                DashboardCommand::WorkflowLauncher
            } else {
                DashboardCommand::Other
            }
        },
        _ => DashboardCommand::Other,
    }
}

fn map_leader_git(event: KeyEvent) -> (r: DashboardCommand)
    ensures
        r == git_command(event),
{
    match event.code {
        KeyCode::Char(c) => {
            if !plain_key(event) {
                return DashboardCommand::Other;
            }
            match c {
                'g' => DashboardCommand::LazyGit,
                'o' => DashboardCommand::OpenPr,
                'v' => DashboardCommand::SubmitReview,
                'P' => DashboardCommand::Push,
                'M' => DashboardCommand::Merge,
                'c' => DashboardCommand::CiFix,
                'f' => DashboardCommand::ReviewFix,
                'R' => DashboardCommand::ResolveAllComments,
                'p' => DashboardCommand::PullDefault,
                _ => DashboardCommand::Other,
            }
        },
        _ => DashboardCommand::Other,
    }
}

/// The state of the reader after a run of key presses.
pub open spec fn state_after_all(state: KeyInputState, events: Seq<KeyEvent>) -> KeyInputState
    decreases events.len(),
{
    if events.len() == 0 {
        state
    } else {
        let before = state_after_all(state, events.drop_last());
        if events.last().kind == KeyEventKind::Press {
            state_after(command_of(before, events.last()))
        } else {
            before
        }
    }
}

/// A leader sequence is never longer than three keys: whatever is pressed, the
/// reader is back outside a sequence at one of the next three presses.
pub proof fn law_leader_sequences_end(
    state: KeyInputState,
    first: KeyEvent,
    second: KeyEvent,
    third: KeyEvent,
)
    requires
        first.kind == KeyEventKind::Press,
        second.kind == KeyEventKind::Press,
        third.kind == KeyEventKind::Press,
    ensures
        ({
            let one = state_after(command_of(state, first));
            let two = state_after(command_of(one, second));
            let three = state_after(command_of(two, third));
            one == KeyInputState::Normal || two == KeyInputState::Normal || three
                == KeyInputState::Normal
        }),
{
}

/// A key that a leader sequence does not know ends the sequence and does nothing
/// else.
pub proof fn law_unknown_key_cancels_a_leader_sequence(state: KeyInputState, event: KeyEvent)
    requires
        command_of(state, event) == DashboardCommand::Other,
    ensures
        state_after(command_of(state, event)) == KeyInputState::Normal,
{
}

/// Events other than presses change nothing, however many there are.
pub proof fn law_only_presses_count(state: KeyInputState, events: Seq<KeyEvent>)
    requires
        forall|i: int|
            0 <= i < events.len() ==> (#[trigger] events[i]).kind != KeyEventKind::Press,
    ensures
        state_after_all(state, events) == state,
    decreases events.len(),
{
    if events.len() > 0 {
        let init = events.drop_last();
        assert forall|i: int| 0 <= i < init.len() implies (#[trigger] init[i]).kind
            != KeyEventKind::Press by {
            assert(init[i] == events[i]);
        }
        law_only_presses_count(state, init);
        assert(events.last() == events[events.len() - 1]);
    }
}

} // verus!
