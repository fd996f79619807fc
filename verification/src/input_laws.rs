//! Which keys give which commands.
use vstd::prelude::*;

use crate::input::command_of;
use crate::input::state_after;
use crate::input::DashboardCommand;
use crate::input::KeyCode;
use crate::input::KeyEvent;
use crate::input::KeyInputState;

verus! {

/// Whether a key is a character that neither Control nor Alt was held down with.
pub open spec fn is_letter(event: KeyEvent, c: char) -> bool {
    event.code == KeyCode::Char(c) && !event.modifiers.control && !event.modifiers.alt
}

/// Whether a key is a character that Control was held down with.
pub open spec fn is_control_letter(event: KeyEvent, c: char) -> bool {
    event.code == KeyCode::Char(c) && event.modifiers.control
}

/// Outside a sequence each command has its key, and comes from no other.
pub proof fn law_keys_of_commands(event: KeyEvent)
    ensures
        ({
            let command = command_of(KeyInputState::Normal, event);
            &&& command == DashboardCommand::Quit <==> is_letter(event, 'q') || is_control_letter(
                event,
                'c',
            ) || is_control_letter(event, 'C')
            &&& command == DashboardCommand::Terminal <==> is_control_letter(event, '/')
                || is_control_letter(event, '_')
            &&& command == DashboardCommand::FocusNext <==> event.code == KeyCode::Tab
            &&& command == DashboardCommand::FocusPrevious <==> event.code == KeyCode::BackTab
            &&& command == DashboardCommand::OpenTmuxSession <==> event.code == KeyCode::Enter
            &&& command == DashboardCommand::Up <==> event.code == KeyCode::Up
                || is_letter(event, 'k')
            &&& command == DashboardCommand::Down <==> event.code == KeyCode::Down
                || is_letter(event, 'j')
            &&& command == DashboardCommand::Left <==> event.code == KeyCode::Left
                || is_letter(event, 'h')
            &&& command == DashboardCommand::Right <==> event.code == KeyCode::Right
                || is_letter(event, 'l')
            &&& command == DashboardCommand::Bottom <==> is_letter(event, 'G')
            &&& command == DashboardCommand::G <==> is_letter(event, 'g')
            &&& command == DashboardCommand::PreviousBlock <==> is_letter(event, '{')
            &&& command == DashboardCommand::NextBlock <==> is_letter(event, '}')
            &&& command == DashboardCommand::PreviousView <==> is_letter(event, '[')
            &&& command == DashboardCommand::NextView <==> is_letter(event, ']')
            &&& command == DashboardCommand::Refresh <==> is_letter(event, 'r')
            &&& command == DashboardCommand::OpenDevelopmentUrl <==> is_letter(event, 'o')
            &&& command == DashboardCommand::WorktrunkLogs <==> is_letter(event, 'L')
            &&& command == DashboardCommand::VisibilityUp <==> is_letter(event, '>')
            &&& command == DashboardCommand::VisibilityDown <==> is_letter(event, '<')
            &&& command == DashboardCommand::FocusMain <==> is_letter(event, '0')
            &&& command == DashboardCommand::FocusStatus <==> is_letter(event, '1')
            &&& command == DashboardCommand::FocusRepos <==> is_letter(event, '2')
            &&& command == DashboardCommand::FocusWorktrees <==> is_letter(event, '3')
            &&& command == DashboardCommand::PullDefault <==> is_letter(event, 'p')
            &&& command == DashboardCommand::WorkflowLauncher <==> is_letter(event, 'W')
            &&& command == DashboardCommand::WorkflowPauseResume <==> is_letter(event, 'u')
            &&& command == DashboardCommand::WorkflowRetry <==> is_letter(event, 'f')
            &&& command == DashboardCommand::Create <==> is_letter(event, 'c')
            &&& command == DashboardCommand::AbortOpencode <==> is_letter(event, 'x')
            &&& command == DashboardCommand::DeletePermanent <==> is_letter(event, 'X')
            &&& command == DashboardCommand::OpenRemotePrs <==> is_letter(event, 'C')
            &&& command == DashboardCommand::Delete <==> is_letter(event, 'D')
            &&& command == DashboardCommand::Unarchive <==> is_letter(event, 'U')
            &&& command == DashboardCommand::MigrateHarness <==> is_letter(event, 'M')
            &&& command == DashboardCommand::Help <==> is_letter(event, '?')
            &&& command == DashboardCommand::Search <==> is_letter(event, '/')
            &&& command == DashboardCommand::Leader <==> is_letter(event, ' ')
        }),
{
}

/// After the leader key a key gives the command that the leader menu shows for it, and any
/// other key gives none.
pub proof fn law_keys_after_the_leader(event: KeyEvent)
    ensures
        ({
            let command = command_of(KeyInputState::Leader, event);
            &&& command == DashboardCommand::Terminal <==> event.code == KeyCode::Enter
            &&& command == DashboardCommand::OpenTmuxSession <==> is_letter(event, ' ')
            &&& command == DashboardCommand::LeaderWorkflow <==> is_letter(event, 'w')
            &&& command == DashboardCommand::Configuration <==> is_letter(event, 'c')
            &&& command == DashboardCommand::LeaderGit <==> is_letter(event, 'g')
            &&& forall|c: char|
                '1' <= c <= '9' ==> (command == DashboardCommand::RepoShortcut(c) <==> #[trigger] is_letter(
                    event,
                    c,
                ))
            &&& event.code != KeyCode::Enter && (forall|c: char|
                #[trigger] is_letter(event, c) ==> c != ' ' && c != 'w' && c != 'c' && c != 'g' && (
                c < '1' || '9' < c)) ==> command == DashboardCommand::Other
        }),
{
    if let KeyCode::Char(c) = event.code {
        assert(is_letter(event, c) == event.is_plain());
    }
}

/// In the menu of git each key gives its command, and any other key gives none.
pub proof fn law_keys_of_git_commands(event: KeyEvent)
    ensures
        ({
            let command = command_of(KeyInputState::LeaderG, event);
            &&& command == DashboardCommand::LazyGit <==> is_letter(event, 'g')
            &&& command == DashboardCommand::OpenPr <==> is_letter(event, 'o')
            &&& command == DashboardCommand::SubmitReview <==> is_letter(event, 'v')
            &&& command == DashboardCommand::Push <==> is_letter(event, 'P')
            &&& command == DashboardCommand::Merge <==> is_letter(event, 'M')
            &&& command == DashboardCommand::CiFix <==> is_letter(event, 'c')
            &&& command == DashboardCommand::ReviewFix <==> is_letter(event, 'f')
            &&& command == DashboardCommand::ResolveAllComments <==> is_letter(event, 'R')
            &&& command == DashboardCommand::PullDefault <==> is_letter(event, 'p')
            &&& command == DashboardCommand::Other <==> !(is_letter(event, 'g')
                || is_letter(event, 'o') || is_letter(event, 'v') || is_letter(event, 'P')
                || is_letter(event, 'M') || is_letter(event, 'c') || is_letter(event, 'f')
                || is_letter(event, 'R') || is_letter(event, 'p'))
        }),
{
}

/// In the menu of Workflows each key gives its command, and any other key gives none.
pub proof fn law_keys_of_workflow_commands(event: KeyEvent)
    ensures
        ({
            let command = command_of(KeyInputState::LeaderWorkflow, event);
            &&& command == DashboardCommand::WorkflowAi <==> is_letter(event, 'a')
            &&& command == DashboardCommand::WorkflowLauncher <==> is_letter(event, 'w')
            &&& command == DashboardCommand::Other <==> !is_letter(event, 'a') && !is_letter(
                event,
                'w',
            )
        }),
{
}

/// A sequence goes on where a key opens a menu, and is over after any other key.
pub proof fn law_sequences(command: DashboardCommand)
    ensures
        state_after(command) == KeyInputState::Leader <==> command == DashboardCommand::Leader,
        state_after(command) == KeyInputState::LeaderG <==> command == DashboardCommand::LeaderGit,
        state_after(command) == KeyInputState::LeaderWorkflow <==> command
            == DashboardCommand::LeaderWorkflow,
{
}

/// The leader key, the key of the git menu and `P` push, and no other third key does.
pub proof fn law_git_commands_take_three_keys(first: KeyEvent, second: KeyEvent, third: KeyEvent)
    requires
        is_letter(first, ' '),
        is_letter(second, 'g'),
    ensures
        ({
            let one = state_after(command_of(KeyInputState::Normal, first));
            let two = state_after(command_of(one, second));
            command_of(two, third) == DashboardCommand::Push <==> is_letter(third, 'P')
        }),
{
}

/// A character is typed where neither Control nor Alt is held down and it is no control
/// character; Esc and Control-C cancel.
pub proof fn law_typed_characters(event: KeyEvent, c: char)
    ensures
        event.typed() == Some(c) <==> is_letter(event, c) && !crate::text::is_control(c),
        event.is_plain() <==> !event.modifiers.control && !event.modifiers.alt,
        event.is_cancel() <==> event.code == KeyCode::Esc || is_control_letter(event, 'c'),
        event.is_cancel() ==> event.typed() is None,
{
}

/// Control characters are those below the space, the delete character and those that follow
/// it.
pub proof fn law_control_characters(c: char)
    ensures
        crate::text::is_control(c) <==> (c as u32) < 32 || 127 <= (c as u32) < 160,
{
}

} // verus!
