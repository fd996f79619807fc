use prism::input::DashboardCommand;
use prism::input::KeyCode;
use prism::input::KeyEvent;
use prism::input::KeyEventKind;
use prism::input::KeyInput;
use prism::input::KeyModifiers;

fn key(code: KeyCode) -> KeyEvent {
    KeyEvent::new(code, KeyModifiers::none())
}

fn shift_key(code: KeyCode) -> KeyEvent {
    KeyEvent::new(code, KeyModifiers::shift())
}

fn ctrl_key(code: KeyCode) -> KeyEvent {
    KeyEvent::new(code, KeyModifiers::control())
}

fn map(input: &mut KeyInput, event: KeyEvent) -> DashboardCommand {
    input.map_event(event).expect("press event should map")
}

#[test]
fn key_input_handles_basic_keys() {
    let mut input = KeyInput::default();
    assert_eq!(
        map(&mut input, key(KeyCode::Char('j'))),
        DashboardCommand::Down
    );
    assert_eq!(
        map(&mut input, ctrl_key(KeyCode::Char('c'))),
        DashboardCommand::Quit
    );
}

#[test]
fn key_input_handles_horizontal_vim_motions() {
    let mut input = KeyInput::default();
    assert_eq!(
        map(&mut input, key(KeyCode::Char('h'))),
        DashboardCommand::Left
    );
    assert_eq!(
        map(&mut input, key(KeyCode::Char('l'))),
        DashboardCommand::Right
    );
    assert_eq!(map(&mut input, key(KeyCode::Left)), DashboardCommand::Left);
    assert_eq!(
        map(&mut input, key(KeyCode::Right)),
        DashboardCommand::Right
    );
}

#[test]
fn key_input_maps_brackets_to_view_switching() {
    let mut input = KeyInput::default();
    assert_eq!(
        map(&mut input, key(KeyCode::Char('['))),
        DashboardCommand::PreviousView
    );
    assert_eq!(
        map(&mut input, key(KeyCode::Char(']'))),
        DashboardCommand::NextView
    );
}

#[test]
fn key_input_uses_top_digits_for_panel_focus() {
    let mut input = KeyInput::default();
    assert_eq!(
        map(&mut input, key(KeyCode::Char('1'))),
        DashboardCommand::FocusStatus
    );
    assert_eq!(
        map(&mut input, key(KeyCode::Char('0'))),
        DashboardCommand::FocusMain
    );
    assert_eq!(
        map(&mut input, key(KeyCode::Char('2'))),
        DashboardCommand::FocusRepos
    );
    assert_eq!(
        map(&mut input, key(KeyCode::Char('3'))),
        DashboardCommand::FocusWorktrees
    );
    assert_eq!(
        map(&mut input, key(KeyCode::Tab)),
        DashboardCommand::FocusNext
    );
    assert_eq!(
        map(&mut input, key(KeyCode::Char('4'))),
        DashboardCommand::Other
    );
}

#[test]
fn key_input_uses_leader_digits_for_repo_shortcuts() {
    let mut input = KeyInput::default();
    assert_eq!(
        map(&mut input, key(KeyCode::Char(' '))),
        DashboardCommand::Leader
    );
    assert_eq!(
        map(&mut input, key(KeyCode::Char('1'))),
        DashboardCommand::RepoShortcut('1')
    );
    assert_eq!(
        map(&mut input, key(KeyCode::Char(' '))),
        DashboardCommand::Leader
    );
    assert_eq!(
        map(&mut input, key(KeyCode::Char('9'))),
        DashboardCommand::RepoShortcut('9')
    );
}

#[test]
fn key_input_quits_on_q() {
    let mut input = KeyInput::default();
    assert_eq!(
        map(&mut input, key(KeyCode::Char('q'))),
        DashboardCommand::Quit
    );
}

#[test]
fn key_input_handles_open_tmux_session_keys() {
    let mut input = KeyInput::default();
    assert_eq!(
        map(&mut input, key(KeyCode::Char('i'))),
        DashboardCommand::Other
    );
    assert_eq!(
        map(&mut input, key(KeyCode::Char(' '))),
        DashboardCommand::Leader
    );
    assert_eq!(
        map(&mut input, key(KeyCode::Char(' '))),
        DashboardCommand::OpenTmuxSession
    );
    assert_eq!(
        map(&mut input, key(KeyCode::Enter)),
        DashboardCommand::OpenTmuxSession
    );
}

#[test]
fn key_input_handles_leader_lazygit() {
    let mut input = KeyInput::default();
    assert_eq!(
        map(&mut input, key(KeyCode::Char(' '))),
        DashboardCommand::Leader
    );
    assert_eq!(
        map(&mut input, key(KeyCode::Char('g'))),
        DashboardCommand::LeaderGit
    );
    assert_eq!(
        map(&mut input, key(KeyCode::Char('g'))),
        DashboardCommand::LazyGit
    );
}

#[test]
fn key_input_maps_unified_workflow_and_configuration_surfaces() {
    let mut input = KeyInput::default();
    assert_eq!(
        map(&mut input, shift_key(KeyCode::Char('W'))),
        DashboardCommand::WorkflowLauncher
    );
    assert_eq!(
        map(&mut input, key(KeyCode::Char(' '))),
        DashboardCommand::Leader
    );
    assert_eq!(
        map(&mut input, key(KeyCode::Char('w'))),
        DashboardCommand::LeaderWorkflow
    );
    assert_eq!(
        map(&mut input, key(KeyCode::Char('a'))),
        DashboardCommand::WorkflowAi
    );
    assert_eq!(
        map(&mut input, key(KeyCode::Char(' '))),
        DashboardCommand::Leader
    );
    assert_eq!(
        map(&mut input, key(KeyCode::Char('w'))),
        DashboardCommand::LeaderWorkflow
    );
    assert_eq!(
        map(&mut input, key(KeyCode::Char('w'))),
        DashboardCommand::WorkflowLauncher
    );
    assert_eq!(
        map(&mut input, key(KeyCode::Char(' '))),
        DashboardCommand::Leader
    );
    assert_eq!(
        map(&mut input, key(KeyCode::Char('c'))),
        DashboardCommand::Configuration
    );
}

#[test]
fn key_input_handles_leader_open_pr() {
    let mut input = KeyInput::default();
    assert_eq!(
        map(&mut input, key(KeyCode::Char(' '))),
        DashboardCommand::Leader
    );
    assert_eq!(
        map(&mut input, key(KeyCode::Char('g'))),
        DashboardCommand::LeaderGit
    );
    assert_eq!(
        map(&mut input, key(KeyCode::Char('o'))),
        DashboardCommand::OpenPr
    );
}

#[test]
fn plain_o_opens_development_url_without_changing_leader_pr_action() {
    let mut input = KeyInput::default();
    assert_eq!(
        map(&mut input, key(KeyCode::Char('o'))),
        DashboardCommand::OpenDevelopmentUrl
    );
    assert_eq!(
        map(&mut input, key(KeyCode::Char(' '))),
        DashboardCommand::Leader
    );
    assert_eq!(
        map(&mut input, key(KeyCode::Char('g'))),
        DashboardCommand::LeaderGit
    );
    assert_eq!(
        map(&mut input, key(KeyCode::Char('o'))),
        DashboardCommand::OpenPr
    );
}

#[test]
fn key_input_handles_restored_git_actions() {
    let mut input = KeyInput::default();
    for (code, expected) in [
        ('P', DashboardCommand::Push),
        ('M', DashboardCommand::Merge),
        ('c', DashboardCommand::CiFix),
        ('f', DashboardCommand::ReviewFix),
    ] {
        assert_eq!(
            map(&mut input, key(KeyCode::Char(' '))),
            DashboardCommand::Leader
        );
        assert_eq!(
            map(&mut input, key(KeyCode::Char('g'))),
            DashboardCommand::LeaderGit
        );
        assert_eq!(map(&mut input, key(KeyCode::Char(code))), expected);
    }
}

#[test]
fn key_input_handles_review_resolution() {
    let mut input = KeyInput::default();
    assert_eq!(
        map(&mut input, key(KeyCode::Char(' '))),
        DashboardCommand::Leader
    );
    assert_eq!(
        map(&mut input, key(KeyCode::Char('g'))),
        DashboardCommand::LeaderGit
    );
    assert_eq!(
        map(&mut input, shift_key(KeyCode::Char('R'))),
        DashboardCommand::ResolveAllComments
    );
}

#[test]
fn key_input_handles_enter_open_tmux_session_and_help_keys() {
    let mut input = KeyInput::default();
    assert_eq!(
        map(&mut input, key(KeyCode::Enter)),
        DashboardCommand::OpenTmuxSession
    );
    assert_eq!(
        map(&mut input, shift_key(KeyCode::Char('?'))),
        DashboardCommand::Help
    );
}

#[test]
fn key_input_handles_terminal_key() {
    let mut input = KeyInput::default();
    assert_eq!(
        map(&mut input, ctrl_key(KeyCode::Char('/'))),
        DashboardCommand::Terminal
    );
    assert_eq!(
        map(&mut input, ctrl_key(KeyCode::Char('_'))),
        DashboardCommand::Terminal
    );
}

#[test]
fn key_input_handles_leader_terminal_key() {
    let mut input = KeyInput::default();
    assert_eq!(
        map(&mut input, key(KeyCode::Char(' '))),
        DashboardCommand::Leader
    );
    assert_eq!(
        map(&mut input, key(KeyCode::Enter)),
        DashboardCommand::Terminal
    );
    assert_eq!(
        map(&mut input, shift_key(KeyCode::Char('?'))),
        DashboardCommand::Help
    );
}

#[test]
fn key_input_handles_cleanup_keys() {
    let mut input = KeyInput::default();
    assert_eq!(
        map(&mut input, shift_key(KeyCode::Char('D'))),
        DashboardCommand::Delete
    );
    assert_eq!(
        map(&mut input, shift_key(KeyCode::Char('U'))),
        DashboardCommand::Unarchive
    );
    assert_eq!(
        map(&mut input, shift_key(KeyCode::Char('X'))),
        DashboardCommand::DeletePermanent
    );
    assert_eq!(
        map(&mut input, shift_key(KeyCode::Char('C'))),
        DashboardCommand::OpenRemotePrs
    );
    assert_eq!(
        map(&mut input, shift_key(KeyCode::Char('W'))),
        DashboardCommand::WorkflowLauncher
    );
    for removed in ['e', 'w', 'E', 'H', 'P'] {
        assert_eq!(
            map(&mut input, key(KeyCode::Char(removed))),
            DashboardCommand::Other
        );
    }
    assert_eq!(
        map(&mut input, shift_key(KeyCode::Char('M'))),
        DashboardCommand::MigrateHarness
    );
}

#[test]
fn key_input_uses_angle_brackets_for_visibility() {
    let mut input = KeyInput::default();
    assert_eq!(
        map(&mut input, shift_key(KeyCode::Char('+'))),
        DashboardCommand::Other
    );
    assert_eq!(
        map(&mut input, key(KeyCode::Char('-'))),
        DashboardCommand::Other
    );
    assert_eq!(
        map(&mut input, shift_key(KeyCode::Char('>'))),
        DashboardCommand::VisibilityUp
    );
    assert_eq!(
        map(&mut input, shift_key(KeyCode::Char('<'))),
        DashboardCommand::VisibilityDown
    );
}

#[test]
fn key_input_uses_lazygit_style_branch_actions() {
    let mut input = KeyInput::default();
    assert_eq!(
        map(&mut input, key(KeyCode::Char(' '))),
        DashboardCommand::Leader
    );
    assert_eq!(
        map(&mut input, key(KeyCode::Char('g'))),
        DashboardCommand::LeaderGit
    );
    assert_eq!(
        map(&mut input, shift_key(KeyCode::Char('P'))),
        DashboardCommand::Push
    );
    assert_eq!(
        map(&mut input, shift_key(KeyCode::Char('M'))),
        DashboardCommand::MigrateHarness
    );
    assert_eq!(
        map(&mut input, key(KeyCode::Char('n'))),
        DashboardCommand::Other
    );
    assert_eq!(
        map(&mut input, shift_key(KeyCode::Char('R'))),
        DashboardCommand::Other
    );
    assert_eq!(
        map(&mut input, key(KeyCode::Char('x'))),
        DashboardCommand::AbortOpencode
    );
    assert_eq!(
        map(&mut input, key(KeyCode::Char('m'))),
        DashboardCommand::Other
    );
    assert_eq!(
        map(&mut input, key(KeyCode::Char('u'))),
        DashboardCommand::WorkflowPauseResume
    );
    assert_eq!(
        map(&mut input, key(KeyCode::Char('a'))),
        DashboardCommand::Other
    );
}

#[test]
fn key_input_ignores_non_press_events() {
    let mut input = KeyInput::default();
    let event = KeyEvent {
        code: KeyCode::Char('j'),
        modifiers: KeyModifiers::none(),
        kind: KeyEventKind::Release,
    };
    assert_eq!(input.map_event(event), None);
}

#[test]
fn key_input_cancels_incomplete_leaders_on_unknown_keys() {
    let mut input = KeyInput::default();
    assert_eq!(
        map(&mut input, key(KeyCode::Char(' '))),
        DashboardCommand::Leader
    );
    assert_eq!(
        map(&mut input, key(KeyCode::Char('z'))),
        DashboardCommand::Other
    );
    assert_eq!(
        map(&mut input, key(KeyCode::Char('g'))),
        DashboardCommand::G
    );

    assert_eq!(
        map(&mut input, key(KeyCode::Char(' '))),
        DashboardCommand::Leader
    );
    assert_eq!(
        map(&mut input, key(KeyCode::Char('g'))),
        DashboardCommand::LeaderGit
    );
    assert_eq!(
        map(&mut input, key(KeyCode::Char('z'))),
        DashboardCommand::Other
    );
    assert_eq!(
        map(&mut input, key(KeyCode::Char('g'))),
        DashboardCommand::G
    );
}
