use ascii_3d::input::AppCommand;
use ascii_3d::menu::MenuKind;
use ascii_3d::navigation::ControlMode;
use ascii_3d::terminal_commands::{CommandOutcome, TerminalState};
use ascii_3d::terminal_state::{scene_footer, scene_header};

fn console_lines(state: &TerminalState) -> Vec<String> {
    state.console.popup_lines().unwrap_or_default()
}

#[test]
fn quit_asks_for_confirmation_and_closes_the_menu() {
    let mut state = TerminalState::new();
    state.menus.open_menu(MenuKind::File, ControlMode::Scene);

    let outcome = state.run_command(AppCommand::Quit, Vec::new());

    assert_eq!(outcome, CommandOutcome::Handled);
    assert!(state.confirm_exit);
    assert!(state.menus.active.is_none());
    assert!(state.file_picker.is_none());
}

#[test]
fn toggling_the_control_mode_notes_it_in_the_console() {
    let mut state = TerminalState::new();
    let shown = state.run_command(AppCommand::ToggleDebugConsole, vec![String::from("world: empty")]);
    assert_eq!(shown, CommandOutcome::Handled);
    assert!(state.console.is_visible());

    state.run_command(AppCommand::ToggleControlMode, Vec::new());

    assert_eq!(state.control_mode, ControlMode::Camera);
    let lines = console_lines(&state);
    assert!(lines.iter().any(|line| line == "world: empty"));
    assert!(lines.iter().any(|line| line == "debug console: shown"));
    assert_eq!(lines.last().map(String::as_str), Some("control mode: Camera"));
}

#[test]
fn setting_a_control_mode_closes_the_menu() {
    let mut state = TerminalState::new();
    state.menus.open_menu(MenuKind::Control, ControlMode::Scene);

    let outcome = state.run_command(AppCommand::SetControlModeLight, Vec::new());

    assert_eq!(outcome, CommandOutcome::Handled);
    assert_eq!(state.control_mode, ControlMode::Light);
    assert!(state.menus.active.is_none());
}

#[test]
fn taking_the_control_row_it_opens_on_keeps_the_mode() {
    let mut state = TerminalState::new();
    state.run_command(AppCommand::ToggleControlMode, Vec::new());
    assert_eq!(state.control_mode, ControlMode::Camera);

    let opened = state.run_command(AppCommand::OpenMenu(MenuKind::Control), Vec::new());
    assert_eq!(opened, CommandOutcome::Handled);
    let taken = state.run_command(AppCommand::MenuSelect, Vec::new());

    assert_eq!(taken, CommandOutcome::Handled);
    assert_eq!(state.control_mode, ControlMode::Camera);
    assert!(state.menus.active.is_none());
}

#[test]
fn taking_a_row_with_no_menu_open_is_ignored() {
    let mut state = TerminalState::new();
    assert_eq!(state.run_command(AppCommand::MenuSelect, Vec::new()), CommandOutcome::Ignored);
    assert!(state.menus.active.is_none());
}

#[test]
fn the_scene_browser_opens_on_the_scene_shown() {
    let mut state = TerminalState::new();
    state.scene_browser.position = 3;
    state.menus.open_menu(MenuKind::Scenes, ControlMode::Scene);

    state.run_command(AppCommand::OpenSceneBrowser, Vec::new());

    assert!(state.scene_browser.open);
    assert_eq!(state.scene_browser.selected, 3);
    assert!(state.menus.active.is_none());
}

#[test]
fn stroke_steps_undo_each_other() {
    let mut state = TerminalState::new();
    state.run_command(AppCommand::NextGlyphStroke, Vec::new());
    assert_eq!(state.glyph_stroke.character(), '+');
    state.run_command(AppCommand::PreviousGlyphStroke, Vec::new());
    assert_eq!(state.glyph_stroke.character(), '*');
    state.run_command(AppCommand::PreviousGlyphStroke, Vec::new());
    assert_eq!(state.glyph_stroke.character(), '░');
}

#[test]
fn frame_timing_toggles_and_closes_the_menu() {
    let mut state = TerminalState::new();
    state.menus.open_menu(MenuKind::Debug, ControlMode::Scene);
    state.run_command(AppCommand::ToggleFrameTiming, Vec::new());
    assert!(state.frame_timing_shown);
    assert!(state.menus.active.is_none());
}

#[test]
fn world_commands_go_back_to_the_front_end() {
    let mut state = TerminalState::new();
    let outcome = state.run_command(AppCommand::MoveCameraForward, Vec::new());
    assert_eq!(outcome, CommandOutcome::ForFrontEnd(AppCommand::MoveCameraForward));
    assert!(!state.confirm_exit);
    assert_eq!(state.control_mode, ControlMode::Scene);
}

#[test]
fn scene_frame_header_and_footer() {
    assert_eq!(scene_header("Axes"), "Scene: Axes");
    assert_eq!(
        scene_footer(0, 27, "Axes", ControlMode::Scene, '*', None, None),
        "[1/27] Axes | Mode: World | Glyph '*' | Menu: closed | Event: none | h help | Esc quit"
    );
    assert_eq!(
        scene_footer(9, 12, "Box", ControlMode::Light, '#', Some(MenuKind::Control), Some("key x")),
        "[10/12] Box | Mode: Light | Glyph '#' | Menu: Control | Event: key x | h help | Esc quit"
    );
}
