use vstd::prelude::*;

use crate::keys::KeyCode;
use crate::menu::model::MenuKind;

verus! {

/// Everything the terminal application can be asked to do.
#[derive(Debug, Clone, Copy, PartialEq, Eq, Structural)]
pub enum AppCommand {
    Quit,
    OpenA3dFilePicker,
    ReloadA3d,
    OpenWorldObjects,
    ToggleControlMode,
    SetControlModeScene,
    SetControlModeCamera,
    SetControlModeLight,
    OpenSceneBrowser,
    NextScene,
    PreviousScene,
    ResetWorldCamera,
    ResetActiveControl,
    NextGlyphStroke,
    PreviousGlyphStroke,
    OpenMenu(MenuKind),
    CloseMenu,
    MenuUp,
    MenuDown,
    MenuLeft,
    MenuRight,
    MenuSelect,
    MoveCameraForward,
    MoveCameraBackward,
    MoveCameraLeft,
    MoveCameraRight,
    MoveCameraDown,
    MoveCameraUp,
    RotateCameraLeft,
    RotateCameraRight,
    RotateCameraUp,
    RotateCameraDown,
    RotateWorldPositiveX,
    RotateWorldNegativeX,
    RotateWorldPositiveY,
    RotateWorldNegativeY,
    RotateWorldPositiveZ,
    RotateWorldNegativeZ,
    MoveWorldOriginLeft,
    MoveWorldOriginRight,
    MoveWorldOriginUp,
    MoveWorldOriginDown,
    ResetWorldAxes,
    MoveLightForward,
    MoveLightBackward,
    MoveLightLeft,
    MoveLightRight,
    MoveLightDown,
    MoveLightUp,
    ToggleCameraDebug,
    ResetCamera,
    ToggleNearPlaneDebug,
    ToggleWorldAxes,
    ToggleWorldGrid,
    NextGlyph,
    PreviousGlyph,
    SelectGlyph,
    ToggleSimulationPause,
    StepSimulation,
    ToggleDepthView,
    ToggleProjectionDebug,
    ToggleFrameTiming,
    ToggleDebugConsole,
    ShowOsGraphicsOverlay,
}

/// The command a key issues while a menu is open.
pub open spec fn spec_menu_command_for_key(key: KeyCode) -> Option<AppCommand> {
    match key {
        KeyCode::Esc => Some(AppCommand::CloseMenu),
        KeyCode::Left => Some(AppCommand::MenuLeft),
        KeyCode::Right => Some(AppCommand::MenuRight),
        KeyCode::Up | KeyCode::Char('k') | KeyCode::Char('K') => Some(AppCommand::MenuUp),
        KeyCode::Down | KeyCode::Char('j') | KeyCode::Char('J') => Some(AppCommand::MenuDown),
        KeyCode::Enter => Some(AppCommand::MenuSelect),
        _ => None,
    }
}

pub fn menu_command_for_key(key: KeyCode) -> (command: Option<AppCommand>)
    ensures
        command == spec_menu_command_for_key(key),
{
    match key {
        KeyCode::Esc => Some(AppCommand::CloseMenu),
        KeyCode::Left => Some(AppCommand::MenuLeft),
        KeyCode::Right => Some(AppCommand::MenuRight),
        KeyCode::Up | KeyCode::Char('k') | KeyCode::Char('K') => Some(AppCommand::MenuUp),
        KeyCode::Down | KeyCode::Char('j') | KeyCode::Char('J') => Some(AppCommand::MenuDown),
        KeyCode::Enter => Some(AppCommand::MenuSelect),
        _ => None,
    }
}

/// The command a key issues while the world is being controlled.
pub open spec fn spec_scene_mode_command_for_key(key: KeyCode) -> Option<AppCommand> {
    match key {
        KeyCode::Esc | KeyCode::Char('q') | KeyCode::Char('Q') => Some(AppCommand::Quit),
        KeyCode::Tab => Some(AppCommand::ToggleControlMode),
        KeyCode::Char('c') | KeyCode::Char('C') => Some(AppCommand::OpenMenu(MenuKind::Control)),
        KeyCode::Char('r') | KeyCode::Char('R') => Some(AppCommand::ResetActiveControl),
        KeyCode::Char('m') | KeyCode::Char('M') => Some(AppCommand::OpenMenu(MenuKind::Scenes)),
        KeyCode::Char('g') | KeyCode::Char('G') => Some(AppCommand::OpenMenu(MenuKind::Glyphs)),
        KeyCode::Char('p') | KeyCode::Char('P') => Some(AppCommand::OpenMenu(MenuKind::Physics)),
        KeyCode::Char('d') | KeyCode::Char('D') => Some(AppCommand::OpenMenu(MenuKind::Debug)),
        KeyCode::Char('h') | KeyCode::Char('H') | KeyCode::Char('?') => Some(AppCommand::OpenMenu(MenuKind::Help)),
        _ => None,
    }
}

/// In every control mode Tab switches to the next mode, Esc quits and `c`
/// opens the Control menu.
pub proof fn law_keys_shared_by_every_mode()
    ensures
        spec_scene_mode_command_for_key(KeyCode::Tab) == Some(AppCommand::ToggleControlMode),
        spec_camera_mode_command_for_key(KeyCode::Tab) == Some(AppCommand::ToggleControlMode),
        spec_light_mode_command_for_key(KeyCode::Tab) == Some(AppCommand::ToggleControlMode),
        spec_scene_mode_command_for_key(KeyCode::Esc) == Some(AppCommand::Quit),
        spec_camera_mode_command_for_key(KeyCode::Esc) == Some(AppCommand::Quit),
        spec_light_mode_command_for_key(KeyCode::Esc) == Some(AppCommand::Quit),
        spec_scene_mode_command_for_key(KeyCode::Char('c')) == Some(
            AppCommand::OpenMenu(MenuKind::Control),
        ),
        spec_camera_mode_command_for_key(KeyCode::Char('c')) == Some(
            AppCommand::OpenMenu(MenuKind::Control),
        ),
        spec_light_mode_command_for_key(KeyCode::Char('c')) == Some(
            AppCommand::OpenMenu(MenuKind::Control),
        ),
{
}

/// In camera mode the movement keys come in opposite pairs: `w` forward and
/// `s` backward, `a` left and `d` right, `q` down and `e` up; the arrows turn
/// the camera the way they point.
pub proof fn law_camera_keys_pair_up()
    ensures
        spec_camera_mode_command_for_key(KeyCode::Char('w')) == Some(AppCommand::MoveCameraForward),
        spec_camera_mode_command_for_key(KeyCode::Char('s')) == Some(AppCommand::MoveCameraBackward),
        spec_camera_mode_command_for_key(KeyCode::Char('a')) == Some(AppCommand::MoveCameraLeft),
        spec_camera_mode_command_for_key(KeyCode::Char('d')) == Some(AppCommand::MoveCameraRight),
        spec_camera_mode_command_for_key(KeyCode::Char('q')) == Some(AppCommand::MoveCameraDown),
        spec_camera_mode_command_for_key(KeyCode::Char('e')) == Some(AppCommand::MoveCameraUp),
        spec_camera_mode_command_for_key(KeyCode::Left) == Some(AppCommand::RotateCameraLeft),
        spec_camera_mode_command_for_key(KeyCode::Right) == Some(AppCommand::RotateCameraRight),
        spec_camera_mode_command_for_key(KeyCode::Up) == Some(AppCommand::RotateCameraUp),
        spec_camera_mode_command_for_key(KeyCode::Down) == Some(AppCommand::RotateCameraDown),
{
}

/// In light mode the movement keys come in opposite pairs, `w` forward and
/// `s` backward, `a` left and `d` right, `q` down and `e` up, and each arrow
/// moves the light the way it points, as its letter does.
pub proof fn law_light_keys_pair_up()
    ensures
        spec_light_mode_command_for_key(KeyCode::Char('w')) == Some(AppCommand::MoveLightForward),
        spec_light_mode_command_for_key(KeyCode::Char('s')) == Some(AppCommand::MoveLightBackward),
        spec_light_mode_command_for_key(KeyCode::Char('a')) == Some(AppCommand::MoveLightLeft),
        spec_light_mode_command_for_key(KeyCode::Char('d')) == Some(AppCommand::MoveLightRight),
        spec_light_mode_command_for_key(KeyCode::Char('q')) == Some(AppCommand::MoveLightDown),
        spec_light_mode_command_for_key(KeyCode::Char('e')) == Some(AppCommand::MoveLightUp),
        spec_light_mode_command_for_key(KeyCode::Left) == spec_light_mode_command_for_key(
            KeyCode::Char('a'),
        ),
        spec_light_mode_command_for_key(KeyCode::Right) == spec_light_mode_command_for_key(
            KeyCode::Char('d'),
        ),
        spec_light_mode_command_for_key(KeyCode::Up) == spec_light_mode_command_for_key(
            KeyCode::Char('e'),
        ),
        spec_light_mode_command_for_key(KeyCode::Down) == spec_light_mode_command_for_key(
            KeyCode::Char('q'),
        ),
{
}

pub fn scene_mode_command_for_key(key: KeyCode) -> (command: Option<AppCommand>)
    ensures
        command == spec_scene_mode_command_for_key(key),
{
    match key {
        KeyCode::Esc | KeyCode::Char('q') | KeyCode::Char('Q') => Some(AppCommand::Quit),
        KeyCode::Tab => Some(AppCommand::ToggleControlMode),
        KeyCode::Char('c') | KeyCode::Char('C') => Some(AppCommand::OpenMenu(MenuKind::Control)),
        KeyCode::Char('r') | KeyCode::Char('R') => Some(AppCommand::ResetActiveControl),
        KeyCode::Char('m') | KeyCode::Char('M') => Some(AppCommand::OpenMenu(MenuKind::Scenes)),
        KeyCode::Char('g') | KeyCode::Char('G') => Some(AppCommand::OpenMenu(MenuKind::Glyphs)),
        KeyCode::Char('p') | KeyCode::Char('P') => Some(AppCommand::OpenMenu(MenuKind::Physics)),
        KeyCode::Char('d') | KeyCode::Char('D') => Some(AppCommand::OpenMenu(MenuKind::Debug)),
        KeyCode::Char('h') | KeyCode::Char('H') | KeyCode::Char('?') => Some(AppCommand::OpenMenu(MenuKind::Help)),
        _ => None,
    }
}

/// The command a key issues while the camera is being controlled.
pub open spec fn spec_camera_mode_command_for_key(key: KeyCode) -> Option<AppCommand> {
    match key {
        KeyCode::Esc => Some(AppCommand::Quit),
        KeyCode::Tab => Some(AppCommand::ToggleControlMode),
        KeyCode::Char('l') | KeyCode::Char('L') => Some(AppCommand::SetControlModeLight),
        KeyCode::Char('c') | KeyCode::Char('C') => Some(AppCommand::OpenMenu(MenuKind::Control)),
        KeyCode::Char('r') | KeyCode::Char('R') => Some(AppCommand::ResetActiveControl),
        KeyCode::Char('h') | KeyCode::Char('H') | KeyCode::Char('?') => Some(AppCommand::OpenMenu(MenuKind::Help)),
        KeyCode::Char('w') | KeyCode::Char('W') => Some(AppCommand::MoveCameraForward),
        KeyCode::Char('s') | KeyCode::Char('S') => Some(AppCommand::MoveCameraBackward),
        KeyCode::Char('a') | KeyCode::Char('A') => Some(AppCommand::MoveCameraLeft),
        KeyCode::Char('d') | KeyCode::Char('D') => Some(AppCommand::MoveCameraRight),
        KeyCode::Char('q') | KeyCode::Char('Q') => Some(AppCommand::MoveCameraDown),
        KeyCode::Char('e') | KeyCode::Char('E') => Some(AppCommand::MoveCameraUp),
        KeyCode::Left => Some(AppCommand::RotateCameraLeft),
        KeyCode::Right => Some(AppCommand::RotateCameraRight),
        KeyCode::Up => Some(AppCommand::RotateCameraUp),
        KeyCode::Down => Some(AppCommand::RotateCameraDown),
        _ => None,
    }
}

pub fn camera_mode_command_for_key(key: KeyCode) -> (command: Option<AppCommand>)
    ensures
        command == spec_camera_mode_command_for_key(key),
{
    match key {
        KeyCode::Esc => Some(AppCommand::Quit),
        KeyCode::Tab => Some(AppCommand::ToggleControlMode),
        KeyCode::Char('l') | KeyCode::Char('L') => Some(AppCommand::SetControlModeLight),
        KeyCode::Char('c') | KeyCode::Char('C') => Some(AppCommand::OpenMenu(MenuKind::Control)),
        KeyCode::Char('r') | KeyCode::Char('R') => Some(AppCommand::ResetActiveControl),
        KeyCode::Char('h') | KeyCode::Char('H') | KeyCode::Char('?') => Some(AppCommand::OpenMenu(MenuKind::Help)),
        KeyCode::Char('w') | KeyCode::Char('W') => Some(AppCommand::MoveCameraForward),
        KeyCode::Char('s') | KeyCode::Char('S') => Some(AppCommand::MoveCameraBackward),
        KeyCode::Char('a') | KeyCode::Char('A') => Some(AppCommand::MoveCameraLeft),
        KeyCode::Char('d') | KeyCode::Char('D') => Some(AppCommand::MoveCameraRight),
        KeyCode::Char('q') | KeyCode::Char('Q') => Some(AppCommand::MoveCameraDown),
        KeyCode::Char('e') | KeyCode::Char('E') => Some(AppCommand::MoveCameraUp),
        KeyCode::Left => Some(AppCommand::RotateCameraLeft),
        KeyCode::Right => Some(AppCommand::RotateCameraRight),
        KeyCode::Up => Some(AppCommand::RotateCameraUp),
        KeyCode::Down => Some(AppCommand::RotateCameraDown),
        _ => None,
    }
}

/// The command a key issues while the light is being controlled.
pub open spec fn spec_light_mode_command_for_key(key: KeyCode) -> Option<AppCommand> {
    match key {
        KeyCode::Esc => Some(AppCommand::Quit),
        KeyCode::Tab => Some(AppCommand::ToggleControlMode),
        KeyCode::Char('c') | KeyCode::Char('C') => Some(AppCommand::OpenMenu(MenuKind::Control)),
        KeyCode::Char('l') | KeyCode::Char('L') => Some(AppCommand::SetControlModeLight),
        KeyCode::Char('W') => Some(AppCommand::SetControlModeScene),
        KeyCode::Char('r') | KeyCode::Char('R') => Some(AppCommand::ResetActiveControl),
        KeyCode::Char('h') | KeyCode::Char('H') | KeyCode::Char('?') => Some(AppCommand::OpenMenu(MenuKind::Help)),
        KeyCode::Char('w') => Some(AppCommand::MoveLightForward),
        KeyCode::Char('s') | KeyCode::Char('S') => Some(AppCommand::MoveLightBackward),
        KeyCode::Char('a') | KeyCode::Char('A') => Some(AppCommand::MoveLightLeft),
        KeyCode::Char('d') | KeyCode::Char('D') => Some(AppCommand::MoveLightRight),
        KeyCode::Char('q') | KeyCode::Char('Q') => Some(AppCommand::MoveLightDown),
        KeyCode::Char('e') | KeyCode::Char('E') => Some(AppCommand::MoveLightUp),
        KeyCode::Left => Some(AppCommand::MoveLightLeft),
        KeyCode::Right => Some(AppCommand::MoveLightRight),
        KeyCode::Up => Some(AppCommand::MoveLightUp),
        KeyCode::Down => Some(AppCommand::MoveLightDown),
        _ => None,
    }
}

pub fn light_mode_command_for_key(key: KeyCode) -> (command: Option<AppCommand>)
    ensures
        command == spec_light_mode_command_for_key(key),
{
    match key {
        KeyCode::Esc => Some(AppCommand::Quit),
        KeyCode::Tab => Some(AppCommand::ToggleControlMode),
        KeyCode::Char('c') | KeyCode::Char('C') => Some(AppCommand::OpenMenu(MenuKind::Control)),
        KeyCode::Char('l') | KeyCode::Char('L') => Some(AppCommand::SetControlModeLight),
        KeyCode::Char('W') => Some(AppCommand::SetControlModeScene),
        KeyCode::Char('r') | KeyCode::Char('R') => Some(AppCommand::ResetActiveControl),
        KeyCode::Char('h') | KeyCode::Char('H') | KeyCode::Char('?') => Some(AppCommand::OpenMenu(MenuKind::Help)),
        KeyCode::Char('w') => Some(AppCommand::MoveLightForward),
        KeyCode::Char('s') | KeyCode::Char('S') => Some(AppCommand::MoveLightBackward),
        KeyCode::Char('a') | KeyCode::Char('A') => Some(AppCommand::MoveLightLeft),
        KeyCode::Char('d') | KeyCode::Char('D') => Some(AppCommand::MoveLightRight),
        KeyCode::Char('q') | KeyCode::Char('Q') => Some(AppCommand::MoveLightDown),
        KeyCode::Char('e') | KeyCode::Char('E') => Some(AppCommand::MoveLightUp),
        KeyCode::Left => Some(AppCommand::MoveLightLeft),
        KeyCode::Right => Some(AppCommand::MoveLightRight),
        KeyCode::Up => Some(AppCommand::MoveLightUp),
        KeyCode::Down => Some(AppCommand::MoveLightDown),
        _ => None,
    }
}

} // verus!
