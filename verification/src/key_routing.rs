use vstd::prelude::*;

use crate::input::command::{
    camera_mode_command_for_key, light_mode_command_for_key, menu_command_for_key,
    scene_mode_command_for_key, spec_camera_mode_command_for_key,
    spec_light_mode_command_for_key, spec_menu_command_for_key, spec_scene_mode_command_for_key,
    AppCommand,
};
use crate::keys::{KeyCode, KeyEvent, KeyModifiers};
use crate::menu::model::MenuKind;
use crate::navigation::{menu_kind_for_hotkey, spec_menu_kind_for_hotkey, ControlMode};

verus! {

/// What of the terminal editor is up when a key arrives, as far as it
/// decides where the key goes. The layers are listed from the one that
/// answers first to the one that answers last.
#[derive(Debug, Clone, Copy, PartialEq, Eq, Structural)]
pub struct RoutingState {
    /// The "really exit?" question is shown.
    pub confirm_exit: bool,
    /// A menu of the menu bar is open.
    pub menu_open: bool,
    pub scene_browser_open: bool,
    pub properties_open: bool,
    pub hierarchy_open: bool,
    pub file_picker_open: bool,
    /// The current scene is a loaded `.a3d` world.
    pub editing_loaded_a3d: bool,
    /// The loaded world's camera is what the arrow keys move.
    pub camera_targeted: bool,
    pub debug_console_visible: bool,
    /// The short-lived summary of a freshly loaded world is shown.
    pub debug_popup_visible: bool,
    pub control_mode: ControlMode,
}

/// A direction in which the debug console scrolls.
#[derive(Debug, Clone, Copy, PartialEq, Eq, Structural)]
pub enum ConsoleScroll {
    Up,
    Down,
    Left,
    Right,
}

/// Where a key press goes, and what it asks for there.
#[derive(Debug, Clone, Copy, PartialEq, Eq, Structural)]
pub enum KeyRoute {
    /// Leave the application.
    Quit,
    /// Take the exit question down and stay.
    CloseExitConfirm,
    /// The key is handled and changes nothing.
    Consumed,
    /// No layer wants the key.
    Ignored,
    ToggleMenuBar,
    OpenMenu(MenuKind),
    CloseSceneBrowser,
    SceneBrowserUp,
    SceneBrowserDown,
    SelectSceneBrowserEntry,
    /// The properties panel handles the key.
    ToProperties,
    /// The object hierarchy handles the key.
    ToHierarchy,
    CloseFilePicker,
    FilePickerUp,
    FilePickerDown,
    FilePickerParent,
    SelectFilePickerEntry,
    Command(AppCommand),
    MoveCameraForward,
    MoveCameraBackward,
    /// Scale the loaded world's active object up by one step.
    GrowActiveObject,
    /// Scale the loaded world's active object down by one step.
    ShrinkActiveObject,
    /// No modal layer took the key: the axis control layer is offered it,
    /// and where it declines, `route_unclaimed_key` decides.
    ToControlLayer,
    CloseDebugConsole,
    /// Scroll the debug console by the given number of lines or columns.
    ScrollDebugConsole(ConsoleScroll, usize),
    DismissDebugPopup,
}

/// The answer to a key while the exit question is shown.
pub open spec fn exit_confirm_route(code: KeyCode) -> KeyRoute {
    match code {
        KeyCode::Enter | KeyCode::Char('y') | KeyCode::Char('Y') => KeyRoute::Quit,
        KeyCode::Esc | KeyCode::Char('n') | KeyCode::Char('N') | KeyCode::Char('c')
        | KeyCode::Char('C') => KeyRoute::CloseExitConfirm,
        _ => KeyRoute::Consumed,
    }
}

/// The answer to a key held with Alt: close an open menu, else open the
/// menu of its hotkey, else the File menu.
pub open spec fn alt_route(menu_open: bool, code: KeyCode) -> KeyRoute {
    if menu_open {
        KeyRoute::ToggleMenuBar
    } else {
        match spec_menu_kind_for_hotkey(code) {
            Some(kind) => KeyRoute::OpenMenu(kind),
            None => KeyRoute::OpenMenu(MenuKind::File),
        }
    }
}

/// The answer to a key while the scene browser is open; it takes every key.
pub open spec fn scene_browser_route(code: KeyCode) -> KeyRoute {
    match code {
        KeyCode::Esc => KeyRoute::CloseSceneBrowser,
        KeyCode::Up | KeyCode::Char('k') | KeyCode::Char('K') => KeyRoute::SceneBrowserUp,
        KeyCode::Down | KeyCode::Char('j') | KeyCode::Char('J') => KeyRoute::SceneBrowserDown,
        KeyCode::Enter => KeyRoute::SelectSceneBrowserEntry,
        _ => KeyRoute::Consumed,
    }
}

/// The answer to a key while the `.a3d` file picker is open.
pub open spec fn file_picker_route(code: KeyCode) -> KeyRoute {
    match code {
        KeyCode::Esc => KeyRoute::CloseFilePicker,
        KeyCode::Up => KeyRoute::FilePickerUp,
        KeyCode::Down => KeyRoute::FilePickerDown,
        KeyCode::Backspace => KeyRoute::FilePickerParent,
        KeyCode::Enter => KeyRoute::SelectFilePickerEntry,
        _ => KeyRoute::Ignored,
    }
}

/// A command where there is one, else nothing is done.
pub open spec fn command_route(command: Option<AppCommand>) -> KeyRoute {
    match command {
        Some(command) => KeyRoute::Command(command),
        None => KeyRoute::Ignored,
    }
}

/// The answer of a loaded world to a key, where it has one: with the camera
/// targeted, `+`/`=` and `-`/`_` move it and the retired `w`/`s` keys are
/// swallowed; otherwise `+`/`=` and `-`/`_` scale the active object.
pub open spec fn loaded_a3d_route(camera_targeted: bool, code: KeyCode) -> Option<KeyRoute> {
    match code {
        KeyCode::Char('+') | KeyCode::Char('=') => if camera_targeted {
            Some(KeyRoute::MoveCameraForward)
        } else {
            Some(KeyRoute::GrowActiveObject)
        },
        KeyCode::Char('-') | KeyCode::Char('_') => if camera_targeted {
            Some(KeyRoute::MoveCameraBackward)
        } else {
            Some(KeyRoute::ShrinkActiveObject)
        },
        KeyCode::Char('w') | KeyCode::Char('W') | KeyCode::Char('s') | KeyCode::Char('S') =>
            if camera_targeted {
            Some(KeyRoute::Consumed)
        } else {
            None
        },
        _ => None,
    }
}

/// Where a key press goes, the first layer that is up deciding: the exit
/// question, Alt for the menu bar, the scene browser, the properties panel,
/// the object hierarchy, the file picker, an open menu, the loaded world's
/// own keys; else the axis control layer is offered the key.
pub open spec fn spec_route_key_press(state: RoutingState, code: KeyCode, alt: bool) -> KeyRoute {
    if state.confirm_exit {
        exit_confirm_route(code)
    } else if alt {
        alt_route(state.menu_open, code)
    } else if state.scene_browser_open {
        scene_browser_route(code)
    } else if state.properties_open {
        KeyRoute::ToProperties
    } else if state.hierarchy_open {
        KeyRoute::ToHierarchy
    } else if state.file_picker_open {
        file_picker_route(code)
    } else if state.menu_open {
        command_route(spec_menu_command_for_key(code))
    } else if state.editing_loaded_a3d && loaded_a3d_route(state.camera_targeted, code) is Some {
        loaded_a3d_route(state.camera_targeted, code)->0
    } else {
        KeyRoute::ToControlLayer
    }
}

/// The answer to a key while the debug console is shown; it takes every key.
pub open spec fn debug_console_route(code: KeyCode) -> KeyRoute {
    match code {
        KeyCode::Esc | KeyCode::Enter | KeyCode::Char('o') | KeyCode::Char('O') =>
            KeyRoute::CloseDebugConsole,
        KeyCode::Tab => KeyRoute::Command(AppCommand::ToggleControlMode),
        KeyCode::Char('c') | KeyCode::Char('C') => KeyRoute::Command(
            AppCommand::OpenMenu(MenuKind::Control),
        ),
        KeyCode::PageUp => KeyRoute::ScrollDebugConsole(ConsoleScroll::Up, 6),
        KeyCode::PageDown => KeyRoute::ScrollDebugConsole(ConsoleScroll::Down, 6),
        KeyCode::Left => KeyRoute::ScrollDebugConsole(ConsoleScroll::Left, 8),
        KeyCode::Right => KeyRoute::ScrollDebugConsole(ConsoleScroll::Right, 8),
        _ => KeyRoute::Consumed,
    }
}

/// The key that dismisses the loaded world's summary popup.
pub open spec fn dismisses_debug_popup(code: KeyCode) -> bool {
    code == KeyCode::Enter || code == KeyCode::Esc || code == KeyCode::Char('o') || code
        == KeyCode::Char('O')
}

/// The command a key issues in a control mode.
pub open spec fn mode_command(mode: ControlMode, code: KeyCode) -> Option<AppCommand> {
    match mode {
        ControlMode::Scene => spec_scene_mode_command_for_key(code),
        ControlMode::Camera => spec_camera_mode_command_for_key(code),
        ControlMode::Light => spec_light_mode_command_for_key(code),
    }
}

/// Where a key goes that the axis control layer declined: the debug
/// console, then the loaded world's summary popup, then the control mode's
/// own commands.
pub open spec fn spec_route_unclaimed_key(state: RoutingState, code: KeyCode) -> KeyRoute {
    if state.debug_console_visible {
        debug_console_route(code)
    } else if state.debug_popup_visible && dismisses_debug_popup(code) {
        KeyRoute::DismissDebugPopup
    } else {
        command_route(mode_command(state.control_mode, code))
    }
}

/// The bit of the Alt key among the modifiers.
pub open spec fn alt_modifier() -> KeyModifiers {
    KeyModifiers(4)
}

fn command_route_of(command: Option<AppCommand>) -> (route: KeyRoute)
    ensures
        route == command_route(command),
{
    match command {
        Some(command) => KeyRoute::Command(command),
        None => KeyRoute::Ignored,
    }
}

fn loaded_a3d_route_of(camera_targeted: bool, code: KeyCode) -> (route: Option<KeyRoute>)
    ensures
        route == loaded_a3d_route(camera_targeted, code),
{
    match code {
        KeyCode::Char('+') | KeyCode::Char('=') => if camera_targeted {
            Some(KeyRoute::MoveCameraForward)
        } else {
            Some(KeyRoute::GrowActiveObject)
        },
        KeyCode::Char('-') | KeyCode::Char('_') => if camera_targeted {
            Some(KeyRoute::MoveCameraBackward)
        } else {
            Some(KeyRoute::ShrinkActiveObject)
        },
        KeyCode::Char('w') | KeyCode::Char('W') | KeyCode::Char('s') | KeyCode::Char('S') =>
            if camera_targeted {
            Some(KeyRoute::Consumed)
        } else {
            None
        },
        _ => None,
    }
}

/// Where the key press `key` goes in `state`; see `spec_route_key_press`.
pub fn route_key_press(state: &RoutingState, key: KeyEvent) -> (route: KeyRoute)
    ensures
        route == spec_route_key_press(*state, key.code, key.modifiers.spec_contains(alt_modifier())),
{
    let code = key.code;
    if state.confirm_exit {
        return match code {
            KeyCode::Enter | KeyCode::Char('y') | KeyCode::Char('Y') => KeyRoute::Quit,
            KeyCode::Esc | KeyCode::Char('n') | KeyCode::Char('N') | KeyCode::Char('c')
            | KeyCode::Char('C') => KeyRoute::CloseExitConfirm,
            _ => KeyRoute::Consumed,
        };
    }
    if key.modifiers.contains(KeyModifiers::alt()) {
        if state.menu_open {
            return KeyRoute::ToggleMenuBar;
        }
        return match menu_kind_for_hotkey(code) {
            Some(kind) => KeyRoute::OpenMenu(kind),
            None => KeyRoute::OpenMenu(MenuKind::File),
        };
    }
    if state.scene_browser_open {
        return match code {
            KeyCode::Esc => KeyRoute::CloseSceneBrowser,
            KeyCode::Up | KeyCode::Char('k') | KeyCode::Char('K') => KeyRoute::SceneBrowserUp,
            KeyCode::Down | KeyCode::Char('j') | KeyCode::Char('J') => KeyRoute::SceneBrowserDown,
            KeyCode::Enter => KeyRoute::SelectSceneBrowserEntry,
            _ => KeyRoute::Consumed,
        };
    }
    if state.properties_open {
        return KeyRoute::ToProperties;
    }
    if state.hierarchy_open {
        return KeyRoute::ToHierarchy;
    }
    if state.file_picker_open {
        return match code {
            KeyCode::Esc => KeyRoute::CloseFilePicker,
            KeyCode::Up => KeyRoute::FilePickerUp,
            KeyCode::Down => KeyRoute::FilePickerDown,
            KeyCode::Backspace => KeyRoute::FilePickerParent,
            KeyCode::Enter => KeyRoute::SelectFilePickerEntry,
            _ => KeyRoute::Ignored,
        };
    }
    if state.menu_open {
        return command_route_of(menu_command_for_key(code));
    }
    if state.editing_loaded_a3d {
        if let Some(route) = loaded_a3d_route_of(state.camera_targeted, code) {
            return route;
        }
    }
    KeyRoute::ToControlLayer
}

/// Where a key goes that the axis control layer declined; see
/// `spec_route_unclaimed_key`.
pub fn route_unclaimed_key(state: &RoutingState, code: KeyCode) -> (route: KeyRoute)
    ensures
        route == spec_route_unclaimed_key(*state, code),
{
    if state.debug_console_visible {
        return match code {
            KeyCode::Esc | KeyCode::Enter | KeyCode::Char('o') | KeyCode::Char('O') =>
                KeyRoute::CloseDebugConsole,
            KeyCode::Tab => KeyRoute::Command(AppCommand::ToggleControlMode),
            KeyCode::Char('c') | KeyCode::Char('C') => KeyRoute::Command(
                AppCommand::OpenMenu(MenuKind::Control),
            ),
            KeyCode::PageUp => KeyRoute::ScrollDebugConsole(ConsoleScroll::Up, 6),
            KeyCode::PageDown => KeyRoute::ScrollDebugConsole(ConsoleScroll::Down, 6),
            KeyCode::Left => KeyRoute::ScrollDebugConsole(ConsoleScroll::Left, 8),
            KeyCode::Right => KeyRoute::ScrollDebugConsole(ConsoleScroll::Right, 8),
            _ => KeyRoute::Consumed,
        };
    }
    if state.debug_popup_visible {
        match code {
            KeyCode::Enter | KeyCode::Esc | KeyCode::Char('o') | KeyCode::Char('O') => {
                return KeyRoute::DismissDebugPopup;
            },
            _ => {},
        }
    }
    let command = match state.control_mode {
        ControlMode::Scene => scene_mode_command_for_key(code),
        ControlMode::Camera => camera_mode_command_for_key(code),
        ControlMode::Light => light_mode_command_for_key(code),
    };
    command_route_of(command)
}

/// A key that moves, turns or scales what is controlled, and so is sampled
/// while held.
pub open spec fn is_control_key(code: KeyCode) -> bool {
    match code {
        KeyCode::Left | KeyCode::Right | KeyCode::Up | KeyCode::Down | KeyCode::PageUp
        | KeyCode::PageDown | KeyCode::Char('x') | KeyCode::Char('X') | KeyCode::Char('y')
        | KeyCode::Char('Y') | KeyCode::Char('z') | KeyCode::Char('Z') | KeyCode::Char('+')
        | KeyCode::Char('=') | KeyCode::Char('-') | KeyCode::Char('_') => true,
        _ => false,
    }
}

/// No question, menu, browser, panel, picker, console or popup is up.
pub open spec fn nothing_modal(state: RoutingState) -> bool {
    !state.confirm_exit && !state.menu_open && !state.scene_browser_open
        && !state.file_picker_open && !state.hierarchy_open && !state.properties_open
        && !state.debug_console_visible && !state.debug_popup_visible
}

/// A held key is sampled continuously only while a loaded world is edited
/// with nothing modal up, and only for the keys that move, turn or scale.
pub open spec fn spec_is_continuous_control_key(state: RoutingState, code: KeyCode) -> bool {
    state.editing_loaded_a3d && nothing_modal(state) && is_control_key(code)
}

pub fn is_continuous_control_key(state: &RoutingState, key: KeyEvent) -> (continuous: bool)
    ensures
        continuous == spec_is_continuous_control_key(*state, key.code),
{
    if !state.editing_loaded_a3d || state.confirm_exit || state.menu_open
        || state.scene_browser_open || state.file_picker_open || state.hierarchy_open
        || state.properties_open || state.debug_console_visible || state.debug_popup_visible {
        return false;
    }
    match key.code {
        KeyCode::Left | KeyCode::Right | KeyCode::Up | KeyCode::Down | KeyCode::PageUp
        | KeyCode::PageDown | KeyCode::Char('x') | KeyCode::Char('X') | KeyCode::Char('y')
        | KeyCode::Char('Y') | KeyCode::Char('z') | KeyCode::Char('Z') | KeyCode::Char('+')
        | KeyCode::Char('=') | KeyCode::Char('-') | KeyCode::Char('_') => true,
        _ => false,
    }
}

/// An open menu is the topmost layer that is up: nothing of the exit
/// question, scene browser, panels or file picker above it.
pub open spec fn menu_on_top(state: RoutingState) -> bool {
    &&& !state.confirm_exit
    &&& !state.scene_browser_open
    &&& !state.properties_open
    &&& !state.hierarchy_open
    &&& !state.file_picker_open
    &&& state.menu_open
}

/// While a menu is on top, a key without Alt moves its selection down with
/// Down, `j` or `J` and up with Up, `k` or `K`, steps to the menu on the left
/// with Left and on the right with Right, takes the row with Enter and
/// closes the menu with Esc; every other key is ignored.
pub proof fn law_open_menu_keys(state: RoutingState, code: KeyCode)
    requires
        menu_on_top(state),
    ensures
        (spec_route_key_press(state, code, false) == KeyRoute::Command(AppCommand::MenuDown))
            <==> (code == KeyCode::Down || code == KeyCode::Char('j') || code == KeyCode::Char('J')),
        (spec_route_key_press(state, code, false) == KeyRoute::Command(AppCommand::MenuUp))
            <==> (code == KeyCode::Up || code == KeyCode::Char('k') || code == KeyCode::Char('K')),
        (spec_route_key_press(state, code, false) == KeyRoute::Command(AppCommand::MenuLeft))
            <==> code == KeyCode::Left,
        (spec_route_key_press(state, code, false) == KeyRoute::Command(AppCommand::MenuRight))
            <==> code == KeyCode::Right,
        (spec_route_key_press(state, code, false) == KeyRoute::Command(AppCommand::MenuSelect))
            <==> code == KeyCode::Enter,
        (spec_route_key_press(state, code, false) == KeyRoute::Command(AppCommand::CloseMenu))
            <==> code == KeyCode::Esc,
        (spec_route_key_press(state, code, false) == KeyRoute::Ignored) <==> !(code == KeyCode::Down
            || code == KeyCode::Char('j') || code == KeyCode::Char('J') || code == KeyCode::Up
            || code == KeyCode::Char('k') || code == KeyCode::Char('K') || code == KeyCode::Left
            || code == KeyCode::Right || code == KeyCode::Enter || code == KeyCode::Esc),
{
}

/// In a loaded world with no layer above it, `+` and `=` move a targeted
/// camera forward and grow the active object otherwise; `-` and `_` do the
/// opposite: move the camera backward, or shrink the object.
pub proof fn law_loaded_world_plus_and_minus(state: RoutingState)
    requires
        !state.confirm_exit,
        !state.scene_browser_open,
        !state.properties_open,
        !state.hierarchy_open,
        !state.file_picker_open,
        !state.menu_open,
        state.editing_loaded_a3d,
    ensures
        spec_route_key_press(state, KeyCode::Char('+'), false) == spec_route_key_press(
            state,
            KeyCode::Char('='),
            false,
        ),
        spec_route_key_press(state, KeyCode::Char('-'), false) == spec_route_key_press(
            state,
            KeyCode::Char('_'),
            false,
        ),
        state.camera_targeted ==> spec_route_key_press(state, KeyCode::Char('+'), false)
            == KeyRoute::MoveCameraForward && spec_route_key_press(state, KeyCode::Char('-'), false)
            == KeyRoute::MoveCameraBackward,
        !state.camera_targeted ==> spec_route_key_press(state, KeyCode::Char('+'), false)
            == KeyRoute::GrowActiveObject && spec_route_key_press(state, KeyCode::Char('-'), false)
            == KeyRoute::ShrinkActiveObject,
{
}

/// While the debug console is shown it takes every key the control layer
/// declines: Page Up and Page Down scroll it up and down six lines, Left and
/// Right scroll it left and right eight columns, and Esc, Enter, `o` or `O`
/// close it.
pub proof fn law_debug_console_keys(state: RoutingState, code: KeyCode)
    requires
        state.debug_console_visible,
    ensures
        spec_route_unclaimed_key(state, KeyCode::PageUp) == KeyRoute::ScrollDebugConsole(
            ConsoleScroll::Up,
            6,
        ),
        spec_route_unclaimed_key(state, KeyCode::PageDown) == KeyRoute::ScrollDebugConsole(
            ConsoleScroll::Down,
            6,
        ),
        spec_route_unclaimed_key(state, KeyCode::Left) == KeyRoute::ScrollDebugConsole(
            ConsoleScroll::Left,
            8,
        ),
        spec_route_unclaimed_key(state, KeyCode::Right) == KeyRoute::ScrollDebugConsole(
            ConsoleScroll::Right,
            8,
        ),
        (spec_route_unclaimed_key(state, code) == KeyRoute::CloseDebugConsole) <==> (code
            == KeyCode::Esc || code == KeyCode::Enter || code == KeyCode::Char('o') || code
            == KeyCode::Char('O')),
{
}

/// The `.a3d` file picker is the topmost layer that is up: no exit question,
/// scene browser, properties panel or hierarchy above it.
pub open spec fn file_picker_on_top(state: RoutingState) -> bool {
    &&& !state.confirm_exit
    &&& !state.scene_browser_open
    &&& !state.properties_open
    &&& !state.hierarchy_open
    &&& state.file_picker_open
}

/// While the file picker is on top, a key without Alt moves its selection
/// with the arrows, Up up and Down down, goes to the parent with Backspace,
/// takes the row with Enter and closes it with Esc; no other key does any
/// of these, and every other key is ignored.
pub proof fn law_file_picker_keys(state: RoutingState, code: KeyCode)
    requires
        file_picker_on_top(state),
    ensures
        spec_route_key_press(state, KeyCode::Up, false) == KeyRoute::FilePickerUp,
        spec_route_key_press(state, KeyCode::Down, false) == KeyRoute::FilePickerDown,
        spec_route_key_press(state, KeyCode::Backspace, false) == KeyRoute::FilePickerParent,
        spec_route_key_press(state, KeyCode::Enter, false) == KeyRoute::SelectFilePickerEntry,
        spec_route_key_press(state, KeyCode::Esc, false) == KeyRoute::CloseFilePicker,
        (spec_route_key_press(state, code, false) == KeyRoute::FilePickerDown) <==> code
            == KeyCode::Down,
        (spec_route_key_press(state, code, false) == KeyRoute::FilePickerUp) <==> code
            == KeyCode::Up,
        code != KeyCode::Up && code != KeyCode::Down && code != KeyCode::Backspace && code
            != KeyCode::Enter && code != KeyCode::Esc ==> spec_route_key_press(state, code, false)
            == KeyRoute::Ignored,
{
}

/// While the scene browser is open and the exit question is not, a key
/// without Alt moves its selection down with Down, `j` or `J` and up with
/// Up, `k` or `K`, and no other key moves it.
pub proof fn law_scene_browser_keys(state: RoutingState, code: KeyCode)
    requires
        !state.confirm_exit,
        state.scene_browser_open,
    ensures
        (spec_route_key_press(state, code, false) == KeyRoute::SceneBrowserDown) <==> (code
            == KeyCode::Down || code == KeyCode::Char('j') || code == KeyCode::Char('J')),
        (spec_route_key_press(state, code, false) == KeyRoute::SceneBrowserUp) <==> (code
            == KeyCode::Up || code == KeyCode::Char('k') || code == KeyCode::Char('K')),
{
}

/// While the exit question is shown it answers every key, whatever else is
/// up and whether Alt is held: Enter or `y` leaves, and nothing else does.
pub proof fn law_exit_question_answers_every_key(
    first: RoutingState,
    second: RoutingState,
    code: KeyCode,
    first_alt: bool,
    second_alt: bool,
)
    requires
        first.confirm_exit,
        second.confirm_exit,
    ensures
        spec_route_key_press(first, code, first_alt) == spec_route_key_press(
            second,
            code,
            second_alt,
        ),
        (spec_route_key_press(first, code, first_alt) == KeyRoute::Quit) <==> (code
            == KeyCode::Enter || code == KeyCode::Char('y') || code == KeyCode::Char('Y')),
{
}

/// Menus are modal and keep priority over the debug console: while a menu
/// is open and nothing above it is up, a key without Alt goes to the menu,
/// whatever the console, the summary popup, the control mode or the loaded
/// world, and never on to the control layer.
pub proof fn law_menu_outranks_debug_console(
    first: RoutingState,
    second: RoutingState,
    code: KeyCode,
)
    requires
        first.menu_open,
        !first.confirm_exit,
        !first.scene_browser_open,
        !first.properties_open,
        !first.hierarchy_open,
        !first.file_picker_open,
        second.menu_open == first.menu_open,
        second.confirm_exit == first.confirm_exit,
        second.scene_browser_open == first.scene_browser_open,
        second.properties_open == first.properties_open,
        second.hierarchy_open == first.hierarchy_open,
        second.file_picker_open == first.file_picker_open,
    ensures
        spec_route_key_press(first, code, false) == spec_route_key_press(second, code, false),
        spec_route_key_press(first, code, false) == command_route(spec_menu_command_for_key(code)),
        spec_route_key_press(first, code, false) != KeyRoute::ToControlLayer,
{
}

/// With the loaded world's camera targeted and nothing modal above the
/// world, the retired `w`/`s` keys are swallowed and cannot reach the
/// camera mode's own bindings.
pub proof fn law_retired_camera_keys_are_swallowed(state: RoutingState, code: KeyCode)
    requires
        state.editing_loaded_a3d,
        state.camera_targeted,
        !state.confirm_exit,
        !state.scene_browser_open,
        !state.properties_open,
        !state.hierarchy_open,
        !state.file_picker_open,
        !state.menu_open,
        code == KeyCode::Char('w') || code == KeyCode::Char('W') || code == KeyCode::Char('s')
            || code == KeyCode::Char('S'),
    ensures
        spec_route_key_press(state, code, false) == KeyRoute::Consumed,
{
}

/// A key that is sampled while held always gets past the modal layers: the
/// loaded world handles it, or it is offered to the control layer, and
/// where that declines it issues the control mode's own command.
pub proof fn law_held_control_keys_reach_the_controls(state: RoutingState, code: KeyCode)
    requires
        spec_is_continuous_control_key(state, code),
    ensures
        spec_route_key_press(state, code, false) == KeyRoute::ToControlLayer
            || spec_route_key_press(state, code, false) == KeyRoute::MoveCameraForward
            || spec_route_key_press(state, code, false) == KeyRoute::MoveCameraBackward
            || spec_route_key_press(state, code, false) == KeyRoute::GrowActiveObject
            || spec_route_key_press(state, code, false) == KeyRoute::ShrinkActiveObject,
        spec_route_unclaimed_key(state, code) == command_route(
            mode_command(state.control_mode, code),
        ),
{
}

} // verus!
