use ascii_3d::input::command::AppCommand;
use ascii_3d::key_routing::{
    is_continuous_control_key, route_key_press, route_unclaimed_key, ConsoleScroll, KeyRoute,
    RoutingState,
};
use ascii_3d::keys::{KeyCode, KeyEvent, KeyModifiers};
use ascii_3d::menu::MenuKind;
use ascii_3d::navigation::ControlMode;
use ascii_3d::scene_browser::SceneBrowser;
use ascii_3d::terminal_state::{AppMenus, MenuCommandOutcome};

fn idle() -> RoutingState {
    RoutingState {
        confirm_exit: false,
        menu_open: false,
        scene_browser_open: false,
        properties_open: false,
        hierarchy_open: false,
        file_picker_open: false,
        editing_loaded_a3d: false,
        camera_targeted: false,
        debug_console_visible: false,
        debug_popup_visible: false,
        control_mode: ControlMode::Scene,
    }
}

fn press(code: KeyCode) -> KeyEvent {
    KeyEvent::new(code, KeyModifiers::none())
}

#[test]
fn exit_question_takes_every_key() {
    let state = RoutingState { confirm_exit: true, menu_open: true, ..idle() };

    assert_eq!(route_key_press(&state, press(KeyCode::Char('y'))), KeyRoute::Quit);
    assert_eq!(route_key_press(&state, press(KeyCode::Enter)), KeyRoute::Quit);
    assert_eq!(route_key_press(&state, press(KeyCode::Char('n'))), KeyRoute::CloseExitConfirm);
    assert_eq!(route_key_press(&state, press(KeyCode::Esc)), KeyRoute::CloseExitConfirm);
    assert_eq!(route_key_press(&state, press(KeyCode::Char('q'))), KeyRoute::Consumed);
    let alt_y = KeyEvent::new(KeyCode::Char('y'), KeyModifiers::alt());
    assert_eq!(route_key_press(&state, alt_y), KeyRoute::Quit);
}

#[test]
fn alt_opens_the_menu_of_its_hotkey() {
    let state = idle();
    let alt_g = KeyEvent::new(KeyCode::Char('g'), KeyModifiers::alt());
    assert_eq!(route_key_press(&state, alt_g), KeyRoute::OpenMenu(MenuKind::Glyphs));

    let alt_z = KeyEvent::new(KeyCode::Char('z'), KeyModifiers::alt());
    assert_eq!(route_key_press(&state, alt_z), KeyRoute::OpenMenu(MenuKind::File));

    let with_menu = RoutingState { menu_open: true, ..idle() };
    assert_eq!(route_key_press(&with_menu, alt_g), KeyRoute::ToggleMenuBar);
}

#[test]
fn open_menu_keeps_priority_over_debug_console() {
    let state = RoutingState { menu_open: true, debug_console_visible: true, ..idle() };

    assert_eq!(route_key_press(&state, press(KeyCode::Esc)), KeyRoute::Command(AppCommand::CloseMenu));
    assert_eq!(route_key_press(&state, press(KeyCode::Char('j'))), KeyRoute::Command(AppCommand::MenuDown));
    assert_eq!(route_key_press(&state, press(KeyCode::Char('x'))), KeyRoute::Ignored);
}

#[test]
fn panels_and_browsers_take_keys_in_order() {
    let browser = RoutingState { scene_browser_open: true, properties_open: true, ..idle() };
    assert_eq!(route_key_press(&browser, press(KeyCode::Char('k'))), KeyRoute::SceneBrowserUp);
    assert_eq!(route_key_press(&browser, press(KeyCode::Char('x'))), KeyRoute::Consumed);

    let properties = RoutingState { properties_open: true, hierarchy_open: true, ..idle() };
    assert_eq!(route_key_press(&properties, press(KeyCode::Enter)), KeyRoute::ToProperties);

    let hierarchy = RoutingState { hierarchy_open: true, file_picker_open: true, ..idle() };
    assert_eq!(route_key_press(&hierarchy, press(KeyCode::Enter)), KeyRoute::ToHierarchy);

    let picker = RoutingState { file_picker_open: true, menu_open: true, ..idle() };
    assert_eq!(route_key_press(&picker, press(KeyCode::Backspace)), KeyRoute::FilePickerParent);
    assert_eq!(route_key_press(&picker, press(KeyCode::Char('k'))), KeyRoute::Ignored);
}

#[test]
fn loaded_world_keys_move_camera_or_scale_object() {
    let camera = RoutingState { editing_loaded_a3d: true, camera_targeted: true, ..idle() };
    assert_eq!(route_key_press(&camera, press(KeyCode::Char('+'))), KeyRoute::MoveCameraForward);
    assert_eq!(route_key_press(&camera, press(KeyCode::Char('_'))), KeyRoute::MoveCameraBackward);
    assert_eq!(route_key_press(&camera, press(KeyCode::Char('w'))), KeyRoute::Consumed);
    assert_eq!(route_key_press(&camera, press(KeyCode::Left)), KeyRoute::ToControlLayer);

    let object = RoutingState { editing_loaded_a3d: true, ..idle() };
    assert_eq!(route_key_press(&object, press(KeyCode::Char('='))), KeyRoute::GrowActiveObject);
    assert_eq!(route_key_press(&object, press(KeyCode::Char('-'))), KeyRoute::ShrinkActiveObject);
    assert_eq!(route_key_press(&object, press(KeyCode::Char('w'))), KeyRoute::ToControlLayer);
}

#[test]
fn unclaimed_keys_go_to_console_popup_then_mode() {
    let console = RoutingState { debug_console_visible: true, ..idle() };
    assert_eq!(
        route_unclaimed_key(&console, KeyCode::PageUp),
        KeyRoute::ScrollDebugConsole(ConsoleScroll::Up, 6)
    );
    assert_eq!(
        route_unclaimed_key(&console, KeyCode::Right),
        KeyRoute::ScrollDebugConsole(ConsoleScroll::Right, 8)
    );
    assert_eq!(route_unclaimed_key(&console, KeyCode::Char('o')), KeyRoute::CloseDebugConsole);
    assert_eq!(
        route_unclaimed_key(&console, KeyCode::Tab),
        KeyRoute::Command(AppCommand::ToggleControlMode)
    );
    assert_eq!(route_unclaimed_key(&console, KeyCode::Char('q')), KeyRoute::Consumed);

    let popup = RoutingState { debug_popup_visible: true, ..idle() };
    assert_eq!(route_unclaimed_key(&popup, KeyCode::Esc), KeyRoute::DismissDebugPopup);
    assert_eq!(route_unclaimed_key(&popup, KeyCode::Char('q')), KeyRoute::Command(AppCommand::Quit));

    let camera_mode = RoutingState { control_mode: ControlMode::Camera, ..idle() };
    assert_eq!(
        route_unclaimed_key(&camera_mode, KeyCode::Char('w')),
        KeyRoute::Command(AppCommand::MoveCameraForward)
    );
    assert_eq!(route_unclaimed_key(&idle(), KeyCode::Char('w')), KeyRoute::Ignored);
}

#[test]
fn continuous_keys_only_while_editing_without_modal_layers() {
    let editing = RoutingState { editing_loaded_a3d: true, ..idle() };
    assert!(is_continuous_control_key(&editing, press(KeyCode::Left)));
    assert!(is_continuous_control_key(&editing, press(KeyCode::Char('Z'))));
    assert!(!is_continuous_control_key(&editing, press(KeyCode::Char('w'))));

    let with_console = RoutingState { debug_console_visible: true, ..editing };
    assert!(!is_continuous_control_key(&with_console, press(KeyCode::Left)));
    assert!(!is_continuous_control_key(&idle(), press(KeyCode::Left)));
}

#[test]
fn scene_browser_opens_on_current_scene() {
    let mut browser = SceneBrowser::new();
    browser.position = 2;

    browser.open();

    assert!(browser.open);
    assert_eq!(browser.selected, 2);
}

#[test]
fn scene_browser_selects_requested_scene() {
    let mut browser = SceneBrowser::new();
    browser.open();
    browser.selected = 1;

    assert!(browser.select(4));

    assert!(!browser.open);
    assert_eq!(browser.position, 1);
}

#[test]
fn scene_browser_wraps_both_ways() {
    let mut browser = SceneBrowser::new();
    browser.open();
    browser.move_up(3);
    assert_eq!(browser.selected, 2);
    browser.move_down(3);
    assert_eq!(browser.selected, 0);
    browser.move_down(0);
    assert_eq!(browser.selected, 0);
    assert!(!browser.select(0));
    assert!(!browser.open);
    assert_eq!(browser.position, 0);
}

#[test]
fn menu_commands_open_move_and_take_rows() {
    let mut menus = AppMenus::new();
    assert_eq!(
        menus.apply_command(AppCommand::MenuSelect, ControlMode::Scene),
        MenuCommandOutcome::Ignored
    );
    assert_eq!(
        menus.apply_command(AppCommand::OpenMenu(MenuKind::Control), ControlMode::Camera),
        MenuCommandOutcome::Handled
    );
    assert_eq!(menus.active.as_ref().map(|menu| menu.selected_index()), Some(1));
    assert_eq!(
        menus.apply_command(AppCommand::MenuSelect, ControlMode::Camera),
        MenuCommandOutcome::Run(AppCommand::SetControlModeCamera)
    );
    assert!(menus.active.is_none());

    menus.apply_command(AppCommand::MenuRight, ControlMode::Scene);
    assert_eq!(menus.active.as_ref().map(|menu| menu.kind()), Some(MenuKind::File));
    menus.apply_command(AppCommand::MenuLeft, ControlMode::Scene);
    assert_eq!(menus.active.as_ref().map(|menu| menu.kind()), Some(MenuKind::Help));
    assert_eq!(
        menus.apply_command(AppCommand::ReloadA3d, ControlMode::Scene),
        MenuCommandOutcome::NotForMenus
    );
    assert_eq!(menus.active.as_ref().map(|menu| menu.kind()), Some(MenuKind::Help));
}

#[test]
fn application_starts_on_first_scene_index_entry() {
    let browser = SceneBrowser::new();

    assert_eq!(browser.position, 0);
    assert!(!browser.open);
}
