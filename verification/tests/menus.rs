use ascii_3d::canvas::Canvas;
use ascii_3d::geometry2d::Point2;
use ascii_3d::input::{
    camera_mode_command_for_key, light_mode_command_for_key, menu_command_for_key,
    scene_mode_command_for_key, AppCommand,
};
use ascii_3d::keys::KeyCode;
use ascii_3d::menu::{draw_menu, MenuItem, MenuKind, MenuState};
use ascii_3d::navigation::{
    menu_kind_for_hotkey, next_menu_kind, previous_menu_kind, ControlMode,
};

const KINDS: [MenuKind; 7] = [
    MenuKind::File,
    MenuKind::Scenes,
    MenuKind::Control,
    MenuKind::Glyphs,
    MenuKind::Physics,
    MenuKind::Debug,
    MenuKind::Help,
];

#[test]
fn menu_titles_and_hotkeys() {
    assert_eq!(MenuKind::File.title(), "File");
    assert_eq!(MenuKind::Help.title(), "Help");
    assert_eq!(MenuKind::Scenes.hotkey(), "m");
    assert_eq!(MenuKind::Help.hotkey(), "h/?");
}

#[test]
fn file_menu_lists_load_reload_and_exit() {
    let items = MenuKind::File.items();
    assert_eq!(items.len(), 3);
    assert_eq!(items[0], MenuItem::new_real("Load .a3d...", AppCommand::OpenA3dFilePicker));
    assert_eq!(items[2].command, AppCommand::Quit);
    assert!(!items[2].placeholder);
}

#[test]
fn placeholder_rows_are_marked() {
    let items = MenuKind::Glyphs.items();
    assert_eq!(items.len(), 5);
    assert!(!items[0].placeholder);
    assert!(items[2].placeholder);
    assert_eq!(items[2], MenuItem::placeholder("Next glyph", AppCommand::NextGlyph));
    assert_eq!(MenuKind::Control.items().len(), 14);
    assert_eq!(MenuKind::Help.items().len(), 4);
}

#[test]
fn menu_selection_wraps_both_ways() {
    let mut state = MenuState::new(MenuKind::File);
    assert_eq!(state.selected_index(), 0);
    state.move_up();
    assert_eq!(state.selected_index(), 2);
    assert_eq!(state.selected_command(), AppCommand::Quit);
    state.move_down();
    assert_eq!(state.selected_index(), 0);
    state.move_down();
    assert_eq!(state.selected_command(), AppCommand::ReloadA3d);
    state.move_up();
    assert_eq!(state.selected_index(), 0);
}

#[test]
fn with_selected_clamps_to_the_last_row() {
    let state = MenuState::with_selected(MenuKind::Scenes, 9);
    assert_eq!(state.kind(), MenuKind::Scenes);
    assert_eq!(state.selected_index(), 1);
    assert_eq!(state.selected_command(), AppCommand::PreviousScene);
    let state = MenuState::with_selected(MenuKind::Debug, 3);
    assert_eq!(state.selected_index(), 3);
}

#[test]
fn menu_bindings_cover_navigation() {
    let bindings = MenuState::bindings();
    assert_eq!(bindings.len(), 4);
    assert_eq!(bindings[0].command, AppCommand::MenuDown);
    assert_eq!(bindings[3].key, "Esc");
}

#[test]
fn drawn_menu_has_border_heading_and_selector() {
    let mut canvas = Canvas::new(60, 10);
    let mut state = MenuState::new(MenuKind::Physics);
    state.move_down();
    draw_menu(&mut canvas, &state, Point2::new(1, 1));
    let rendered = canvas.render();
    let rows: Vec<&str> = rendered.split("\r\n").collect();
    assert_eq!(&rows[1][1..45], "+==========================================+");
    assert_eq!(&rows[2][1..30], "| Physics menu [p]           ");
    assert!(rows[3].starts_with(" |   Pause/play simulation (placeholder)"));
    assert!(rows[4].starts_with(" | > Step simulation (placeholder)"));
    assert_eq!(&rows[5][1..45], "|                                          |");
    assert_eq!(&rows[6][1..45], "+==========================================+");
}

#[test]
fn menu_kinds_cycle_in_menu_bar_order() {
    assert_eq!(next_menu_kind(MenuKind::File), MenuKind::Scenes);
    assert_eq!(next_menu_kind(MenuKind::Help), MenuKind::File);
    assert_eq!(previous_menu_kind(MenuKind::File), MenuKind::Help);
    for kind in KINDS {
        assert_eq!(previous_menu_kind(next_menu_kind(kind)), kind);
        assert_eq!(next_menu_kind(previous_menu_kind(kind)), kind);
        let mut current = kind;
        for _ in 0..7 {
            current = next_menu_kind(current);
        }
        assert_eq!(current, kind);
    }
}

#[test]
fn hotkeys_open_menus_in_either_case() {
    assert_eq!(menu_kind_for_hotkey(KeyCode::Char('f')), Some(MenuKind::File));
    assert_eq!(menu_kind_for_hotkey(KeyCode::Char('M')), Some(MenuKind::Scenes));
    assert_eq!(menu_kind_for_hotkey(KeyCode::Char('?')), Some(MenuKind::Help));
    assert_eq!(menu_kind_for_hotkey(KeyCode::Char('z')), None);
    assert_eq!(menu_kind_for_hotkey(KeyCode::Enter), None);
}

#[test]
fn control_mode_labels() {
    assert_eq!(ControlMode::Scene.label(), "World");
    assert_eq!(ControlMode::Camera.label(), "Camera");
    assert_eq!(ControlMode::Light.label(), "Light");
}

#[test]
fn menu_keys_navigate_and_close() {
    assert_eq!(menu_command_for_key(KeyCode::Esc), Some(AppCommand::CloseMenu));
    assert_eq!(menu_command_for_key(KeyCode::Char('j')), Some(AppCommand::MenuDown));
    assert_eq!(menu_command_for_key(KeyCode::Char('K')), Some(AppCommand::MenuUp));
    assert_eq!(menu_command_for_key(KeyCode::Enter), Some(AppCommand::MenuSelect));
    assert_eq!(menu_command_for_key(KeyCode::Char('x')), None);
}

#[test]
fn scene_mode_keys_open_menus_and_quit() {
    assert_eq!(scene_mode_command_for_key(KeyCode::Char('q')), Some(AppCommand::Quit));
    assert_eq!(
        scene_mode_command_for_key(KeyCode::Char('g')),
        Some(AppCommand::OpenMenu(MenuKind::Glyphs))
    );
    assert_eq!(scene_mode_command_for_key(KeyCode::Tab), Some(AppCommand::ToggleControlMode));
    assert_eq!(scene_mode_command_for_key(KeyCode::Char('w')), None);
}

#[test]
fn camera_mode_keys_move_and_rotate_the_camera() {
    assert_eq!(
        camera_mode_command_for_key(KeyCode::Char('W')),
        Some(AppCommand::MoveCameraForward)
    );
    assert_eq!(
        camera_mode_command_for_key(KeyCode::Left),
        Some(AppCommand::RotateCameraLeft)
    );
    assert_eq!(camera_mode_command_for_key(KeyCode::Char('q')), Some(AppCommand::MoveCameraDown));
    assert_eq!(camera_mode_command_for_key(KeyCode::Esc), Some(AppCommand::Quit));
}

#[test]
fn light_mode_tells_small_and_capital_w_apart() {
    assert_eq!(
        light_mode_command_for_key(KeyCode::Char('w')),
        Some(AppCommand::MoveLightForward)
    );
    assert_eq!(
        light_mode_command_for_key(KeyCode::Char('W')),
        Some(AppCommand::SetControlModeScene)
    );
    assert_eq!(light_mode_command_for_key(KeyCode::Up), Some(AppCommand::MoveLightUp));
}
