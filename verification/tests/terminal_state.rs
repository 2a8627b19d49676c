use ascii_3d::debug_console::DebugConsole;
use ascii_3d::keys::{KeyCode, KeyEvent, KeyModifiers};
use ascii_3d::menu::MenuKind;
use ascii_3d::navigation::ControlMode;
use ascii_3d::terminal_state::{
    centered_editor_rect, control_mode_menu_index, describe_key_code,
    exit_confirm_popup_lines, next_control_mode, AppMenus, ContinuousInputSampler,
    GlyphStrokeSelection, PanelRect, key_trace_line,
};

const MILLISECOND: u64 = 1_000_000;

#[test]
fn glyph_stroke_character_defaults_to_star() {
    let selection = GlyphStrokeSelection::new();

    assert_eq!(selection.character(), '*');
}

#[test]
fn glyph_stroke_character_cycles_forward_and_backward() {
    let mut selection = GlyphStrokeSelection::new();

    selection.next();
    assert_eq!(selection.character(), '+');

    selection.previous();
    assert_eq!(selection.character(), '*');
}

#[test]
fn glyph_stroke_character_wraps_backward_to_last_curated_character() {
    let mut selection = GlyphStrokeSelection::new();

    selection.previous();

    assert_eq!(selection.character(), '░');
}

#[test]
fn glyph_stroke_position_counts_from_one_and_wraps_forward() {
    let mut selection = GlyphStrokeSelection::new();
    assert_eq!(selection.position(), 1);
    assert_eq!(selection.count(), 37);
    for _ in 0..37 {
        selection.next();
    }
    assert_eq!(selection.position(), 1);
    selection.previous();
    assert_eq!(selection.position(), 37);
}

#[test]
fn console_keeps_the_newest_five_hundred_lines() {
    let mut console = DebugConsole::new();
    for index in 0..510 {
        console.push_line(format!("line {index}"));
    }
    console.toggle(Vec::new());
    let lines = console.popup_lines().unwrap();
    assert_eq!(lines[0], "Debug Console v[494/494] h[0] PageUp/PageDown Left/Right");
    assert_eq!(lines[1], "Debug menu -> Toggle debug console hides this popup");
    assert_eq!(lines[2], "");
    assert_eq!(lines.len(), 3 + 24);
    assert_eq!(lines[3], "line 487");
    assert_eq!(lines[26], "debug console: shown");
    assert_eq!(console.max_scroll(), 494);
}

#[test]
fn console_scrolls_within_its_bounds() {
    let mut console = DebugConsole::new();
    for index in 0..10 {
        console.push_line(format!("entry {index}"));
    }
    assert_eq!(console.visible_rows(), 6);
    assert_eq!(console.max_scroll(), 4);
    console.scroll_up(6);
    console.toggle(vec!["world debug: none".to_string()]);
    assert!(console.is_visible());
    assert_eq!(console.max_scroll(), 6);
    console.scroll_up(6);
    console.scroll_up(6);
    let lines = console.popup_lines().unwrap();
    assert_eq!(lines[0], "Debug Console v[0/6] h[0] PageUp/PageDown Left/Right");
    assert_eq!(lines[3], "entry 0");
    console.scroll_down(100);
    console.scroll_right(3);
    let lines = console.popup_lines().unwrap();
    assert_eq!(lines[0], "Debug Console v[6/6] h[3] PageUp/PageDown Left/Right");
    assert_eq!(lines[3], "ry 0");
    assert_eq!(lines[13], "ld debug: none");
    console.scroll_left(10);
    console.close();
    assert!(console.popup_lines().is_none());
}

#[test]
fn hidden_console_shows_no_popup_and_notes_toggles() {
    let mut console = DebugConsole::new();
    assert!(console.popup_lines().is_none());
    console.toggle(Vec::new());
    console.toggle(vec!["ignored while hiding".to_string()]);
    assert!(!console.is_visible());
    console.toggle(Vec::new());
    let lines = console.popup_lines().unwrap();
    assert_eq!(
        &lines[3..],
        &[
            "debug console: shown".to_string(),
            "debug console: hidden".to_string(),
            "debug console: shown".to_string()
        ]
    );
}

#[test]
fn control_menu_opens_on_the_current_mode() {
    let mut menus = AppMenus::new();
    menus.open_menu(MenuKind::Control, ControlMode::Light);
    let menu = menus.active.as_ref().unwrap();
    assert_eq!(menu.kind(), MenuKind::Control);
    assert_eq!(menu.selected_index(), 2);
    menus.open_menu(MenuKind::Debug, ControlMode::Light);
    assert_eq!(menus.active.as_ref().unwrap().selected_index(), 0);
    assert_eq!(control_mode_menu_index(ControlMode::Camera), 1);
}

#[test]
fn menu_bar_toggles_and_steps_between_menus() {
    let mut menus = AppMenus::new();
    menus.open_next_menu();
    assert_eq!(menus.active.as_ref().unwrap().kind(), MenuKind::File);
    menus.open_next_menu();
    assert_eq!(menus.active.as_ref().unwrap().kind(), MenuKind::Scenes);
    menus.open_previous_menu();
    menus.open_previous_menu();
    assert_eq!(menus.active.as_ref().unwrap().kind(), MenuKind::Help);
    menus.toggle_menu_bar(ControlMode::Scene);
    assert!(menus.active.is_none());
    menus.toggle_menu_bar(ControlMode::Scene);
    assert_eq!(menus.active.as_ref().unwrap().kind(), MenuKind::File);
    menus.move_menu_down();
    assert_eq!(menus.active.as_ref().unwrap().selected_index(), 1);
    menus.move_menu_up();
    assert_eq!(menus.active.as_ref().unwrap().selected_index(), 0);
    assert!(menus.open_menu_for_hotkey(KeyCode::Char('G'), ControlMode::Scene));
    assert_eq!(menus.active.as_ref().unwrap().kind(), MenuKind::Glyphs);
    assert!(!menus.open_menu_for_hotkey(KeyCode::Char('x'), ControlMode::Scene));
    assert_eq!(menus.active.as_ref().unwrap().kind(), MenuKind::Glyphs);
    menus.close_menu();
    menus.move_menu_down();
    assert!(menus.active.is_none());
}

#[test]
fn tab_cycles_through_the_three_modes() {
    assert_eq!(next_control_mode(ControlMode::Scene), ControlMode::Camera);
    assert_eq!(next_control_mode(ControlMode::Camera), ControlMode::Light);
    assert_eq!(next_control_mode(ControlMode::Light), ControlMode::Scene);
}

#[test]
fn centred_rect_fits_inside_its_area() {
    let area = PanelRect { x: 10, y: 5, width: 80, height: 20 };
    assert_eq!(
        centered_editor_rect(40, 10, area),
        PanelRect { x: 30, y: 10, width: 40, height: 10 }
    );
    assert_eq!(
        centered_editor_rect(100, 30, area),
        PanelRect { x: 10, y: 5, width: 80, height: 20 }
    );
}

#[test]
fn exit_confirmation_lines() {
    assert!(exit_confirm_popup_lines(false).is_none());
    let lines = exit_confirm_popup_lines(true).unwrap();
    assert_eq!(lines[0], "Exit ascii-3d");
    assert_eq!(lines[4], "Enter / y  = Yes, exit");
    assert_eq!(lines.len(), 6);
}

#[test]
fn key_names() {
    assert_eq!(describe_key_code(KeyCode::PageUp), "PageUp");
    assert_eq!(describe_key_code(KeyCode::Char('x')), "'x'");
    assert_eq!(describe_key_code(KeyCode::F(12)), "F12");
    assert_eq!(describe_key_code(KeyCode::Esc), "Esc");
}

fn press(character: char) -> KeyEvent {
    KeyEvent::new(KeyCode::Char(character), KeyModifiers::none())
}

#[test]
fn sampler_applies_a_new_key_at_once_then_waits() {
    let mut sampler = ContinuousInputSampler::new();
    let start = 1_000 * MILLISECOND;
    sampler.observe(press('x'), start);
    assert_eq!(sampler.sample(start), Some((press('x'), 1)));
    assert_eq!(sampler.sample(start), None);
    sampler.observe(press('x'), start + 10 * MILLISECOND);
    assert_eq!(sampler.sample(start + 10 * MILLISECOND), None);
    assert_eq!(sampler.sample(start + 16 * MILLISECOND), Some((press('x'), 1)));
}

#[test]
fn sampler_speeds_up_a_long_hold() {
    let mut sampler = ContinuousInputSampler::new();
    let start = 1_000 * MILLISECOND;
    let mut steps = Vec::new();
    for tick in 0..20 {
        let now = start + tick * 100 * MILLISECOND;
        sampler.observe(press('x'), now);
        if let Some((_, count)) = sampler.sample(now) {
            steps.push(count);
        }
    }
    assert_eq!(steps[0], 1);
    assert_eq!(steps[5], 2);
    assert_eq!(steps[19], 3);
}

#[test]
fn sampler_restarts_the_hold_after_a_pause_or_another_key() {
    let mut sampler = ContinuousInputSampler::new();
    let start = 1_000 * MILLISECOND;
    sampler.observe(press('x'), start);
    sampler.sample(start);
    sampler.observe(press('x'), start + 400 * MILLISECOND);
    assert_eq!(sampler.sample(start + 400 * MILLISECOND), Some((press('x'), 2)));
    sampler.observe(press('x'), start + 2_000 * MILLISECOND);
    assert_eq!(sampler.sample(start + 2_000 * MILLISECOND), Some((press('x'), 1)));
    sampler.observe(press('y'), start + 2_001 * MILLISECOND);
    assert_eq!(sampler.sample(start + 2_001 * MILLISECOND), Some((press('y'), 1)));
    sampler.clear();
    assert_eq!(sampler.sample(start + 3_000 * MILLISECOND), None);
}

#[test]
fn key_trace_line_names_key_scene_mode_and_menu() {
    assert_eq!(
        key_trace_line("active scene key", KeyCode::Char('x'), "Loaded A3D", ControlMode::Camera, None),
        "active scene key: key 'x' | scene Loaded A3D | mode Camera | menu closed"
    );
    assert_eq!(
        key_trace_line("menu", KeyCode::F(5), "Cube", ControlMode::Scene, Some(MenuKind::Help)),
        "menu: key F5 | scene Cube | mode World | menu Help"
    );
}
