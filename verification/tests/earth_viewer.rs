use ascii_3d::earth_viewer::{globe_key_action, spin_axis, Axis, GlobeKeyAction, GlobePreset, Sign};
use ascii_3d::keys::{KeyCode, KeyEvent, KeyModifiers};

fn plain(code: KeyCode) -> GlobeKeyAction {
    globe_key_action(KeyEvent::new(code, KeyModifiers::none()))
}

fn with_control(code: KeyCode) -> GlobeKeyAction {
    globe_key_action(KeyEvent::new(code, KeyModifiers::control()))
}

#[test]
fn globe_keys_map_to_actions() {
    assert_eq!(plain(KeyCode::Char('q')), GlobeKeyAction::Quit);
    assert_eq!(plain(KeyCode::Char('2')), GlobeKeyAction::Preset(GlobePreset::Europe));
    assert_eq!(plain(KeyCode::Char('S')), GlobeKeyAction::StopSpin);
    assert_eq!(plain(KeyCode::Char('g')), GlobeKeyAction::ToggleGuides);
    assert_eq!(plain(KeyCode::PageDown), GlobeKeyAction::MoveOrigin(Axis::Z, Sign::Minus));
    assert_eq!(plain(KeyCode::Char('_')), GlobeKeyAction::ZoomOut);
    assert_eq!(plain(KeyCode::Char('r')), GlobeKeyAction::Reset);
    assert_eq!(plain(KeyCode::Char('w')), GlobeKeyAction::Nothing);
}

#[test]
fn control_arrows_move_origin_and_bare_arrows_turn() {
    assert_eq!(with_control(KeyCode::Left), GlobeKeyAction::MoveOrigin(Axis::X, Sign::Minus));
    assert_eq!(with_control(KeyCode::Up), GlobeKeyAction::MoveOrigin(Axis::Y, Sign::Plus));
    assert_eq!(plain(KeyCode::Left), GlobeKeyAction::Rotate(Axis::Y, Sign::Minus));
    assert_eq!(plain(KeyCode::Up), plain(KeyCode::Char('i')));
    assert_eq!(plain(KeyCode::Down), GlobeKeyAction::Rotate(Axis::X, Sign::Plus));
}

#[test]
fn control_letters_and_raw_control_characters_spin() {
    assert_eq!(with_control(KeyCode::Char('x')), GlobeKeyAction::SpinAbout(Axis::X));
    assert_eq!(plain(KeyCode::Char('\u{19}')), GlobeKeyAction::SpinAbout(Axis::Y));
    assert_eq!(plain(KeyCode::Char('\u{1a}')), with_control(KeyCode::Char('z')));
    assert_eq!(plain(KeyCode::Char('x')), GlobeKeyAction::Rotate(Axis::X, Sign::Plus));
    assert_eq!(plain(KeyCode::Char('Z')), GlobeKeyAction::Rotate(Axis::Z, Sign::Minus));
}

#[test]
fn spin_axis_defaults_to_y() {
    assert_eq!(spin_axis('x'), Axis::X);
    assert_eq!(spin_axis('z'), Axis::Z);
    assert_eq!(spin_axis('y'), Axis::Y);
    assert_eq!(spin_axis('q'), Axis::Y);
}
