use vstd::prelude::*;

use crate::keys::{KeyCode, KeyEvent, KeyModifiers};

verus! {

/// An axis of the globe viewer's space.
#[derive(Debug, Clone, Copy, PartialEq, Eq, Structural)]
pub enum Axis {
    X,
    Y,
    Z,
}

/// A direction along an axis.
#[derive(Debug, Clone, Copy, PartialEq, Eq, Structural)]
pub enum Sign {
    Plus,
    Minus,
}

/// A view of the globe that a number key jumps to.
#[derive(Debug, Clone, Copy, PartialEq, Eq, Structural)]
pub enum GlobePreset {
    NorthAmerica,
    Europe,
    Asia,
    NorthernHemisphere,
}

/// What a key asks of the globe viewer; the viewer turns each into its own
/// steps of angle, distance and zoom.
#[derive(Debug, Clone, Copy, PartialEq, Eq, Structural)]
pub enum GlobeKeyAction {
    Quit,
    Preset(GlobePreset),
    StartSpin,
    StopSpin,
    ShowAxes,
    HideAxes,
    ToggleGuides,
    HideGuides,
    MoveOrigin(Axis, Sign),
    ResetOrigin,
    ZoomIn,
    ZoomOut,
    /// Turn the globe by one step about an axis.
    Rotate(Axis, Sign),
    /// Spin the globe about an axis from now on.
    SpinAbout(Axis),
    /// Go back to the starting view.
    Reset,
    Nothing,
}

/// The bit of the Control key among the modifiers.
pub open spec fn control_modifier() -> KeyModifiers {
    KeyModifiers(2)
}

/// What a key asks of the globe viewer, with Control held or not. Arrows
/// with Control move the origin; arrows without it turn the globe, as do
/// `i`, `k`, `j` and `l`. Control with `x`, `y` or `z`, or the raw control
/// character that some terminals send for it, spins the globe about that
/// axis; the bare letter turns it one step.
pub open spec fn spec_globe_key_action(code: KeyCode, control: bool) -> GlobeKeyAction {
    match code {
        KeyCode::Esc | KeyCode::Char('q') => GlobeKeyAction::Quit,
        KeyCode::Char('1') => GlobeKeyAction::Preset(GlobePreset::NorthAmerica),
        KeyCode::Char('2') => GlobeKeyAction::Preset(GlobePreset::Europe),
        KeyCode::Char('3') => GlobeKeyAction::Preset(GlobePreset::Asia),
        KeyCode::Char('4') => GlobeKeyAction::Preset(GlobePreset::NorthernHemisphere),
        KeyCode::Char('s') => GlobeKeyAction::StartSpin,
        KeyCode::Char('S') => GlobeKeyAction::StopSpin,
        KeyCode::Char('a') => GlobeKeyAction::ShowAxes,
        KeyCode::Char('A') => GlobeKeyAction::HideAxes,
        KeyCode::Char('g') => GlobeKeyAction::ToggleGuides,
        KeyCode::Char('G') => GlobeKeyAction::HideGuides,
        KeyCode::Left => if control {
            GlobeKeyAction::MoveOrigin(Axis::X, Sign::Minus)
        } else {
            GlobeKeyAction::Rotate(Axis::Y, Sign::Minus)
        },
        KeyCode::Right => if control {
            GlobeKeyAction::MoveOrigin(Axis::X, Sign::Plus)
        } else {
            GlobeKeyAction::Rotate(Axis::Y, Sign::Plus)
        },
        KeyCode::Up => if control {
            GlobeKeyAction::MoveOrigin(Axis::Y, Sign::Plus)
        } else {
            GlobeKeyAction::Rotate(Axis::X, Sign::Minus)
        },
        KeyCode::Down => if control {
            GlobeKeyAction::MoveOrigin(Axis::Y, Sign::Minus)
        } else {
            GlobeKeyAction::Rotate(Axis::X, Sign::Plus)
        },
        KeyCode::PageUp => GlobeKeyAction::MoveOrigin(Axis::Z, Sign::Plus),
        KeyCode::PageDown => GlobeKeyAction::MoveOrigin(Axis::Z, Sign::Minus),
        KeyCode::Char('0') => GlobeKeyAction::ResetOrigin,
        KeyCode::Char('+') | KeyCode::Char('=') => GlobeKeyAction::ZoomIn,
        KeyCode::Char('-') | KeyCode::Char('_') => GlobeKeyAction::ZoomOut,
        KeyCode::Char('i') => GlobeKeyAction::Rotate(Axis::X, Sign::Minus),
        KeyCode::Char('k') => GlobeKeyAction::Rotate(Axis::X, Sign::Plus),
        KeyCode::Char('j') => GlobeKeyAction::Rotate(Axis::Y, Sign::Minus),
        KeyCode::Char('l') => GlobeKeyAction::Rotate(Axis::Y, Sign::Plus),
        KeyCode::Char('x') => if control {
            GlobeKeyAction::SpinAbout(Axis::X)
        } else {
            GlobeKeyAction::Rotate(Axis::X, Sign::Plus)
        },
        KeyCode::Char('y') => if control {
            GlobeKeyAction::SpinAbout(Axis::Y)
        } else {
            GlobeKeyAction::Rotate(Axis::Y, Sign::Plus)
        },
        KeyCode::Char('z') => if control {
            GlobeKeyAction::SpinAbout(Axis::Z)
        } else {
            GlobeKeyAction::Rotate(Axis::Z, Sign::Plus)
        },
        KeyCode::Char('\u{18}') => GlobeKeyAction::SpinAbout(Axis::X),
        KeyCode::Char('\u{19}') => GlobeKeyAction::SpinAbout(Axis::Y),
        KeyCode::Char('\u{1a}') => GlobeKeyAction::SpinAbout(Axis::Z),
        KeyCode::Char('X') => GlobeKeyAction::Rotate(Axis::X, Sign::Minus),
        KeyCode::Char('Y') => GlobeKeyAction::Rotate(Axis::Y, Sign::Minus),
        KeyCode::Char('Z') => GlobeKeyAction::Rotate(Axis::Z, Sign::Minus),
        KeyCode::Char('r') => GlobeKeyAction::Reset,
        _ => GlobeKeyAction::Nothing,
    }
}

/// What `key` asks of the globe viewer; see `spec_globe_key_action`.
pub fn globe_key_action(key: KeyEvent) -> (action: GlobeKeyAction)
    ensures
        action == spec_globe_key_action(key.code, key.modifiers.spec_contains(control_modifier())),
{
    let control = key.modifiers.contains(KeyModifiers::control());
    match key.code {
        KeyCode::Esc | KeyCode::Char('q') => GlobeKeyAction::Quit,
        KeyCode::Char('1') => GlobeKeyAction::Preset(GlobePreset::NorthAmerica),
        KeyCode::Char('2') => GlobeKeyAction::Preset(GlobePreset::Europe),
        KeyCode::Char('3') => GlobeKeyAction::Preset(GlobePreset::Asia),
        KeyCode::Char('4') => GlobeKeyAction::Preset(GlobePreset::NorthernHemisphere),
        KeyCode::Char('s') => GlobeKeyAction::StartSpin,
        KeyCode::Char('S') => GlobeKeyAction::StopSpin,
        KeyCode::Char('a') => GlobeKeyAction::ShowAxes,
        KeyCode::Char('A') => GlobeKeyAction::HideAxes,
        KeyCode::Char('g') => GlobeKeyAction::ToggleGuides,
        KeyCode::Char('G') => GlobeKeyAction::HideGuides,
        KeyCode::Left => if control {
            GlobeKeyAction::MoveOrigin(Axis::X, Sign::Minus)
        } else {
            GlobeKeyAction::Rotate(Axis::Y, Sign::Minus)
        },
        KeyCode::Right => if control {
            GlobeKeyAction::MoveOrigin(Axis::X, Sign::Plus)
        } else {
            GlobeKeyAction::Rotate(Axis::Y, Sign::Plus)
        },
        KeyCode::Up => if control {
            GlobeKeyAction::MoveOrigin(Axis::Y, Sign::Plus)
        } else {
            GlobeKeyAction::Rotate(Axis::X, Sign::Minus)
        },
        KeyCode::Down => if control {
            GlobeKeyAction::MoveOrigin(Axis::Y, Sign::Minus)
        } else {
            GlobeKeyAction::Rotate(Axis::X, Sign::Plus)
        },
        KeyCode::PageUp => GlobeKeyAction::MoveOrigin(Axis::Z, Sign::Plus),
        KeyCode::PageDown => GlobeKeyAction::MoveOrigin(Axis::Z, Sign::Minus),
        KeyCode::Char('0') => GlobeKeyAction::ResetOrigin,
        KeyCode::Char('+') | KeyCode::Char('=') => GlobeKeyAction::ZoomIn,
        KeyCode::Char('-') | KeyCode::Char('_') => GlobeKeyAction::ZoomOut,
        KeyCode::Char('i') => GlobeKeyAction::Rotate(Axis::X, Sign::Minus),
        KeyCode::Char('k') => GlobeKeyAction::Rotate(Axis::X, Sign::Plus),
        KeyCode::Char('j') => GlobeKeyAction::Rotate(Axis::Y, Sign::Minus),
        KeyCode::Char('l') => GlobeKeyAction::Rotate(Axis::Y, Sign::Plus),
        KeyCode::Char('x') => if control {
            GlobeKeyAction::SpinAbout(Axis::X)
        } else {
            GlobeKeyAction::Rotate(Axis::X, Sign::Plus)
        },
        KeyCode::Char('y') => if control {
            GlobeKeyAction::SpinAbout(Axis::Y)
        } else {
            GlobeKeyAction::Rotate(Axis::Y, Sign::Plus)
        },
        KeyCode::Char('z') => if control {
            GlobeKeyAction::SpinAbout(Axis::Z)
        } else {
            GlobeKeyAction::Rotate(Axis::Z, Sign::Plus)
        },
        KeyCode::Char('\u{18}') => GlobeKeyAction::SpinAbout(Axis::X),
        KeyCode::Char('\u{19}') => GlobeKeyAction::SpinAbout(Axis::Y),
        KeyCode::Char('\u{1a}') => GlobeKeyAction::SpinAbout(Axis::Z),
        KeyCode::Char('X') => GlobeKeyAction::Rotate(Axis::X, Sign::Minus),
        KeyCode::Char('Y') => GlobeKeyAction::Rotate(Axis::Y, Sign::Minus),
        KeyCode::Char('Z') => GlobeKeyAction::Rotate(Axis::Z, Sign::Minus),
        KeyCode::Char('r') => GlobeKeyAction::Reset,
        _ => GlobeKeyAction::Nothing,
    }
}

/// The raw control characters that some terminals send for Control with
/// `x`, `y` or `z` do what Control with the letter does, held Control or
/// not.
pub proof fn law_raw_control_characters_spin_like_control_letters(control: bool)
    ensures
        spec_globe_key_action(KeyCode::Char('\u{18}'), control) == spec_globe_key_action(
            KeyCode::Char('x'),
            true,
        ),
        spec_globe_key_action(KeyCode::Char('\u{19}'), control) == spec_globe_key_action(
            KeyCode::Char('y'),
            true,
        ),
        spec_globe_key_action(KeyCode::Char('\u{1a}'), control) == spec_globe_key_action(
            KeyCode::Char('z'),
            true,
        ),
{
}

/// Where a terminal keeps Control with the arrows to itself, the bare
/// arrows still turn the globe, the same way as `i`, `k`, `j` and `l`.
pub proof fn law_arrows_turn_like_letter_keys()
    ensures
        spec_globe_key_action(KeyCode::Up, false) == spec_globe_key_action(KeyCode::Char('i'), false),
        spec_globe_key_action(KeyCode::Down, false) == spec_globe_key_action(
            KeyCode::Char('k'),
            false,
        ),
        spec_globe_key_action(KeyCode::Left, false) == spec_globe_key_action(
            KeyCode::Char('j'),
            false,
        ),
        spec_globe_key_action(KeyCode::Right, false) == spec_globe_key_action(
            KeyCode::Char('l'),
            false,
        ),
{
}

/// `+` and `=` zoom in and `-` and `_` zoom out, with or without Ctrl, and
/// no other key zooms either way.
pub proof fn law_zoom_keys(code: KeyCode, control: bool)
    ensures
        spec_globe_key_action(KeyCode::Char('+'), control) == GlobeKeyAction::ZoomIn,
        spec_globe_key_action(KeyCode::Char('='), control) == GlobeKeyAction::ZoomIn,
        spec_globe_key_action(KeyCode::Char('-'), control) == GlobeKeyAction::ZoomOut,
        spec_globe_key_action(KeyCode::Char('_'), control) == GlobeKeyAction::ZoomOut,
        (spec_globe_key_action(code, control) == GlobeKeyAction::ZoomIn) <==> (code
            == KeyCode::Char('+') || code == KeyCode::Char('=')),
        (spec_globe_key_action(code, control) == GlobeKeyAction::ZoomOut) <==> (code
            == KeyCode::Char('-') || code == KeyCode::Char('_')),
{
}

/// Paired keys do opposite things, with or without Ctrl unless said: `s`
/// starts the spin and `S` stops it, `a` shows the axes and `A` hides them;
/// `k` and `i` turn the globe about X one way and the other, `l` and `j`
/// about Y; without Ctrl each axis letter turns the globe forwards about its
/// axis and its capital backwards; with Ctrl the arrows move the origin,
/// Right and Left along X, Up and Down along Y, and Page Up and Page Down
/// move it along Z.
pub proof fn law_paired_keys_do_opposite_things(control: bool)
    ensures
        spec_globe_key_action(KeyCode::Char('s'), control) == GlobeKeyAction::StartSpin,
        spec_globe_key_action(KeyCode::Char('S'), control) == GlobeKeyAction::StopSpin,
        spec_globe_key_action(KeyCode::Char('a'), control) == GlobeKeyAction::ShowAxes,
        spec_globe_key_action(KeyCode::Char('A'), control) == GlobeKeyAction::HideAxes,
        spec_globe_key_action(KeyCode::Char('k'), control) == GlobeKeyAction::Rotate(Axis::X, Sign::Plus),
        spec_globe_key_action(KeyCode::Char('i'), control) == GlobeKeyAction::Rotate(Axis::X, Sign::Minus),
        spec_globe_key_action(KeyCode::Char('l'), control) == GlobeKeyAction::Rotate(Axis::Y, Sign::Plus),
        spec_globe_key_action(KeyCode::Char('j'), control) == GlobeKeyAction::Rotate(Axis::Y, Sign::Minus),
        spec_globe_key_action(KeyCode::Char('x'), false) == GlobeKeyAction::Rotate(Axis::X, Sign::Plus),
        spec_globe_key_action(KeyCode::Char('X'), control) == GlobeKeyAction::Rotate(Axis::X, Sign::Minus),
        spec_globe_key_action(KeyCode::Char('y'), false) == GlobeKeyAction::Rotate(Axis::Y, Sign::Plus),
        spec_globe_key_action(KeyCode::Char('Y'), control) == GlobeKeyAction::Rotate(Axis::Y, Sign::Minus),
        spec_globe_key_action(KeyCode::Char('z'), false) == GlobeKeyAction::Rotate(Axis::Z, Sign::Plus),
        spec_globe_key_action(KeyCode::Char('Z'), control) == GlobeKeyAction::Rotate(Axis::Z, Sign::Minus),
        spec_globe_key_action(KeyCode::Right, true) == GlobeKeyAction::MoveOrigin(Axis::X, Sign::Plus),
        spec_globe_key_action(KeyCode::Left, true) == GlobeKeyAction::MoveOrigin(Axis::X, Sign::Minus),
        spec_globe_key_action(KeyCode::Up, true) == GlobeKeyAction::MoveOrigin(Axis::Y, Sign::Plus),
        spec_globe_key_action(KeyCode::Down, true) == GlobeKeyAction::MoveOrigin(Axis::Y, Sign::Minus),
        spec_globe_key_action(KeyCode::PageUp, control) == GlobeKeyAction::MoveOrigin(Axis::Z, Sign::Plus),
        spec_globe_key_action(KeyCode::PageDown, control) == GlobeKeyAction::MoveOrigin(Axis::Z, Sign::Minus),
{
}

/// Esc and `q` are the only keys that quit, `r` the only one that goes back
/// to the starting view, `0` the only one that puts the origin back, and
/// `1` to `4` choose four different presets.
pub proof fn law_single_purpose_keys(code: KeyCode, control: bool)
    ensures
        (spec_globe_key_action(code, control) == GlobeKeyAction::Quit) <==> (code == KeyCode::Esc
            || code == KeyCode::Char('q')),
        (spec_globe_key_action(code, control) == GlobeKeyAction::Reset) <==> code == KeyCode::Char(
            'r',
        ),
        (spec_globe_key_action(code, control) == GlobeKeyAction::ResetOrigin) <==> code
            == KeyCode::Char('0'),
        spec_globe_key_action(KeyCode::Char('1'), control) == GlobeKeyAction::Preset(GlobePreset::NorthAmerica),
        spec_globe_key_action(KeyCode::Char('2'), control) == GlobeKeyAction::Preset(GlobePreset::Europe),
        spec_globe_key_action(KeyCode::Char('3'), control) == GlobeKeyAction::Preset(GlobePreset::Asia),
        spec_globe_key_action(KeyCode::Char('4'), control) == GlobeKeyAction::Preset(
            GlobePreset::NorthernHemisphere,
        ),
{
}

/// The axis that the globe spins about, from the letter the viewer keeps;
/// any other letter spins it about Y.
pub open spec fn spec_spin_axis(letter: char) -> Axis {
    if letter == 'x' {
        Axis::X
    } else if letter == 'z' {
        Axis::Z
    } else {
        Axis::Y
    }
}

pub fn spin_axis(letter: char) -> (axis: Axis)
    ensures
        axis == spec_spin_axis(letter),
{
    if letter == 'x' {
        Axis::X
    } else if letter == 'z' {
        Axis::Z
    } else {
        Axis::Y
    }
}

} // verus!
