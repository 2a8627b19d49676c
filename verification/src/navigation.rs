use vstd::prelude::*;

use crate::keys::KeyCode;
use crate::menu::model::MenuKind;

verus! {

/// What the movement keys of the terminal application steer.
#[derive(Debug, Clone, Copy, PartialEq, Eq, Structural)]
pub enum ControlMode {
    Scene,
    Camera,
    Light,
}

impl ControlMode {
    pub open spec fn spec_label(self) -> Seq<char> {
        match self {
            ControlMode::Scene => "World"@,
            ControlMode::Camera => "Camera"@,
            ControlMode::Light => "Light"@,
        }
    }

    /// The name shown in the status line.
    pub fn label(self) -> (label: &'static str)
        ensures
            label@ == self.spec_label(),
    {
        match self {
            ControlMode::Scene => "World",
            ControlMode::Camera => "Camera",
            ControlMode::Light => "Light",
        }
    }
}

/// The menu to the right of `kind`, from the last back to the first.
pub open spec fn spec_next_menu_kind(kind: MenuKind) -> MenuKind {
    match kind {
        MenuKind::File => MenuKind::Scenes,
        MenuKind::Scenes => MenuKind::Control,
        MenuKind::Control => MenuKind::Glyphs,
        MenuKind::Glyphs => MenuKind::Physics,
        MenuKind::Physics => MenuKind::Debug,
        MenuKind::Debug => MenuKind::Help,
        MenuKind::Help => MenuKind::File,
    }
}

/// The menu to the left of `kind`, from the first back to the last.
pub open spec fn spec_previous_menu_kind(kind: MenuKind) -> MenuKind {
    match kind {
        MenuKind::File => MenuKind::Help,
        MenuKind::Scenes => MenuKind::File,
        MenuKind::Control => MenuKind::Scenes,
        MenuKind::Glyphs => MenuKind::Control,
        MenuKind::Physics => MenuKind::Glyphs,
        MenuKind::Debug => MenuKind::Physics,
        MenuKind::Help => MenuKind::Debug,
    }
}

pub fn next_menu_kind(kind: MenuKind) -> (next: MenuKind)
    ensures
        next == spec_next_menu_kind(kind),
{
    match kind {
        MenuKind::File => MenuKind::Scenes,
        MenuKind::Scenes => MenuKind::Control,
        MenuKind::Control => MenuKind::Glyphs,
        MenuKind::Glyphs => MenuKind::Physics,
        MenuKind::Physics => MenuKind::Debug,
        MenuKind::Debug => MenuKind::Help,
        MenuKind::Help => MenuKind::File,
    }
}

pub fn previous_menu_kind(kind: MenuKind) -> (previous: MenuKind)
    ensures
        previous == spec_previous_menu_kind(kind),
{
    match kind {
        MenuKind::File => MenuKind::Help,
        MenuKind::Scenes => MenuKind::File,
        MenuKind::Control => MenuKind::Scenes,
        MenuKind::Glyphs => MenuKind::Control,
        MenuKind::Physics => MenuKind::Glyphs,
        MenuKind::Debug => MenuKind::Physics,
        MenuKind::Help => MenuKind::Debug,
    }
}

/// The menu a hotkey opens from the menu bar, in either case.
pub open spec fn spec_menu_kind_for_hotkey(key: KeyCode) -> Option<MenuKind> {
    match key {
        KeyCode::Char('f') | KeyCode::Char('F') => Some(MenuKind::File),
        KeyCode::Char('m') | KeyCode::Char('M') => Some(MenuKind::Scenes),
        KeyCode::Char('c') | KeyCode::Char('C') => Some(MenuKind::Control),
        KeyCode::Char('g') | KeyCode::Char('G') => Some(MenuKind::Glyphs),
        KeyCode::Char('p') | KeyCode::Char('P') => Some(MenuKind::Physics),
        KeyCode::Char('d') | KeyCode::Char('D') => Some(MenuKind::Debug),
        KeyCode::Char('h') | KeyCode::Char('H') | KeyCode::Char('?') => Some(MenuKind::Help),
        _ => None,
    }
}

pub fn menu_kind_for_hotkey(key: KeyCode) -> (kind: Option<MenuKind>)
    ensures
        kind == spec_menu_kind_for_hotkey(key),
{
    match key {
        KeyCode::Char('f') | KeyCode::Char('F') => Some(MenuKind::File),
        KeyCode::Char('m') | KeyCode::Char('M') => Some(MenuKind::Scenes),
        KeyCode::Char('c') | KeyCode::Char('C') => Some(MenuKind::Control),
        KeyCode::Char('g') | KeyCode::Char('G') => Some(MenuKind::Glyphs),
        KeyCode::Char('p') | KeyCode::Char('P') => Some(MenuKind::Physics),
        KeyCode::Char('d') | KeyCode::Char('D') => Some(MenuKind::Debug),
        KeyCode::Char('h') | KeyCode::Char('H') | KeyCode::Char('?') => Some(MenuKind::Help),
        _ => None,
    }
}

/// The menu `steps` places to the right of `kind`, wrapping around.
pub open spec fn menu_kind_after(kind: MenuKind, steps: nat) -> MenuKind
    decreases steps,
{
    if steps == 0 {
        kind
    } else {
        spec_next_menu_kind(menu_kind_after(kind, (steps - 1) as nat))
    }
}

/// Moving right and then left, or left and then right, comes back to the
/// menu it started from.
pub proof fn law_next_and_previous_menu_are_inverse(kind: MenuKind)
    ensures
        spec_previous_menu_kind(spec_next_menu_kind(kind)) == kind,
        spec_next_menu_kind(spec_previous_menu_kind(kind)) == kind,
{
}

/// Moving right once per menu comes back to the start after all seven, and
/// reaches every menu on the way.
pub proof fn law_menu_cycle_visits_every_menu(kind: MenuKind, other: MenuKind)
    ensures
        menu_kind_after(kind, 7) == kind,
        exists|steps: nat| steps < 7 && menu_kind_after(kind, steps) == other,
{
    reveal_with_fuel(menu_kind_after, 8);
    assert(menu_kind_after(kind, 1) == spec_next_menu_kind(kind));
    if menu_kind_after(kind, 0) == other {
    } else if menu_kind_after(kind, 1) == other {
    } else if menu_kind_after(kind, 2) == other {
    } else if menu_kind_after(kind, 3) == other {
    } else if menu_kind_after(kind, 4) == other {
    } else if menu_kind_after(kind, 5) == other {
    } else {
        assert(menu_kind_after(kind, 6) == other);
    }
}

/// The hotkey shown in a menu's heading opens that menu, and so does the
/// same letter in capitals: the heading never names a key that opens
/// another menu.
pub proof fn law_shown_hotkey_opens_its_menu(kind: MenuKind)
    ensures
        spec_menu_kind_for_hotkey(KeyCode::Char(kind.spec_hotkey()[0])) == Some(kind),
        spec_menu_kind_for_hotkey(
            KeyCode::Char(crate::text::spec_ascii_uppercase(kind.spec_hotkey()[0])),
        ) == Some(kind),
{
    reveal_strlit("f");
    reveal_strlit("m");
    reveal_strlit("c");
    reveal_strlit("g");
    reveal_strlit("p");
    reveal_strlit("d");
    reveal_strlit("h/?");
}

/// Stepping right through the menu bar from File meets the menus in the
/// order of the bar: File, Scenes, Control, Glyphs, Physics, Debug, Help.
pub proof fn law_menu_bar_order()
    ensures
        spec_next_menu_kind(MenuKind::File) == MenuKind::Scenes,
        spec_next_menu_kind(MenuKind::Scenes) == MenuKind::Control,
        spec_next_menu_kind(MenuKind::Control) == MenuKind::Glyphs,
        spec_next_menu_kind(MenuKind::Glyphs) == MenuKind::Physics,
        spec_next_menu_kind(MenuKind::Physics) == MenuKind::Debug,
        spec_next_menu_kind(MenuKind::Debug) == MenuKind::Help,
        spec_next_menu_kind(MenuKind::Help) == MenuKind::File,
{
}

} // verus!
