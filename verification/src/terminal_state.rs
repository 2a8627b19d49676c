use vstd::prelude::*;
use vstd::string::StringExecFns;

use crate::keys::{KeyCode, KeyEvent, KeyModifiers};
use crate::text::{decimal_string, decimal_text, push_char};
use crate::input::command::AppCommand;
use crate::menu::model::{MenuKind, MenuState, MenuStateView, item_count};
use crate::navigation::{
    ControlMode, menu_kind_for_hotkey, next_menu_kind, previous_menu_kind,
    spec_menu_kind_for_hotkey, spec_next_menu_kind, spec_previous_menu_kind,
};

verus! {

/// The characters that glyph strokes can be drawn with, in the order that
/// the glyph menu steps through them.
pub open spec fn glyph_stroke_characters() -> Seq<char> {
    seq![
        '*', '+', '#', '@', '%', '&', '=', '-', '~', '.', ':', ';', 'o', 'O', '0', '·', '•', '○',
        '●', '─', '│', '┌', '┐', '└', '┘', '┼', '═', '║', '╔', '╗', '╚', '╝', '╬', '█', '▓', '▒',
        '░',
    ]
}

/// Which glyph stroke character is chosen.
pub struct GlyphStrokeSelection {
    index: usize,
}

impl View for GlyphStrokeSelection {
    type V = nat;

    closed spec fn view(&self) -> nat {
        self.index as nat
    }
}

/// The place after `index` among the stroke characters, wrapping to the
/// first.
pub open spec fn next_stroke(index: nat) -> nat {
    (index + 1) % glyph_stroke_characters().len()
}

/// The place before `index` among the stroke characters, wrapping to the
/// last.
pub open spec fn previous_stroke(index: nat) -> nat {
    if index == 0 {
        (glyph_stroke_characters().len() - 1) as nat
    } else {
        (index - 1) as nat
    }
}

/// Choosing the next stroke character and then the previous one, or the
/// other way round, comes back to the character chosen before.
pub proof fn law_stroke_steps_undo(index: nat)
    requires
        index < glyph_stroke_characters().len(),
    ensures
        previous_stroke(next_stroke(index)) == index,
        next_stroke(previous_stroke(index)) == index,
{
    let count = glyph_stroke_characters().len() as int;
    assert(count == 37);
    if index + 1 == count {
        vstd::arithmetic::div_mod::lemma_mod_self_0(count);
    } else {
        vstd::arithmetic::div_mod::lemma_small_mod((index + 1) as nat, count as nat);
    }
    let before = previous_stroke(index);
    if before + 1 == count {
        vstd::arithmetic::div_mod::lemma_mod_self_0(count);
    } else {
        vstd::arithmetic::div_mod::lemma_small_mod((before + 1) as nat, count as nat);
    }
}

impl GlyphStrokeSelection {
    #[verifier::type_invariant]
    closed spec fn chooses_a_character(self) -> bool {
        self.index < glyph_stroke_characters().len()
    }

    /// The first character, `*`, chosen.
    pub fn new() -> (selection: Self)
        ensures
            selection@ == 0,
    {
        GlyphStrokeSelection { index: 0 }
    }

    /// The chosen character.
    pub fn character(&self) -> (character: char)
        ensures
            self@ < glyph_stroke_characters().len(),
            character == glyph_stroke_characters()[self@ as int],
    {
        proof {
            use_type_invariant(self);
        }
        let table = [
            '*', '+', '#', '@', '%', '&', '=', '-', '~', '.', ':', ';', 'o', 'O', '0', '·', '•',
            '○', '●', '─', '│', '┌', '┐', '└', '┘', '┼', '═', '║', '╔', '╗', '╚', '╝', '╬', '█',
            '▓', '▒', '░',
        ];
        assert(table@ =~= glyph_stroke_characters());
        table[self.index]
    }

    /// The chosen character's place, counting from one.
    pub fn position(&self) -> (position: usize)
        ensures
            position == self@ + 1,
    {
        proof {
            use_type_invariant(self);
        }
        self.index + 1
    }

    /// How many characters there are to choose from.
    pub fn count(&self) -> (count: usize)
        ensures
            count == glyph_stroke_characters().len(),
    {
        37
    }

    /// Chooses the next character, from the last back to the first.
    pub fn next(&mut self)
        ensures
            final(self)@ == next_stroke(old(self)@),
    {
        proof {
            use_type_invariant(&*self);
        }
        self.index = (self.index + 1) % 37;
    }

    /// Chooses the previous character, from the first back to the last.
    pub fn previous(&mut self)
        ensures
            final(self)@ == previous_stroke(old(self)@),
    {
        proof {
            use_type_invariant(&*self);
        }
        self.index = if self.index == 0 {
            36
        } else {
            self.index - 1
        };
    }
}

/// The place of `mode`'s row in the Control menu.
pub open spec fn spec_control_mode_menu_index(mode: ControlMode) -> nat {
    match mode {
        ControlMode::Scene => 0,
        ControlMode::Camera => 1,
        ControlMode::Light => 2,
    }
}

pub fn control_mode_menu_index(mode: ControlMode) -> (index: usize)
    ensures
        index == spec_control_mode_menu_index(mode),
{
    match mode {
        ControlMode::Scene => 0,
        ControlMode::Camera => 1,
        ControlMode::Light => 2,
    }
}

/// The control mode after `mode` when Tab is pressed.
pub open spec fn spec_next_control_mode(mode: ControlMode) -> ControlMode {
    match mode {
        ControlMode::Scene => ControlMode::Camera,
        ControlMode::Camera => ControlMode::Light,
        ControlMode::Light => ControlMode::Scene,
    }
}

pub fn next_control_mode(mode: ControlMode) -> (next: ControlMode)
    ensures
        next == spec_next_control_mode(mode),
{
    match mode {
        ControlMode::Scene => ControlMode::Camera,
        ControlMode::Camera => ControlMode::Light,
        ControlMode::Light => ControlMode::Scene,
    }
}

/// Pressing Tab three times comes back to the mode it started from.
pub proof fn law_control_modes_cycle(mode: ControlMode)
    ensures
        spec_next_control_mode(spec_next_control_mode(spec_next_control_mode(mode))) == mode,
{
}

/// The menu a menu of `kind` opens on while in `mode`: the Control menu on
/// the row of the current mode, any other on its first row.
pub open spec fn opened_menu(kind: MenuKind, mode: ControlMode) -> MenuStateView {
    MenuStateView {
        kind,
        selected_index: match kind {
            MenuKind::Control => spec_control_mode_menu_index(mode),
            _ => 0,
        },
    }
}

/// What came of a command handed to the menus.
#[derive(Debug, Clone, Copy, PartialEq, Eq, Structural)]
pub enum MenuCommandOutcome {
    /// The menus did what the command asks.
    Handled,
    /// A row was to be taken with no menu open.
    Ignored,
    /// The open menu closed; the command of its selected row is to run.
    Run(AppCommand),
    /// The command is not one for the menus, which are left as they were.
    NotForMenus,
}

/// The command of the selected row of a menu.
pub open spec fn selected_row_command(menu: MenuStateView) -> AppCommand {
    menu.kind.spec_items()[menu.selected_index as int].command
}

/// What comes of `command` handed to the menus while `menu` is open.
pub open spec fn spec_menu_command_outcome(
    menu: Option<MenuStateView>,
    command: AppCommand,
) -> MenuCommandOutcome {
    match command {
        AppCommand::OpenMenu(_) | AppCommand::CloseMenu | AppCommand::MenuUp
        | AppCommand::MenuDown | AppCommand::MenuLeft | AppCommand::MenuRight =>
            MenuCommandOutcome::Handled,
        AppCommand::MenuSelect => match menu {
            Some(open) => MenuCommandOutcome::Run(selected_row_command(open)),
            None => MenuCommandOutcome::Ignored,
        },
        _ => MenuCommandOutcome::NotForMenus,
    }
}

/// The menu open after `command` is handed to the menus while `menu` is
/// open, in control mode `mode`.
pub open spec fn spec_menus_after_command(
    menu: Option<MenuStateView>,
    command: AppCommand,
    mode: ControlMode,
) -> Option<MenuStateView> {
    match command {
        AppCommand::OpenMenu(kind) => Some(opened_menu(kind, mode)),
        AppCommand::CloseMenu => None,
        AppCommand::MenuUp => match menu {
            Some(open) => Some(open.moved_up()),
            None => None,
        },
        AppCommand::MenuDown => match menu {
            Some(open) => Some(open.moved_down()),
            None => None,
        },
        AppCommand::MenuLeft => Some(
            MenuStateView {
                kind: match menu {
                    Some(open) => spec_previous_menu_kind(open.kind),
                    None => MenuKind::File,
                },
                selected_index: 0,
            },
        ),
        AppCommand::MenuRight => Some(
            MenuStateView {
                kind: match menu {
                    Some(open) => spec_next_menu_kind(open.kind),
                    None => MenuKind::File,
                },
                selected_index: 0,
            },
        ),
        AppCommand::MenuSelect => None,
        _ => menu,
    }
}

/// The command that sets control mode `mode`.
pub open spec fn set_mode_command(mode: ControlMode) -> AppCommand {
    match mode {
        ControlMode::Scene => AppCommand::SetControlModeScene,
        ControlMode::Camera => AppCommand::SetControlModeCamera,
        ControlMode::Light => AppCommand::SetControlModeLight,
    }
}

/// The Control menu opens on the row of the current mode: opening it and
/// taking the row at once closes the menu and keeps the mode as it is.
pub proof fn law_control_menu_opens_on_current_mode(
    menu: Option<MenuStateView>,
    mode: ControlMode,
)
    ensures
        ({
            let opened = spec_menus_after_command(
                menu,
                AppCommand::OpenMenu(MenuKind::Control),
                mode,
            );
            &&& spec_menu_command_outcome(opened, AppCommand::MenuSelect)
                == MenuCommandOutcome::Run(set_mode_command(mode))
            &&& spec_menus_after_command(opened, AppCommand::MenuSelect, mode) is None
        }),
{
}

/// The open menu of the terminal application, if any.
pub struct AppMenus {
    pub active: Option<MenuState>,
}

/// The view of an optional menu.
pub open spec fn menu_view(menu: Option<MenuState>) -> Option<MenuStateView> {
    match menu {
        Some(menu) => Some(menu@),
        None => None,
    }
}

impl AppMenus {
    /// No menu open.
    pub fn new() -> (menus: Self)
        ensures
            menus.active is None,
    {
        AppMenus { active: None }
    }

    /// Opens the menu of `kind` on the row that fits `mode`.
    pub fn open_menu(&mut self, kind: MenuKind, mode: ControlMode)
        ensures
            menu_view(final(self).active) == Some(opened_menu(kind, mode)),
    {
        let selected_index = match kind {
            MenuKind::Control => control_mode_menu_index(mode),
            _ => 0,
        };
        let menu = MenuState::with_selected(kind, selected_index);
        assert(item_count(MenuKind::Control) == 14);
        self.active = Some(menu);
    }

    /// Closes the open menu, or opens the File menu where none is open.
    pub fn toggle_menu_bar(&mut self, mode: ControlMode)
        ensures
            old(self).active is Some ==> final(self).active is None,
            old(self).active is None ==> menu_view(final(self).active) == Some(
                opened_menu(MenuKind::File, mode),
            ),
    {
        if self.active.is_some() {
            self.close_menu();
        } else {
            self.open_menu(MenuKind::File, mode);
        }
    }

    /// Opens the menu whose hotkey `code` is; returns whether there is one.
    pub fn open_menu_for_hotkey(&mut self, code: KeyCode, mode: ControlMode) -> (opened: bool)
        ensures
            opened == spec_menu_kind_for_hotkey(code) is Some,
            opened ==> menu_view(final(self).active) == Some(
                opened_menu(spec_menu_kind_for_hotkey(code)->0, mode),
            ),
            !opened ==> menu_view(final(self).active) == menu_view(old(self).active),
    {
        match menu_kind_for_hotkey(code) {
            Some(kind) => {
                self.open_menu(kind, mode);
                true
            },
            None => false,
        }
    }

    /// Opens the menu to the right of the open one on its first row, or the
    /// File menu where none is open.
    pub fn open_next_menu(&mut self)
        ensures
            menu_view(final(self).active) == Some(
                MenuStateView {
                    kind: match menu_view(old(self).active) {
                        Some(menu) => spec_next_menu_kind(menu.kind),
                        None => MenuKind::File,
                    },
                    selected_index: 0,
                },
            ),
    {
        let next_kind = match &self.active {
            Some(menu) => next_menu_kind(menu.kind()),
            None => MenuKind::File,
        };
        self.active = Some(MenuState::with_selected(next_kind, 0));
    }

    /// Opens the menu to the left of the open one on its first row, or the
    /// File menu where none is open.
    pub fn open_previous_menu(&mut self)
        ensures
            menu_view(final(self).active) == Some(
                MenuStateView {
                    kind: match menu_view(old(self).active) {
                        Some(menu) => spec_previous_menu_kind(menu.kind),
                        None => MenuKind::File,
                    },
                    selected_index: 0,
                },
            ),
    {
        let previous_kind = match &self.active {
            Some(menu) => previous_menu_kind(menu.kind()),
            None => MenuKind::File,
        };
        self.active = Some(MenuState::with_selected(previous_kind, 0));
    }

    pub fn close_menu(&mut self)
        ensures
            final(self).active is None,
    {
        self.active = None;
    }

    /// Moves the selection of the open menu up, if one is open.
    pub fn move_menu_up(&mut self)
        ensures
            menu_view(final(self).active) == match menu_view(old(self).active) {
                Some(menu) => Some(menu.moved_up()),
                None => None,
            },
    {
        if let Some(menu) = self.active.as_mut() {
            menu.move_up();
        }
    }

    /// Does what a menu command asks of the menus: open, close, move the
    /// selection, step to a neighbouring menu, or take the selected row, in
    /// which case the menu closes and its command is handed back to run.
    pub fn apply_command(&mut self, command: AppCommand, mode: ControlMode) -> (outcome:
        MenuCommandOutcome)
        ensures
            outcome == spec_menu_command_outcome(menu_view(old(self).active), command),
            menu_view(final(self).active) == spec_menus_after_command(
                menu_view(old(self).active),
                command,
                mode,
            ),
    {
        match command {
            AppCommand::OpenMenu(kind) => {
                self.open_menu(kind, mode);
                MenuCommandOutcome::Handled
            },
            AppCommand::CloseMenu => {
                self.close_menu();
                MenuCommandOutcome::Handled
            },
            AppCommand::MenuUp => {
                self.move_menu_up();
                MenuCommandOutcome::Handled
            },
            AppCommand::MenuDown => {
                self.move_menu_down();
                MenuCommandOutcome::Handled
            },
            AppCommand::MenuLeft => {
                self.open_previous_menu();
                MenuCommandOutcome::Handled
            },
            AppCommand::MenuRight => {
                self.open_next_menu();
                MenuCommandOutcome::Handled
            },
            AppCommand::MenuSelect => {
                let selected = match &self.active {
                    Some(menu) => menu.selected_command(),
                    None => {
                        return MenuCommandOutcome::Ignored;
                    },
                };
                self.close_menu();
                MenuCommandOutcome::Run(selected)
            },
            _ => MenuCommandOutcome::NotForMenus,
        }
    }

    /// Moves the selection of the open menu down, if one is open.
    pub fn move_menu_down(&mut self)
        ensures
            menu_view(final(self).active) == match menu_view(old(self).active) {
                Some(menu) => Some(menu.moved_down()),
                None => None,
            },
    {
        if let Some(menu) = self.active.as_mut() {
            menu.move_down();
        }
    }
}

/// A rectangle of terminal cells.
#[derive(Debug, Clone, Copy, PartialEq, Eq, Structural)]
pub struct PanelRect {
    pub x: u16,
    pub y: u16,
    pub width: u16,
    pub height: u16,
}

/// A `width` by `height` rectangle centred in `area`, cut down to fit it.
pub open spec fn spec_centered_rect(width: u16, height: u16, area: PanelRect) -> PanelRect {
    let width = if width < area.width {
        width
    } else {
        area.width
    };
    let height = if height < area.height {
        height
    } else {
        area.height
    };
    PanelRect {
        x: (area.x + (area.width - width) / 2) as u16,
        y: (area.y + (area.height - height) / 2) as u16,
        width,
        height,
    }
}

/// The centred rectangle's corner fits in `u16`.
pub open spec fn centered_rect_fits(width: u16, height: u16, area: PanelRect) -> bool {
    let width = if width < area.width {
        width
    } else {
        area.width
    };
    let height = if height < area.height {
        height
    } else {
        area.height
    };
    &&& area.x + (area.width - width) / 2 <= u16::MAX
    &&& area.y + (area.height - height) / 2 <= u16::MAX
}

pub fn centered_editor_rect(width: u16, height: u16, area: PanelRect) -> (rect: PanelRect)
    requires
        centered_rect_fits(width, height, area),
    ensures
        rect == spec_centered_rect(width, height, area),
{
    let width = if width < area.width {
        width
    } else {
        area.width
    };
    let height = if height < area.height {
        height
    } else {
        area.height
    };
    PanelRect {
        x: area.x + area.width.saturating_sub(width) / 2,
        y: area.y + area.height.saturating_sub(height) / 2,
        width,
        height,
    }
}

/// The lines of the exit confirmation, while it is asked.
pub fn exit_confirm_popup_lines(confirm_exit: bool) -> (lines: Option<Vec<String>>)
    ensures
        !confirm_exit ==> lines is None,
        confirm_exit ==> lines is Some && lines->0@.len() == 6 && lines->0@[0]@ == "Exit ascii-3d"@
            && lines->0@[1]@ == Seq::<char>::empty() && lines->0@[2]@
            == "Do you really want to exit?"@ && lines->0@[3]@ == Seq::<char>::empty()
            && lines->0@[4]@ == "Enter / y  = Yes, exit"@ && lines->0@[5]@
            == "Esc / n / c = Cancel"@,
{
    if !confirm_exit {
        return None;
    }
    let mut lines: Vec<String> = Vec::new();
    lines.push("Exit ascii-3d".to_owned());
    lines.push(String::new());
    lines.push("Do you really want to exit?".to_owned());
    lines.push(String::new());
    lines.push("Enter / y  = Yes, exit".to_owned());
    lines.push("Esc / n / c = Cancel".to_owned());
    Some(lines)
}


/// Nanoseconds between two applications of a held control key.
pub const CONTINUOUS_INPUT_SAMPLE_INTERVAL: u64 = 16_000_000;

/// Nanoseconds within which a repeated key still counts as held.
pub const CONTINUOUS_INPUT_CONTINUITY_WINDOW: u64 = 500_000_000;

/// `later - earlier`, or zero where `later` comes first, as
/// `Instant::duration_since` gives it.
pub open spec fn elapsed(later: u64, earlier: u64) -> u64 {
    if later > earlier {
        (later - earlier) as u64
    } else {
        0
    }
}

/// What a continuous input sampler remembers: the key being held with its
/// modifiers, when the hold started, when the key was last seen and last
/// applied, and the press not yet applied. Times are in nanoseconds.
pub struct SamplerView {
    pub active: Option<(KeyCode, KeyModifiers)>,
    pub started_at: Option<u64>,
    pub last_seen_at: Option<u64>,
    pub last_applied_at: Option<u64>,
    pub pending: Option<KeyEvent>,
}

impl SamplerView {
    /// The sampler after it sees `key` at `now`: a new hold starts unless
    /// the same key with the same modifiers was seen within the continuity
    /// window.
    pub open spec fn observed(self, key: KeyEvent, now: u64) -> Self {
        let identity = (key.code, key.modifiers);
        let continues = self.active == Some(identity) && match self.last_seen_at {
            Some(last_seen) => elapsed(now, last_seen) <= CONTINUOUS_INPUT_CONTINUITY_WINDOW,
            None => false,
        };
        SamplerView {
            active: Some(identity),
            started_at: if continues {
                self.started_at
            } else {
                Some(now)
            },
            last_seen_at: Some(now),
            last_applied_at: if continues {
                self.last_applied_at
            } else {
                None
            },
            pending: Some(key),
        }
    }

    /// Whether the pending key may be applied at `now`.
    pub open spec fn ready(self, now: u64) -> bool {
        self.pending is Some && match self.last_applied_at {
            Some(last_applied) => elapsed(now, last_applied) >= CONTINUOUS_INPUT_SAMPLE_INTERVAL,
            None => true,
        }
    }

    /// How many steps a key held since `started_at` moves at `now`: one for
    /// the first 350 ms, two until 900 ms, three after.
    pub open spec fn step_count(self, now: u64) -> usize {
        let held = match self.started_at {
            Some(started) => elapsed(now, started),
            None => 0,
        };
        if held < 350_000_000 {
            1
        } else if held < 900_000_000 {
            2
        } else {
            3
        }
    }

    /// The sampler after the pending key is applied at `now`.
    pub open spec fn applied(self, now: u64) -> Self {
        SamplerView { pending: None, last_applied_at: Some(now), ..self }
    }
}

/// Turns a held control key into steady steps: at most one application per
/// sample interval, moving further the longer the key is held.
pub struct ContinuousInputSampler {
    active: Option<(KeyCode, KeyModifiers)>,
    started_at: Option<u64>,
    last_seen_at: Option<u64>,
    last_applied_at: Option<u64>,
    pending: Option<KeyEvent>,
}

impl View for ContinuousInputSampler {
    type V = SamplerView;

    closed spec fn view(&self) -> SamplerView {
        SamplerView {
            active: self.active,
            started_at: self.started_at,
            last_seen_at: self.last_seen_at,
            last_applied_at: self.last_applied_at,
            pending: self.pending,
        }
    }
}

/// `later - earlier`, or zero where `later` comes first.
fn elapsed_since(later: u64, earlier: u64) -> (span: u64)
    ensures
        span == elapsed(later, earlier),
{
    if later > earlier {
        later - earlier
    } else {
        0
    }
}

impl ContinuousInputSampler {
    /// A sampler that has seen no key.
    pub fn new() -> (sampler: Self)
        ensures
            sampler@ == (SamplerView {
                active: None,
                started_at: None,
                last_seen_at: None,
                last_applied_at: None,
                pending: None,
            }),
    {
        ContinuousInputSampler {
            active: None,
            started_at: None,
            last_seen_at: None,
            last_applied_at: None,
            pending: None,
        }
    }

    /// Notes that `key` was seen at `now`.
    pub fn observe(&mut self, key: KeyEvent, now: u64)
        ensures
            final(self)@ == old(self)@.observed(key, now),
    {
        let same_key = match self.active {
            Some((code, modifiers)) => code == key.code && modifiers == key.modifiers,
            None => false,
        };
        let continues_hold = same_key && match self.last_seen_at {
            Some(last_seen) => elapsed_since(now, last_seen) <= CONTINUOUS_INPUT_CONTINUITY_WINDOW,
            None => false,
        };
        if !continues_hold {
            self.started_at = Some(now);
            self.last_applied_at = None;
        }
        self.active = Some((key.code, key.modifiers));
        self.last_seen_at = Some(now);
        self.pending = Some(key);
    }

    /// Forgets every key seen.
    pub fn clear(&mut self)
        ensures
            final(self)@ == (SamplerView {
                active: None,
                started_at: None,
                last_seen_at: None,
                last_applied_at: None,
                pending: None,
            }),
    {
        *self = ContinuousInputSampler::new();
    }

    /// The pending key and how many steps it moves, where it may be applied
    /// at `now`; nothing otherwise.
    pub fn sample(&mut self, now: u64) -> (step: Option<(KeyEvent, usize)>)
        ensures
            old(self)@.ready(now) ==> step == Some((old(self)@.pending->0, old(self)@.step_count(now)))
                && final(self)@ == old(self)@.applied(now),
            !old(self)@.ready(now) ==> step is None && final(self)@ == old(self)@,
    {
        let key = match self.pending {
            Some(key) => key,
            None => return None,
        };
        if let Some(last_applied) = self.last_applied_at {
            if elapsed_since(now, last_applied) < CONTINUOUS_INPUT_SAMPLE_INTERVAL {
                return None;
            }
        }
        self.pending = None;
        self.last_applied_at = Some(now);
        let held_for = match self.started_at {
            Some(started) => elapsed_since(now, started),
            None => 0,
        };
        let step_count = if held_for < 350_000_000 {
            1
        } else if held_for < 900_000_000 {
            2
        } else {
            3
        };
        Some((key, step_count))
    }
}

/// Once a key is applied, nothing more is applied until it is seen again.
pub proof fn law_sampler_applies_each_sighting_once(sampler: SamplerView, now: u64, later: u64)
    requires
        sampler.ready(now),
    ensures
        !sampler.applied(now).ready(later),
{
}

/// A held key that was seen at `seen` and applied at `now` is held back
/// when it is seen again before the sample interval has passed.
pub proof fn law_sampler_waits_out_the_interval(
    prior: SamplerView,
    key: KeyEvent,
    seen: u64,
    now: u64,
    later: u64,
)
    requires
        prior.observed(key, seen).ready(now),
        seen <= now <= later,
        later < now + CONTINUOUS_INPUT_SAMPLE_INTERVAL,
        later - seen <= CONTINUOUS_INPUT_CONTINUITY_WINDOW,
    ensures
        !prior.observed(key, seen).applied(now).observed(key, later).ready(later),
{
}

/// A key is applied at once when it starts a new hold.
pub proof fn law_new_hold_applies_at_once(sampler: SamplerView, key: KeyEvent, now: u64)
    requires
        sampler.active != Some((key.code, key.modifiers)),
    ensures
        sampler.observed(key, now).ready(now),
        sampler.observed(key, now).step_count(now) == 1,
{
}


/// How a key is named in the input trace and the debug console.
pub open spec fn key_code_name(code: KeyCode) -> Seq<char> {
    match code {
        KeyCode::Backspace => "Backspace"@,
        KeyCode::Enter => "Enter"@,
        KeyCode::Left => "Left"@,
        KeyCode::Right => "Right"@,
        KeyCode::Up => "Up"@,
        KeyCode::Down => "Down"@,
        KeyCode::Home => "Home"@,
        KeyCode::End => "End"@,
        KeyCode::PageUp => "PageUp"@,
        KeyCode::PageDown => "PageDown"@,
        KeyCode::Tab => "Tab"@,
        KeyCode::BackTab => "BackTab"@,
        KeyCode::Delete => "Delete"@,
        KeyCode::Insert => "Insert"@,
        KeyCode::Esc => "Esc"@,
        KeyCode::Char(character) => seq!['\'', character, '\''],
        KeyCode::F(number) => seq!['F'] + decimal_text(number as nat),
        KeyCode::Null => "Null"@,
        KeyCode::Other => "Other"@,
    }
}

/// The name of `code` in the input trace and the debug console.
pub fn describe_key_code(code: KeyCode) -> (name: String)
    ensures
        name@ == key_code_name(code),
{
    match code {
        KeyCode::Backspace => "Backspace".to_owned(),
        KeyCode::Enter => "Enter".to_owned(),
        KeyCode::Left => "Left".to_owned(),
        KeyCode::Right => "Right".to_owned(),
        KeyCode::Up => "Up".to_owned(),
        KeyCode::Down => "Down".to_owned(),
        KeyCode::Home => "Home".to_owned(),
        KeyCode::End => "End".to_owned(),
        KeyCode::PageUp => "PageUp".to_owned(),
        KeyCode::PageDown => "PageDown".to_owned(),
        KeyCode::Tab => "Tab".to_owned(),
        KeyCode::BackTab => "BackTab".to_owned(),
        KeyCode::Delete => "Delete".to_owned(),
        KeyCode::Insert => "Insert".to_owned(),
        KeyCode::Esc => "Esc".to_owned(),
        KeyCode::Char(character) => {
            let mut name = String::new();
            push_char(&mut name, '\'');
            push_char(&mut name, character);
            push_char(&mut name, '\'');
            name
        },
        KeyCode::F(number) => {
            let mut name = String::new();
            push_char(&mut name, 'F');
            name.append(decimal_string(number as usize).as_str());
            name
        },
        KeyCode::Null => "Null".to_owned(),
        KeyCode::Other => "Other".to_owned(),
    }
}

/// The title of the open menu in a trace, or `closed`.
pub open spec fn menu_title_or_closed(menu: Option<MenuKind>) -> Seq<char> {
    match menu {
        Some(kind) => kind.spec_title(),
        None => "closed"@,
    }
}

/// The line that records a key: where it went, its name, the scene, the
/// control mode and the open menu.
pub open spec fn spec_key_trace_line(
    route: Seq<char>,
    code: KeyCode,
    scene: Seq<char>,
    mode: ControlMode,
    menu: Option<MenuKind>,
) -> Seq<char> {
    route + ": key "@ + key_code_name(code) + " | scene "@ + scene + " | mode "@
        + mode.spec_label() + " | menu "@ + menu_title_or_closed(menu)
}

pub fn key_trace_line(
    route: &str,
    code: KeyCode,
    scene: &str,
    mode: ControlMode,
    menu: Option<MenuKind>,
) -> (line: String)
    ensures
        line@ == spec_key_trace_line(route@, code, scene@, mode, menu),
{
    let mut line = route.to_owned();
    line.append(": key ");
    line.append(describe_key_code(code).as_str());
    line.append(" | scene ");
    line.append(scene);
    line.append(" | mode ");
    line.append(mode.label());
    line.append(" | menu ");
    match menu {
        Some(kind) => line.append(kind.title()),
        None => line.append("closed"),
    }
    line
}

/// The heading of a scene frame.
pub open spec fn spec_scene_header(title: Seq<char>) -> Seq<char> {
    "Scene: "@ + title
}

pub fn scene_header(title: &str) -> (header: String)
    ensures
        header@ == spec_scene_header(title@),
{
    let mut header = "Scene: ".to_owned();
    header.append(title);
    header
}

/// The last input event in the footer, or `none`.
pub open spec fn event_or_none(event: Option<Seq<char>>) -> Seq<char> {
    match event {
        Some(trace) => trace,
        None => "none"@,
    }
}

/// The footer of a scene frame: the scene's place among `count` scenes,
/// counting from one, its title, the control mode, the stroke character,
/// the open menu and the last input event, then the help and quit keys.
pub open spec fn spec_scene_footer(
    position: nat,
    count: nat,
    title: Seq<char>,
    mode: ControlMode,
    glyph: char,
    menu: Option<MenuKind>,
    event: Option<Seq<char>>,
) -> Seq<char> {
    "["@ + decimal_text(position + 1) + "/"@ + decimal_text(count) + "] "@ + title
        + " | Mode: "@ + mode.spec_label() + " | Glyph '"@ + seq![glyph] + "' | Menu: "@
        + menu_title_or_closed(menu) + " | Event: "@ + event_or_none(event)
        + " | h help | Esc quit"@
}

pub fn scene_footer(
    position: usize,
    count: usize,
    title: &str,
    mode: ControlMode,
    glyph: char,
    menu: Option<MenuKind>,
    event: Option<&str>,
) -> (footer: String)
    requires
        position < usize::MAX,
    ensures
        footer@ == spec_scene_footer(
            position as nat,
            count as nat,
            title@,
            mode,
            glyph,
            menu,
            match event {
                Some(trace) => Some(trace@),
                None => None,
            },
        ),
{
    let mut footer = "[".to_owned();
    footer.append(decimal_string(position + 1).as_str());
    footer.append("/");
    footer.append(decimal_string(count).as_str());
    footer.append("] ");
    footer.append(title);
    footer.append(" | Mode: ");
    footer.append(mode.label());
    footer.append(" | Glyph '");
    push_char(&mut footer, glyph);
    footer.append("' | Menu: ");
    match menu {
        Some(kind) => footer.append(kind.title()),
        None => footer.append("closed"),
    }
    footer.append(" | Event: ");
    match event {
        Some(trace) => footer.append(trace),
        None => footer.append("none"),
    }
    footer.append(" | h help | Esc quit");
    footer
}

} // verus!
