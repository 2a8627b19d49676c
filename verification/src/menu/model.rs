use vstd::prelude::*;
use vstd::string::StringExecFns;

use crate::canvas::{line_points, Canvas, CanvasView};
use crate::geometry2d::Point2;
use crate::input::binding::KeyBinding;
use crate::input::command::AppCommand;

verus! {

/// The menus of the terminal application, in menu-bar order.
#[derive(Debug, Clone, Copy, PartialEq, Eq, Structural)]
pub enum MenuKind {
    File,
    Scenes,
    Control,
    Glyphs,
    Physics,
    Debug,
    Help,
}

/// One row of a menu: what it says, what it issues, and whether it is only a
/// placeholder for something not built yet.
#[derive(Debug, Clone, Copy, PartialEq, Eq)]
pub struct MenuItem {
    pub label: &'static str,
    pub command: AppCommand,
    pub placeholder: bool,
}

/// A row that works.
pub open spec fn real_item(label: &'static str, command: AppCommand) -> MenuItem {
    MenuItem { label, command, placeholder: false }
}

/// A row that is shown but marked as a placeholder.
pub open spec fn placeholder_item(label: &'static str, command: AppCommand) -> MenuItem {
    MenuItem { label, command, placeholder: true }
}

impl MenuItem {
    pub fn new_real(label: &'static str, command: AppCommand) -> (item: Self)
        ensures
            item == real_item(label, command),
    {
        MenuItem { label, command, placeholder: false }
    }

    pub fn placeholder(label: &'static str, command: AppCommand) -> (item: Self)
        ensures
            item == placeholder_item(label, command),
    {
        MenuItem { label, command, placeholder: true }
    }
}

impl MenuKind {
    pub open spec fn spec_title(self) -> Seq<char> {
        match self {
            MenuKind::File => "File"@,
            MenuKind::Scenes => "Scenes"@,
            MenuKind::Control => "Control"@,
            MenuKind::Glyphs => "Glyphs"@,
            MenuKind::Physics => "Physics"@,
            MenuKind::Debug => "Debug"@,
            MenuKind::Help => "Help"@,
        }
    }

    pub fn title(self) -> (title: &'static str)
        ensures
            title@ == self.spec_title(),
    {
        match self {
            MenuKind::File => "File",
            MenuKind::Scenes => "Scenes",
            MenuKind::Control => "Control",
            MenuKind::Glyphs => "Glyphs",
            MenuKind::Physics => "Physics",
            MenuKind::Debug => "Debug",
            MenuKind::Help => "Help",
        }
    }

    pub open spec fn spec_hotkey(self) -> Seq<char> {
        match self {
            MenuKind::File => "f"@,
            MenuKind::Scenes => "m"@,
            MenuKind::Control => "c"@,
            MenuKind::Glyphs => "g"@,
            MenuKind::Physics => "p"@,
            MenuKind::Debug => "d"@,
            MenuKind::Help => "h/?"@,
        }
    }

    pub fn hotkey(self) -> (hotkey: &'static str)
        ensures
            hotkey@ == self.spec_hotkey(),
    {
        match self {
            MenuKind::File => "f",
            MenuKind::Scenes => "m",
            MenuKind::Control => "c",
            MenuKind::Glyphs => "g",
            MenuKind::Physics => "p",
            MenuKind::Debug => "d",
            MenuKind::Help => "h/?",
        }
    }

    /// The rows of this menu, top to bottom.
    pub open spec fn spec_items(self) -> Seq<MenuItem> {
        match self {
            MenuKind::File => seq![
                real_item("Load .a3d...", AppCommand::OpenA3dFilePicker),
                real_item("Reload current .a3d", AppCommand::ReloadA3d),
                real_item("Exit", AppCommand::Quit),
            ],
            MenuKind::Scenes => seq![
                real_item("Next scene", AppCommand::NextScene),
                real_item("Previous scene", AppCommand::PreviousScene),
            ],
            MenuKind::Control => seq![
                real_item("World mode", AppCommand::SetControlModeScene),
                real_item("Camera mode", AppCommand::SetControlModeCamera),
                real_item("Light mode", AppCommand::SetControlModeLight),
                real_item("Rotate world +X  [x]", AppCommand::RotateWorldPositiveX),
                real_item("Rotate world -X  [X]", AppCommand::RotateWorldNegativeX),
                real_item("Rotate world +Y  [y]", AppCommand::RotateWorldPositiveY),
                real_item("Rotate world -Y  [Y]", AppCommand::RotateWorldNegativeY),
                real_item("Rotate world +Z  [z]", AppCommand::RotateWorldPositiveZ),
                real_item("Rotate world -Z  [Z]", AppCommand::RotateWorldNegativeZ),
                real_item("Move origin -X  [Ctrl/Shift+Left]", AppCommand::MoveWorldOriginLeft),
                real_item("Move origin +X  [Ctrl/Shift+Right]", AppCommand::MoveWorldOriginRight),
                real_item("Move origin +Y  [Ctrl/Shift+Up]", AppCommand::MoveWorldOriginUp),
                real_item("Move origin -Y  [Ctrl/Shift+Down]", AppCommand::MoveWorldOriginDown),
                real_item("Reset world axes/origin", AppCommand::ResetWorldAxes),
            ],
            MenuKind::Glyphs => seq![
                real_item("Next glyph stroke", AppCommand::NextGlyphStroke),
                real_item("Previous glyph stroke", AppCommand::PreviousGlyphStroke),
                placeholder_item("Next glyph", AppCommand::NextGlyph),
                placeholder_item("Previous glyph", AppCommand::PreviousGlyph),
                placeholder_item("Select glyph...", AppCommand::SelectGlyph),
            ],
            MenuKind::Physics => seq![
                placeholder_item("Pause/play simulation", AppCommand::ToggleSimulationPause),
                placeholder_item("Step simulation", AppCommand::StepSimulation),
            ],
            MenuKind::Debug => seq![
                real_item("Toggle debug console", AppCommand::ToggleDebugConsole),
                placeholder_item("Toggle depth view", AppCommand::ToggleDepthView),
                placeholder_item("Toggle projection debug", AppCommand::ToggleProjectionDebug),
                real_item("Toggle frame timing", AppCommand::ToggleFrameTiming),
                real_item("Show OS graphics overlay", AppCommand::ShowOsGraphicsOverlay),
            ],
            MenuKind::Help => seq![
                placeholder_item(
                    "World axes: x/X y/Y z/Z rotate; Ctrl+arrows move origin",
                    AppCommand::CloseMenu,
                ),
                placeholder_item("Camera mode: WASD/QE move camera", AppCommand::CloseMenu),
                placeholder_item("Light mode: WASD/QE move light", AppCommand::CloseMenu),
                placeholder_item("Menus: j/k or arrows, Enter, Esc", AppCommand::CloseMenu),
            ],
        }
    }

    pub fn items(self) -> (items: Vec<MenuItem>)
        ensures
            items@ == self.spec_items(),
    {
        let mut items = Vec::new();
        match self {
            MenuKind::File => {
                items.push(MenuItem::new_real("Load .a3d...", AppCommand::OpenA3dFilePicker));
                items.push(MenuItem::new_real("Reload current .a3d", AppCommand::ReloadA3d));
                items.push(MenuItem::new_real("Exit", AppCommand::Quit));
            },
            MenuKind::Scenes => {
                items.push(MenuItem::new_real("Next scene", AppCommand::NextScene));
                items.push(MenuItem::new_real("Previous scene", AppCommand::PreviousScene));
            },
            MenuKind::Control => {
                items.push(MenuItem::new_real("World mode", AppCommand::SetControlModeScene));
                items.push(MenuItem::new_real("Camera mode", AppCommand::SetControlModeCamera));
                items.push(MenuItem::new_real("Light mode", AppCommand::SetControlModeLight));
                items.push(MenuItem::new_real("Rotate world +X  [x]", AppCommand::RotateWorldPositiveX));
                items.push(MenuItem::new_real("Rotate world -X  [X]", AppCommand::RotateWorldNegativeX));
                items.push(MenuItem::new_real("Rotate world +Y  [y]", AppCommand::RotateWorldPositiveY));
                items.push(MenuItem::new_real("Rotate world -Y  [Y]", AppCommand::RotateWorldNegativeY));
                items.push(MenuItem::new_real("Rotate world +Z  [z]", AppCommand::RotateWorldPositiveZ));
                items.push(MenuItem::new_real("Rotate world -Z  [Z]", AppCommand::RotateWorldNegativeZ));
                items.push(
                    MenuItem::new_real("Move origin -X  [Ctrl/Shift+Left]", AppCommand::MoveWorldOriginLeft),
                );
                items.push(
                    MenuItem::new_real("Move origin +X  [Ctrl/Shift+Right]", AppCommand::MoveWorldOriginRight),
                );
                items.push(
                    MenuItem::new_real("Move origin +Y  [Ctrl/Shift+Up]", AppCommand::MoveWorldOriginUp),
                );
                items.push(
                    MenuItem::new_real("Move origin -Y  [Ctrl/Shift+Down]", AppCommand::MoveWorldOriginDown),
                );
                items.push(MenuItem::new_real("Reset world axes/origin", AppCommand::ResetWorldAxes));
            },
            MenuKind::Glyphs => {
                items.push(MenuItem::new_real("Next glyph stroke", AppCommand::NextGlyphStroke));
                items.push(MenuItem::new_real("Previous glyph stroke", AppCommand::PreviousGlyphStroke));
                items.push(MenuItem::placeholder("Next glyph", AppCommand::NextGlyph));
                items.push(MenuItem::placeholder("Previous glyph", AppCommand::PreviousGlyph));
                items.push(MenuItem::placeholder("Select glyph...", AppCommand::SelectGlyph));
            },
            MenuKind::Physics => {
                items.push(
                    MenuItem::placeholder("Pause/play simulation", AppCommand::ToggleSimulationPause),
                );
                items.push(MenuItem::placeholder("Step simulation", AppCommand::StepSimulation));
            },
            MenuKind::Debug => {
                items.push(MenuItem::new_real("Toggle debug console", AppCommand::ToggleDebugConsole));
                items.push(MenuItem::placeholder("Toggle depth view", AppCommand::ToggleDepthView));
                items.push(
                    MenuItem::placeholder("Toggle projection debug", AppCommand::ToggleProjectionDebug),
                );
                items.push(MenuItem::new_real("Toggle frame timing", AppCommand::ToggleFrameTiming));
                items.push(
                    MenuItem::new_real("Show OS graphics overlay", AppCommand::ShowOsGraphicsOverlay),
                );
            },
            MenuKind::Help => {
                items.push(
                    MenuItem::placeholder(
                        "World axes: x/X y/Y z/Z rotate; Ctrl+arrows move origin",
                        AppCommand::CloseMenu,
                    ),
                );
                items.push(
                    MenuItem::placeholder("Camera mode: WASD/QE move camera", AppCommand::CloseMenu),
                );
                items.push(
                    MenuItem::placeholder("Light mode: WASD/QE move light", AppCommand::CloseMenu),
                );
                items.push(
                    MenuItem::placeholder("Menus: j/k or arrows, Enter, Esc", AppCommand::CloseMenu),
                );
            },
        }
        items
    }
}

/// The number of rows of a menu.
pub open spec fn item_count(kind: MenuKind) -> nat {
    kind.spec_items().len()
}

/// What a menu state is: which menu is open and which row is selected.
pub struct MenuStateView {
    pub kind: MenuKind,
    pub selected_index: nat,
}

impl MenuStateView {
    /// The selected row exists.
    pub open spec fn well_formed(self) -> bool {
        self.selected_index < item_count(self.kind)
    }

    /// The state after `move_up`: one row up, from the top to the bottom.
    pub open spec fn moved_up(self) -> Self {
        let count = item_count(self.kind);
        if count == 0 {
            self
        } else if self.selected_index == 0 {
            MenuStateView { selected_index: (count - 1) as nat, ..self }
        } else {
            MenuStateView { selected_index: (self.selected_index - 1) as nat, ..self }
        }
    }

    /// The state after `move_down`: one row down, from the bottom to the top.
    pub open spec fn moved_down(self) -> Self {
        let count = item_count(self.kind);
        if count == 0 {
            self
        } else {
            MenuStateView { selected_index: (self.selected_index + 1) % count, ..self }
        }
    }
}

/// An open menu and its selected row.
#[derive(Debug, PartialEq, Eq)]
pub struct MenuState {
    kind: MenuKind,
    selected_index: usize,
}

impl View for MenuState {
    type V = MenuStateView;

    closed spec fn view(&self) -> MenuStateView {
        MenuStateView { kind: self.kind, selected_index: self.selected_index as nat }
    }
}

impl Clone for MenuState {
    fn clone(&self) -> (copy: Self)
        ensures
            copy@ == self@,
    {
        proof {
            use_type_invariant(self);
        }
        MenuState { kind: self.kind, selected_index: self.selected_index }
    }
}

/// `(index + 1) % count` wraps only at the last row.
proof fn lemma_next_row(index: nat, count: nat)
    requires
        index < count,
    ensures
        (index + 1) % count == if index + 1 < count { index + 1 } else { 0 },
{
    if index + 1 < count {
        vstd::arithmetic::div_mod::lemma_small_mod((index + 1) as nat, count);
    } else {
        vstd::arithmetic::div_mod::lemma_mod_self_0(count as int);
    }
}

impl MenuState {
    #[verifier::type_invariant]
    closed spec fn selection_exists(self) -> bool {
        self.selected_index < item_count(self.kind)
    }

    /// The menu of `kind` with its first row selected.
    pub fn new(kind: MenuKind) -> (state: Self)
        ensures
            state@ == (MenuStateView { kind, selected_index: 0 }),
    {
        MenuState { kind, selected_index: 0 }
    }

    /// The menu of `kind` with row `selected_index` selected, or its last row
    /// where there are fewer rows.
    pub fn with_selected(kind: MenuKind, selected_index: usize) -> (state: Self)
        ensures
            state@.kind == kind,
            state@.selected_index == if selected_index < item_count(kind) {
                selected_index as nat
            } else {
                (item_count(kind) - 1) as nat
            },
    {
        let item_count = kind.items().len();
        let selected = if selected_index < item_count - 1 {
            selected_index
        } else {
            item_count - 1
        };
        MenuState { kind, selected_index: selected }
    }

    pub fn kind(&self) -> (kind: MenuKind)
        ensures
            kind == self@.kind,
    {
        self.kind
    }

    pub fn selected_index(&self) -> (index: usize)
        ensures
            index == self@.selected_index,
            self@.well_formed(),
    {
        proof {
            use_type_invariant(self);
        }
        self.selected_index
    }

    /// The command of the selected row.
    pub fn selected_command(&self) -> (command: AppCommand)
        ensures
            command == self@.kind.spec_items()[self@.selected_index as int].command,
    {
        proof {
            use_type_invariant(self);
        }
        let items = self.kind.items();
        items[self.selected_index].command
    }

    pub fn move_up(&mut self)
        ensures
            final(self)@ == old(self)@.moved_up(),
    {
        proof {
            use_type_invariant(&*self);
        }
        let item_count = self.kind.items().len();
        if item_count == 0 {
            return;
        }
        let selected = if self.selected_index == 0 {
            item_count - 1
        } else {
            self.selected_index - 1
        };
        self.selected_index = selected;
    }

    pub fn move_down(&mut self)
        ensures
            final(self)@ == old(self)@.moved_down(),
    {
        proof {
            use_type_invariant(&*self);
        }
        let item_count = self.kind.items().len();
        if item_count == 0 {
            return;
        }
        let selected = (self.selected_index + 1) % item_count;
        proof {
            lemma_next_row(self.selected_index as nat, item_count as nat);
        }
        self.selected_index = selected;
    }

    /// The keys that work while a menu is open.
    pub fn bindings() -> (bindings: Vec<KeyBinding>)
        ensures
            bindings@ == menu_bindings(),
    {
        let mut bindings = Vec::new();
        bindings.push(KeyBinding { key: "j / Down", label: "Menu down", command: AppCommand::MenuDown });
        bindings.push(KeyBinding { key: "k / Up", label: "Menu up", command: AppCommand::MenuUp });
        bindings.push(
            KeyBinding { key: "Enter", label: "Select menu item", command: AppCommand::MenuSelect },
        );
        bindings.push(KeyBinding { key: "Esc", label: "Close menu", command: AppCommand::CloseMenu });
        bindings
    }
}

/// The keys that work while a menu is open, with what they do.
pub open spec fn menu_bindings() -> Seq<KeyBinding> {
    seq![
        KeyBinding { key: "j / Down", label: "Menu down", command: AppCommand::MenuDown },
        KeyBinding { key: "k / Up", label: "Menu up", command: AppCommand::MenuUp },
        KeyBinding { key: "Enter", label: "Select menu item", command: AppCommand::MenuSelect },
        KeyBinding { key: "Esc", label: "Close menu", command: AppCommand::CloseMenu },
    ]
}

/// Within a menu, no two working rows issue the same command.
pub proof fn law_menu_rows_issue_distinct_commands(kind: MenuKind, first: int, second: int)
    requires
        0 <= first < second < kind.spec_items().len(),
        !kind.spec_items()[first].placeholder,
        !kind.spec_items()[second].placeholder,
    ensures
        kind.spec_items()[first].command != kind.spec_items()[second].command,
{
}

/// Every row issues the command its label names, and is a working row or a
/// placeholder as its label says: the label alone tells what taking the row
/// does, in whichever menu it stands.
pub proof fn law_menu_rows_do_what_their_labels_say(kind: MenuKind, row: int)
    requires
        0 <= row < kind.spec_items().len(),
    ensures
        kind.spec_items()[row].label@ == "Load .a3d..."@ ==> kind.spec_items()[row].command
            == AppCommand::OpenA3dFilePicker && !kind.spec_items()[row].placeholder,
        kind.spec_items()[row].label@ == "Reload current .a3d"@ ==> kind.spec_items()[row].command
            == AppCommand::ReloadA3d && !kind.spec_items()[row].placeholder,
        kind.spec_items()[row].label@ == "Exit"@ ==> kind.spec_items()[row].command
            == AppCommand::Quit && !kind.spec_items()[row].placeholder,
        kind.spec_items()[row].label@ == "Next scene"@ ==> kind.spec_items()[row].command
            == AppCommand::NextScene && !kind.spec_items()[row].placeholder,
        kind.spec_items()[row].label@ == "Previous scene"@ ==> kind.spec_items()[row].command
            == AppCommand::PreviousScene && !kind.spec_items()[row].placeholder,
        kind.spec_items()[row].label@ == "World mode"@ ==> kind.spec_items()[row].command
            == AppCommand::SetControlModeScene && !kind.spec_items()[row].placeholder,
        kind.spec_items()[row].label@ == "Camera mode"@ ==> kind.spec_items()[row].command
            == AppCommand::SetControlModeCamera && !kind.spec_items()[row].placeholder,
        kind.spec_items()[row].label@ == "Light mode"@ ==> kind.spec_items()[row].command
            == AppCommand::SetControlModeLight && !kind.spec_items()[row].placeholder,
        kind.spec_items()[row].label@ == "Rotate world +X  [x]"@ ==> kind.spec_items()[row].command
            == AppCommand::RotateWorldPositiveX && !kind.spec_items()[row].placeholder,
        kind.spec_items()[row].label@ == "Rotate world -X  [X]"@ ==> kind.spec_items()[row].command
            == AppCommand::RotateWorldNegativeX && !kind.spec_items()[row].placeholder,
        kind.spec_items()[row].label@ == "Rotate world +Y  [y]"@ ==> kind.spec_items()[row].command
            == AppCommand::RotateWorldPositiveY && !kind.spec_items()[row].placeholder,
        kind.spec_items()[row].label@ == "Rotate world -Y  [Y]"@ ==> kind.spec_items()[row].command
            == AppCommand::RotateWorldNegativeY && !kind.spec_items()[row].placeholder,
        kind.spec_items()[row].label@ == "Rotate world +Z  [z]"@ ==> kind.spec_items()[row].command
            == AppCommand::RotateWorldPositiveZ && !kind.spec_items()[row].placeholder,
        kind.spec_items()[row].label@ == "Rotate world -Z  [Z]"@ ==> kind.spec_items()[row].command
            == AppCommand::RotateWorldNegativeZ && !kind.spec_items()[row].placeholder,
        kind.spec_items()[row].label@ == "Move origin -X  [Ctrl/Shift+Left]"@ ==> kind.spec_items()[row].command
            == AppCommand::MoveWorldOriginLeft && !kind.spec_items()[row].placeholder,
        kind.spec_items()[row].label@ == "Move origin +X  [Ctrl/Shift+Right]"@ ==> kind.spec_items()[row].command
            == AppCommand::MoveWorldOriginRight && !kind.spec_items()[row].placeholder,
        kind.spec_items()[row].label@ == "Move origin +Y  [Ctrl/Shift+Up]"@ ==> kind.spec_items()[row].command
            == AppCommand::MoveWorldOriginUp && !kind.spec_items()[row].placeholder,
        kind.spec_items()[row].label@ == "Move origin -Y  [Ctrl/Shift+Down]"@ ==> kind.spec_items()[row].command
            == AppCommand::MoveWorldOriginDown && !kind.spec_items()[row].placeholder,
        kind.spec_items()[row].label@ == "Reset world axes/origin"@ ==> kind.spec_items()[row].command
            == AppCommand::ResetWorldAxes && !kind.spec_items()[row].placeholder,
        kind.spec_items()[row].label@ == "Next glyph stroke"@ ==> kind.spec_items()[row].command
            == AppCommand::NextGlyphStroke && !kind.spec_items()[row].placeholder,
        kind.spec_items()[row].label@ == "Previous glyph stroke"@ ==> kind.spec_items()[row].command
            == AppCommand::PreviousGlyphStroke && !kind.spec_items()[row].placeholder,
        kind.spec_items()[row].label@ == "Next glyph"@ ==> kind.spec_items()[row].command
            == AppCommand::NextGlyph && kind.spec_items()[row].placeholder,
        kind.spec_items()[row].label@ == "Previous glyph"@ ==> kind.spec_items()[row].command
            == AppCommand::PreviousGlyph && kind.spec_items()[row].placeholder,
        kind.spec_items()[row].label@ == "Select glyph..."@ ==> kind.spec_items()[row].command
            == AppCommand::SelectGlyph && kind.spec_items()[row].placeholder,
        kind.spec_items()[row].label@ == "Pause/play simulation"@ ==> kind.spec_items()[row].command
            == AppCommand::ToggleSimulationPause && kind.spec_items()[row].placeholder,
        kind.spec_items()[row].label@ == "Step simulation"@ ==> kind.spec_items()[row].command
            == AppCommand::StepSimulation && kind.spec_items()[row].placeholder,
        kind.spec_items()[row].label@ == "Toggle debug console"@ ==> kind.spec_items()[row].command
            == AppCommand::ToggleDebugConsole && !kind.spec_items()[row].placeholder,
        kind.spec_items()[row].label@ == "Toggle depth view"@ ==> kind.spec_items()[row].command
            == AppCommand::ToggleDepthView && kind.spec_items()[row].placeholder,
        kind.spec_items()[row].label@ == "Toggle projection debug"@ ==> kind.spec_items()[row].command
            == AppCommand::ToggleProjectionDebug && kind.spec_items()[row].placeholder,
        kind.spec_items()[row].label@ == "Toggle frame timing"@ ==> kind.spec_items()[row].command
            == AppCommand::ToggleFrameTiming && !kind.spec_items()[row].placeholder,
        kind.spec_items()[row].label@ == "Show OS graphics overlay"@ ==> kind.spec_items()[row].command
            == AppCommand::ShowOsGraphicsOverlay && !kind.spec_items()[row].placeholder,
        kind.spec_items()[row].label@ == "World axes: x/X y/Y z/Z rotate; Ctrl+arrows move origin"@ ==> kind.spec_items()[row].command
            == AppCommand::CloseMenu && kind.spec_items()[row].placeholder,
        kind.spec_items()[row].label@ == "Camera mode: WASD/QE move camera"@ ==> kind.spec_items()[row].command
            == AppCommand::CloseMenu && kind.spec_items()[row].placeholder,
        kind.spec_items()[row].label@ == "Light mode: WASD/QE move light"@ ==> kind.spec_items()[row].command
            == AppCommand::CloseMenu && kind.spec_items()[row].placeholder,
        kind.spec_items()[row].label@ == "Menus: j/k or arrows, Enter, Esc"@ ==> kind.spec_items()[row].command
            == AppCommand::CloseMenu && kind.spec_items()[row].placeholder,
{
    reveal_strlit("Load .a3d...");
    reveal_strlit("Reload current .a3d");
    reveal_strlit("Exit");
    reveal_strlit("Next scene");
    reveal_strlit("Previous scene");
    reveal_strlit("World mode");
    reveal_strlit("Camera mode");
    reveal_strlit("Light mode");
    reveal_strlit("Rotate world +X  [x]");
    reveal_strlit("Rotate world -X  [X]");
    reveal_strlit("Rotate world +Y  [y]");
    reveal_strlit("Rotate world -Y  [Y]");
    reveal_strlit("Rotate world +Z  [z]");
    reveal_strlit("Rotate world -Z  [Z]");
    reveal_strlit("Move origin -X  [Ctrl/Shift+Left]");
    reveal_strlit("Move origin +X  [Ctrl/Shift+Right]");
    reveal_strlit("Move origin +Y  [Ctrl/Shift+Up]");
    reveal_strlit("Move origin -Y  [Ctrl/Shift+Down]");
    reveal_strlit("Reset world axes/origin");
    reveal_strlit("Next glyph stroke");
    reveal_strlit("Previous glyph stroke");
    reveal_strlit("Next glyph");
    reveal_strlit("Previous glyph");
    reveal_strlit("Select glyph...");
    reveal_strlit("Pause/play simulation");
    reveal_strlit("Step simulation");
    reveal_strlit("Toggle debug console");
    reveal_strlit("Toggle depth view");
    reveal_strlit("Toggle projection debug");
    reveal_strlit("Toggle frame timing");
    reveal_strlit("Show OS graphics overlay");
    reveal_strlit("World axes: x/X y/Y z/Z rotate; Ctrl+arrows move origin");
    reveal_strlit("Camera mode: WASD/QE move camera");
    reveal_strlit("Light mode: WASD/QE move light");
    reveal_strlit("Menus: j/k or arrows, Enter, Esc");
    let items = kind.spec_items();
    if kind == MenuKind::File {
        assert(items[0].label@.len() == 12);
        assert(items[1].label@.len() == 19 && items[1].label@[0] == 'R');
        assert(items[2].label@.len() == 4);
    } else if kind == MenuKind::Scenes {
        assert(items[0].label@.len() == 10 && items[0].label@[0] == 'N' && items[0].label@[5] == 's');
        assert(items[1].label@.len() == 14 && items[1].label@[9] == 's');
    } else if kind == MenuKind::Control {
        assert(items[0].label@.len() == 10 && items[0].label@[0] == 'W');
        assert(items[1].label@.len() == 11);
        assert(items[2].label@.len() == 10 && items[2].label@[0] == 'L');
        assert(items[3].label@.len() == 20 && items[3].label@[0] == 'R' && items[3].label@[13] == '+' && items[3].label@[14] == 'X');
        assert(items[4].label@.len() == 20 && items[4].label@[0] == 'R' && items[4].label@[13] == '-' && items[4].label@[14] == 'X');
        assert(items[5].label@.len() == 20 && items[5].label@[0] == 'R' && items[5].label@[13] == '+' && items[5].label@[14] == 'Y');
        assert(items[6].label@.len() == 20 && items[6].label@[0] == 'R' && items[6].label@[13] == '-' && items[6].label@[14] == 'Y');
        assert(items[7].label@.len() == 20 && items[7].label@[0] == 'R' && items[7].label@[13] == '+' && items[7].label@[14] == 'Z');
        assert(items[8].label@.len() == 20 && items[8].label@[0] == 'R' && items[8].label@[13] == '-' && items[8].label@[14] == 'Z');
        assert(items[9].label@.len() == 33 && items[9].label@[13] == 'X');
        assert(items[10].label@.len() == 34);
        assert(items[11].label@.len() == 31);
        assert(items[12].label@.len() == 33 && items[12].label@[13] == 'Y');
        assert(items[13].label@.len() == 23 && items[13].label@[0] == 'R');
    } else if kind == MenuKind::Glyphs {
        assert(items[0].label@.len() == 17 && items[0].label@[0] == 'N');
        assert(items[1].label@.len() == 21 && items[1].label@[1] == 'r');
        assert(items[2].label@.len() == 10 && items[2].label@[0] == 'N' && items[2].label@[5] == 'g');
        assert(items[3].label@.len() == 14 && items[3].label@[9] == 'g');
        assert(items[4].label@.len() == 15 && items[4].label@[1] == 'e');
    } else if kind == MenuKind::Physics {
        assert(items[0].label@.len() == 21 && items[0].label@[1] == 'a');
        assert(items[1].label@.len() == 15 && items[1].label@[1] == 't');
    } else if kind == MenuKind::Debug {
        assert(items[0].label@.len() == 20 && items[0].label@[0] == 'T');
        assert(items[1].label@.len() == 17 && items[1].label@[0] == 'T');
        assert(items[2].label@.len() == 23 && items[2].label@[0] == 'T');
        assert(items[3].label@.len() == 19 && items[3].label@[0] == 'T');
        assert(items[4].label@.len() == 24);
    } else if kind == MenuKind::Help {
        assert(items[0].label@.len() == 55);
        assert(items[1].label@.len() == 32 && items[1].label@[0] == 'C');
        assert(items[2].label@.len() == 30);
        assert(items[3].label@.len() == 32 && items[3].label@[0] == 'M');
    }
}

/// Moving down and then up leaves a menu where it was.
pub proof fn law_menu_down_then_up(state: MenuStateView)
    requires
        state.well_formed(),
    ensures
        state.moved_down().moved_up() == state,
{
    lemma_next_row(state.selected_index, item_count(state.kind));
}

/// Moving up and then down leaves a menu where it was.
pub proof fn law_menu_up_then_down(state: MenuStateView)
    requires
        state.well_formed(),
    ensures
        state.moved_up().moved_down() == state,
{
    let count = item_count(state.kind);
    if state.selected_index == 0 {
        lemma_next_row((count - 1) as nat, count);
    } else {
        lemma_next_row((state.selected_index - 1) as nat, count);
    }
}


/// The heading of a drawn menu: its title and its hotkey.
pub open spec fn menu_heading(kind: MenuKind) -> Seq<char> {
    kind.spec_title() + " menu ["@ + kind.spec_hotkey() + "]"@
}

/// A drawn row: a selector, the label, and a mark on placeholders.
pub open spec fn menu_row_text(item: MenuItem, selected: bool) -> Seq<char> {
    (if selected {
        ">"@
    } else {
        " "@
    }) + " "@ + item.label@ + (if item.placeholder {
        " (placeholder)"@
    } else {
        Seq::empty()
    })
}

/// The text of row `row` of `items` when row `selected_index` is selected.
pub open spec fn menu_row_at(items: Seq<MenuItem>, selected_index: nat, row: int) -> Seq<char> {
    menu_row_text(items[row], row == selected_index)
}

/// The point `dx` columns right of and `dy` rows below `origin`.
pub open spec fn offset_point(origin: Point2, dx: int, dy: int) -> Point2 {
    Point2 { x: (origin.x + dx) as i32, y: (origin.y + dy) as i32 }
}

/// The width of a drawn menu.
pub open spec fn menu_width() -> int {
    44
}

/// The height of a drawn menu: a border, the heading, the rows, a blank line
/// and a border.
pub open spec fn menu_height(kind: MenuKind) -> int {
    item_count(kind) as int + 4
}

/// The canvas after the border of a menu at `origin` is drawn.
pub open spec fn menu_frame(canvas: CanvasView, kind: MenuKind, origin: Point2) -> CanvasView {
    let top_left = origin;
    let top_right = offset_point(origin, menu_width() - 1, 0);
    let bottom_left = offset_point(origin, 0, menu_height(kind) - 1);
    let bottom_right = offset_point(origin, menu_width() - 1, menu_height(kind) - 1);
    canvas.set_all(line_points(top_left, top_right), '=').set_all(
        line_points(bottom_left, bottom_right),
        '=',
    ).set_all(line_points(top_left, bottom_left), '|').set_all(
        line_points(top_right, bottom_right),
        '|',
    ).set(top_left, '+').set(top_right, '+').set(bottom_left, '+').set(bottom_right, '+')
}

/// The canvas after the first `count` rows of a menu at `origin` are drawn.
pub open spec fn menu_rows(
    canvas: CanvasView,
    items: Seq<MenuItem>,
    selected_index: nat,
    origin: Point2,
    count: nat,
) -> CanvasView
    decreases count,
{
    if count == 0 {
        canvas
    } else {
        let row = count - 1;
        menu_rows(canvas, items, selected_index, origin, row as nat).draw_text(
            offset_point(origin, 2, 2 + row),
            menu_row_at(items, selected_index, row),
        )
    }
}

/// The canvas after `draw_menu(state, origin)`.
pub open spec fn drawn_menu(canvas: CanvasView, state: MenuStateView, origin: Point2) -> CanvasView {
    let framed = menu_frame(canvas, state.kind, origin);
    let headed = framed.draw_text(offset_point(origin, 2, 1), menu_heading(state.kind));
    menu_rows(
        headed,
        state.kind.spec_items(),
        state.selected_index,
        origin,
        item_count(state.kind),
    )
}

/// Every point that `draw_menu(state, origin)` draws, shifted by the
/// canvas's origin offset, fits in `i32`.
pub open spec fn menu_fits(canvas: CanvasView, state: MenuStateView, origin: Point2) -> bool {
    let items = state.kind.spec_items();
    &&& origin.x + menu_width() - 1 <= i32::MAX
    &&& origin.y + menu_height(state.kind) - 1 <= i32::MAX
    &&& canvas.can_shift(origin)
    &&& canvas.can_shift(offset_point(origin, menu_width() - 1, menu_height(state.kind) - 1))
    &&& canvas.can_draw_text(offset_point(origin, 2, 1), menu_heading(state.kind))
    &&& forall|row: int|
        0 <= row < items.len() ==> #[trigger] canvas.can_draw_text(
            offset_point(origin, 2, 2 + row),
            menu_row_at(items, state.selected_index, row),
        )
}

/// A canvas with the same origin offset as `canvas` can draw the same text.
proof fn lemma_can_draw_text_same_offset(
    canvas: CanvasView,
    other: CanvasView,
    start: Point2,
    text: Seq<char>,
)
    requires
        canvas.origin_offset == other.origin_offset,
        canvas.can_draw_text(start, text),
    ensures
        other.can_draw_text(start, text),
{
    assert forall|k: int| 0 <= k < text.len() implies #[trigger] other.can_shift(
        Point2 { x: (start.x + k) as i32, y: start.y },
    ) by {
        assert(canvas.can_shift(Point2 { x: (start.x + k) as i32, y: start.y }));
    }
}

/// Draws the border of a menu of `kind` at `origin`.
fn draw_menu_frame(canvas: &mut Canvas, kind: MenuKind, origin: Point2, height: i32)
    requires
        old(canvas)@.well_formed(),
        old(canvas)@.clip_fits(),
        height == menu_height(kind),
        origin.x + menu_width() - 1 <= i32::MAX,
        origin.y + menu_height(kind) - 1 <= i32::MAX,
        old(canvas)@.can_shift(origin),
        old(canvas)@.can_shift(offset_point(origin, menu_width() - 1, menu_height(kind) - 1)),
    ensures
        final(canvas)@ == menu_frame(old(canvas)@, kind, origin),
        final(canvas)@.keeps_shape_of(old(canvas)@),
{
    let width: i32 = 44;
    let left = origin.x;
    let top = origin.y;
    let right = left + (width - 1);
    let bottom = top + (height - 1);

    canvas.draw_line(Point2::new(left, top), Point2::new(right, top), '=');
    canvas.draw_line(Point2::new(left, bottom), Point2::new(right, bottom), '=');
    canvas.draw_line(Point2::new(left, top), Point2::new(left, bottom), '|');
    canvas.draw_line(Point2::new(right, top), Point2::new(right, bottom), '|');

    canvas.set(Point2::new(left, top), '+');
    canvas.set(Point2::new(right, top), '+');
    canvas.set(Point2::new(left, bottom), '+');
    canvas.set(Point2::new(right, bottom), '+');
}

/// Draws `state` as a bordered box at `origin`: the heading, then one row per
/// item with `>` before the selected one.
pub fn draw_menu(canvas: &mut Canvas, state: &MenuState, origin: Point2)
    requires
        old(canvas)@.well_formed(),
        old(canvas)@.clip_fits(),
        menu_fits(old(canvas)@, state@, origin),
    ensures
        final(canvas)@ == drawn_menu(old(canvas)@, state@, origin),
{
    proof {
        use_type_invariant(state);
    }
    let items = state.kind.items();
    let height: i32 = items.len() as i32 + 4;
    let left = origin.x;
    let top = origin.y;

    draw_menu_frame(canvas, state.kind, origin, height);

    let mut heading = state.kind.title().to_owned();
    heading.append(" menu [");
    heading.append(state.kind.hotkey());
    heading.append("]");
    proof {
        assert(heading@ == menu_heading(state@.kind));
        lemma_can_draw_text_same_offset(
            old(canvas)@,
            canvas@,
            offset_point(origin, 2, 1),
            menu_heading(state@.kind),
        );
    }
    canvas.draw_text(Point2::new(left + 2, top + 1), heading.as_str());

    let ghost headed = canvas@;
    let mut index: usize = 0;
    while index < items.len()
        invariant
            items@ == state@.kind.spec_items(),
            index <= items.len(),
            canvas@.keeps_shape_of(old(canvas)@),
            old(canvas)@.clip_fits(),
            menu_fits(old(canvas)@, state@, origin),
            left == origin.x,
            top == origin.y,
            canvas@ == menu_rows(headed, items@, state@.selected_index, origin, index as nat),
        decreases items.len() - index,
    {
        let item = items[index];
        let selector = if index == state.selected_index {
            ">"
        } else {
            " "
        };
        let mut row = selector.to_owned();
        row.append(" ");
        row.append(item.label);
        if item.placeholder {
            row.append(" (placeholder)");
        }
        proof {
            assert(row@ == menu_row_at(items@, state@.selected_index, index as int));
            assert(old(canvas)@.can_draw_text(
                offset_point(origin, 2, 2 + index),
                menu_row_at(items@, state@.selected_index, index as int),
            ));
            lemma_can_draw_text_same_offset(
                old(canvas)@,
                canvas@,
                offset_point(origin, 2, 2 + index),
                menu_row_at(items@, state@.selected_index, index as int),
            );
        }
        canvas.draw_text(Point2::new(left + 2, top + 2 + index as i32), row.as_str());
        index = index + 1;
    }
}

} // verus!
