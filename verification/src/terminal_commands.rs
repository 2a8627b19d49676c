use vstd::prelude::*;
use vstd::string::StringExecFns;

use crate::debug_console::{appended_log, appended_logs, views, DebugConsole, DebugConsoleView};
use crate::input::command::AppCommand;
use crate::menu::model::MenuStateView;
use crate::navigation::ControlMode;
use crate::pickers::A3dFilePicker;
use crate::scene_browser::SceneBrowser;
use crate::terminal_state::{
    menu_view, next_control_mode, next_stroke, previous_stroke, spec_menu_command_outcome,
    spec_menus_after_command, spec_next_control_mode, AppMenus, GlyphStrokeSelection,
    MenuCommandOutcome,
};

verus! {

/// The state of the terminal application that its commands change, apart
/// from the world and the camera.
pub struct TerminalState {
    /// The exit confirmation is shown.
    pub confirm_exit: bool,
    pub control_mode: ControlMode,
    pub menus: AppMenus,
    pub scene_browser: SceneBrowser,
    pub console: DebugConsole,
    pub glyph_stroke: GlyphStrokeSelection,
    /// The frame timings are shown.
    pub frame_timing_shown: bool,
    /// The `.a3d` file picker, while it is open.
    pub file_picker: Option<A3dFilePicker>,
}

/// The terminal state with each part by its view.
pub struct TerminalView {
    pub confirm_exit: bool,
    pub control_mode: ControlMode,
    pub menu: Option<MenuStateView>,
    pub scene_browser: SceneBrowser,
    pub console: DebugConsoleView,
    pub glyph_stroke: nat,
    pub frame_timing_shown: bool,
    pub file_picker: Option<A3dFilePicker>,
}

impl View for TerminalState {
    type V = TerminalView;

    open spec fn view(&self) -> TerminalView {
        TerminalView {
            confirm_exit: self.confirm_exit,
            control_mode: self.control_mode,
            menu: menu_view(self.menus.active),
            scene_browser: self.scene_browser,
            console: self.console@,
            glyph_stroke: self.glyph_stroke@,
            frame_timing_shown: self.frame_timing_shown,
            file_picker: self.file_picker,
        }
    }
}

/// What came of a command.
#[derive(Debug, Clone, Copy, PartialEq, Eq, Structural)]
pub enum CommandOutcome {
    /// The command did its work.
    Handled,
    /// The command had nothing to act on.
    Ignored,
    /// The command acts on the world, the camera or the files, which the
    /// front end holds: it is handed back to be run there.
    ForFrontEnd(AppCommand),
}

/// The console line that notes control mode `mode`.
pub open spec fn mode_line(mode: ControlMode) -> Seq<char> {
    "control mode: "@ + mode.spec_label()
}

/// `console` after it noted `line` and scrolled back to the bottom.
pub open spec fn noted(console: DebugConsoleView, line: Seq<char>) -> DebugConsoleView {
    DebugConsoleView { lines: appended_log(console.lines, line), scroll: 0, ..console }
}

/// `console` shown or hidden: on showing, the world's lines come first;
/// either way the change is noted.
pub open spec fn toggled(console: DebugConsoleView, world_lines: Seq<Seq<char>>) -> DebugConsoleView {
    DebugConsoleView {
        visible: !console.visible,
        lines: appended_log(
            if console.visible {
                console.lines
            } else {
                appended_logs(console.lines, world_lines)
            },
            if console.visible {
                "debug console: hidden"@
            } else {
                "debug console: shown"@
            },
        ),
        scroll: 0,
        ..console
    }
}

/// `state` in control mode `mode`, with the change noted.
pub open spec fn in_mode(state: TerminalView, mode: ControlMode) -> TerminalView {
    TerminalView { control_mode: mode, console: noted(state.console, mode_line(mode)), ..state }
}

/// `state` after a command that is not one for the menus; the lines of
/// `world_lines` are what the console shows of the world when it opens.
pub open spec fn after_state_command(
    state: TerminalView,
    command: AppCommand,
    world_lines: Seq<Seq<char>>,
) -> TerminalView {
    match command {
        AppCommand::Quit => TerminalView {
            confirm_exit: true,
            menu: None,
            file_picker: None,
            ..state
        },
        AppCommand::ToggleControlMode => in_mode(state, spec_next_control_mode(state.control_mode)),
        AppCommand::SetControlModeScene => TerminalView {
            menu: None,
            ..in_mode(state, ControlMode::Scene)
        },
        AppCommand::SetControlModeCamera => TerminalView {
            menu: None,
            ..in_mode(state, ControlMode::Camera)
        },
        AppCommand::SetControlModeLight => TerminalView {
            menu: None,
            ..in_mode(state, ControlMode::Light)
        },
        AppCommand::OpenSceneBrowser => TerminalView {
            scene_browser: state.scene_browser.opened(),
            menu: None,
            ..state
        },
        AppCommand::ToggleDebugConsole => TerminalView {
            console: toggled(state.console, world_lines),
            ..state
        },
        AppCommand::ToggleFrameTiming => TerminalView {
            frame_timing_shown: !state.frame_timing_shown,
            menu: None,
            ..state
        },
        AppCommand::NextGlyphStroke => TerminalView {
            glyph_stroke: next_stroke(state.glyph_stroke),
            ..state
        },
        AppCommand::PreviousGlyphStroke => TerminalView {
            glyph_stroke: previous_stroke(state.glyph_stroke),
            ..state
        },
        _ => state,
    }
}

/// The commands that the terminal state acts on itself.
pub open spec fn is_state_command(command: AppCommand) -> bool {
    match command {
        AppCommand::Quit | AppCommand::ToggleControlMode | AppCommand::SetControlModeScene
        | AppCommand::SetControlModeCamera | AppCommand::SetControlModeLight
        | AppCommand::OpenSceneBrowser | AppCommand::ToggleDebugConsole
        | AppCommand::ToggleFrameTiming | AppCommand::NextGlyphStroke
        | AppCommand::PreviousGlyphStroke => true,
        _ => false,
    }
}

/// What comes of a command that is not one for the menus.
pub open spec fn state_command_outcome(command: AppCommand) -> CommandOutcome {
    if is_state_command(command) {
        CommandOutcome::Handled
    } else {
        CommandOutcome::ForFrontEnd(command)
    }
}

/// `state` with the menus after `command`.
pub open spec fn with_menus_after(state: TerminalView, command: AppCommand) -> TerminalView {
    TerminalView {
        menu: spec_menus_after_command(state.menu, command, state.control_mode),
        ..state
    }
}

/// `state` after `command` has been offered to the menus and then, where it
/// is not theirs, run on the rest of the state. A menu row that is taken runs
/// its command the same way, once.
pub open spec fn after_command(
    state: TerminalView,
    command: AppCommand,
    world_lines: Seq<Seq<char>>,
) -> TerminalView {
    match spec_menu_command_outcome(state.menu, command) {
        MenuCommandOutcome::NotForMenus => after_state_command(state, command, world_lines),
        MenuCommandOutcome::Run(selected) => {
            let closed = with_menus_after(state, command);
            match spec_menu_command_outcome(closed.menu, selected) {
                MenuCommandOutcome::NotForMenus => after_state_command(closed, selected, world_lines),
                _ => with_menus_after(closed, selected),
            }
        },
        _ => with_menus_after(state, command),
    }
}

/// What comes of `command` in `state`.
pub open spec fn command_outcome(state: TerminalView, command: AppCommand) -> CommandOutcome {
    match spec_menu_command_outcome(state.menu, command) {
        MenuCommandOutcome::Handled => CommandOutcome::Handled,
        MenuCommandOutcome::Ignored => CommandOutcome::Ignored,
        MenuCommandOutcome::NotForMenus => state_command_outcome(command),
        MenuCommandOutcome::Run(selected) => {
            let closed = with_menus_after(state, command);
            match spec_menu_command_outcome(closed.menu, selected) {
                MenuCommandOutcome::Handled => CommandOutcome::Handled,
                MenuCommandOutcome::NotForMenus => state_command_outcome(selected),
                _ => CommandOutcome::Ignored,
            }
        },
    }
}

/// Opening the Control menu and taking the row it opens on sets the mode the
/// application is already in: the mode stays, the menu closes, and the
/// console notes the mode.
pub proof fn law_control_row_keeps_mode(state: TerminalView, world_lines: Seq<Seq<char>>)
    ensures
        ({
            let opened = after_command(
                state,
                AppCommand::OpenMenu(crate::menu::model::MenuKind::Control),
                world_lines,
            );
            let taken = after_command(opened, AppCommand::MenuSelect, world_lines);
            &&& taken.control_mode == state.control_mode
            &&& taken.menu is None
            &&& taken.console == noted(state.console, mode_line(state.control_mode))
        }),
{
    crate::terminal_state::law_control_menu_opens_on_current_mode(state.menu, state.control_mode);
}

/// Taking a menu row labelled "Toggle debug console" shows the console where
/// it was hidden and hides it where it was shown, and closes the menu.
pub proof fn law_console_row_toggles_console(state: TerminalView, world_lines: Seq<Seq<char>>)
    requires
        state.menu matches Some(menu) && menu.selected_index < menu.kind.spec_items().len()
            && menu.kind.spec_items()[menu.selected_index as int].label@ == "Toggle debug console"@,
    ensures
        after_command(state, AppCommand::MenuSelect, world_lines).console.visible
            == !state.console.visible,
        after_command(state, AppCommand::MenuSelect, world_lines).menu is None,
        command_outcome(state, AppCommand::MenuSelect) == CommandOutcome::Handled,
{
    let menu = state.menu->0;
    crate::menu::model::law_menu_rows_do_what_their_labels_say(menu.kind, menu.selected_index as int);
}

/// The console line for control mode `mode`.
fn mode_line_text(mode: ControlMode) -> (line: String)
    ensures
        line@ == mode_line(mode),
{
    let mut line = "control mode: ".to_owned();
    line.append(mode.label());
    line
}

impl TerminalState {
    /// Scene mode, no menu, popup or picker open, the first scene and the
    /// first stroke character chosen, an empty hidden console.
    pub fn new() -> (state: Self)
        ensures
            state@ == (TerminalView {
                confirm_exit: false,
                control_mode: ControlMode::Scene,
                menu: None,
                scene_browser: SceneBrowser { position: 0, open: false, selected: 0 },
                console: DebugConsoleView {
                    visible: false,
                    lines: Seq::empty(),
                    scroll: 0,
                    horizontal_scroll: 0,
                },
                glyph_stroke: 0,
                frame_timing_shown: false,
                file_picker: None,
            }),
    {
        TerminalState {
            confirm_exit: false,
            control_mode: ControlMode::Scene,
            menus: AppMenus::new(),
            scene_browser: SceneBrowser::new(),
            console: DebugConsole::new(),
            glyph_stroke: GlyphStrokeSelection::new(),
            frame_timing_shown: false,
            file_picker: None,
        }
    }

    /// Notes control mode `mode` in the console and switches to it.
    fn enter_mode(&mut self, mode: ControlMode)
        ensures
            final(self)@ == in_mode(old(self)@, mode),
    {
        self.control_mode = mode;
        self.console.push_line(mode_line_text(mode));
    }

    /// Runs a command that is not one for the menus.
    fn run_state_command(&mut self, command: AppCommand, world_lines: Vec<String>) -> (outcome:
        CommandOutcome)
        requires
            spec_menu_command_outcome(old(self)@.menu, command) == MenuCommandOutcome::NotForMenus,
        ensures
            final(self)@ == after_state_command(old(self)@, command, views(world_lines@)),
            outcome == state_command_outcome(command),
    {
        match command {
            AppCommand::Quit => {
                self.confirm_exit = true;
                self.menus.close_menu();
                self.file_picker = None;
            },
            AppCommand::ToggleControlMode => {
                let mode = next_control_mode(self.control_mode);
                self.enter_mode(mode);
            },
            AppCommand::SetControlModeScene => {
                self.enter_mode(ControlMode::Scene);
                self.menus.close_menu();
            },
            AppCommand::SetControlModeCamera => {
                self.enter_mode(ControlMode::Camera);
                self.menus.close_menu();
            },
            AppCommand::SetControlModeLight => {
                self.enter_mode(ControlMode::Light);
                self.menus.close_menu();
            },
            AppCommand::OpenSceneBrowser => {
                self.scene_browser.open();
                self.menus.close_menu();
            },
            AppCommand::ToggleDebugConsole => {
                self.console.toggle(world_lines);
            },
            AppCommand::ToggleFrameTiming => {
                self.frame_timing_shown = !self.frame_timing_shown;
                self.menus.close_menu();
            },
            AppCommand::NextGlyphStroke => {
                self.glyph_stroke.next();
            },
            AppCommand::PreviousGlyphStroke => {
                self.glyph_stroke.previous();
            },
            _ => {
                return CommandOutcome::ForFrontEnd(command);
            },
        }
        CommandOutcome::Handled
    }

    /// Runs `command`: the menus take theirs; a taken menu row runs its
    /// command; the exit confirmation, the control mode, the scene browser,
    /// the console, the frame timings and the stroke character answer their
    /// own; every other command is handed back to the front end untouched.
    /// `world_lines` are what the console shows of the world when it opens.
    pub fn run_command(&mut self, command: AppCommand, world_lines: Vec<String>) -> (outcome:
        CommandOutcome)
        ensures
            final(self)@ == after_command(old(self)@, command, views(world_lines@)),
            outcome == command_outcome(old(self)@, command),
    {
        let mode = self.control_mode;
        match self.menus.apply_command(command, mode) {
            MenuCommandOutcome::Handled => CommandOutcome::Handled,
            MenuCommandOutcome::Ignored => CommandOutcome::Ignored,
            MenuCommandOutcome::NotForMenus => self.run_state_command(command, world_lines),
            MenuCommandOutcome::Run(selected) => {
                match self.menus.apply_command(selected, mode) {
                    MenuCommandOutcome::Handled => CommandOutcome::Handled,
                    MenuCommandOutcome::NotForMenus => self.run_state_command(selected, world_lines),
                    _ => CommandOutcome::Ignored,
                }
            },
        }
    }
}

} // verus!
