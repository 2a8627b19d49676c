use vstd::prelude::*;

use super::menu::{MenuDefinition, MenuEntry, MenuId};

verus! {

pub const FILE_MENU_ID: &'static str = "file";
pub const OBJECTS_MENU_ID: &'static str = "objects";
pub const VIEW_MENU_ID: &'static str = "view";
pub const DEBUG_MENU_ID: &'static str = "debug";
pub const HELP_MENU_ID: &'static str = "help";

pub const FILE_OPEN_ID: &'static str = "open";
pub const FILE_RELOAD_ID: &'static str = "reload";
pub const FILE_SAVE_ID: &'static str = "save";
pub const FILE_SAVE_AS_ID: &'static str = "save-as";
pub const FILE_BROWSE_SCENES_ID: &'static str = "browse-scenes";
pub const FILE_EXIT_ID: &'static str = "exit";

pub const DEBUG_TOGGLE_LOG_ID: &'static str = "toggle-log";
pub const DEBUG_OPEN_RAYLIB_ID: &'static str = "open-raylib-gui";

/// Which of the shared menu actions the running front end supports.
#[derive(Clone, Copy, Debug, Default, PartialEq, Eq)]
pub struct MenuCapabilities {
    pub can_open: bool,
    pub can_reload: bool,
    pub can_save: bool,
    pub can_save_as: bool,
    pub can_browse_scenes: bool,
    pub can_exit: bool,
    pub can_toggle_log: bool,
    pub can_open_raylib_gui: bool,
}

/// `entry` is an enabled-or-not action row with this id and label and no
/// shortcut.
pub open spec fn is_action(entry: MenuEntry, id: Seq<char>, label: Seq<char>, enabled: bool) -> bool {
    match entry {
        MenuEntry::Action { id: entry_id, label: entry_label, enabled: entry_enabled, shortcut } => {
            &&& entry_id@ == id
            &&& entry_label@ == label
            &&& entry_enabled == enabled
            &&& shortcut is None
        },
        MenuEntry::Separator => false,
    }
}

/// `definition` has this id, label and hotkey and `entry_count` rows.
pub open spec fn is_menu(
    definition: MenuDefinition,
    id: Seq<char>,
    label: Seq<char>,
    hotkey: char,
    entry_count: nat,
) -> bool {
    &&& definition.id.0@ == id
    &&& definition.label@ == label
    &&& definition.hotkey == Some(hotkey)
    &&& definition.entries@.len() == entry_count
}

/// The rows of the File menu for `capabilities`.
pub open spec fn file_menu_rows(entries: Seq<MenuEntry>, capabilities: MenuCapabilities) -> bool {
    &&& entries.len() == 9
    &&& is_action(entries[0], FILE_OPEN_ID@, "Open..."@, capabilities.can_open)
    &&& is_action(entries[1], FILE_RELOAD_ID@, "Reload"@, capabilities.can_reload)
    &&& entries[2] is Separator
    &&& is_action(entries[3], FILE_SAVE_ID@, "Save"@, capabilities.can_save)
    &&& is_action(entries[4], FILE_SAVE_AS_ID@, "Save As..."@, capabilities.can_save_as)
    &&& entries[5] is Separator
    &&& is_action(
        entries[6],
        FILE_BROWSE_SCENES_ID@,
        "Browse built-in scenes..."@,
        capabilities.can_browse_scenes,
    )
    &&& entries[7] is Separator
    &&& is_action(entries[8], FILE_EXIT_ID@, "Exit"@, capabilities.can_exit)
}

/// The rows of the Debug menu for `capabilities`.
pub open spec fn debug_menu_rows(entries: Seq<MenuEntry>, capabilities: MenuCapabilities) -> bool {
    &&& entries.len() == 2
    &&& is_action(entries[0], DEBUG_TOGGLE_LOG_ID@, "Toggle log"@, capabilities.can_toggle_log)
    &&& is_action(
        entries[1],
        DEBUG_OPEN_RAYLIB_ID@,
        "Open Raylib GUI"@,
        capabilities.can_open_raylib_gui,
    )
}

/// The menus that every front end shows, in this order: File, Objects, View,
/// Debug and Help. An action the front end cannot do is shown disabled.
pub fn shared_menu_definitions(capabilities: MenuCapabilities) -> (definitions: Vec<MenuDefinition>)
    ensures
        definitions@.len() == 5,
        is_menu(definitions@[0], FILE_MENU_ID@, "File"@, 'f', 9),
        file_menu_rows(definitions@[0].entries@, capabilities),
        is_menu(definitions@[1], OBJECTS_MENU_ID@, "Objects"@, 'o', 0),
        is_menu(definitions@[2], VIEW_MENU_ID@, "View"@, 'v', 0),
        is_menu(definitions@[3], DEBUG_MENU_ID@, "Debug"@, 'd', 2),
        debug_menu_rows(definitions@[3].entries@, capabilities),
        is_menu(definitions@[4], HELP_MENU_ID@, "Help"@, 'h', 0),
{
    let mut file_entries = Vec::new();
    file_entries.push(action(FILE_OPEN_ID, "Open...", capabilities.can_open));
    file_entries.push(action(FILE_RELOAD_ID, "Reload", capabilities.can_reload));
    file_entries.push(MenuEntry::Separator);
    file_entries.push(action(FILE_SAVE_ID, "Save", capabilities.can_save));
    file_entries.push(action(FILE_SAVE_AS_ID, "Save As...", capabilities.can_save_as));
    file_entries.push(MenuEntry::Separator);
    file_entries.push(
        action(FILE_BROWSE_SCENES_ID, "Browse built-in scenes...", capabilities.can_browse_scenes),
    );
    file_entries.push(MenuEntry::Separator);
    file_entries.push(action(FILE_EXIT_ID, "Exit", capabilities.can_exit));

    let mut debug_entries = Vec::new();
    debug_entries.push(action(DEBUG_TOGGLE_LOG_ID, "Toggle log", capabilities.can_toggle_log));
    debug_entries.push(
        action(DEBUG_OPEN_RAYLIB_ID, "Open Raylib GUI", capabilities.can_open_raylib_gui),
    );

    let mut definitions = Vec::new();
    definitions.push(
        MenuDefinition {
            id: MenuId::new(FILE_MENU_ID),
            label: "File".to_owned(),
            hotkey: Some('f'),
            entries: file_entries,
        },
    );
    definitions.push(
        MenuDefinition {
            id: MenuId::new(OBJECTS_MENU_ID),
            label: "Objects".to_owned(),
            hotkey: Some('o'),
            entries: Vec::new(),
        },
    );
    definitions.push(
        MenuDefinition {
            id: MenuId::new(VIEW_MENU_ID),
            label: "View".to_owned(),
            hotkey: Some('v'),
            entries: Vec::new(),
        },
    );
    definitions.push(
        MenuDefinition {
            id: MenuId::new(DEBUG_MENU_ID),
            label: "Debug".to_owned(),
            hotkey: Some('d'),
            entries: debug_entries,
        },
    );
    definitions.push(
        MenuDefinition {
            id: MenuId::new(HELP_MENU_ID),
            label: "Help".to_owned(),
            hotkey: Some('h'),
            entries: Vec::new(),
        },
    );
    definitions
}

/// An action row with no shortcut.
pub fn action(id: &str, label: &str, enabled: bool) -> (entry: MenuEntry)
    ensures
        is_action(entry, id@, label@, enabled),
{
    MenuEntry::Action { id: id.to_owned(), label: label.to_owned(), enabled, shortcut: None }
}

} // verus!
