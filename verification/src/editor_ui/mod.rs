pub mod event;
pub mod hierarchy;
pub mod key_repeat;
pub mod keymap;
pub mod menu;
pub mod menu_catalog;
pub mod model;
pub mod properties;

pub use event::{EditorEvent, EventSource, TransformAxis, TransformSpace};



pub use menu::{
    header_status_width, menu_action_count, menu_actions, menu_definition, MenuBarState,
    MenuDefinition, MenuEntry, MenuId,
};
pub use model::{EditorCapabilities, EditorItem, EditorTarget, EditorTargetKey, EditorTargetKind};

pub use menu_catalog::{
    shared_menu_definitions, MenuCapabilities, DEBUG_MENU_ID, DEBUG_OPEN_RAYLIB_ID,
    DEBUG_TOGGLE_LOG_ID, FILE_BROWSE_SCENES_ID, FILE_EXIT_ID, FILE_MENU_ID, FILE_OPEN_ID,
    FILE_RELOAD_ID, FILE_SAVE_AS_ID, FILE_SAVE_ID, HELP_MENU_ID, OBJECTS_MENU_ID, VIEW_MENU_ID,
};
pub use hierarchy::ObjectHierarchyState;
pub use properties::{PropertiesState, PropertyRow};
pub use key_repeat::EditorKeyRepeatGate;
pub use keymap::{WorkspaceKeymap, WorkspaceMenu};
