use vstd::prelude::*;

use crate::keys::{KeyCode, KeyEvent, KeyModifiers};
use crate::text::{ascii_lowercase, spec_ascii_lowercase};

verus! {

/// The menus of the workspace's menu bar.
#[derive(Clone, Copy, Debug, PartialEq, Eq, Structural)]
pub enum WorkspaceMenu {
    File,
    Objects,
    View,
    Help,
}

/// The letters that open the workspace menus together with Alt.
#[derive(Clone, Copy, Debug, PartialEq, Eq)]
pub struct WorkspaceKeymap {
    pub file_menu: char,
    pub objects_menu: char,
    pub view_menu: char,
    pub help_menu: char,
}

impl Default for WorkspaceKeymap {
    fn default() -> (keymap: Self)
        ensures
            keymap == (WorkspaceKeymap {
                file_menu: 'f',
                objects_menu: 'o',
                view_menu: 'v',
                help_menu: 'h',
            }),
    {
        Self { file_menu: 'f', objects_menu: 'o', view_menu: 'v', help_menu: 'h' }
    }
}


impl WorkspaceKeymap {
    /// The menu that `key` opens: Alt with one of the keymap's letters,
    /// in either case.
    pub open spec fn spec_menu_for_event(self, key: KeyEvent) -> Option<WorkspaceMenu> {
        if !key.modifiers.spec_contains(KeyModifiers(4)) {
            None
        } else {
            match key.code {
                KeyCode::Char(character) => {
                    let lower = spec_ascii_lowercase(character);
                    if lower == self.file_menu {
                        Some(WorkspaceMenu::File)
                    } else if lower == self.objects_menu {
                        Some(WorkspaceMenu::Objects)
                    } else if lower == self.view_menu {
                        Some(WorkspaceMenu::View)
                    } else if lower == self.help_menu {
                        Some(WorkspaceMenu::Help)
                    } else {
                        None
                    }
                },
                _ => None,
            }
        }
    }

    pub fn menu_for_event(self, key: KeyEvent) -> (menu: Option<WorkspaceMenu>)
        ensures
            menu == self.spec_menu_for_event(key),
    {
        if !key.modifiers.contains(KeyModifiers::alt()) {
            return None;
        }
        let character = match key.code {
            KeyCode::Char(character) => character,
            _ => return None,
        };
        let character = ascii_lowercase(character);
        if character == self.file_menu {
            Some(WorkspaceMenu::File)
        } else if character == self.objects_menu {
            Some(WorkspaceMenu::Objects)
        } else if character == self.view_menu {
            Some(WorkspaceMenu::View)
        } else if character == self.help_menu {
            Some(WorkspaceMenu::Help)
        } else {
            None
        }
    }
}

} // verus!
