use vstd::prelude::*;
use vstd::string::StringExecFns;

use crate::text::{trim_bounds, trimmed};
use crate::editor_ui::key_repeat::{EditorKeyRepeatGate, KeyRepeatView, INITIAL_REPEAT_DELAY_NANOS};
use crate::editor_ui::keymap::{WorkspaceKeymap, WorkspaceMenu};
use crate::editor_ui::menu_catalog::{
    FILE_BROWSE_SCENES_ID, FILE_EXIT_ID, FILE_OPEN_ID, FILE_RELOAD_ID, FILE_SAVE_AS_ID,
    FILE_SAVE_ID,
};
use crate::keys::{KeyCode, KeyEvent, KeyEventKind};
use crate::text::{chars_of, push_char, string_from_chars};

verus! {

/// What of the scene viewer is up when a key arrives, as far as it decides
/// where the key goes; listed from the layer that answers first.
#[derive(Debug, Clone, Copy, PartialEq, Eq, Structural)]
pub struct ViewerLayers {
    pub scene_picker_open: bool,
    pub confirm_exit: bool,
    pub save_as_open: bool,
    pub file_open: bool,
    pub debug_open: bool,
    pub properties_open: bool,
    pub hierarchy_open: bool,
    pub menu_bar_focused: bool,
}

/// Some panel, popup, question or the menu bar has the keyboard, so that
/// held navigation keys go through the repeat gate.
pub open spec fn spec_editor_owns_input(layers: ViewerLayers) -> bool {
    layers.scene_picker_open || layers.confirm_exit || layers.save_as_open || layers.file_open
        || layers.debug_open || layers.properties_open || layers.hierarchy_open
        || layers.menu_bar_focused
}

pub fn editor_owns_input(layers: &ViewerLayers) -> (owns: bool)
    ensures
        owns == spec_editor_owns_input(*layers),
{
    layers.scene_picker_open || layers.confirm_exit || layers.save_as_open || layers.file_open
        || layers.debug_open || layers.properties_open || layers.hierarchy_open
        || layers.menu_bar_focused
}

/// Whether a key event is handled at all. While the editor owns the input,
/// `EditorKeyRepeatGate::accept` answers. When it does not, the held key
/// is let go, and a key that goes down or repeats is handled.
pub open spec fn spec_admit_key(
    gate: KeyRepeatView,
    layers: ViewerLayers,
    key: KeyEvent,
    now: u64,
) -> (KeyRepeatView, bool) {
    if spec_editor_owns_input(layers) {
        gate.accept(key, now)
    } else {
        (
            KeyRepeatView { active_key: None, next_allowed: None },
            key.kind == KeyEventKind::Press || key.kind == KeyEventKind::Repeat,
        )
    }
}

pub fn admit_key(
    gate: &mut EditorKeyRepeatGate,
    layers: &ViewerLayers,
    key: KeyEvent,
    now: u64,
) -> (admitted: bool)
    requires
        now <= u64::MAX - INITIAL_REPEAT_DELAY_NANOS,
    ensures
        (final(gate)@, admitted) == spec_admit_key(old(gate)@, *layers, key, now),
{
    if editor_owns_input(layers) {
        gate.accept(key, now)
    } else {
        gate.reset();
        match key.kind {
            KeyEventKind::Press | KeyEventKind::Repeat => true,
            KeyEventKind::Release => false,
        }
    }
}

/// Where an admitted key goes in the scene viewer.
#[derive(Debug, Clone, Copy, PartialEq, Eq, Structural)]
pub enum ViewerRoute {
    CloseScenePicker,
    ScenePickerUp,
    ScenePickerDown,
    ScenePickerParent,
    ActivateScenePickerEntry,
    Quit,
    CloseExitConfirm,
    /// The Save As prompt edits its path with the key.
    ToSaveAs,
    CloseFilePopup,
    FilePopupUp,
    FilePopupDown,
    ActivateFileAction,
    /// The debug popup handles the key.
    ToDebugPopup,
    OpenMenu(WorkspaceMenu),
    ToProperties,
    ToHierarchy,
    ToMenuBar,
    FocusMenuBar,
    /// The active camera, origin or object handles the key.
    ToActiveTarget,
    /// The key changes nothing.
    Nothing,
}

/// The answer of the scene picker to a key.
pub open spec fn scene_picker_route(code: KeyCode) -> ViewerRoute {
    match code {
        KeyCode::Esc => ViewerRoute::CloseScenePicker,
        KeyCode::Up | KeyCode::Char('k') => ViewerRoute::ScenePickerUp,
        KeyCode::Down | KeyCode::Char('j') => ViewerRoute::ScenePickerDown,
        KeyCode::Backspace | KeyCode::Left => ViewerRoute::ScenePickerParent,
        KeyCode::Enter => ViewerRoute::ActivateScenePickerEntry,
        _ => ViewerRoute::Nothing,
    }
}

/// The answer of the exit question to a key.
pub open spec fn exit_question_route(code: KeyCode) -> ViewerRoute {
    match code {
        KeyCode::Enter | KeyCode::Char('y') | KeyCode::Char('Y') => ViewerRoute::Quit,
        KeyCode::Esc | KeyCode::Char('n') | KeyCode::Char('N') | KeyCode::Char('c')
        | KeyCode::Char('C') => ViewerRoute::CloseExitConfirm,
        _ => ViewerRoute::Nothing,
    }
}

/// The answer of the File popup to a key.
pub open spec fn file_popup_route(code: KeyCode) -> ViewerRoute {
    match code {
        KeyCode::Esc => ViewerRoute::CloseFilePopup,
        KeyCode::Up | KeyCode::Char('k') => ViewerRoute::FilePopupUp,
        KeyCode::Down | KeyCode::Char('j') => ViewerRoute::FilePopupDown,
        KeyCode::Enter => ViewerRoute::ActivateFileAction,
        _ => ViewerRoute::Nothing,
    }
}

/// Where an admitted key goes, the first layer that is up deciding: the
/// scene picker, the exit question, the Save As prompt, the File and Debug
/// popups, a menu accelerator on a press, the properties panel, the object
/// hierarchy, the focused menu bar; else Tab focuses the menu bar and any
/// other key goes to the active target.
pub open spec fn spec_route_viewer_key(
    layers: ViewerLayers,
    keymap: WorkspaceKeymap,
    key: KeyEvent,
) -> ViewerRoute {
    if layers.scene_picker_open {
        scene_picker_route(key.code)
    } else if layers.confirm_exit {
        exit_question_route(key.code)
    } else if layers.save_as_open {
        ViewerRoute::ToSaveAs
    } else if layers.file_open {
        file_popup_route(key.code)
    } else if layers.debug_open {
        ViewerRoute::ToDebugPopup
    } else if key.kind == KeyEventKind::Press && keymap.spec_menu_for_event(key) is Some {
        ViewerRoute::OpenMenu(keymap.spec_menu_for_event(key)->0)
    } else if layers.properties_open {
        ViewerRoute::ToProperties
    } else if layers.hierarchy_open {
        ViewerRoute::ToHierarchy
    } else if layers.menu_bar_focused {
        ViewerRoute::ToMenuBar
    } else if key.code == KeyCode::Tab {
        ViewerRoute::FocusMenuBar
    } else {
        ViewerRoute::ToActiveTarget
    }
}

pub fn route_viewer_key(layers: &ViewerLayers, keymap: WorkspaceKeymap, key: KeyEvent) -> (route:
    ViewerRoute)
    ensures
        route == spec_route_viewer_key(*layers, keymap, key),
{
    let code = key.code;
    if layers.scene_picker_open {
        return match code {
            KeyCode::Esc => ViewerRoute::CloseScenePicker,
            KeyCode::Up | KeyCode::Char('k') => ViewerRoute::ScenePickerUp,
            KeyCode::Down | KeyCode::Char('j') => ViewerRoute::ScenePickerDown,
            KeyCode::Backspace | KeyCode::Left => ViewerRoute::ScenePickerParent,
            KeyCode::Enter => ViewerRoute::ActivateScenePickerEntry,
            _ => ViewerRoute::Nothing,
        };
    }
    if layers.confirm_exit {
        return match code {
            KeyCode::Enter | KeyCode::Char('y') | KeyCode::Char('Y') => ViewerRoute::Quit,
            KeyCode::Esc | KeyCode::Char('n') | KeyCode::Char('N') | KeyCode::Char('c')
            | KeyCode::Char('C') => ViewerRoute::CloseExitConfirm,
            _ => ViewerRoute::Nothing,
        };
    }
    if layers.save_as_open {
        return ViewerRoute::ToSaveAs;
    }
    if layers.file_open {
        return match code {
            KeyCode::Esc => ViewerRoute::CloseFilePopup,
            KeyCode::Up | KeyCode::Char('k') => ViewerRoute::FilePopupUp,
            KeyCode::Down | KeyCode::Char('j') => ViewerRoute::FilePopupDown,
            KeyCode::Enter => ViewerRoute::ActivateFileAction,
            _ => ViewerRoute::Nothing,
        };
    }
    if layers.debug_open {
        return ViewerRoute::ToDebugPopup;
    }
    if key.kind == KeyEventKind::Press {
        if let Some(menu) = keymap.menu_for_event(key) {
            return ViewerRoute::OpenMenu(menu);
        }
    }
    if layers.properties_open {
        ViewerRoute::ToProperties
    } else if layers.hierarchy_open {
        ViewerRoute::ToHierarchy
    } else if layers.menu_bar_focused {
        ViewerRoute::ToMenuBar
    } else if code == KeyCode::Tab {
        ViewerRoute::FocusMenuBar
    } else {
        ViewerRoute::ToActiveTarget
    }
}

/// What a key does to the Save As prompt.
#[derive(Debug, Clone, PartialEq, Eq)]
pub enum SaveAsOutcome {
    /// The prompt closes without saving.
    Cancel,
    /// This viewer does not save: the prompt closes.
    ReadOnly,
    /// The path, trimmed, is empty: the prompt stays.
    EmptyPath,
    /// Save to this path, the typed one trimmed.
    Save(String),
    /// The typed path changed, or the key did nothing.
    Edited,
}

/// The typed path after `code`: Backspace drops the last character and a
/// character key adds its character.
pub open spec fn spec_edited_path(path: Seq<char>, code: KeyCode) -> Seq<char> {
    match code {
        KeyCode::Backspace => if path.len() == 0 {
            path
        } else {
            path.drop_last()
        },
        KeyCode::Char(character) => path.push(character),
        _ => path,
    }
}

/// Handles `code` in the Save As prompt holding `path`: Esc cancels; Enter
/// saves to the trimmed path, refused where the viewer does not save or the
/// path is empty; Backspace and characters edit the path.
pub fn save_as_key(path: &mut String, code: KeyCode, save_enabled: bool) -> (outcome: SaveAsOutcome)
    ensures
        final(path)@ == spec_edited_path(old(path)@, code),
        code == KeyCode::Esc ==> outcome == SaveAsOutcome::Cancel,
        code == KeyCode::Enter && !save_enabled ==> outcome == SaveAsOutcome::ReadOnly,
        code == KeyCode::Enter && save_enabled && trimmed(old(path)@).len() == 0 ==> outcome
            == SaveAsOutcome::EmptyPath,
        code == KeyCode::Enter && save_enabled && trimmed(old(path)@).len() > 0 ==> outcome is Save
            && outcome->Save_0@ == trimmed(old(path)@),
        code != KeyCode::Esc && code != KeyCode::Enter ==> outcome == SaveAsOutcome::Edited,
{
    match code {
        KeyCode::Esc => SaveAsOutcome::Cancel,
        KeyCode::Enter => {
            if !save_enabled {
                return SaveAsOutcome::ReadOnly;
            }
            let chars = chars_of(path.as_str());
            let (start, end) = trim_bounds(&chars, 0, chars.len());
            assert(chars@.subrange(0, chars@.len() as int) =~= chars@);
            if start == end {
                SaveAsOutcome::EmptyPath
            } else {
                SaveAsOutcome::Save(string_from_chars(&chars, start, end))
            }
        },
        KeyCode::Backspace => {
            let chars = chars_of(path.as_str());
            if chars.len() > 0 {
                let shorter = string_from_chars(&chars, 0, chars.len() - 1);
                *path = shorter;
            }
            SaveAsOutcome::Edited
        },
        KeyCode::Char(character) => {
            push_char(path, character);
            SaveAsOutcome::Edited
        },
        _ => SaveAsOutcome::Edited,
    }
}

/// What a key does to the Debug popup.
#[derive(Debug, Clone, Copy, PartialEq, Eq, Structural)]
pub enum DebugPopupOutcome {
    Close,
    /// Select this row.
    Select(usize),
    /// The selected action is asked for; this viewer leaves debug actions
    /// to the terminal application.
    Activate,
    Nothing,
}

/// What `code` does to the Debug popup with row `selected` of `count`
/// selected: the selection moves up to the first row, and down wrapping
/// to the first.
pub open spec fn spec_debug_popup_key(selected: usize, count: usize, code: KeyCode) -> DebugPopupOutcome {
    match code {
        KeyCode::Esc => DebugPopupOutcome::Close,
        KeyCode::Up | KeyCode::Char('k') => DebugPopupOutcome::Select(
            if selected == 0 {
                0
            } else {
                (selected - 1) as usize
            },
        ),
        KeyCode::Down | KeyCode::Char('j') => DebugPopupOutcome::Select(
            if count == 0 {
                selected
            } else {
                ((selected + 1) % (count as int)) as usize
            },
        ),
        KeyCode::Enter => DebugPopupOutcome::Activate,
        _ => DebugPopupOutcome::Nothing,
    }
}

pub fn debug_popup_key(selected: usize, count: usize, code: KeyCode) -> (outcome: DebugPopupOutcome)
    requires
        count == 0 || selected < usize::MAX,
    ensures
        outcome == spec_debug_popup_key(selected, count, code),
{
    match code {
        KeyCode::Esc => DebugPopupOutcome::Close,
        KeyCode::Up | KeyCode::Char('k') => DebugPopupOutcome::Select(selected.saturating_sub(1)),
        KeyCode::Down | KeyCode::Char('j') => {
            if count > 0 {
                DebugPopupOutcome::Select((selected + 1) % count)
            } else {
                DebugPopupOutcome::Select(selected)
            }
        },
        KeyCode::Enter => DebugPopupOutcome::Activate,
        _ => DebugPopupOutcome::Nothing,
    }
}

/// The exit question answers every key, whatever popups or panels are up
/// under it; only the scene picker is above it.
pub proof fn law_viewer_exit_question_answers_every_key(
    first: ViewerLayers,
    second: ViewerLayers,
    keymap: WorkspaceKeymap,
    key: KeyEvent,
)
    requires
        first.confirm_exit && !first.scene_picker_open,
        second.confirm_exit && !second.scene_picker_open,
    ensures
        spec_route_viewer_key(first, keymap, key) == spec_route_viewer_key(second, keymap, key),
        spec_route_viewer_key(first, keymap, key) == ViewerRoute::Quit ==> (key.code
            == KeyCode::Enter || key.code == KeyCode::Char('y') || key.code == KeyCode::Char('Y')),
{
}

/// A menu accelerator works over the panels and the menu bar, but not over
/// the picker, the exit question, the Save As prompt or an open popup.
pub proof fn law_menu_accelerators_outrank_panels(
    layers: ViewerLayers,
    keymap: WorkspaceKeymap,
    key: KeyEvent,
)
    requires
        key.kind == KeyEventKind::Press,
        keymap.spec_menu_for_event(key) is Some,
        !layers.scene_picker_open,
        !layers.confirm_exit,
        !layers.save_as_open,
        !layers.file_open,
        !layers.debug_open,
    ensures
        spec_route_viewer_key(layers, keymap, key) == ViewerRoute::OpenMenu(
            keymap.spec_menu_for_event(key)->0,
        ),
{
}

/// Typing a character into the Save As prompt and then Backspace leaves the
/// path as it was.
pub proof fn law_save_as_type_then_erase(path: Seq<char>, character: char)
    ensures
        spec_edited_path(spec_edited_path(path, KeyCode::Char(character)), KeyCode::Backspace)
            == path,
{
    assert(path.push(character).drop_last() =~= path);
}

/// What taking the selected row of the File popup asks for.
#[derive(Debug, Clone, Copy, PartialEq, Eq, Structural)]
pub enum FileChoice {
    /// No row is selected.
    Nothing,
    /// The row's action is switched off in this viewer.
    NotAvailable,
    Open,
    Reload,
    Save,
    SaveAs,
    BrowseScenes,
    Exit,
    /// An action this viewer does not know: the popup closes.
    Close,
}

/// What taking row `selected` of the File popup's `actions` (id, label,
/// enabled) asks for.
pub open spec fn spec_file_choice(actions: Seq<(String, String, bool)>, selected: usize) -> FileChoice {
    if selected >= actions.len() {
        FileChoice::Nothing
    } else if !actions[selected as int].2 {
        FileChoice::NotAvailable
    } else {
        let id = actions[selected as int].0@;
        if id == FILE_OPEN_ID@ {
            FileChoice::Open
        } else if id == FILE_RELOAD_ID@ {
            FileChoice::Reload
        } else if id == FILE_SAVE_ID@ {
            FileChoice::Save
        } else if id == FILE_SAVE_AS_ID@ {
            FileChoice::SaveAs
        } else if id == FILE_BROWSE_SCENES_ID@ {
            FileChoice::BrowseScenes
        } else if id == FILE_EXIT_ID@ {
            FileChoice::Exit
        } else {
            FileChoice::Close
        }
    }
}

pub fn file_choice(actions: &[(String, String, bool)], selected: usize) -> (choice: FileChoice)
    ensures
        choice == spec_file_choice(actions@, selected),
{
    if selected >= actions.len() {
        return FileChoice::Nothing;
    }
    let action = &actions[selected];
    if !action.2 {
        return FileChoice::NotAvailable;
    }
    let id = &action.0;
    if *id == String::from_str(FILE_OPEN_ID) {
        FileChoice::Open
    } else if *id == String::from_str(FILE_RELOAD_ID) {
        FileChoice::Reload
    } else if *id == String::from_str(FILE_SAVE_ID) {
        FileChoice::Save
    } else if *id == String::from_str(FILE_SAVE_AS_ID) {
        FileChoice::SaveAs
    } else if *id == String::from_str(FILE_BROWSE_SCENES_ID) {
        FileChoice::BrowseScenes
    } else if *id == String::from_str(FILE_EXIT_ID) {
        FileChoice::Exit
    } else {
        FileChoice::Close
    }
}

/// Taking an enabled row of the File popup asks for the action its id
/// names, each id its own action: `open`, `reload`, `save`, `save-as`,
/// `browse-scenes` and `exit`; a row with any other id just closes the
/// popup. Past the rows nothing is taken, and a switched-off row is not
/// available.
pub proof fn law_file_rows_do_what_their_ids_say(
    actions: Seq<(String, String, bool)>,
    selected: usize,
)
    ensures
        ({
            let choice = spec_file_choice(actions, selected);
            let taken = selected < actions.len() && actions[selected as int].2;
            let id = actions[selected as int].0@;
            &&& (choice == FileChoice::Nothing) <==> selected >= actions.len()
            &&& (choice == FileChoice::NotAvailable) <==> (selected < actions.len()
                && !actions[selected as int].2)
            &&& (choice == FileChoice::Open) <==> (taken && id == "open"@)
            &&& (choice == FileChoice::Reload) <==> (taken && id == "reload"@)
            &&& (choice == FileChoice::Save) <==> (taken && id == "save"@)
            &&& (choice == FileChoice::SaveAs) <==> (taken && id == "save-as"@)
            &&& (choice == FileChoice::BrowseScenes) <==> (taken && id == "browse-scenes"@)
            &&& (choice == FileChoice::Exit) <==> (taken && id == "exit"@)
            &&& (choice == FileChoice::Close) <==> (taken && id != "open"@ && id != "reload"@
                && id != "save"@ && id != "save-as"@ && id != "browse-scenes"@ && id != "exit"@)
        }),
{
    reveal_strlit("open");
    reveal_strlit("reload");
    reveal_strlit("save");
    reveal_strlit("save-as");
    reveal_strlit("browse-scenes");
    reveal_strlit("exit");
    assert(FILE_OPEN_ID@ == "open"@);
    assert(FILE_RELOAD_ID@ == "reload"@);
    assert(FILE_SAVE_ID@ == "save"@);
    assert(FILE_SAVE_AS_ID@ == "save-as"@);
    assert(FILE_BROWSE_SCENES_ID@ == "browse-scenes"@);
    assert(FILE_EXIT_ID@ == "exit"@);
    assert("open"@.len() == 4 && "exit"@.len() == 4 && "open"@[0] != "exit"@[0]);
    assert("save"@.len() == 4 && "save"@[0] != "open"@[0] && "save"@[0] != "exit"@[0]);
    assert("reload"@.len() == 6 && "save-as"@.len() == 7 && "browse-scenes"@.len() == 13);
}

/// While the scene picker is open it moves its selection down with Down or
/// `j` and up with Up or `k`, goes to the parent with Backspace or Left,
/// takes the entry with Enter and closes with Esc; nothing else moves it.
pub proof fn law_scene_picker_keys(layers: ViewerLayers, keymap: WorkspaceKeymap, key: KeyEvent)
    requires
        layers.scene_picker_open,
    ensures
        (spec_route_viewer_key(layers, keymap, key) == ViewerRoute::ScenePickerDown) <==> (key.code
            == KeyCode::Down || key.code == KeyCode::Char('j')),
        (spec_route_viewer_key(layers, keymap, key) == ViewerRoute::ScenePickerUp) <==> (key.code
            == KeyCode::Up || key.code == KeyCode::Char('k')),
        (spec_route_viewer_key(layers, keymap, key) == ViewerRoute::ScenePickerParent) <==> (
        key.code == KeyCode::Backspace || key.code == KeyCode::Left),
        (spec_route_viewer_key(layers, keymap, key) == ViewerRoute::ActivateScenePickerEntry) <==> (
        key.code == KeyCode::Enter),
        (spec_route_viewer_key(layers, keymap, key) == ViewerRoute::CloseScenePicker) <==> (key.code
            == KeyCode::Esc),
{
}

/// While the File popup is the topmost layer it moves its selection down
/// with Down or `j` and up with Up or `k`, takes the row with Enter and
/// closes with Esc; nothing else moves it.
pub proof fn law_file_popup_keys(layers: ViewerLayers, keymap: WorkspaceKeymap, key: KeyEvent)
    requires
        !layers.scene_picker_open,
        !layers.confirm_exit,
        !layers.save_as_open,
        layers.file_open,
    ensures
        (spec_route_viewer_key(layers, keymap, key) == ViewerRoute::FilePopupDown) <==> (key.code
            == KeyCode::Down || key.code == KeyCode::Char('j')),
        (spec_route_viewer_key(layers, keymap, key) == ViewerRoute::FilePopupUp) <==> (key.code
            == KeyCode::Up || key.code == KeyCode::Char('k')),
        (spec_route_viewer_key(layers, keymap, key) == ViewerRoute::ActivateFileAction) <==> (
        key.code == KeyCode::Enter),
        (spec_route_viewer_key(layers, keymap, key) == ViewerRoute::CloseFilePopup) <==> (key.code
            == KeyCode::Esc),
{
}

/// In the Debug popup, Down or `j` selects the next row and from the last
/// row the first; Up or `k` selects the row above and stays on the first;
/// Enter asks for the selected action and Esc closes the popup.
pub proof fn law_debug_popup_keys(selected: usize, count: usize)
    requires
        selected < count,
    ensures
        spec_debug_popup_key(selected, count, KeyCode::Down) == DebugPopupOutcome::Select(
            if selected + 1 < count {
                (selected + 1) as usize
            } else {
                0
            },
        ),
        spec_debug_popup_key(selected, count, KeyCode::Char('j')) == spec_debug_popup_key(
            selected,
            count,
            KeyCode::Down,
        ),
        spec_debug_popup_key(selected, count, KeyCode::Up) == DebugPopupOutcome::Select(
            if selected > 0 {
                (selected - 1) as usize
            } else {
                0
            },
        ),
        spec_debug_popup_key(selected, count, KeyCode::Char('k')) == spec_debug_popup_key(
            selected,
            count,
            KeyCode::Up,
        ),
        spec_debug_popup_key(selected, count, KeyCode::Enter) == DebugPopupOutcome::Activate,
        spec_debug_popup_key(selected, count, KeyCode::Esc) == DebugPopupOutcome::Close,
{
    if selected + 1 == count {
        vstd::arithmetic::div_mod::lemma_mod_self_0(count as int);
    } else {
        vstd::arithmetic::div_mod::lemma_small_mod((selected + 1) as nat, count as nat);
    }
}

} // verus!
