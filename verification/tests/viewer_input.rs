use ascii_3d::editor_ui::{EditorKeyRepeatGate, WorkspaceKeymap, WorkspaceMenu};
use ascii_3d::keys::{KeyCode, KeyEvent, KeyEventKind, KeyModifiers};
use ascii_3d::viewer_input::{
    admit_key, debug_popup_key, editor_owns_input, file_choice, route_viewer_key, save_as_key,
    DebugPopupOutcome, FileChoice, SaveAsOutcome, ViewerLayers, ViewerRoute,
};

fn idle() -> ViewerLayers {
    ViewerLayers {
        scene_picker_open: false,
        confirm_exit: false,
        save_as_open: false,
        file_open: false,
        debug_open: false,
        properties_open: false,
        hierarchy_open: false,
        menu_bar_focused: false,
    }
}

fn press(code: KeyCode) -> KeyEvent {
    KeyEvent::new(code, KeyModifiers::none())
}

fn keymap() -> WorkspaceKeymap {
    WorkspaceKeymap { file_menu: 'f', objects_menu: 'o', view_menu: 'v', help_menu: 'h' }
}

#[test]
fn viewer_layers_take_keys_in_order() {
    let picker = ViewerLayers { scene_picker_open: true, confirm_exit: true, ..idle() };
    assert_eq!(route_viewer_key(&picker, keymap(), press(KeyCode::Left)), ViewerRoute::ScenePickerParent);

    let exit = ViewerLayers { confirm_exit: true, save_as_open: true, ..idle() };
    assert_eq!(route_viewer_key(&exit, keymap(), press(KeyCode::Char('Y'))), ViewerRoute::Quit);
    assert_eq!(route_viewer_key(&exit, keymap(), press(KeyCode::Char('x'))), ViewerRoute::Nothing);

    let save_as = ViewerLayers { save_as_open: true, file_open: true, ..idle() };
    assert_eq!(route_viewer_key(&save_as, keymap(), press(KeyCode::Enter)), ViewerRoute::ToSaveAs);

    let file = ViewerLayers { file_open: true, ..idle() };
    assert_eq!(route_viewer_key(&file, keymap(), press(KeyCode::Char('j'))), ViewerRoute::FilePopupDown);

    let alt_o = KeyEvent::new(KeyCode::Char('O'), KeyModifiers::alt());
    let panels = ViewerLayers { properties_open: true, menu_bar_focused: true, ..idle() };
    assert_eq!(route_viewer_key(&panels, keymap(), alt_o), ViewerRoute::OpenMenu(WorkspaceMenu::Objects));
    assert_eq!(route_viewer_key(&panels, keymap(), press(KeyCode::Char('o'))), ViewerRoute::ToProperties);

    let repeat = KeyEvent::new_with_kind(KeyCode::Char('o'), KeyModifiers::alt(), KeyEventKind::Repeat);
    assert_eq!(route_viewer_key(&idle(), keymap(), repeat), ViewerRoute::ToActiveTarget);
    assert_eq!(route_viewer_key(&idle(), keymap(), press(KeyCode::Tab)), ViewerRoute::FocusMenuBar);
    let menu_bar = ViewerLayers { menu_bar_focused: true, ..idle() };
    assert_eq!(route_viewer_key(&menu_bar, keymap(), press(KeyCode::Tab)), ViewerRoute::ToMenuBar);
}

#[test]
fn repeat_gate_only_while_the_editor_owns_input() {
    let mut gate = EditorKeyRepeatGate::default();
    let owned = ViewerLayers { hierarchy_open: true, ..idle() };
    assert!(editor_owns_input(&owned));
    assert!(!editor_owns_input(&idle()));

    let down = press(KeyCode::Down);
    assert!(admit_key(&mut gate, &owned, down, 0));
    assert!(!admit_key(&mut gate, &owned, down, 1_000));

    assert!(admit_key(&mut gate, &idle(), down, 2_000));
    let release = KeyEvent::new_with_kind(KeyCode::Down, KeyModifiers::none(), KeyEventKind::Release);
    assert!(!admit_key(&mut gate, &idle(), release, 3_000));
    assert!(admit_key(&mut gate, &owned, down, 4_000));
}

#[test]
fn save_as_prompt_edits_and_trims_the_path() {
    let mut path = String::from("  out");
    assert_eq!(save_as_key(&mut path, KeyCode::Char('x'), true), SaveAsOutcome::Edited);
    assert_eq!(path, "  outx");
    assert_eq!(save_as_key(&mut path, KeyCode::Backspace, true), SaveAsOutcome::Edited);
    assert_eq!(path, "  out");
    assert_eq!(save_as_key(&mut path, KeyCode::Char(' '), true), SaveAsOutcome::Edited);
    assert_eq!(
        save_as_key(&mut path, KeyCode::Enter, true),
        SaveAsOutcome::Save(String::from("out"))
    );
    assert_eq!(save_as_key(&mut path, KeyCode::Enter, false), SaveAsOutcome::ReadOnly);
    assert_eq!(save_as_key(&mut path, KeyCode::Esc, true), SaveAsOutcome::Cancel);

    let mut blank = String::from(" \t");
    assert_eq!(save_as_key(&mut blank, KeyCode::Enter, true), SaveAsOutcome::EmptyPath);
    let mut empty = String::new();
    assert_eq!(save_as_key(&mut empty, KeyCode::Backspace, true), SaveAsOutcome::Edited);
    assert_eq!(empty, "");
}

#[test]
fn debug_popup_moves_up_to_first_and_down_wrapping() {
    assert_eq!(debug_popup_key(0, 3, KeyCode::Up), DebugPopupOutcome::Select(0));
    assert_eq!(debug_popup_key(2, 3, KeyCode::Char('k')), DebugPopupOutcome::Select(1));
    assert_eq!(debug_popup_key(2, 3, KeyCode::Down), DebugPopupOutcome::Select(0));
    assert_eq!(debug_popup_key(4, 0, KeyCode::Char('j')), DebugPopupOutcome::Select(4));
    assert_eq!(debug_popup_key(1, 3, KeyCode::Enter), DebugPopupOutcome::Activate);
    assert_eq!(debug_popup_key(1, 3, KeyCode::Esc), DebugPopupOutcome::Close);
    assert_eq!(debug_popup_key(1, 3, KeyCode::Char('x')), DebugPopupOutcome::Nothing);
}

#[test]
fn file_popup_choices_follow_action_ids() {
    let action = |id: &str, enabled: bool| (id.to_string(), id.to_uppercase(), enabled);
    let actions = vec![
        action("open", true),
        action("reload", true),
        action("save", false),
        action("save-as", true),
        action("browse-scenes", true),
        action("exit", true),
        action("other", true),
    ];
    assert_eq!(file_choice(&actions, 0), FileChoice::Open);
    assert_eq!(file_choice(&actions, 1), FileChoice::Reload);
    assert_eq!(file_choice(&actions, 2), FileChoice::NotAvailable);
    assert_eq!(file_choice(&actions, 3), FileChoice::SaveAs);
    assert_eq!(file_choice(&actions, 4), FileChoice::BrowseScenes);
    assert_eq!(file_choice(&actions, 5), FileChoice::Exit);
    assert_eq!(file_choice(&actions, 6), FileChoice::Close);
    assert_eq!(file_choice(&actions, 7), FileChoice::Nothing);
}
