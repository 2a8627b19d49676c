use ascii_3d::editor_ui::{
    header_status_width, menu_action_count, shared_menu_definitions, EditorCapabilities,
    EditorEvent, EditorItem, EditorKeyRepeatGate, EditorTarget, EditorTargetKey,
    EditorTargetKind, EventSource, MenuBarState, MenuCapabilities, MenuDefinition, MenuEntry,
    MenuId, ObjectHierarchyState, PropertiesState, PropertyRow, WorkspaceKeymap, WorkspaceMenu,
    DEBUG_MENU_ID, FILE_BROWSE_SCENES_ID, FILE_MENU_ID, HELP_MENU_ID, OBJECTS_MENU_ID,
    VIEW_MENU_ID,
};
use ascii_3d::keys::{KeyCode, KeyEvent, KeyEventKind, KeyModifiers};

#[derive(Clone, Copy, Debug, PartialEq)]
enum TestAction {
    ActivateControlTarget,
}

fn item(key: &str) -> EditorItem {
    EditorItem {
        target: EditorTarget::new(key, key, key, EditorTargetKind::Group),
        label: key.to_string(),
        depth: 0,
        visible: Some(true),
        has_children: false,
        capabilities: EditorCapabilities::visibility(),
    }
}

fn definitions() -> Vec<MenuDefinition> {
    vec![
        MenuDefinition {
            id: MenuId::new("file"),
            label: "File".to_string(),
            hotkey: Some('f'),
            entries: vec![],
        },
        MenuDefinition {
            id: MenuId::new("objects"),
            label: "Objects".to_string(),
            hotkey: Some('o'),
            entries: vec![],
        },
    ]
}

fn key(code: KeyCode, kind: KeyEventKind) -> KeyEvent {
    KeyEvent::new_with_kind(code, KeyModifiers::none(), kind)
}

const MILLISECOND: u64 = 1_000_000;

#[test]
fn refresh_preserves_selection_by_stable_key() {
    let mut state = ObjectHierarchyState::default();
    let items = vec![item("earth"), item("logo")];
    state.open(&items);
    state.handle_key::<TestAction>(KeyCode::Down, &items);

    let reordered = vec![item("logo"), item("earth")];
    state.replace_items(&reordered);

    assert_eq!(state.selected_index(), 0);
    assert_eq!(
        state.selected_item(&reordered).unwrap().target.key,
        EditorTargetKey::new("logo")
    );
}

#[test]
fn enter_emits_target_context() {
    let mut state = ObjectHierarchyState::default();
    let items = vec![item("earth")];
    state.open(&items);
    let event = state.handle_key::<TestAction>(KeyCode::Enter, &items);
    assert!(matches!(
        event,
        Some(EditorEvent::InspectRequested { target, .. }) if target.path == "earth"
    ));
}

#[test]
fn hierarchy_moves_down_then_up_to_the_same_row() {
    let mut state = ObjectHierarchyState::default();
    let items = vec![item("earth"), item("logo"), item("moon")];
    state.open(&items);
    state.handle_key::<TestAction>(KeyCode::Down, &items);
    assert_eq!(state.selected_index(), 1);
    state.handle_key::<TestAction>(KeyCode::Up, &items);
    assert_eq!(state.selected_index(), 0);
}

#[test]
fn hierarchy_escape_closes_the_panel() {
    let mut state = ObjectHierarchyState::default();
    let items = vec![item("earth")];
    state.open(&items);
    assert!(state.is_open());
    let event = state.handle_key::<TestAction>(KeyCode::Esc, &items);
    assert!(!state.is_open());
    assert_eq!(event, Some(EditorEvent::CloseRequested));
}

#[test]
fn first_navigation_press_is_immediate() {
    let mut gate = EditorKeyRepeatGate::default();
    let now = 5_000 * MILLISECOND;
    assert!(gate.accept(key(KeyCode::Down, KeyEventKind::Press), now));
}

#[test]
fn burst_press_events_are_coalesced() {
    let mut gate = EditorKeyRepeatGate::default();
    let now = 5_000 * MILLISECOND;
    assert!(gate.accept(key(KeyCode::Down, KeyEventKind::Press), now));
    assert!(!gate.accept(
        key(KeyCode::Down, KeyEventKind::Press),
        now + 30 * MILLISECOND
    ));
}

#[test]
fn held_navigation_repeats_at_controlled_rate() {
    let mut gate = EditorKeyRepeatGate::default();
    let now = 5_000 * MILLISECOND;
    assert!(gate.accept(key(KeyCode::Down, KeyEventKind::Press), now));
    assert!(!gate.accept(
        key(KeyCode::Down, KeyEventKind::Repeat),
        now + 299 * MILLISECOND
    ));
    assert!(gate.accept(
        key(KeyCode::Down, KeyEventKind::Repeat),
        now + 300 * MILLISECOND
    ));
    assert!(!gate.accept(
        key(KeyCode::Down, KeyEventKind::Repeat),
        now + 350 * MILLISECOND
    ));
    assert!(gate.accept(
        key(KeyCode::Down, KeyEventKind::Repeat),
        now + 420 * MILLISECOND
    ));
}

#[test]
fn release_allows_immediate_repress() {
    let mut gate = EditorKeyRepeatGate::default();
    let now = 5_000 * MILLISECOND;
    assert!(gate.accept(key(KeyCode::Down, KeyEventKind::Press), now));
    assert!(!gate.accept(
        key(KeyCode::Down, KeyEventKind::Release),
        now + 20 * MILLISECOND
    ));
    assert!(gate.accept(
        key(KeyCode::Down, KeyEventKind::Press),
        now + 40 * MILLISECOND
    ));
}

#[test]
fn other_keys_pass_on_press_only() {
    let mut gate = EditorKeyRepeatGate::default();
    assert!(gate.accept(key(KeyCode::Char('x'), KeyEventKind::Press), 0));
    assert!(gate.accept(key(KeyCode::Char('x'), KeyEventKind::Press), 0));
    assert!(!gate.accept(key(KeyCode::Char('x'), KeyEventKind::Repeat), 0));
}

#[test]
fn alt_o_opens_objects() {
    let key = KeyEvent::new(KeyCode::Char('o'), KeyModifiers::alt());
    assert_eq!(
        WorkspaceKeymap::default().menu_for_event(key),
        Some(WorkspaceMenu::Objects)
    );
}

#[test]
fn plain_o_is_not_a_menu_accelerator() {
    let key = KeyEvent::new(KeyCode::Char('o'), KeyModifiers::none());
    assert_eq!(WorkspaceKeymap::default().menu_for_event(key), None);
}

#[test]
fn alt_accelerators_ignore_case() {
    let key = KeyEvent::new(KeyCode::Char('F'), KeyModifiers::alt());
    assert_eq!(
        WorkspaceKeymap::default().menu_for_event(key),
        Some(WorkspaceMenu::File)
    );
}

#[test]
fn status_width_uses_text_width_without_exceeding_header() {
    assert_eq!(header_status_width(80, "fps 30.1"), 8);
    assert_eq!(header_status_width(4, "fps 30.1"), 4);
}

#[test]
fn popup_action_count_ignores_separators() {
    let definition = MenuDefinition {
        id: MenuId::new("file"),
        label: "File".to_string(),
        hotkey: Some('f'),
        entries: vec![
            MenuEntry::Action {
                id: "open".to_string(),
                label: "Open".to_string(),
                enabled: true,
                shortcut: None,
            },
            MenuEntry::Separator,
            MenuEntry::Action {
                id: "exit".to_string(),
                label: "Exit".to_string(),
                enabled: true,
                shortcut: None,
            },
        ],
    };
    assert_eq!(menu_action_count(&definition), 2);
}

#[test]
fn menu_navigation_wraps() {
    let definitions = definitions();
    let mut state = MenuBarState::default();
    state.focus();
    state.handle_key::<TestAction>(KeyCode::Left, &definitions);
    assert_eq!(state.selected_menu(), 1);
}

#[test]
fn opening_menu_emits_contextual_id() {
    let definitions = definitions();
    let mut state = MenuBarState::default();
    state.focus();
    let event = state.handle_key::<TestAction>(KeyCode::Enter, &definitions);
    assert_eq!(
        event,
        Some(EditorEvent::MenuOpened {
            menu_id: MenuId::new("file")
        })
    );
}

#[test]
fn menu_bar_focus_by_id_and_blur() {
    let definitions = definitions();
    let mut state = MenuBarState::default();
    assert!(state.focus_menu("objects", &definitions));
    assert!(state.focused());
    assert_eq!(state.selected_menu(), 1);
    assert!(!state.focus_menu("view", &definitions));
    assert_eq!(state.selected_menu(), 1);
    state.blur();
    assert!(!state.focused());
    let other = MenuBarState::with_selected(true, 0);
    assert!(other.focused());
    assert_eq!(other.selected_menu(), 0);
}

#[test]
fn shared_catalog_has_stable_top_level_order() {
    let definitions = shared_menu_definitions(MenuCapabilities::default());
    let ids = definitions
        .iter()
        .map(|definition| definition.id.0.as_str())
        .collect::<Vec<_>>();
    assert_eq!(
        ids,
        vec![
            FILE_MENU_ID,
            OBJECTS_MENU_ID,
            VIEW_MENU_ID,
            DEBUG_MENU_ID,
            HELP_MENU_ID,
        ]
    );
}

#[test]
fn unsupported_file_actions_remain_visible_but_disabled() {
    let definitions = shared_menu_definitions(MenuCapabilities::default());
    let file = &definitions[0];
    assert!(matches!(
        &file.entries[0],
        MenuEntry::Action { enabled: false, .. }
    ));
    assert!(file.entries.iter().any(|entry| matches!(
        entry,
        MenuEntry::Action { id, enabled: false, .. } if id == FILE_BROWSE_SCENES_ID
    )));
}

#[test]
fn action_event_contains_target_and_action() {
    let target = EditorTarget::new("camera", "camera", "@scene/camera", EditorTargetKind::Camera);
    let rows = vec![PropertyRow::Action {
        id: "activate".to_string(),
        label: "Activate camera".to_string(),
        hint: None,
        enabled: true,
        action: TestAction::ActivateControlTarget,
    }];
    let mut state = PropertiesState::default();
    state.open(target);
    let event = state.handle_key(KeyCode::Enter, &rows);
    assert!(matches!(
        event,
        Some(EditorEvent::ActionRequested {
            action: TestAction::ActivateControlTarget,
            source: EventSource::PropertiesPanel,
            ..
        })
    ));
}

#[test]
fn properties_selection_skips_disabled_rows_and_wraps() {
    let target = EditorTarget::new("camera", "camera", "@scene/camera", EditorTargetKind::Camera);
    let rows = vec![
        PropertyRow::Action {
            id: "a".to_string(),
            label: "A".to_string(),
            hint: None,
            enabled: true,
            action: TestAction::ActivateControlTarget,
        },
        PropertyRow::Separator,
        PropertyRow::Action {
            id: "b".to_string(),
            label: "B".to_string(),
            hint: None,
            enabled: false,
            action: TestAction::ActivateControlTarget,
        },
        PropertyRow::Action {
            id: "c".to_string(),
            label: "C".to_string(),
            hint: None,
            enabled: true,
            action: TestAction::ActivateControlTarget,
        },
    ];
    let mut state = PropertiesState::default();
    state.open(target);
    assert_eq!(state.selected_action(), 0);
    assert_eq!(state.handle_key(KeyCode::Down, &rows), None);
    assert_eq!(state.selected_action(), 1);
    assert_eq!(state.handle_key(KeyCode::Down, &rows), None);
    assert_eq!(state.selected_action(), 0);
    assert_eq!(state.handle_key(KeyCode::Up, &rows), None);
    assert_eq!(state.selected_action(), 1);
    assert_eq!(state.handle_key(KeyCode::Esc, &rows), Some(EditorEvent::CloseRequested));
    assert!(!state.is_open());
}

#[test]
fn capabilities_union_contains_both() {
    let both = EditorCapabilities::visibility().union(EditorCapabilities::rotate());
    assert!(both.contains(EditorCapabilities::visibility()));
    assert!(both.contains(EditorCapabilities::rotate()));
    assert!(!both.contains(EditorCapabilities::scale()));
    assert!(both.contains(EditorCapabilities::empty()));
}

#[test]
fn item_label_shows_visibility_depth_and_kind() {
    let mut nested = item("earth");
    nested.depth = 2;
    nested.visible = Some(false);
    assert_eq!(nested.display_label(), "    [off] earth (group)");
    assert_eq!(item("logo").display_label(), "[on]  logo (group)");
}
