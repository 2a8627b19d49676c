use ascii_3d::editor_core::{EditorCommand, EditorEntry, EditorSession};

fn session() -> EditorSession<&'static str> {
    EditorSession::new(
        vec![
            EditorEntry::new("camera", None),
            EditorEntry::new("earth", Some(true)),
        ],
        "camera",
    )
}

#[test]
fn activate_command_updates_inspected_and_active_targets() {
    let mut session = session();

    assert!(session.apply(EditorCommand::Activate("earth")));
    assert_eq!(session.inspected_target(), Some(&"earth"));
    assert_eq!(session.active_target(), &"earth");
}

#[test]
fn replacing_entries_preserves_valid_state_and_gizmos() {
    let mut session = session();
    session.apply(EditorCommand::Activate("earth"));
    session.apply(EditorCommand::ToggleGizmo("earth"));

    session.replace_entries(
        vec![
            EditorEntry::new("camera", None),
            EditorEntry::new("earth", Some(false)),
        ],
        "camera",
    );

    assert_eq!(session.inspected_target(), Some(&"earth"));
    assert_eq!(session.active_target(), &"earth");
    assert!(!session.gizmo_visible(&"earth"));
}

#[test]
fn visibility_commands_update_only_entries_with_visibility() {
    let mut session = session();

    assert!(session.apply(EditorCommand::ToggleVisibility("earth")));
    assert_eq!(session.visibility(&"earth"), Some(false));

    assert!(session.apply(EditorCommand::SetVisibility {
        target: "earth",
        visible: true,
    }));
    assert_eq!(session.visibility(&"earth"), Some(true));

    assert!(!session.apply(EditorCommand::ToggleVisibility("camera")));
    assert_eq!(session.visibility(&"camera"), None);
}

#[test]
fn moving_down_then_up_returns_to_the_same_entry() {
    let mut session = session();
    session.apply(EditorCommand::OpenObjectsPanel);
    assert_eq!(session.selected_entry(), 0);
    assert!(session.apply(EditorCommand::MoveSelectionDown));
    assert_eq!(session.selected_entry(), 1);
    assert!(session.apply(EditorCommand::MoveSelectionUp));
    assert_eq!(session.selected_entry(), 0);
}

#[test]
fn selection_wraps_around_both_ends() {
    let mut session = session();
    assert!(session.apply(EditorCommand::MoveSelectionUp));
    assert_eq!(session.selected_entry(), 1);
    assert!(session.apply(EditorCommand::MoveSelectionDown));
    assert_eq!(session.selected_entry(), 0);
}

#[test]
fn unknown_targets_are_refused_and_change_nothing() {
    let mut session = session();
    assert!(!session.apply(EditorCommand::Activate("moon")));
    assert!(!session.apply(EditorCommand::Inspect("moon")));
    assert!(!session.apply(EditorCommand::ToggleGizmo("moon")));
    assert_eq!(session.active_target(), &"camera");
    assert_eq!(session.inspected_target(), None);
    assert_eq!(session.selected_entry(), 0);
}

#[test]
fn selecting_past_the_end_selects_the_last_entry() {
    let mut session = session();
    assert!(session.apply(EditorCommand::SelectIndex(7)));
    assert_eq!(session.selected_entry(), 1);
}

#[test]
fn toggling_a_gizmo_twice_restores_it() {
    let mut session = session();
    assert!(session.gizmo_visible(&"earth"));
    assert!(session.apply(EditorCommand::ToggleGizmo("earth")));
    assert!(!session.gizmo_visible(&"earth"));
    assert!(session.apply(EditorCommand::ToggleGizmo("earth")));
    assert!(session.gizmo_visible(&"earth"));
    assert!(!session.gizmo_visible(&"moon"));
}

#[test]
fn inspect_selected_then_activate_inspected_follows_the_selection() {
    let mut session = session();
    assert!(session.apply(EditorCommand::SelectIndex(1)));
    assert!(session.apply(EditorCommand::InspectSelected));
    assert_eq!(session.inspected_target(), Some(&"earth"));
    assert!(session.apply(EditorCommand::ActivateInspected));
    assert!(session.is_active(&"earth"));
    assert!(!session.is_active(&"camera"));
}

#[test]
fn objects_panel_opens_and_closes() {
    let mut session = session();
    assert!(!session.objects_panel_open());
    assert!(session.apply(EditorCommand::OpenObjectsPanel));
    assert!(session.objects_panel_open());
    assert!(session.apply(EditorCommand::CloseObjectsPanel));
    assert!(!session.objects_panel_open());
}

#[test]
fn replacing_entries_without_the_active_target_falls_back() {
    let mut session = session();
    session.apply(EditorCommand::Activate("earth"));
    session.replace_entries(vec![EditorEntry::new("camera", None)], "camera");
    assert_eq!(session.active_target(), &"camera");
    assert_eq!(session.inspected_target(), None);
    assert!(!session.gizmo_visible(&"earth"));
    assert!(session.gizmo_visible(&"camera"));
    assert_eq!(session.entries().len(), 1);
}

#[test]
fn transforms_are_only_asked_for_known_targets() {
    let session = session();

    assert!(session.contains_target(&"earth"));
    assert!(session.contains_target(&"camera"));
    assert!(!session.contains_target(&"missing"));
}
