use ascii_3d::a3d_rules::{
    object_effectively_visible, qualified_id, render_setting, toggle_object_visibility,
    ManifestSummary, RenderSettingEntry,
    ObjectVisibility,
};
use ascii_3d::editor_ui::{
    menu_actions, menu_definition, shared_menu_definitions, MenuCapabilities, DEBUG_MENU_ID,
    FILE_MENU_ID,
};
use ascii_3d::scene_files::direct_parent_id;

fn summary(version: u32, title: &str, ids: &[&str]) -> ManifestSummary {
    ManifestSummary {
        version,
        title: title.to_string(),
        object_ids: ids.iter().map(|id| id.to_string()).collect(),
    }
}

#[test]
fn manifest_rejects_unsupported_version() {
    let manifest = summary(999, "bad", &[]);

    assert!(manifest.validate().is_err());
    assert_eq!(
        manifest.validate(),
        Err("unsupported .a3d version 999; supported version is 1".to_string())
    );
}

#[test]
fn manifest_needs_a_title_and_object_ids() {
    assert_eq!(summary(1, "demo", &["a", "b"]).validate(), Ok(()));
    assert_eq!(
        summary(1, " \t", &["a"]).validate(),
        Err(".a3d title must not be empty".to_string())
    );
    assert_eq!(
        summary(1, "demo", &["a", "  "]).validate(),
        Err(".a3d object id must not be empty".to_string())
    );
    assert_eq!(
        summary(2, "", &[""]).validate(),
        Err("unsupported .a3d version 2; supported version is 1".to_string())
    );
}

fn object(id: &str, visible: bool) -> ObjectVisibility {
    ObjectVisibility {
        id: id.to_string(),
        visible,
    }
}

#[test]
fn hidden_groups_hide_their_children() {
    let objects = vec![
        object("group", false),
        object("group/logo", true),
        object("shown", true),
        object("shown/leaf", true),
        object("shown/off", false),
    ];
    assert!(!object_effectively_visible(&objects, "group/logo"));
    assert!(object_effectively_visible(&objects, "shown/leaf"));
    assert!(!object_effectively_visible(&objects, "shown/off"));
    assert!(!object_effectively_visible(&objects, "missing"));
}

#[test]
fn missing_ancestors_stop_the_walk() {
    let objects = vec![object("outer", false), object("outer/inner/leaf", true)];
    assert!(object_effectively_visible(&objects, "outer/inner/leaf"));
    let objects = vec![
        object("outer", false),
        object("outer/inner", true),
        object("outer/inner/leaf", true),
    ];
    assert!(!object_effectively_visible(&objects, "outer/inner/leaf"));
}

#[test]
fn qualified_ids_join_group_and_object() {
    assert_eq!(qualified_id("", "logo"), "logo");
    assert_eq!(qualified_id("scene/group", "logo"), "scene/group/logo");
    assert_eq!(
        direct_parent_id(&qualified_id("scene/group", "logo")).as_deref(),
        Some("scene/group")
    );
}

#[test]
fn menu_actions_list_action_rows_of_the_named_menu() {
    let capabilities = MenuCapabilities {
        can_toggle_log: true,
        ..MenuCapabilities::default()
    };
    let definitions = shared_menu_definitions(capabilities);
    assert_eq!(menu_definition(&definitions, DEBUG_MENU_ID).label, "Debug");
    assert_eq!(
        menu_actions(&definitions, DEBUG_MENU_ID),
        vec![
            ("toggle-log".to_string(), "Toggle log".to_string(), true),
            ("open-raylib-gui".to_string(), "Open Raylib GUI".to_string(), false),
        ]
    );
    let file = menu_actions(&definitions, FILE_MENU_ID);
    assert_eq!(file.len(), 6);
    assert_eq!(file[5].0, "exit");
}

#[test]
fn toggling_visibility_flips_the_first_object_with_the_id() {
    let mut objects = vec![
        ObjectVisibility { id: String::from("earth"), visible: true },
        ObjectVisibility { id: String::from("earth/moon"), visible: true },
        ObjectVisibility { id: String::from("earth"), visible: false },
    ];

    assert_eq!(toggle_object_visibility(&mut objects, "earth"), Some(false));
    assert!(!objects[0].visible);
    assert!(objects[1].visible);
    assert!(!objects[2].visible);
    assert!(!object_effectively_visible(&objects, "earth/moon"));

    assert_eq!(toggle_object_visibility(&mut objects, "earth"), Some(true));
    assert!(objects[0].visible);
    assert!(object_effectively_visible(&objects, "earth/moon"));

    assert_eq!(toggle_object_visibility(&mut objects, "mars"), None);
    assert_eq!(objects.len(), 3);
}

#[test]
fn render_setting_reads_the_first_object_with_the_id() {
    let entries = vec![
        RenderSettingEntry { id: None, value: Some(9) },
        RenderSettingEntry { id: Some(String::from("earth")), value: Some(3) },
        RenderSettingEntry { id: Some(String::from("earth")), value: Some(7) },
        RenderSettingEntry { id: Some(String::from("moon")), value: Some(0) },
        RenderSettingEntry { id: Some(String::from("sun")), value: None },
    ];

    assert_eq!(render_setting(Some(&entries), "earth", 1), 3);
    assert_eq!(render_setting(Some(&entries), "moon", 1), 1);
    assert_eq!(render_setting(Some(&entries), "sun", 2), 2);
    assert_eq!(render_setting(Some(&entries), "mars", 4), 4);
    assert_eq!(render_setting(None, "earth", 5), 5);
}
