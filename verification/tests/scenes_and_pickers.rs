use ascii_3d::pickers::{
    sort_entries, A3dFilePicker, DirectoryItem, DirectoryListing, EntryOrder, PickerEntry,
    ScenePickerActivation, ScenePickerMode, ScenePickerState,
};
use ascii_3d::scene_files::{
    default_curve_segments, default_map_overlay_visible, direct_parent_id, extension_of,
    is_canonical_built_in_scene_path, is_supported_scene_path,
};

fn dir(name: &str) -> DirectoryItem {
    DirectoryItem {
        name: name.to_string(),
        utf8_name: true,
        path: format!("/scenes/{name}"),
        is_dir: true,
    }
}

fn file(name: &str) -> DirectoryItem {
    DirectoryItem {
        name: name.to_string(),
        utf8_name: true,
        path: format!("/scenes/{name}"),
        is_dir: false,
    }
}

fn labels(entries: &[PickerEntry]) -> Vec<&str> {
    entries.iter().map(|entry| entry.label.as_str()).collect()
}

#[test]
fn scene_file_names() {
    assert!(is_supported_scene_path("scene.a3d"));
    assert!(is_supported_scene_path("SCENE.A3D"));
    assert!(is_supported_scene_path("quad4.scene.json"));
    assert!(is_supported_scene_path("demo.A3d"));
    assert!(!is_supported_scene_path(".a3d"));
    assert!(!is_supported_scene_path("notes.json"));
    assert!(!is_supported_scene_path(""));
    assert!(is_canonical_built_in_scene_path("Quad4.Scene.JSON"));
    assert!(!is_canonical_built_in_scene_path("demo.a3d"));
}

#[test]
fn extensions_follow_the_last_dot() {
    assert_eq!(extension_of("a.tar.gz").as_deref(), Some("gz"));
    assert_eq!(extension_of("name.").as_deref(), Some(""));
    assert_eq!(extension_of(".hidden"), None);
    assert_eq!(extension_of(".hidden.a3d").as_deref(), Some("a3d"));
    assert_eq!(extension_of("plain"), None);
}

#[test]
fn parent_ids_drop_the_last_part() {
    assert_eq!(direct_parent_id("scene/group/mesh").as_deref(), Some("scene/group"));
    assert_eq!(direct_parent_id("/top").as_deref(), Some(""));
    assert_eq!(direct_parent_id("top"), None);
}

#[test]
fn scene_defaults() {
    assert_eq!(default_curve_segments(), 16);
    assert!(default_map_overlay_visible());
}

#[test]
fn sorting_by_label_orders_as_str_does() {
    let entries = vec![
        PickerEntry { label: "b".to_string(), path: "1".to_string(), is_dir: false },
        PickerEntry { label: "B".to_string(), path: "2".to_string(), is_dir: false },
        PickerEntry { label: "a".to_string(), path: "3".to_string(), is_dir: false },
        PickerEntry { label: "ab".to_string(), path: "4".to_string(), is_dir: false },
    ];
    let sorted = sort_entries(entries, EntryOrder::ByLabel);
    assert_eq!(labels(&sorted), vec!["B", "a", "ab", "b"]);
}

#[test]
fn sorting_directories_first_ignores_case() {
    let entries = vec![
        PickerEntry { label: "b.a3d".to_string(), path: "1".to_string(), is_dir: false },
        PickerEntry { label: "[Zed]".to_string(), path: "2".to_string(), is_dir: true },
        PickerEntry { label: "A.a3d".to_string(), path: "3".to_string(), is_dir: false },
        PickerEntry { label: "[alpha]".to_string(), path: "4".to_string(), is_dir: true },
    ];
    let sorted = sort_entries(entries, EntryOrder::DirectoriesFirst);
    assert_eq!(labels(&sorted), vec!["[alpha]", "[Zed]", "A.a3d", "b.a3d"]);
}

#[test]
fn a3d_picker_lists_parent_then_directories_then_files() {
    let listing = DirectoryListing {
        items: Ok(vec![
            file("zeta.a3d"),
            dir("models"),
            file("notes.txt"),
            file("alpha.a3d"),
            dir("extra"),
            file("upper.A3D"),
        ]),
        parent: Some("/".to_string()),
    };
    let picker = A3dFilePicker::new("/scenes".to_string(), listing);
    assert_eq!(
        picker.labels(),
        vec!["[..]", "[extra]", "[models]", "alpha.a3d", "zeta.a3d"]
    );
    assert_eq!(picker.entries[0].path, "/");
    assert_eq!(picker.selected, 0);
    assert!(picker.error.is_none());
}

#[test]
fn a3d_picker_parent_row_stays_put_at_the_root() {
    let listing = DirectoryListing { items: Ok(vec![]), parent: None };
    let picker = A3dFilePicker::new("/".to_string(), listing);
    assert_eq!(picker.entries.len(), 1);
    assert_eq!(picker.entries[0].path, "/");
}

#[test]
fn a3d_picker_moves_and_clamps_its_selection() {
    let listing = DirectoryListing {
        items: Ok(vec![file("a.a3d"), file("b.a3d")]),
        parent: None,
    };
    let mut picker = A3dFilePicker::new("/s".to_string(), listing);
    picker.move_up();
    assert_eq!(picker.selected, 0);
    picker.move_down();
    picker.move_down();
    picker.move_down();
    assert_eq!(picker.selected, 2);
    assert_eq!(picker.selected_entry().unwrap().label, "b.a3d");
    picker.refresh(DirectoryListing {
        items: Ok(vec![file("a.a3d")]),
        parent: None,
    });
    assert_eq!(picker.selected, 1);
}

#[test]
fn a3d_picker_reports_read_errors() {
    let mut picker = A3dFilePicker::new(
        "/s".to_string(),
        DirectoryListing { items: Ok(vec![file("a.a3d")]), parent: None },
    );
    picker.move_down();
    picker.refresh(DirectoryListing {
        items: Err("permission denied".to_string()),
        parent: None,
    });
    assert!(picker.entries.is_empty());
    assert_eq!(picker.error.as_deref(), Some("permission denied"));
    assert_eq!(picker.selected, 1);
    assert!(picker.selected_entry().is_none());
}

#[test]
fn a3d_picker_opens_the_parent_directory() {
    let mut picker = A3dFilePicker::new(
        "/s/t".to_string(),
        DirectoryListing { items: Ok(vec![]), parent: Some("/s".to_string()) },
    );
    picker.open_parent(
        Some("/s".to_string()),
        DirectoryListing { items: Ok(vec![dir("t")]), parent: Some("/".to_string()) },
    );
    assert_eq!(picker.current_dir, "/s");
    assert_eq!(picker.labels(), vec!["[..]", "[t]"]);
    picker.open_parent(None, DirectoryListing { items: Ok(vec![]), parent: None });
    assert_eq!(picker.current_dir, "/s");
}

#[test]
fn scene_picker_filters_sorts_and_wraps() {
    let mut state = ScenePickerState::open(
        "/scenes".to_string(),
        Ok(vec![
            file("b.a3d"),
            file("readme.md"),
            dir("Zoo"),
            file("A.scene.json"),
            dir("assets"),
            DirectoryItem {
                name: "bad\u{fffd}.a3d".to_string(),
                utf8_name: false,
                path: "/scenes/bad".to_string(),
                is_dir: false,
            },
        ]),
    );
    assert_eq!(state.title(), "Open Scene");
    assert_eq!(
        labels(&state.entries),
        vec!["[assets]", "[Zoo]", "A.scene.json", "b.a3d"]
    );
    state.move_up();
    assert_eq!(state.selected, 3);
    state.move_down();
    assert_eq!(state.selected, 0);
}

#[test]
fn scene_picker_activation_enters_directories_and_opens_files() {
    let mut state = ScenePickerState::open(
        "/scenes".to_string(),
        Ok(vec![dir("nested"), file("x.a3d")]),
    );
    assert_eq!(state.activate(), ScenePickerActivation::EnteredDirectory);
    assert_eq!(state.current_dir, "/scenes/nested");
    state.refresh_directory(Ok(vec![file("y.a3d")]));
    assert_eq!(
        state.activate(),
        ScenePickerActivation::OpenScene("/scenes/y.a3d".to_string())
    );
    state.refresh_directory(Err("gone".to_string()));
    assert_eq!(state.activate(), ScenePickerActivation::Nothing);
    assert_eq!(state.error.as_deref(), Some("gone"));
}

#[test]
fn built_in_browser_ignores_parent_moves() {
    let scenes = vec![
        PickerEntry { label: "b/scene.a3d".to_string(), path: "assets/b/scene.a3d".to_string(), is_dir: false },
        PickerEntry { label: "a/scene.a3d".to_string(), path: "assets/a/scene.a3d".to_string(), is_dir: false },
    ];
    let mut state = ScenePickerState::browse_built_in(scenes);
    assert_eq!(state.mode, ScenePickerMode::BrowseBuiltIn);
    assert_eq!(state.title(), "Built-in Scenes");
    assert_eq!(state.current_dir, "assets");
    assert_eq!(labels(&state.entries), vec!["a/scene.a3d", "b/scene.a3d"]);
    state.parent(Some("/".to_string()), Ok(vec![]));
    assert_eq!(state.current_dir, "assets");
    assert_eq!(state.entries.len(), 2);
}
