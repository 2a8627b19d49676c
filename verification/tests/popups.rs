use ascii_3d::editor_core::{EditorCommand, EditorEntry, EditorSession};
use ascii_3d::popups::{objects_popup_lines, scene_browser_lines};
use ascii_3d::scene_browser::SceneBrowser;

fn labels(names: &[&str]) -> Vec<String> {
    names.iter().map(|name| name.to_string()).collect()
}

#[test]
fn objects_list_shows_selection_visibility_and_inspection() {
    let mut session = EditorSession::new(
        vec![
            EditorEntry::new(1u32, Some(true)),
            EditorEntry::new(2u32, Some(false)),
            EditorEntry::new(3u32, None),
        ],
        1u32,
    );
    let names = labels(&["Earth", "Moon", "Camera"]);
    assert_eq!(objects_popup_lines(&session, &names), None);

    session.apply(EditorCommand::OpenObjectsPanel);
    session.apply(EditorCommand::MoveSelectionDown);
    session.apply(EditorCommand::Inspect(3u32));

    let lines = objects_popup_lines(&session, &names).expect("panel is open");
    assert_eq!(
        lines,
        vec![
            "Objects".to_string(),
            "Up/Down select | Enter inspect | Esc close".to_string(),
            String::new(),
            "  Earth  (visible)".to_string(),
            "> Moon  (hidden)".to_string(),
            "  Camera  (runtime) [inspected]".to_string(),
        ]
    );
}

#[test]
fn scene_browser_lists_scenes_with_current_mark() {
    let titles = labels(&["Cube", "Glyphs", "Earth"]);
    let mut browser = SceneBrowser::new();
    assert_eq!(scene_browser_lines(&browser, &titles), None);

    browser.position = 2;
    browser.open();
    browser.move_down(3);

    assert_eq!(
        scene_browser_lines(&browser, &titles),
        Some(vec![
            "Scenes".to_string(),
            "Up/Down select | Enter open | Esc close".to_string(),
            String::new(),
            "> Cube".to_string(),
            "  Glyphs".to_string(),
            "  Earth [current]".to_string(),
        ])
    );
}
