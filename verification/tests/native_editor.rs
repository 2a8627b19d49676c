use ascii_3d::native_targets::{
    crease_face_pair, editor_entries, is_silhouette_edge, EditorObject, NativeEditorTarget,
};

fn object(id: &str, visible: bool, editor_hidden: bool) -> EditorObject {
    EditorObject { id: id.to_string(), visible, editor_hidden }
}

#[test]
fn editor_lists_scene_camera_then_unhidden_objects() {
    let entries = editor_entries(&[
        object("logo", true, false),
        object("logo/child", true, true),
        object("earth", false, false),
    ]);

    let targets: Vec<_> = entries.iter().map(|entry| entry.target.clone()).collect();
    assert_eq!(
        targets,
        vec![
            NativeEditorTarget::Scene,
            NativeEditorTarget::Camera,
            NativeEditorTarget::Object("logo".to_string()),
            NativeEditorTarget::Object("earth".to_string()),
        ]
    );
    let visibility: Vec<_> = entries.iter().map(|entry| entry.visible).collect();
    assert_eq!(visibility, vec![None, None, Some(true), Some(false)]);
    assert!(entries.iter().all(|entry| entry.gizmo_visible));
}

#[test]
fn silhouette_edges_have_exactly_one_front_face() {
    assert!(!is_silhouette_edge(&[]));
    assert!(is_silhouette_edge(&[true]));
    assert!(!is_silhouette_edge(&[false]));
    assert!(is_silhouette_edge(&[false, true]));
    assert!(!is_silhouette_edge(&[true, true]));
    assert!(is_silhouette_edge(&[false, false, true]));
}

#[test]
fn crease_pairs_need_exactly_two_front_faces() {
    assert_eq!(crease_face_pair(&[true]), None);
    assert_eq!(crease_face_pair(&[true, false]), None);
    assert_eq!(crease_face_pair(&[true, true]), Some((0, 1)));
    assert_eq!(crease_face_pair(&[false, true, false, true]), Some((1, 3)));
    assert_eq!(crease_face_pair(&[true, true, true]), None);
}
