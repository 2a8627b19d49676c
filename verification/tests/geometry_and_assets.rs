use std::collections::BTreeSet;
use std::path::Path;

use ascii_3d::glyphs;
use ascii_3d::mesh_edges::{check_edge_vertices, insert_edge, unique_face_edges, MeshRenderError};
use ascii_3d::native_targets::{
    fallback_toon_color, is_native_shader_land_map, FallbackToonColor, NativeEditorTarget,
    UploadSnapshot,
};
use ascii_3d::paths::{asset_path, default_a3d_root_path, resolve_mesh_path, resolve_path};
use ascii_3d::scene_config::{A3dViewport, BodyType, CameraProjection};

#[test]
fn default_a3d_root_points_to_bundled_demo() {
    let path = default_a3d_root_path(".");

    assert!(Path::new(&path).ends_with(Path::new("assets").join("a3d").join("p_depth_demo")));
}

#[test]
fn asset_paths_sit_under_the_assets_directory() {
    let path = asset_path("/project", "models/quad4.obj");
    assert!(Path::new(&path).ends_with(Path::new("assets").join("models/quad4.obj")));
    assert!(Path::new(&glyphs::asset_path("/project", "glyphs/p.json")).starts_with("/project"));
}

#[test]
fn relative_paths_resolve_under_their_root() {
    assert_eq!(resolve_path("/root", "/abs/mesh.obj"), "/abs/mesh.obj");
    assert!(Path::new(&resolve_path("/root", "mesh.obj")).starts_with("/root"));
    assert!(Path::new(&resolve_mesh_path("assets/scenes/earth.json", "models/earth.obj"))
        .starts_with("assets"));
    assert_eq!(resolve_mesh_path("earth.json", "m.obj"), Path::new("assets").join("m.obj").to_string_lossy());
}

#[test]
fn edges_are_stored_smaller_index_first() {
    let mut edges = BTreeSet::new();
    insert_edge(&mut edges, 5, 2);
    insert_edge(&mut edges, 2, 5);
    insert_edge(&mut edges, 3, 3);
    assert_eq!(edges.into_iter().collect::<Vec<_>>(), vec![(2, 5)]);
}

#[test]
fn cube_faces_have_twelve_unique_edges() {
    let faces = vec![
        vec![0, 1, 2, 3],
        vec![4, 5, 6, 7],
        vec![0, 1, 5, 4],
        vec![1, 2, 6, 5],
        vec![2, 3, 7, 6],
        vec![3, 0, 4, 7],
    ];
    let edges = unique_face_edges(&faces);
    assert_eq!(edges.len(), 12);
    assert!(edges.windows(2).all(|pair| pair[0] < pair[1]));
    assert!(edges.iter().all(|(a, b)| a < b));
}

#[test]
fn line_records_are_not_closed_again() {
    let faces = vec![vec![0, 1], vec![1, 2, 3], vec![4], vec![]];
    assert_eq!(unique_face_edges(&faces), vec![(0, 1), (1, 2), (1, 3), (2, 3)]);
}

#[test]
fn edge_checks_report_the_first_missing_vertex() {
    assert_eq!(check_edge_vertices((0, 1), 2), Ok(()));
    assert_eq!(
        check_edge_vertices((4, 9), 3),
        Err(MeshRenderError { vertex_index: 4, vertex_count: 3 })
    );
    let error = check_edge_vertices((1, 9), 3).unwrap_err();
    assert_eq!(error, MeshRenderError { vertex_index: 9, vertex_count: 3 });
    assert_eq!(
        error.message(),
        "mesh edge references vertex index 9, but the mesh has only 3 vertices"
    );
}

#[test]
fn native_target_labels() {
    assert_eq!(NativeEditorTarget::Scene.label(), "Scene");
    assert_eq!(NativeEditorTarget::Camera.label(), "Camera");
    assert_eq!(NativeEditorTarget::Object("logo".to_string()).label(), "logo");
}

#[test]
fn land_maps_are_named_by_their_source() {
    assert!(is_native_shader_land_map("maps/ne_50m_land.geojson"));
    assert!(is_native_shader_land_map("x/admin_0_countries.json"));
    assert!(!is_native_shader_land_map("maps/rivers.geojson"));
}

#[test]
fn fallback_colours_follow_the_object_id() {
    assert_eq!(fallback_toon_color("Earth_Globe"), FallbackToonColor::Ocean);
    assert_eq!(fallback_toon_color("unit-SPHERE"), FallbackToonColor::Ocean);
    assert_eq!(fallback_toon_color("teapot"), FallbackToonColor::Brick);
    assert_eq!(fallback_toon_color("km_marker"), FallbackToonColor::Gold);
    assert_eq!(fallback_toon_color("Logo"), FallbackToonColor::Gold);
    assert_eq!(fallback_toon_color("cube"), FallbackToonColor::Default);
}

#[test]
fn upload_total_adds_every_kind() {
    let snapshot = UploadSnapshot {
        hull_bytes: 1,
        fill_bytes: 20,
        line_bytes: 300,
        geo_bytes: 4000,
    };
    assert_eq!(snapshot.total_bytes(), 4321);
}

#[test]
fn scene_settings_defaults() {
    let viewport = A3dViewport::default();
    assert!(viewport.show_world_debug);
    assert!(!viewport.show_camera3d);
    assert_ne!(BodyType::Static, BodyType::Dynamic);
    assert_ne!(CameraProjection::Perspective, CameraProjection::Orthographic);
}

#[test]
fn explicit_two_point_segments_are_not_closed_again() {
    let faces = vec![vec![0, 1], vec![1, 2]];

    assert_eq!(unique_face_edges(&faces), vec![(0, 1), (1, 2)]);
}

#[test]
fn paths_join_the_root_and_the_names() {
    let separator = std::path::MAIN_SEPARATOR;
    assert_eq!(
        asset_path("/project", "quad4.obj"),
        format!("/project{separator}assets{separator}quad4.obj")
    );
    assert_eq!(
        default_a3d_root_path("/p"),
        format!("/p{separator}assets{separator}a3d{separator}p_depth_demo")
    );
    assert_eq!(glyphs::asset_path("/r/", "g.json"), "/r/g.json");
    assert_eq!(
        glyphs::asset_path("/r", "assets/glyphs/e.json"),
        format!("/r{separator}assets/glyphs/e.json")
    );
    assert_eq!(resolve_path("", "x.obj"), "x.obj");
    assert_eq!(
        resolve_mesh_path("scenes/demo/scene.json", "cube.obj"),
        format!("scenes{separator}cube.obj")
    );
}
