use ascii_3d::camera_viewport::{
    aspect_ratio_from_text_value, camera_viewport, camera_viewport_content_rect,
    draw_horizontal_span, parse_camera_viewport_aspect_ratio, AspectRatioSetting,
    CameraViewportAspectRatio,
};
use ascii_3d::canvas::{Canvas, ClipRect};

#[test]
fn parse_camera_viewport_aspect_ratio_accepts_string() {
    let value = AspectRatioSetting::Text("4:3".to_string());

    assert_eq!(
        parse_camera_viewport_aspect_ratio(&value),
        Some(CameraViewportAspectRatio::new(4, 3))
    );
}

#[test]
fn parse_camera_viewport_aspect_ratio_accepts_object() {
    let value = AspectRatioSetting::Fields {
        width: Some(16),
        height: Some(9),
    };

    assert_eq!(
        parse_camera_viewport_aspect_ratio(&value),
        Some(CameraViewportAspectRatio::new(16, 9))
    );
}

#[test]
fn ratio_text_allows_spaces_and_a_plus_sign() {
    assert_eq!(
        aspect_ratio_from_text_value(" 21 : +9 "),
        Some(CameraViewportAspectRatio::new(21, 9))
    );
    assert_eq!(
        aspect_ratio_from_text_value("16:9:1"),
        None
    );
}

#[test]
fn ratio_text_rejects_bad_counts() {
    assert_eq!(aspect_ratio_from_text_value("16x9"), None);
    assert_eq!(aspect_ratio_from_text_value("0:9"), None);
    assert_eq!(aspect_ratio_from_text_value("16:"), None);
    assert_eq!(aspect_ratio_from_text_value("-4:3"), None);
    assert_eq!(aspect_ratio_from_text_value("65536:1"), None);
    assert_eq!(
        aspect_ratio_from_text_value("65535:1"),
        Some(CameraViewportAspectRatio::new(65535, 1))
    );
}

#[test]
fn ratio_fields_must_fit_and_be_positive() {
    let missing = AspectRatioSetting::Fields {
        width: Some(16),
        height: None,
    };
    assert_eq!(parse_camera_viewport_aspect_ratio(&missing), None);
    let too_wide = AspectRatioSetting::Fields {
        width: Some(70_000),
        height: Some(9),
    };
    assert_eq!(parse_camera_viewport_aspect_ratio(&too_wide), None);
    let zero = AspectRatioSetting::Fields {
        width: Some(0),
        height: Some(9),
    };
    assert_eq!(parse_camera_viewport_aspect_ratio(&zero), None);
}

#[test]
fn default_ratio_is_sixteen_by_nine() {
    assert_eq!(
        CameraViewportAspectRatio::default_ratio(),
        CameraViewportAspectRatio::new(16, 9)
    );
}

#[test]
fn content_rect_leaves_border_title_and_status_rows() {
    let viewport = camera_viewport();
    assert_eq!((viewport.x, viewport.y, viewport.width, viewport.height), (0, 24, 80, 18));
    assert_eq!(
        camera_viewport_content_rect(),
        ClipRect {
            x: 1,
            y: 26,
            width: 78,
            height: 14,
        }
    );
}

#[test]
fn horizontal_span_crosses_the_canvas() {
    let mut canvas = Canvas::new(80, 2);
    draw_horizontal_span(&mut canvas, 1, '-');
    let rendered = canvas.render();
    let rows: Vec<&str> = rendered.split("\r\n").collect();
    assert_eq!(rows[0].trim(), "");
    assert_eq!(rows[1], "-".repeat(80));
}
