use ascii_3d::axis_rules::{AxesSummary, AxisSummary};

fn axis(id: &str, label: &str) -> AxisSummary {
    AxisSummary { id: id.to_string(), has_positive_length: true, positive_label: label.to_string() }
}

fn metadata(axes: Vec<AxisSummary>) -> AxesSummary {
    AxesSummary {
        name: "cartesian_axes".to_string(),
        geometry_asset: "models/cartesian_axes.obj".to_string(),
        axes,
    }
}

#[test]
fn rejects_missing_required_axis() {
    let metadata = metadata(Vec::new());

    assert!(metadata.validate().is_err());
}

#[test]
fn valid_axes_metadata_passes_and_finds_axes() {
    let metadata = metadata(vec![axis("x", "+X"), axis("y", "+Y"), axis("z", "+Z")]);

    assert_eq!(metadata.validate(), Ok(()));
    assert_eq!(metadata.axes.len(), 3);
    assert_eq!(metadata.axis("z").expect("z axis should exist").positive_label, "+Z");
    assert!(metadata.axis("w").is_none());
}

#[test]
fn axes_metadata_errors_come_in_order() {
    let mut blank_name = metadata(vec![axis("x", "+X")]);
    blank_name.name = "  ".to_string();
    assert_eq!(blank_name.validate(), Err("axis metadata name must not be empty".to_string()));

    let mut blank_asset = metadata(vec![axis("x", "+X")]);
    blank_asset.geometry_asset = String::new();
    assert_eq!(
        blank_asset.validate(),
        Err("axis metadata geometry_asset must not be empty".to_string())
    );

    assert_eq!(
        metadata(Vec::new()).validate(),
        Err("axis metadata must contain at least one axis".to_string())
    );
    assert_eq!(
        metadata(vec![axis("x", "+X"), axis("z", "+Z")]).validate(),
        Err("axis metadata is missing required 'y' axis".to_string())
    );

    let mut short = axis("y", "+Y");
    short.has_positive_length = false;
    assert_eq!(
        metadata(vec![axis("x", "+X"), short, axis("z", " ")]).validate(),
        Err("axis 'y' length must be greater than zero".to_string())
    );
    assert_eq!(
        metadata(vec![axis("x", "+X"), axis("y", "+Y"), axis("z", " ")]).validate(),
        Err("axis 'z' positive label must not be empty".to_string())
    );
    assert_eq!(
        metadata(vec![axis("x", "+X"), axis("y", "+Y"), axis("z", "+Z"), axis(" ", "+W")]).validate(),
        Err("axis id must not be empty".to_string())
    );
}
