use ascii_3d::geo_map::{collect_geo, GeoValue};

fn line(points: &[Option<(i32, i32)>]) -> Option<Vec<Option<(i32, i32)>>> {
    Some(points.to_vec())
}

#[test]
fn line_string_becomes_connected_spherical_segments() {
    let value = GeoValue::LineString(line(&[Some((0, 0)), Some((90, 0)), Some((90, 90))]));

    let collected = collect_geo(&value);

    assert_eq!(collected.segments.len(), 2);
    assert_eq!(collected.segments[0], ((0, 0), (90, 0)));
    assert_eq!(collected.segments[1], ((90, 0), (90, 90)));
    assert!(collected.rings.is_empty());
}

#[test]
fn entries_that_are_not_positions_break_a_line() {
    let value = GeoValue::LineString(line(&[Some((0, 0)), Some((1, 0)), None, Some((2, 0)), Some((3, 0))]));

    let collected = collect_geo(&value);

    assert_eq!(collected.segments, vec![((0, 0), (1, 0)), ((2, 0), (3, 0))]);
}

#[test]
fn polygons_draw_every_ring_and_fill_the_outer_one() {
    let square = line(&[Some((0, 0)), Some((4, 0)), Some((4, 4)), None, Some((0, 0))]);
    let hole = line(&[Some((1, 1)), Some((2, 1))]);
    let feature = GeoValue::Feature(Some(Box::new(GeoValue::Polygon(Some(vec![square, hole])))));
    let collection = GeoValue::FeatureCollection(Some(vec![
        feature,
        GeoValue::Other,
        GeoValue::MultiPolygon(Some(vec![None, Some(vec![None, line(&[Some((9, 9))])])])),
        GeoValue::MultiLineString(Some(vec![line(&[Some((5, 5)), Some((6, 6))]), None])),
    ]));

    let collected = collect_geo(&collection);

    assert_eq!(
        collected.segments,
        vec![((0, 0), (4, 0)), ((4, 0), (4, 4)), ((1, 1), (2, 1)), ((5, 5), (6, 6))]
    );
    assert_eq!(collected.rings, vec![vec![(0, 0), (4, 0), (4, 4), (0, 0)]]);
}

#[test]
fn members_missing_their_arrays_draw_nothing() {
    for value in [
        GeoValue::<(i32, i32)>::FeatureCollection(None),
        GeoValue::Feature(None),
        GeoValue::GeometryCollection(Some(Vec::new())),
        GeoValue::LineString(None),
        GeoValue::Polygon(Some(Vec::new())),
    ] {
        let collected = collect_geo(&value);
        assert!(collected.segments.is_empty());
        assert!(collected.rings.is_empty());
    }
}
