use ascii_3d::canvas::{Canvas, ClipRect};
use ascii_3d::geometry2d::Point2;

#[test]
fn clip_rect_prevents_drawing_outside_region() {
    let mut canvas = Canvas::new(8, 4);

    canvas.with_clip_rect(
        ClipRect {
            x: 2,
            y: 1,
            width: 3,
            height: 2,
        },
        |canvas| {
            canvas.set(Point2::new(1, 1), 'A');
            canvas.set(Point2::new(2, 1), 'B');
            canvas.set(Point2::new(4, 2), 'C');
            canvas.set(Point2::new(5, 2), 'D');
        },
    );

    let rendered = canvas.render();

    assert!(!rendered.contains('A'));
    assert!(rendered.contains('B'));
    assert!(rendered.contains('C'));
    assert!(!rendered.contains('D'));
}

/// The rendered rows of `canvas`, each of which ends in CRLF.
fn rows(canvas: &Canvas) -> Vec<String> {
    let rendered = canvas.render();
    assert!(rendered.ends_with("\r\n"));
    rendered
        .trim_end_matches("\r\n")
        .split("\r\n")
        .map(str::to_string)
        .collect()
}

#[test]
fn new_canvas_renders_blank_rows() {
    let canvas = Canvas::new(3, 2);
    assert_eq!(canvas.render(), "   \r\n   \r\n");
}

#[test]
fn horizontal_line_fills_every_cell_between_its_ends() {
    let mut canvas = Canvas::new(5, 1);
    canvas.draw_line(Point2::new(0, 0), Point2::new(4, 0), '=');
    assert_eq!(rows(&canvas), vec!["====="]);
}

#[test]
fn diagonal_line_steps_one_cell_at_a_time() {
    let mut canvas = Canvas::new(3, 3);
    canvas.draw_line(Point2::new(0, 0), Point2::new(2, 2), '*');
    assert_eq!(rows(&canvas), vec!["*  ", " * ", "  *"]);
}

#[test]
fn reversed_line_draws_the_same_cells() {
    let mut forward = Canvas::new(6, 4);
    forward.draw_line(Point2::new(0, 0), Point2::new(5, 3), '#');
    let mut backward = Canvas::new(6, 4);
    backward.draw_line(Point2::new(5, 3), Point2::new(0, 0), '#');
    assert_eq!(forward.render().matches('#').count(), backward.render().matches('#').count());
    for drawn in [rows(&forward), rows(&backward)] {
        assert!(drawn[0].starts_with('#'));
        assert!(drawn[3].ends_with('#'));
    }
}

#[test]
fn line_auto_picks_character_by_direction() {
    let mut canvas = Canvas::new(3, 3);
    canvas.draw_line_auto(Point2::new(0, 0), Point2::new(2, 0));
    canvas.draw_line_auto(Point2::new(0, 1), Point2::new(0, 2));
    assert_eq!(rows(&canvas), vec!["---", "|  ", "|  "]);

    let mut falling = Canvas::new(2, 2);
    falling.draw_line_auto(Point2::new(0, 0), Point2::new(1, 1));
    assert_eq!(rows(&falling), vec!["\\ ", " \\"]);

    let mut rising = Canvas::new(2, 2);
    rising.draw_line_auto(Point2::new(0, 1), Point2::new(1, 0));
    assert_eq!(rows(&rising), vec![" /", "/ "]);
}

#[test]
fn arrow_ends_in_its_head() {
    let mut canvas = Canvas::new(4, 1);
    canvas.draw_arrow_auto(Point2::new(0, 0), Point2::new(3, 0), '>');
    assert_eq!(rows(&canvas), vec!["--->"]);
}

#[test]
fn text_runs_right_and_is_cut_at_the_edge() {
    let mut canvas = Canvas::new(4, 1);
    canvas.draw_text(Point2::new(1, 0), "abcdef");
    assert_eq!(rows(&canvas), vec![" abc"]);
}

#[test]
fn points_off_the_grid_are_ignored() {
    let mut canvas = Canvas::new(2, 2);
    canvas.set(Point2::new(-1, 0), 'x');
    canvas.set(Point2::new(0, 5), 'x');
    assert_eq!(rows(&canvas), vec!["  ", "  "]);
}

#[test]
fn clear_blanks_every_cell() {
    let mut canvas = Canvas::new(2, 1);
    canvas.draw_text(Point2::new(0, 0), "ab");
    canvas.clear();
    assert_eq!(rows(&canvas), vec!["  "]);
}

#[test]
fn viewport_shifts_points_and_clips_to_its_rectangle() {
    let mut canvas = Canvas::new(5, 3);
    canvas.with_viewport(
        ClipRect {
            x: 1,
            y: 1,
            width: 2,
            height: 1,
        },
        |canvas| {
            canvas.set(Point2::new(0, 0), 'a');
            canvas.set(Point2::new(1, 0), 'b');
            canvas.set(Point2::new(2, 0), 'c');
        },
    );
    canvas.set(Point2::new(0, 0), 'z');
    assert_eq!(rows(&canvas), vec!["z    ", " ab  ", "     "]);
}

#[test]
fn a_line_has_one_cell_more_than_its_longer_extent() {
    let mut canvas = Canvas::new(8, 6);
    canvas.draw_line(Point2::new(0, 0), Point2::new(5, 2), '#');
    assert_eq!(canvas.render().chars().filter(|c| *c == '#').count(), 6);

    let mut steep = Canvas::new(8, 6);
    steep.draw_line(Point2::new(6, 5), Point2::new(4, 0), '#');
    assert_eq!(steep.render().chars().filter(|c| *c == '#').count(), 6);
}
