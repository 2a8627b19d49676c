use vstd::prelude::*;

use crate::geometry2d::Point2;
use crate::text::push_char;

verus! {

/// A rectangle of cells: `width` cells to the right of `x` and `height` cells
/// below `y`.
#[derive(Clone, Copy, Debug, PartialEq, Eq)]
pub struct ClipRect {
    pub x: i32,
    pub y: i32,
    pub width: usize,
    pub height: usize,
}

impl ClipRect {
    /// The right and bottom edges, computed as `i32` like the code does, do
    /// not overflow.
    pub open spec fn fits(self) -> bool {
        &&& i32::MIN <= self.x + (self.width as i32) <= i32::MAX
        &&& i32::MIN <= self.y + (self.height as i32) <= i32::MAX
    }

    /// `(x, y)` lies inside the rectangle.
    pub open spec fn contains_spec(self, x: int, y: int) -> bool {
        &&& self.x <= x < self.x + (self.width as i32)
        &&& self.y <= y < self.y + (self.height as i32)
    }

    pub(crate) fn contains(self, point: Point2) -> (inside: bool)
        requires
            self.fits(),
        ensures
            inside == self.contains_spec(point.x as int, point.y as int),
    {
        let right = self.x + self.width as i32;
        let bottom = self.y + self.height as i32;

        point.x >= self.x && point.x < right && point.y >= self.y && point.y < bottom
    }
}

/// The abstract state of a canvas: its size, the clip rectangle in force, the
/// offset added to every drawn point, and the cells row by row.
#[verifier::ext_equal]
pub struct CanvasView {
    pub width: usize,
    pub height: usize,
    pub clip_rect: Option<ClipRect>,
    pub origin_offset: Point2,
    pub cells: Seq<char>,
}

impl CanvasView {
    /// There is one cell per position of the grid.
    pub open spec fn well_formed(self) -> bool {
        self.cells.len() == self.width * self.height
    }

    /// The clip rectangle in force, if any, fits in `i32`.
    pub open spec fn clip_fits(self) -> bool {
        match self.clip_rect {
            Some(clip) => clip.fits(),
            None => true,
        }
    }

    /// Adding the origin offset to `point` does not overflow `i32`.
    pub open spec fn can_shift(self, point: Point2) -> bool {
        &&& i32::MIN <= point.x + self.origin_offset.x <= i32::MAX
        &&& i32::MIN <= point.y + self.origin_offset.y <= i32::MAX
    }

    /// The index of the cell that `set(point, ..)` writes, or `None` when the
    /// shifted point is clipped away or lies off the grid.
    pub open spec fn cell_index(self, point: Point2) -> Option<int> {
        let x = point.x + self.origin_offset.x;
        let y = point.y + self.origin_offset.y;
        if self.clip_rect is Some && !self.clip_rect->0.contains_spec(x, y) {
            None
        } else if x < 0 || y < 0 || x >= self.width || y >= self.height {
            None
        } else {
            Some(y * self.width + x)
        }
    }

    /// The canvas after `set(point, character)`.
    pub open spec fn set(self, point: Point2, character: char) -> Self {
        match self.cell_index(point) {
            Some(index) => CanvasView { cells: self.cells.update(index, character), ..self },
            None => self,
        }
    }

    /// The same canvas with `clip_rect` in force.
    pub open spec fn with_clip(self, clip_rect: Option<ClipRect>) -> Self {
        CanvasView { clip_rect, ..self }
    }

    /// The same canvas with `origin_offset` added to drawn points.
    pub open spec fn with_origin(self, origin_offset: Point2) -> Self {
        CanvasView { origin_offset, ..self }
    }

    /// The canvas after `draw_text(start, text)`: each character set one
    /// column further to the right.
    pub open spec fn draw_text(self, start: Point2, text: Seq<char>) -> Self
        decreases text.len(),
    {
        if text.len() == 0 {
            self
        } else {
            self.draw_text(start, text.drop_last()).set(
                Point2 { x: (start.x + text.len() - 1) as i32, y: start.y },
                text.last(),
            )
        }
    }

    /// Every character of `text` can be placed and shifted without `i32`
    /// overflow.
    pub open spec fn can_draw_text(self, start: Point2, text: Seq<char>) -> bool {
        &&& text.len() <= i32::MAX
        &&& start.x + text.len() <= i32::MAX + 1
        &&& forall|k: int|
            0 <= k < text.len() ==> #[trigger] self.can_shift(
                Point2 { x: (start.x + k) as i32, y: start.y },
            )
    }

    /// `self` is well formed and has the size, clip rectangle and offset of
    /// `before`: drawing changes cells only.
    pub open spec fn keeps_shape_of(self, before: Self) -> bool {
        &&& self.well_formed()
        &&& self.width == before.width
        &&& self.height == before.height
        &&& self.clip_rect == before.clip_rect
        &&& self.origin_offset == before.origin_offset
    }

    /// The canvas with every cell blank.
    pub open spec fn cleared(self) -> Self {
        CanvasView { cells: Seq::new(self.cells.len(), |i: int| ' '), ..self }
    }

    /// The canvas after setting each point of `points`, first to last.
    pub open spec fn set_all(self, points: Seq<Point2>, character: char) -> Self
        decreases points.len(),
    {
        if points.len() == 0 {
            self
        } else {
            self.set_all(points.drop_last(), character).set(points.last(), character)
        }
    }
}


/// `|v|`.
pub open spec fn abs(v: int) -> int {
    if v < 0 {
        -v
    } else {
        v
    }
}

/// The cells that the line walk visits from `(x, y)` on, with the error term
/// `error`, the extents `dx >= 0` and `dy <= 0` and the steps `sx`, `sy`; each
/// step moves along x when twice the error is at least `dy` and along y when
/// it is at most `dx`. `fuel` bounds the number of steps.
pub open spec fn line_trace(
    x: int,
    y: int,
    end: Point2,
    error: int,
    dx: int,
    dy: int,
    sx: int,
    sy: int,
    fuel: nat,
) -> Seq<Point2>
    decreases fuel,
{
    let here = Point2 { x: x as i32, y: y as i32 };
    if (x == end.x && y == end.y) || fuel == 0 {
        seq![here]
    } else {
        let doubled = 2 * error;
        let next_x = if doubled >= dy {
            x + sx
        } else {
            x
        };
        let after_x = if doubled >= dy {
            error + dy
        } else {
            error
        };
        let next_y = if doubled <= dx {
            y + sy
        } else {
            y
        };
        let after_y = if doubled <= dx {
            after_x + dx
        } else {
            after_x
        };
        seq![here] + line_trace(next_x, next_y, end, after_y, dx, dy, sx, sy, (fuel - 1) as nat)
    }
}

/// The cells of the line from `start` to `end`, in drawing order.
pub open spec fn line_points(start: Point2, end: Point2) -> Seq<Point2> {
    let dx = abs(end.x - start.x);
    let dy = -abs(end.y - start.y);
    let sx = if start.x < end.x {
        1int
    } else {
        -1int
    };
    let sy = if start.y < end.y {
        1int
    } else {
        -1int
    };
    line_trace(start.x as int, start.y as int, end, dx + dy, dx, dy, sx, sy, (dx - dy) as nat)
}

/// The extents of the line stay below `2^30`, so that the differences of its
/// coordinates are `i32` values.
pub open spec fn line_fits(start: Point2, end: Point2) -> bool {
    &&& abs(end.x - start.x) < 0x4000_0000
    &&& abs(end.y - start.y) < 0x4000_0000
}

/// `-1`, `0` or `1` after the sign of `v`.
pub open spec fn sign(v: int) -> int {
    if v > 0 {
        1
    } else if v < 0 {
        -1
    } else {
        0
    }
}

/// Each step of `points` moves x by `0` or the sign of `end.x - start.x`,
/// y by `0` or the sign of `end.y - start.y`, and not both by `0`.
pub open spec fn unit_steps(points: Seq<Point2>, start: Point2, end: Point2) -> bool {
    forall|k: int|
        0 <= k < points.len() - 1 ==> {
            let dx = #[trigger] points[k + 1].x - points[k].x;
            let dy = points[k + 1].y - points[k].y;
            &&& (dx == 0 || dx == sign(end.x - start.x))
            &&& (dy == 0 || dy == sign(end.y - start.y))
            &&& !(dx == 0 && dy == 0)
        }
}

/// The larger of `a` and `b`.
pub open spec fn larger(a: int, b: int) -> int {
    if a >= b {
        a
    } else {
        b
    }
}

/// `v` lies between `a` and `b`, in either order.
pub open spec fn between(v: int, a: int, b: int) -> bool {
    (a <= v <= b) || (b <= v <= a)
}

/// The state of the walk after `i` steps along x and `j` along y.
pub open spec fn walk_state(
    start: Point2,
    end: Point2,
    x: int,
    y: int,
    error: int,
    i: int,
    j: int,
) -> bool {
    let big_x = abs(end.x - start.x);
    let big_y = abs(end.y - start.y);
    &&& 0 <= i <= big_x
    &&& 0 <= j <= big_y
    &&& x == (if start.x < end.x {
        start.x + i
    } else {
        start.x - i
    })
    &&& y == (if start.y < end.y {
        start.y + j
    } else {
        start.y - j
    })
    &&& error == big_x * (j + 1) - big_y * (i + 1)
    &&& -3 * big_y <= 2 * error <= 3 * big_x
}

/// One step of the walk: it never passes the end along either axis, and the
/// error term keeps its closed form and its bounds.
proof fn lemma_walk_step(big_x: int, big_y: int, i: int, j: int, error: int)
    requires
        0 <= i <= big_x,
        0 <= j <= big_y,
        i < big_x || j < big_y,
        error == big_x * (j + 1) - big_y * (i + 1),
        -3 * big_y <= 2 * error <= 3 * big_x,
    ensures
        i == big_x ==> 2 * error < -big_y,
        j == big_y ==> 2 * error > big_x,
        error - big_y == big_x * (j + 1) - big_y * (i + 2),
        error + big_x == big_x * (j + 2) - big_y * (i + 1),
        error - big_y + big_x == big_x * (j + 2) - big_y * (i + 2),
{
    assert(i == big_x ==> 2 * error < -big_y) by (nonlinear_arith)
        requires
            0 <= i <= big_x,
            0 <= j <= big_y,
            i < big_x || j < big_y,
            error == big_x * (j + 1) - big_y * (i + 1),
    ;
    assert(j == big_y ==> 2 * error > big_x) by (nonlinear_arith)
        requires
            0 <= i <= big_x,
            0 <= j <= big_y,
            i < big_x || j < big_y,
            error == big_x * (j + 1) - big_y * (i + 1),
    ;
    assert(error - big_y == big_x * (j + 1) - big_y * (i + 2)) by (nonlinear_arith)
        requires
            error == big_x * (j + 1) - big_y * (i + 1),
    ;
    assert(error + big_x == big_x * (j + 2) - big_y * (i + 1)) by (nonlinear_arith)
        requires
            error == big_x * (j + 1) - big_y * (i + 1),
    ;
    assert(error - big_y + big_x == big_x * (j + 2) - big_y * (i + 2)) by (nonlinear_arith)
        requires
            error == big_x * (j + 1) - big_y * (i + 1),
    ;
}

/// The step along x of the line from `start` to `end`.
pub open spec fn step_x(start: Point2, end: Point2) -> int {
    if start.x < end.x {
        1
    } else {
        -1
    }
}

/// The step along y of the line from `start` to `end`.
pub open spec fn step_y(start: Point2, end: Point2) -> int {
    if start.y < end.y {
        1
    } else {
        -1
    }
}

/// The rest of the line walk from `(x, y)` with `fuel` steps left.
pub open spec fn walk_trace(
    start: Point2,
    end: Point2,
    x: int,
    y: int,
    error: int,
    fuel: nat,
) -> Seq<Point2> {
    let big_x = abs(end.x - start.x);
    let big_y = abs(end.y - start.y);
    line_trace(
        x,
        y,
        end,
        error,
        big_x,
        -big_y,
        step_x(start, end),
        step_y(start, end),
        fuel,
    )
}

/// Every point of `points` lies in the box spanned by `start` and `end`.
pub open spec fn in_box(points: Seq<Point2>, start: Point2, end: Point2) -> bool {
    forall|k: int|
        0 <= k < points.len() ==> between(#[trigger] points[k].x as int, start.x as int, end.x as int)
            && between(points[k].y as int, start.y as int, end.y as int)
}

/// Consecutive points of `points` are neighbouring cells.
pub open spec fn steps_to_neighbours(points: Seq<Point2>) -> bool {
    forall|k: int|
        0 <= k < points.len() - 1 ==> abs(#[trigger] points[k].x - points[k + 1].x) <= 1 && abs(
            points[k].y - points[k + 1].y,
        ) <= 1
}

/// From any state of the walk, the trace ends at `end`, keeps each step to a
/// neighbouring cell and stays in the box spanned by `start` and `end`.
proof fn lemma_trace_from(
    start: Point2,
    end: Point2,
    x: int,
    y: int,
    error: int,
    i: int,
    j: int,
    fuel: nat,
)
    requires
        walk_state(start, end, x, y, error, i, j),
        fuel >= abs(end.x - start.x) + abs(end.y - start.y) - i - j,
    ensures
        walk_trace(start, end, x, y, error, fuel).len() >= 1,
        walk_trace(start, end, x, y, error, fuel)[0] == (Point2 { x: x as i32, y: y as i32 }),
        walk_trace(start, end, x, y, error, fuel).last() == end,
        in_box(walk_trace(start, end, x, y, error, fuel), start, end),
        steps_to_neighbours(walk_trace(start, end, x, y, error, fuel)),
    decreases fuel,
{
    let big_x = abs(end.x - start.x);
    let big_y = abs(end.y - start.y);
    let sx = step_x(start, end);
    let sy = step_y(start, end);
    let trace = walk_trace(start, end, x, y, error, fuel);
    let here = Point2 { x: x as i32, y: y as i32 };
    assert(between(x, start.x as int, end.x as int));
    assert(between(y, start.y as int, end.y as int));
    assert(here.x == x && here.y == y);
    if x == end.x && y == end.y {
        assert(trace =~= seq![here]);
    } else {
        assert(i < big_x || j < big_y);
        lemma_walk_step(big_x, big_y, i, j, error);
        let doubled = 2 * error;
        let step_x = doubled >= -big_y;
        let step_y = doubled <= big_x;
        let i2 = if step_x {
            i + 1
        } else {
            i
        };
        let j2 = if step_y {
            j + 1
        } else {
            j
        };
        let x2 = if step_x {
            x + sx
        } else {
            x
        };
        let y2 = if step_y {
            y + sy
        } else {
            y
        };
        let e2 = if step_x && step_y {
            error - big_y + big_x
        } else if step_x {
            error - big_y
        } else if step_y {
            error + big_x
        } else {
            error
        };
        assert(step_x || step_y);
        assert(walk_state(start, end, x2, y2, e2, i2, j2));
        lemma_trace_from(start, end, x2, y2, e2, i2, j2, (fuel - 1) as nat);
        let rest = walk_trace(start, end, x2, y2, e2, (fuel - 1) as nat);
        assert(trace =~= seq![here] + rest);
        assert forall|k: int| 0 <= k < trace.len() - 1 implies abs(#[trigger] trace[k].x - trace[k + 1].x) <= 1 && abs(
            trace[k].y - trace[k + 1].y,
        ) <= 1 by {
            if k > 0 {
                assert(trace[k] == rest[k - 1]);
                assert(trace[k + 1] == rest[k]);
                assert(abs(rest[k - 1].x - rest[k].x) <= 1);
            } else {
                assert(trace[1] == rest[0]);
                assert(between(x2, start.x as int, end.x as int));
                assert(between(y2, start.y as int, end.y as int));
                assert(rest[0].x == x2 && rest[0].y == y2);
            }
        }
        assert forall|k: int| 0 <= k < trace.len() implies between(#[trigger] trace[k].x as int, start.x as int, end.x as int)
            && between(trace[k].y as int, start.y as int, end.y as int) by {
            if k > 0 {
                assert(trace[k] == rest[k - 1]);
                assert(between(rest[k - 1].x as int, start.x as int, end.x as int));
            } else {
                assert(trace[0] == here);
            }
        }
    }
}

/// The error term of the walk leans towards its major axis: along the longer
/// extent a step is taken every time.
pub open spec fn leans_to_major(big_x: int, big_y: int, error: int) -> bool {
    &&& big_x >= big_y ==> 2 * error >= -big_y
    &&& big_y >= big_x ==> 2 * error <= big_x
}

/// From a state of the walk that leans to its major axis, the trace has one
/// cell for each step still owed along that axis, plus the cell it stands on,
/// and each step is a unit step towards the end.
proof fn lemma_trace_steps(
    start: Point2,
    end: Point2,
    x: int,
    y: int,
    error: int,
    i: int,
    j: int,
    fuel: nat,
)
    requires
        walk_state(start, end, x, y, error, i, j),
        leans_to_major(abs(end.x - start.x), abs(end.y - start.y), error),
        fuel >= abs(end.x - start.x) + abs(end.y - start.y) - i - j,
    ensures
        walk_trace(start, end, x, y, error, fuel).len() == (if abs(end.x - start.x) >= abs(
            end.y - start.y,
        ) {
            abs(end.x - start.x) - i
        } else {
            abs(end.y - start.y) - j
        }) + 1,
        unit_steps(walk_trace(start, end, x, y, error, fuel), start, end),
    decreases fuel,
{
    let big_x = abs(end.x - start.x);
    let big_y = abs(end.y - start.y);
    let sx = step_x(start, end);
    let sy = step_y(start, end);
    let trace = walk_trace(start, end, x, y, error, fuel);
    let here = Point2 { x: x as i32, y: y as i32 };
    assert(here.x == x && here.y == y);
    if x == end.x && y == end.y {
        assert(trace =~= seq![here]);
    } else {
        assert(i < big_x || j < big_y);
        lemma_walk_step(big_x, big_y, i, j, error);
        let doubled = 2 * error;
        let step_x = doubled >= -big_y;
        let step_y = doubled <= big_x;
        let i2 = if step_x {
            i + 1
        } else {
            i
        };
        let j2 = if step_y {
            j + 1
        } else {
            j
        };
        let x2 = if step_x {
            x + sx
        } else {
            x
        };
        let y2 = if step_y {
            y + sy
        } else {
            y
        };
        let e2 = if step_x && step_y {
            error - big_y + big_x
        } else if step_x {
            error - big_y
        } else if step_y {
            error + big_x
        } else {
            error
        };
        assert(walk_state(start, end, x2, y2, e2, i2, j2));
        assert(leans_to_major(big_x, big_y, e2));
        lemma_trace_steps(start, end, x2, y2, e2, i2, j2, (fuel - 1) as nat);
        lemma_trace_from(start, end, x2, y2, e2, i2, j2, (fuel - 1) as nat);
        let rest = walk_trace(start, end, x2, y2, e2, (fuel - 1) as nat);
        assert(trace =~= seq![here] + rest);
        assert(step_x ==> sx == sign(end.x - start.x));
        assert(step_y ==> sy == sign(end.y - start.y));
        assert forall|k: int| 0 <= k < trace.len() - 1 implies {
            let dx = #[trigger] trace[k + 1].x - trace[k].x;
            let dy = trace[k + 1].y - trace[k].y;
            &&& (dx == 0 || dx == sign(end.x - start.x))
            &&& (dy == 0 || dy == sign(end.y - start.y))
            &&& !(dx == 0 && dy == 0)
        } by {
            if k > 0 {
                assert(trace[k] == rest[k - 1]);
                assert(trace[k + 1] == rest[(k - 1) + 1]);
            } else {
                assert(trace[1] == rest[0]);
                assert(trace[0] == here);
                assert(rest[0].x == x2 && rest[0].y == y2);
            }
        }
    }
}

/// A line from `start` to `end` has one cell more than its longer extent,
/// and each of its steps is a unit step towards the end: along x by `0` or
/// the sign of the x extent, along y by `0` or the sign of the y extent,
/// never standing still.
pub proof fn law_line_steps(start: Point2, end: Point2)
    requires
        line_fits(start, end),
    ensures
        line_points(start, end).len() == larger(abs(end.x - start.x), abs(end.y - start.y)) + 1,
        unit_steps(line_points(start, end), start, end),
{
    let big_x = abs(end.x - start.x);
    let big_y = abs(end.y - start.y);
    assert(walk_state(start, end, start.x as int, start.y as int, big_x - big_y, 0, 0));
    lemma_trace_steps(start, end, start.x as int, start.y as int, big_x - big_y, 0, 0, (big_x + big_y) as nat);
}

/// A line begins at its start, ends at its end, moves to a neighbouring cell
/// at every step and never leaves the box spanned by its two ends.
pub proof fn law_line_shape(start: Point2, end: Point2)
    requires
        line_fits(start, end),
    ensures
        line_points(start, end).len() >= 1,
        line_points(start, end)[0] == start,
        line_points(start, end).last() == end,
        in_box(line_points(start, end), start, end),
        steps_to_neighbours(line_points(start, end)),
{
    let big_x = abs(end.x - start.x);
    let big_y = abs(end.y - start.y);
    assert(walk_state(start, end, start.x as int, start.y as int, big_x - big_y, 0, 0));
    lemma_trace_from(start, end, start.x as int, start.y as int, big_x - big_y, 0, 0, (big_x + big_y) as nat);
}

/// Two cells of a grid `width` wide with the same index are the same cell.
proof fn lemma_cell_index_unique(width: int, x1: int, y1: int, x2: int, y2: int)
    requires
        0 <= x1 < width,
        0 <= x2 < width,
        0 <= y1,
        0 <= y2,
        y1 * width + x1 == y2 * width + x2,
    ensures
        x1 == x2 && y1 == y2,
{
    if y1 < y2 {
        assert((y1 + 1) * width <= y2 * width) by (nonlinear_arith)
            requires
                y1 + 1 <= y2,
                0 <= width,
        ;
        assert((y1 + 1) * width == y1 * width + width) by (nonlinear_arith);
    } else if y2 < y1 {
        assert((y2 + 1) * width <= y1 * width) by (nonlinear_arith)
            requires
                y2 + 1 <= y1,
                0 <= width,
        ;
        assert((y2 + 1) * width == y2 * width + width) by (nonlinear_arith);
    }
}

/// The cell at `(x, y)` of the grid lies outside the clip rectangle in force.
pub open spec fn clipped_away(canvas: CanvasView, x: int, y: int) -> bool {
    &&& 0 <= x < canvas.width
    &&& 0 <= y < canvas.height
    &&& canvas.clip_rect is Some
    &&& !canvas.clip_rect->0.contains_spec(x, y)
}

/// Setting a point leaves a clipped-away cell as it was.
proof fn lemma_set_spares_clipped_cell(canvas: CanvasView, point: Point2, character: char, x: int, y: int)
    requires
        canvas.well_formed(),
        clipped_away(canvas, x, y),
    ensures
        canvas.set(point, character).cells[y * canvas.width + x] == canvas.cells[y * canvas.width + x],
        canvas.set(point, character).width == canvas.width,
        canvas.set(point, character).height == canvas.height,
        canvas.set(point, character).clip_rect == canvas.clip_rect,
        canvas.set(point, character).origin_offset == canvas.origin_offset,
        canvas.set(point, character).well_formed(),
{
    assert(0 <= y * canvas.width + x < canvas.cells.len()) by (nonlinear_arith)
        requires
            0 <= x < canvas.width,
            0 <= y < canvas.height,
            canvas.cells.len() == canvas.width * canvas.height,
    ;
    match canvas.cell_index(point) {
        Some(index) => {
            let px = point.x + canvas.origin_offset.x;
            let py = point.y + canvas.origin_offset.y;
            assert(0 <= index < canvas.cells.len()) by (nonlinear_arith)
                requires
                    index == py * canvas.width + px,
                    0 <= px < canvas.width,
                    0 <= py < canvas.height,
                    canvas.cells.len() == canvas.width * canvas.height,
            ;
            if index == y * canvas.width + x {
                lemma_cell_index_unique(canvas.width as int, px, py, x, y);
            }
        },
        None => {},
    }
}

/// The clip rectangle keeps a line inside it: setting any points leaves
/// every cell outside the rectangle as it was.
pub proof fn law_clip_rect_guards_outside_cells(
    canvas: CanvasView,
    points: Seq<Point2>,
    character: char,
    x: int,
    y: int,
)
    requires
        canvas.well_formed(),
        clipped_away(canvas, x, y),
    ensures
        canvas.set_all(points, character).cells[y * canvas.width + x] == canvas.cells[y
            * canvas.width + x],
        clipped_away(canvas.set_all(points, character), x, y),
        canvas.set_all(points, character).well_formed(),
        canvas.set_all(points, character).width == canvas.width,
    decreases points.len(),
{
    if points.len() > 0 {
        law_clip_rect_guards_outside_cells(canvas, points.drop_last(), character, x, y);
        let before = canvas.set_all(points.drop_last(), character);
        lemma_set_spares_clipped_cell(before, points.last(), character, x, y);
    }
}

/// The clip rectangle keeps text inside it: drawing text leaves every cell
/// outside the rectangle as it was.
pub proof fn law_clip_rect_guards_text(
    canvas: CanvasView,
    start: Point2,
    text: Seq<char>,
    x: int,
    y: int,
)
    requires
        canvas.well_formed(),
        clipped_away(canvas, x, y),
    ensures
        canvas.draw_text(start, text).cells[y * canvas.width + x] == canvas.cells[y * canvas.width
            + x],
        clipped_away(canvas.draw_text(start, text), x, y),
        canvas.draw_text(start, text).well_formed(),
        canvas.draw_text(start, text).width == canvas.width,
    decreases text.len(),
{
    if text.len() > 0 {
        law_clip_rect_guards_text(canvas, start, text.drop_last(), x, y);
        let before = canvas.draw_text(start, text.drop_last());
        lemma_set_spares_clipped_cell(
            before,
            Point2 { x: (start.x + text.len() - 1) as i32, y: start.y },
            text.last(),
            x,
            y,
        );
    }
}

/// The character that `draw_line_auto` draws a line with: `-` for a
/// horizontal line, `|` for a vertical one, `\\` when x and y grow together
/// and `/` otherwise.
pub open spec fn auto_line_character(start: Point2, end: Point2) -> char {
    let dx = end.x - start.x;
    let dy = end.y - start.y;
    if dy == 0 {
        '-'
    } else if dx == 0 {
        '|'
    } else if (dx > 0) == (dy > 0) {
        '\\'
    } else {
        '/'
    }
}

/// The text of the first `rows` rows of `cells`, `width` cells a row, each
/// row ended by a carriage return and a line feed.
pub open spec fn rows_text(cells: Seq<char>, width: nat, rows: nat) -> Seq<char>
    decreases rows,
{
    if rows == 0 {
        seq![]
    } else {
        rows_text(cells, width, (rows - 1) as nat) + cells.subrange(
            (rows - 1) * width,
            (rows * width) as int,
        ) + seq!['\r', '\n']
    }
}

/// `|value|` for a value other than `i32::MIN`.
fn magnitude(value: i32) -> (result: i32)
    requires
        value > i32::MIN,
    ensures
        result == abs(value as int),
{
    if value < 0 {
        -value
    } else {
        value
    }
}

/// `-1`, `0` or `1` after the sign of `value`.
fn signum(value: i32) -> (sign: i32)
    ensures
        sign == (if value > 0 {
            1i32
        } else if value < 0 {
            -1i32
        } else {
            0i32
        }),
{
    if value > 0 {
        1
    } else if value < 0 {
        -1
    } else {
        0
    }
}

/// Row `row` of a `width` by `height` grid ends inside the grid.
proof fn lemma_row_in_grid(row: int, width: int, height: int)
    requires
        0 <= row < height,
        0 < width,
    ensures
        0 <= row * width,
        row * width + width <= width * height,
{
    assert(row * width + width <= width * height) by (nonlinear_arith)
        requires
            0 <= row < height,
            0 < width,
    ;
    assert(0 <= row * width) by (nonlinear_arith)
        requires
            0 <= row,
            0 < width,
    ;
}

/// Setting cells keeps a canvas's size, clip rectangle and offset.
pub proof fn lemma_set_all_keeps_shape(canvas: CanvasView, points: Seq<Point2>, character: char)
    requires
        canvas.well_formed(),
    ensures
        canvas.set_all(points, character).well_formed(),
        canvas.set_all(points, character).width == canvas.width,
        canvas.set_all(points, character).height == canvas.height,
        canvas.set_all(points, character).clip_rect == canvas.clip_rect,
        canvas.set_all(points, character).origin_offset == canvas.origin_offset,
    decreases points.len(),
{
    if points.len() > 0 {
        lemma_set_all_keeps_shape(canvas, points.drop_last(), character);
        let before = canvas.set_all(points.drop_last(), character);
        lemma_set_keeps_shape(before, points.last(), character);
    }
}

/// Writing text keeps a canvas's size, clip rectangle and offset.
pub proof fn lemma_draw_text_keeps_shape(canvas: CanvasView, start: Point2, text: Seq<char>)
    requires
        canvas.well_formed(),
    ensures
        canvas.draw_text(start, text).keeps_shape_of(canvas),
    decreases text.len(),
{
    if text.len() > 0 {
        lemma_draw_text_keeps_shape(canvas, start, text.drop_last());
        let before = canvas.draw_text(start, text.drop_last());
        lemma_set_keeps_shape(
            before,
            Point2 { x: (start.x + text.len() - 1) as i32, y: start.y },
            text.last(),
        );
    }
}

/// Setting one cell keeps a canvas's size, clip rectangle and offset.
pub proof fn lemma_set_keeps_shape(canvas: CanvasView, point: Point2, character: char)
    requires
        canvas.well_formed(),
    ensures
        canvas.set(point, character).well_formed(),
        canvas.set(point, character).width == canvas.width,
        canvas.set(point, character).height == canvas.height,
        canvas.set(point, character).clip_rect == canvas.clip_rect,
        canvas.set(point, character).origin_offset == canvas.origin_offset,
{
    if let Some(index) = canvas.cell_index(point) {
        let x = point.x + canvas.origin_offset.x;
        let y = point.y + canvas.origin_offset.y;
        lemma_cell_in_grid(x, y, canvas.width as int, canvas.height as int);
    }
}

/// A grid of characters that scenes and menus are drawn on.
pub struct Canvas {
    width: usize,
    height: usize,
    clip_rect: Option<ClipRect>,
    origin_offset: Point2,
    cells: Vec<char>,
}

impl View for Canvas {
    type V = CanvasView;

    closed spec fn view(&self) -> CanvasView {
        CanvasView {
            width: self.width,
            height: self.height,
            clip_rect: self.clip_rect,
            origin_offset: self.origin_offset,
            cells: self.cells@,
        }
    }
}

/// A cell of a well-formed canvas lies inside its cell list.
proof fn lemma_cell_in_grid(x: int, y: int, width: int, height: int)
    requires
        0 <= x < width,
        0 <= y < height,
    ensures
        0 <= y * width + x < width * height,
{
    assert(y * width + x < width * height) by (nonlinear_arith)
        requires
            0 <= x < width,
            0 <= y < height,
    ;
    assert(0 <= y * width) by (nonlinear_arith)
        requires
            0 <= y,
            0 <= width,
    ;
}

impl Canvas {
    pub fn new(width: usize, height: usize) -> (canvas: Self)
        requires
            width * height <= usize::MAX,
        ensures
            canvas@.width == width,
            canvas@.height == height,
            canvas@.clip_rect is None,
            canvas@.origin_offset == (Point2 { x: 0, y: 0 }),
            canvas@.cells == Seq::new((width * height) as nat, |i: int| ' '),
            canvas@.well_formed(),
    {
        let cells = vec![' '; width * height];
        let canvas = Self {
            width,
            height,
            clip_rect: None,
            origin_offset: Point2::new(0, 0),
            cells,
        };
        assert(canvas@.cells =~= Seq::new((width * height) as nat, |i: int| ' '));
        canvas
    }

    /// The offset added to every point drawn.
    pub fn origin_offset(&self) -> (offset: Point2)
        ensures
            offset == self@.origin_offset,
    {
        self.origin_offset
    }

    pub fn clear(&mut self)
        ensures
            final(self)@ == old(self)@.cleared(),
    {
        let mut i: usize = 0;
        while i < self.cells.len()
            invariant
                i <= self.cells@.len(),
                self.cells@.len() == old(self).cells@.len(),
                self.width == old(self).width,
                self.height == old(self).height,
                self.clip_rect == old(self).clip_rect,
                self.origin_offset == old(self).origin_offset,
                forall|k: int| 0 <= k < i ==> #[trigger] self.cells@[k] == ' ',
            decreases self.cells@.len() - i,
        {
            self.cells[i] = ' ';
            i = i + 1;
        }
        assert(self@ =~= old(self)@.cleared());
    }

    pub fn set(&mut self, point: Point2, character: char)
        requires
            old(self)@.well_formed(),
            old(self)@.clip_fits(),
            old(self)@.can_shift(point),
        ensures
            final(self)@ == old(self)@.set(point, character),
            final(self)@.keeps_shape_of(old(self)@),
    {
        proof {
            lemma_set_keeps_shape(old(self)@, point, character);
        }
        let point = Point2::new(point.x + self.origin_offset.x, point.y + self.origin_offset.y);

        if let Some(clip_rect) = self.clip_rect {
            if !clip_rect.contains(point) {
                return;
            }
        }

        if point.x < 0 || point.y < 0 {
            return;
        }

        let x = point.x as usize;
        let y = point.y as usize;

        if x >= self.width || y >= self.height {
            return;
        }

        let cell_count = self.cells.len();
        proof {
            lemma_cell_in_grid(x as int, y as int, self.width as int, self.height as int);
        }
        assert(y * self.width + x < cell_count);
        self.cells[y * self.width + x] = character;
        assert(self@ =~= old(self)@.set(
            Point2 { x: (point.x - old(self).origin_offset.x) as i32, y: (point.y - old(self).origin_offset.y) as i32 },
            character,
        ));
    }

    /// Runs `draw` with `clip_rect` in force and restores the previous clip
    /// rectangle afterwards.
    pub fn with_clip_rect<R>(&mut self, clip_rect: ClipRect, draw: impl FnOnce(&mut Self) -> R) -> (result: R)
        requires
            forall|canvas: &mut Canvas|
                (*canvas)@ == old(self)@.with_clip(Some(clip_rect)) ==> #[trigger] call_requires(
                    draw,
                    (canvas,),
                ),
        ensures
            exists|canvas: &mut Canvas|
                #![trigger call_ensures(draw, (canvas,), result)]
                (*canvas)@ == old(self)@.with_clip(Some(clip_rect)) && call_ensures(
                    draw,
                    (canvas,),
                    result,
                ) && final(self)@ == (*final(canvas))@.with_clip(old(self)@.clip_rect),
    {
        let previous_clip_rect = self.clip_rect;

        self.clip_rect = Some(clip_rect);
        assert(self@ =~= old(self)@.with_clip(Some(clip_rect)));
        let result = draw(self);
        self.clip_rect = previous_clip_rect;

        result
    }

    /// Runs `draw` with `viewport` as the clip rectangle and the viewport's
    /// corner added to the origin offset, then restores both.
    pub fn with_viewport<R>(&mut self, viewport: ClipRect, draw: impl FnOnce(&mut Self) -> R) -> (result: R)
        requires
            i32::MIN <= old(self)@.origin_offset.x + viewport.x <= i32::MAX,
            i32::MIN <= old(self)@.origin_offset.y + viewport.y <= i32::MAX,
            forall|canvas: &mut Canvas|
                (*canvas)@ == old(self)@.with_clip(Some(viewport)).with_origin(
                    Point2 {
                        x: (old(self)@.origin_offset.x + viewport.x) as i32,
                        y: (old(self)@.origin_offset.y + viewport.y) as i32,
                    },
                ) ==> #[trigger] call_requires(draw, (canvas,)),
        ensures
            exists|canvas: &mut Canvas|
                #![trigger call_ensures(draw, (canvas,), result)]
                (*canvas)@ == old(self)@.with_clip(Some(viewport)).with_origin(
                    Point2 {
                        x: (old(self)@.origin_offset.x + viewport.x) as i32,
                        y: (old(self)@.origin_offset.y + viewport.y) as i32,
                    },
                ) && call_ensures(draw, (canvas,), result) && final(self)@ == (*final(canvas))@.with_clip(old(self)@.clip_rect).with_origin(old(self)@.origin_offset),
    {
        let previous_clip_rect = self.clip_rect;
        let previous_origin_offset = self.origin_offset;

        self.clip_rect = Some(viewport);
        self.origin_offset = Point2::new(
            previous_origin_offset.x + viewport.x,
            previous_origin_offset.y + viewport.y,
        );
        assert(self@ =~= old(self)@.with_clip(Some(viewport)).with_origin(
            Point2 {
                x: (old(self)@.origin_offset.x + viewport.x) as i32,
                y: (old(self)@.origin_offset.y + viewport.y) as i32,
            },
        ));

        let result = draw(self);

        self.origin_offset = previous_origin_offset;
        self.clip_rect = previous_clip_rect;

        result
    }

    #[verifier::spinoff_prover]
    pub fn draw_line(&mut self, start: Point2, end: Point2, character: char)
        requires
            old(self)@.well_formed(),
            old(self)@.clip_fits(),
            line_fits(start, end),
            old(self)@.can_shift(start),
            old(self)@.can_shift(end),
        ensures
            final(self)@ == old(self)@.set_all(line_points(start, end), character),
            final(self)@.keeps_shape_of(old(self)@),
    {
        let mut x0 = start.x;
        let mut y0 = start.y;
        let x1 = end.x;
        let y1 = end.y;

        let dx: i64 = magnitude(x1 - x0) as i64;
        let sx: i32 = if x0 < x1 {
            1
        } else {
            -1
        };

        let dy: i64 = -(magnitude(y1 - y0) as i64);
        let sy: i32 = if y0 < y1 {
            1
        } else {
            -1
        };

        let mut error: i64 = dx + dy;
        let ghost big_x = abs(end.x - start.x);
        let ghost big_y = abs(end.y - start.y);
        let ghost mut i: int = 0;
        let ghost mut j: int = 0;
        let ghost mut fuel: nat = (big_x + big_y) as nat;
        let ghost mut drawn: Seq<Point2> = seq![];
        assert(error == big_x - big_y);
        assert(big_x * (j + 1) - big_y * (i + 1) == big_x - big_y) by (nonlinear_arith)
            requires
                i == 0,
                j == 0,
        ;
        assert(error == big_x * (j + 1) - big_y * (i + 1));
        assert(-3 * big_y <= 2 * error <= 3 * big_x);
        assert(walk_state(start, end, x0 as int, y0 as int, error as int, i, j));

        loop
            invariant_except_break
                old(self)@.well_formed(),
                old(self)@.clip_fits(),
                line_fits(start, end),
                old(self)@.can_shift(start),
                old(self)@.can_shift(end),
                self@.well_formed(),
                self@.clip_fits(),
                self@.width == old(self)@.width,
                self@.height == old(self)@.height,
                self@.clip_rect == old(self)@.clip_rect,
                self@.origin_offset == old(self)@.origin_offset,
                big_x == abs(end.x - start.x),
                big_y == abs(end.y - start.y),
                dx == big_x,
                dy == -big_y,
                sx == step_x(start, end),
                sy == step_y(start, end),
                x1 == end.x,
                y1 == end.y,
                walk_state(start, end, x0 as int, y0 as int, error as int, i, j),
                fuel >= big_x + big_y - i - j,
                line_points(start, end) == drawn + walk_trace(
                    start,
                    end,
                    x0 as int,
                    y0 as int,
                    error as int,
                    fuel,
                ),
                self@ == old(self)@.set_all(drawn, character),
            ensures
                self@ == old(self)@.set_all(line_points(start, end), character),
                self@.keeps_shape_of(old(self)@),
            decreases fuel,
        {
            let ghost here = Point2 { x: x0, y: y0 };
            proof {
                lemma_trace_from(start, end, x0 as int, y0 as int, error as int, i, j, fuel);
            }
            assert(self@.can_shift(here));
            self.set(Point2::new(x0, y0), character);
            let ghost trace = walk_trace(start, end, x0 as int, y0 as int, error as int, fuel);
            proof {
                assert((drawn.push(here)).drop_last() =~= drawn);
                drawn = drawn.push(here);
            }

            if x0 == x1 && y0 == y1 {
                assert(trace =~= seq![here]);
                assert(line_points(start, end) =~= drawn);
                break;
            }

            proof {
                lemma_walk_step(big_x, big_y, i, j, error as int);
            }
            let doubled_error: i64 = 2 * error;

            if doubled_error >= dy {
                error += dy;
                x0 += sx;
                proof {
                    i = i + 1;
                }
            }

            if doubled_error <= dx {
                error += dx;
                y0 += sy;
                proof {
                    j = j + 1;
                }
            }
            proof {
                let rest = walk_trace(start, end, x0 as int, y0 as int, error as int, (fuel - 1) as nat);
                assert(trace =~= seq![here] + rest);
                assert(drawn + rest =~= (drawn.drop_last() + trace));
                fuel = (fuel - 1) as nat;
            }
        }
    }

    pub fn draw_line_auto(&mut self, start: Point2, end: Point2)
        requires
            old(self)@.well_formed(),
            old(self)@.clip_fits(),
            line_fits(start, end),
            old(self)@.can_shift(start),
            old(self)@.can_shift(end),
        ensures
            final(self)@ == old(self)@.set_all(
                line_points(start, end),
                auto_line_character(start, end),
            ),
            final(self)@.keeps_shape_of(old(self)@),
    {
        let dx = end.x - start.x;
        let dy = end.y - start.y;

        let character = if dy == 0 {
            '-'
        } else if dx == 0 {
            '|'
        } else if signum(dx) == signum(dy) {
            '\\'
        } else {
            '/'
        };

        self.draw_line(start, end, character);
    }

    pub fn draw_arrow_auto(&mut self, start: Point2, end: Point2, arrow_character: char)
        requires
            old(self)@.well_formed(),
            old(self)@.clip_fits(),
            line_fits(start, end),
            old(self)@.can_shift(start),
            old(self)@.can_shift(end),
        ensures
            final(self)@ == old(self)@.set_all(
                line_points(start, end),
                auto_line_character(start, end),
            ).set(end, arrow_character),
            final(self)@.keeps_shape_of(old(self)@),
    {
        self.draw_line_auto(start, end);
        proof {
            lemma_set_all_keeps_shape(old(self)@, line_points(start, end), auto_line_character(start, end));
        }
        self.set(end, arrow_character);
    }

    pub fn render(&self) -> (output: String)
        requires
            self@.well_formed(),
            self@.width > 0,
        ensures
            output@ == rows_text(self@.cells, self@.width as nat, self@.height as nat),
    {
        let mut output = String::new();
        let width = self.width;
        let height = self.height;
        let cell_count = self.cells.len();
        let mut row: usize = 0;
        while row < height
            invariant
                self@.well_formed(),
                width == self@.width,
                height == self@.height,
                width > 0,
                cell_count == self@.cells.len(),
                row <= height,
                output@ == rows_text(self@.cells, width as nat, row as nat),
            decreases height - row,
        {
            proof {
                lemma_row_in_grid(row as int, width as int, height as int);
            }
            let row_start = row * width;
            let mut column: usize = 0;
            while column < width
                invariant
                    self@.well_formed(),
                    width == self@.width,
                    height == self@.height,
                    cell_count == self@.cells.len(),
                    row < height,
                    row_start == row * width,
                    row_start + width <= cell_count,
                    column <= width,
                    output@ == rows_text(self@.cells, width as nat, row as nat) + self@.cells.subrange(
                        row_start as int,
                        row_start + column,
                    ),
                decreases width - column,
            {
                let character = self.cells[row_start + column];
                push_char(&mut output, character);
                assert(self@.cells.subrange(row_start as int, row_start + column + 1)
                    =~= self@.cells.subrange(row_start as int, row_start + column).push(character));
                column = column + 1;
            }

            // In raw terminal mode, '\n' may move down without returning
            // to column zero. Emit CRLF so every rendered row starts at
            // the left edge on macOS, Linux, and Windows terminals.
            push_char(&mut output, '\r');
            push_char(&mut output, '\n');
            proof {
                assert((row + 1) * width == row * width + width) by (nonlinear_arith);
                assert(output@ =~= rows_text(self@.cells, width as nat, (row + 1) as nat));
            }
            row = row + 1;
        }
        output
    }

    pub fn draw_text(&mut self, start: Point2, text: &str)
        requires
            old(self)@.well_formed(),
            old(self)@.clip_fits(),
            old(self)@.can_draw_text(start, text@),
        ensures
            final(self)@ == old(self)@.draw_text(start, text@),
            final(self)@.keeps_shape_of(old(self)@),
    {
        let mut offset: usize = 0;
        for character in it: text.chars()
            invariant
                offset == it.index(),
                it.seq() == text@,
                self@.well_formed(),
                self@.clip_fits(),
                self@.width == old(self)@.width,
                self@.height == old(self)@.height,
                self@.clip_rect == old(self)@.clip_rect,
                self@.origin_offset == old(self)@.origin_offset,
                old(self)@.can_draw_text(start, text@),
                self@ == old(self)@.draw_text(start, text@.take(offset as int)),
        {
            assert(offset < text@.len());
            assert(old(self)@.can_shift(Point2 { x: (start.x + offset) as i32, y: start.y }));
            self.set(Point2::new(start.x + offset as i32, start.y), character);
            assert(text@.take(offset as int + 1).drop_last() =~= text@.take(offset as int));
            offset = offset + 1;
        }
        assert(text@.take(offset as int) =~= text@);
    }
}

} // verus!
