use vstd::prelude::*;

use crate::canvas::{line_points, Canvas, ClipRect};
use crate::geometry2d::Point2;
use crate::text::{trim_bounds, trimmed};

verus! {

/// The width of the terminal canvas, in cells.
pub const CANVAS_WIDTH: usize = 80;

/// The height of the terminal canvas, in cells.
pub const CANVAS_HEIGHT: usize = 46;

/// A rectangle of the terminal canvas given to one panel.
#[derive(Debug, Clone, Copy, PartialEq, Eq)]
pub struct ViewportRect {
    pub x: i32,
    pub y: i32,
    pub width: usize,
    pub height: usize,
}

/// The panel that shows the view of the loaded scene's camera: the full
/// width of the canvas, 18 rows from row 24 down.
pub open spec fn spec_camera_viewport() -> ViewportRect {
    ViewportRect { x: 0, y: 24, width: CANVAS_WIDTH, height: 18 }
}

pub fn camera_viewport() -> (viewport: ViewportRect)
    ensures
        viewport == spec_camera_viewport(),
{
    ViewportRect { x: 0, y: 24, width: CANVAS_WIDTH, height: 18 }
}

/// The part of the camera panel that the rendered view may use: inside the
/// border, below the title row and above the status row.
pub open spec fn spec_camera_viewport_content_rect() -> ClipRect {
    let viewport = spec_camera_viewport();
    ClipRect {
        x: (viewport.x + 1) as i32,
        y: (viewport.y + 2) as i32,
        width: (viewport.width - 2) as usize,
        height: (viewport.height - 4) as usize,
    }
}

pub fn camera_viewport_content_rect() -> (rect: ClipRect)
    ensures
        rect == spec_camera_viewport_content_rect(),
{
    let viewport = camera_viewport();
    ClipRect {
        x: (viewport.x + 1) as i32,
        y: (viewport.y + 2) as i32,
        width: viewport.width.saturating_sub(2),
        height: viewport.height.saturating_sub(4),
    }
}

/// Draws row `y` of the camera panel from its left edge to its right edge.
pub fn draw_horizontal_span(canvas: &mut Canvas, y: i32, character: char)
    requires
        old(canvas)@.well_formed(),
        old(canvas)@.clip_fits(),
        old(canvas)@.can_shift(Point2 { x: 0, y }),
        old(canvas)@.can_shift(Point2 { x: (CANVAS_WIDTH - 1) as i32, y }),
    ensures
        final(canvas)@ == old(canvas)@.set_all(
            line_points(Point2 { x: 0, y }, Point2 { x: (CANVAS_WIDTH - 1) as i32, y }),
            character,
        ),
{
    let viewport = camera_viewport();
    canvas.draw_line(
        Point2::new(viewport.x, y),
        Point2::new(viewport.x + viewport.width as i32 - 1, y),
        character,
    );
}

/// The shape that the camera view keeps, as `width:height`.
#[derive(Debug, Clone, Copy, PartialEq, Eq, Structural)]
pub struct CameraViewportAspectRatio {
    pub width: u16,
    pub height: u16,
}

impl CameraViewportAspectRatio {
    pub fn new(width: u16, height: u16) -> (ratio: Self)
        ensures
            ratio == (CameraViewportAspectRatio { width, height }),
    {
        CameraViewportAspectRatio { width, height }
    }

    /// The ratio used when a scene names none: 16:9.
    pub fn default_ratio() -> (ratio: Self)
        ensures
            ratio == (CameraViewportAspectRatio { width: 16, height: 9 }),
    {
        CameraViewportAspectRatio { width: 16, height: 9 }
    }
}

/// Every character of `text` is a decimal digit.
pub open spec fn all_decimal_digits(text: Seq<char>) -> bool {
    forall|index: int| 0 <= index < text.len() ==> '0' <= #[trigger] text[index] <= '9'
}

/// The number that the decimal digits `digits` write.
pub open spec fn decimal_value(digits: Seq<char>) -> int
    decreases digits.len(),
{
    if digits.len() == 0 {
        0
    } else {
        10 * decimal_value(digits.drop_last()) + (digits.last() as int - '0' as int)
    }
}

/// What `str::parse::<u16>` gives for `text`: an optional `+` and then one
/// or more decimal digits whose value fits in `u16`, or nothing.
pub open spec fn parsed_u16(text: Seq<char>) -> Option<u16> {
    let digits = if text.len() > 0 && text[0] == '+' {
        text.subrange(1, text.len() as int)
    } else {
        text
    };
    if digits.len() == 0 || !all_decimal_digits(digits) || decimal_value(digits) > u16::MAX {
        None
    } else {
        Some(decimal_value(digits) as u16)
    }
}

/// The index of the first `separator` in `text`, if there is one.
pub open spec fn first_index_of(text: Seq<char>, separator: char) -> Option<int>
    decreases text.len(),
{
    if text.len() == 0 {
        None
    } else {
        match first_index_of(text.drop_last(), separator) {
            Some(index) => Some(index),
            None => if text.last() == separator {
                Some(text.len() - 1)
            } else {
                None
            },
        }
    }
}

/// A ratio of two counts that are both at least one.
pub open spec fn positive_ratio(width: Option<u16>, height: Option<u16>) -> Option<
    CameraViewportAspectRatio,
> {
    match (width, height) {
        (Some(width), Some(height)) => if width > 0 && height > 0 {
            Some(CameraViewportAspectRatio { width, height })
        } else {
            None
        },
        _ => None,
    }
}

/// The ratio that a text such as `"4:3"` names: two counts of at least one,
/// each with optional whitespace around it, on either side of the first
/// colon.
pub open spec fn aspect_ratio_from_text(text: Seq<char>) -> Option<CameraViewportAspectRatio> {
    match first_index_of(text, ':') {
        None => None,
        Some(colon) => positive_ratio(
            parsed_u16(trimmed(text.take(colon))),
            parsed_u16(trimmed(text.skip(colon + 1))),
        ),
    }
}

/// A `u64` read from a setting, if it fits in `u16`.
pub open spec fn count_to_u16(value: Option<u64>) -> Option<u16> {
    match value {
        Some(value) => if value <= u16::MAX {
            Some(value as u16)
        } else {
            None
        },
        None => None,
    }
}

/// What an aspect-ratio setting holds, as far as it is read: either a text,
/// or the whole-number `width` and `height` fields of an object (absent when
/// the setting has no such field, or it is not a non-negative whole number).
#[derive(Debug, Clone, PartialEq, Eq)]
pub enum AspectRatioSetting {
    Text(String),
    Fields { width: Option<u64>, height: Option<u64> },
}

/// The ratio that a setting names, if it names one.
pub open spec fn aspect_ratio_from_setting(setting: AspectRatioSetting) -> Option<
    CameraViewportAspectRatio,
> {
    match setting {
        AspectRatioSetting::Text(text) => aspect_ratio_from_text(text@),
        AspectRatioSetting::Fields { width, height } => positive_ratio(
            count_to_u16(width),
            count_to_u16(height),
        ),
    }
}

/// The characters of `text`, in order.
fn text_chars(text: &str) -> (chars: Vec<char>)
    ensures
        chars@ == text@,
{
    let mut chars: Vec<char> = Vec::new();
    for character in it: text.chars()
        invariant
            it.seq() == text@,
            chars@ == text@.take(it.index()),
    {
        proof {
            assert(text@.take(it.index() + 1) =~= text@.take(it.index()).push(character));
        }
        chars.push(character);
    }
    proof {
        assert(text@.take(text@.len() as int) =~= text@);
    }
    chars
}

/// The index of the first `separator` in `chars`.
fn find_first(chars: &Vec<char>, separator: char) -> (found: Option<usize>)
    ensures
        first_index_of(chars@, separator) == match found {
            Some(index) => Some(index as int),
            None => None,
        },
        match found {
            Some(index) => index < chars@.len(),
            None => true,
        },
{
    let mut index: usize = 0;
    while index < chars.len()
        invariant
            index <= chars@.len(),
            first_index_of(chars@.take(index as int), separator) is None,
        decreases chars@.len() - index,
    {
        assert(chars@.take(index as int + 1).drop_last() =~= chars@.take(index as int));
        if chars[index] == separator {
            proof {
                lemma_first_index_extends(chars@, separator, index as int + 1);
            }
            return Some(index);
        }
        index = index + 1;
    }
    assert(chars@.take(index as int) =~= chars@);
    None
}

/// Once a prefix of `text` holds the separator, every longer prefix finds it
/// at the same place.
proof fn lemma_first_index_extends(text: Seq<char>, separator: char, length: int)
    requires
        0 < length <= text.len(),
        first_index_of(text.take(length), separator) is Some,
    ensures
        first_index_of(text, separator) == first_index_of(text.take(length), separator),
    decreases text.len() - length,
{
    if length < text.len() {
        assert(text.take(length + 1).drop_last() =~= text.take(length));
        lemma_first_index_extends(text, separator, length + 1);
    } else {
        assert(text.take(length) =~= text);
    }
}

/// What `str::parse::<u16>` gives for `chars[start..end]`.
fn parse_u16_in(chars: &Vec<char>, start: usize, end: usize) -> (value: Option<u16>)
    requires
        start <= end <= chars@.len(),
    ensures
        value == parsed_u16(chars@.subrange(start as int, end as int)),
{
    let ghost text = chars@.subrange(start as int, end as int);
    let mut first = start;
    if first < end && chars[first] == '+' {
        first = first + 1;
    }
    let ghost digits = chars@.subrange(first as int, end as int);
    assert(digits == if text.len() > 0 && text[0] == '+' {
        text.subrange(1, text.len() as int)
    } else {
        text
    });
    if first == end {
        assert(digits.len() == 0);
        return None;
    }
    let mut value: u32 = 0;
    let mut too_large = false;
    let mut index = first;
    while index < end
        invariant
            first <= index <= end <= chars@.len(),
            text == chars@.subrange(start as int, end as int),
            digits == if text.len() > 0 && text[0] == '+' {
                text.subrange(1, text.len() as int)
            } else {
                text
            },
            digits == chars@.subrange(first as int, end as int),
            all_decimal_digits(chars@.subrange(first as int, index as int)),
            too_large == (decimal_value(chars@.subrange(first as int, index as int)) > u16::MAX),
            !too_large ==> value == decimal_value(chars@.subrange(first as int, index as int)),
            value <= u16::MAX,
        decreases end - index,
    {
        let character = chars[index];
        let ghost before = chars@.subrange(first as int, index as int);
        let ghost after = chars@.subrange(first as int, index as int + 1);
        assert(after.drop_last() =~= before);
        if character < '0' || character > '9' {
            assert(!all_decimal_digits(digits)) by {
                assert(digits[index - first] == character);
            }
            assert(parsed_u16(text) is None);
            return None;
        }
        let digit = (character as u32) - ('0' as u32);
        if !too_large {
            let next = value * 10 + digit;
            if next > 65535 {
                too_large = true;
                value = 0;
            } else {
                value = next;
            }
        }
        index = index + 1;
    }
    assert(chars@.subrange(first as int, index as int) =~= digits);
    if too_large {
        None
    } else {
        Some(value as u16)
    }
}

/// The ratio that a text such as `"16:9"` names.
pub fn aspect_ratio_from_text_value(text: &str) -> (ratio: Option<CameraViewportAspectRatio>)
    ensures
        ratio == aspect_ratio_from_text(text@),
{
    let chars = text_chars(text);
    let found = find_first(&chars, ':');
    let colon = match found {
        Some(colon) => colon,
        None => return None,
    };
    assert(colon < chars@.len());
    assert(first_index_of(text@, ':') == Some(colon as int));
    let (width_start, width_end) = trim_bounds(&chars, 0, colon);
    let (height_start, height_end) = trim_bounds(&chars, colon + 1, chars.len());
    assert(chars@.subrange(0, colon as int) =~= chars@.take(colon as int));
    assert(chars@.subrange(colon + 1, chars@.len() as int) =~= chars@.skip(colon + 1));
    let width = parse_u16_in(&chars, width_start, width_end);
    let height = parse_u16_in(&chars, height_start, height_end);
    assert(width == parsed_u16(trimmed(text@.take(colon as int))));
    assert(height == parsed_u16(trimmed(text@.skip(colon + 1))));
    match (width, height) {
        (Some(width), Some(height)) => if width > 0 && height > 0 {
            Some(CameraViewportAspectRatio::new(width, height))
        } else {
            None
        },
        _ => None,
    }
}

/// The ratio that a scene's aspect-ratio setting names, if it names one:
/// a text such as `"4:3"`, or an object with whole-number `width` and
/// `height` fields, each from 1 to 65535.
pub fn parse_camera_viewport_aspect_ratio(setting: &AspectRatioSetting) -> (ratio: Option<
    CameraViewportAspectRatio,
>)
    ensures
        ratio == aspect_ratio_from_setting(*setting),
{
    match setting {
        AspectRatioSetting::Text(text) => aspect_ratio_from_text_value(text.as_str()),
        AspectRatioSetting::Fields { width, height } => {
            let width = match width {
                Some(value) => if *value <= 65535 {
                    Some(*value as u16)
                } else {
                    None
                },
                None => None,
            };
            let height = match height {
                Some(value) => if *value <= 65535 {
                    Some(*value as u16)
                } else {
                    None
                },
                None => None,
            };
            match (width, height) {
                (Some(width), Some(height)) => if width > 0 && height > 0 {
                    Some(CameraViewportAspectRatio::new(width, height))
                } else {
                    None
                },
                _ => None,
            }
        },
    }
}

} // verus!
