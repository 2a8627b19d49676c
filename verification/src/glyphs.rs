use vstd::prelude::*;

use crate::paths::{joined_with, may_be_verbatim, relative_part};
use crate::text::text_ends_with;

verus! {

/// How finely a glyph's curves are cut into segments.
#[derive(Debug, Clone, Copy, PartialEq, Eq)]
pub struct GlyphSampling {
    pub default_segments_per_curve: usize,
}

/// The characters and switches that a glyph is drawn with.
#[derive(Debug, Clone, Copy, PartialEq, Eq)]
pub struct GlyphDisplay {
    pub stroke_character: char,
    pub control_polygon_character: char,
    pub control_point_character: char,
    pub anchor_point_character: char,
    pub show_strokes: bool,
    pub show_control_points: bool,
    pub show_control_polygons: bool,
    pub show_anchor_points: bool,
    pub show_labels: bool,
}

/// The name, version and display settings of a glyph asset.
#[derive(Debug, Clone, PartialEq, Eq)]
pub struct GlyphMetadata {
    pub name: String,
    pub version: u32,
    pub display: GlyphDisplay,
}

/// The characters and switches that a word of glyphs is drawn with.
#[derive(Debug, Clone, Copy, PartialEq, Eq)]
pub struct WordDisplay {
    pub stroke_character: char,
    pub show_word_bounds: bool,
    pub word_bounds_character: char,
    pub show_glyph_bounds: bool,
    pub glyph_bounds_character: char,
    pub show_baseline: bool,
    pub baseline_character: char,
    pub show_origin: bool,
    pub origin_character: char,
    pub show_child_labels: bool,
}

/// The name, version and display settings of a word asset.
#[derive(Debug, Clone, PartialEq, Eq)]
pub struct WordMetadata {
    pub name: String,
    pub version: u32,
    pub display: WordDisplay,
}

/// The path of the glyph asset `relative_path` under `root`, the project's
/// own directory.
pub fn asset_path(root: &str, relative_path: &str) -> (path: String)
    ensures
        !may_be_verbatim(root@) && relative_part(relative_path@) ==> joined_with(
            root@,
            relative_path@,
            path@,
        ),
        !may_be_verbatim(root@) && relative_path@.len() > 0 ==> text_ends_with(
            path@,
            relative_path@,
        ),
{
    crate::paths::join_path(root, relative_path)
}

} // verus!
