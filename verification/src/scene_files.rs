use vstd::prelude::*;

use crate::text::{
    ascii_lowercase_string, ascii_lowercase_text, chars_of, ends_with_text, text_ends_with,
};

verus! {

/// The index of the last `separator` in `text`, if there is one.
pub open spec fn last_index_of(text: Seq<char>, separator: char) -> Option<int>
    decreases text.len(),
{
    if text.len() == 0 {
        None
    } else if text.last() == separator {
        Some(text.len() - 1)
    } else {
        last_index_of(text.drop_last(), separator)
    }
}

/// The extension of a file name, as `Path::extension` documents it: the text
/// after the last `.`, unless there is no `.` or the only one starts the
/// name.
pub open spec fn file_extension(name: Seq<char>) -> Option<Seq<char>> {
    match last_index_of(name, '.') {
        Some(dot) => if dot > 0 {
            Some(name.skip(dot + 1))
        } else {
            None
        },
        None => None,
    }
}

/// `a` and `b` are the same text up to the case of ASCII letters.
pub open spec fn same_ignoring_ascii_case(a: Seq<char>, b: Seq<char>) -> bool {
    ascii_lowercase_text(a) == ascii_lowercase_text(b)
}

/// A file name that names a scene: `scene.a3d` or any `.scene.json` file,
/// in any case of letters.
pub open spec fn is_canonical_scene_name(name: Seq<char>) -> bool {
    same_ignoring_ascii_case(name, "scene.a3d"@) || text_ends_with(
        ascii_lowercase_text(name),
        ".scene.json"@,
    )
}

/// A file name that the scene picker offers: a canonical scene name, or any
/// file whose extension is `a3d` in any case of letters.
pub open spec fn is_supported_scene_name(name: Seq<char>) -> bool {
    is_canonical_scene_name(name) || match file_extension(name) {
        Some(extension) => same_ignoring_ascii_case(extension, "a3d"@),
        None => false,
    }
}

/// The index of the last `separator` in `chars`.
fn find_last(chars: &Vec<char>, separator: char) -> (found: Option<usize>)
    ensures
        last_index_of(chars@, separator) == match found {
            Some(index) => Some(index as int),
            None => None,
        },
        match found {
            Some(index) => index < chars@.len(),
            None => true,
        },
{
    let mut end = chars.len();
    assert(chars@.take(end as int) =~= chars@);
    while end > 0
        invariant
            end <= chars@.len(),
            last_index_of(chars@, separator) == last_index_of(chars@.take(end as int), separator),
        decreases end,
    {
        assert(chars@.take(end as int).drop_last() =~= chars@.take(end as int - 1));
        if chars[end - 1] == separator {
            return Some(end - 1);
        }
        end = end - 1;
    }
    None
}

/// Whether `a` and `b` are the same up to the case of ASCII letters.
fn eq_ignore_ascii_case(a: &str, b: &str) -> (same: bool)
    ensures
        same == same_ignoring_ascii_case(a@, b@),
{
    let lower_a = ascii_lowercase_string(a);
    let lower_b = ascii_lowercase_string(b);
    lower_a == lower_b
}

/// Whether `file_name`, the last part of a path, names a built-in scene.
pub fn is_canonical_built_in_scene_path(file_name: &str) -> (canonical: bool)
    ensures
        canonical == is_canonical_scene_name(file_name@),
{
    let lower = ascii_lowercase_string(file_name);
    eq_ignore_ascii_case(file_name, "scene.a3d") || ends_with_text(lower.as_str(), ".scene.json")
}

/// The extension of a file name, as `Path::extension` gives it.
pub fn extension_of(file_name: &str) -> (extension: Option<String>)
    ensures
        match file_extension(file_name@) {
            Some(expected) => extension is Some && extension->0@ == expected,
            None => extension is None,
        },
{
    let chars = chars_of(file_name);
    let length = chars.len();
    match find_last(&chars, '.') {
        Some(dot) => if dot > 0 {
            let mut extension = String::new();
            let mut index = dot + 1;
            while index < chars.len()
                invariant
                    length == chars@.len(),
                    dot < index <= chars@.len(),
                    extension@ == chars@.subrange(dot + 1, index as int),
                decreases chars@.len() - index,
            {
                crate::text::push_char(&mut extension, chars[index]);
                assert(chars@.subrange(dot + 1, index + 1) =~= chars@.subrange(dot + 1, index as int).push(chars@[index as int]));
                index = index + 1;
            }
            assert(chars@.subrange(dot + 1, index as int) =~= file_name@.skip(dot + 1));
            Some(extension)
        } else {
            None
        },
        None => None,
    }
}

/// Whether `file_name`, the last part of a path, is a scene that the picker
/// offers.
pub fn is_supported_scene_path(file_name: &str) -> (supported: bool)
    ensures
        supported == is_supported_scene_name(file_name@),
{
    if is_canonical_built_in_scene_path(file_name) {
        return true;
    }
    match extension_of(file_name) {
        Some(extension) => eq_ignore_ascii_case(extension.as_str(), "a3d"),
        None => false,
    }
}

/// The id of the parent of a scene object whose id is a `/`-separated path:
/// the text before the last `/`, or nothing at the top level.
pub open spec fn spec_direct_parent_id(id: Seq<char>) -> Option<Seq<char>> {
    match last_index_of(id, '/') {
        Some(slash) => Some(id.take(slash)),
        None => None,
    }
}

pub fn direct_parent_id(id: &str) -> (parent: Option<String>)
    ensures
        match spec_direct_parent_id(id@) {
            Some(expected) => parent is Some && parent->0@ == expected,
            None => parent is None,
        },
{
    let chars = chars_of(id);
    match find_last(&chars, '/') {
        Some(slash) => {
            let mut parent = String::new();
            let mut index: usize = 0;
            while index < slash
                invariant
                    slash < chars@.len(),
                    index <= slash,
                    parent@ == chars@.take(index as int),
                decreases slash - index,
            {
                crate::text::push_char(&mut parent, chars[index]);
                assert(chars@.take(index + 1) =~= chars@.take(index as int).push(chars@[index as int]));
                index = index + 1;
            }
            Some(parent)
        },
        None => None,
    }
}

/// How many segments a glyph curve is cut into when a scene names no number.
pub fn default_curve_segments() -> (segments: usize)
    ensures
        segments == 16,
{
    16
}

/// Whether a map overlay shows when a scene does not say.
pub fn default_map_overlay_visible() -> (visible: bool)
    ensures
        visible,
{
    true
}

} // verus!
