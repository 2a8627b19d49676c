use vstd::prelude::*;
use vstd::string::{StrSliceExecFns, StringExecFns};

use crate::scene_files::{direct_parent_id, last_index_of, spec_direct_parent_id};
use crate::text::{chars_of, decimal_string, decimal_text, is_whitespace, spec_is_whitespace};

verus! {

/// The `.a3d` manifest version that this reader understands.
pub const SUPPORTED_A3D_VERSION: u32 = 1;

/// Every character of `text` is whitespace, so that `str::trim` leaves
/// nothing.
pub open spec fn is_blank(text: Seq<char>) -> bool {
    forall|index: int| 0 <= index < text.len() ==> spec_is_whitespace(#[trigger] text[index])
}

/// Whether `text` is empty once trimmed.
pub fn blank(text: &str) -> (empty: bool)
    ensures
        empty == is_blank(text@),
{
    let chars = chars_of(text);
    let mut index: usize = 0;
    while index < chars.len()
        invariant
            chars@ == text@,
            index <= chars@.len(),
            forall|k: int| 0 <= k < index ==> spec_is_whitespace(#[trigger] chars@[k]),
        decreases chars@.len() - index,
    {
        if !is_whitespace(chars[index]) {
            return false;
        }
        index = index + 1;
    }
    true
}

/// What the validation of a `.a3d` manifest reads: its version, its title
/// and the ids of its objects.
pub struct ManifestSummary {
    pub version: u32,
    pub title: String,
    pub object_ids: Vec<String>,
}

/// Some object id of `ids` is blank.
pub open spec fn has_blank_id(ids: Seq<String>) -> bool {
    exists|index: int| 0 <= index < ids.len() && is_blank(#[trigger] ids[index]@)
}

/// The error that validation reports for a manifest, if any: a version other
/// than the supported one first, then a blank title, then a blank object id.
pub open spec fn manifest_error(summary: ManifestSummary) -> Option<Seq<char>> {
    if summary.version != SUPPORTED_A3D_VERSION {
        Some(
            "unsupported .a3d version "@ + decimal_text(summary.version as nat)
                + "; supported version is "@ + decimal_text(SUPPORTED_A3D_VERSION as nat),
        )
    } else if is_blank(summary.title@) {
        Some(".a3d title must not be empty"@)
    } else if has_blank_id(summary.object_ids@) {
        Some(".a3d object id must not be empty"@)
    } else {
        None
    }
}

impl ManifestSummary {
    /// Checks the manifest's version, title and object ids.
    pub fn validate(&self) -> (checked: Result<(), String>)
        ensures
            match manifest_error(*self) {
                Some(message) => checked is Err && checked->Err_0@ == message,
                None => checked is Ok,
            },
    {
        if self.version != SUPPORTED_A3D_VERSION {
            let mut message = "unsupported .a3d version ".to_owned();
            message.append(decimal_string(self.version as usize).as_str());
            message.append("; supported version is ");
            message.append(decimal_string(SUPPORTED_A3D_VERSION as usize).as_str());
            return Err(message);
        }
        if blank(self.title.as_str()) {
            return Err(".a3d title must not be empty".to_owned());
        }
        let mut index: usize = 0;
        while index < self.object_ids.len()
            invariant
                self.version == SUPPORTED_A3D_VERSION,
                !is_blank(self.title@),
                index <= self.object_ids@.len(),
                forall|k: int| 0 <= k < index ==> !is_blank(#[trigger] self.object_ids@[k]@),
            decreases self.object_ids@.len() - index,
        {
            if blank(self.object_ids[index].as_str()) {
                assert(is_blank(self.object_ids@[index as int]@));
                return Err(".a3d object id must not be empty".to_owned());
            }
            index = index + 1;
        }
        Ok(())
    }
}

/// The id of an object placed in a group: the group's id, a `/`, and the
/// object's own id; the object's id alone at the top level.
pub open spec fn spec_qualified_id(prefix: Seq<char>, id: Seq<char>) -> Seq<char> {
    if prefix.len() == 0 {
        id
    } else {
        prefix + seq!['/'] + id
    }
}

pub fn qualified_id(prefix: &str, id: &str) -> (qualified: String)
    ensures
        qualified@ == spec_qualified_id(prefix@, id@),
{
    if prefix.unicode_len() == 0 {
        id.to_owned()
    } else {
        let mut qualified = prefix.to_owned();
        crate::text::push_char(&mut qualified, '/');
        qualified.append(id);
        qualified
    }
}

/// The last `/` of a text is at its end or before it.
proof fn lemma_last_index_in_text(text: Seq<char>, separator: char)
    ensures
        match last_index_of(text, separator) {
            Some(index) => 0 <= index < text.len() && text[index] == separator && forall|k: int|
                index < k < text.len() ==> text[k] != separator,
            None => forall|k: int| 0 <= k < text.len() ==> text[k] != separator,
        },
    decreases text.len(),
{
    if text.len() > 0 && text.last() != separator {
        let rest = text.drop_last();
        lemma_last_index_in_text(rest, separator);
        assert forall|k: int| 0 <= k < rest.len() implies rest[k] == text[k] by {}
        match last_index_of(rest, separator) {
            Some(index) => {
                assert forall|k: int| index < k < text.len() implies text[k] != separator by {
                    if k < rest.len() {
                        assert(rest[k] == text[k]);
                    }
                }
            },
            None => {
                assert forall|k: int| 0 <= k < text.len() implies text[k] != separator by {
                    if k < rest.len() {
                        assert(rest[k] == text[k]);
                    }
                }
            },
        }
    }
}

/// An object placed in a group names that group as its parent, when its
/// own id has no `/`.
pub proof fn law_parent_of_qualified_id(prefix: Seq<char>, id: Seq<char>)
    requires
        prefix.len() > 0,
        forall|k: int| 0 <= k < id.len() ==> id[k] != '/',
    ensures
        spec_direct_parent_id(spec_qualified_id(prefix, id)) == Some(prefix),
{
    let qualified = spec_qualified_id(prefix, id);
    lemma_last_index_in_text(qualified, '/');
    let slash = prefix.len() as int;
    assert(qualified[slash] == '/');
    match last_index_of(qualified, '/') {
        Some(index) => {
            if index > slash {
                assert(qualified[index] == id[index - slash - 1]);
            }
            assert(index >= slash);
            assert(qualified.take(slash) =~= prefix);
        },
        None => {
            assert(qualified[slash] != '/');
        },
    }
}

/// Whether each object of a scene is shown, by id.
pub struct ObjectVisibility {
    pub id: String,
    pub visible: bool,
}

/// Whether the first object with id `id` is shown, if there is one.
pub open spec fn lookup_visible(objects: Seq<ObjectVisibility>, id: Seq<char>) -> Option<bool>
    decreases objects.len(),
{
    if objects.len() == 0 {
        None
    } else {
        match lookup_visible(objects.drop_last(), id) {
            Some(visible) => Some(visible),
            None => if objects.last().id@ == id {
                Some(objects.last().visible)
            } else {
                None
            },
        }
    }
}

/// Every ancestor of `id` up to the first one missing from the scene is
/// shown.
pub open spec fn ancestors_visible(objects: Seq<ObjectVisibility>, id: Seq<char>) -> bool
    decreases id.len(),
{
    match last_index_of(id, '/') {
        None => true,
        Some(slash) => {
            if 0 <= slash < id.len() {
                let parent = id.take(slash);
                match lookup_visible(objects, parent) {
                    None => true,
                    Some(visible) => visible && ancestors_visible(objects, parent),
                }
            } else {
                true
            }
        },
    }
}

/// An object is shown when it is in the scene, is itself shown, and so is
/// every ancestor up to the first one missing from the scene.
pub open spec fn spec_effectively_visible(objects: Seq<ObjectVisibility>, id: Seq<char>) -> bool {
    match lookup_visible(objects, id) {
        None => false,
        Some(visible) => visible && ancestors_visible(objects, id),
    }
}

/// Whether the first object with id `id` is shown.
fn find_visible(objects: &Vec<ObjectVisibility>, id: &String) -> (visible: Option<bool>)
    ensures
        visible == lookup_visible(objects@, id@),
{
    let mut index: usize = 0;
    while index < objects.len()
        invariant
            index <= objects@.len(),
            lookup_visible(objects@.take(index as int), id@) is None,
        decreases objects@.len() - index,
    {
        assert(objects@.take(index + 1).drop_last() =~= objects@.take(index as int));
        if objects[index].id == *id {
            proof {
                lemma_lookup_extends(objects@, id@, index as int + 1);
            }
            return Some(objects[index].visible);
        }
        index = index + 1;
    }
    assert(objects@.take(index as int) =~= objects@);
    None
}

/// Once a prefix of the objects has `id`, every longer prefix finds the
/// same object.
proof fn lemma_lookup_extends(objects: Seq<ObjectVisibility>, id: Seq<char>, length: int)
    requires
        0 < length <= objects.len(),
        lookup_visible(objects.take(length), id) is Some,
    ensures
        lookup_visible(objects, id) == lookup_visible(objects.take(length), id),
    decreases objects.len() - length,
{
    if length < objects.len() {
        assert(objects.take(length + 1).drop_last() =~= objects.take(length));
        lemma_lookup_extends(objects, id, length + 1);
    } else {
        assert(objects.take(length) =~= objects);
    }
}

/// Whether the object `id` is drawn: it is in the scene and shown, and so is
/// each ancestor up to the first one missing.
pub fn object_effectively_visible(objects: &Vec<ObjectVisibility>, id: &str) -> (visible: bool)
    ensures
        visible == spec_effectively_visible(objects@, id@),
{
    let own = id.to_owned();
    match find_visible(objects, &own) {
        None => return false,
        Some(false) => return false,
        Some(true) => {},
    }
    proof {
        lemma_last_index_in_text(id@, '/');
    }
    let mut ancestor = direct_parent_id(id);
    let ghost mut current: Seq<char> = id@;
    while ancestor.is_some()
        invariant
            lookup_visible(objects@, id@) == Some(true),
            ancestors_visible(objects@, id@) == ancestors_visible(objects@, current),
            match spec_direct_parent_id(current) {
                Some(expected) => ancestor is Some && ancestor->0@ == expected,
                None => ancestor is None,
            },
        decreases current.len(),
    {
        let parent = match ancestor {
            Some(parent) => parent,
            None => return true,
        };
        proof {
            lemma_last_index_in_text(current, '/');
            lemma_last_index_in_text(parent@, '/');
        }
        match find_visible(objects, &parent) {
            None => return true,
            Some(false) => return false,
            Some(true) => {},
        }
        ancestor = direct_parent_id(parent.as_str());
        proof {
            current = parent@;
        }
    }
    true
}

/// `index` is the first place of an object with id `id`.
pub open spec fn is_first_with_id(objects: Seq<ObjectVisibility>, id: Seq<char>, index: int) -> bool {
    &&& 0 <= index < objects.len()
    &&& objects[index].id@ == id
    &&& forall|j: int| 0 <= j < index ==> objects[j].id@ != id
}

/// The lookup by id finds the first object with that id, and nothing where
/// none has it.
proof fn lemma_lookup_is_first(objects: Seq<ObjectVisibility>, id: Seq<char>)
    ensures
        lookup_visible(objects, id) is None <==> forall|j: int|
            0 <= j < objects.len() ==> objects[j].id@ != id,
        forall|index: int|
            is_first_with_id(objects, id, index) ==> lookup_visible(objects, id) == Some(
                objects[index].visible,
            ),
    decreases objects.len(),
{
    if objects.len() > 0 {
        let rest = objects.drop_last();
        lemma_lookup_is_first(rest, id);
        assert forall|index: int| is_first_with_id(objects, id, index) implies lookup_visible(
            objects,
            id,
        ) == Some(objects[index].visible) by {
            if index < objects.len() - 1 {
                assert(is_first_with_id(rest, id, index));
            } else {
                assert forall|j: int| 0 <= j < rest.len() implies rest[j].id@ != id by {
                    assert(objects[j].id@ != id);
                }
            }
        }
        if lookup_visible(objects, id) is None {
            assert forall|j: int| 0 <= j < objects.len() implies objects[j].id@ != id by {
                if j < objects.len() - 1 {
                    assert(rest[j] == objects[j]);
                }
            }
        }
    }
}

/// Flips whether the first object with id `id` is shown, and returns
/// whether it now is; nothing where no object has that id.
pub fn toggle_object_visibility(objects: &mut Vec<ObjectVisibility>, id: &str) -> (visible:
    Option<bool>)
    ensures
        visible == match lookup_visible(old(objects)@, id@) {
            Some(shown) => Some(!shown),
            None => None,
        },
        final(objects)@.len() == old(objects)@.len(),
        forall|i: int|
            #![trigger final(objects)@[i]]
            0 <= i < old(objects)@.len() ==> {
                &&& final(objects)@[i].id@ == old(objects)@[i].id@
                &&& final(objects)@[i].visible == if is_first_with_id(old(objects)@, id@, i) {
                    !old(objects)@[i].visible
                } else {
                    old(objects)@[i].visible
                }
            },
{
    let own = id.to_owned();
    let mut index: usize = 0;
    while index < objects.len()
        invariant
            index <= objects@.len(),
            objects@ == old(objects)@,
            own@ == id@,
            forall|j: int| 0 <= j < index ==> objects@[j].id@ != id@,
        decreases objects@.len() - index,
    {
        if objects[index].id == own {
            assert(is_first_with_id(objects@, id@, index as int));
            proof {
                lemma_lookup_is_first(objects@, id@);
            }
            let ghost before = objects@;
            let shown = !objects[index].visible;
            objects[index].visible = shown;
            proof {
                assert forall|i: int| 0 <= i < before.len() && i != index implies !is_first_with_id(
                    before,
                    id@,
                    i,
                ) by {
                    if i > index && is_first_with_id(before, id@, i) {
                        assert(before[index as int].id@ == id@);
                    }
                }
            }
            return Some(shown);
        }
        index = index + 1;
    }
    proof {
        lemma_lookup_is_first(objects@, id@);
        assert forall|i: int| 0 <= i < objects@.len() implies !is_first_with_id(objects@, id@, i) by {
            assert(objects@[i].id@ != id@);
        }
    }
    None
}

/// Flipping an object's visibility twice shows it as it was, and every
/// object keeps its id.
pub proof fn law_toggle_visibility_twice_restores(
    before: Seq<ObjectVisibility>,
    once: Seq<ObjectVisibility>,
    twice: Seq<ObjectVisibility>,
    id: Seq<char>,
)
    requires
        once.len() == before.len(),
        twice.len() == once.len(),
        forall|i: int|
            #![trigger once[i]]
            0 <= i < before.len() ==> {
                &&& once[i].id@ == before[i].id@
                &&& once[i].visible == if is_first_with_id(before, id, i) {
                    !before[i].visible
                } else {
                    before[i].visible
                }
            },
        forall|i: int|
            #![trigger twice[i]]
            0 <= i < once.len() ==> {
                &&& twice[i].id@ == once[i].id@
                &&& twice[i].visible == if is_first_with_id(once, id, i) {
                    !once[i].visible
                } else {
                    once[i].visible
                }
            },
    ensures
        forall|i: int|
            #![trigger twice[i]]
            0 <= i < before.len() ==> twice[i].id@ == before[i].id@ && twice[i].visible
                == before[i].visible,
{
    assert forall|i: int| #![trigger twice[i]] 0 <= i < before.len() implies twice[i].id@
        == before[i].id@ && twice[i].visible == before[i].visible by {
        assert(once[i].id@ == before[i].id@);
        assert(twice[i].id@ == once[i].id@);
        if is_first_with_id(before, id, i) {
            assert(is_first_with_id(once, id, i)) by {
                assert forall|j: int| 0 <= j < i implies once[j].id@ != id by {
                    assert(once[j].id@ == before[j].id@);
                }
            }
        } else if is_first_with_id(once, id, i) {
            assert(is_first_with_id(before, id, i)) by {
                assert forall|j: int| 0 <= j < i implies before[j].id@ != id by {
                    assert(once[j].id@ == before[j].id@);
                }
            }
        }
    }
}

/// What a scene file says of one object, for one whole-number render
/// setting: its id where that is text, and the setting where it is a whole
/// number.
#[derive(Debug, Clone, PartialEq, Eq)]
pub struct RenderSettingEntry {
    pub id: Option<String>,
    pub value: Option<u64>,
}

/// The setting of the first object with id `object_id`: `None` where no
/// object has that id, else what that object says, which may be nothing.
pub open spec fn first_setting(entries: Seq<RenderSettingEntry>, object_id: Seq<char>) -> Option<
    Option<u64>,
>
    decreases entries.len(),
{
    if entries.len() == 0 {
        None
    } else {
        match entries[0].id {
            Some(id) if id@ == object_id => Some(entries[0].value),
            _ => first_setting(entries.drop_first(), object_id),
        }
    }
}

/// A whole-number render setting of object `object_id` as the scene file
/// gives it: the value of the first object with that id where it is
/// positive and fits a `usize`, else `default_value`, which is also the
/// answer where the scene's object list could not be read.
pub open spec fn spec_render_setting(
    entries: Option<Seq<RenderSettingEntry>>,
    object_id: Seq<char>,
    default_value: usize,
) -> usize {
    match entries {
        None => default_value,
        Some(entries) => match first_setting(entries, object_id) {
            Some(Some(value)) => if 0 < value <= usize::MAX {
                value as usize
            } else {
                default_value
            },
            _ => default_value,
        },
    }
}

/// The first object of `entries` from `start` on with id `object_id`.
fn find_setting(entries: &Vec<RenderSettingEntry>, object_id: &String, start: usize) -> (found:
    Option<Option<u64>>)
    requires
        start <= entries@.len(),
    ensures
        found == first_setting(entries@.subrange(start as int, entries@.len() as int), object_id@),
    decreases entries@.len() - start,
{
    let ghost rest = entries@.subrange(start as int, entries@.len() as int);
    if start == entries.len() {
        return None;
    }
    assert(rest.drop_first() =~= entries@.subrange(start + 1, entries@.len() as int));
    let matches = match &entries[start].id {
        Some(id) => *id == *object_id,
        None => false,
    };
    if matches {
        Some(entries[start].value)
    } else {
        find_setting(entries, object_id, start + 1)
    }
}

/// A whole-number render setting of object `object_id`; see
/// `spec_render_setting`.
pub fn render_setting(
    entries: Option<&Vec<RenderSettingEntry>>,
    object_id: &str,
    default_value: usize,
) -> (value: usize)
    ensures
        value == spec_render_setting(
            match entries {
                Some(entries) => Some(entries@),
                None => None,
            },
            object_id@,
            default_value,
        ),
{
    let entries = match entries {
        Some(entries) => entries,
        None => return default_value,
    };
    let own = object_id.to_owned();
    assert(entries@.subrange(0, entries@.len() as int) =~= entries@);
    match find_setting(entries, &own, 0) {
        Some(Some(value)) => if 0 < value && value <= usize::MAX as u64 {
            value as usize
        } else {
            default_value
        },
        _ => default_value,
    }
}

} // verus!
