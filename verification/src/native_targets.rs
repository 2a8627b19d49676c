use vstd::prelude::*;

use crate::editor_core::session::EditorEntry;
use crate::text::{ascii_lowercase_string, ascii_lowercase_text, contains_text, text_contains};

verus! {

/// What the native editor's inspector is showing.
#[derive(Clone, Debug, PartialEq, Eq)]
pub enum NativeEditorTarget {
    Scene,
    Camera,
    Object(String),
}

impl NativeEditorTarget {
    pub open spec fn spec_label(&self) -> Seq<char> {
        match self {
            NativeEditorTarget::Scene => "Scene"@,
            NativeEditorTarget::Camera => "Camera"@,
            NativeEditorTarget::Object(id) => id@,
        }
    }

    /// The name shown for the target: the object's id for an object.
    pub fn label(&self) -> (label: &str)
        ensures
            label@ == self.spec_label(),
    {
        match self {
            NativeEditorTarget::Scene => "Scene",
            NativeEditorTarget::Camera => "Camera",
            NativeEditorTarget::Object(id) => id.as_str(),
        }
    }
}

/// Whether a map asset is one of the land maps that the native editor draws
/// with its own shader.
pub fn is_native_shader_land_map(path: &str) -> (land: bool)
    ensures
        land == (text_contains(path@, "ne_50m_land"@) || text_contains(path@, "admin_0_countries"@)),
{
    contains_text(path, "ne_50m_land") || contains_text(path, "admin_0_countries")
}

/// The base colour that an object without a material of its own is drawn in.
#[derive(Clone, Copy, Debug, PartialEq, Eq, Structural)]
pub enum FallbackToonColor {
    /// Globes and spheres.
    Ocean,
    /// Teapots.
    Brick,
    /// Logos and kilometre markers.
    Gold,
    /// Anything else: the material's own default.
    Default,
}

/// The fallback colour for an object, chosen by words in its id in any
/// case of letters.
pub open spec fn spec_fallback_toon_color(object_id: Seq<char>) -> FallbackToonColor {
    let id = ascii_lowercase_text(object_id);
    if text_contains(id, "earth"@) || text_contains(id, "sphere"@) {
        FallbackToonColor::Ocean
    } else if text_contains(id, "teapot"@) {
        FallbackToonColor::Brick
    } else if text_contains(id, "km"@) || text_contains(id, "logo"@) {
        FallbackToonColor::Gold
    } else {
        FallbackToonColor::Default
    }
}

pub fn fallback_toon_color(object_id: &str) -> (color: FallbackToonColor)
    ensures
        color == spec_fallback_toon_color(object_id@),
{
    let id = ascii_lowercase_string(object_id);
    if contains_text(id.as_str(), "earth") || contains_text(id.as_str(), "sphere") {
        FallbackToonColor::Ocean
    } else if contains_text(id.as_str(), "teapot") {
        FallbackToonColor::Brick
    } else if contains_text(id.as_str(), "km") || contains_text(id.as_str(), "logo") {
        FallbackToonColor::Gold
    } else {
        FallbackToonColor::Default
    }
}

/// The bytes uploaded to the GPU in one frame, by kind of geometry.
#[derive(Clone, Copy, Debug, Default, PartialEq, Eq)]
pub struct UploadSnapshot {
    pub hull_bytes: u64,
    pub fill_bytes: u64,
    pub line_bytes: u64,
    pub geo_bytes: u64,
}

impl UploadSnapshot {
    /// The bytes of every kind together.
    pub fn total_bytes(self) -> (total: u64)
        requires
            self.hull_bytes + self.fill_bytes + self.line_bytes + self.geo_bytes <= u64::MAX,
        ensures
            total == self.hull_bytes + self.fill_bytes + self.line_bytes + self.geo_bytes,
    {
        self.hull_bytes + self.fill_bytes + self.line_bytes + self.geo_bytes
    }
}

/// What the native editor lists of a loaded object: its id, whether it is
/// shown, and whether it is one of the parts that a composite hides from
/// the editor.
#[derive(Clone, Debug, PartialEq, Eq)]
pub struct EditorObject {
    pub id: String,
    pub visible: bool,
    pub editor_hidden: bool,
}

/// The objects that the editor lists, in order: those it does not hide.
pub open spec fn listed_objects(objects: Seq<EditorObject>) -> Seq<EditorObject>
    decreases objects.len(),
{
    if objects.len() == 0 {
        Seq::empty()
    } else if objects.last().editor_hidden {
        listed_objects(objects.drop_last())
    } else {
        listed_objects(objects.drop_last()).push(objects.last())
    }
}

/// The entry of the editor for listed object `object`.
pub open spec fn object_entry_matches(entry: EditorEntry<NativeEditorTarget>, object: EditorObject) -> bool {
    &&& entry.target is Object
    &&& entry.target->Object_0@ == object.id@
    &&& entry.visible == Some(object.visible)
    &&& entry.gizmo_visible
}

/// The entries of the native editor: the scene and the camera, which have
/// no visibility, then each object that the editor does not hide, with
/// whether it is shown.
pub fn editor_entries(objects: &[EditorObject]) -> (entries: Vec<EditorEntry<NativeEditorTarget>>)
    ensures
        entries@.len() == 2 + listed_objects(objects@).len(),
        entries@[0] == (EditorEntry { target: NativeEditorTarget::Scene, visible: None, gizmo_visible: true }),
        entries@[1] == (EditorEntry { target: NativeEditorTarget::Camera, visible: None, gizmo_visible: true }),
        forall|i: int|
            0 <= i < listed_objects(objects@).len() ==> object_entry_matches(
                #[trigger] entries@[2 + i],
                listed_objects(objects@)[i],
            ),
{
    let mut entries: Vec<EditorEntry<NativeEditorTarget>> = Vec::new();
    entries.push(EditorEntry::new(NativeEditorTarget::Scene, None));
    entries.push(EditorEntry::new(NativeEditorTarget::Camera, None));
    let mut index: usize = 0;
    while index < objects.len()
        invariant
            index <= objects@.len(),
            entries@.len() == 2 + listed_objects(objects@.take(index as int)).len(),
            entries@[0] == (EditorEntry { target: NativeEditorTarget::Scene, visible: None, gizmo_visible: true }),
            entries@[1] == (EditorEntry { target: NativeEditorTarget::Camera, visible: None, gizmo_visible: true }),
            forall|i: int|
                0 <= i < listed_objects(objects@.take(index as int)).len() ==> object_entry_matches(
                    #[trigger] entries@[2 + i],
                    listed_objects(objects@.take(index as int))[i],
                ),
        decreases objects@.len() - index,
    {
        let ghost listed = listed_objects(objects@.take(index as int));
        assert(objects@.take(index + 1).drop_last() =~= objects@.take(index as int));
        let object = &objects[index];
        if !object.editor_hidden {
            let id = object.id.clone();
            let ghost before = entries@;
            entries.push(EditorEntry::new(NativeEditorTarget::Object(id), Some(object.visible)));
            assert forall|i: int|
                0 <= i < listed_objects(objects@.take(index + 1)).len() implies object_entry_matches(
                #[trigger] entries@[2 + i],
                listed_objects(objects@.take(index + 1))[i],
            ) by {
                if i < listed.len() {
                    assert(entries@[2 + i] == before[2 + i]);
                }
            }
        }
        index = index + 1;
    }
    assert(objects@.take(objects@.len() as int) =~= objects@);
    entries
}

/// How many of the faces along an edge face the camera.
pub open spec fn front_count(front_facing: Seq<bool>) -> nat
    decreases front_facing.len(),
{
    if front_facing.len() == 0 {
        0
    } else {
        front_count(front_facing.drop_last()) + if front_facing.last() {
            1nat
        } else {
            0nat
        }
    }
}

/// The number of faces facing the camera among the first `count`.
fn count_front(front_facing: &[bool]) -> (count: usize)
    ensures
        count == front_count(front_facing@),
{
    let mut count: usize = 0;
    let mut index: usize = 0;
    while index < front_facing.len()
        invariant
            index <= front_facing@.len(),
            count == front_count(front_facing@.take(index as int)),
            count <= index,
        decreases front_facing@.len() - index,
    {
        assert(front_facing@.take(index + 1).drop_last() =~= front_facing@.take(index as int));
        if front_facing[index] {
            count = count + 1;
        }
        index = index + 1;
    }
    assert(front_facing@.take(front_facing@.len() as int) =~= front_facing@);
    count
}

/// An edge is drawn as part of the outline when exactly one of the faces
/// along it faces the camera; `front_facing` says of each face whether it
/// does.
pub fn is_silhouette_edge(front_facing: &[bool]) -> (silhouette: bool)
    ensures
        silhouette == (front_count(front_facing@) == 1),
{
    if front_facing.len() == 0 {
        assert(front_count(front_facing@) == 0);
        false
    } else if front_facing.len() == 1 {
        proof {
            assert(front_count(front_facing@.drop_last()) == 0);
            assert(front_facing@.last() == front_facing@[0]);
        }
        front_facing[0]
    } else {
        count_front(front_facing) == 1
    }
}

/// The places of the first two faces in `front_facing` that face the camera.
pub open spec fn first_two_front(front_facing: Seq<bool>, first: int, second: int) -> bool {
    &&& 0 <= first < second < front_facing.len()
    &&& front_facing[first]
    &&& front_facing[second]
    &&& forall|k: int| 0 <= k < second && k != first ==> !front_facing[k]
}

/// An edge may be a crease only where exactly two of its faces face the
/// camera; then their places are returned, for the angle between their
/// normals to decide.
pub fn crease_face_pair(front_facing: &[bool]) -> (pair: Option<(usize, usize)>)
    ensures
        pair is Some <==> front_count(front_facing@) == 2,
        pair matches Some((first, second)) ==> first_two_front(
            front_facing@,
            first as int,
            second as int,
        ),
{
    if front_facing.len() < 2 {
        proof {
            lemma_front_count_bound(front_facing@);
        }
        return None;
    }
    if count_front(front_facing) != 2 {
        return None;
    }
    let mut found: Vec<usize> = Vec::new();
    let mut index: usize = 0;
    while index < front_facing.len()
        invariant
            index <= front_facing@.len(),
            found@.len() == front_count(front_facing@.take(index as int)),
            front_count(front_facing@) == 2,
            forall|k: int| 0 <= k < found@.len() ==> #[trigger] found@[k] < index && front_facing@[found@[k] as int],
            forall|k: int, l: int| 0 <= k < l < found@.len() ==> #[trigger] found@[k] < #[trigger] found@[l],
            forall|m: int|
                0 <= m < index && front_facing@[m] ==> exists|k: int| 0 <= k < found@.len() && #[trigger] found@[k] == m,
        decreases front_facing@.len() - index,
    {
        assert(front_facing@.take(index + 1).drop_last() =~= front_facing@.take(index as int));
        proof {
            lemma_front_count_prefix(front_facing@, index as int + 1);
        }
        let ghost before = found@;
        if front_facing[index] {
            found.push(index);
        }
        assert forall|m: int| 0 <= m < index + 1 && front_facing@[m] implies exists|k: int|
            0 <= k < found@.len() && #[trigger] found@[k] == m by {
            if m < index {
                let k = choose|k: int| 0 <= k < before.len() && #[trigger] before[k] == m;
                assert(found@[k] == before[k]);
            } else {
                assert(found@[found@.len() - 1] == m);
            }
        }
        index = index + 1;
    }
    assert(front_facing@.take(front_facing@.len() as int) =~= front_facing@);
    let first = found[0];
    let second = found[1];
    assert forall|k: int| 0 <= k < second && k != first implies !front_facing@[k] by {
        if front_facing@[k] {
            let j = choose|j: int| 0 <= j < found@.len() && #[trigger] found@[j] == k;
            assert(j == 0 || j == 1);
        }
    }
    Some((first, second))
}

/// No more faces face the camera than there are faces.
proof fn lemma_front_count_bound(front_facing: Seq<bool>)
    ensures
        front_count(front_facing) <= front_facing.len(),
    decreases front_facing.len(),
{
    if front_facing.len() > 0 {
        lemma_front_count_bound(front_facing.drop_last());
    }
}

/// A prefix has no more faces facing the camera than the whole.
proof fn lemma_front_count_prefix(front_facing: Seq<bool>, length: int)
    requires
        0 <= length <= front_facing.len(),
    ensures
        front_count(front_facing.take(length)) <= front_count(front_facing),
    decreases front_facing.len() - length,
{
    if length < front_facing.len() {
        assert(front_facing.take(length + 1).drop_last() =~= front_facing.take(length));
        lemma_front_count_prefix(front_facing, length + 1);
    } else {
        assert(front_facing.take(length) =~= front_facing);
    }
}

} // verus!
