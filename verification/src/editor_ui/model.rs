use vstd::prelude::*;
use vstd::string::StringExecFns;

verus! {

/// The stable identity of an editor target.
#[derive(Clone, Debug, PartialEq, Eq, Hash)]
pub struct EditorTargetKey(pub String);

impl EditorTargetKey {
    pub fn new(value: &str) -> (key: Self)
        ensures
            key.0@ == value@,
    {
        Self(value.to_owned())
    }
}

/// An exact copy of `key`.
pub fn copy_key(key: &EditorTargetKey) -> (copy: EditorTargetKey)
    ensures
        copy == *key,
{
    EditorTargetKey(key.0.clone())
}

/// What kind of thing an editor target is.
#[derive(Clone, Copy, Debug, PartialEq, Eq, Hash)]
pub enum EditorTargetKind {
    Camera,
    SceneOrigin,
    Light,
    WorldAxes,
    Group,
    Mesh,
    QuadGroup,
    GeoJsonMap,
    SphereGuide,
    Other,
}

impl EditorTargetKind {
    /// The short name shown after an item's label.
    pub open spec fn spec_label(self) -> Seq<char> {
        match self {
            EditorTargetKind::Camera => "camera"@,
            EditorTargetKind::SceneOrigin => "origin"@,
            EditorTargetKind::Light => "light"@,
            EditorTargetKind::WorldAxes => "axes"@,
            EditorTargetKind::Group => "group"@,
            EditorTargetKind::Mesh => "mesh"@,
            EditorTargetKind::QuadGroup => "quads"@,
            EditorTargetKind::GeoJsonMap => "map"@,
            EditorTargetKind::SphereGuide => "guide"@,
            EditorTargetKind::Other => "object"@,
        }
    }

    pub fn label(self) -> (label: &'static str)
        ensures
            label@ == self.spec_label(),
    {
        match self {
            Self::Camera => "camera",
            Self::SceneOrigin => "origin",
            Self::Light => "light",
            Self::WorldAxes => "axes",
            Self::Group => "group",
            Self::Mesh => "mesh",
            Self::QuadGroup => "quads",
            Self::GeoJsonMap => "map",
            Self::SphereGuide => "guide",
            Self::Other => "object",
        }
    }
}

/// An object that the editor can select, inspect and act on.
#[derive(Clone, Debug, PartialEq, Eq, Hash)]
pub struct EditorTarget {
    pub key: EditorTargetKey,
    pub id: String,
    pub path: String,
    pub kind: EditorTargetKind,
}

impl EditorTarget {
    pub fn new(key: &str, id: &str, path: &str, kind: EditorTargetKind) -> (target: Self)
        ensures
            target.key.0@ == key@,
            target.id@ == id@,
            target.path@ == path@,
            target.kind == kind,
    {
        Self { key: EditorTargetKey::new(key), id: id.to_owned(), path: path.to_owned(), kind }
    }
}

/// An exact copy of `target`.
pub fn copy_target(target: &EditorTarget) -> (copy: EditorTarget)
    ensures
        copy == *target,
{
    EditorTarget {
        key: copy_key(&target.key),
        id: target.id.clone(),
        path: target.path.clone(),
        kind: target.kind,
    }
}

/// A set of editing capabilities, one bit each.
#[derive(Clone, Copy, Debug, Default, PartialEq, Eq)]
pub struct EditorCapabilities(pub u16);

impl EditorCapabilities {
    /// The visibility capability alone.
    pub fn visibility() -> (capability: Self)
        ensures
            capability.0 == 1,
    {
        Self(1)
    }

    /// The translate capability alone.
    pub fn translate() -> (capability: Self)
        ensures
            capability.0 == 2,
    {
        Self(2)
    }

    /// The rotate capability alone.
    pub fn rotate() -> (capability: Self)
        ensures
            capability.0 == 4,
    {
        Self(4)
    }

    /// The scale capability alone.
    pub fn scale() -> (capability: Self)
        ensures
            capability.0 == 8,
    {
        Self(8)
    }

    /// The dolly capability alone.
    pub fn dolly() -> (capability: Self)
        ensures
            capability.0 == 16,
    {
        Self(16)
    }

    /// The reset capability alone.
    pub fn reset() -> (capability: Self)
        ensures
            capability.0 == 32,
    {
        Self(32)
    }


    /// Every capability of `capability` is in `self`.
    pub open spec fn spec_contains(self, capability: Self) -> bool {
        self.0 & capability.0 == capability.0
    }

    pub fn empty() -> (none: Self)
        ensures
            none.0 == 0,
    {
        Self(0)
    }

    pub fn contains(self, capability: Self) -> (all: bool)
        ensures
            all == self.spec_contains(capability),
    {
        self.0 & capability.0 == capability.0
    }

    pub fn union(self, capability: Self) -> (both: Self)
        ensures
            both.0 == self.0 | capability.0,
    {
        Self(self.0 | capability.0)
    }
}

/// A union holds both of its parts, and the empty set holds only the empty
/// set.
pub proof fn law_capability_union(a: EditorCapabilities, b: EditorCapabilities)
    ensures
        EditorCapabilities(a.0 | b.0).spec_contains(a),
        EditorCapabilities(a.0 | b.0).spec_contains(b),
        EditorCapabilities(0).spec_contains(b) <==> b.0 == 0,
        a.spec_contains(EditorCapabilities(0)),
{
    let x = a.0;
    let y = b.0;
    assert((x | y) & x == x) by (bit_vector);
    assert((x | y) & y == y) by (bit_vector);
    assert((0u16 & y == y) <==> y == 0) by (bit_vector);
    assert(x & 0u16 == 0u16) by (bit_vector);
}

/// A row of the objects panel.
#[derive(Clone, Debug, PartialEq, Eq)]
pub struct EditorItem {
    pub target: EditorTarget,
    pub label: String,
    pub depth: usize,
    pub visible: Option<bool>,
    pub has_children: bool,
    pub capabilities: EditorCapabilities,
}

/// The marker that shows an item's visibility.
pub open spec fn visibility_marker(visible: Option<bool>) -> Seq<char> {
    match visible {
        Some(true) => "[on] "@,
        Some(false) => "[off]"@,
        None => "     "@,
    }
}

/// `count` copies of `text`, one after the other.
pub open spec fn repeated(text: Seq<char>, count: nat) -> Seq<char>
    decreases count,
{
    if count == 0 {
        seq![]
    } else {
        repeated(text, (count - 1) as nat) + text
    }
}

impl EditorItem {
    /// The row text: two spaces per level of depth, the visibility marker,
    /// the label and the kind in parentheses.
    pub open spec fn spec_display_label(self) -> Seq<char> {
        repeated("  "@, self.depth as nat) + visibility_marker(self.visible) + " "@ + self.label@
            + " ("@ + self.target.kind.spec_label() + ")"@
    }

    pub fn display_label(&self) -> (text: String)
        ensures
            text@ == self.spec_display_label(),
    {
        let mut text = String::new();
        let mut level: usize = 0;
        while level < self.depth
            invariant
                level <= self.depth,
                text@ == repeated("  "@, level as nat),
            decreases self.depth - level,
        {
            text.append("  ");
            level = level + 1;
        }
        let visibility = match self.visible {
            Some(true) => "[on] ",
            Some(false) => "[off]",
            None => "     ",
        };
        text.append(visibility);
        text.append(" ");
        text.append(self.label.as_str());
        text.append(" (");
        text.append(self.target.kind.label());
        text.append(")");
        text
    }
}

} // verus!
