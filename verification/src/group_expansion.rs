use vstd::prelude::*;

use crate::a3d_rules::{qualified_id, spec_qualified_id};

verus! {

/// An object of a `.a3d` scene as group expansion sees it: a leaf, or a
/// group whose own manifest's objects have been read.
pub enum SceneNode {
    Leaf { id: String, editor_composite: bool },
    Group { id: String, editor_composite: bool, children: Vec<SceneNode> },
}

/// An object of the flattened world: its id qualified by its groups', and
/// whether the editor shows it as one piece or hides it inside one.
#[derive(Debug, Clone, PartialEq, Eq)]
pub struct FlatObject {
    pub id: String,
    pub editor_composite: bool,
    pub editor_hidden: bool,
}

/// The view of a flattened object.
pub struct FlatView {
    pub id: Seq<char>,
    pub editor_composite: bool,
    pub editor_hidden: bool,
}

impl FlatObject {
    pub open spec fn view_of(self) -> FlatView {
        FlatView {
            id: self.id@,
            editor_composite: self.editor_composite,
            editor_hidden: self.editor_hidden,
        }
    }
}

/// The views of a list of flattened objects.
pub open spec fn flat_views(objects: Seq<FlatObject>) -> Seq<FlatView> {
    objects.map_values(|object: FlatObject| object.view_of())
}

/// The objects that `nodes` expand to under the group id `prefix`, hidden
/// from the editor where `hidden`: each node in order, its id qualified by
/// `prefix`, and after a group its children, qualified by the group's id and
/// hidden where the group is, or where the group is a composite.
pub open spec fn expand_nodes(nodes: Seq<SceneNode>, prefix: Seq<char>, hidden: bool) -> Seq<
    FlatView,
>
    decreases nodes, 0int,
{
    if nodes.len() == 0 {
        Seq::empty()
    } else {
        expand_nodes(nodes.drop_last(), prefix, hidden) + expand_node(nodes.last(), prefix, hidden)
    }
}

/// The objects that one node expands to; see `expand_nodes`.
pub open spec fn expand_node(node: SceneNode, prefix: Seq<char>, hidden: bool) -> Seq<FlatView>
    decreases node, 1int,
{
    match node {
        SceneNode::Leaf { id, editor_composite } => seq![
            FlatView {
                id: spec_qualified_id(prefix, id@),
                editor_composite,
                editor_hidden: hidden,
            },
        ],
        SceneNode::Group { id, editor_composite, children } => seq![
            FlatView {
                id: spec_qualified_id(prefix, id@),
                editor_composite,
                editor_hidden: hidden,
            },
        ] + expand_nodes(children@, spec_qualified_id(prefix, id@), hidden || editor_composite),
    }
}

/// Adding an object to a list adds its view to the list's views.
proof fn lemma_flat_views_push(objects: Seq<FlatObject>, object: FlatObject)
    ensures
        flat_views(objects.push(object)) == flat_views(objects).push(object.view_of()),
{
    assert(flat_views(objects.push(object)) =~= flat_views(objects).push(object.view_of()));
}

/// Appends to `output` the objects that `nodes` expand to under the group
/// id `prefix`; see `expand_nodes`.
pub fn expand_into(nodes: &Vec<SceneNode>, prefix: &str, hidden: bool, output: &mut Vec<FlatObject>)
    ensures
        flat_views(final(output)@) == flat_views(old(output)@) + expand_nodes(nodes@, prefix@, hidden),
    decreases nodes@,
{
    let mut index: usize = 0;
    while index < nodes.len()
        invariant
            index <= nodes@.len(),
            flat_views(output@) == flat_views(old(output)@) + expand_nodes(
                nodes@.take(index as int),
                prefix@,
                hidden,
            ),
        decreases nodes@.len() - index,
    {
        let ghost before = output@;
        let ghost node_view = expand_node(nodes@[index as int], prefix@, hidden);
        assert(nodes@.take(index + 1).drop_last() =~= nodes@.take(index as int));
        assert(nodes@.take(index + 1).last() == nodes@[index as int]);
        match &nodes[index] {
            SceneNode::Leaf { id, editor_composite } => {
                let object = FlatObject {
                    id: qualified_id(prefix, id.as_str()),
                    editor_composite: *editor_composite,
                    editor_hidden: hidden,
                };
                output.push(object);
                proof {
                    lemma_flat_views_push(before, output@.last());
                    assert(output@ == before.push(output@.last()));
                    assert(flat_views(output@) =~= flat_views(before) + node_view);
                }
            },
            SceneNode::Group { id, editor_composite, children } => {
                let qualified = qualified_id(prefix, id.as_str());
                let object = FlatObject {
                    id: qualified.clone(),
                    editor_composite: *editor_composite,
                    editor_hidden: hidden,
                };
                output.push(object);
                proof {
                    lemma_flat_views_push(before, output@.last());
                    assert(output@ == before.push(output@.last()));
                }
                let ghost middle = output@;
                assert(decreases_to!(nodes@ => nodes@[index as int]));
                expand_into(children, qualified.as_str(), hidden || *editor_composite, output);
                proof {
                    assert(flat_views(output@) == flat_views(middle) + expand_nodes(
                        children@,
                        qualified@,
                        hidden || *editor_composite,
                    ));
                    assert(flat_views(middle) == flat_views(before).push(middle.last().view_of()));
                    assert(flat_views(output@) =~= flat_views(before) + node_view);
                }
            },
        }
        proof {
            assert(flat_views(output@) == flat_views(before) + node_view);
        }
        index = index + 1;
        proof {
            assert(flat_views(output@) =~= flat_views(old(output)@) + expand_nodes(
                nodes@.take(index as int),
                prefix@,
                hidden,
            ));
        }
    }
    assert(nodes@.take(nodes@.len() as int) =~= nodes@);
}

/// The flattened world of a scene's top-level `nodes`; see `expand_nodes`.
pub fn expand_scene(nodes: &Vec<SceneNode>) -> (objects: Vec<FlatObject>)
    ensures
        flat_views(objects@) == expand_nodes(nodes@, Seq::empty(), false),
{
    let mut objects: Vec<FlatObject> = Vec::new();
    proof {
        reveal_strlit("");
        assert(flat_views(objects@) =~= Seq::<FlatView>::empty());
    }
    expand_into(nodes, "", false, &mut objects);
    proof {
        assert(flat_views(objects@) =~= expand_nodes(nodes@, ""@, false));
        assert(""@ =~= Seq::<char>::empty());
    }
    objects
}

/// The group manifests that are being read, by their canonical paths: a
/// group that is met again while it is being read includes itself.
pub struct GroupStack {
    paths: Vec<String>,
}

/// The paths of a list, as a set.
pub open spec fn path_set(paths: Seq<String>) -> Set<Seq<char>> {
    Set::new(|path: Seq<char>| exists|index: int| 0 <= index < paths.len() && #[trigger] paths[index]@ == path)
}

/// No path occurs twice.
pub open spec fn distinct_paths(paths: Seq<String>) -> bool {
    forall|i: int, j: int| 0 <= i < j < paths.len() ==> #[trigger] paths[i]@ != #[trigger] paths[j]@
}

impl View for GroupStack {
    type V = Set<Seq<char>>;

    closed spec fn view(&self) -> Set<Seq<char>> {
        path_set(self.paths@)
    }
}

impl GroupStack {
    #[verifier::type_invariant]
    closed spec fn well_formed(self) -> bool {
        distinct_paths(self.paths@)
    }

    /// No group is being read.
    pub fn new() -> (stack: Self)
        ensures
            stack@ == Set::<Seq<char>>::empty(),
    {
        let stack = GroupStack { paths: Vec::new() };
        assert(stack@ =~= Set::<Seq<char>>::empty());
        stack
    }

    /// The place of `path` among the paths, if it is there.
    fn position(&self, path: &String) -> (found: Option<usize>)
        ensures
            match found {
                Some(index) => index < self.paths@.len() && self.paths@[index as int]@ == path@,
                None => !self@.contains(path@),
            },
    {
        let mut index: usize = 0;
        while index < self.paths.len()
            invariant
                index <= self.paths@.len(),
                forall|k: int| 0 <= k < index ==> self.paths@[k]@ != path@,
            decreases self.paths@.len() - index,
        {
            if self.paths[index] == *path {
                return Some(index);
            }
            index = index + 1;
        }
        None
    }

    /// Starts reading the group at `path`; refused, and nothing changes,
    /// where that group is already being read.
    pub fn enter(&mut self, path: String) -> (entered: bool)
        ensures
            entered == !old(self)@.contains(path@),
            final(self)@ == old(self)@.insert(path@),
    {
        proof {
            use_type_invariant(&*self);
        }
        if self.position(&path).is_some() {
            assert(self@.insert(path@) =~= self@);
            return false;
        }
        let ghost before = self.paths@;
        let mut paths: Vec<String> = Vec::new();
        std::mem::swap(&mut paths, &mut self.paths);
        paths.push(path);
        assert(distinct_paths(paths@)) by {
            assert forall|i: int, j: int| 0 <= i < j < paths@.len() implies #[trigger] paths@[i]@
                != #[trigger] paths@[j]@ by {
                if j == paths@.len() - 1 {
                    assert(paths@[i] == before[i]);
                    assert(path_set(before).contains(before[i]@));
                } else {
                    assert(paths@[i] == before[i] && paths@[j] == before[j]);
                }
            }
        }
        self.paths = paths;
        assert(path_set(self.paths@) =~= path_set(before).insert(self.paths@.last()@)) by {
            assert forall|p: Seq<char>| path_set(self.paths@).contains(p) implies path_set(
                before,
            ).insert(self.paths@.last()@).contains(p) by {
                let index = choose|index: int|
                    0 <= index < self.paths@.len() && #[trigger] self.paths@[index]@ == p;
                if index < before.len() {
                    assert(before[index]@ == p);
                }
            }
            assert forall|p: Seq<char>| path_set(before).insert(self.paths@.last()@).contains(
                p,
            ) implies path_set(self.paths@).contains(p) by {
                if p != self.paths@.last()@ {
                    let index = choose|index: int| 0 <= index < before.len() && #[trigger] before[index]@ == p;
                    assert(self.paths@[index]@ == p);
                } else {
                    assert(self.paths@[self.paths@.len() - 1]@ == p);
                }
            }
        }
        true
    }

    /// Ends reading the group at `path`.
    pub fn leave(&mut self, path: &String)
        ensures
            final(self)@ == old(self)@.remove(path@),
    {
        proof {
            use_type_invariant(&*self);
        }
        match self.position(path) {
            None => {
                assert(self@.remove(path@) =~= self@);
            },
            Some(index) => {
                let ghost before = self.paths@;
                let mut paths: Vec<String> = Vec::new();
                std::mem::swap(&mut paths, &mut self.paths);
                paths.remove(index);
                assert(distinct_paths(paths@)) by {
                    assert forall|i: int, j: int| 0 <= i < j < paths@.len() implies #[trigger] paths@[i]@
                        != #[trigger] paths@[j]@ by {
                        let bi = if i < index { i } else { i + 1 };
                        let bj = if j < index { j } else { j + 1 };
                        assert(paths@[i] == before[bi] && paths@[j] == before[bj]);
                    }
                }
                self.paths = paths;
                assert(path_set(self.paths@) =~= path_set(before).remove(path@)) by {
                    assert forall|p: Seq<char>| path_set(self.paths@).contains(p) implies path_set(
                        before,
                    ).remove(path@).contains(p) by {
                        let k = choose|k: int|
                            0 <= k < self.paths@.len() && #[trigger] self.paths@[k]@ == p;
                        if k < index {
                            assert(before[k]@ == p);
                            assert(k != index as int);
                        } else {
                            assert(before[k + 1]@ == p);
                        }
                    }
                    assert forall|p: Seq<char>| path_set(before).remove(path@).contains(
                        p,
                    ) implies path_set(self.paths@).contains(p) by {
                        let k = choose|k: int| 0 <= k < before.len() && #[trigger] before[k]@ == p;
                        assert(k != index as int);
                        if k < index {
                            assert(self.paths@[k]@ == p);
                        } else {
                            assert(self.paths@[k - 1]@ == p);
                        }
                    }
                }
            },
        }
    }
}

/// Everything under a hidden group is hidden.
proof fn lemma_hidden_nodes(nodes: Seq<SceneNode>, prefix: Seq<char>)
    ensures
        forall|i: int|
            0 <= i < expand_nodes(nodes, prefix, true).len() ==> #[trigger] expand_nodes(
                nodes,
                prefix,
                true,
            )[i].editor_hidden,
    decreases nodes, 0int,
{
    if nodes.len() > 0 {
        lemma_hidden_nodes(nodes.drop_last(), prefix);
        lemma_hidden_node(nodes.last(), prefix);
        let left = expand_nodes(nodes.drop_last(), prefix, true);
        let right = expand_node(nodes.last(), prefix, true);
        assert forall|i: int| 0 <= i < expand_nodes(nodes, prefix, true).len() implies #[trigger] expand_nodes(
            nodes,
            prefix,
            true,
        )[i].editor_hidden by {
            if i < left.len() {
                assert(expand_nodes(nodes, prefix, true)[i] == left[i]);
            } else {
                assert(expand_nodes(nodes, prefix, true)[i] == right[i - left.len()]);
            }
        }
    }
}

/// Everything a node under a hidden group expands to is hidden.
proof fn lemma_hidden_node(node: SceneNode, prefix: Seq<char>)
    ensures
        forall|i: int|
            0 <= i < expand_node(node, prefix, true).len() ==> #[trigger] expand_node(
                node,
                prefix,
                true,
            )[i].editor_hidden,
    decreases node, 1int,
{
    match node {
        SceneNode::Leaf { .. } => {},
        SceneNode::Group { id, editor_composite, children } => {
            let q = spec_qualified_id(prefix, id@);
            lemma_hidden_nodes(children@, q);
            let rest = expand_nodes(children@, q, true);
            assert forall|i: int| 0 <= i < expand_node(node, prefix, true).len() implies #[trigger] expand_node(
                node,
                prefix,
                true,
            )[i].editor_hidden by {
                if i > 0 {
                    assert(expand_node(node, prefix, true)[i] == rest[i - 1]);
                }
            }
        },
    }
}

/// A composite group is shown in the editor as one piece: the group itself
/// stays visible where its parents are, and every object inside it is
/// hidden from the editor.
pub proof fn law_composite_groups_hide_their_parts(
    id: String,
    children: Vec<SceneNode>,
    prefix: Seq<char>,
)
    ensures
        ({
            let flat = expand_node(
                SceneNode::Group { id, editor_composite: true, children },
                prefix,
                false,
            );
            &&& flat[0].id == spec_qualified_id(prefix, id@)
            &&& !flat[0].editor_hidden
            &&& forall|i: int| 1 <= i < flat.len() ==> #[trigger] flat[i].editor_hidden
        }),
{
    let q = spec_qualified_id(prefix, id@);
    lemma_hidden_nodes(children@, q);
    let flat = expand_node(SceneNode::Group { id, editor_composite: true, children }, prefix, false);
    let rest = expand_nodes(children@, q, true);
    assert forall|i: int| 1 <= i < flat.len() implies #[trigger] flat[i].editor_hidden by {
        assert(flat[i] == rest[i - 1]);
    }
}

/// Reading a group that is not being read starts; meeting it again before
/// its reading ends is refused as a cycle; ending its reading leaves the
/// set as it was, so that the same group may be used again side by side.
pub proof fn law_group_cycles_are_refused(reading: Set<Seq<char>>, path: Seq<char>)
    requires
        !reading.contains(path),
    ensures
        reading.insert(path).contains(path),
        reading.insert(path).remove(path) == reading,
{
    assert(reading.insert(path).remove(path) =~= reading);
}

} // verus!
