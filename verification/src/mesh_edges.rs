use vstd::prelude::*;

use std::collections::BTreeSet;
use vstd::string::StringExecFns;

use crate::text::{decimal_string, decimal_text};

verus! {

broadcast use vstd::laws_cmp::group_laws_cmp, vstd::std_specs::btree::group_btree_axioms;

/// An edge between two vertices, by index, smaller index first.
pub type Edge = (usize, usize);

/// The edge between `a` and `b` with the smaller index first.
pub open spec fn canonical_edge(a: usize, b: usize) -> Edge {
    if a < b {
        (a, b)
    } else {
        (b, a)
    }
}

/// Adds the edge between `a` and `b` to `edges`, smaller index first, so
/// that `(2, 5)` and `(5, 2)` are one edge; a vertex joined to itself adds
/// nothing.
pub fn insert_edge(edges: &mut BTreeSet<Edge>, a: usize, b: usize)
    ensures
        a == b ==> final(edges)@ == old(edges)@,
        a != b ==> final(edges)@ == old(edges)@.insert(canonical_edge(a, b)),
{
    if a == b {
        return;
    }
    let edge = if a < b {
        (a, b)
    } else {
        (b, a)
    };
    edges.insert(edge);
}

/// Inserting an edge in either direction gives the same set.
pub proof fn law_edge_direction_does_not_matter(edges: Set<Edge>, a: usize, b: usize)
    ensures
        edges.insert(canonical_edge(a, b)) == edges.insert(canonical_edge(b, a)),
{
}


/// The edge along side `side` of a polygon `face`, from its corner `side`
/// to the next, around the end back to the start.
pub open spec fn side_edges(face: Seq<usize>, side: int) -> Set<Edge> {
    let a = face[side];
    let b = face[(side + 1) % (face.len() as int)];
    if a == b {
        Set::empty()
    } else {
        set![canonical_edge(a, b)]
    }
}

/// The edges along the first `count` sides of a polygon.
pub open spec fn polygon_edges(face: Seq<usize>, count: nat) -> Set<Edge>
    decreases count,
{
    if count == 0 {
        Set::empty()
    } else {
        polygon_edges(face, (count - 1) as nat).union(side_edges(face, count - 1))
    }
}

/// The edges of one face: the edge of a two-corner line, the closed
/// boundary of a polygon of three or more corners, nothing otherwise.
pub open spec fn face_edges(face: Seq<usize>) -> Set<Edge> {
    if face.len() == 2 {
        if face[0] == face[1] {
            Set::empty()
        } else {
            set![canonical_edge(face[0], face[1])]
        }
    } else if face.len() >= 3 {
        polygon_edges(face, face.len())
    } else {
        Set::empty()
    }
}

/// The edges of the first `count` faces.
pub open spec fn mesh_edges(faces: Seq<Vec<usize>>, count: nat) -> Set<Edge>
    decreases count,
{
    if count == 0 {
        Set::empty()
    } else {
        mesh_edges(faces, (count - 1) as nat).union(face_edges(faces[count - 1]@))
    }
}

/// `edges` is in increasing order, first by the smaller index, then by the
/// larger, with no edge twice.
pub open spec fn edges_increasing(edges: Seq<Edge>) -> bool {
    forall|i: int, j: int|
        0 <= i < j < edges.len() ==> #[trigger] edges[i].0 < #[trigger] edges[j].0 || (edges[i].0
            == edges[j].0 && edges[i].1 < edges[j].1)
}

/// Keys that a `BTreeSet` of edges hands out in its order increase.
proof fn lemma_ordered_keys_increase(keys: Seq<&Edge>)
    requires
        vstd::std_specs::btree::increasing_seq(keys),
    ensures
        edges_increasing(keys.unref()),
{
    assert forall|i: int, j: int| 0 <= i < j < keys.unref().len() implies #[trigger] keys.unref()[i].0
        < #[trigger] keys.unref()[j].0 || (keys.unref()[i].0 == keys.unref()[j].0 && keys.unref()[i].1
        < keys.unref()[j].1) by {
        assert(vstd::std_specs::cmp::OrdSpec::cmp_spec(&keys[i], &keys[j]) is Less);
    }
}

/// Every edge of the faces, once each, smaller index first, in increasing
/// order; `(2, 5)` and `(5, 2)` are one edge.
pub fn unique_face_edges(faces: &Vec<Vec<usize>>) -> (edges: Vec<Edge>)
    ensures
        edges@.to_set() == mesh_edges(faces@, faces@.len()),
        edges_increasing(edges@),
{
    let mut set: BTreeSet<Edge> = BTreeSet::new();
    let mut face_index: usize = 0;
    while face_index < faces.len()
        invariant
            face_index <= faces@.len(),
            set@ == mesh_edges(faces@, face_index as nat),
        decreases faces@.len() - face_index,
    {
        let face = &faces[face_index];
        let ghost before = set@;
        if face.len() == 2 {
            insert_edge(&mut set, face[0], face[1]);
            assert(set@ =~= before.union(face_edges(face@)));
        } else if face.len() >= 3 {
            let mut side: usize = 0;
            while side < face.len()
                invariant
                    face@.len() >= 3,
                    side <= face@.len(),
                    set@ == before.union(polygon_edges(face@, side as nat)),
                decreases face@.len() - side,
            {
                let a = face[side];
                let b = face[(side + 1) % face.len()];
                let ghost inside = set@;
                insert_edge(&mut set, a, b);
                assert(set@ =~= before.union(polygon_edges(face@, (side + 1) as nat)));
                side = side + 1;
            }
        } else {
            assert(set@ =~= before.union(face_edges(face@)));
        }
        face_index = face_index + 1;
    }
    let ghost keys = vstd::std_specs::iter::IteratorSpec::remaining(
        &vstd::std_specs::btree::spec_btree_keys_iter(&set),
    );
    let mut edges: Vec<Edge> = Vec::new();
    for edge in it: set.iter()
        invariant
            it.seq() == keys,
            edges@ == keys.take(it.index()).unref(),
    {
        edges.push(*edge);
        assert(keys.take(it.index() + 1).unref() =~= keys.take(it.index()).unref().push(*edge));
    }
    proof {
        assert(keys.take(keys.len() as int) =~= keys);
        assert(keys.unref().to_set() == set@);
        lemma_ordered_keys_increase(keys);
    }
    edges
}


/// An edge of a mesh names a vertex that the mesh does not have.
#[derive(Debug, Clone, Copy, PartialEq, Eq, Structural)]
pub struct MeshRenderError {
    pub vertex_index: usize,
    pub vertex_count: usize,
}

/// The message that a [`MeshRenderError`] shows.
pub open spec fn mesh_render_error_message(vertex_index: usize, vertex_count: usize) -> Seq<char> {
    "mesh edge references vertex index "@ + decimal_text(vertex_index as nat)
        + ", but the mesh has only "@ + decimal_text(vertex_count as nat) + " vertices"@
}

impl MeshRenderError {
    /// The message shown for the error.
    pub fn message(&self) -> (message: String)
        ensures
            message@ == mesh_render_error_message(self.vertex_index, self.vertex_count),
    {
        let mut message = "mesh edge references vertex index ".to_owned();
        message.append(decimal_string(self.vertex_index).as_str());
        message.append(", but the mesh has only ");
        message.append(decimal_string(self.vertex_count).as_str());
        message.append(" vertices");
        message
    }
}

/// Checks that both ends of `edge` are vertices of a mesh of `vertex_count`
/// vertices, the start first, as drawing a wireframe does before each edge.
pub fn check_edge_vertices(edge: Edge, vertex_count: usize) -> (checked: Result<(), MeshRenderError>)
    ensures
        edge.0 >= vertex_count ==> checked == Err::<(), MeshRenderError>(
            MeshRenderError { vertex_index: edge.0, vertex_count },
        ),
        edge.0 < vertex_count && edge.1 >= vertex_count ==> checked == Err::<(), MeshRenderError>(
            MeshRenderError { vertex_index: edge.1, vertex_count },
        ),
        edge.0 < vertex_count && edge.1 < vertex_count ==> checked == Ok::<(), MeshRenderError>(()),
{
    if edge.0 >= vertex_count {
        return Err(MeshRenderError { vertex_index: edge.0, vertex_count });
    }
    if edge.1 >= vertex_count {
        return Err(MeshRenderError { vertex_index: edge.1, vertex_count });
    }
    Ok(())
}

} // verus!
