//! From parsed records to a mesh.
use crate::base::{Face, GeoNum, VertexIndex};
use crate::mesh::{Mesh, Vertex};
use vstd::prelude::*;

verus! {

/// One face record. Each corner names a position, and may also name a
/// texture coordinate, a normal, or both.
pub enum Polygon {
    /// Positions only.
    P(Vec<usize>),
    /// Position and texture.
    PT(Vec<(usize, usize)>),
    /// Position and normal.
    PN(Vec<(usize, usize)>),
    /// Position, texture and normal.
    PTN(Vec<(usize, usize, usize)>),
}

impl Polygon {
    /// The positions that the corners name, in order.
    pub open spec fn positions(self) -> Seq<usize> {
        match self {
            Polygon::P(c) => c@,
            Polygon::PT(c) => Seq::new(c@.len(), |i: int| c@[i].0),
            Polygon::PN(c) => Seq::new(c@.len(), |i: int| c@[i].0),
            Polygon::PTN(c) => Seq::new(c@.len(), |i: int| c@[i].0),
        }
    }
}

/// The vertex that a position record stands for: its second and third
/// components change places, its fourth is dropped.
pub open spec fn vertex_of<T: GeoNum>(p: (T, T, T, T)) -> Vertex<T> {
    Vertex { x: p.0, y: p.2, z: p.1 }
}

/// Appends to `mesh` one face over the vertices at the places `verts`.
pub fn mesh_add_face<T: GeoNum>(mesh: &mut Mesh<T>, verts: Vec<usize>)
    ensures
        final(mesh).faces_spec().len() == old(mesh).faces_spec().len() + 1,
        final(mesh).faces_spec().drop_last() == old(mesh).faces_spec(),
        crate::base::face::numbers(final(mesh).faces_spec().last()) == verts@,
        final(mesh).verts_spec() == old(mesh).verts_spec(),
        final(mesh).name_spec() == old(mesh).name_spec(),
{
    let mut indices: Vec<VertexIndex> = Vec::with_capacity(verts.len());
    let mut i: usize = 0;
    while i < verts.len()
        invariant
            i <= verts.len(),
            indices.len() == i,
            forall|j: int| 0 <= j < i ==> (#[trigger] indices@[j])@ == verts@[j],
        decreases verts.len() - i,
    {
        indices.push(VertexIndex::new(verts[i]));
        i += 1;
    }
    let ghost listed = indices@;
    mesh.add_face(Face::new(indices));
    assert(final(mesh).faces_spec().drop_last() =~= old(mesh).faces_spec());
    assert(crate::base::face::numbers(listed) =~= verts@);
}

/// The first component of each pair.
fn firsts_of_pairs(corners: &Vec<(usize, usize)>) -> (r: Vec<usize>)
    ensures
        r@ == Seq::new(corners@.len(), |i: int| corners@[i].0),
{
    let mut out: Vec<usize> = Vec::with_capacity(corners.len());
    let mut i: usize = 0;
    while i < corners.len()
        invariant
            i <= corners.len(),
            out.len() == i,
            forall|j: int| 0 <= j < i ==> out@[j] == corners@[j].0,
        decreases corners.len() - i,
    {
        out.push(corners[i].0);
        i += 1;
    }
    assert(out@ =~= Seq::new(corners@.len(), |i: int| corners@[i].0));
    out
}

/// The first component of each triple.
fn firsts_of_triples(corners: &Vec<(usize, usize, usize)>) -> (r: Vec<usize>)
    ensures
        r@ == Seq::new(corners@.len(), |i: int| corners@[i].0),
{
    let mut out: Vec<usize> = Vec::with_capacity(corners.len());
    let mut i: usize = 0;
    while i < corners.len()
        invariant
            i <= corners.len(),
            out.len() == i,
            forall|j: int| 0 <= j < i ==> out@[j] == corners@[j].0,
        decreases corners.len() - i,
    {
        out.push(corners[i].0);
        i += 1;
    }
    assert(out@ =~= Seq::new(corners@.len(), |i: int| corners@[i].0));
    out
}

/// The mesh that a file's records describe: one vertex per position record
/// and one face per face record, each in the order of the records, and no
/// name.
pub fn build_mesh<T: GeoNum>(positions: Vec<(T, T, T, T)>, polygons: Vec<Polygon>) -> (mesh: Mesh<T>)
    ensures
        mesh.verts_spec() == Seq::new(positions@.len(), |i: int| vertex_of(positions@[i])),
        mesh.faces_spec().len() == polygons@.len(),
        forall|i: int|
            0 <= i < polygons@.len() ==> crate::base::face::numbers(#[trigger] mesh.faces_spec()[i])
                == polygons@[i].positions(),
        mesh.name_spec() is None,
{
    let mut mesh = Mesh::<T>::new();
    let mut i: usize = 0;
    while i < positions.len()
        invariant
            i <= positions.len(),
            mesh.verts_spec() == Seq::new(i as nat, |j: int| vertex_of(positions@[j])),
            mesh.faces_spec() == Seq::<Seq<VertexIndex>>::empty(),
            mesh.name_spec() is None,
        decreases positions.len() - i,
    {
        let p = positions[i];
        let ghost before = mesh.verts_spec();
        mesh.add_vertex(Vertex::new(p.0, p.2, p.1));
        assert(mesh.verts_spec() =~= Seq::new((i + 1) as nat, |j: int| vertex_of(positions@[j])));
        i += 1;
    }
    let mut k: usize = 0;
    while k < polygons.len()
        invariant
            k <= polygons.len(),
            mesh.verts_spec() == Seq::new(positions@.len(), |j: int| vertex_of(positions@[j])),
            mesh.faces_spec().len() == k,
            forall|j: int|
                0 <= j < k ==> crate::base::face::numbers(#[trigger] mesh.faces_spec()[j])
                    == polygons@[j].positions(),
            mesh.name_spec() is None,
        decreases polygons.len() - k,
    {
        let ghost before = mesh.faces_spec();
        let verts = match &polygons[k] {
            Polygon::P(face) => {
                let mut copy: Vec<usize> = Vec::with_capacity(face.len());
                let mut n: usize = 0;
                while n < face.len()
                    invariant
                        n <= face.len(),
                        copy@ == face@.take(n as int),
                    decreases face.len() - n,
                {
                    copy.push(face[n]);
                    assert(copy@ =~= face@.take(n as int + 1));
                    n += 1;
                }
                assert(face@.take(n as int) =~= face@);
                copy
            },
            Polygon::PT(face) => firsts_of_pairs(face),
            Polygon::PN(face) => firsts_of_pairs(face),
            Polygon::PTN(face) => firsts_of_triples(face),
        };
        assert(verts@ == polygons@[k as int].positions());
        mesh_add_face(&mut mesh, verts);
        proof {
            assert forall|j: int| 0 <= j < k + 1 implies crate::base::face::numbers(
                #[trigger] mesh.faces_spec()[j],
            ) == polygons@[j].positions() by {
                if j < k {
                    assert(mesh.faces_spec()[j] == mesh.faces_spec().drop_last()[j]);
                }
            }
        }
        k += 1;
    }
    mesh
}

} // verus!
