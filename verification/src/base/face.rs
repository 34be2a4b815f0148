//! A face as a list of vertex indices, and the index of a face in a mesh.
use super::VertexIndex;
use vstd::prelude::*;

verus! {

/// The index of a face.
#[derive(Clone, Copy, Debug, Default, PartialEq, Eq, Structural, PartialOrd, Ord, Hash)]
pub struct FaceIndex(usize);

impl View for FaceIndex {
    type V = usize;

    closed spec fn view(&self) -> usize {
        self.0
    }
}

impl FaceIndex {
    pub fn new(x: usize) -> (r: Self)
        ensures
            r@ == x,
    {
        FaceIndex(x)
    }

    pub fn index(self) -> (i: usize)
        ensures
            i == self@,
    {
        self.0
    }

    /// The largest index, used as an end marker.
    pub fn end() -> (r: Self)
        ensures
            r@ == usize::MAX,
    {
        FaceIndex(usize::MAX)
    }

    /// An index is determined by its number.
    pub proof fn lemma_view_injective(a: Self, b: Self)
        requires
            a@ == b@,
        ensures
            a == b,
    {
    }
}

/// The numbers of a sequence of vertex indices.
pub open spec fn numbers(s: Seq<VertexIndex>) -> Seq<usize> {
    Seq::new(s.len(), |i: int| s[i]@)
}

/// A face: the indices of its vertices, in order.
#[derive(Debug)]
pub struct Face {
    verts: Vec<VertexIndex>,
}

impl View for Face {
    type V = Seq<VertexIndex>;

    closed spec fn view(&self) -> Seq<VertexIndex> {
        self.verts@
    }
}

impl Clone for Face {
    fn clone(&self) -> (r: Self)
        ensures
            r@ == self@,
    {
        Face { verts: self.verts() }
    }
}

impl Face {
    pub fn new(verts: Vec<VertexIndex>) -> (r: Self)
        ensures
            r@ == verts@,
    {
        Face { verts }
    }

    pub fn empty() -> (r: Self)
        ensures
            r@ == Seq::<VertexIndex>::empty(),
    {
        Face { verts: Vec::new() }
    }

    /// An empty face with room for `cap` vertices.
    pub fn capacity(cap: usize) -> (r: Self)
        ensures
            r@ == Seq::<VertexIndex>::empty(),
    {
        Face { verts: Vec::with_capacity(cap) }
    }

    pub fn add_vert(&mut self, vert: VertexIndex)
        ensures
            final(self)@ == old(self)@.push(vert),
    {
        self.verts.push(vert);
    }

    /// A copy of the vertex indices.
    pub fn verts(&self) -> (r: Vec<VertexIndex>)
        ensures
            r@ == self@,
    {
        let mut out: Vec<VertexIndex> = Vec::with_capacity(self.verts.len());
        let mut i: usize = 0;
        while i < self.verts.len()
            invariant
                i <= self.verts.len(),
                out@ == self.verts@.take(i as int),
            decreases self.verts.len() - i,
        {
            out.push(self.verts[i]);
            i += 1;
        }
        out
    }

    pub fn consume(self) -> (r: Vec<VertexIndex>)
        ensures
            r@ == self@,
    {
        self.verts
    }
}

} // verus!
