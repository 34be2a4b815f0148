//! The mesh container.
use super::primitive::Primitive;
use super::vertex::Vertex;
use crate::base::{Face, FaceIndex, GeoNum, OrdNum, PointIndex, Vec3, VertexIndex};
use vstd::prelude::*;

verus! {

/// A mesh: a list of vertices, a list of faces that name vertices by their
/// place in that list, and an optional name.
pub struct Mesh<T: GeoNum> {
    verticies: Vec<Vertex<T>>,
    faces: Vec<Face>,
    name: Option<String>,
}

/// `v` negated where the negation is representable, `v` itself otherwise.
pub open spec fn inverted<T: OrdNum>(v: int) -> int {
    if T::min_int() <= -v <= T::max_int() {
        -v
    } else {
        v
    }
}

/// The vertex list of the face that `make_face` builds over `count` new
/// vertices, the first of which gets the place `first`.
pub open spec fn fresh_face(first: int, count: int, face: Seq<VertexIndex>) -> bool {
    &&& face.len() == count
    &&& forall|i: int| 0 <= i < count ==> (#[trigger] face[i])@ == first + i
}

fn invert<T: GeoNum>(v: T) -> (r: T)
    ensures
        r.as_int() == inverted::<T>(v.as_int()),
{
    assert(v.as_int() * (-1) == -v.as_int());
    match v.checked_times(T::neg_one()) {
        Some(n) => n,
        None => v,
    }
}

impl<T: GeoNum> Mesh<T> {
    /// The vertices, in the order they were added.
    pub closed spec fn verts_spec(&self) -> Seq<Vertex<T>> {
        self.verticies@
    }

    /// The vertex list of each face, in the order the faces were added.
    pub closed spec fn faces_spec(&self) -> Seq<Seq<VertexIndex>> {
        super::primitive::face_views(self.faces@)
    }

    /// The name, where one was set.
    pub closed spec fn name_spec(&self) -> Option<Seq<char>> {
        match self.name {
            Some(s) => Some(s@),
            None => None,
        }
    }

    /// An empty mesh without a name.
    pub fn new() -> (r: Self)
        ensures
            r.verts_spec() == Seq::<Vertex<T>>::empty(),
            r.faces_spec() == Seq::<Seq<VertexIndex>>::empty(),
            r.name_spec() is None,
    {
        let r = Mesh { verticies: Vec::new(), faces: Vec::new(), name: None };
        assert(r.faces_spec() =~= Seq::<Seq<VertexIndex>>::empty());
        r
    }

    pub fn set_name(&mut self, name: String)
        ensures
            final(self).name_spec() == Some(name@),
            final(self).verts_spec() == old(self).verts_spec(),
            final(self).faces_spec() == old(self).faces_spec(),
    {
        self.name = Some(name);
    }

    /// Appends a vertex that belongs to no face and returns its place.
    pub fn add_vertex(&mut self, vertex: Vertex<T>) -> (r: PointIndex)
        ensures
            r@ == old(self).verts_spec().len(),
            final(self).verts_spec() == old(self).verts_spec().push(vertex),
            final(self).faces_spec() == old(self).faces_spec(),
            final(self).name_spec() == old(self).name_spec(),
    {
        let i = self.verticies.len();
        self.verticies.push(vertex);
        PointIndex::new(i)
    }

    /// Appends a face over vertices that the mesh already holds and returns
    /// its place.
    pub fn add_face(&mut self, face: Face) -> (r: FaceIndex)
        ensures
            r@ == old(self).faces_spec().len(),
            final(self).faces_spec() == old(self).faces_spec().push(face@),
            final(self).verts_spec() == old(self).verts_spec(),
            final(self).name_spec() == old(self).name_spec(),
    {
        let i = self.faces.len();
        self.faces.push(face);
        assert(self.faces_spec() =~= old(self).faces_spec().push(face@));
        FaceIndex::new(i)
    }

    /// Appends the given vertices and one face over exactly them, in their
    /// order, and returns the place of the face.
    pub fn make_face(&mut self, verticies: Vec<Vertex<T>>) -> (r: FaceIndex)
        ensures
            r@ == old(self).faces_spec().len(),
            final(self).verts_spec() == old(self).verts_spec() + verticies@,
            final(self).faces_spec().len() == old(self).faces_spec().len() + 1,
            final(self).faces_spec().drop_last() == old(self).faces_spec(),
            fresh_face(
                old(self).verts_spec().len() as int,
                verticies@.len() as int,
                final(self).faces_spec().last(),
            ),
            final(self).name_spec() == old(self).name_spec(),
    {
        let mut face = Face::capacity(verticies.len());
        let ghost first = self.verticies@.len() as int;
        let mut i: usize = 0;
        assert(self.verts_spec() =~= old(self).verts_spec() + verticies@.take(0));
        while i < verticies.len()
            invariant
                i <= verticies.len(),
                first == old(self).verts_spec().len(),
                self.verts_spec() == old(self).verts_spec() + verticies@.take(i as int),
                self.faces_spec() == old(self).faces_spec(),
                self.name_spec() == old(self).name_spec(),
                fresh_face(first, i as int, face@),
            decreases verticies.len() - i,
        {
            let vi = self.add_vertex(verticies[i]);
            face.add_vert(VertexIndex::new(vi.index()));
            assert(self.verts_spec() =~= old(self).verts_spec() + verticies@.take(i as int + 1));
            i += 1;
        }
        assert(verticies@.take(i as int) =~= verticies@);
        let ghost made = face@;
        let r = self.add_face(face);
        assert(self.faces_spec().drop_last() =~= old(self).faces_spec());
        assert(self.faces_spec().last() == made);
        r
    }

    /// Moves every vertex by `offset`.
    pub fn translate(&mut self, offset: Vec3<T>)
        requires
            forall|i: int|
                0 <= i < old(self).verts_spec().len() ==> {
                    let v = #[trigger] old(self).verts_spec()[i];
                    &&& T::min_int() <= v.x.as_int() + offset.x.as_int() <= T::max_int()
                    &&& T::min_int() <= v.y.as_int() + offset.y.as_int() <= T::max_int()
                    &&& T::min_int() <= v.z.as_int() + offset.z.as_int() <= T::max_int()
                },
        ensures
            final(self).verts_spec().len() == old(self).verts_spec().len(),
            forall|i: int|
                0 <= i < old(self).verts_spec().len() ==> (#[trigger] final(self).verts_spec()[i]).ints()
                    == (
                    old(self).verts_spec()[i].x.as_int() + offset.x.as_int(),
                    old(self).verts_spec()[i].y.as_int() + offset.y.as_int(),
                    old(self).verts_spec()[i].z.as_int() + offset.z.as_int(),
                ),
            final(self).faces_spec() == old(self).faces_spec(),
            final(self).name_spec() == old(self).name_spec(),
    {
        let mut i: usize = 0;
        while i < self.verticies.len()
            invariant
                i <= self.verticies.len(),
                self.verticies.len() == old(self).verticies.len(),
                self.faces == old(self).faces,
                self.name == old(self).name,
                forall|j: int| i <= j < self.verticies.len() ==> self.verticies@[j] == old(self).verticies@[j],
                forall|j: int|
                    0 <= j < i ==> (#[trigger] self.verticies@[j]).ints() == (
                        old(self).verticies@[j].x.as_int() + offset.x.as_int(),
                        old(self).verticies@[j].y.as_int() + offset.y.as_int(),
                        old(self).verticies@[j].z.as_int() + offset.z.as_int(),
                    ),
                forall|j: int|
                    0 <= j < old(self).verts_spec().len() ==> {
                        let v = #[trigger] old(self).verts_spec()[j];
                        &&& T::min_int() <= v.x.as_int() + offset.x.as_int() <= T::max_int()
                        &&& T::min_int() <= v.y.as_int() + offset.y.as_int() <= T::max_int()
                        &&& T::min_int() <= v.z.as_int() + offset.z.as_int() <= T::max_int()
                    },
            decreases self.verticies.len() - i,
        {
            let v = self.verticies[i];
            assert(v == old(self).verts_spec()[i as int]);
            let moved = Vertex::new(v.x.plus(offset.x), v.y.plus(offset.y), v.z.plus(offset.z));
            self.verticies.set(i, moved);
            i += 1;
        }
    }

    /// Negates the x coordinate of every vertex whose negation is
    /// representable, and leaves the other vertices as they are.
    pub fn invert_x(&mut self)
        ensures
            final(self).verts_spec().len() == old(self).verts_spec().len(),
            forall|i: int|
                0 <= i < old(self).verts_spec().len() ==> (#[trigger] final(self).verts_spec()[i]).ints()
                    == (
                    inverted::<T>(old(self).verts_spec()[i].x.as_int()),
                    old(self).verts_spec()[i].y.as_int(),
                    old(self).verts_spec()[i].z.as_int(),
                ),
            final(self).faces_spec() == old(self).faces_spec(),
            final(self).name_spec() == old(self).name_spec(),
    {
        let mut i: usize = 0;
        while i < self.verticies.len()
            invariant
                i <= self.verticies.len(),
                self.verticies.len() == old(self).verticies.len(),
                self.faces == old(self).faces,
                self.name == old(self).name,
                forall|j: int| i <= j < self.verticies.len() ==> self.verticies@[j] == old(self).verticies@[j],
                forall|j: int|
                    0 <= j < i ==> (#[trigger] self.verticies@[j]).ints() == (
                        inverted::<T>(old(self).verticies@[j].x.as_int()),
                        old(self).verticies@[j].y.as_int(),
                        old(self).verticies@[j].z.as_int(),
                    ),
            decreases self.verticies.len() - i,
        {
            let v = self.verticies[i];
            self.verticies.set(i, Vertex::new(invert(v.x), v.y, v.z));
            i += 1;
        }
    }

    /// Negates the y coordinate of every vertex whose negation is
    /// representable, and leaves the other vertices as they are.
    pub fn invert_y(&mut self)
        ensures
            final(self).verts_spec().len() == old(self).verts_spec().len(),
            forall|i: int|
                0 <= i < old(self).verts_spec().len() ==> (#[trigger] final(self).verts_spec()[i]).ints()
                    == (
                    old(self).verts_spec()[i].x.as_int(),
                    inverted::<T>(old(self).verts_spec()[i].y.as_int()),
                    old(self).verts_spec()[i].z.as_int(),
                ),
            final(self).faces_spec() == old(self).faces_spec(),
            final(self).name_spec() == old(self).name_spec(),
    {
        let mut i: usize = 0;
        while i < self.verticies.len()
            invariant
                i <= self.verticies.len(),
                self.verticies.len() == old(self).verticies.len(),
                self.faces == old(self).faces,
                self.name == old(self).name,
                forall|j: int| i <= j < self.verticies.len() ==> self.verticies@[j] == old(self).verticies@[j],
                forall|j: int|
                    0 <= j < i ==> (#[trigger] self.verticies@[j]).ints() == (
                        old(self).verticies@[j].x.as_int(),
                        inverted::<T>(old(self).verticies@[j].y.as_int()),
                        old(self).verticies@[j].z.as_int(),
                    ),
            decreases self.verticies.len() - i,
        {
            let v = self.verticies[i];
            self.verticies.set(i, Vertex::new(v.x, invert(v.y), v.z));
            i += 1;
        }
    }

    /// Negates the z coordinate of every vertex whose negation is
    /// representable, and leaves the other vertices as they are.
    pub fn invert_z(&mut self)
        ensures
            final(self).verts_spec().len() == old(self).verts_spec().len(),
            forall|i: int|
                0 <= i < old(self).verts_spec().len() ==> (#[trigger] final(self).verts_spec()[i]).ints()
                    == (
                    old(self).verts_spec()[i].x.as_int(),
                    old(self).verts_spec()[i].y.as_int(),
                    inverted::<T>(old(self).verts_spec()[i].z.as_int()),
                ),
            final(self).faces_spec() == old(self).faces_spec(),
            final(self).name_spec() == old(self).name_spec(),
    {
        let mut i: usize = 0;
        while i < self.verticies.len()
            invariant
                i <= self.verticies.len(),
                self.verticies.len() == old(self).verticies.len(),
                self.faces == old(self).faces,
                self.name == old(self).name,
                forall|j: int| i <= j < self.verticies.len() ==> self.verticies@[j] == old(self).verticies@[j],
                forall|j: int|
                    0 <= j < i ==> (#[trigger] self.verticies@[j]).ints() == (
                        old(self).verticies@[j].x.as_int(),
                        old(self).verticies@[j].y.as_int(),
                        inverted::<T>(old(self).verticies@[j].z.as_int()),
                    ),
            decreases self.verticies.len() - i,
        {
            let v = self.verticies[i];
            self.verticies.set(i, Vertex::new(v.x, v.y, invert(v.z)));
            i += 1;
        }
    }

    /// A copy of the name, where one was set.
    pub fn name(&self) -> (r: Option<String>)
        ensures
            match r {
                Some(s) => self.name_spec() == Some(s@),
                None => self.name_spec() is None,
            },
    {
        match &self.name {
            Some(s) => Some(s.clone()),
            None => None,
        }
    }

    /// A copy of the mesh in which every vertex is replaced by what `f`
    /// makes of it. The mesh itself stays as it is.
    pub fn map_verts<F: Fn(&Vertex<T>) -> Vertex<T>>(&self, f: F) -> (r: Self)
        requires
            forall|i: int|
                0 <= i < self.verts_spec().len() ==> call_requires(
                    f,
                    (&#[trigger] self.verts_spec()[i],),
                ),
        ensures
            r.verts_spec().len() == self.verts_spec().len(),
            forall|i: int|
                0 <= i < self.verts_spec().len() ==> call_ensures(
                    f,
                    (&self.verts_spec()[i],),
                    #[trigger] r.verts_spec()[i],
                ),
            r.faces_spec() == self.faces_spec(),
            r.name_spec() == self.name_spec(),
    {
        let mut verticies: Vec<Vertex<T>> = Vec::with_capacity(self.verticies.len());
        let mut i: usize = 0;
        while i < self.verticies.len()
            invariant
                i <= self.verticies.len(),
                verticies.len() == i,
                forall|j: int|
                    0 <= j < self.verts_spec().len() ==> call_requires(
                        f,
                        (&#[trigger] self.verts_spec()[j],),
                    ),
                forall|j: int|
                    0 <= j < i ==> call_ensures(f, (&self.verticies@[j],), #[trigger] verticies@[j]),
            decreases self.verticies.len() - i,
        {
            assert(self.verticies@[i as int] == self.verts_spec()[i as int]);
            let mapped = f(&self.verticies[i]);
            verticies.push(mapped);
            i += 1;
        }
        let mut faces: Vec<Face> = Vec::with_capacity(self.faces.len());
        let mut k: usize = 0;
        while k < self.faces.len()
            invariant
                k <= self.faces.len(),
                faces.len() == k,
                forall|j: int| 0 <= j < k ==> (#[trigger] faces@[j])@ == self.faces@[j]@,
            decreases self.faces.len() - k,
        {
            faces.push(self.faces[k].clone());
            k += 1;
        }
        let name = self.name();
        let r = Mesh { verticies, faces, name };
        assert(r.faces_spec() =~= self.faces_spec());
        r
    }
}

impl<T: GeoNum> Primitive<T> for Mesh<T> {
    open spec fn points(&self) -> Seq<Vertex<T>> {
        self.verts_spec()
    }

    open spec fn face_lists(&self) -> Seq<Seq<VertexIndex>> {
        self.faces_spec()
    }

    fn verticies(&self) -> (r: &Vec<Vertex<T>>) {
        &self.verticies
    }

    fn faces(&self) -> (r: &Vec<Face>) {
        &self.faces
    }

    fn vertex(&self, index: PointIndex) -> (r: Option<&Vertex<T>>) {
        if index.index() >= self.verticies.len() {
            return None;
        }
        Some(&self.verticies[index.index()])
    }

    fn vertex_mut(&mut self, index: PointIndex) -> (r: Option<&mut Vertex<T>>) {
        if index.index() >= self.verticies.len() {
            return None;
        }
        Some(&mut self.verticies[index.index()])
    }
}

} // verus!
