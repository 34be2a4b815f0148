//! From a mesh to the text of a Wavefront OBJ file.
use crate::base::text;
use crate::base::{Face, GeoNum, VertexIndex};
use crate::mesh::{Mesh, Primitive, Vertex};
use vstd::prelude::*;

verus! {

/// The bytes of a piece of text.
pub open spec fn bytes_of(s: &str) -> Seq<u8> {
    vstd::utf8::encode_utf8(s@)
}

/// The line of a vertex: the letter v and the three coordinates in decimal,
/// one blank between each two.
pub open spec fn vertex_line<T: GeoNum>(v: Vertex<T>) -> Seq<u8> {
    text::joined(
        seq![
            bytes_of("v"),
            text::signed_digits(v.x.as_int()),
            text::signed_digits(v.y.as_int()),
            text::signed_digits(v.z.as_int()),
        ],
        32u8,
    )
}

/// The line of a face: the letter f, a blank, and the places of its
/// vertices counted from one, in decimal, one blank between each two.
pub open spec fn face_line(face: Seq<VertexIndex>) -> Seq<u8> {
    bytes_of("f ") + text::joined(
        Seq::new(face.len(), |i: int| text::digits((face[i]@ + 1) as nat)),
        32u8,
    )
}

/// The three lines every file starts with: a remark, the material library
/// named after the file, and the object, which goes by the name of the mesh
/// or, where it has none, by that of the file.
pub open spec fn head_lines(name: Option<Seq<char>>, path: Seq<char>) -> Seq<Seq<u8>> {
    let object = match name {
        Some(n) => n,
        None => path,
    };
    seq![
        bytes_of("# Generated for use in Torus"),
        bytes_of("mtllib ") + vstd::utf8::encode_utf8(path) + bytes_of(".mtl"),
        bytes_of("o ") + vstd::utf8::encode_utf8(object),
    ]
}

/// The lines of the file: the head, then one line per vertex, then one line
/// per face.
pub open spec fn obj_lines<T: GeoNum>(
    verts: Seq<Vertex<T>>,
    faces: Seq<Seq<VertexIndex>>,
    name: Option<Seq<char>>,
    path: Seq<char>,
) -> Seq<Seq<u8>> {
    head_lines(name, path) + Seq::new(verts.len(), |i: int| vertex_line(verts[i])) + Seq::new(
        faces.len(),
        |i: int| face_line(faces[i]),
    )
}

/// Whether every vertex place in every face can be counted from one.
pub open spec fn places_countable(faces: Seq<Seq<VertexIndex>>) -> bool {
    forall|i: int, j: int|
        0 <= i < faces.len() && 0 <= j < faces[i].len() ==> (#[trigger] faces[i][j])@ < usize::MAX
}

fn append_str(out: &mut Vec<u8>, s: &str)
    ensures
        final(out)@ == old(out)@ + bytes_of(s),
{
    text::append(out, s.as_bytes());
}

fn write_vertex<T: GeoNum>(v: &Vertex<T>) -> (r: Vec<u8>)
    ensures
        r@ == vertex_line(*v),
{
    let mut parts: Vec<Vec<u8>> = Vec::new();
    let mut tag: Vec<u8> = Vec::new();
    append_str(&mut tag, "v");
    assert(tag@ =~= bytes_of("v"));
    parts.push(tag);
    parts.push(v.x.to_text());
    parts.push(v.y.to_text());
    parts.push(v.z.to_text());
    assert(text::views(parts@) =~= seq![
        bytes_of("v"),
        text::signed_digits(v.x.as_int()),
        text::signed_digits(v.y.as_int()),
        text::signed_digits(v.z.as_int()),
    ]);
    text::join(&parts, 32u8)
}

fn write_face(face: &Face) -> (r: Vec<u8>)
    requires
        forall|j: int| 0 <= j < face@.len() ==> (#[trigger] face@[j])@ < usize::MAX,
    ensures
        r@ == face_line(face@),
{
    let verts = face.verts();
    let mut list: Vec<Vec<u8>> = Vec::new();
    let mut i: usize = 0;
    while i < verts.len()
        invariant
            i <= verts.len(),
            verts@ == face@,
            list.len() == i,
            forall|j: int| 0 <= j < face@.len() ==> (#[trigger] face@[j])@ < usize::MAX,
            forall|j: int|
                0 <= j < i ==> (#[trigger] list@[j])@ == text::digits((face@[j]@ + 1) as nat),
        decreases verts.len() - i,
    {
        // Places in the file count from one.
        list.push(text::decimal((verts[i].index() + 1) as u64));
        i += 1;
    }
    assert(text::views(list@) =~= Seq::new(
        face@.len(),
        |i: int| text::digits((face@[i]@ + 1) as nat),
    ));
    let mut out: Vec<u8> = Vec::new();
    append_str(&mut out, "f ");
    let words = text::join(&list, 32u8);
    text::append(&mut out, words.as_slice());
    assert(out@ =~= face_line(face@));
    out
}

/// The text of the file for `mesh`, stored under the name `file_path`
/// without its ending: the lines joined by line feeds, none after the last.
pub fn export_bytes<T: GeoNum>(mesh: &Mesh<T>, file_path: &str) -> (r: Vec<u8>)
    requires
        places_countable(mesh.faces_spec()),
    ensures
        r@ == text::joined(
            obj_lines(mesh.verts_spec(), mesh.faces_spec(), mesh.name_spec(), file_path@),
            10u8,
        ),
{
    let mut data: Vec<Vec<u8>> = Vec::new();
    let mut remark: Vec<u8> = Vec::new();
    append_str(&mut remark, "# Generated for use in Torus");
    let mut library: Vec<u8> = Vec::new();
    append_str(&mut library, "mtllib ");
    append_str(&mut library, file_path);
    append_str(&mut library, ".mtl");
    let mut object: Vec<u8> = Vec::new();
    append_str(&mut object, "o ");
    match mesh.name() {
        Some(name) => {
            append_str(&mut object, name.as_str());
        },
        None => {
            append_str(&mut object, file_path);
        },
    }
    data.push(remark);
    data.push(library);
    data.push(object);
    let ghost head = head_lines(mesh.name_spec(), file_path@);
    assert(text::views(data@) =~= head);

    let verts = mesh.verticies();
    let ghost vertex_lines = Seq::new(verts@.len(), |i: int| vertex_line(verts@[i]));
    let mut i: usize = 0;
    while i < verts.len()
        invariant
            i <= verts.len(),
            vertex_lines == Seq::new(verts@.len(), |i: int| vertex_line(verts@[i])),
            text::views(data@) == head + vertex_lines.take(i as int),
        decreases verts.len() - i,
    {
        let ghost before = text::views(data@);
        let line = write_vertex(&verts[i]);
        let ghost written = line@;
        data.push(line);
        assert(written == vertex_lines[i as int]);
        assert(text::views(data@) =~= before.push(written));
        assert(vertex_lines.take(i as int + 1) =~= vertex_lines.take(i as int).push(written));
        assert(text::views(data@) =~= head + vertex_lines.take(i as int + 1));
        i += 1;
    }
    assert(vertex_lines.take(i as int) =~= vertex_lines);

    let faces = mesh.faces();
    let ghost lists = mesh.faces_spec();
    let ghost face_lines = Seq::new(lists.len(), |i: int| face_line(lists[i]));
    let mut k: usize = 0;
    while k < faces.len()
        invariant
            k <= faces.len(),
            lists == crate::mesh::primitive::face_views(faces@),
            places_countable(lists),
            face_lines == Seq::new(lists.len(), |i: int| face_line(lists[i])),
            text::views(data@) == head + vertex_lines + face_lines.take(k as int),
        decreases faces.len() - k,
    {
        assert(faces@[k as int]@ == lists[k as int]);
        assert forall|j: int| 0 <= j < faces@[k as int]@.len() implies (#[trigger] faces@[k as int]@[j])@
            < usize::MAX by {
            assert(lists[k as int][j]@ < usize::MAX);
        }
        let ghost before = text::views(data@);
        let line = write_face(&faces[k]);
        let ghost written = line@;
        data.push(line);
        assert(written == face_lines[k as int]);
        assert(text::views(data@) =~= before.push(written));
        assert(face_lines.take(k as int + 1) =~= face_lines.take(k as int).push(written));
        assert(text::views(data@) =~= head + vertex_lines + face_lines.take(k as int + 1));
        k += 1;
    }
    assert(face_lines.take(k as int) =~= face_lines);
    text::join(&data, 10u8)
}

} // verus!
