use geogrid::base::text::{decimal, join};
use geogrid::base::{Face, GeoNum, VertexIndex};
use geogrid::mesh::{Mesh, Vertex};
use geogrid::wavefront::export_bytes;

fn text(bytes: Vec<u8>) -> String {
    String::from_utf8(bytes).unwrap()
}

#[test]
fn decimal_writes_every_digit() {
    assert_eq!(text(decimal(0)), "0");
    assert_eq!(text(decimal(9)), "9");
    assert_eq!(text(decimal(10)), "10");
    assert_eq!(text(decimal(1203)), "1203");
    assert_eq!(text(decimal(u64::MAX)), "18446744073709551615");
}

#[test]
fn scalars_are_written_with_their_sign() {
    assert_eq!(text(0i64.to_text()), "0");
    assert_eq!(text((-1i64).to_text()), "-1");
    assert_eq!(text(i64::MIN.to_text()), "-9223372036854775808");
    assert_eq!(text(i64::MAX.to_text()), "9223372036854775807");
    assert_eq!(text(i32::MIN.to_text()), "-2147483648");
    assert_eq!(text(42i32.to_text()), "42");
    assert_eq!(<i64 as GeoNum>::neg_one(), -1);
}

#[test]
fn join_puts_the_separator_between() {
    assert_eq!(text(join(&vec![], b' ')), "");
    assert_eq!(text(join(&vec![b"a".to_vec()], b' ')), "a");
    assert_eq!(text(join(&vec![b"a".to_vec(), b"".to_vec(), b"bc".to_vec()], b'-')), "a--bc");
}

#[test]
fn export_writes_head_vertices_and_faces() {
    let mut mesh = Mesh::<i64>::new();
    mesh.make_face(vec![Vertex::new(1, 2, 3), Vertex::new(-4, 5, 6), Vertex::new(0, 0, 10)]);
    mesh.add_face(Face::new(vec![VertexIndex::new(2), VertexIndex::new(0)]));
    mesh.add_face(Face::empty());
    let expected = "# Generated for use in Torus\n\
                    mtllib out/cube.mtl\n\
                    o out/cube\n\
                    v 1 2 3\n\
                    v -4 5 6\n\
                    v 0 0 10\n\
                    f 1 2 3\n\
                    f 3 1\n\
                    f ";
    assert_eq!(text(export_bytes(&mesh, "out/cube")), expected);
}

#[test]
fn export_names_the_object_after_the_mesh() {
    let mut mesh = Mesh::<i32>::new();
    mesh.set_name(String::from("box"));
    let expected = "# Generated for use in Torus\nmtllib file.mtl\no box";
    assert_eq!(text(export_bytes(&mesh, "file")), expected);
}
