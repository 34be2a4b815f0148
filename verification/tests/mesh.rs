use geogrid::base::{Face, FaceIndex, Line, Point, PointIndex, Vec3, VertexIndex};
use geogrid::mesh::{Mesh, Primitive, Vertex};
use geogrid::wavefront::{build_mesh, mesh_add_face, Polygon};

fn coords(v: &Vertex<i64>) -> (i64, i64, i64) {
    (v.x, v.y, v.z)
}

fn numbers(face: &Face) -> Vec<usize> {
    face.verts().into_iter().map(|v| v.index()).collect()
}

#[test]
fn indices_keep_their_number() {
    assert_eq!(PointIndex::new(7).index(), 7);
    assert_eq!(VertexIndex::new(8).index(), 8);
    assert_eq!(FaceIndex::new(9).index(), 9);
    assert_eq!(PointIndex::end().index(), usize::MAX);
    assert_eq!(VertexIndex::end().index(), usize::MAX);
    assert_eq!(FaceIndex::end().index(), usize::MAX);
    assert_eq!(PointIndex::new(3), PointIndex::new(3));
    assert_ne!(PointIndex::new(3), PointIndex::new(4));
}

#[test]
fn face_collects_vertices_in_order() {
    let mut face = Face::empty();
    assert!(face.verts().is_empty());
    face.add_vert(VertexIndex::new(4));
    face.add_vert(VertexIndex::new(2));
    assert_eq!(numbers(&face), vec![4, 2]);
    let copy = face.clone();
    assert_eq!(numbers(&copy), vec![4, 2]);
    assert_eq!(face.consume(), vec![VertexIndex::new(4), VertexIndex::new(2)]);
    assert!(Face::capacity(8).verts().is_empty());
    assert_eq!(numbers(&Face::new(vec![VertexIndex::new(1)])), vec![1]);
}

#[test]
fn vertices_are_made_from_their_parts() {
    assert_eq!(coords(&Vertex::new(1, 2, 3)), (1, 2, 3));
    assert_eq!(coords(&Vertex::from_tripple((1, 2, 3))), (1, 2, 3));
    assert_eq!(coords(&Vertex::from_quad((1, 2, 3, 4))), (1, 2, 3));
    let v: Vertex<i64> = Vertex::from_vec3(Vec3::new(5, 6, 7));
    assert_eq!(coords(&v), (5, 6, 7));
    let p = v.to_vec3();
    assert_eq!((p.x, p.y, p.z), (5, 6, 7));
    let g = geogrid::base::Vertex::<i32>::new(1, 2, 3);
    let w = geogrid::base::Vertex::<i32>::from_vec3(g.to_vec3());
    assert_eq!((w.x, w.y, w.z), (1, 2, 3));
}

#[test]
fn mesh_hands_out_places() {
    let mut mesh = Mesh::<i64>::new();
    assert_eq!(mesh.name(), None);
    mesh.set_name(String::from("cube"));
    assert_eq!(mesh.name(), Some(String::from("cube")));
    assert_eq!(mesh.add_vertex(Vertex::new(1, 2, 3)).index(), 0);
    assert_eq!(mesh.add_vertex(Vertex::new(4, 5, 6)).index(), 1);
    assert_eq!(mesh.add_face(Face::new(vec![VertexIndex::new(0), VertexIndex::new(1)])).index(), 0);
    assert_eq!(mesh.verticies().len(), 2);
    assert_eq!(mesh.faces().len(), 1);
    assert_eq!(coords(mesh.vertex(PointIndex::new(1)).unwrap()), (4, 5, 6));
    assert!(mesh.vertex(PointIndex::new(2)).is_none());
    *mesh.vertex_mut(PointIndex::new(0)).unwrap() = Vertex::new(9, 9, 9);
    assert_eq!(coords(mesh.vertex(PointIndex::new(0)).unwrap()), (9, 9, 9));
    assert!(mesh.vertex_mut(PointIndex::new(2)).is_none());
}

#[test]
fn make_face_appends_its_vertices() {
    let mut mesh = Mesh::<i64>::new();
    mesh.add_vertex(Vertex::new(0, 0, 0));
    let face = mesh.make_face(vec![Vertex::new(1, 0, 0), Vertex::new(0, 1, 0), Vertex::new(0, 0, 1)]);
    assert_eq!(face.index(), 0);
    assert_eq!(mesh.verticies().len(), 4);
    assert_eq!(numbers(&mesh.faces()[0]), vec![1, 2, 3]);
    assert_eq!(coords(&mesh.verticies()[3]), (0, 0, 1));
}

#[test]
fn translate_and_invert_work_in_place() {
    let mut mesh = Mesh::<i64>::new();
    mesh.add_vertex(Vertex::new(1, 2, 3));
    mesh.add_vertex(Vertex::new(i64::MIN, i64::MIN, i64::MIN));
    mesh.invert_x();
    assert_eq!(coords(&mesh.verticies()[0]), (-1, 2, 3));
    assert_eq!(coords(&mesh.verticies()[1]), (i64::MIN, i64::MIN, i64::MIN));
    mesh.invert_y();
    mesh.invert_z();
    assert_eq!(coords(&mesh.verticies()[0]), (-1, -2, -3));
    assert_eq!(coords(&mesh.verticies()[1]), (i64::MIN, i64::MIN, i64::MIN));
    mesh.translate(Vec3::new(10, 20, 30));
    assert_eq!(coords(&mesh.verticies()[0]), (9, 18, 27));
}

#[test]
fn map_verts_leaves_the_mesh_alone() {
    let mut mesh = Mesh::<i64>::new();
    mesh.set_name(String::from("m"));
    mesh.make_face(vec![Vertex::new(1, 2, 3), Vertex::new(4, 5, 6)]);
    let doubled = mesh.map_verts(|v| Vertex::new(v.x * 2, v.y * 2, v.z * 2));
    assert_eq!(coords(&doubled.verticies()[1]), (8, 10, 12));
    assert_eq!(coords(&mesh.verticies()[1]), (4, 5, 6));
    assert_eq!(numbers(&doubled.faces()[0]), vec![0, 1]);
    assert_eq!(doubled.name(), Some(String::from("m")));
}

#[test]
fn records_become_a_mesh() {
    let positions = vec![(1i64, 2, 3, 1), (4, 5, 6, 1), (7, 8, 9, 1)];
    let polygons = vec![
        Polygon::P(vec![0, 1, 2]),
        Polygon::PT(vec![(2, 9), (1, 9)]),
        Polygon::PN(vec![(1, 7)]),
        Polygon::PTN(vec![(0, 5, 5), (2, 5, 5)]),
    ];
    let mesh = build_mesh(positions, polygons);
    assert_eq!(coords(&mesh.verticies()[0]), (1, 3, 2));
    assert_eq!(coords(&mesh.verticies()[2]), (7, 9, 8));
    assert_eq!(mesh.faces().len(), 4);
    assert_eq!(numbers(&mesh.faces()[0]), vec![0, 1, 2]);
    assert_eq!(numbers(&mesh.faces()[1]), vec![2, 1]);
    assert_eq!(numbers(&mesh.faces()[2]), vec![1]);
    assert_eq!(numbers(&mesh.faces()[3]), vec![0, 2]);
    assert_eq!(mesh.name(), None);
}

#[test]
fn mesh_add_face_appends_one_face() {
    let mut mesh = Mesh::<i32>::new();
    mesh_add_face(&mut mesh, vec![3, 1, 2]);
    mesh_add_face(&mut mesh, vec![]);
    assert_eq!(mesh.faces().len(), 2);
    assert_eq!(numbers(&mesh.faces()[0]), vec![3, 1, 2]);
    assert!(numbers(&mesh.faces()[1]).is_empty());
}

#[test]
fn line_measures() {
    let a = geogrid::base::Vertex::<i64>::new(2, 3, -4);
    let b = geogrid::base::Vertex::<i64>::new(4, 5, 2);
    let line = Line::new(&a, &b);
    let c = line.centroid();
    assert_eq!((c.x, c.y, c.z), (4, 7, -4));
    assert_eq!(line.length(), 0);
    let v = line.vector();
    assert_eq!((v.x, v.y, v.z), (0, 0, 0));
    let d = Line::new_directed(&a, &b).centroid();
    assert_eq!((d.x, d.y, d.z), (4, 7, -4));
}
