use scene::mesh::{flatten_objects, load_frame, LoadError, Vertex};
use wavefront_obj::obj;

fn bits(x: f64, y: f64, z: f64) -> Vertex {
    Vertex { x_bits: x.to_bits(), y_bits: y.to_bits(), z_bits: z.to_bits() }
}

#[test]
fn load_single_triangle_in_order() {
    let src = "v 1.0 2.0 3.0\nv 4.0 5.0 6.0\nv 7.0 8.0 9.0\nf 1 2 3\n";
    let f = load_frame(Some(src)).unwrap();
    assert_eq!(f.vertices.len(), 3);
    // The parser fans a face around its last corner: `f 1 2 3` yields
    // the triangle (v3, v1, v2).
    assert_eq!(f.vertices[0], bits(7.0, 8.0, 9.0));
    assert_eq!(f.vertices[1], bits(1.0, 2.0, 3.0));
    assert_eq!(f.vertices[2], bits(4.0, 5.0, 6.0));
}

#[test]
fn load_quad_yields_two_triangles() {
    let src = "v 0.0 0.0 0.0\nv 1.0 0.0 0.0\nv 1.0 1.0 0.0\nv 0.0 1.0 0.0\nf 1 2 3 4\n";
    let f = load_frame(Some(src)).unwrap();
    // A quad is fanned into two triangles: six corner entries.
    assert_eq!(f.vertices.len(), 6);
    // Fan around the last corner: (v4, v1, v2) then (v4, v2, v3).
    assert_eq!(f.vertices[0], bits(0.0, 1.0, 0.0));
    assert_eq!(f.vertices[1], bits(0.0, 0.0, 0.0));
    assert_eq!(f.vertices[2], bits(1.0, 0.0, 0.0));
    assert_eq!(f.vertices[3], bits(0.0, 1.0, 0.0));
    assert_eq!(f.vertices[4], bits(1.0, 0.0, 0.0));
    assert_eq!(f.vertices[5], bits(1.0, 1.0, 0.0));
}

#[test]
fn load_two_faces_counts_all_corners() {
    let src = "v 0.0 0.0 0.0\nv 1.0 0.0 0.0\nv 0.0 1.0 0.0\nf 1 2 3\nf 3 2 1\n";
    let f = load_frame(Some(src)).unwrap();
    assert_eq!(f.vertices.len(), 6);
}

#[test]
fn load_empty_document_yields_empty_frame() {
    let f = load_frame(Some("")).unwrap();
    assert_eq!(f.vertices.len(), 0);
}

#[test]
fn load_missing_yields_missing_not_partial() {
    let r = load_frame(None);
    assert!(matches!(r, Err(LoadError::Missing)));
}

#[test]
fn load_malformed_yields_parse_error() {
    let src = "v 1.0 two 3.0\nf 1 2 3\n";
    match load_frame(Some(src)) {
        Err(LoadError::Parse { line, message }) => {
            assert!(line >= 1);
            assert!(!message.is_empty());
        }
        other => panic!("expected a parse error, got {:?}", other),
    }
}

fn test_object(shapes: Vec<obj::Shape>) -> obj::Object {
    obj::Object {
        name: String::new(),
        vertices: vec![
            obj::Vertex { x: 1.0, y: 2.0, z: 3.0 },
            obj::Vertex { x: 4.0, y: 5.0, z: 6.0 },
        ],
        tex_vertices: vec![],
        normals: vec![],
        geometry: vec![obj::Geometry { material_name: None, shapes }],
    }
}

fn shape(p: obj::Primitive) -> obj::Shape {
    obj::Shape { primitive: p, groups: vec![], smoothing_groups: vec![] }
}

#[test]
fn flatten_skips_points_and_lines() {
    let objs = vec![test_object(vec![
        shape(obj::Primitive::Point((0, None, None))),
        shape(obj::Primitive::Line((0, None, None), (1, None, None))),
        shape(obj::Primitive::Triangle(
            (1, None, None),
            (0, None, None),
            (1, None, None),
        )),
    ])];
    let f = flatten_objects(&objs).unwrap();
    assert_eq!(f.vertices.len(), 3);
    assert_eq!(f.vertices[0], bits(4.0, 5.0, 6.0));
    assert_eq!(f.vertices[1], bits(1.0, 2.0, 3.0));
    assert_eq!(f.vertices[2], bits(4.0, 5.0, 6.0));
}

#[test]
fn flatten_refuses_out_of_range_corner() {
    let objs = vec![test_object(vec![shape(obj::Primitive::Triangle(
        (0, None, None),
        (2, None, None),
        (1, None, None),
    ))])];
    let r = flatten_objects(&objs);
    assert!(matches!(r, Err(LoadError::IndexOutOfRange)));
}

#[test]
fn flatten_walks_objects_in_order() {
    let a = test_object(vec![shape(obj::Primitive::Triangle(
        (0, None, None),
        (0, None, None),
        (0, None, None),
    ))]);
    let b = obj::Object {
        name: String::new(),
        vertices: vec![obj::Vertex { x: 7.0, y: 8.0, z: 9.0 }],
        tex_vertices: vec![],
        normals: vec![],
        geometry: vec![obj::Geometry {
            material_name: None,
            shapes: vec![shape(obj::Primitive::Triangle(
                (0, None, None),
                (0, None, None),
                (0, None, None),
            ))],
        }],
    };
    let f = flatten_objects(&vec![a, b]).unwrap();
    assert_eq!(f.vertices.len(), 6);
    assert_eq!(f.vertices[0], bits(1.0, 2.0, 3.0));
    assert_eq!(f.vertices[3], bits(7.0, 8.0, 9.0));
}

#[test]
fn huge_negative_index_is_refused_before_parse() {
    // A nineteen-digit negative face index could overflow the
    // parser's index arithmetic; the loader must refuse the document
    // up front instead of handing it to the parser.
    let src = "v 0.0 0.0 0.0\nf 1 -9223372036854775808 1\n";
    let r = load_frame(Some(src));
    assert!(matches!(r, Err(LoadError::OversizedIndexToken)));
}

#[test]
fn small_negative_index_reaches_the_parser() {
    // A short negative index passes the screen; this parser version
    // rejects it as out of range, a parse error, not a refusal by the
    // loader's screen.
    let src = "v 0.0 0.0 0.0\nv 1.0 0.0 0.0\nv 0.0 1.0 0.0\nf -3 -2 -1\n";
    let r = load_frame(Some(src));
    assert!(matches!(r, Err(LoadError::Parse { .. })));
}
