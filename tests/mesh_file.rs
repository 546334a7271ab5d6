use raytrace_core::obj::{obj_triangles, parse_corner, ObjError, ObjLine};

fn nums(v: &[f32]) -> Vec<u32> {
    v.iter().map(|x| x.to_bits()).collect()
}

fn face(corners: &[&str]) -> ObjLine {
    ObjLine::Face(corners.iter().map(|c| c.as_bytes().to_vec()).collect())
}

fn square_lines() -> Vec<ObjLine> {
    vec![
        ObjLine::Other,
        ObjLine::Vertex(nums(&[0.0, 0.0, 0.0])),
        ObjLine::Vertex(nums(&[1.0, 0.0, 0.0])),
        ObjLine::Vertex(nums(&[1.0, 1.0, 0.0])),
        ObjLine::Vertex(nums(&[0.0, 1.0, 0.0])),
        ObjLine::TexCoord(nums(&[0.0, 0.0])),
        ObjLine::TexCoord(nums(&[1.0, 0.0, 0.0])),
        ObjLine::TexCoord(nums(&[1.0, 1.0])),
        ObjLine::TexCoord(nums(&[0.0, 1.0])),
        ObjLine::Normal(nums(&[0.0, 0.0, 1.0])),
        face(&["1/1/1", "2/2/1", "3/3/1"]),
        face(&["1/1/1", "3/3/1", "4/4/1"]),
    ]
}

#[test]
fn corners_read_three_indices() {
    assert_eq!(parse_corner(&b"1/2/3".to_vec()), Some((1, 2, 3)));
    assert_eq!(parse_corner(&b"10/0/42/7".to_vec()), Some((10, 0, 42)));
    assert_eq!(parse_corner(&b"1//3".to_vec()), None);
    assert_eq!(parse_corner(&b"1/2".to_vec()), None);
    assert_eq!(parse_corner(&b"1/2/3/".to_vec()), None);
    assert_eq!(parse_corner(&b"1/x/3".to_vec()), None);
    assert_eq!(parse_corner(&b"99999999999999999999999/1/1".to_vec()), None);
    assert_eq!(parse_corner(&vec![]), None);
}

#[test]
fn square_makes_two_triangles() {
    let tris = obj_triangles(&square_lines(), 4).unwrap();
    assert_eq!(tris.len(), 2);
    assert_eq!(tris[1].points[1], [1.0f32.to_bits(), 1.0f32.to_bits(), 0]);
    assert_eq!(tris[1].points[2], [0u32, 1.0f32.to_bits(), 0]);
    assert_eq!(tris[0].normal, [0, 0, 1.0f32.to_bits()]);
    assert_eq!(tris[0].tex_coords[1], [1.0f32.to_bits(), 0]);
    assert_eq!(tris[1].tex_coords[2], [0, 1.0f32.to_bits()]);
    assert!(tris.iter().all(|t| t.material_id == 4 && t.texture_ids == [-1, -1, -1]));
}

#[test]
fn file_without_faces_has_no_triangles() {
    let lines = vec![ObjLine::Other, ObjLine::Vertex(nums(&[0.0, 0.0, 0.0]))];
    assert_eq!(obj_triangles(&lines, 0).unwrap().len(), 0);
    assert_eq!(obj_triangles(&vec![], 0).unwrap().len(), 0);
}

#[test]
fn quad_face_is_rejected() {
    let mut lines = square_lines();
    lines.push(face(&["1/1/1", "2/2/1", "3/3/1", "4/4/1"]));
    let e = obj_triangles(&lines, 0).err().unwrap();
    assert_eq!(e, ObjError::InvalidFaceCount);
    assert_eq!(e.message(), "Invalid face indices count (Tip: Try triangulating the mesh)");
}

#[test]
fn short_vertex_is_rejected() {
    let lines = vec![ObjLine::Vertex(nums(&[0.0, 1.0]))];
    assert_eq!(obj_triangles(&lines, 0).err(), Some(ObjError::InvalidVertexCount));
}

#[test]
fn face_before_its_vertices_is_rejected() {
    let lines = vec![face(&["1/1/1", "2/1/1", "3/1/1"]), ObjLine::Vertex(nums(&[0.0, 0.0, 0.0]))];
    assert_eq!(obj_triangles(&lines, 0).err(), Some(ObjError::IndexOutOfRange));
    let mut lines = square_lines();
    lines.push(face(&["0/1/1", "2/2/1", "3/3/1"]));
    assert_eq!(obj_triangles(&lines, 0).err(), Some(ObjError::IndexOutOfRange));
}

#[test]
fn malformed_corner_is_rejected() {
    let mut lines = square_lines();
    lines.push(face(&["1/1", "2/2/1", "3/3/1", "4/4/4"]));
    assert_eq!(obj_triangles(&lines, 0).err(), Some(ObjError::InvalidFaceIndex));
}
