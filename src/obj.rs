use vstd::prelude::*;

use crate::geometry::Triangle;

verus! {

/// One line of a triangulated-mesh file, as the reader hands it over:
/// numbers already decoded to `f32` bit patterns, face corners as the raw
/// bytes of each `v/vt/vn` token.
pub enum ObjLine {
    /// `v x y z`
    Vertex(Vec<u32>),
    /// `vt u v [w]`
    TexCoord(Vec<u32>),
    /// `vn x y z`
    Normal(Vec<u32>),
    /// `f c1 c2 c3`
    Face(Vec<Vec<u8>>),
    /// Any other line.
    Other,
}

#[derive(Clone, Copy, Debug, PartialEq, Eq, Structural)]
pub enum ObjError {
    /// A vertex line without exactly three coordinates.
    InvalidVertexCount,
    /// A face that is not a triangle.
    InvalidFaceCount,
    /// A face corner that is not of the form `v/vt/vn` with decimal indices.
    InvalidFaceIndex,
    /// A face corner that names a vertex, texture coordinate or normal not
    /// defined before it.
    IndexOutOfRange,
}

impl ObjError {
    /// What went wrong, for the person who made the file.
    pub fn message(&self) -> (r: String)
        ensures
            *self == ObjError::InvalidFaceCount ==> r@ == "Invalid face indices count (Tip: Try triangulating the mesh)"@,
            *self == ObjError::InvalidVertexCount ==> r@ == "Invalid vertex coordinates count"@,
    {
        match self {
            ObjError::InvalidVertexCount => "Invalid vertex coordinates count".to_owned(),
            ObjError::InvalidFaceCount => "Invalid face indices count (Tip: Try triangulating the mesh)".to_owned(),
            ObjError::InvalidFaceIndex => "Invalid face index".to_owned(),
            ObjError::IndexOutOfRange => "Face index out of range".to_owned(),
        }
    }
}

pub open spec fn is_digit(c: u8) -> bool {
    48 <= c <= 57
}

pub open spec fn digits_value(p: Seq<u8>) -> nat
    decreases p.len(),
{
    if p.len() == 0 {
        0
    } else {
        digits_value(p.drop_last()) * 10 + (p.last() - 48) as nat
    }
}

pub open spec fn all_digits(p: Seq<u8>) -> bool {
    forall|k: int| 0 <= k < p.len() ==> is_digit(#[trigger] p[k])
}

/// A decimal index that fits a `usize`.
pub open spec fn part_ok(p: Seq<u8>) -> bool {
    p.len() > 0 && all_digits(p) && digits_value(p) <= usize::MAX
}

/// The pieces of `b` between `/` separators (at least one piece).
pub open spec fn split_slash(b: Seq<u8>) -> Seq<Seq<u8>>
    decreases b.len(),
{
    if b.len() == 0 {
        seq![seq![]]
    } else {
        let s = split_slash(b.drop_last());
        if b.last() == 47u8 {
            s.push(seq![])
        } else {
            s.update(s.len() - 1, s.last().push(b.last()))
        }
    }
}

/// A face corner: at least three pieces, each a decimal index.
pub open spec fn corner_ok(tok: Seq<u8>) -> bool {
    let parts = split_slash(tok);
    parts.len() >= 3 && forall|j: int| 0 <= j < parts.len() ==> part_ok(#[trigger] parts[j])
}

/// The vertex, texture-coordinate and normal indices of a corner (1-based).
pub open spec fn corner_of(tok: Seq<u8>) -> (nat, nat, nat) {
    let parts = split_slash(tok);
    (digits_value(parts[0]), digits_value(parts[1]), digits_value(parts[2]))
}

/// Reads a `v/vt/vn` face corner.
pub fn parse_corner(tok: &Vec<u8>) -> (r: Option<(usize, usize, usize)>)
    ensures
        r is Some <==> corner_ok(tok@),
        r matches Some(c) ==> c.0 == corner_of(tok@).0 && c.1 == corner_of(tok@).1 && c.2 == corner_of(tok@).2,
{
    let mut valid = true;
    let mut vals: Vec<usize> = Vec::new();
    let mut cur: usize = 0;
    let mut cur_len: usize = 0;
    let mut i: usize = 0;
    proof {
        assert(tok@.take(0) =~= seq![]);
    }
    while i < tok.len()
        invariant
            i <= tok@.len(),
            cur_len <= i,
            ({
                let s = split_slash(tok@.take(i as int));
                &&& s.len() >= 1
                &&& vals@.len() == s.len() - 1
                &&& cur_len == s.last().len()
                &&& valid <==> ((forall|j: int| 0 <= j < s.len() - 1 ==> part_ok(#[trigger] s[j])) && all_digits(s.last())
                    && digits_value(s.last()) <= usize::MAX)
                &&& valid ==> (forall|j: int| 0 <= j < vals@.len() ==> vals@[j] == digits_value(#[trigger] s[j]))
                &&& valid ==> cur == digits_value(s.last())
            }),
        decreases tok@.len() - i,
    {
        let c = tok[i];
        let ghost s = split_slash(tok@.take(i as int));
        proof {
            assert(tok@.take(i as int + 1).drop_last() =~= tok@.take(i as int));
        }
        let ghost s2 = split_slash(tok@.take(i as int + 1));
        if c == 47u8 {
            assert(s2 == s.push(seq![]));
            let was = valid;
            valid = valid && cur_len > 0;
            vals.push(cur);
            cur = 0;
            cur_len = 0;
            proof {
                assert(all_digits(s2.last()));
                assert(valid ==> (forall|j: int| 0 <= j < s2.len() - 1 ==> part_ok(#[trigger] s2[j]))) by {
                    if valid {
                        assert forall|j: int| 0 <= j < s2.len() - 1 implies part_ok(#[trigger] s2[j]) by {
                            if j < s.len() - 1 {
                                assert(s2[j] == s[j]);
                            } else {
                                assert(s2[j] == s.last());
                            }
                        }
                    }
                }
                assert(!valid ==> !(forall|j: int| 0 <= j < s2.len() - 1 ==> part_ok(#[trigger] s2[j]))) by {
                    if !valid {
                        if !was {
                            if !(forall|j: int| 0 <= j < s.len() - 1 ==> part_ok(#[trigger] s[j])) {
                                let j = choose|j: int| 0 <= j < s.len() - 1 && !part_ok(#[trigger] s[j]);
                                assert(s2[j] == s[j]);
                            } else {
                                assert(s2[s.len() - 1] == s.last());
                            }
                        } else {
                            assert(s2[s.len() - 1] == s.last());
                        }
                    }
                }
                assert(valid ==> (forall|j: int| 0 <= j < vals@.len() ==> vals@[j] == digits_value(#[trigger] s2[j]))) by {
                    if valid {
                        assert forall|j: int| 0 <= j < vals@.len() implies vals@[j] == digits_value(#[trigger] s2[j]) by {
                            if j < s.len() - 1 {
                                assert(s2[j] == s[j]);
                            } else {
                                assert(s2[j] == s.last());
                            }
                        }
                    }
                }
                assert(digits_value(s2.last()) == 0);
            }
        } else {
            let ghost last = s.last();
            assert(s2 == s.update(s.len() - 1, last.push(c)));
            assert(last.push(c).drop_last() =~= last);
            assert(digits_value(last.push(c)) == digits_value(last) * 10 + (c - 48) as nat);
            let was = valid;
            if valid && 48u8 <= c && c <= 57u8 {
                match cur.checked_mul(10) {
                    Some(m) => match m.checked_add((c - 48u8) as usize) {
                        Some(v) => {
                            cur = v;
                        },
                        None => {
                            valid = false;
                        },
                    },
                    None => {
                        valid = false;
                        assert(digits_value(last) * 10 + (c - 48) as nat > usize::MAX) by (nonlinear_arith)
                            requires
                                digits_value(last) * 10 > usize::MAX,
                        ;
                    },
                }
            } else {
                valid = false;
                proof {
                    if was {
                        assert(!is_digit(c));
                        assert(last.push(c)[last.len() as int] == c);
                    } else if !all_digits(last) {
                        let k = choose|k: int| 0 <= k < last.len() && !is_digit(#[trigger] last[k]);
                        assert(last.push(c)[k] == last[k]);
                    } else if !is_digit(c) {
                        assert(last.push(c)[last.len() as int] == c);
                    } else if digits_value(last) > usize::MAX {
                        assert(digits_value(last) * 10 + (c - 48) as nat > usize::MAX) by (nonlinear_arith)
                            requires
                                digits_value(last) > usize::MAX,
                                48 <= c,
                        ;
                    }
                }
            }
            cur_len = cur_len + 1;
            proof {
                assert forall|j: int| 0 <= j < s2.len() - 1 implies s2[j] == s[j] by {}
                if valid {
                    assert forall|k: int| 0 <= k < last.push(c).len() implies is_digit(#[trigger] last.push(c)[k]) by {
                        if k < last.len() {
                            assert(last.push(c)[k] == last[k]);
                        }
                    }
                }
            }
        }
        i = i + 1;
    }
    proof {
        assert(tok@.take(i as int) =~= tok@);
    }
    let ghost s = split_slash(tok@);
    if valid && cur_len > 0 && vals.len() >= 2 {
        assert(part_ok(s.last()));
        assert(forall|j: int| 0 <= j < s.len() ==> part_ok(#[trigger] s[j]));
        let c = if vals.len() >= 3 { vals[2] } else { cur };
        Some((vals[0], vals[1], c))
    } else {
        proof {
            if valid && cur_len == 0 {
                assert(!part_ok(s[s.len() - 1]));
            }
            if !valid && (forall|j: int| 0 <= j < s.len() - 1 ==> part_ok(#[trigger] s[j])) {
                assert(!part_ok(s[s.len() - 1]));
            }
        }
        None
    }
}

/// What the lines read so far define.
pub struct ObjContents {
    pub vertices: Seq<[u32; 3]>,
    pub tex_coords: Seq<[u32; 2]>,
    pub normals: Seq<[u32; 3]>,
    pub triangles: Seq<Triangle>,
}

pub open spec fn corners_ok(corners: Seq<Vec<u8>>) -> bool {
    forall|k: int| 0 <= k < corners.len() ==> corner_ok(#[trigger] corners[k]@)
}

/// `i` is a 1-based index into a list of `len` entries.
pub open spec fn in_list(i: nat, len: int) -> bool {
    1 <= i <= len
}

/// The triangle a three-corner face makes: its corners' vertices and
/// texture coordinates, the first corner's normal, material `material_id`,
/// and no textures.
pub open spec fn face_step(a: ObjContents, corners: Seq<Vec<u8>>, material_id: i32) -> Result<ObjContents, ObjError> {
    if !corners_ok(corners) {
        Err(ObjError::InvalidFaceIndex)
    } else if corners.len() != 3 {
        Err(ObjError::InvalidFaceCount)
    } else {
        let c0 = corner_of(corners[0]@);
        let c1 = corner_of(corners[1]@);
        let c2 = corner_of(corners[2]@);
        let nv = a.vertices.len() as int;
        let nt = a.tex_coords.len() as int;
        if !(in_list(c0.0, nv) && in_list(c1.0, nv) && in_list(c2.0, nv) && in_list(c0.1, nt) && in_list(c1.1, nt)
            && in_list(c2.1, nt) && in_list(c0.2, a.normals.len() as int)) {
            Err(ObjError::IndexOutOfRange)
        } else {
            let t = Triangle {
                points: [a.vertices[c0.0 - 1], a.vertices[c1.0 - 1], a.vertices[c2.0 - 1]],
                normal: a.normals[c0.2 - 1],
                material_id,
                texture_ids: [-1i32, -1i32, -1i32],
                tex_coords: [a.tex_coords[c0.1 - 1], a.tex_coords[c1.1 - 1], a.tex_coords[c2.1 - 1]],
            };
            Ok(ObjContents { triangles: a.triangles.push(t), ..a })
        }
    }
}

/// The effect of one line. A texture coordinate with fewer than two numbers
/// and a normal with fewer than three are skipped.
pub open spec fn line_step(a: ObjContents, line: ObjLine, material_id: i32) -> Result<ObjContents, ObjError> {
    match line {
        ObjLine::Vertex(v) => if v@.len() == 3 {
            Ok(ObjContents { vertices: a.vertices.push([v@[0], v@[1], v@[2]]), ..a })
        } else {
            Err(ObjError::InvalidVertexCount)
        },
        ObjLine::TexCoord(v) => if v@.len() >= 2 {
            Ok(ObjContents { tex_coords: a.tex_coords.push([v@[0], v@[1]]), ..a })
        } else {
            Ok(a)
        },
        ObjLine::Normal(v) => if v@.len() >= 3 {
            Ok(ObjContents { normals: a.normals.push([v@[0], v@[1], v@[2]]), ..a })
        } else {
            Ok(a)
        },
        ObjLine::Face(c) => face_step(a, c@, material_id),
        ObjLine::Other => Ok(a),
    }
}

pub open spec fn empty_contents() -> ObjContents {
    ObjContents { vertices: seq![], tex_coords: seq![], normals: seq![], triangles: seq![] }
}

/// The lines read in order; the first failing line decides the error.
pub open spec fn obj_fold(lines: Seq<ObjLine>, material_id: i32) -> Result<ObjContents, ObjError>
    decreases lines.len(),
{
    if lines.len() == 0 {
        Ok(empty_contents())
    } else {
        match obj_fold(lines.drop_last(), material_id) {
            Ok(a) => line_step(a, lines.last(), material_id),
            Err(e) => Err(e),
        }
    }
}

proof fn lemma_fold_error_sticks(lines: Seq<ObjLine>, k: int, material_id: i32)
    requires
        0 <= k <= lines.len(),
        obj_fold(lines.take(k), material_id) is Err,
    ensures
        obj_fold(lines, material_id) == obj_fold(lines.take(k), material_id),
    decreases lines.len(),
{
    if k < lines.len() {
        assert(lines.drop_last().take(k) =~= lines.take(k));
        lemma_fold_error_sticks(lines.drop_last(), k, material_id);
    } else {
        assert(lines.take(k) =~= lines);
    }
}

fn in_list_exec(i: usize, len: usize) -> (r: bool)
    ensures
        r == in_list(i as nat, len as int),
{
    1 <= i && i <= len
}

fn face_triangle(
    corners: &Vec<Vec<u8>>,
    vertices: &Vec<[u32; 3]>,
    tex_coords: &Vec<[u32; 2]>,
    normals: &Vec<[u32; 3]>,
    triangles: &Vec<Triangle>,
    material_id: i32,
) -> (r: Result<Triangle, ObjError>)
    ensures
        ({
            let a = ObjContents { vertices: vertices@, tex_coords: tex_coords@, normals: normals@, triangles: triangles@ };
            match face_step(a, corners@, material_id) {
                Ok(b) => r matches Ok(t) && b == (ObjContents { triangles: triangles@.push(t), ..a }),
                Err(e) => r == Err::<Triangle, ObjError>(e),
            }
        }),
{
    let mut parsed: Vec<(usize, usize, usize)> = Vec::new();
    let mut k: usize = 0;
    while k < corners.len()
        invariant
            k <= corners@.len(),
            parsed@.len() == k,
            forall|j: int| 0 <= j < k ==> corner_ok(#[trigger] corners@[j]@),
            forall|j: int|
                0 <= j < k ==> (#[trigger] parsed@[j]).0 == corner_of(corners@[j]@).0 && parsed@[j].1 == corner_of(
                    corners@[j]@,
                ).1 && parsed@[j].2 == corner_of(corners@[j]@).2,
        decreases corners@.len() - k,
    {
        match parse_corner(&corners[k]) {
            Some(c) => parsed.push(c),
            None => {
                return Err(ObjError::InvalidFaceIndex);
            },
        }
        k = k + 1;
    }
    if corners.len() != 3 {
        return Err(ObjError::InvalidFaceCount);
    }
    let (v0, t0, n0) = parsed[0];
    let (v1, t1, _) = parsed[1];
    let (v2, t2, _) = parsed[2];
    let nv = vertices.len();
    let nt = tex_coords.len();
    if !(in_list_exec(v0, nv) && in_list_exec(v1, nv) && in_list_exec(v2, nv) && in_list_exec(t0, nt) && in_list_exec(t1, nt)
        && in_list_exec(t2, nt) && in_list_exec(n0, normals.len())) {
        return Err(ObjError::IndexOutOfRange);
    }
    Ok(Triangle {
        points: [vertices[v0 - 1], vertices[v1 - 1], vertices[v2 - 1]],
        normal: normals[n0 - 1],
        material_id,
        texture_ids: [-1, -1, -1],
        tex_coords: [tex_coords[t0 - 1], tex_coords[t1 - 1], tex_coords[t2 - 1]],
    })
}

/// Builds the triangles of a triangulated-mesh file from its lines, each
/// with material `material_id` and no textures. Faces refer to the
/// vertices, texture coordinates and normals defined above them.
pub fn obj_triangles(lines: &Vec<ObjLine>, material_id: i32) -> (r: Result<Vec<Triangle>, ObjError>)
    ensures
        match obj_fold(lines@, material_id) {
            Ok(a) => r matches Ok(t) && t@ == a.triangles,
            Err(e) => r == Err::<Vec<Triangle>, ObjError>(e),
        },
{
    let mut vertices: Vec<[u32; 3]> = Vec::new();
    let mut tex_coords: Vec<[u32; 2]> = Vec::new();
    let mut normals: Vec<[u32; 3]> = Vec::new();
    let mut triangles: Vec<Triangle> = Vec::new();
    let mut i: usize = 0;
    assert(lines@.take(0) =~= seq![]);
    while i < lines.len()
        invariant
            i <= lines@.len(),
            obj_fold(lines@.take(i as int), material_id) == Ok::<ObjContents, ObjError>(
                ObjContents {
                    vertices: vertices@,
                    tex_coords: tex_coords@,
                    normals: normals@,
                    triangles: triangles@,
                },
            ),
        decreases lines@.len() - i,
    {
        proof {
            assert(lines@.take(i as int + 1).drop_last() =~= lines@.take(i as int));
        }
        match &lines[i] {
            ObjLine::Vertex(v) => {
                if v.len() != 3 {
                    proof {
                        lemma_fold_error_sticks(lines@, i as int + 1, material_id);
                    }
                    return Err(ObjError::InvalidVertexCount);
                }
                vertices.push([v[0], v[1], v[2]]);
            },
            ObjLine::TexCoord(v) => {
                if v.len() >= 2 {
                    tex_coords.push([v[0], v[1]]);
                }
            },
            ObjLine::Normal(v) => {
                if v.len() >= 3 {
                    normals.push([v[0], v[1], v[2]]);
                }
            },
            ObjLine::Face(c) => {
                match face_triangle(c, &vertices, &tex_coords, &normals, &triangles, material_id) {
                    Ok(t) => {
                        triangles.push(t);
                    },
                    Err(e) => {
                        proof {
                            lemma_fold_error_sticks(lines@, i as int + 1, material_id);
                        }
                        return Err(e);
                    },
                }
            },
            ObjLine::Other => {},
        }
        i = i + 1;
    }
    assert(lines@.take(i as int) =~= lines@);
    Ok(triangles)
}

} // verus!
