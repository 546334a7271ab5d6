use vstd::prelude::*;

verus! {

/// Bit pattern of `0.0f32`.
pub const ZERO_BITS: u32 = 0;

/// Bit pattern of `1.0f32`.
pub const ONE_BITS: u32 = 0x3f80_0000;

/// Bit pattern of `2.0f32`.
pub const TWO_BITS: u32 = 0x4000_0000;

/// Bit pattern of `3.0f32`.
pub const THREE_BITS: u32 = 0x4040_0000;

/// Bit pattern of `0.5f32`.
pub const HALF_BITS: u32 = 0x3f00_0000;

/// A triangle as the scene assembler sees it. Coordinates are `f32` bit
/// patterns; a texture id of `-1` means that the slot has no texture.
#[derive(Clone, Copy, Debug)]
pub struct Triangle {
    pub points: [[u32; 3]; 3],
    pub normal: [u32; 3],
    pub material_id: i32,
    /// Diffuse, roughness and normal texture ids.
    pub texture_ids: [i32; 3],
    pub tex_coords: [[u32; 2]; 3],
}

impl Triangle {
    pub fn new(
        points: [[u32; 3]; 3],
        normal: [u32; 3],
        material_id: i32,
        texture_ids: [i32; 3],
        tex_coords: [[u32; 2]; 3],
    ) -> (r: Triangle)
        ensures
            r == (Triangle { points, normal, material_id, texture_ids, tex_coords }),
    {
        Triangle { points, normal, material_id, texture_ids, tex_coords }
    }

    /// The placeholder triangle: all zero, material 0, no textures.
    pub open spec fn spec_empty() -> Triangle {
        Triangle {
            points: [[0u32, 0, 0], [0u32, 0, 0], [0u32, 0, 0]],
            normal: [0u32, 0, 0],
            material_id: 0,
            texture_ids: [0i32, 0, 0],
            tex_coords: [[0u32, 0], [0u32, 0], [0u32, 0]],
        }
    }

    pub fn empty() -> (r: Triangle)
        ensures
            r == Triangle::spec_empty(),
    {
        Triangle {
            points: [[0u32, 0, 0], [0u32, 0, 0], [0u32, 0, 0]],
            normal: [0u32, 0, 0],
            material_id: 0,
            texture_ids: [0i32, 0, 0],
            tex_coords: [[0u32, 0], [0u32, 0], [0u32, 0]],
        }
    }
}

/// GPU layout of a triangle: seven four-word rows. Geometry rows hold `f32`
/// bit patterns; the last row holds `[material, diffuse, roughness, normal]`
/// ids. The fourth word of each position row and the last two words of
/// `texcoords2` are padding.
#[derive(Clone, Copy, Debug)]
pub struct TriangleUniform {
    pub vertex1: [u32; 4],
    pub vertex2: [u32; 4],
    pub vertex3: [u32; 4],
    pub normal: [u32; 4],
    /// `u0, v0, u1, v1`.
    pub texcoords1: [u32; 4],
    /// `u2, v2`, padding, padding.
    pub texcoords2: [u32; 4],
    pub material_texture_id: [i32; 4],
}

/// The record that `TriangleUniform::new` packs `t` into.
pub open spec fn packed(t: Triangle) -> TriangleUniform {
    TriangleUniform {
        vertex1: [t.points[0][0], t.points[0][1], t.points[0][2], ZERO_BITS],
        vertex2: [t.points[1][0], t.points[1][1], t.points[1][2], ZERO_BITS],
        vertex3: [t.points[2][0], t.points[2][1], t.points[2][2], ZERO_BITS],
        normal: [t.normal[0], t.normal[1], t.normal[2], ZERO_BITS],
        texcoords1: [t.tex_coords[0][0], t.tex_coords[0][1], t.tex_coords[1][0], t.tex_coords[1][1]],
        texcoords2: [t.tex_coords[2][0], t.tex_coords[2][1], ZERO_BITS, ZERO_BITS],
        material_texture_id: [t.material_id, t.texture_ids[0], t.texture_ids[1], t.texture_ids[2]],
    }
}

/// The triangle that `TriangleUniform::to_triangle` reads back out of `u`;
/// padding words are ignored.
pub open spec fn unpacked(u: TriangleUniform) -> Triangle {
    Triangle {
        points: [
            [u.vertex1[0], u.vertex1[1], u.vertex1[2]],
            [u.vertex2[0], u.vertex2[1], u.vertex2[2]],
            [u.vertex3[0], u.vertex3[1], u.vertex3[2]],
        ],
        normal: [u.normal[0], u.normal[1], u.normal[2]],
        material_id: u.material_texture_id[0],
        texture_ids: [u.material_texture_id[1], u.material_texture_id[2], u.material_texture_id[3]],
        tex_coords: [
            [u.texcoords1[0], u.texcoords1[1]],
            [u.texcoords1[2], u.texcoords1[3]],
            [u.texcoords2[0], u.texcoords2[1]],
        ],
    }
}

impl TriangleUniform {
    pub fn new(triangle: Triangle) -> (r: TriangleUniform)
        ensures
            r == packed(triangle),
    {
        let t = triangle;
        TriangleUniform {
            vertex1: [t.points[0][0], t.points[0][1], t.points[0][2], ZERO_BITS],
            vertex2: [t.points[1][0], t.points[1][1], t.points[1][2], ZERO_BITS],
            vertex3: [t.points[2][0], t.points[2][1], t.points[2][2], ZERO_BITS],
            normal: [t.normal[0], t.normal[1], t.normal[2], ZERO_BITS],
            texcoords1: [t.tex_coords[0][0], t.tex_coords[0][1], t.tex_coords[1][0], t.tex_coords[1][1]],
            texcoords2: [t.tex_coords[2][0], t.tex_coords[2][1], ZERO_BITS, ZERO_BITS],
            material_texture_id: [t.material_id, t.texture_ids[0], t.texture_ids[1], t.texture_ids[2]],
        }
    }

    /// The record of the placeholder triangle: its three vertices are the
    /// distinct points `(1,1,1)`, `(2,2,2)`, `(3,3,3)` (each with a padding word
    /// of the same value), which the shader recognises as "no geometry".
    pub open spec fn spec_empty() -> TriangleUniform {
        TriangleUniform {
            vertex1: [ONE_BITS, ONE_BITS, ONE_BITS, ONE_BITS],
            vertex2: [TWO_BITS, TWO_BITS, TWO_BITS, TWO_BITS],
            vertex3: [THREE_BITS, THREE_BITS, THREE_BITS, THREE_BITS],
            normal: [0u32, 0, 0, 0],
            texcoords1: [0u32, 0, 0, 0],
            texcoords2: [0u32, 0, 0, 0],
            material_texture_id: [0i32, 0, 0, 0],
        }
    }

    pub fn empty() -> (r: TriangleUniform)
        ensures
            r == TriangleUniform::spec_empty(),
    {
        TriangleUniform {
            vertex1: [ONE_BITS, ONE_BITS, ONE_BITS, ONE_BITS],
            vertex2: [TWO_BITS, TWO_BITS, TWO_BITS, TWO_BITS],
            vertex3: [THREE_BITS, THREE_BITS, THREE_BITS, THREE_BITS],
            normal: [0u32, 0, 0, 0],
            texcoords1: [0u32, 0, 0, 0],
            texcoords2: [0u32, 0, 0, 0],
            material_texture_id: [0i32, 0, 0, 0],
        }
    }

    /// Reads the triangle back out of the record.
    pub fn to_triangle(&self) -> (r: Triangle)
        ensures
            r == unpacked(*self),
    {
        let u = self;
        Triangle {
            points: [
                [u.vertex1[0], u.vertex1[1], u.vertex1[2]],
                [u.vertex2[0], u.vertex2[1], u.vertex2[2]],
                [u.vertex3[0], u.vertex3[1], u.vertex3[2]],
            ],
            normal: [u.normal[0], u.normal[1], u.normal[2]],
            material_id: u.material_texture_id[0],
            texture_ids: [u.material_texture_id[1], u.material_texture_id[2], u.material_texture_id[3]],
            tex_coords: [
                [u.texcoords1[0], u.texcoords1[1]],
                [u.texcoords1[2], u.texcoords1[3]],
                [u.texcoords2[0], u.texcoords2[1]],
            ],
        }
    }
}

/// Packing a triangle into its GPU record and reading it back gives the same
/// vertex positions, normal, texture coordinates and ids, bit for bit.
pub proof fn lemma_pack_round_trip(t: Triangle)
    ensures
        unpacked(packed(t)) == t,
{
    let u = unpacked(packed(t));
    assert(u.points =~= t.points) by {
        assert(u.points[0] =~= t.points[0]);
        assert(u.points[1] =~= t.points[1]);
        assert(u.points[2] =~= t.points[2]);
    }
    assert(u.normal =~= t.normal);
    assert(u.texture_ids =~= t.texture_ids);
    assert(u.tex_coords =~= t.tex_coords) by {
        assert(u.tex_coords[0] =~= t.tex_coords[0]);
        assert(u.tex_coords[1] =~= t.tex_coords[1]);
        assert(u.tex_coords[2] =~= t.tex_coords[2]);
    }
}

/// A sphere in GPU layout. `center[3]` is a per-sphere random value in
/// `[0, 1)` that the shader uses for jitter; `radius[0]` is the radius and the
/// other words are padding. Ids are `[material, diffuse, roughness, normal]`.
#[derive(Clone, Copy, Debug)]
pub struct Sphere {
    pub center: [u32; 4],
    pub radius: [u32; 4],
    pub material_texture_id: [i32; 4],
}

impl Sphere {
    /// `jitter` is the bit pattern of the random value stored beside the
    /// centre.
    pub fn new(center: [u32; 3], radius: u32, material_id: i32, texture_ids: [i32; 3], jitter: u32) -> (r: Sphere)
        ensures
            r.center@ == seq![center[0], center[1], center[2], jitter],
            r.radius@ == seq![radius, ZERO_BITS, ZERO_BITS, ZERO_BITS],
            r.material_texture_id@ == seq![material_id, texture_ids[0], texture_ids[1], texture_ids[2]],
    {
        let r = Sphere {
            center: [center[0], center[1], center[2], jitter],
            radius: [radius, ZERO_BITS, ZERO_BITS, ZERO_BITS],
            material_texture_id: [material_id, texture_ids[0], texture_ids[1], texture_ids[2]],
        };
        assert(r.center@ =~= seq![center[0], center[1], center[2], jitter]);
        assert(r.radius@ =~= seq![radius, ZERO_BITS, ZERO_BITS, ZERO_BITS]);
        assert(r.material_texture_id@ =~= seq![material_id, texture_ids[0], texture_ids[1], texture_ids[2]]);
        r
    }

    pub open spec fn spec_empty() -> Sphere {
        Sphere { center: [0u32, 0, 0, 0], radius: [0u32, 0, 0, 0], material_texture_id: [0i32, 0, 0, 0] }
    }

    /// The all-zero placeholder sphere (radius zero: never hit).
    pub fn empty() -> (r: Sphere)
        ensures
            r == Sphere::spec_empty(),
    {
        Sphere { center: [0u32, 0, 0, 0], radius: [0u32, 0, 0, 0], material_texture_id: [0i32, 0, 0, 0] }
    }

    pub open spec fn material_id(&self) -> i32 {
        self.material_texture_id[0]
    }
}

/// A material in GPU layout (`f32` bit patterns). Roughness runs from mirror
/// (0) to diffuse (1); emission is zero for a surface that emits no light.
#[derive(Clone, Copy, Debug)]
pub struct Material {
    pub albedo: [u32; 4],
    pub attenuation: [u32; 4],
    pub roughness: u32,
    pub emission: u32,
    pub ior: u32,
    pub padding: u32,
}

impl Material {
    pub fn new(albedo: [u32; 3], attenuation: [u32; 3], roughness: u32, emission: u32, ior: u32) -> (r: Material)
        ensures
            r.albedo@ == seq![albedo[0], albedo[1], albedo[2], ZERO_BITS],
            r.attenuation@ == seq![attenuation[0], attenuation[1], attenuation[2], ZERO_BITS],
            r.roughness == roughness,
            r.emission == emission,
            r.ior == ior,
            r.padding == ZERO_BITS,
    {
        let r = Material {
            albedo: [albedo[0], albedo[1], albedo[2], ZERO_BITS],
            attenuation: [attenuation[0], attenuation[1], attenuation[2], ZERO_BITS],
            roughness,
            emission,
            ior,
            padding: ZERO_BITS,
        };
        assert(r.albedo@ =~= seq![albedo[0], albedo[1], albedo[2], ZERO_BITS]);
        assert(r.attenuation@ =~= seq![attenuation[0], attenuation[1], attenuation[2], ZERO_BITS]);
        r
    }

    pub open spec fn spec_default() -> Material {
        Material {
            albedo: [ONE_BITS, ONE_BITS, ONE_BITS, ONE_BITS],
            attenuation: [ONE_BITS, ONE_BITS, ONE_BITS, ONE_BITS],
            roughness: HALF_BITS,
            emission: ZERO_BITS,
            ior: ZERO_BITS,
            padding: ZERO_BITS,
        }
    }

    /// White, half rough, not emitting.
    pub fn default() -> (r: Material)
        ensures
            r == Material::spec_default(),
    {
        Material {
            albedo: [ONE_BITS, ONE_BITS, ONE_BITS, ONE_BITS],
            attenuation: [ONE_BITS, ONE_BITS, ONE_BITS, ONE_BITS],
            roughness: HALF_BITS,
            emission: ZERO_BITS,
            ior: ZERO_BITS,
            padding: ZERO_BITS,
        }
    }
}

/// The environment light: which material and texture it uses (`-1`: none)
/// and its intensity (an `f32` bit pattern).
#[derive(Clone, Copy, Debug)]
pub struct Background {
    pub material_id: i32,
    pub texture_id: i32,
    pub intensity: u32,
}

impl Background {
    pub fn new(material_id: i32, texture_id: i32, intensity: u32) -> (r: Background)
        ensures
            r == (Background { material_id, texture_id, intensity }),
    {
        Background { material_id, texture_id, intensity }
    }

    /// No material, no texture, intensity one.
    pub fn default() -> (r: Background)
        ensures
            r == (Background { material_id: -1i32, texture_id: -1i32, intensity: ONE_BITS }),
    {
        Background { material_id: -1, texture_id: -1, intensity: ONE_BITS }
    }
}

} // verus!
