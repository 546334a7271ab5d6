use vstd::prelude::*;

use crate::geometry::{Material, Sphere, Triangle, TriangleUniform, packed};

verus! {

/// Which array an element of the scene came from.
#[derive(Clone, Copy, Debug, PartialEq, Eq, Structural)]
pub enum ElementKind {
    /// A triangle of the triangulated mesh; its ids already refer to the
    /// scene-wide arrays.
    MeshTriangle,
    /// A triangle of the multi-mesh asset; its ids are local to that asset.
    ModelTriangle,
    /// A sphere of the configuration.
    Sphere,
}

#[derive(Clone, Copy, Debug, PartialEq, Eq, Structural)]
pub enum AssemblyError {
    /// The element at `index` of its array names a material or a texture
    /// that does not exist.
    UnresolvedId { element: ElementKind, index: usize },
}

/// One entry of the combined texture array: where its image comes from.
#[derive(Clone, Copy, Debug, PartialEq, Eq, Structural)]
pub enum TextureSlot {
    /// The image at this position of the configuration's texture paths.
    Config(usize),
    /// The image at this position of the multi-mesh asset's images.
    Model(usize),
    /// A blank image, present only because the array may not be empty.
    Blank,
}

/// What the multi-mesh asset brought: triangles whose material and texture
/// ids are local to it, its materials, and how many images it carries.
pub struct MeshSource {
    pub triangles: Vec<Triangle>,
    pub materials: Vec<Material>,
    pub texture_count: usize,
}

/// Everything the assembler merges, in the order in which ids are handed out:
/// configuration materials and textures first, then the multi-mesh asset.
/// An absent source is an empty one.
pub struct SceneSources {
    pub materials: Vec<Material>,
    /// Number of images loaded from the configuration's texture paths.
    pub config_texture_count: usize,
    pub mesh_triangles: Vec<Triangle>,
    pub model: MeshSource,
    pub spheres: Vec<Sphere>,
}

/// The assembled scene: every array that the GPU reads, none of them empty.
pub struct Scene {
    pub materials: Vec<Material>,
    pub textures: Vec<TextureSlot>,
    pub triangles: Vec<Triangle>,
    pub triangle_uniforms: Vec<TriangleUniform>,
    pub spheres: Vec<Sphere>,
}

/// `id` is no texture (`-1`) or one of `count` textures.
pub open spec fn texture_resolves(id: i32, count: int) -> bool {
    id == -1 || (0 <= id && id < count)
}

/// All ids of `t` resolve against `materials` materials and `textures`
/// textures.
pub open spec fn triangle_resolves(t: Triangle, materials: int, textures: int) -> bool {
    &&& 0 <= t.material_id < materials
    &&& texture_resolves(t.texture_ids[0], textures)
    &&& texture_resolves(t.texture_ids[1], textures)
    &&& texture_resolves(t.texture_ids[2], textures)
}

pub open spec fn shift_texture(id: i32, offset: int) -> i32 {
    if id == -1 {
        id
    } else {
        (id + offset) as i32
    }
}

/// `t` with its local ids moved past `material_offset` materials and
/// `texture_offset` textures.
pub open spec fn renumbered(t: Triangle, material_offset: int, texture_offset: int) -> Triangle {
    Triangle {
        material_id: (t.material_id + material_offset) as i32,
        texture_ids: [
            shift_texture(t.texture_ids[0], texture_offset),
            shift_texture(t.texture_ids[1], texture_offset),
            shift_texture(t.texture_ids[2], texture_offset),
        ],
        ..t
    }
}

impl SceneSources {
    /// Materials before placeholders: the configuration's, then the asset's.
    pub open spec fn merged_materials(&self) -> Seq<Material> {
        self.materials@ + self.model.materials@
    }

    pub open spec fn merged_texture_count(&self) -> int {
        self.config_texture_count + self.model.texture_count
    }

    /// Triangles before placeholders: the mesh's, then the asset's with its
    /// ids renumbered.
    pub open spec fn merged_triangles(&self) -> Seq<Triangle> {
        self.mesh_triangles@ + self.model.triangles@.map_values(
            |t: Triangle| renumbered(t, self.materials@.len() as int, self.config_texture_count as int),
        )
    }

    /// A mesh triangle's material is one of the scene's. Texture ids of the
    /// mesh and of the configuration's spheres are carried as given.
    pub open spec fn mesh_triangle_ok(&self, i: int) -> bool {
        0 <= self.mesh_triangles@[i].material_id < self.merged_materials().len()
    }

    pub open spec fn model_triangle_ok(&self, i: int) -> bool {
        triangle_resolves(
            self.model.triangles@[i],
            self.model.materials@.len() as int,
            self.model.texture_count as int,
        )
    }

    pub open spec fn sphere_ok(&self, i: int) -> bool {
        0 <= self.spheres@[i].material_texture_id[0] < self.merged_materials().len()
    }

    /// Every material id resolves, and every id of the asset resolves
    /// within the asset.
    pub open spec fn resolves(&self) -> bool {
        &&& forall|i: int| 0 <= i < self.mesh_triangles@.len() ==> self.mesh_triangle_ok(i)
        &&& forall|i: int| 0 <= i < self.model.triangles@.len() ==> self.model_triangle_ok(i)
        &&& forall|i: int| 0 <= i < self.spheres@.len() ==> self.sphere_ok(i)
    }

    /// The first unresolved element, in the order mesh, asset, spheres.
    pub open spec fn first_unresolved(&self, e: AssemblyError) -> bool {
        match e {
            AssemblyError::UnresolvedId { element, index } => {
                let k = index as int;
                match element {
                    ElementKind::MeshTriangle => {
                        &&& k < self.mesh_triangles@.len()
                        &&& !self.mesh_triangle_ok(k)
                        &&& forall|i: int| 0 <= i < k ==> self.mesh_triangle_ok(i)
                    },
                    ElementKind::ModelTriangle => {
                        &&& forall|i: int| 0 <= i < self.mesh_triangles@.len() ==> self.mesh_triangle_ok(i)
                        &&& k < self.model.triangles@.len()
                        &&& !self.model_triangle_ok(k)
                        &&& forall|i: int| 0 <= i < k ==> self.model_triangle_ok(i)
                    },
                    ElementKind::Sphere => {
                        &&& forall|i: int| 0 <= i < self.mesh_triangles@.len() ==> self.mesh_triangle_ok(i)
                        &&& forall|i: int| 0 <= i < self.model.triangles@.len() ==> self.model_triangle_ok(i)
                        &&& k < self.spheres@.len()
                        &&& !self.sphere_ok(k)
                        &&& forall|i: int| 0 <= i < k ==> self.sphere_ok(i)
                    },
                }
            },
        }
    }

    /// Sizes whose ids fit in the `i32` fields of the GPU records.
    pub open spec fn fits(&self) -> bool {
        &&& self.merged_materials().len() <= i32::MAX
        &&& self.merged_texture_count() <= i32::MAX
    }
}

/// The combined texture array: configuration images, then asset images, or a
/// single blank one when there are none.
pub open spec fn texture_slots(config: nat, model: nat) -> Seq<TextureSlot> {
    if config + model == 0 {
        seq![TextureSlot::Blank]
    } else {
        Seq::new(config, |i: int| TextureSlot::Config(i as usize)) + Seq::new(
            model,
            |i: int| TextureSlot::Model(i as usize),
        )
    }
}

/// `s` with one placeholder `p` when it is empty.
pub open spec fn or_placeholder<T>(s: Seq<T>, p: T) -> Seq<T> {
    if s.len() == 0 {
        seq![p]
    } else {
        s
    }
}

impl Scene {
    /// What assembling `src` yields when every id resolves.
    pub open spec fn assembled_from(&self, src: &SceneSources) -> bool {
        &&& self.materials@ == or_placeholder(src.merged_materials(), Material::spec_default())
        &&& self.textures@ == texture_slots(src.config_texture_count as nat, src.model.texture_count as nat)
        &&& self.triangles@ == or_placeholder(src.merged_triangles(), Triangle::spec_empty())
        &&& self.triangle_uniforms@ == if src.merged_triangles().len() == 0 {
            seq![TriangleUniform::spec_empty()]
        } else {
            self.triangles@.map_values(|t: Triangle| packed(t))
        }
        &&& self.spheres@ == or_placeholder(src.spheres@, Sphere::spec_empty())
    }

    /// Every material id of every triangle and sphere names a material of
    /// the scene.
    pub open spec fn material_ids_in_range(&self) -> bool {
        &&& forall|i: int| 0 <= i < self.triangles@.len() ==> 0 <= #[trigger] self.triangles@[i].material_id < self.materials@.len()
        &&& forall|i: int| 0 <= i < self.spheres@.len() ==> 0 <= #[trigger] self.spheres@[i].material_texture_id[0] < self.materials@.len()
    }
}

fn texture_id_resolves(id: i32, count: usize) -> (r: bool)
    ensures
        r == texture_resolves(id, count as int),
{
    id == -1 || (0 <= id && (id as usize) < count)
}

fn triangle_ids_resolve(t: &Triangle, materials: usize, textures: usize) -> (r: bool)
    ensures
        r == triangle_resolves(*t, materials as int, textures as int),
{
    0 <= t.material_id && (t.material_id as usize) < materials && texture_id_resolves(t.texture_ids[0], textures)
        && texture_id_resolves(t.texture_ids[1], textures) && texture_id_resolves(t.texture_ids[2], textures)
}

/// Moves the ids of a triangle of the asset past the configuration's
/// materials and textures.
fn renumber(t: Triangle, material_offset: usize, texture_offset: usize, materials: usize, textures: usize) -> (r: Triangle)
    requires
        triangle_resolves(t, materials as int, textures as int),
        material_offset + materials <= i32::MAX,
        texture_offset + textures <= i32::MAX,
    ensures
        r == renumbered(t, material_offset as int, texture_offset as int),
{
    let mut ids = t.texture_ids;
    let mut k: usize = 0;
    while k < 3
        invariant
            k <= 3,
            texture_offset + textures <= i32::MAX,
            triangle_resolves(t, materials as int, textures as int),
            forall|j: int| 0 <= j < k ==> ids[j] == shift_texture(t.texture_ids[j], texture_offset as int),
            forall|j: int| k <= j < 3 ==> ids[j] == t.texture_ids[j],
        decreases 3 - k,
    {
        if ids[k] != -1 {
            ids[k] = ids[k] + texture_offset as i32;
        }
        k = k + 1;
    }
    let r = Triangle { material_id: t.material_id + material_offset as i32, texture_ids: ids, ..t };
    assert(r.texture_ids =~= renumbered(t, material_offset as int, texture_offset as int).texture_ids);
    r
}

/// Merges the configuration, the triangulated mesh, the multi-mesh asset and
/// the spheres into one scene. Ids of the asset are moved past those of the
/// configuration; each array that would be empty gets one placeholder. Fails
/// on the first element whose material or texture id does not resolve.
pub fn assemble_scene(src: SceneSources) -> (r: Result<Scene, AssemblyError>)
    requires
        src.fits(),
    ensures
        match r {
            Ok(scene) => src.resolves() && scene.assembled_from(&src) && scene.material_ids_in_range(),
            Err(e) => !src.resolves() && src.first_unresolved(e),
        },
{
    let n_materials = src.materials.len() + src.model.materials.len();

    let mut i: usize = 0;
    while i < src.mesh_triangles.len()
        invariant
            n_materials == src.merged_materials().len(),
            i <= src.mesh_triangles@.len(),
            forall|j: int| 0 <= j < i ==> src.mesh_triangle_ok(j),
        decreases src.mesh_triangles@.len() - i,
    {
        let m = src.mesh_triangles[i].material_id;
        if !(0 <= m && (m as usize) < n_materials) {
            let e = AssemblyError::UnresolvedId { element: ElementKind::MeshTriangle, index: i };
            assert(!src.mesh_triangle_ok(i as int));
            assert(src.first_unresolved(e));
            return Err(e);
        }
        i = i + 1;
    }
    let mut i: usize = 0;
    while i < src.model.triangles.len()
        invariant
            i <= src.model.triangles@.len(),
            forall|j: int| 0 <= j < src.mesh_triangles@.len() ==> src.mesh_triangle_ok(j),
            forall|j: int| 0 <= j < i ==> src.model_triangle_ok(j),
        decreases src.model.triangles@.len() - i,
    {
        if !triangle_ids_resolve(&src.model.triangles[i], src.model.materials.len(), src.model.texture_count) {
            let e = AssemblyError::UnresolvedId { element: ElementKind::ModelTriangle, index: i };
            assert(!src.model_triangle_ok(i as int));
            assert(src.first_unresolved(e));
            return Err(e);
        }
        i = i + 1;
    }
    let mut i: usize = 0;
    while i < src.spheres.len()
        invariant
            n_materials == src.merged_materials().len(),
            i <= src.spheres@.len(),
            forall|j: int| 0 <= j < src.mesh_triangles@.len() ==> src.mesh_triangle_ok(j),
            forall|j: int| 0 <= j < src.model.triangles@.len() ==> src.model_triangle_ok(j),
            forall|j: int| 0 <= j < i ==> src.sphere_ok(j),
        decreases src.spheres@.len() - i,
    {
        let m = src.spheres[i].material_texture_id[0];
        if !(0 <= m && (m as usize) < n_materials) {
            let e = AssemblyError::UnresolvedId { element: ElementKind::Sphere, index: i };
            assert(!src.sphere_ok(i as int));
            assert(src.first_unresolved(e));
            return Err(e);
        }
        i = i + 1;
    }

    let materials = merge_materials(&src);
    let textures = texture_slot_list(src.config_texture_count, src.model.texture_count);
    let merged_empty = src.mesh_triangles.len() == 0 && src.model.triangles.len() == 0;
    let triangles = merge_triangles(&src);
    assert(merged_empty == (src.merged_triangles().len() == 0));
    let triangle_uniforms = if merged_empty {
        let mut flagged: Vec<TriangleUniform> = Vec::new();
        flagged.push(TriangleUniform::empty());
        assert(flagged@ =~= seq![TriangleUniform::spec_empty()]);
        flagged
    } else {
        pack_triangles(&triangles)
    };
    let spheres = spheres_or_placeholder(&src.spheres);
    let scene = Scene { materials, textures, triangles, triangle_uniforms, spheres };
    proof {
        lemma_material_ids_in_range(&src, &scene);
    }
    Ok(scene)
}

fn merge_materials(src: &SceneSources) -> (r: Vec<Material>)
    ensures
        r@ == or_placeholder(src.merged_materials(), Material::spec_default()),
{
    let mut out: Vec<Material> = Vec::new();
    let mut i: usize = 0;
    while i < src.materials.len()
        invariant
            i <= src.materials@.len(),
            out@ == src.materials@.subrange(0, i as int),
        decreases src.materials@.len() - i,
    {
        out.push(src.materials[i]);
        i = i + 1;
        assert(out@ =~= src.materials@.subrange(0, i as int));
    }
    let mut i: usize = 0;
    while i < src.model.materials.len()
        invariant
            i <= src.model.materials@.len(),
            out@ == src.materials@ + src.model.materials@.subrange(0, i as int),
        decreases src.model.materials@.len() - i,
    {
        out.push(src.model.materials[i]);
        i = i + 1;
        assert(out@ =~= src.materials@ + src.model.materials@.subrange(0, i as int));
    }
    assert(src.model.materials@.subrange(0, src.model.materials@.len() as int) =~= src.model.materials@);
    if out.len() == 0 {
        out.push(Material::default());
        assert(out@ =~= seq![Material::spec_default()]);
    }
    out
}

fn texture_slot_list(config: usize, model: usize) -> (r: Vec<TextureSlot>)
    ensures
        r@ == texture_slots(config as nat, model as nat),
{
    let mut out: Vec<TextureSlot> = Vec::new();
    let ghost cfg = Seq::new(config as nat, |i: int| TextureSlot::Config(i as usize));
    let ghost mdl = Seq::new(model as nat, |i: int| TextureSlot::Model(i as usize));
    let mut i: usize = 0;
    while i < config
        invariant
            i <= config,
            cfg == Seq::new(config as nat, |i: int| TextureSlot::Config(i as usize)),
            out@ == cfg.subrange(0, i as int),
        decreases config - i,
    {
        out.push(TextureSlot::Config(i));
        i = i + 1;
        assert(out@ =~= cfg.subrange(0, i as int));
    }
    let mut i: usize = 0;
    while i < model
        invariant
            i <= model,
            cfg == Seq::new(config as nat, |i: int| TextureSlot::Config(i as usize)),
            mdl == Seq::new(model as nat, |i: int| TextureSlot::Model(i as usize)),
            out@ == cfg + mdl.subrange(0, i as int),
        decreases model - i,
    {
        out.push(TextureSlot::Model(i));
        i = i + 1;
        assert(out@ =~= cfg + mdl.subrange(0, i as int));
    }
    assert(mdl.subrange(0, model as int) =~= mdl);
    if out.len() == 0 {
        out.push(TextureSlot::Blank);
        assert(out@ =~= seq![TextureSlot::Blank]);
    }
    out
}

fn merge_triangles(src: &SceneSources) -> (r: Vec<Triangle>)
    requires
        src.fits(),
        forall|j: int| 0 <= j < src.model.triangles@.len() ==> src.model_triangle_ok(j),
    ensures
        r@ == or_placeholder(src.merged_triangles(), Triangle::spec_empty()),
{
    let mut out: Vec<Triangle> = Vec::new();
    let mut i: usize = 0;
    while i < src.mesh_triangles.len()
        invariant
            i <= src.mesh_triangles@.len(),
            out@ == src.mesh_triangles@.subrange(0, i as int),
        decreases src.mesh_triangles@.len() - i,
    {
        out.push(src.mesh_triangles[i]);
        i = i + 1;
        assert(out@ =~= src.mesh_triangles@.subrange(0, i as int));
    }
    let ghost moved = src.model.triangles@.map_values(
        |t: Triangle| renumbered(t, src.materials@.len() as int, src.config_texture_count as int),
    );
    let mut i: usize = 0;
    while i < src.model.triangles.len()
        invariant
            src.fits(),
            forall|j: int| 0 <= j < src.model.triangles@.len() ==> src.model_triangle_ok(j),
            moved == src.model.triangles@.map_values(
                |t: Triangle| renumbered(t, src.materials@.len() as int, src.config_texture_count as int),
            ),
            i <= src.model.triangles@.len(),
            out@ == src.mesh_triangles@ + moved.subrange(0, i as int),
        decreases src.model.triangles@.len() - i,
    {
        assert(src.model_triangle_ok(i as int));
        let t = renumber(
            src.model.triangles[i],
            src.materials.len(),
            src.config_texture_count,
            src.model.materials.len(),
            src.model.texture_count,
        );
        out.push(t);
        i = i + 1;
        assert(out@ =~= src.mesh_triangles@ + moved.subrange(0, i as int));
    }
    assert(moved.subrange(0, moved.len() as int) =~= moved);
    if out.len() == 0 {
        out.push(Triangle::empty());
        assert(out@ =~= seq![Triangle::spec_empty()]);
    }
    out
}

/// Packs each triangle into its GPU record, in order.
pub fn pack_triangles(triangles: &Vec<Triangle>) -> (r: Vec<TriangleUniform>)
    ensures
        r@ == triangles@.map_values(|t: Triangle| packed(t)),
{
    let mut out: Vec<TriangleUniform> = Vec::new();
    let mut i: usize = 0;
    while i < triangles.len()
        invariant
            i <= triangles@.len(),
            out@ == triangles@.subrange(0, i as int).map_values(|t: Triangle| packed(t)),
        decreases triangles@.len() - i,
    {
        out.push(TriangleUniform::new(triangles[i]));
        i = i + 1;
        assert(out@ =~= triangles@.subrange(0, i as int).map_values(|t: Triangle| packed(t)));
    }
    assert(triangles@.subrange(0, i as int) =~= triangles@);
    out
}

fn spheres_or_placeholder(spheres: &Vec<Sphere>) -> (r: Vec<Sphere>)
    ensures
        r@ == or_placeholder(spheres@, Sphere::spec_empty()),
{
    let mut out: Vec<Sphere> = Vec::new();
    let mut i: usize = 0;
    while i < spheres.len()
        invariant
            i <= spheres@.len(),
            out@ == spheres@.subrange(0, i as int),
        decreases spheres@.len() - i,
    {
        out.push(spheres[i]);
        i = i + 1;
        assert(out@ =~= spheres@.subrange(0, i as int));
    }
    assert(spheres@.subrange(0, i as int) =~= spheres@);
    if out.len() == 0 {
        out.push(Sphere::empty());
        assert(out@ =~= seq![Sphere::spec_empty()]);
    }
    out
}

impl SceneSources {
    /// The two sets of sources hold the same values.
    pub open spec fn same_as(&self, o: &SceneSources) -> bool {
        &&& self.materials@ == o.materials@
        &&& self.config_texture_count == o.config_texture_count
        &&& self.mesh_triangles@ == o.mesh_triangles@
        &&& self.model.triangles@ == o.model.triangles@
        &&& self.model.materials@ == o.model.materials@
        &&& self.model.texture_count == o.model.texture_count
        &&& self.spheres@ == o.spheres@
    }
}

impl Scene {
    pub open spec fn same_as(&self, o: &Scene) -> bool {
        &&& self.materials@ == o.materials@
        &&& self.textures@ == o.textures@
        &&& self.triangles@ == o.triangles@
        &&& self.triangle_uniforms@ == o.triangle_uniforms@
        &&& self.spheres@ == o.spheres@
    }
}

/// In every assembled scene, each triangle's and each sphere's material id
/// is below the number of materials.
pub proof fn lemma_material_ids_in_range(src: &SceneSources, scene: &Scene)
    requires
        src.fits(),
        src.resolves(),
        scene.assembled_from(src),
    ensures
        scene.material_ids_in_range(),
{
    let merged = src.merged_materials();
    let n = scene.materials@.len();
    assert(n >= merged.len() && n >= 1);
    let tris = src.merged_triangles();
    let nm = src.mesh_triangles@.len();
    assert forall|i: int| 0 <= i < tris.len() implies 0 <= #[trigger] tris[i].material_id < merged.len() by {
        if i < nm {
            assert(src.mesh_triangle_ok(i));
        } else {
            assert(src.model_triangle_ok(i - nm));
        }
    }
    assert forall|i: int| 0 <= i < src.spheres@.len() implies 0 <= #[trigger] src.spheres@[i].material_texture_id[0] < merged.len() by {
        assert(src.sphere_ok(i));
    }
}

/// Assembling the same sources twice yields arrays of the same length with
/// the same elements.
pub proof fn lemma_assembly_deterministic(a: &SceneSources, b: &SceneSources, sa: &Scene, sb: &Scene)
    requires
        a.same_as(b),
        sa.assembled_from(a),
        sb.assembled_from(b),
    ensures
        sa.same_as(sb),
{
}

/// A scene of two configured materials and one sphere with material 0, and
/// no meshes, no asset and no textures, assembles (whatever the sphere's
/// other fields) into two materials, the sphere, and the one flagged
/// placeholder triangle.
pub proof fn lemma_spheres_only_scene(src: &SceneSources, scene: &Scene)
    requires
        src.materials@.len() == 2,
        src.config_texture_count == 0,
        src.mesh_triangles@.len() == 0,
        src.model.triangles@.len() == 0,
        src.model.materials@.len() == 0,
        src.model.texture_count == 0,
        src.spheres@.len() == 1,
        src.spheres@[0].material_texture_id[0] == 0,
        scene.assembled_from(src),
    ensures
        src.resolves(),
        scene.materials@.len() == 2,
        scene.spheres@.len() == 1,
        scene.triangles@ == seq![Triangle::spec_empty()],
        scene.triangle_uniforms@ == seq![TriangleUniform::spec_empty()],
        scene.textures@ == seq![TextureSlot::Blank],
{
    assert(src.merged_materials().len() == 2);
    assert(src.merged_triangles().len() == 0);
    assert(src.sphere_ok(0));
}

} // verus!
