use vstd::prelude::*;

use crate::assembly::{MeshSource, triangle_resolves};
use crate::geometry::{Material, Triangle};

verus! {

/// One model of a multi-mesh asset, as its decoder hands it over: its
/// material, which of its four texture maps it carries, and its triangles
/// (their ids are assigned here, whatever they hold on arrival). The decoder
/// lists the images of a model in the order base colour, roughness, normal,
/// emissive, skipping absent ones.
pub struct ModelData {
    pub material: Material,
    pub has_base_color: bool,
    pub has_roughness: bool,
    pub has_normal: bool,
    pub has_emissive: bool,
    pub triangles: Vec<Triangle>,
}

pub open spec fn bit(b: bool) -> nat {
    if b { 1 } else { 0 }
}

/// How many images the model carries.
pub open spec fn image_count(m: ModelData) -> nat {
    bit(m.has_base_color) + bit(m.has_roughness) + bit(m.has_normal) + bit(m.has_emissive)
}

/// Images carried by all of `models`.
pub open spec fn images_of(models: Seq<ModelData>) -> nat
    decreases models.len(),
{
    if models.len() == 0 {
        0
    } else {
        images_of(models.drop_last()) + image_count(models.last())
    }
}

/// Diffuse, roughness and normal texture ids of a model whose first image
/// gets id `start`: each present map gets the next id in the decoder's order,
/// an absent one gets `-1`. The emissive map takes an id but no slot.
pub open spec fn model_texture_ids(m: ModelData, start: int) -> [i32; 3] {
    [
        if m.has_base_color { start as i32 } else { -1i32 },
        if m.has_roughness { (start + bit(m.has_base_color)) as i32 } else { -1i32 },
        if m.has_normal { (start + bit(m.has_base_color) + bit(m.has_roughness)) as i32 } else { -1i32 },
    ]
}

/// `t` tagged with the material and texture ids of model `k`.
pub open spec fn tagged(t: Triangle, k: int, texture_ids: [i32; 3]) -> Triangle {
    Triangle { material_id: k as i32, texture_ids, ..t }
}

/// The triangles of all of `models`, in order, with their ids assigned.
pub open spec fn model_triangles(models: Seq<ModelData>) -> Seq<Triangle>
    decreases models.len(),
{
    if models.len() == 0 {
        seq![]
    } else {
        let k = models.len() - 1;
        let m = models.last();
        let ids = model_texture_ids(m, images_of(models.drop_last()) as int);
        model_triangles(models.drop_last()) + m.triangles@.map_values(|t: Triangle| tagged(t, k, ids))
    }
}

/// Turns the models of an asset into a mesh source with ids local to it:
/// model `k` gets material `k`, and its images the next ids in order.
pub fn mesh_source_from_models(models: &Vec<ModelData>) -> (r: MeshSource)
    requires
        models@.len() <= 0x1fff_ffff,
    ensures
        r.materials@ == models@.map_values(|m: ModelData| m.material),
        r.texture_count == images_of(models@),
        r.triangles@ == model_triangles(models@),
        forall|i: int|
            0 <= i < r.triangles@.len() ==> triangle_resolves(
                #[trigger] r.triangles@[i],
                r.materials@.len() as int,
                r.texture_count as int,
            ),
{
    let mut materials: Vec<Material> = Vec::new();
    let mut triangles: Vec<Triangle> = Vec::new();
    let mut images: usize = 0;
    let mut k: usize = 0;
    while k < models.len()
        invariant
            models@.len() <= 0x1fff_ffff,
            k <= models@.len(),
            images == images_of(models@.take(k as int)),
            images <= 4 * k,
            materials@ == models@.take(k as int).map_values(|m: ModelData| m.material),
            triangles@ == model_triangles(models@.take(k as int)),
            forall|i: int|
                0 <= i < triangles@.len() ==> 0 <= (#[trigger] triangles@[i]).material_id < k && (
                forall|s: int| 0 <= s < 3 ==> (triangles@[i].texture_ids[s] == -1 || (0 <= triangles@[i].texture_ids[s] < images))),
        decreases models@.len() - k,
    {
        let m = &models[k];
        let start = images as i32;
        let base: i32 = if m.has_base_color { start } else { -1 };
        let rough: i32 = if m.has_roughness { start + (if m.has_base_color { 1i32 } else { 0i32 }) } else { -1 };
        let normal: i32 = if m.has_normal {
            start + (if m.has_base_color { 1i32 } else { 0i32 }) + (if m.has_roughness { 1i32 } else { 0i32 })
        } else {
            -1
        };
        let ids: [i32; 3] = [base, rough, normal];
        let ghost prev = triangles@;
        assert(models@.take(k as int + 1).drop_last() =~= models@.take(k as int));
        assert(ids =~= model_texture_ids(models@[k as int], images as int));
        let mut j: usize = 0;
        while j < m.triangles.len()
            invariant
                k < models@.len() <= 0x1fff_ffff,
                m == &models@[k as int],
                prev == model_triangles(models@.take(k as int)),
                ids == model_texture_ids(models@[k as int], images as int),
                j <= m.triangles@.len(),
                triangles@ == prev + m.triangles@.take(j as int).map_values(|t: Triangle| tagged(t, k as int, ids)),
                images <= 4 * k,
                forall|i: int|
                    0 <= i < triangles@.len() ==> 0 <= (#[trigger] triangles@[i]).material_id < k + 1 && (
                    forall|s: int| 0 <= s < 3 ==> (triangles@[i].texture_ids[s] == -1 || (0 <= triangles@[i].texture_ids[s] < images + image_count(models@[k as int])))),
            decreases m.triangles@.len() - j,
        {
            let t = m.triangles[j];
            triangles.push(Triangle { material_id: k as i32, texture_ids: ids, ..t });
            j = j + 1;
            assert(triangles@ =~= prev + m.triangles@.take(j as int).map_values(|t: Triangle| tagged(t, k as int, ids)));
        }
        assert(m.triangles@.take(j as int) =~= m.triangles@);
        materials.push(m.material);
        let count: usize = (if m.has_base_color { 1usize } else { 0 }) + (if m.has_roughness { 1usize } else { 0 })
            + (if m.has_normal { 1usize } else { 0 }) + (if m.has_emissive { 1usize } else { 0 });
        images = images + count;
        k = k + 1;
        assert(materials@ =~= models@.take(k as int).map_values(|m: ModelData| m.material));
    }
    assert(models@.take(k as int) =~= models@);
    MeshSource { triangles, materials, texture_count: images }
}

} // verus!
