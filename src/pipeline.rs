use vstd::prelude::*;

use crate::binding::{
    BindGroupDescriptor, BindingResourceTemplate, BufferType, ShaderStages, ViewDimension, layout_type, STAGE_COMPUTE,
    STAGE_FRAGMENT,
};

verus! {

/// Handles of the GPU resources in the caller's arena.
/// The shader configuration uniform buffer.
pub const SHADER_CONFIG_BUFFER: usize = 0;

/// The view of the colour buffer.
pub const COLOR_BUFFER: usize = 1;

/// The live camera uniform buffer.
pub const CAMERA_BUFFER: usize = 2;

/// The triangle records.
pub const TRIANGLE_BUFFER: usize = 3;

/// The sphere records.
pub const SPHERE_BUFFER: usize = 4;

/// The sampler of the texture array.
pub const TEXTURE_SAMPLER: usize = 5;

/// The view of the texture array.
pub const TEXTURE_ARRAY: usize = 6;

/// The material records.
pub const MATERIAL_BUFFER: usize = 7;

/// The background record.
pub const BACKGROUND_BUFFER: usize = 8;

/// The view of the environment image.
pub const BACKGROUND_TEXTURE: usize = 9;

/// The hierarchy node records.
pub const BVH_NODE_BUFFER: usize = 10;

/// The primitive-index array.
pub const BVH_INDEX_BUFFER: usize = 11;

/// The view of the temporal history texture.
pub const HISTORY_BUFFER: usize = 12;

/// The denoise-reference camera uniform buffer.
pub const REFERENCE_CAMERA_BUFFER: usize = 13;

/// The denoise pass-index uniform buffer.
pub const DENOISE_PASS_BUFFER: usize = 14;

/// The sampler of the presentation pass.
pub const SCREEN_SAMPLER: usize = 15;

/// The logical binding sets of the three pipelines.
#[derive(Clone, Copy, Debug, PartialEq, Eq, Structural)]
pub enum BindingSet {
    /// The shader configuration uniform.
    ShaderConfig,
    /// The colour buffer the ray-generation pass writes.
    Raytracing,
    /// The live camera uniform.
    Camera,
    /// Triangles and spheres.
    Objects,
    /// Sampler, texture array, materials, background and environment image.
    TexturesAndMaterials,
    /// Hierarchy nodes and primitive indices.
    Bvh,
    /// Colour buffer, history buffer, live and reference cameras, pass index.
    Denoising,
    /// Sampler and colour buffer for the presentation quad.
    ScreenTransfer,
}

pub open spec fn plain(ty: BindingResourceTemplate, resource: usize) -> BufferType {
    BufferType { ty, view_dimension: None, resource }
}

pub open spec fn viewed(ty: BindingResourceTemplate, d: ViewDimension, resource: usize) -> BufferType {
    BufferType { ty, view_dimension: Some(d), resource }
}

/// The slots of each set, in binding order.
pub open spec fn spec_slots(set: BindingSet) -> Seq<BufferType> {
    match set {
        BindingSet::ShaderConfig => seq![plain(BindingResourceTemplate::BufferUniform, SHADER_CONFIG_BUFFER)],
        BindingSet::Raytracing => seq![viewed(BindingResourceTemplate::StorageTexture, ViewDimension::D2, COLOR_BUFFER)],
        BindingSet::Camera => seq![plain(BindingResourceTemplate::BufferUniform, CAMERA_BUFFER)],
        BindingSet::Objects => seq![
            plain(BindingResourceTemplate::BufferStorage, TRIANGLE_BUFFER),
            plain(BindingResourceTemplate::BufferStorage, SPHERE_BUFFER),
        ],
        BindingSet::TexturesAndMaterials => seq![
            plain(BindingResourceTemplate::Sampler, TEXTURE_SAMPLER),
            viewed(BindingResourceTemplate::TextureView, ViewDimension::D2Array, TEXTURE_ARRAY),
            plain(BindingResourceTemplate::BufferStorage, MATERIAL_BUFFER),
            plain(BindingResourceTemplate::BufferStorage, BACKGROUND_BUFFER),
            viewed(BindingResourceTemplate::TextureView, ViewDimension::D2, BACKGROUND_TEXTURE),
        ],
        BindingSet::Bvh => seq![
            plain(BindingResourceTemplate::BufferStorage, BVH_NODE_BUFFER),
            plain(BindingResourceTemplate::BufferStorage, BVH_INDEX_BUFFER),
        ],
        BindingSet::Denoising => seq![
            viewed(BindingResourceTemplate::StorageTexture, ViewDimension::D2, COLOR_BUFFER),
            viewed(BindingResourceTemplate::StorageTexture, ViewDimension::D2, HISTORY_BUFFER),
            plain(BindingResourceTemplate::BufferUniform, CAMERA_BUFFER),
            plain(BindingResourceTemplate::BufferUniform, REFERENCE_CAMERA_BUFFER),
            plain(BindingResourceTemplate::BufferUniform, DENOISE_PASS_BUFFER),
        ],
        BindingSet::ScreenTransfer => seq![
            plain(BindingResourceTemplate::Sampler, SCREEN_SAMPLER),
            viewed(BindingResourceTemplate::TextureView, ViewDimension::D2, COLOR_BUFFER),
        ],
    }
}

/// The presentation set is read by the fragment stage, all others by
/// compute.
pub open spec fn spec_stages(set: BindingSet) -> u32 {
    if set == BindingSet::ScreenTransfer {
        STAGE_FRAGMENT
    } else {
        STAGE_COMPUTE
    }
}

fn plain_slot(ty: BindingResourceTemplate, resource: usize) -> (r: BufferType)
    ensures
        r == plain(ty, resource),
{
    BufferType::new(ty, resource)
}

fn viewed_slot(ty: BindingResourceTemplate, d: ViewDimension, resource: usize) -> (r: BufferType)
    requires
        ty == BindingResourceTemplate::StorageTexture || ty == BindingResourceTemplate::TextureView,
    ensures
        r == viewed(ty, d, resource),
{
    BufferType::with_view_dimension(ty, d, resource)
}

/// The declaration of `set`: its label, the stages that see it and its
/// slots. Every texture slot has a view dimension, so the layout derived
/// from it always exists.
pub fn binding_set(set: BindingSet) -> (r: BindGroupDescriptor)
    ensures
        r.bindings@ == spec_slots(set),
        r.vis == (ShaderStages { bits: spec_stages(set) }),
        r.label is Some,
        r.complete(),
{
    let storage = BindingResourceTemplate::BufferStorage;
    let uniform = BindingResourceTemplate::BufferUniform;
    let (label, slots): (&str, Vec<BufferType>) = match set {
        BindingSet::ShaderConfig => ("shader_config", vec![plain_slot(uniform, SHADER_CONFIG_BUFFER)]),
        BindingSet::Raytracing => (
            "raytracing",
            vec![viewed_slot(BindingResourceTemplate::StorageTexture, ViewDimension::D2, COLOR_BUFFER)],
        ),
        BindingSet::Camera => ("camera", vec![plain_slot(uniform, CAMERA_BUFFER)]),
        BindingSet::Objects => (
            "object_bind_group",
            vec![plain_slot(storage, TRIANGLE_BUFFER), plain_slot(storage, SPHERE_BUFFER)],
        ),
        BindingSet::TexturesAndMaterials => (
            "textures_and_materials",
            vec![
                plain_slot(BindingResourceTemplate::Sampler, TEXTURE_SAMPLER),
                viewed_slot(BindingResourceTemplate::TextureView, ViewDimension::D2Array, TEXTURE_ARRAY),
                plain_slot(storage, MATERIAL_BUFFER),
                plain_slot(storage, BACKGROUND_BUFFER),
                viewed_slot(BindingResourceTemplate::TextureView, ViewDimension::D2, BACKGROUND_TEXTURE),
            ],
        ),
        BindingSet::Bvh => ("bvh", vec![plain_slot(storage, BVH_NODE_BUFFER), plain_slot(storage, BVH_INDEX_BUFFER)]),
        BindingSet::Denoising => (
            "denoising",
            vec![
                viewed_slot(BindingResourceTemplate::StorageTexture, ViewDimension::D2, COLOR_BUFFER),
                viewed_slot(BindingResourceTemplate::StorageTexture, ViewDimension::D2, HISTORY_BUFFER),
                plain_slot(uniform, CAMERA_BUFFER),
                plain_slot(uniform, REFERENCE_CAMERA_BUFFER),
                plain_slot(uniform, DENOISE_PASS_BUFFER),
            ],
        ),
        BindingSet::ScreenTransfer => (
            "screen_transfer",
            vec![
                plain_slot(BindingResourceTemplate::Sampler, SCREEN_SAMPLER),
                viewed_slot(BindingResourceTemplate::TextureView, ViewDimension::D2, COLOR_BUFFER),
            ],
        ),
    };
    assert(slots@ =~= spec_slots(set));
    let stages = if set == BindingSet::ScreenTransfer { STAGE_FRAGMENT } else { STAGE_COMPUTE };
    let d = BindGroupDescriptor::new(Some(label.to_owned()), ShaderStages { bits: stages }, slots);
    assert(d.complete()) by {
        assert forall|i: int| 0 <= i < d.bindings@.len() implies (#[trigger] layout_type(d.bindings@[i])) is Some by {
            assert(d.bindings@[i] == spec_slots(set)[i]);
        }
    }
    d
}

/// Which sets each pipeline binds, in group order.
#[derive(Clone, Copy, Debug, PartialEq, Eq, Structural)]
pub enum Pipeline {
    /// Ray generation (compute).
    RayTracing,
    /// Both denoise passes (compute).
    Denoise,
    /// Presentation (render).
    Screen,
}

pub open spec fn spec_pipeline_sets(p: Pipeline) -> Seq<BindingSet> {
    match p {
        Pipeline::RayTracing => seq![
            BindingSet::ShaderConfig,
            BindingSet::Raytracing,
            BindingSet::Camera,
            BindingSet::Objects,
            BindingSet::TexturesAndMaterials,
            BindingSet::Bvh,
        ],
        Pipeline::Denoise => seq![BindingSet::Denoising, BindingSet::ShaderConfig],
        Pipeline::Screen => seq![BindingSet::ScreenTransfer],
    }
}

/// The binding sets of pipeline `p`; group `i` is the `i`-th.
pub fn pipeline_sets(p: Pipeline) -> (r: Vec<BindingSet>)
    ensures
        r@ == spec_pipeline_sets(p),
{
    let r = match p {
        Pipeline::RayTracing => vec![
            BindingSet::ShaderConfig,
            BindingSet::Raytracing,
            BindingSet::Camera,
            BindingSet::Objects,
            BindingSet::TexturesAndMaterials,
            BindingSet::Bvh,
        ],
        Pipeline::Denoise => vec![BindingSet::Denoising, BindingSet::ShaderConfig],
        Pipeline::Screen => vec![BindingSet::ScreenTransfer],
    };
    assert(r@ =~= spec_pipeline_sets(p));
    r
}

} // verus!
