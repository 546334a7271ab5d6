use vstd::prelude::*;

verus! {

/// How a texture binding is viewed.
#[derive(Clone, Copy, Debug, PartialEq, Eq, Structural)]
pub enum ViewDimension {
    D1,
    D2,
    D2Array,
    Cube,
    CubeArray,
    D3,
}

/// The kind of resource a binding slot holds.
#[derive(Clone, Copy, Debug, PartialEq, Eq, Structural)]
pub enum BindingResourceTemplate {
    /// A read-only storage buffer.
    BufferStorage,
    /// A uniform buffer.
    BufferUniform,
    /// A read-write storage texture.
    StorageTexture,
    /// A sampled texture.
    TextureView,
    /// A filtering sampler.
    Sampler,
}

pub open spec fn is_texture(ty: BindingResourceTemplate) -> bool {
    ty == BindingResourceTemplate::StorageTexture || ty == BindingResourceTemplate::TextureView
}

/// One declared slot of a binding set: its kind and, for textures, how the
/// texture is viewed, and the resource it binds: a handle into the arena of
/// GPU resources that the caller owns.
#[derive(Clone, Copy, Debug, PartialEq, Eq, Structural)]
pub struct BufferType {
    pub ty: BindingResourceTemplate,
    pub view_dimension: Option<ViewDimension>,
    pub resource: usize,
}

#[derive(Clone, Copy, Debug, PartialEq, Eq, Structural)]
pub enum BindingError {
    /// The texture slot at this position has no view dimension.
    MissingViewDimension(usize),
}

impl BufferType {
    pub fn new(ty: BindingResourceTemplate, resource: usize) -> (r: BufferType)
        ensures
            r == (BufferType { ty, view_dimension: None, resource }),
    {
        BufferType { ty, view_dimension: None, resource }
    }

    /// A texture slot with its view dimension; only texture kinds take one.
    pub fn with_view_dimension(ty: BindingResourceTemplate, view_dimension: ViewDimension, resource: usize) -> (r:
        BufferType)
        requires
            is_texture(ty),
        ensures
            r == (BufferType { ty, view_dimension: Some(view_dimension), resource }),
    {
        BufferType { ty, view_dimension: Some(view_dimension), resource }
    }
}

/// One entry of a concrete binding set: the binding number and the handle
/// of the resource bound there.
#[derive(Clone, Copy, Debug, PartialEq, Eq, Structural)]
pub struct BindEntry {
    pub binding: u32,
    pub resource: usize,
}

/// Shader stages as a bit set.
#[derive(Clone, Copy, Debug, PartialEq, Eq, Structural)]
pub struct ShaderStages {
    pub bits: u32,
}

pub const STAGE_VERTEX: u32 = 1;

pub const STAGE_FRAGMENT: u32 = 2;

pub const STAGE_COMPUTE: u32 = 4;

/// What a layout entry declares for a slot.
#[derive(Clone, Copy, Debug, PartialEq, Eq, Structural)]
pub enum LayoutBindingType {
    /// Read-only storage buffer, no dynamic offset, no minimum size.
    ReadOnlyStorageBuffer,
    /// Uniform buffer, no dynamic offset, no minimum size.
    UniformBuffer,
    /// Read-write storage texture of format RGBA8 unorm.
    ReadWriteStorageTexture(ViewDimension),
    /// Filterable float texture, not multisampled.
    SampledTexture(ViewDimension),
    /// Filtering sampler.
    FilteringSampler,
}

/// One entry of a binding-set layout; the concrete binding set uses the same
/// `binding` numbers, in the same order.
#[derive(Clone, Copy, Debug, PartialEq, Eq, Structural)]
pub struct LayoutEntry {
    pub binding: u32,
    pub visibility: ShaderStages,
    pub ty: LayoutBindingType,
}

/// The layout type of slot `b`, or none for a texture slot without a view
/// dimension.
pub open spec fn layout_type(b: BufferType) -> Option<LayoutBindingType> {
    match b.ty {
        BindingResourceTemplate::BufferStorage => Some(LayoutBindingType::ReadOnlyStorageBuffer),
        BindingResourceTemplate::BufferUniform => Some(LayoutBindingType::UniformBuffer),
        BindingResourceTemplate::Sampler => Some(LayoutBindingType::FilteringSampler),
        BindingResourceTemplate::StorageTexture => match b.view_dimension {
            Some(d) => Some(LayoutBindingType::ReadWriteStorageTexture(d)),
            None => None,
        },
        BindingResourceTemplate::TextureView => match b.view_dimension {
            Some(d) => Some(LayoutBindingType::SampledTexture(d)),
            None => None,
        },
    }
}

fn layout_type_of(b: &BufferType) -> (r: Option<LayoutBindingType>)
    ensures
        r == layout_type(*b),
{
    match b.ty {
        BindingResourceTemplate::BufferStorage => Some(LayoutBindingType::ReadOnlyStorageBuffer),
        BindingResourceTemplate::BufferUniform => Some(LayoutBindingType::UniformBuffer),
        BindingResourceTemplate::Sampler => Some(LayoutBindingType::FilteringSampler),
        BindingResourceTemplate::StorageTexture => match b.view_dimension {
            Some(d) => Some(LayoutBindingType::ReadWriteStorageTexture(d)),
            None => None,
        },
        BindingResourceTemplate::TextureView => match b.view_dimension {
            Some(d) => Some(LayoutBindingType::SampledTexture(d)),
            None => None,
        },
    }
}

/// A binding set declared once: a label, the stages that see it, and its
/// slots in binding order. Both the layout and the concrete binding set are
/// derived from this one declaration.
pub struct BindGroupDescriptor {
    pub label: Option<String>,
    pub vis: ShaderStages,
    pub bindings: Vec<BufferType>,
}

impl BindGroupDescriptor {
    pub fn new(label: Option<String>, vis: ShaderStages, bindings: Vec<BufferType>) -> (r: BindGroupDescriptor)
        ensures
            r.label == label,
            r.vis == vis,
            r.bindings@ == bindings@,
    {
        BindGroupDescriptor { label, vis, bindings }
    }

    /// Every slot has a layout type.
    pub open spec fn complete(&self) -> bool {
        forall|i: int| 0 <= i < self.bindings@.len() ==> (#[trigger] layout_type(self.bindings@[i])) is Some
    }

    /// The layout: slot `i` becomes binding `i`, seen by the set's stages.
    /// Fails on the first texture slot without a view dimension.
    pub fn generate_bind_group_layout(&self) -> (r: Result<Vec<LayoutEntry>, BindingError>)
        requires
            self.bindings@.len() <= u32::MAX,
        ensures
            match r {
                Ok(entries) => {
                    &&& self.complete()
                    &&& entries@.len() == self.bindings@.len()
                    &&& forall|i: int|
                        0 <= i < entries@.len() ==> #[trigger] entries@[i] == (LayoutEntry {
                            binding: i as u32,
                            visibility: self.vis,
                            ty: layout_type(self.bindings@[i])->Some_0,
                        })
                },
                Err(e) => {
                    &&& !self.complete()
                    &&& e matches BindingError::MissingViewDimension(k)
                    &&& k < self.bindings@.len()
                    &&& layout_type(self.bindings@[k as int]) is None
                    &&& forall|i: int| 0 <= i < k ==> (#[trigger] layout_type(self.bindings@[i])) is Some
                },
            },
    {
        let mut entries: Vec<LayoutEntry> = Vec::new();
        let mut i: usize = 0;
        while i < self.bindings.len()
            invariant
                self.bindings@.len() <= u32::MAX,
                i <= self.bindings@.len(),
                entries@.len() == i,
                forall|j: int| 0 <= j < i ==> (#[trigger] layout_type(self.bindings@[j])) is Some,
                forall|j: int|
                    0 <= j < i ==> #[trigger] entries@[j] == (LayoutEntry {
                        binding: j as u32,
                        visibility: self.vis,
                        ty: layout_type(self.bindings@[j])->Some_0,
                    }),
            decreases self.bindings@.len() - i,
        {
            match layout_type_of(&self.bindings[i]) {
                Some(ty) => {
                    entries.push(LayoutEntry { binding: i as u32, visibility: self.vis, ty });
                },
                None => {
                    return Err(BindingError::MissingViewDimension(i));
                },
            }
            i = i + 1;
        }
        Ok(entries)
    }

    /// The entries of the concrete binding set: slot `i` is bound at `i`,
    /// exactly as in the layout, to the resource that slot `i` declares.
    pub fn bind_group_entries(&self) -> (r: Vec<BindEntry>)
        requires
            self.bindings@.len() <= u32::MAX,
        ensures
            r@.len() == self.bindings@.len(),
            forall|i: int|
                0 <= i < r@.len() ==> #[trigger] r@[i] == (BindEntry {
                    binding: i as u32,
                    resource: self.bindings@[i].resource,
                }),
    {
        let mut out: Vec<BindEntry> = Vec::new();
        let mut i: usize = 0;
        while i < self.bindings.len()
            invariant
                self.bindings@.len() <= u32::MAX,
                i <= self.bindings@.len(),
                out@.len() == i,
                forall|j: int|
                    0 <= j < i ==> #[trigger] out@[j] == (BindEntry {
                        binding: j as u32,
                        resource: self.bindings@[j].resource,
                    }),
            decreases self.bindings@.len() - i,
        {
            out.push(BindEntry { binding: i as u32, resource: self.bindings[i].resource });
            i = i + 1;
        }
        out
    }
}

} // verus!
