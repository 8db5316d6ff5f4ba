use vstd::prelude::*;

use crate::handles::{BufferHandle, SamplerHandle, TextureViewHandle};

verus! {

/// The shader stages a binding is visible to.
#[derive(Clone, Copy, Debug, PartialEq, Eq, Structural)]
pub enum ShaderStages {
    Vertex,
    Fragment,
    VertexFragment,
    Compute,
}

/// How a shader reads a bound buffer.
#[derive(Clone, Copy, Debug, PartialEq, Eq, Structural)]
pub enum BufferBindingType {
    Uniform,
    Storage { read_only: bool },
}

/// What a layout slot holds.
#[derive(Clone, Copy, Debug, PartialEq, Eq, Structural)]
pub enum BindingKind {
    /// A filterable float 2D texture, not multisampled.
    Texture2d,
    /// A filtering sampler.
    Sampler,
    /// A whole buffer, without dynamic offset or minimum size.
    Buffer(BufferBindingType),
}

/// One slot of a bind group layout.
#[derive(Clone, Copy, Debug, PartialEq, Eq, Structural)]
pub struct LayoutEntry {
    pub binding: u32,
    pub visibility: ShaderStages,
    pub kind: BindingKind,
}

/// The resource bound to one slot of a bind group.
#[derive(Clone, Copy, Debug, PartialEq, Eq, Structural)]
pub enum BindingResource {
    TextureView(TextureViewHandle),
    Sampler(SamplerHandle),
    Buffer(BufferHandle),
}

/// One slot of a bind group.
#[derive(Clone, Copy, Debug, PartialEq, Eq, Structural)]
pub struct GroupEntry {
    pub binding: u32,
    pub resource: BindingResource,
}

/// Appends layout slots, each numbered by its position.
pub struct BindGroupLayoutBuilder {
    entries: Vec<LayoutEntry>,
}

impl View for BindGroupLayoutBuilder {
    type V = Seq<LayoutEntry>;

    closed spec fn view(&self) -> Seq<LayoutEntry> {
        self.entries@
    }
}

impl BindGroupLayoutBuilder {
    pub fn new() -> (r: BindGroupLayoutBuilder)
        ensures
            r@ == Seq::<LayoutEntry>::empty(),
    {
        BindGroupLayoutBuilder { entries: Vec::new() }
    }

    fn with_entry(self, visibility: ShaderStages, kind: BindingKind) -> (r: BindGroupLayoutBuilder)
        requires
            self@.len() < u32::MAX,
        ensures
            r@ == self@.push(LayoutEntry { binding: self@.len() as u32, visibility, kind }),
    {
        let mut entries = self.entries;
        let binding = entries.len() as u32;
        entries.push(LayoutEntry { binding, visibility, kind });
        BindGroupLayoutBuilder { entries }
    }

    /// Adds a 2D texture slot.
    pub fn with_texture2d(self, visibility: ShaderStages) -> (r: BindGroupLayoutBuilder)
        requires
            self@.len() < u32::MAX,
        ensures
            r@ == self@.push(
                LayoutEntry { binding: self@.len() as u32, visibility, kind: BindingKind::Texture2d },
            ),
    {
        self.with_entry(visibility, BindingKind::Texture2d)
    }

    /// Adds a filtering sampler slot.
    pub fn with_sampler(self, visibility: ShaderStages) -> (r: BindGroupLayoutBuilder)
        requires
            self@.len() < u32::MAX,
        ensures
            r@ == self@.push(
                LayoutEntry { binding: self@.len() as u32, visibility, kind: BindingKind::Sampler },
            ),
    {
        self.with_entry(visibility, BindingKind::Sampler)
    }

    /// Adds a buffer slot of the given binding type.
    pub fn with_buffer(self, visibility: ShaderStages, buffer_type: BufferBindingType) -> (r:
        BindGroupLayoutBuilder)
        requires
            self@.len() < u32::MAX,
        ensures
            r@ == self@.push(
                LayoutEntry {
                    binding: self@.len() as u32,
                    visibility,
                    kind: BindingKind::Buffer(buffer_type),
                },
            ),
    {
        self.with_entry(visibility, BindingKind::Buffer(buffer_type))
    }

    /// The slots added so far, in order.
    pub fn entries(&self) -> (r: &[LayoutEntry])
        ensures
            r@ == self@,
    {
        self.entries.as_slice()
    }
}

/// Appends bind group slots, each numbered by its position.
pub struct BindGroupBuilder {
    entries: Vec<GroupEntry>,
}

impl View for BindGroupBuilder {
    type V = Seq<GroupEntry>;

    closed spec fn view(&self) -> Seq<GroupEntry> {
        self.entries@
    }
}

impl BindGroupBuilder {
    pub fn new() -> (r: BindGroupBuilder)
        ensures
            r@ == Seq::<GroupEntry>::empty(),
    {
        BindGroupBuilder { entries: Vec::new() }
    }

    fn with_resource(self, resource: BindingResource) -> (r: BindGroupBuilder)
        requires
            self@.len() < u32::MAX,
        ensures
            r@ == self@.push(GroupEntry { binding: self@.len() as u32, resource }),
    {
        let mut entries = self.entries;
        let binding = entries.len() as u32;
        entries.push(GroupEntry { binding, resource });
        BindGroupBuilder { entries }
    }

    /// Binds a texture view to the next slot.
    pub fn with_texture2d(self, view: TextureViewHandle) -> (r: BindGroupBuilder)
        requires
            self@.len() < u32::MAX,
        ensures
            r@ == self@.push(
                GroupEntry { binding: self@.len() as u32, resource: BindingResource::TextureView(view) },
            ),
    {
        self.with_resource(BindingResource::TextureView(view))
    }

    /// Binds a sampler to the next slot.
    pub fn with_sampler(self, sampler: SamplerHandle) -> (r: BindGroupBuilder)
        requires
            self@.len() < u32::MAX,
        ensures
            r@ == self@.push(
                GroupEntry { binding: self@.len() as u32, resource: BindingResource::Sampler(sampler) },
            ),
    {
        self.with_resource(BindingResource::Sampler(sampler))
    }

    /// Binds a whole buffer to the next slot.
    pub fn with_buffer(self, buffer: BufferHandle) -> (r: BindGroupBuilder)
        requires
            self@.len() < u32::MAX,
        ensures
            r@ == self@.push(
                GroupEntry { binding: self@.len() as u32, resource: BindingResource::Buffer(buffer) },
            ),
    {
        self.with_resource(BindingResource::Buffer(buffer))
    }

    /// The slots added so far, in order.
    pub fn entries(&self) -> (r: &[GroupEntry])
        ensures
            r@ == self@,
    {
        self.entries.as_slice()
    }
}

/// How texture coordinates outside the texture are resolved.
#[derive(Clone, Copy, Debug, PartialEq, Eq, Structural)]
pub enum AddressMode {
    ClampToEdge,
    Repeat,
    MirrorRepeat,
    ClampToBorder,
}

/// How texels are filtered.
#[derive(Clone, Copy, Debug, PartialEq, Eq, Structural)]
pub enum FilterMode {
    Nearest,
    Linear,
}

/// The address modes along u, v and w, and the magnification,
/// minification and mipmap filters of a sampler.
#[derive(Clone, Copy, Debug, PartialEq, Eq, Structural)]
pub struct SamplerDesc {
    pub address_mode_u: AddressMode,
    pub address_mode_v: AddressMode,
    pub address_mode_w: AddressMode,
    pub mag_filter: FilterMode,
    pub min_filter: FilterMode,
    pub mipmap_filter: FilterMode,
}

/// Sets a sampler's address mode and filtering on all axes at once; it
/// starts clamped to the edge with nearest filtering.
pub struct SamplerBuilder {
    desc: SamplerDesc,
}

impl View for SamplerBuilder {
    type V = SamplerDesc;

    closed spec fn view(&self) -> SamplerDesc {
        self.desc
    }
}

impl SamplerBuilder {
    pub fn new() -> (r: SamplerBuilder)
        ensures
            r@ == (SamplerDesc {
                address_mode_u: AddressMode::ClampToEdge,
                address_mode_v: AddressMode::ClampToEdge,
                address_mode_w: AddressMode::ClampToEdge,
                mag_filter: FilterMode::Nearest,
                min_filter: FilterMode::Nearest,
                mipmap_filter: FilterMode::Nearest,
            }),
    {
        SamplerBuilder {
            desc: SamplerDesc {
                address_mode_u: AddressMode::ClampToEdge,
                address_mode_v: AddressMode::ClampToEdge,
                address_mode_w: AddressMode::ClampToEdge,
                mag_filter: FilterMode::Nearest,
                min_filter: FilterMode::Nearest,
                mipmap_filter: FilterMode::Nearest,
            },
        }
    }

    /// Uses `mode` along all three axes.
    pub fn with_mode(self, mode: AddressMode) -> (r: SamplerBuilder)
        ensures
            r@ == (SamplerDesc {
                address_mode_u: mode,
                address_mode_v: mode,
                address_mode_w: mode,
                ..self@
            }),
    {
        SamplerBuilder {
            desc: SamplerDesc {
                address_mode_u: mode,
                address_mode_v: mode,
                address_mode_w: mode,
                ..self.desc
            },
        }
    }

    /// Uses `mode` for magnification, minification and mipmaps.
    pub fn with_filtering(self, mode: FilterMode) -> (r: SamplerBuilder)
        ensures
            r@ == (SamplerDesc { mag_filter: mode, min_filter: mode, mipmap_filter: mode, ..self@ }),
    {
        SamplerBuilder {
            desc: SamplerDesc { mag_filter: mode, min_filter: mode, mipmap_filter: mode, ..self.desc },
        }
    }

    /// The sampler described so far.
    pub fn desc(&self) -> (r: SamplerDesc)
        ensures
            r == self@,
    {
        self.desc
    }
}

} // verus!
