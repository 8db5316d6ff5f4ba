use vstd::prelude::*;

verus! {

/// Names a GPU buffer owned by the embedding program.
#[derive(Clone, Copy, Debug, PartialEq, Eq, Structural, Hash)]
pub struct BufferHandle(pub u32);

/// Names a compiled shader module.
#[derive(Clone, Copy, Debug, PartialEq, Eq, Structural, Hash)]
pub struct ShaderModuleHandle(pub u32);

/// Names a render pipeline.
#[derive(Clone, Copy, Debug, PartialEq, Eq, Structural, Hash)]
pub struct PipelineHandle(pub u32);

/// Names a bind group layout.
#[derive(Clone, Copy, Debug, PartialEq, Eq, Structural, Hash)]
pub struct BindGroupLayoutHandle(pub u32);

/// Names a bind group.
#[derive(Clone, Copy, Debug, PartialEq, Eq, Structural, Hash)]
pub struct BindGroupHandle(pub u32);

/// Names a GPU texture.
#[derive(Clone, Copy, Debug, PartialEq, Eq, Structural, Hash)]
pub struct TextureHandle(pub u32);

/// Names a view of a GPU texture.
#[derive(Clone, Copy, Debug, PartialEq, Eq, Structural, Hash)]
pub struct TextureViewHandle(pub u32);

/// Names a sampler.
#[derive(Clone, Copy, Debug, PartialEq, Eq, Structural, Hash)]
pub struct SamplerHandle(pub u32);

} // verus!
