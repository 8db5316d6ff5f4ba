use vstd::prelude::*;

use crate::handles::{
    BindGroupHandle, BindGroupLayoutHandle, BufferHandle, PipelineHandle, ShaderModuleHandle,
    TextureHandle, TextureViewHandle,
};

verus! {

/// A shader module, the pipeline built from it, and the two bind group
/// layouts it was built against (global at group 0, material at group 1).
#[derive(Clone, Copy, Debug, PartialEq, Eq, Structural)]
pub struct Shader {
    pub module: ShaderModuleHandle,
    pub pipeline: PipelineHandle,
    pub global_layout: BindGroupLayoutHandle,
    pub material_layout: BindGroupLayoutHandle,
}

/// A shader together with a bind group made against its material layout.
///
/// The material holds its own copy of the shader's handles: replacing a
/// registry entry later does not change which pipeline the material draws with.
#[derive(Clone, Copy, Debug, PartialEq, Eq, Structural)]
pub struct Material {
    pub shader: Shader,
    pub bind_group: BindGroupHandle,
}

impl Material {
    pub fn new(shader: &Shader, bind_group: BindGroupHandle) -> (r: Material)
        ensures
            r.shader == *shader,
            r.bind_group == bind_group,
    {
        Material { shader: *shader, bind_group }
    }
}

/// Vertex and index buffers, and the range of indices drawn: `num_indices`
/// indices from `start_index` on.
#[derive(Clone, Copy, Debug, PartialEq, Eq, Structural)]
pub struct Mesh {
    pub vertices: BufferHandle,
    pub indices: BufferHandle,
    pub num_indices: u32,
    pub start_index: u32,
}

impl Mesh {
    /// A mesh drawn from its first index.
    pub fn new(vertices: BufferHandle, indices: BufferHandle, num_indices: u32) -> (r: Mesh)
        ensures
            r == (Mesh { vertices, indices, num_indices, start_index: 0 }),
    {
        Mesh { vertices, indices, num_indices, start_index: 0 }
    }

    /// One past the last index drawn, where that fits in 32 bits.
    pub fn end_index(&self) -> (r: Option<u32>)
        ensures
            r == if index_range_fits(*self) {
                Some((self.start_index + self.num_indices) as u32)
            } else {
                None::<u32>
            },
    {
        self.start_index.checked_add(self.num_indices)
    }
}

/// The end of the mesh's index range can be described in 32 bits.
pub open spec fn index_range_fits(mesh: Mesh) -> bool {
    mesh.start_index + mesh.num_indices <= u32::MAX
}

/// The size of a texture in texels.
#[derive(Clone, Copy, Debug, PartialEq, Eq, Structural)]
pub struct Extent3d {
    pub width: u32,
    pub height: u32,
    pub depth_or_array_layers: u32,
}

/// A GPU texture and its default view; the size is fixed at creation.
#[derive(Clone, Copy, Debug, PartialEq, Eq, Structural)]
pub struct Texture {
    pub size: Extent3d,
    pub data: TextureHandle,
    pub view: TextureViewHandle,
}

} // verus!
