use vstd::prelude::*;

use crate::bind_groups::{
    AddressMode, BindGroupBuilder, BindGroupLayoutBuilder, BindingKind, BindingResource,
    BufferBindingType, FilterMode, GroupEntry, LayoutEntry, SamplerBuilder, SamplerDesc,
    ShaderStages,
};
use crate::handles::{BufferHandle, SamplerHandle, TextureViewHandle};

verus! {

/// The layout of group 0, shared by every shader: the scene uniform buffer,
/// then a trilinear and a point sampler.
pub fn global_layout() -> (r: BindGroupLayoutBuilder)
    ensures
        r@ == seq![
            LayoutEntry {
                binding: 0,
                visibility: ShaderStages::VertexFragment,
                kind: BindingKind::Buffer(BufferBindingType::Uniform),
            },
            LayoutEntry { binding: 1, visibility: ShaderStages::Fragment, kind: BindingKind::Sampler },
            LayoutEntry { binding: 2, visibility: ShaderStages::Fragment, kind: BindingKind::Sampler },
        ],
{
    let r = BindGroupLayoutBuilder::new().with_buffer(
        ShaderStages::VertexFragment,
        BufferBindingType::Uniform,
    ).with_sampler(ShaderStages::Fragment).with_sampler(ShaderStages::Fragment);
    assert(r@ =~= seq![
        LayoutEntry {
            binding: 0,
            visibility: ShaderStages::VertexFragment,
            kind: BindingKind::Buffer(BufferBindingType::Uniform),
        },
        LayoutEntry { binding: 1, visibility: ShaderStages::Fragment, kind: BindingKind::Sampler },
        LayoutEntry { binding: 2, visibility: ShaderStages::Fragment, kind: BindingKind::Sampler },
    ]);
    r
}

/// The layout of group 1 for textured materials: a texture, then its sampler.
pub fn material_layout() -> (r: BindGroupLayoutBuilder)
    ensures
        r@ == seq![
            LayoutEntry { binding: 0, visibility: ShaderStages::Fragment, kind: BindingKind::Texture2d },
            LayoutEntry { binding: 1, visibility: ShaderStages::Fragment, kind: BindingKind::Sampler },
        ],
{
    let r = BindGroupLayoutBuilder::new().with_texture2d(ShaderStages::Fragment).with_sampler(
        ShaderStages::Fragment,
    );
    assert(r@ =~= seq![
        LayoutEntry { binding: 0, visibility: ShaderStages::Fragment, kind: BindingKind::Texture2d },
        LayoutEntry { binding: 1, visibility: ShaderStages::Fragment, kind: BindingKind::Sampler },
    ]);
    r
}

/// Clamped to the edge, with linear filtering.
pub fn trilinear_sampler() -> (r: SamplerBuilder)
    ensures
        r@ == (SamplerDesc {
            address_mode_u: AddressMode::ClampToEdge,
            address_mode_v: AddressMode::ClampToEdge,
            address_mode_w: AddressMode::ClampToEdge,
            mag_filter: FilterMode::Linear,
            min_filter: FilterMode::Linear,
            mipmap_filter: FilterMode::Linear,
        }),
{
    SamplerBuilder::new().with_mode(AddressMode::ClampToEdge).with_filtering(FilterMode::Linear)
}

/// Clamped to the edge, with nearest filtering.
pub fn point_sampler() -> (r: SamplerBuilder)
    ensures
        r@ == (SamplerDesc {
            address_mode_u: AddressMode::ClampToEdge,
            address_mode_v: AddressMode::ClampToEdge,
            address_mode_w: AddressMode::ClampToEdge,
            mag_filter: FilterMode::Nearest,
            min_filter: FilterMode::Nearest,
            mipmap_filter: FilterMode::Nearest,
        }),
{
    SamplerBuilder::new().with_mode(AddressMode::ClampToEdge).with_filtering(FilterMode::Nearest)
}

/// Group 0 as laid out by `global_layout`.
pub fn global_bind_group(
    scene: BufferHandle,
    trilinear: SamplerHandle,
    point: SamplerHandle,
) -> (r: BindGroupBuilder)
    ensures
        r@ == seq![
            GroupEntry { binding: 0, resource: BindingResource::Buffer(scene) },
            GroupEntry { binding: 1, resource: BindingResource::Sampler(trilinear) },
            GroupEntry { binding: 2, resource: BindingResource::Sampler(point) },
        ],
{
    let r = BindGroupBuilder::new().with_buffer(scene).with_sampler(trilinear).with_sampler(point);
    assert(r@ =~= seq![
        GroupEntry { binding: 0, resource: BindingResource::Buffer(scene) },
        GroupEntry { binding: 1, resource: BindingResource::Sampler(trilinear) },
        GroupEntry { binding: 2, resource: BindingResource::Sampler(point) },
    ]);
    r
}

/// Group 1 of a textured material, as laid out by `material_layout`.
pub fn material_bind_group(view: TextureViewHandle, sampler: SamplerHandle) -> (r: BindGroupBuilder)
    ensures
        r@ == seq![
            GroupEntry { binding: 0, resource: BindingResource::TextureView(view) },
            GroupEntry { binding: 1, resource: BindingResource::Sampler(sampler) },
        ],
{
    let r = BindGroupBuilder::new().with_texture2d(view).with_sampler(sampler);
    assert(r@ =~= seq![
        GroupEntry { binding: 0, resource: BindingResource::TextureView(view) },
        GroupEntry { binding: 1, resource: BindingResource::Sampler(sampler) },
    ]);
    r
}

} // verus!
