use vstd::prelude::*;

use crate::gfx::raw::config::{
    BindGroupLayoutEntry, BindingType, Order, SamplerBindingType, ShaderStages, TextureSampleType,
    TextureViewDimension,
};

verus! {

/// The layout of a bind group, by its entries.
pub type BindGroupLayout = Vec<BindGroupLayoutEntry>;

/// The one entry of the bind group of a uniform: a uniform buffer without
/// a dynamic offset, seen by `stages`.
pub open spec fn uniform_entry(stages: ShaderStages) -> BindGroupLayoutEntry {
    BindGroupLayoutEntry { binding: 0, visibility: stages, ty: BindingType::Uniform(false), count: None }
}

/// The two entries of the bind group of a texture, both seen by the
/// fragment stage: a two-dimensional texture of filterable floats, and a
/// filtering sampler.
pub open spec fn texture_entries() -> Seq<BindGroupLayoutEntry> {
    seq![
        BindGroupLayoutEntry {
            binding: 0,
            visibility: ShaderStages::Fragment,
            ty: BindingType::Texture {
                sample_type: TextureSampleType::Float { filterable: true },
                view_dimension: TextureViewDimension::D2,
                multisampled: false,
            },
            count: None,
        },
        BindGroupLayoutEntry {
            binding: 1,
            visibility: ShaderStages::Fragment,
            ty: BindingType::Sampler(SamplerBindingType::Filtering),
            count: None,
        },
    ]
}

/// The layout of the bind group with the number `group` of a batch: that
/// of the camera's uniform, seen by the vertex stage, for group 0, and that
/// of a texture for every other.
pub open spec fn batch_group(group: int) -> (Order, Seq<BindGroupLayoutEntry>) {
    if group == 0 {
        (0, seq![uniform_entry(ShaderStages::Vertex)])
    } else {
        (group as u32, texture_entries())
    }
}

/// The layout of the bind group of a uniform.
pub fn uniform_layout(stages: ShaderStages) -> (layout: BindGroupLayout)
    ensures
        layout@ == seq![uniform_entry(stages)],
{
    let mut layout: BindGroupLayout = Vec::new();
    layout.push(
        BindGroupLayoutEntry { binding: 0, visibility: stages, ty: BindingType::Uniform(false), count: None },
    );
    assert(layout@ =~= seq![uniform_entry(stages)]);
    layout
}

/// The layout of the bind group of a texture.
pub fn texture_layout() -> (layout: BindGroupLayout)
    ensures
        layout@ == texture_entries(),
{
    let mut layout: BindGroupLayout = Vec::new();
    layout.push(
        BindGroupLayoutEntry {
            binding: 0,
            visibility: ShaderStages::Fragment,
            ty: BindingType::Texture {
                sample_type: TextureSampleType::Float { filterable: true },
                view_dimension: TextureViewDimension::D2,
                multisampled: false,
            },
            count: None,
        },
    );
    layout.push(
        BindGroupLayoutEntry {
            binding: 1,
            visibility: ShaderStages::Fragment,
            ty: BindingType::Sampler(SamplerBindingType::Filtering),
            count: None,
        },
    );
    assert(layout@ =~= texture_entries());
    layout
}

/// The layouts of the bind groups of a batch that binds `capacity`
/// textures, each with its number: the camera's, then one for each texture
/// slot.
pub fn batch_layouts(capacity: u32) -> (layouts: Vec<(Order, BindGroupLayout)>)
    requires
        capacity < u32::MAX,
    ensures
        layouts@.len() == capacity + 1,
        forall|group: int|
            0 <= group <= capacity ==> (#[trigger] layouts@[group]).0 == batch_group(group).0 && layouts@[group].1@
                == batch_group(group).1,
{
    let mut layouts: Vec<(Order, BindGroupLayout)> = Vec::new();
    layouts.push((0, uniform_layout(ShaderStages::Vertex)));
    let mut group: u32 = 1;
    while group < capacity + 1
        invariant
            1 <= group <= capacity + 1,
            capacity < u32::MAX,
            layouts@.len() == group,
            forall|g: int|
                0 <= g < group ==> (#[trigger] layouts@[g]).0 == batch_group(g).0 && layouts@[g].1@ == batch_group(
                    g,
                ).1,
        decreases capacity + 1 - group,
    {
        layouts.push((group, texture_layout()));
        group += 1;
    }
    layouts
}

} // verus!
