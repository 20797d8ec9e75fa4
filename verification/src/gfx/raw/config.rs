use vstd::prelude::*;

verus! {

pub type HasDynamicOffset = bool;

pub type Order = u32;

/// Whether a vertex buffer advances by vertex or by instance.
#[derive(Debug, Clone, Copy, PartialEq, Eq, Structural)]
pub enum StepMode {
    Vertex,
    Instance,
}

impl Default for StepMode {
    fn default() -> (mode: Self)
        ensures
            mode == StepMode::Vertex,
    {
        StepMode::Vertex
    }
}

/// The format of one attribute of a vertex.
#[derive(Debug, Clone, Copy, PartialEq, Eq, Structural)]
pub enum VertexFormat {
    Uint8x2,
    Uint8x4,
    Sint8x2,
    Sint8x4,
    Unorm8x2,
    Unorm8x4,
    Snorm8x2,
    Snorm8x4,
    Uint16x2,
    Uint16x4,
    Sint16x2,
    Sint16x4,
    Unorm16x2,
    Unorm16x4,
    Snorm16x2,
    Snorm16x4,
    Float16x2,
    Float16x4,
    Float32,
    Float32x2,
    Float32x3,
    Float32x4,
    Uint32,
    Uint32x2,
    Uint32x3,
    Uint32x4,
    Sint32,
    Sint32x2,
    Sint32x3,
    Sint32x4,
    Float64,
    Float64x2,
    Float64x3,
    Float64x4,
}

/// One attribute of a vertex: where it lies in the vertex, where the shader
/// finds it, and its format.
#[derive(Debug, Clone, Copy, PartialEq, Eq, Structural)]
pub struct Attribute {
    pub offset: u64,
    pub shader_location: u32,
    pub format: VertexFormat,
}

/// The width of the indices of an index buffer.
#[derive(Debug, Clone, Copy, PartialEq, Eq, Structural)]
pub enum IndexFormat {
    Uint16,
    Uint32,
}

impl Default for IndexFormat {
    fn default() -> (format: Self)
        ensures
            format == IndexFormat::Uint32,
    {
        IndexFormat::Uint32
    }
}

/// The shader stages that see a binding.
#[derive(Debug, Clone, Copy, PartialEq, Eq, Structural)]
pub enum ShaderStages {
    /// No stage at all.
    Nothing,
    Vertex,
    Fragment,
    Compute,
    VertexFragment,
}

#[derive(Debug, Clone, Copy, PartialEq, Eq, Structural)]
pub enum SamplerBindingType {
    Filtering,
    NonFiltering,
    Comparison,
}

#[derive(Debug, Clone, Copy, PartialEq, Eq, Structural)]
pub enum TextureSampleType {
    Float { filterable: bool },
    Depth,
    Sint,
    Uint,
}

#[derive(Debug, Clone, Copy, PartialEq, Eq, Structural)]
pub enum TextureViewDimension {
    D1,
    D2,
    D2Array,
    Cube,
    CubeArray,
    D3,
}

/// What a binding of a bind group layout holds.
#[derive(Debug, Clone, Copy, PartialEq, Eq, Structural)]
pub enum BindingType {
    Uniform(HasDynamicOffset),
    Texture { sample_type: TextureSampleType, view_dimension: TextureViewDimension, multisampled: bool },
    Sampler(SamplerBindingType),
}

/// One entry of a bind group layout.
#[derive(Debug, Clone, Copy, PartialEq, Eq)]
pub struct BindGroupLayoutEntry {
    pub binding: u32,
    pub visibility: ShaderStages,
    pub ty: BindingType,
    pub count: Option<u32>,
}

/// How the surface is to be configured.
#[derive(Debug, Clone, Copy, PartialEq, Eq, Structural)]
pub struct ContextConfig {
    pub width: u32,
    pub height: u32,
    pub vsync: bool,
}

#[derive(Debug, Clone, Copy, PartialEq, Eq, Structural)]
pub enum AddressMode {
    ClampToEdge,
    Repeat,
    MirrorRepeat,
    ClampToBorder,
}

impl Default for AddressMode {
    fn default() -> (mode: Self)
        ensures
            mode == AddressMode::ClampToEdge,
    {
        AddressMode::ClampToEdge
    }
}

#[derive(Debug, Clone, Copy, PartialEq, Eq, Structural)]
pub enum FilterMode {
    Nearest,
    Linear,
}

impl Default for FilterMode {
    fn default() -> (mode: Self)
        ensures
            mode == FilterMode::Nearest,
    {
        FilterMode::Nearest
    }
}

#[derive(Debug, Clone, Copy, PartialEq, Eq, Structural)]
pub enum CompareFunction {
    Never,
    Less,
    Equal,
    LessEqual,
    Greater,
    NotEqual,
    GreaterEqual,
    Always,
}

#[derive(Debug, Clone, Copy, PartialEq, Eq, Structural)]
pub enum SamplerBorderColor {
    TransparentBlack,
    OpaqueBlack,
    OpaqueWhite,
    Zero,
}

} // verus!
