pub mod config;
pub mod context;
pub mod dynamic_index_buffer;
pub mod dynamic_uniform;
pub mod dynamic_vertex_buffer;
pub mod index_buffer;
pub mod layout;
pub mod pipeline;

pub use config::{
    AddressMode, Attribute, BindGroupLayoutEntry, BindingType, CompareFunction, ContextConfig, FilterMode,
    HasDynamicOffset, IndexFormat, Order, SamplerBindingType, SamplerBorderColor, ShaderStages, StepMode,
    TextureSampleType, TextureViewDimension, VertexFormat,
};
pub use context::{
    frame, pick_format, picked, render, request_features, reset, Context, ContextView, PresentMode, RenderAction,
    RenderEvent,
};
pub use dynamic_uniform::{resized, step, DynamicUniform, DynamicUniformView, Reset, Resize, Write};
pub use dynamic_index_buffer::{DynamicIndexBuffer, DynamicIndexBufferView};
pub use dynamic_vertex_buffer::DynamicVertexBuffer;
pub use index_buffer::{index_count, IndexBuffer, IndexBufferView};
pub use layout::{
    batch_group, batch_layouts, texture_entries, texture_layout, uniform_entry, uniform_layout, BindGroupLayout,
};
pub use pipeline::{arranges, layout_order, orders, rises, PipelineConfig, VertexBufferLayout};
