use adore::raw::{
    batch_layouts, layout_order, texture_layout, uniform_layout, AddressMode, BindGroupLayoutEntry, BindingType, DynamicIndexBuffer,
    DynamicUniform, DynamicVertexBuffer, FilterMode, IndexBuffer, IndexFormat, PipelineConfig, Reset, Resize,
    SamplerBindingType,
    ShaderStages, StepMode, TextureSampleType, TextureViewDimension, Write,
};
use adore::{shader, Batch};

#[test]
fn values_lie_at_multiples_of_the_alignment() {
    let mut uniform = DynamicUniform::new(64, 256, ShaderStages::Vertex);
    assert_eq!((uniform.len(), uniform.offset(), uniform.bind_groups()), (1, 0, 1));
    assert_eq!(uniform.buffer_size(), 256);
    assert_eq!(uniform.stride(), 256);
    assert!(uniform.has_room());
    assert!(uniform.can_reach(16777215) && !uniform.can_reach(16777216));
    assert_eq!(uniform.offset_of(3), 768);
    assert_eq!(DynamicUniform::new(256, 256, ShaderStages::Vertex).offset_of(1), 256);
    assert_eq!(DynamicUniform::new(257, 256, ShaderStages::Vertex).offset_of(1), 512);
    assert_eq!(DynamicUniform::new(0, 256, ShaderStages::Vertex).offset_of(5), 0);
    assert_eq!(DynamicUniform::new(5, 1, ShaderStages::Vertex).offset_of(2), 10);
    assert_eq!(uniform.set(), Write { resize: Resize::Keep, offset: 0, enqueue: true });
    assert_eq!(uniform.set(), Write { resize: Resize::Expand { size: 512 }, offset: 256, enqueue: false });
    assert_eq!(uniform.set(), Write { resize: Resize::Expand { size: 768 }, offset: 512, enqueue: false });
    assert_eq!((uniform.len(), uniform.offset(), uniform.bind_groups()), (3, 3, 3));
    assert_eq!(uniform.binding(), (2, 512));
}

#[test]
fn a_reset_fits_the_buffer_to_what_the_frame_has_set() {
    let mut uniform = DynamicUniform::with_capacity(16, 4, 32, ShaderStages::Fragment);
    assert!(!uniform.is_empty());
    assert_eq!(uniform.buffer_size(), 128);
    assert_eq!(uniform.binding(), (0, 0));
    uniform.set();
    uniform.set();
    assert_eq!(uniform.binding(), (0, 32));
    assert_eq!(uniform.reset(), Reset { resize: Resize::Shrink { size: 64 }, drop_oldest: true });
    assert_eq!((uniform.len(), uniform.offset(), uniform.bind_groups()), (2, 0, 1));
    uniform.set();
    uniform.set();
    assert_eq!(uniform.reset(), Reset { resize: Resize::Keep, drop_oldest: false });
    assert_eq!(uniform.set().enqueue, true);
    uniform.set();
    uniform.set();
    assert_eq!(uniform.bind_groups(), 2);
    assert_eq!(uniform.reset(), Reset { resize: Resize::Keep, drop_oldest: true });
    assert_eq!((uniform.len(), uniform.bind_groups()), (3, 1));
    assert_eq!(uniform.reset(), Reset { resize: Resize::Shrink { size: 0 }, drop_oldest: true });
    assert!(uniform.is_empty());
    assert_eq!(uniform.visibility(), ShaderStages::Fragment);
}

#[test]
fn a_resize_makes_a_new_buffer_unless_the_length_stays() {
    let mut uniform = DynamicUniform::with_capacity(10, 2, 8, ShaderStages::Vertex);
    assert_eq!(uniform.resize(2), Resize::Keep);
    assert_eq!(uniform.resize(5), Resize::Expand { size: 80 });
    assert_eq!(uniform.resize(1), Resize::Shrink { size: 16 });
    assert_eq!((uniform.len(), uniform.bind_groups()), (1, 3));
}

#[test]
fn an_alignment_of_zero_or_too_wide_a_stride_cannot_be_held() {
    assert!(!DynamicUniform::can_hold(64, 0));
    assert!(DynamicUniform::can_hold(64, 256));
    assert!(DynamicUniform::can_hold(4294967295, 1));
    assert!(DynamicUniform::can_hold(4294967295, 4294967295));
    assert!(!DynamicUniform::can_hold(4294967295, 2));
    assert!(!DynamicUniform::can_hold(4294967296, 1));
    assert!(DynamicUniform::can_hold(0, 4294967295));
}

#[test]
fn two_uniforms_have_identifiers_of_their_own() {
    let mut a = DynamicUniform::new(4, 4, ShaderStages::Vertex);
    let b = DynamicUniform::new(4, 4, ShaderStages::Vertex);
    assert_ne!(a.id(), b.id());
    let id = a.id();
    a.set();
    a.resize(9);
    a.reset();
    assert_eq!(a.id(), id);
}

#[test]
fn a_dynamic_buffer_is_made_anew_when_the_size_changes() {
    let mut vertices = DynamicVertexBuffer::new(16);
    assert!(!vertices.set(16));
    assert!(vertices.set(32));
    assert!(!vertices.set(32));
    let mut indices = DynamicIndexBuffer::new(12, IndexFormat::Uint16, 6);
    assert_eq!((indices.len(), indices.format()), (6, IndexFormat::Uint16));
    assert!(!indices.set(12, 3));
    assert_eq!(indices.len(), 6);
    assert!(indices.set(24, 12));
    assert_eq!(indices.len(), 12);
    assert!(indices.set(8, 4294967298));
    assert_eq!(indices.len(), 2);
}

#[test]
fn an_index_buffer_counts_its_indices_in_32_bits() {
    let buffer = IndexBuffer::new(IndexFormat::Uint32, 6);
    assert_eq!((buffer.len(), buffer.format()), (6, IndexFormat::Uint32));
    assert_eq!(IndexBuffer::new(IndexFormat::Uint32, 4294967296).len(), 0);
    assert_eq!(IndexBuffer::new(IndexFormat::Uint32, 4294967295).len(), 4294967295);
}

#[test]
fn the_defaults_are_those_of_the_device() {
    assert_eq!(StepMode::default(), StepMode::Vertex);
    assert_eq!(IndexFormat::default(), IndexFormat::Uint32);
    assert_eq!(AddressMode::default(), AddressMode::ClampToEdge);
    assert_eq!(FilterMode::default(), FilterMode::Nearest);
}

fn texture_entries() -> Vec<BindGroupLayoutEntry> {
    vec![
        BindGroupLayoutEntry {
            binding: 0,
            visibility: ShaderStages::Fragment,
            ty: BindingType::Texture {
                sample_type: TextureSampleType::Float { filterable: true },
                view_dimension: TextureViewDimension::D2,
                multisampled: false,
            },
            count: None,
        },
        BindGroupLayoutEntry {
            binding: 1,
            visibility: ShaderStages::Fragment,
            ty: BindingType::Sampler(SamplerBindingType::Filtering),
            count: None,
        },
    ]
}

#[test]
fn the_bind_groups_of_a_batch_are_the_camera_and_the_texture_slots() {
    let camera = vec![BindGroupLayoutEntry {
        binding: 0,
        visibility: ShaderStages::Vertex,
        ty: BindingType::Uniform(false),
        count: None,
    }];
    assert_eq!(uniform_layout(ShaderStages::Vertex), camera);
    assert_eq!(texture_layout(), texture_entries());
    assert_eq!(batch_layouts(0), vec![(0, camera.clone())]);
    assert_eq!(batch_layouts(2), vec![(0, camera.clone()), (1, texture_entries()), (2, texture_entries())]);
    assert_eq!(Batch::new(3).bind_group_layouts(), batch_layouts(2));
    assert_eq!(
        DynamicUniform::bind_group_layout(ShaderStages::VertexFragment),
        BindGroupLayoutEntry {
            binding: 0,
            visibility: ShaderStages::VertexFragment,
            ty: BindingType::Uniform(true),
            count: None,
        }
    );
}

#[test]
fn the_shader_declares_and_samples_each_texture_slot() {
    assert_eq!(shader::bind_groups(0), "\n");
    assert_eq!(shader::body(0), "\n");
    assert_eq!(
        shader::bind_groups(2),
        "\n@group(1) @binding(0) var texture_0: texture_2d<f32>;\n@group(1) @binding(1) var texture_sampler_0: \
         sampler;\n                    \n@group(2) @binding(0) var texture_1: texture_2d<f32>;\n@group(2) \
         @binding(1) var texture_sampler_1: sampler;\n                    \n"
    );
    assert_eq!(
        shader::body(1),
        "\nif (in.texture_index == 0) {\nout = textureSample(texture_0, texture_sampler_0, in.texcoord) * \
         in.color;\n}\n                \n"
    );
    assert!(shader::bind_groups(11).contains("@group(11) @binding(1) var texture_sampler_10: sampler;"));
}

#[test]
fn the_shader_is_made_from_its_template() {
    let template = "#include_bind_groups|#include_body|#include_body";
    assert_eq!(shader::source(template, 0), "\n|\n|\n");
    let shader = Batch::new(2).shader_source("a #include_body b");
    assert_eq!(shader, format!("a {} b", shader::body(1)));
    assert_eq!(shader::source("nothing to fill in", 3), "nothing to fill in");
}

#[test]
fn a_pipeline_takes_its_layouts_by_their_numbers() {
    let layout = |order: u32| (order, uniform_layout(ShaderStages::Vertex));
    assert_eq!(layout_order(&vec![]), Vec::<usize>::new());
    assert_eq!(layout_order(&vec![layout(2), layout(0), layout(1)]), vec![1, 2, 0]);
    assert_eq!(layout_order(&vec![layout(1), layout(0), layout(1), layout(0)]), vec![1, 3, 0, 2]);
    assert_eq!(layout_order(&batch_layouts(3)), vec![0, 1, 2, 3]);
    let config = PipelineConfig {
        shader_source: String::new(),
        vertex_buffer_layouts: vec![],
        bind_group_layouts: vec![layout(7), layout(3)],
        depth_stencil_write_enabled: false,
    };
    assert_eq!(config.layout_order(), vec![1, 0]);
}
