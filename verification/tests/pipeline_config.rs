use vulkan_frames::pass::PassDescriptor;
use vulkan_frames::pipeline::BlendFactor;
use vulkan_frames::pipeline::BlendOp;
use vulkan_frames::pipeline::BuildError;
use vulkan_frames::pipeline::CompareOp;
use vulkan_frames::pipeline::CullMode;
use vulkan_frames::pipeline::DynamicStateKind;
use vulkan_frames::pipeline::FrontFace;
use vulkan_frames::pipeline::PipelineBuilder;
use vulkan_frames::pipeline::PolygonMode;
use vulkan_frames::pipeline::SampleCount;
use vulkan_frames::pipeline::ShaderStage;
use vulkan_frames::pipeline::Topology;
use vulkan_frames::surface::ColorSpace;
use vulkan_frames::surface::Extent2D;
use vulkan_frames::surface::PixelFormat;
use vulkan_frames::surface::SurfaceFormat;

fn make_pass() -> PassDescriptor {
    PassDescriptor::for_format(SurfaceFormat {
        format: PixelFormat::B8G8R8A8Srgb,
        color_space: ColorSpace::SrgbNonlinear,
    })
}

fn make_extent() -> Extent2D {
    Extent2D { width: 1280, height: 720 }
}

#[test]
fn builder_defaults_are_exact() {
    let b = PipelineBuilder::new();
    assert_eq!(b.render_pass, None);
    assert_eq!(b.extent, None);
    assert!(b.stages.is_empty());
    assert_eq!(b.topology, Topology::TriangleList);
    assert!(!b.primitive_restart);
    assert!(b.dynamic_states.is_empty());
    assert_eq!(b.polygon_mode, PolygonMode::Fill);
    assert_eq!(b.cull_mode, CullMode::Back);
    assert_eq!(b.front_face, FrontFace::Clockwise);
    assert!(!b.depth_clamp);
    assert_eq!(b.samples, SampleCount::One);
    assert!(!b.sample_shading);
    assert!(!b.depth_test);
    assert!(!b.depth_write);
    assert_eq!(b.depth_compare, CompareOp::Less);
    assert!(!b.depth_bounds_test);
    assert!(!b.stencil_test);
    assert!(b.blend_attachments.is_empty());
    assert!(!b.logic_op_enable);
}

#[test]
fn build_requires_a_render_pass_first() {
    let r = PipelineBuilder::new().set_extent(make_extent()).with_vertex_stage().build();
    assert_eq!(r.err(), Some(BuildError::MissingRenderPass));
}

#[test]
fn build_requires_an_extent_second() {
    let r = PipelineBuilder::new().set_render_pass(make_pass()).with_vertex_stage().build();
    assert_eq!(r.err(), Some(BuildError::MissingExtent));
}

#[test]
fn build_requires_at_least_one_shader_stage() {
    let r = PipelineBuilder::new().set_render_pass(make_pass()).set_extent(make_extent()).build();
    assert_eq!(r.err(), Some(BuildError::NoShaderStages));
}

#[test]
fn build_carries_every_option_over() {
    let config = PipelineBuilder::new()
        .set_render_pass(make_pass())
        .set_extent(make_extent())
        .with_vertex_stage()
        .with_fragment_stage()
        .with_topology(Topology::TriangleList)
        .with_dynamic_state(DynamicStateKind::Viewport)
        .with_dynamic_state(DynamicStateKind::Scissor)
        .with_alpha_blending()
        .build()
        .unwrap();

    assert_eq!(config.render_pass, make_pass());
    assert_eq!(config.extent, make_extent());
    assert_eq!(config.stages, vec![ShaderStage::Vertex, ShaderStage::Fragment]);
    assert_eq!(
        config.dynamic_states,
        vec![DynamicStateKind::Viewport, DynamicStateKind::Scissor]
    );
    assert_eq!(config.blend_attachments.len(), 1);
    let blend = config.blend_attachments[0];
    assert!(blend.blend_enable);
    assert_eq!(blend.src_color_factor, BlendFactor::SrcAlpha);
    assert_eq!(blend.dst_color_factor, BlendFactor::OneMinusSrcAlpha);
    assert_eq!(blend.color_op, BlendOp::Add);
    assert_eq!(blend.src_alpha_factor, BlendFactor::One);
    assert_eq!(blend.dst_alpha_factor, BlendFactor::Zero);
    assert_eq!(blend.alpha_op, BlendOp::Add);
    assert!(blend.write_r && blend.write_g && blend.write_b && blend.write_a);
}

#[test]
fn depth_test_options_travel_together() {
    let b = PipelineBuilder::new().with_depth_test(true, false, CompareOp::LessOrEqual);
    assert!(b.depth_test);
    assert!(!b.depth_write);
    assert_eq!(b.depth_compare, CompareOp::LessOrEqual);
}
