//! Pipeline configuration: a plain builder enumerating the recognized
//! options, validated at a single build boundary that fails when a
//! required field is absent. The device-side pipeline object itself is
//! opaque; this module fixes exactly what is asked of it.

use vstd::prelude::*;
use crate::pass::PassDescriptor;
use crate::surface::Extent2D;

verus! {

/// A programmable stage the pipeline runs.
#[derive(Clone, Copy, PartialEq, Eq, Structural, Debug)]
pub enum ShaderStage {
    Vertex,
    Fragment,
}

/// How vertices assemble into primitives.
#[derive(Clone, Copy, PartialEq, Eq, Structural, Debug)]
pub enum Topology {
    PointList,
    LineList,
    TriangleList,
    TriangleStrip,
}

/// How primitives rasterize.
#[derive(Clone, Copy, PartialEq, Eq, Structural, Debug)]
pub enum PolygonMode {
    Fill,
    Line,
    Point,
}

/// Which faces are culled.
#[derive(Clone, Copy, PartialEq, Eq, Structural, Debug)]
pub enum CullMode {
    NoCulling,
    Front,
    Back,
    FrontAndBack,
}

/// Which winding is a front face.
#[derive(Clone, Copy, PartialEq, Eq, Structural, Debug)]
pub enum FrontFace {
    Clockwise,
    CounterClockwise,
}

/// The depth comparison a fragment must pass.
#[derive(Clone, Copy, PartialEq, Eq, Structural, Debug)]
pub enum CompareOp {
    Never,
    Less,
    Equal,
    LessOrEqual,
    Greater,
    NotEqual,
    GreaterOrEqual,
    Always,
}

/// A pipeline state set per recording rather than baked in.
#[derive(Clone, Copy, PartialEq, Eq, Structural, Debug)]
pub enum DynamicStateKind {
    Viewport,
    Scissor,
}

/// Rasterization sample count.
#[derive(Clone, Copy, PartialEq, Eq, Structural, Debug)]
pub enum SampleCount {
    One,
    Two,
    Four,
    Eight,
}

/// A blend factor.
#[derive(Clone, Copy, PartialEq, Eq, Structural, Debug)]
pub enum BlendFactor {
    Zero,
    One,
    SrcAlpha,
    OneMinusSrcAlpha,
}

/// A blend operation.
#[derive(Clone, Copy, PartialEq, Eq, Structural, Debug)]
pub enum BlendOp {
    Add,
}

/// One color attachment's blend state.
#[derive(Clone, Copy, PartialEq, Eq, Structural, Debug)]
pub struct BlendAttachment {
    pub blend_enable: bool,
    pub src_color_factor: BlendFactor,
    pub dst_color_factor: BlendFactor,
    pub color_op: BlendOp,
    pub src_alpha_factor: BlendFactor,
    pub dst_alpha_factor: BlendFactor,
    pub alpha_op: BlendOp,
    pub write_r: bool,
    pub write_g: bool,
    pub write_b: bool,
    pub write_a: bool,
}

/// The standard alpha-blending attachment: blend by source alpha, keep
/// source alpha, write all channels.
pub open spec fn spec_alpha_blend_attachment() -> BlendAttachment {
    BlendAttachment {
        blend_enable: true,
        src_color_factor: BlendFactor::SrcAlpha,
        dst_color_factor: BlendFactor::OneMinusSrcAlpha,
        color_op: BlendOp::Add,
        src_alpha_factor: BlendFactor::One,
        dst_alpha_factor: BlendFactor::Zero,
        alpha_op: BlendOp::Add,
        write_r: true,
        write_g: true,
        write_b: true,
        write_a: true,
    }
}

/// Why a pipeline configuration could not be built.
#[derive(Clone, Copy, PartialEq, Eq, Structural, Debug)]
pub enum BuildError {
    /// A render pass is required.
    MissingRenderPass,
    /// An extent is required.
    MissingExtent,
    /// At least one shader stage is required.
    NoShaderStages,
}

/// The options a pipeline is configured from. Every field is plain; the
/// validated configuration mirrors it with the required fields made
/// unconditional.
#[derive(Clone, PartialEq, Eq, Debug)]
pub struct PipelineBuilder {
    pub render_pass: Option<PassDescriptor>,
    pub extent: Option<Extent2D>,
    pub stages: Vec<ShaderStage>,
    pub topology: Topology,
    pub primitive_restart: bool,
    pub dynamic_states: Vec<DynamicStateKind>,
    pub polygon_mode: PolygonMode,
    pub cull_mode: CullMode,
    pub front_face: FrontFace,
    pub depth_clamp: bool,
    pub samples: SampleCount,
    pub sample_shading: bool,
    pub depth_test: bool,
    pub depth_write: bool,
    pub depth_compare: CompareOp,
    pub depth_bounds_test: bool,
    pub stencil_test: bool,
    pub blend_attachments: Vec<BlendAttachment>,
    pub logic_op_enable: bool,
}

/// A validated pipeline configuration: what the device is asked to build.
#[derive(Clone, PartialEq, Eq, Debug)]
pub struct PipelineConfig {
    pub render_pass: PassDescriptor,
    pub extent: Extent2D,
    pub stages: Vec<ShaderStage>,
    pub topology: Topology,
    pub primitive_restart: bool,
    pub dynamic_states: Vec<DynamicStateKind>,
    pub polygon_mode: PolygonMode,
    pub cull_mode: CullMode,
    pub front_face: FrontFace,
    pub depth_clamp: bool,
    pub samples: SampleCount,
    pub sample_shading: bool,
    pub depth_test: bool,
    pub depth_write: bool,
    pub depth_compare: CompareOp,
    pub depth_bounds_test: bool,
    pub stencil_test: bool,
    pub blend_attachments: Vec<BlendAttachment>,
    pub logic_op_enable: bool,
}

impl PipelineBuilder {
    /// A builder with every option at its default: triangle list, filled
    /// polygons, back-face culling, clockwise front faces, single-sample
    /// rasterization, no depth or stencil testing, no blending, and no
    /// required field set.
    pub fn new() -> (r: PipelineBuilder)
        ensures
            r == (PipelineBuilder {
                render_pass: None,
                extent: None,
                stages: r.stages,
                topology: Topology::TriangleList,
                primitive_restart: false,
                dynamic_states: r.dynamic_states,
                polygon_mode: PolygonMode::Fill,
                cull_mode: CullMode::Back,
                front_face: FrontFace::Clockwise,
                depth_clamp: false,
                samples: SampleCount::One,
                sample_shading: false,
                depth_test: false,
                depth_write: false,
                depth_compare: CompareOp::Less,
                depth_bounds_test: false,
                stencil_test: false,
                blend_attachments: r.blend_attachments,
                logic_op_enable: false,
            }),
            r.stages@.len() == 0,
            r.dynamic_states@.len() == 0,
            r.blend_attachments@.len() == 0,
    {
        PipelineBuilder {
            render_pass: None,
            extent: None,
            stages: Vec::new(),
            topology: Topology::TriangleList,
            primitive_restart: false,
            dynamic_states: Vec::new(),
            polygon_mode: PolygonMode::Fill,
            cull_mode: CullMode::Back,
            front_face: FrontFace::Clockwise,
            depth_clamp: false,
            samples: SampleCount::One,
            sample_shading: false,
            depth_test: false,
            depth_write: false,
            depth_compare: CompareOp::Less,
            depth_bounds_test: false,
            stencil_test: false,
            blend_attachments: Vec::new(),
            logic_op_enable: false,
        }
    }

    /// Name the pass the pipeline must be compatible with.
    pub fn set_render_pass(self, render_pass: PassDescriptor) -> (r: PipelineBuilder)
        ensures
            r == (PipelineBuilder { render_pass: Some(render_pass), ..self }),
    {
        PipelineBuilder { render_pass: Some(render_pass), ..self }
    }

    /// Name the target extent.
    pub fn set_extent(self, extent: Extent2D) -> (r: PipelineBuilder)
        ensures
            r == (PipelineBuilder { extent: Some(extent), ..self }),
    {
        PipelineBuilder { extent: Some(extent), ..self }
    }

    /// Add a vertex stage.
    pub fn with_vertex_stage(self) -> (r: PipelineBuilder)
        ensures
            r == (PipelineBuilder { stages: r.stages, ..self }),
            r.stages@ == self.stages@.push(ShaderStage::Vertex),
    {
        let mut b = self;
        b.stages.push(ShaderStage::Vertex);
        b
    }

    /// Add a fragment stage.
    pub fn with_fragment_stage(self) -> (r: PipelineBuilder)
        ensures
            r == (PipelineBuilder { stages: r.stages, ..self }),
            r.stages@ == self.stages@.push(ShaderStage::Fragment),
    {
        let mut b = self;
        b.stages.push(ShaderStage::Fragment);
        b
    }

    /// Set the primitive topology.
    pub fn with_topology(self, topology: Topology) -> (r: PipelineBuilder)
        ensures
            r == (PipelineBuilder { topology, ..self }),
    {
        PipelineBuilder { topology, ..self }
    }

    /// Enable or disable primitive restart.
    pub fn with_primitive_restart(self, enable: bool) -> (r: PipelineBuilder)
        ensures
            r == (PipelineBuilder { primitive_restart: enable, ..self }),
    {
        PipelineBuilder { primitive_restart: enable, ..self }
    }

    /// Add a state set per recording instead of baked into the pipeline.
    pub fn with_dynamic_state(self, state: DynamicStateKind) -> (r: PipelineBuilder)
        ensures
            r == (PipelineBuilder { dynamic_states: r.dynamic_states, ..self }),
            r.dynamic_states@ == self.dynamic_states@.push(state),
    {
        let mut b = self;
        b.dynamic_states.push(state);
        b
    }

    /// Set the polygon rasterization mode.
    pub fn with_polygon_mode(self, mode: PolygonMode) -> (r: PipelineBuilder)
        ensures
            r == (PipelineBuilder { polygon_mode: mode, ..self }),
    {
        PipelineBuilder { polygon_mode: mode, ..self }
    }

    /// Set the face culling mode.
    pub fn with_cull_mode(self, mode: CullMode) -> (r: PipelineBuilder)
        ensures
            r == (PipelineBuilder { cull_mode: mode, ..self }),
    {
        PipelineBuilder { cull_mode: mode, ..self }
    }

    /// Set the front-face winding.
    pub fn with_front_face(self, face: FrontFace) -> (r: PipelineBuilder)
        ensures
            r == (PipelineBuilder { front_face: face, ..self }),
    {
        PipelineBuilder { front_face: face, ..self }
    }

    /// Enable or disable depth clamping.
    pub fn with_depth_clamp(self, enable: bool) -> (r: PipelineBuilder)
        ensures
            r == (PipelineBuilder { depth_clamp: enable, ..self }),
    {
        PipelineBuilder { depth_clamp: enable, ..self }
    }

    /// Set the rasterization sample count.
    pub fn with_multisampling(self, samples: SampleCount) -> (r: PipelineBuilder)
        ensures
            r == (PipelineBuilder { samples, ..self }),
    {
        PipelineBuilder { samples, ..self }
    }

    /// Enable or disable per-sample shading.
    pub fn with_sample_shading(self, enable: bool) -> (r: PipelineBuilder)
        ensures
            r == (PipelineBuilder { sample_shading: enable, ..self }),
    {
        PipelineBuilder { sample_shading: enable, ..self }
    }

    /// Configure the depth test: whether fragments are tested, whether
    /// they write depth, and the comparison they must pass.
    pub fn with_depth_test(self, enable: bool, write_enable: bool, compare_op: CompareOp) -> (r:
        PipelineBuilder)
        ensures
            r == (PipelineBuilder {
                depth_test: enable,
                depth_write: write_enable,
                depth_compare: compare_op,
                ..self
            }),
    {
        PipelineBuilder {
            depth_test: enable,
            depth_write: write_enable,
            depth_compare: compare_op,
            ..self
        }
    }

    /// Enable or disable the depth-bounds test.
    pub fn with_depth_bounds_test(self, enable: bool) -> (r: PipelineBuilder)
        ensures
            r == (PipelineBuilder { depth_bounds_test: enable, ..self }),
    {
        PipelineBuilder { depth_bounds_test: enable, ..self }
    }

    /// Enable or disable the stencil test.
    pub fn with_stencil_test(self, enable: bool) -> (r: PipelineBuilder)
        ensures
            r == (PipelineBuilder { stencil_test: enable, ..self }),
    {
        PipelineBuilder { stencil_test: enable, ..self }
    }

    /// Add one color blend attachment.
    pub fn with_color_blend_attachment(self, attachment: BlendAttachment) -> (r: PipelineBuilder)
        ensures
            r == (PipelineBuilder { blend_attachments: r.blend_attachments, ..self }),
            r.blend_attachments@ == self.blend_attachments@.push(attachment),
    {
        let mut b = self;
        b.blend_attachments.push(attachment);
        b
    }

    /// Add the standard alpha-blending attachment.
    pub fn with_alpha_blending(self) -> (r: PipelineBuilder)
        ensures
            r == (PipelineBuilder { blend_attachments: r.blend_attachments, ..self }),
            r.blend_attachments@ == self.blend_attachments@.push(spec_alpha_blend_attachment()),
    {
        let mut b = self;
        b.blend_attachments.push(
            BlendAttachment {
                blend_enable: true,
                src_color_factor: BlendFactor::SrcAlpha,
                dst_color_factor: BlendFactor::OneMinusSrcAlpha,
                color_op: BlendOp::Add,
                src_alpha_factor: BlendFactor::One,
                dst_alpha_factor: BlendFactor::Zero,
                alpha_op: BlendOp::Add,
                write_r: true,
                write_g: true,
                write_b: true,
                write_a: true,
            },
        );
        b
    }

    /// Enable or disable the framebuffer logic operation.
    pub fn with_logic_op(self, enable: bool) -> (r: PipelineBuilder)
        ensures
            r == (PipelineBuilder { logic_op_enable: enable, ..self }),
    {
        PipelineBuilder { logic_op_enable: enable, ..self }
    }

    /// Validate the configuration. Fails, in this order of checks, when
    /// the render pass is absent, the extent is absent, or no shader
    /// stage was added; otherwise the validated configuration carries
    /// every option over unchanged.
    pub fn build(self) -> (r: Result<PipelineConfig, BuildError>)
        ensures
            (self.render_pass is None) <==> (r == Err::<PipelineConfig, BuildError>(
                BuildError::MissingRenderPass,
            )),
            (self.render_pass is Some && self.extent is None) <==> (r == Err::<
                PipelineConfig,
                BuildError,
            >(BuildError::MissingExtent)),
            (self.render_pass is Some && self.extent is Some && self.stages@.len() == 0) <==> (r
                == Err::<PipelineConfig, BuildError>(BuildError::NoShaderStages)),
            r matches Ok(c) ==> {
                &&& Some(c.render_pass) == self.render_pass
                &&& Some(c.extent) == self.extent
                &&& c.stages@ == self.stages@
                &&& c.stages@.len() > 0
                &&& c.topology == self.topology
                &&& c.primitive_restart == self.primitive_restart
                &&& c.dynamic_states@ == self.dynamic_states@
                &&& c.polygon_mode == self.polygon_mode
                &&& c.cull_mode == self.cull_mode
                &&& c.front_face == self.front_face
                &&& c.depth_clamp == self.depth_clamp
                &&& c.samples == self.samples
                &&& c.sample_shading == self.sample_shading
                &&& c.depth_test == self.depth_test
                &&& c.depth_write == self.depth_write
                &&& c.depth_compare == self.depth_compare
                &&& c.depth_bounds_test == self.depth_bounds_test
                &&& c.stencil_test == self.stencil_test
                &&& c.blend_attachments@ == self.blend_attachments@
                &&& c.logic_op_enable == self.logic_op_enable
            },
    {
        let render_pass = match self.render_pass {
            Some(rp) => rp,
            None => {
                return Err(BuildError::MissingRenderPass);
            },
        };
        let extent = match self.extent {
            Some(e) => e,
            None => {
                return Err(BuildError::MissingExtent);
            },
        };
        if self.stages.len() == 0 {
            return Err(BuildError::NoShaderStages);
        }
        Ok(
            PipelineConfig {
                render_pass,
                extent,
                stages: self.stages,
                topology: self.topology,
                primitive_restart: self.primitive_restart,
                dynamic_states: self.dynamic_states,
                polygon_mode: self.polygon_mode,
                cull_mode: self.cull_mode,
                front_face: self.front_face,
                depth_clamp: self.depth_clamp,
                samples: self.samples,
                sample_shading: self.sample_shading,
                depth_test: self.depth_test,
                depth_write: self.depth_write,
                depth_compare: self.depth_compare,
                depth_bounds_test: self.depth_bounds_test,
                stencil_test: self.stencil_test,
                blend_attachments: self.blend_attachments,
                logic_op_enable: self.logic_op_enable,
            },
        )
    }
}

} // verus!
