//! The fixed state of the graphics pipeline that draws the textured
//! rectangle. Float settings are held by their IEEE-754 bit patterns; the
//! viewport's size is held in whole pixels.
use vstd::prelude::*;
use crate::commands::{Extent2D, recording};
use crate::descriptor::{layout_bindings, ShaderStage};
use crate::vertex::{
    packed_attribute,
    vertex_v2_components,
    Format,
    VertexInputAttributeDescription,
    VertexInputBindingDescription,
    VertexInputRate,
    VertexV2,
    F32_ONE,
    F32_ZERO,
};

verus! {

/// The compiled shader programs.
#[derive(Clone, Copy, Debug, PartialEq, Eq)]
pub enum ShaderProgram {
    TexturesVertex,
    TexturesFragment,
}

/// One shader stage: which stage, which program, entered at `main`.
#[derive(Clone, Copy, Debug, PartialEq, Eq)]
pub struct ShaderStagePlan {
    pub stage: ShaderStage,
    pub program: ShaderProgram,
}

#[derive(Clone, Copy, Debug, PartialEq, Eq)]
pub enum PrimitiveTopology {
    PointList,
    LineList,
    TriangleList,
    TriangleStrip,
}

#[derive(Clone, Copy, Debug, PartialEq, Eq)]
pub enum CullMode {
    NoCulling,
    Front,
    Back,
    FrontAndBack,
}

#[derive(Clone, Copy, Debug, PartialEq, Eq)]
pub enum FrontFace {
    CounterClockwise,
    Clockwise,
}

#[derive(Clone, Copy, Debug, PartialEq, Eq)]
pub enum PolygonMode {
    Fill,
    Line,
    Point,
}

#[derive(Clone, Copy, Debug, PartialEq, Eq)]
pub enum CompareOp {
    Never,
    Less,
    Equal,
    LessOrEqual,
    Greater,
    NotEqual,
    GreaterOrEqual,
    Always,
}

#[derive(Clone, Copy, Debug, PartialEq, Eq)]
pub enum StencilOp {
    Keep,
    Zero,
    Replace,
    IncrementAndClamp,
    DecrementAndClamp,
    Invert,
    IncrementAndWrap,
    DecrementAndWrap,
}

#[derive(Clone, Copy, Debug, PartialEq, Eq)]
pub enum BlendFactor {
    Zero,
    One,
    SrcAlpha,
    OneMinusSrcAlpha,
}

#[derive(Clone, Copy, Debug, PartialEq, Eq)]
pub enum BlendOp {
    Add,
    Subtract,
    ReverseSubtract,
    Min,
    Max,
}

#[derive(Clone, Copy, Debug, PartialEq, Eq)]
pub enum LogicOp {
    Clear,
    Copy,
    NoOp,
    Invert,
}

/// Which color components are written.
#[derive(Clone, Copy, Debug, PartialEq, Eq)]
pub struct ColorWriteMask {
    pub r: bool,
    pub g: bool,
    pub b: bool,
    pub a: bool,
}

/// The viewport: its corner and depth range as float bit patterns, its size
/// in whole pixels.
#[derive(Clone, Copy, Debug, PartialEq, Eq)]
pub struct Viewport {
    pub x: u32,
    pub y: u32,
    pub width_px: u32,
    pub height_px: u32,
    pub min_depth: u32,
    pub max_depth: u32,
}

/// A rectangle of pixels.
#[derive(Clone, Copy, Debug, PartialEq, Eq)]
pub struct Rect2D {
    pub offset_x: i32,
    pub offset_y: i32,
    pub extent: Extent2D,
}

#[derive(Clone, Copy, Debug, PartialEq, Eq)]
pub struct RasterizationState {
    pub depth_clamp_enable: bool,
    pub rasterizer_discard_enable: bool,
    pub polygon_mode: PolygonMode,
    pub cull_mode: CullMode,
    pub front_face: FrontFace,
    pub depth_bias_enable: bool,
    pub depth_bias_constant_factor: u32,
    pub depth_bias_clamp: u32,
    pub depth_bias_slope_factor: u32,
    pub line_width: u32,
}

#[derive(Clone, Copy, Debug, PartialEq, Eq)]
pub struct MultisampleState {
    pub rasterization_samples: u32,
    pub sample_shading_enable: bool,
    pub min_sample_shading: u32,
    pub alpha_to_coverage_enable: bool,
    pub alpha_to_one_enable: bool,
}

#[derive(Clone, Copy, Debug, PartialEq, Eq)]
pub struct StencilOpState {
    pub fail_op: StencilOp,
    pub pass_op: StencilOp,
    pub depth_fail_op: StencilOp,
    pub compare_op: CompareOp,
    pub compare_mask: u32,
    pub write_mask: u32,
    pub reference: u32,
}

#[derive(Clone, Copy, Debug, PartialEq, Eq)]
pub struct DepthStencilState {
    pub depth_test_enable: bool,
    pub depth_write_enable: bool,
    pub depth_compare_op: CompareOp,
    pub depth_bounds_test_enable: bool,
    pub stencil_test_enable: bool,
    pub front: StencilOpState,
    pub back: StencilOpState,
    pub min_depth_bounds: u32,
    pub max_depth_bounds: u32,
}

#[derive(Clone, Copy, Debug, PartialEq, Eq)]
pub struct ColorBlendAttachment {
    pub blend_enable: bool,
    pub color_write_mask: ColorWriteMask,
    pub src_color_blend_factor: BlendFactor,
    pub dst_color_blend_factor: BlendFactor,
    pub color_blend_op: BlendOp,
    pub src_alpha_blend_factor: BlendFactor,
    pub dst_alpha_blend_factor: BlendFactor,
    pub alpha_blend_op: BlendOp,
}

#[derive(Clone, Copy, Debug, PartialEq, Eq)]
pub struct ColorBlendState {
    pub logic_op_enable: bool,
    pub logic_op: LogicOp,
    pub attachments: [ColorBlendAttachment; 1],
    pub blend_constants: [u32; 4],
}

/// Everything the graphics pipeline and its layout are created with, besides
/// the handles of the render pass, the set layout and the shader modules.
#[derive(Clone, Copy, Debug, PartialEq, Eq)]
pub struct GraphicsPipelinePlan {
    pub shader_stages: [ShaderStagePlan; 2],
    pub vertex_bindings: [VertexInputBindingDescription; 1],
    pub vertex_attributes: [VertexInputAttributeDescription; 3],
    pub topology: PrimitiveTopology,
    pub primitive_restart_enable: bool,
    pub viewport: Viewport,
    pub scissor: Rect2D,
    pub rasterization: RasterizationState,
    pub multisample: MultisampleState,
    pub depth_stencil: DepthStencilState,
    pub color_blend: ColorBlendState,
    /// The pipeline layout holds this many set layouts, all the uniform-and-texture one.
    pub set_layout_count: u32,
    pub push_constant_range_count: u32,
    pub subpass: u32,
    /// No base pipeline.
    pub base_pipeline_index: i32,
}

/// The stencil state of both faces: keep everything, always pass, no masks.
pub open spec fn stencil_keep() -> StencilOpState {
    StencilOpState {
        fail_op: StencilOp::Keep,
        pass_op: StencilOp::Keep,
        depth_fail_op: StencilOp::Keep,
        compare_op: CompareOp::Always,
        compare_mask: 0,
        write_mask: 0,
        reference: 0,
    }
}

/// The pipeline for a swapchain of the given extent: the textures vertex and
/// fragment shaders; `VertexV2` input; a triangle list without primitive
/// restart; a viewport and scissor covering the whole extent, depth 0 to 1;
/// filled polygons, back faces culled, clockwise front faces, no depth clamp,
/// discard or bias, line width 1; one sample; no depth or stencil test; no
/// blending, all color components written; no logic op; one set layout, no
/// push constants, subpass 0 and no base pipeline.
pub open spec fn pipeline_plan(extent: Extent2D) -> GraphicsPipelinePlan {
    GraphicsPipelinePlan {
        shader_stages: [
            ShaderStagePlan { stage: ShaderStage::Vertex, program: ShaderProgram::TexturesVertex },
            ShaderStagePlan {
                stage: ShaderStage::Fragment,
                program: ShaderProgram::TexturesFragment,
            },
        ],
        vertex_bindings: [
            VertexInputBindingDescription {
                binding: 0,
                stride: 32,
                input_rate: VertexInputRate::Vertex,
            },
        ],
        vertex_attributes: [
            VertexInputAttributeDescription {
                binding: 0,
                location: 0,
                format: Format::R32G32Sfloat,
                offset: 0,
            },
            VertexInputAttributeDescription {
                binding: 0,
                location: 1,
                format: Format::R32G32B32A32Sfloat,
                offset: 8,
            },
            VertexInputAttributeDescription {
                binding: 0,
                location: 2,
                format: Format::R32G32Sfloat,
                offset: 24,
            },
        ],
        topology: PrimitiveTopology::TriangleList,
        primitive_restart_enable: false,
        viewport: Viewport {
            x: F32_ZERO,
            y: F32_ZERO,
            width_px: extent.width,
            height_px: extent.height,
            min_depth: F32_ZERO,
            max_depth: F32_ONE,
        },
        scissor: Rect2D { offset_x: 0, offset_y: 0, extent },
        rasterization: RasterizationState {
            depth_clamp_enable: false,
            rasterizer_discard_enable: false,
            polygon_mode: PolygonMode::Fill,
            cull_mode: CullMode::Back,
            front_face: FrontFace::Clockwise,
            depth_bias_enable: false,
            depth_bias_constant_factor: F32_ZERO,
            depth_bias_clamp: F32_ZERO,
            depth_bias_slope_factor: F32_ZERO,
            line_width: F32_ONE,
        },
        multisample: MultisampleState {
            rasterization_samples: 1,
            sample_shading_enable: false,
            min_sample_shading: F32_ZERO,
            alpha_to_coverage_enable: false,
            alpha_to_one_enable: false,
        },
        depth_stencil: DepthStencilState {
            depth_test_enable: false,
            depth_write_enable: false,
            depth_compare_op: CompareOp::LessOrEqual,
            depth_bounds_test_enable: false,
            stencil_test_enable: false,
            front: stencil_keep(),
            back: stencil_keep(),
            min_depth_bounds: F32_ZERO,
            max_depth_bounds: F32_ONE,
        },
        color_blend: ColorBlendState {
            logic_op_enable: false,
            logic_op: LogicOp::Copy,
            attachments: [
                ColorBlendAttachment {
                    blend_enable: false,
                    color_write_mask: ColorWriteMask { r: true, g: true, b: true, a: true },
                    src_color_blend_factor: BlendFactor::One,
                    dst_color_blend_factor: BlendFactor::Zero,
                    color_blend_op: BlendOp::Add,
                    src_alpha_blend_factor: BlendFactor::One,
                    dst_alpha_blend_factor: BlendFactor::Zero,
                    alpha_blend_op: BlendOp::Add,
                },
            ],
            blend_constants: [F32_ZERO, F32_ZERO, F32_ZERO, F32_ZERO],
        },
        set_layout_count: 1,
        push_constant_range_count: 0,
        subpass: 0,
        base_pipeline_index: -1i32,
    }
}

/// The path of a compiled shader program.
pub fn shader_spirv_path(program: ShaderProgram) -> (r: &'static str)
    ensures
        program == ShaderProgram::TexturesVertex ==> r@ == "shaders/spv/25-shader-textures.vert.spv"@,
        program == ShaderProgram::TexturesFragment ==> r@
            == "shaders/spv/25-shader-textures.frag.spv"@,
{
    match program {
        ShaderProgram::TexturesVertex => "shaders/spv/25-shader-textures.vert.spv",
        ShaderProgram::TexturesFragment => "shaders/spv/25-shader-textures.frag.spv",
    }
}

/// The name of the function every shader stage starts at.
pub fn shader_entry_point() -> (r: &'static str)
    ensures
        r@ == "main"@,
{
    "main"
}

/// The graphics pipeline for a swapchain of the given extent.
pub fn create_graphics_pipeline_plan(extent: Extent2D) -> (r: GraphicsPipelinePlan)
    ensures
        r == pipeline_plan(extent),
{
    let stencil_state = StencilOpState {
        fail_op: StencilOp::Keep,
        pass_op: StencilOp::Keep,
        depth_fail_op: StencilOp::Keep,
        compare_op: CompareOp::Always,
        compare_mask: 0,
        write_mask: 0,
        reference: 0,
    };
    let vertex_bindings = VertexV2::get_binding_description();
    let vertex_attributes = VertexV2::get_attribute_descriptions();
    let ghost spec_plan = pipeline_plan(extent);
    assert(vertex_bindings@ =~= spec_plan.vertex_bindings@);
    assert(vertex_attributes@ =~= spec_plan.vertex_attributes@);
    assert(vertex_bindings == spec_plan.vertex_bindings);
    assert(vertex_attributes == spec_plan.vertex_attributes);
    GraphicsPipelinePlan {
        shader_stages: [
            ShaderStagePlan { stage: ShaderStage::Vertex, program: ShaderProgram::TexturesVertex },
            ShaderStagePlan {
                stage: ShaderStage::Fragment,
                program: ShaderProgram::TexturesFragment,
            },
        ],
        vertex_bindings,
        vertex_attributes,
        topology: PrimitiveTopology::TriangleList,
        primitive_restart_enable: false,
        viewport: Viewport {
            x: F32_ZERO,
            y: F32_ZERO,
            width_px: extent.width,
            height_px: extent.height,
            min_depth: F32_ZERO,
            max_depth: F32_ONE,
        },
        scissor: Rect2D { offset_x: 0, offset_y: 0, extent },
        rasterization: RasterizationState {
            depth_clamp_enable: false,
            rasterizer_discard_enable: false,
            polygon_mode: PolygonMode::Fill,
            cull_mode: CullMode::Back,
            front_face: FrontFace::Clockwise,
            depth_bias_enable: false,
            depth_bias_constant_factor: F32_ZERO,
            depth_bias_clamp: F32_ZERO,
            depth_bias_slope_factor: F32_ZERO,
            line_width: F32_ONE,
        },
        multisample: MultisampleState {
            rasterization_samples: 1,
            sample_shading_enable: false,
            min_sample_shading: F32_ZERO,
            alpha_to_coverage_enable: false,
            alpha_to_one_enable: false,
        },
        depth_stencil: DepthStencilState {
            depth_test_enable: false,
            depth_write_enable: false,
            depth_compare_op: CompareOp::LessOrEqual,
            depth_bounds_test_enable: false,
            stencil_test_enable: false,
            front: stencil_state,
            back: stencil_state,
            min_depth_bounds: F32_ZERO,
            max_depth_bounds: F32_ONE,
        },
        color_blend: ColorBlendState {
            logic_op_enable: false,
            logic_op: LogicOp::Copy,
            attachments: [
                ColorBlendAttachment {
                    blend_enable: false,
                    color_write_mask: ColorWriteMask { r: true, g: true, b: true, a: true },
                    src_color_blend_factor: BlendFactor::One,
                    dst_color_blend_factor: BlendFactor::Zero,
                    color_blend_op: BlendOp::Add,
                    src_alpha_blend_factor: BlendFactor::One,
                    dst_alpha_blend_factor: BlendFactor::Zero,
                    alpha_blend_op: BlendOp::Add,
                },
            ],
            blend_constants: [F32_ZERO, F32_ZERO, F32_ZERO, F32_ZERO],
        },
        set_layout_count: 1,
        push_constant_range_count: 0,
        subpass: 0,
        base_pipeline_index: -1,
    }
}


/// The shader stage a program is compiled for: the textures vertex program
/// is a vertex shader, the textures fragment program a fragment shader.
pub open spec fn program_stage(p: ShaderProgram) -> ShaderStage {
    match p {
        ShaderProgram::TexturesVertex => ShaderStage::Vertex,
        ShaderProgram::TexturesFragment => ShaderStage::Fragment,
    }
}

/// Each shader stage of the pipeline runs the program compiled for that
/// stage, and the pipeline has exactly one vertex stage and one fragment
/// stage, the vertex stage first: the vertex stage is built from the vertex
/// shader's SPIR-V and the fragment stage from the fragment shader's.
pub proof fn law_each_stage_runs_its_own_program(extent: Extent2D)
    ensures
        forall|k: int|
            0 <= k < 2 ==> program_stage((#[trigger] pipeline_plan(extent).shader_stages[k]).program)
                == pipeline_plan(extent).shader_stages[k].stage,
        pipeline_plan(extent).shader_stages[0].stage == ShaderStage::Vertex,
        pipeline_plan(extent).shader_stages[1].stage == ShaderStage::Fragment,
        pipeline_plan(extent).shader_stages[0].program == ShaderProgram::TexturesVertex,
        pipeline_plan(extent).shader_stages[1].program == ShaderProgram::TexturesFragment,
{
    let p = pipeline_plan(extent);
    assert forall|k: int| 0 <= k < 2 implies program_stage(
        (#[trigger] pipeline_plan(extent).shader_stages[k]).program,
    ) == pipeline_plan(extent).shader_stages[k].stage by {
        assert(p.shader_stages@ =~= seq![p.shader_stages[0], p.shader_stages[1]]);
    }
}

/// Every triangle of the rectangle that faces the viewer is drawn, once, as
/// it is: primitives reach the rasterizer (no rasterizer discard); a list of
/// separate triangles with no primitive restart; polygons filled, with lines
/// one pixel wide; back faces culled, clockwise faces in front; no depth
/// clamp and no depth bias; one sample per pixel, no sample shading,
/// alpha-to-coverage or alpha-to-one; no depth test, depth write, depth
/// bounds test or stencil test (both stencil faces keep everything and
/// always pass, with zero masks and reference), the depth compare and bounds
/// set to less-or-equal over 0 to 1; one color attachment without blending
/// that writes all four components (source taken whole, destination
/// dropped, added, for color and alpha alike), no logic op (copy), zero blend
/// constants; the viewport spans depth 0 to 1 from the corner; the layout
/// holds one set layout and no push constants; subpass 0, no base pipeline.
pub proof fn law_pipeline_draws_front_triangles_plainly(extent: Extent2D)
    ensures
        ({
            let p = pipeline_plan(extent);
            let r = p.rasterization;
            let m = p.multisample;
            let d = p.depth_stencil;
            let a = p.color_blend.attachments[0];
            &&& !r.rasterizer_discard_enable
            &&& p.topology == PrimitiveTopology::TriangleList
            &&& !p.primitive_restart_enable
            &&& r.polygon_mode == PolygonMode::Fill
            &&& r.line_width == F32_ONE
            &&& r.cull_mode == CullMode::Back
            &&& r.front_face == FrontFace::Clockwise
            &&& !r.depth_clamp_enable
            &&& !r.depth_bias_enable
            &&& r.depth_bias_constant_factor == F32_ZERO
            &&& r.depth_bias_clamp == F32_ZERO
            &&& r.depth_bias_slope_factor == F32_ZERO
            &&& m.rasterization_samples == 1
            &&& !m.sample_shading_enable
            &&& m.min_sample_shading == F32_ZERO
            &&& !m.alpha_to_coverage_enable
            &&& !m.alpha_to_one_enable
            &&& !d.depth_test_enable
            &&& !d.depth_write_enable
            &&& d.depth_compare_op == CompareOp::LessOrEqual
            &&& !d.depth_bounds_test_enable
            &&& !d.stencil_test_enable
            &&& d.front == d.back
            &&& d.front.fail_op == StencilOp::Keep
            &&& d.front.pass_op == StencilOp::Keep
            &&& d.front.depth_fail_op == StencilOp::Keep
            &&& d.front.compare_op == CompareOp::Always
            &&& d.front.compare_mask == 0
            &&& d.front.write_mask == 0
            &&& d.front.reference == 0
            &&& d.min_depth_bounds == F32_ZERO
            &&& d.max_depth_bounds == F32_ONE
            &&& !a.blend_enable
            &&& a.color_write_mask == (ColorWriteMask { r: true, g: true, b: true, a: true })
            &&& a.src_color_blend_factor == BlendFactor::One
            &&& a.dst_color_blend_factor == BlendFactor::Zero
            &&& a.color_blend_op == BlendOp::Add
            &&& a.src_alpha_blend_factor == BlendFactor::One
            &&& a.dst_alpha_blend_factor == BlendFactor::Zero
            &&& a.alpha_blend_op == BlendOp::Add
            &&& !p.color_blend.logic_op_enable
            &&& p.color_blend.logic_op == LogicOp::Copy
            &&& p.color_blend.blend_constants@ == seq![F32_ZERO, F32_ZERO, F32_ZERO, F32_ZERO]
            &&& p.viewport.x == F32_ZERO
            &&& p.viewport.y == F32_ZERO
            &&& p.viewport.min_depth == F32_ZERO
            &&& p.viewport.max_depth == F32_ONE
            &&& p.set_layout_count == 1
            &&& p.push_constant_range_count == 0
            &&& p.subpass == 0
            &&& p.base_pipeline_index == -1
        }),
{
    let p = pipeline_plan(extent);
    assert(p.color_blend.blend_constants@ =~= seq![F32_ZERO, F32_ZERO, F32_ZERO, F32_ZERO]);
}

/// Only the viewport's size and the scissor follow the swapchain's extent:
/// pipelines planned for two extents differ in nothing else.
pub proof fn law_only_viewport_and_scissor_follow_the_extent(e1: Extent2D, e2: Extent2D)
    ensures
        (GraphicsPipelinePlan {
            viewport: pipeline_plan(e2).viewport,
            scissor: pipeline_plan(e2).scissor,
            ..pipeline_plan(e1)
        }) == pipeline_plan(e2),
        pipeline_plan(e1).viewport.x == pipeline_plan(e2).viewport.x,
        pipeline_plan(e1).viewport.min_depth == pipeline_plan(e2).viewport.min_depth,
        pipeline_plan(e1).viewport.max_depth == pipeline_plan(e2).viewport.max_depth,
{
}

/// The pipeline fits what it is used with: every attribute reads the one
/// vertex binding and is the packed layout of `VertexV2`; every shader stage
/// that reads a descriptor of the set layout is a stage of the pipeline; and
/// the viewport, the scissor and the render area of every command buffer
/// recorded for the same extent cover the same pixels.
pub proof fn law_pipeline_fits_its_inputs(extent: Extent2D, buffer: usize)
    ensures
        forall|k: int|
            0 <= k < 3 ==> (#[trigger] pipeline_plan(extent).vertex_attributes[k]).binding
                == pipeline_plan(extent).vertex_bindings[0].binding,
        forall|k: int|
            0 <= k < 3 ==> #[trigger] pipeline_plan(extent).vertex_attributes[k] == packed_attribute(
                vertex_v2_components(),
                0,
                k,
            ),
        forall|k: int|
            0 <= k < 2 ==> exists|s: int|
                0 <= s < 2 && (#[trigger] pipeline_plan(extent).shader_stages[s]).stage
                    == (#[trigger] layout_bindings()[k]).stage,
        pipeline_plan(extent).scissor.extent == extent,
        pipeline_plan(extent).scissor.offset_x == 0 && pipeline_plan(extent).scissor.offset_y == 0,
        pipeline_plan(extent).viewport.width_px == extent.width,
        pipeline_plan(extent).viewport.height_px == extent.height,
        recording(buffer, extent)[1] matches crate::commands::Command::BeginRenderPass {
            extent: area,
            offset_x,
            offset_y,
            ..
        } && area == pipeline_plan(extent).scissor.extent && offset_x == 0 && offset_y == 0,
{
    let p = pipeline_plan(extent);
    reveal_with_fuel(crate::vertex::packed_offset, 4);
    assert forall|k: int| 0 <= k < 3 implies #[trigger] pipeline_plan(extent).vertex_attributes[k]
        == packed_attribute(vertex_v2_components(), 0, k) by {
        assert(p.vertex_attributes@ =~= seq![
            p.vertex_attributes[0],
            p.vertex_attributes[1],
            p.vertex_attributes[2],
        ]);
    }
    assert forall|k: int| 0 <= k < 3 implies (#[trigger] pipeline_plan(
        extent,
    ).vertex_attributes[k]).binding == pipeline_plan(extent).vertex_bindings[0].binding by {
        assert(p.vertex_attributes@ =~= seq![
            p.vertex_attributes[0],
            p.vertex_attributes[1],
            p.vertex_attributes[2],
        ]);
    }
    assert forall|k: int| 0 <= k < 2 implies exists|s: int|
        0 <= s < 2 && (#[trigger] pipeline_plan(extent).shader_stages[s]).stage == (
        #[trigger] layout_bindings()[k]).stage by {
        assert(p.shader_stages@ =~= seq![p.shader_stages[0], p.shader_stages[1]]);
        assert(pipeline_plan(extent).shader_stages[k].stage == layout_bindings()[k].stage);
    }
}

} // verus!
