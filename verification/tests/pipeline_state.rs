use texture_mapping::commands::Extent2D;
use texture_mapping::descriptor::ShaderStage;
use texture_mapping::pipeline::{
    create_graphics_pipeline_plan, shader_entry_point, shader_spirv_path, CompareOp, CullMode,
    FrontFace, PolygonMode, PrimitiveTopology, ShaderProgram, StencilOp,
};
use texture_mapping::vertex::VertexV2;

#[test]
fn pipeline_covers_the_extent() {
    let extent = Extent2D { width: 1024, height: 768 };
    let p = create_graphics_pipeline_plan(extent);
    assert_eq!(p.viewport.width_px, 1024);
    assert_eq!(p.viewport.height_px, 768);
    assert_eq!(f32::from_bits(p.viewport.min_depth), 0.0);
    assert_eq!(f32::from_bits(p.viewport.max_depth), 1.0);
    assert_eq!(p.scissor.extent, extent);
    assert_eq!((p.scissor.offset_x, p.scissor.offset_y), (0, 0));
}

#[test]
fn pipeline_fixed_state() {
    let p = create_graphics_pipeline_plan(Extent2D { width: 800, height: 600 });
    assert_eq!(p.shader_stages[0].stage, ShaderStage::Vertex);
    assert_eq!(p.shader_stages[1].program, ShaderProgram::TexturesFragment);
    assert_eq!(p.vertex_bindings, VertexV2::get_binding_description());
    assert_eq!(p.vertex_attributes, VertexV2::get_attribute_descriptions());
    assert_eq!(p.topology, PrimitiveTopology::TriangleList);
    assert!(!p.primitive_restart_enable);
    assert_eq!(p.rasterization.cull_mode, CullMode::Back);
    assert_eq!(p.rasterization.front_face, FrontFace::Clockwise);
    assert_eq!(p.rasterization.polygon_mode, PolygonMode::Fill);
    assert_eq!(f32::from_bits(p.rasterization.line_width), 1.0);
    assert_eq!(p.multisample.rasterization_samples, 1);
    assert!(!p.depth_stencil.depth_test_enable);
    assert_eq!(p.depth_stencil.depth_compare_op, CompareOp::LessOrEqual);
    assert_eq!(p.depth_stencil.front.compare_op, CompareOp::Always);
    assert_eq!(p.depth_stencil.back.fail_op, StencilOp::Keep);
    assert!(!p.color_blend.attachments[0].blend_enable);
    assert!(p.color_blend.attachments[0].color_write_mask.a);
    assert_eq!(p.set_layout_count, 1);
    assert_eq!(p.push_constant_range_count, 0);
    assert_eq!(p.subpass, 0);
    assert_eq!(p.base_pipeline_index, -1);
}

#[test]
fn shader_files_and_entry_point() {
    assert_eq!(shader_spirv_path(ShaderProgram::TexturesVertex), "shaders/spv/25-shader-textures.vert.spv");
    assert_eq!(shader_spirv_path(ShaderProgram::TexturesFragment), "shaders/spv/25-shader-textures.frag.spv");
    assert_eq!(shader_entry_point(), "main");
}
