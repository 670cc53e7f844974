use static_mesh::pipeline::{
    BlendMode, ColorWrites, Face, FrontFace, PipelineState, PolygonMode, StepMode, Topology,
    VertexFormat,
};
use wgpu::TextureFormat;

#[test]
fn attribute_sizes_are_four_bytes_per_component() {
    assert_eq!(VertexFormat::Float32.size(), 4);
    assert_eq!(VertexFormat::Float32x2.size(), 8);
    assert_eq!(VertexFormat::Float32x3.size(), 12);
    assert_eq!(VertexFormat::Float32x4.size(), 16);
}

#[test]
fn vertex_stage_reads_positions_only() {
    let state = PipelineState::fixed(TextureFormat::Bgra8UnormSrgb);
    assert_eq!(state.vertex_buffer.array_stride, 12);
    assert_eq!(state.vertex_buffer.step_mode, StepMode::Vertex);
    assert_eq!(state.vertex_buffer.attribute.format, VertexFormat::Float32x3);
    assert_eq!(state.vertex_buffer.attribute.offset, 0);
    assert_eq!(state.vertex_buffer.attribute.shader_location, 0);
}

#[test]
fn both_stages_start_at_main() {
    let state = PipelineState::fixed(TextureFormat::Bgra8UnormSrgb);
    assert_eq!(state.vertex_entry_point, "main");
    assert_eq!(state.fragment_entry_point, "main");
}

#[test]
fn shaders_bind_nothing() {
    let state = PipelineState::fixed(TextureFormat::Bgra8UnormSrgb);
    assert_eq!(state.layout.bind_group_layouts, 0);
    assert_eq!(state.layout.push_constant_ranges, 0);
}

#[test]
fn triangles_are_filled_and_back_faces_culled() {
    let state = PipelineState::fixed(TextureFormat::Rgba8Unorm);
    assert_eq!(state.primitive.topology, Topology::TriangleList);
    assert_eq!(state.primitive.strip_index_format, None);
    assert_eq!(state.primitive.front_face, FrontFace::Ccw);
    assert_eq!(state.primitive.cull_mode, Some(Face::Back));
    assert_eq!(state.primitive.polygon_mode, PolygonMode::Fill);
    assert!(!state.primitive.unclipped_depth);
    assert!(!state.primitive.conservative);
}

#[test]
fn no_depth_test_and_one_sample() {
    let state = PipelineState::fixed(TextureFormat::Rgba8Unorm);
    assert!(!state.depth_stencil);
    assert_eq!(state.multisample.count, 1);
    assert_eq!(state.multisample.mask, u64::MAX);
    assert!(!state.multisample.alpha_to_coverage_enabled);
}

#[test]
fn target_takes_the_surface_format_and_replaces() {
    let state = PipelineState::fixed(TextureFormat::Rgba16Float);
    assert_eq!(state.target.format, TextureFormat::Rgba16Float);
    assert_eq!(state.target.blend, BlendMode::Replace);
    assert_eq!(
        state.target.write_mask,
        ColorWrites { red: true, green: true, blue: true, alpha: true }
    );
}

#[test]
fn only_the_target_format_varies() {
    let a = PipelineState::fixed(TextureFormat::Bgra8UnormSrgb);
    let b = PipelineState::fixed(TextureFormat::Rgba8Unorm);
    assert_ne!(a, b);
    assert_eq!(a.layout, b.layout);
    assert_eq!(a.vertex_buffer, b.vertex_buffer);
    assert_eq!(a.vertex_entry_point, b.vertex_entry_point);
    assert_eq!(a.fragment_entry_point, b.fragment_entry_point);
    assert_eq!(a.primitive, b.primitive);
    assert_eq!(a.depth_stencil, b.depth_stencil);
    assert_eq!(a.multisample, b.multisample);
    assert_eq!(a.target.blend, b.target.blend);
    assert_eq!(a.target.write_mask, b.target.write_mask);
    assert_eq!(a, PipelineState::fixed(TextureFormat::Bgra8UnormSrgb));
}
