use render_core::format::SurfaceFormat;
use render_core::gpu::{adapter_request, device_request, window_settings, PowerPreference};
use render_core::pipeline::{
    camera_buffer_desc, global_bind_group_layout, index_buffer_desc, indexed_draw_call,
    pipeline_desc, quad_indices, transform_bind_group_layout, transform_buffer_desc,
    vertex_buffer_desc, vertex_layout, BufferRole, VertexAttrFormat,
};
use render_core::surface::DepthFormat;

#[test]
fn vertex_layout_is_one_packed_position_per_vertex() {
    let v = vertex_layout();
    assert_eq!(v.array_stride, 12);
    assert!(!v.step_per_instance);
    assert_eq!(v.attr_format, VertexAttrFormat::Float32x3);
    assert_eq!(v.attr_offset, 0);
    assert_eq!(v.shader_location, 0);
}

#[test]
fn bind_group_layouts_are_vertex_only_uniforms_of_exact_size() {
    let g = global_bind_group_layout(64);
    assert_eq!(g.binding, 0);
    assert!(g.vertex_only_visibility);
    assert!(g.uniform_buffer);
    assert!(!g.has_dynamic_offset);
    assert_eq!(g.min_binding_size, 64);
    let t = transform_bind_group_layout();
    assert_eq!(t.binding, 0);
    assert!(t.vertex_only_visibility);
    assert_eq!(t.min_binding_size, 128);
}

#[test]
fn pipeline_fixed_function_state_is_pinned() {
    let p = pipeline_desc(SurfaceFormat::Bgra8Unorm);
    assert!(p.front_face_ccw);
    assert!(p.cull_back_faces);
    assert_eq!(p.depth_format, DepthFormat::Depth32Float);
    assert!(p.depth_write_enabled);
    assert!(p.depth_compare_less);
    assert_eq!(p.multisample_count, 1);
    assert!(!p.blending);
    assert_eq!(p.color_format, SurfaceFormat::Bgra8Unorm);
    assert_eq!(p.vertex_layout, vertex_layout());
}

#[test]
fn buffers_are_upload_targets_of_exact_size() {
    let c = camera_buffer_desc(64);
    assert_eq!(c.size, 64);
    assert_eq!(c.role, BufferRole::Uniform);
    assert!(c.copy_dst);
    assert!(!c.mapped_at_creation);
    let t = transform_buffer_desc();
    assert_eq!(t.size, 128);
    assert_eq!(t.role, BufferRole::Uniform);
    let v = vertex_buffer_desc(4);
    assert_eq!(v.size, 48);
    assert_eq!(v.role, BufferRole::Vertex);
    let i = index_buffer_desc(6);
    assert_eq!(i.size, 24);
    assert_eq!(i.role, BufferRole::Index);
}

#[test]
fn quad_draw_covers_all_six_indices_once() {
    let ix = quad_indices();
    assert_eq!(ix, vec![0, 1, 2, 0, 2, 3]);
    let d = indexed_draw_call(ix.len() as u32);
    assert_eq!(d.first_index, 0);
    assert_eq!(d.index_count, 6);
    assert_eq!(d.first_instance, 0);
    assert_eq!(d.instance_count, 1);
}

#[test]
fn gpu_acquisition_policy_is_pinned() {
    let a = adapter_request();
    assert_eq!(a.power_preference, PowerPreference::HighPerformance);
    assert!(!a.force_fallback_adapter);
    assert!(a.require_surface_compatible);
    let d = device_request();
    assert!(d.use_full_adapter_features);
    assert!(d.use_full_adapter_limits);
    let w = window_settings();
    assert_eq!(w.width, 1280);
    assert_eq!(w.height, 720);
    assert!(!w.visible_at_creation);
}
