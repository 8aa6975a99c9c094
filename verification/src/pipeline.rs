//! The immutable rendering pipeline's description: vertex layout, the
//! two bind-group layouts, fixed-function state, buffer descriptors and
//! the quad's index data.
//!
//! The GPU compiles these descriptions once at startup; this module pins
//! every field the shader interface and downstream consumers rely on.

use vstd::prelude::*;
use crate::format::SurfaceFormat;
use crate::surface::DepthFormat;
use crate::transform::TRANSFORM_BYTES;

verus! {

/// The byte stride of one vertex: a tightly packed 3-component
/// single-precision position.
pub const VERTEX_STRIDE_BYTES: u64 = 12;

/// The byte width of one index entry (32-bit indices).
pub const INDEX_BYTES: u64 = 4;

/// The format of the single vertex attribute.
#[derive(Clone, Copy, Debug, PartialEq, Eq, Structural)]
pub enum VertexAttrFormat {
    Float32x3,
}

/// The vertex buffer's layout: one attribute, advanced per vertex.
#[derive(Clone, Copy, Debug, PartialEq, Eq, Structural)]
pub struct VertexLayoutDesc {
    pub array_stride: u64,
    pub step_per_instance: bool,
    pub attr_format: VertexAttrFormat,
    pub attr_offset: u64,
    pub shader_location: u32,
}

/// The fixed vertex layout: a tightly packed 3-float position at shader
/// location 0, stepped per vertex.
pub open spec fn spec_vertex_layout() -> VertexLayoutDesc {
    VertexLayoutDesc {
        array_stride: VERTEX_STRIDE_BYTES,
        step_per_instance: false,
        attr_format: VertexAttrFormat::Float32x3,
        attr_offset: 0,
        shader_location: 0,
    }
}

/// Build the vertex buffer layout.
pub fn vertex_layout() -> (v: VertexLayoutDesc)
    ensures
        v == spec_vertex_layout(),
{
    VertexLayoutDesc {
        array_stride: VERTEX_STRIDE_BYTES,
        step_per_instance: false,
        attr_format: VertexAttrFormat::Float32x3,
        attr_offset: 0,
        shader_location: 0,
    }
}

/// A bind-group layout of one uniform-buffer entry.
#[derive(Clone, Copy, Debug, PartialEq, Eq, Structural)]
pub struct BindGroupLayoutDesc {
    pub binding: u32,
    pub vertex_only_visibility: bool,
    pub uniform_buffer: bool,
    pub has_dynamic_offset: bool,
    pub min_binding_size: u64,
}

/// The shape shared by both layouts: binding 0, a uniform buffer without
/// dynamic offset, visible to the vertex stage only, with the given
/// minimum size.
pub open spec fn spec_uniform_layout(min_binding_size: u64) -> BindGroupLayoutDesc {
    BindGroupLayoutDesc {
        binding: 0,
        vertex_only_visibility: true,
        uniform_buffer: true,
        has_dynamic_offset: false,
        min_binding_size,
    }
}

/// Group 0: the camera uniform, sized exactly to the camera's packed
/// GPU representation, whose byte size the camera collaborator supplies.
pub fn global_bind_group_layout(camera_bytes: u64) -> (d: BindGroupLayoutDesc)
    requires
        camera_bytes > 0,
    ensures
        d == spec_uniform_layout(camera_bytes),
{
    BindGroupLayoutDesc {
        binding: 0,
        vertex_only_visibility: true,
        uniform_buffer: true,
        has_dynamic_offset: false,
        min_binding_size: camera_bytes,
    }
}

/// Group 1: the transform uniform, sized exactly to the packed
/// model/normal matrix pair.
pub fn transform_bind_group_layout() -> (d: BindGroupLayoutDesc)
    ensures
        d == spec_uniform_layout(TRANSFORM_BYTES),
        d.min_binding_size == 128,
{
    BindGroupLayoutDesc {
        binding: 0,
        vertex_only_visibility: true,
        uniform_buffer: true,
        has_dynamic_offset: false,
        min_binding_size: TRANSFORM_BYTES,
    }
}

/// The pipeline's fixed-function state and interfaces.
#[derive(Clone, Copy, Debug, PartialEq, Eq, Structural)]
pub struct PipelineDesc {
    pub vertex_layout: VertexLayoutDesc,
    pub front_face_ccw: bool,
    pub cull_back_faces: bool,
    pub depth_format: DepthFormat,
    pub depth_write_enabled: bool,
    pub depth_compare_less: bool,
    pub multisample_count: u32,
    pub blending: bool,
    pub color_format: SurfaceFormat,
}

/// Build the pipeline description for the negotiated surface format:
/// counter-clockwise front faces, back-face culling, depth test "less"
/// against a 32-bit float depth buffer with writes on, no blending, no
/// multisampling.
pub fn pipeline_desc(color_format: SurfaceFormat) -> (p: PipelineDesc)
    ensures
        p.vertex_layout == spec_vertex_layout(),
        p.front_face_ccw,
        p.cull_back_faces,
        p.depth_format == DepthFormat::Depth32Float,
        p.depth_write_enabled,
        p.depth_compare_less,
        p.multisample_count == 1,
        !p.blending,
        p.color_format == color_format,
{
    PipelineDesc {
        vertex_layout: vertex_layout(),
        front_face_ccw: true,
        cull_back_faces: true,
        depth_format: DepthFormat::Depth32Float,
        depth_write_enabled: true,
        depth_compare_less: true,
        multisample_count: 1,
        blending: false,
        color_format,
    }
}

/// What a buffer is bound as.
#[derive(Clone, Copy, Debug, PartialEq, Eq, Structural)]
pub enum BufferRole {
    Uniform,
    Vertex,
    Index,
}

/// A buffer's creation parameters. Every buffer here is a copy
/// destination (filled by queue upload) and not mapped at creation.
#[derive(Clone, Copy, Debug, PartialEq, Eq, Structural)]
pub struct BufferDesc {
    pub size: u64,
    pub role: BufferRole,
    pub copy_dst: bool,
    pub mapped_at_creation: bool,
}

/// The camera uniform buffer, sized exactly to the camera's packed
/// representation.
pub fn camera_buffer_desc(camera_bytes: u64) -> (d: BufferDesc)
    requires
        camera_bytes > 0,
    ensures
        d == (BufferDesc {
            size: camera_bytes,
            role: BufferRole::Uniform,
            copy_dst: true,
            mapped_at_creation: false,
        }),
{
    BufferDesc { size: camera_bytes, role: BufferRole::Uniform, copy_dst: true, mapped_at_creation: false }
}

/// The transform uniform buffer, sized exactly to the packed pair.
pub fn transform_buffer_desc() -> (d: BufferDesc)
    ensures
        d == (BufferDesc {
            size: TRANSFORM_BYTES,
            role: BufferRole::Uniform,
            copy_dst: true,
            mapped_at_creation: false,
        }),
{
    BufferDesc {
        size: TRANSFORM_BYTES,
        role: BufferRole::Uniform,
        copy_dst: true,
        mapped_at_creation: false,
    }
}

/// The vertex buffer for the given vertex count, one stride per vertex.
pub fn vertex_buffer_desc(vertex_count: u64) -> (d: BufferDesc)
    requires
        vertex_count <= u64::MAX / VERTEX_STRIDE_BYTES,
    ensures
        d == (BufferDesc {
            size: (vertex_count * VERTEX_STRIDE_BYTES) as u64,
            role: BufferRole::Vertex,
            copy_dst: true,
            mapped_at_creation: false,
        }),
{
    BufferDesc {
        size: vertex_count * VERTEX_STRIDE_BYTES,
        role: BufferRole::Vertex,
        copy_dst: true,
        mapped_at_creation: false,
    }
}

/// The index buffer for the given index count, 4 bytes per index.
pub fn index_buffer_desc(index_count: u64) -> (d: BufferDesc)
    requires
        index_count <= u64::MAX / INDEX_BYTES,
    ensures
        d == (BufferDesc {
            size: (index_count * INDEX_BYTES) as u64,
            role: BufferRole::Index,
            copy_dst: true,
            mapped_at_creation: false,
        }),
{
    BufferDesc {
        size: index_count * INDEX_BYTES,
        role: BufferRole::Index,
        copy_dst: true,
        mapped_at_creation: false,
    }
}

/// The quad's index list: two counter-clockwise triangles over four
/// vertices.
pub open spec fn spec_quad_indices() -> Seq<u32> {
    seq![0u32, 1u32, 2u32, 0u32, 2u32, 3u32]
}

/// Build the quad's index list.
pub fn quad_indices() -> (ix: Vec<u32>)
    ensures
        ix@ == spec_quad_indices(),
        ix@.len() == 6,
{
    let mut ix: Vec<u32> = Vec::new();
    ix.push(0);
    ix.push(1);
    ix.push(2);
    ix.push(0);
    ix.push(2);
    ix.push(3);
    proof {
        assert(ix@ =~= spec_quad_indices());
    }
    ix
}

/// One indexed draw call covering all indices of one instance.
#[derive(Clone, Copy, Debug, PartialEq, Eq, Structural)]
pub struct DrawCall {
    pub first_index: u32,
    pub index_count: u32,
    pub first_instance: u32,
    pub instance_count: u32,
}

/// The draw call for an index list of the given length: it starts at the
/// first index, covers every index, and draws exactly one instance.
pub fn indexed_draw_call(index_count: u32) -> (d: DrawCall)
    ensures
        d == (DrawCall { first_index: 0, index_count, first_instance: 0, instance_count: 1 }),
{
    DrawCall { first_index: 0, index_count, first_instance: 0, instance_count: 1 }
}

} // verus!
