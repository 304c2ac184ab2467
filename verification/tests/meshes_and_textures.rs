use std::hash::{DefaultHasher, Hasher};

use rotex_wgpu::error::{Error, ErrorKind, Severity};
use rotex_wgpu::mesh::{create_wgpu_mesh, mesh_is_within_limits};
use rotex_wgpu::texture::{create_wgpu_texture, validate_texture_upload};
use rotex_wgpu::types::{
    BufferId, GpuTextureFormat, IndexFormat, MeshDescriptor, TextureDescriptor, TexelFormat,
    VertexAttribute, VertexBufferLayout, VertexFormat, VertexStepMode, VertexStream,
    VertexStreamData,
};
use rotex_wgpu::vertex::{hash_vertex_layout, translate_vertex_layout, vertex_format_tag};

fn invalid(message: &'static str) -> Error {
    Error { kind: ErrorKind::InvalidDescriptor(message), severity: Severity::Recoverable }
}

fn attr(format: VertexFormat, offset: u64, location: u32) -> VertexAttribute {
    VertexAttribute { format, offset, location }
}

fn position_uv_layout() -> VertexBufferLayout {
    VertexBufferLayout {
        array_stride: 20,
        step_mode: VertexStepMode::Vertex,
        attributes: vec![attr(VertexFormat::Float32x3, 0, 0), attr(VertexFormat::Float32x2, 12, 1)],
    }
}

fn triangle(layout: VertexBufferLayout) -> MeshDescriptor {
    MeshDescriptor {
        vertex_streams: vec![VertexStream { layout, data: VertexStreamData::Static(vec![1u8; 60]) }],
        index_data: vec![0, 0, 1, 0, 2, 0],
        index_format: IndexFormat::Uint16,
        index_count: 3,
    }
}

#[test]
fn vertex_layout_translates_unchanged() {
    let layout = position_uv_layout();
    let g = translate_vertex_layout(&layout).unwrap();
    assert_eq!(g.array_stride, 20);
    assert_eq!(g.attributes, layout.attributes);
    assert_eq!(g.step_mode, VertexStepMode::Vertex);
}

#[test]
fn vertex_layout_errors() {
    let mut layout = position_uv_layout();
    layout.array_stride = 0;
    assert_eq!(translate_vertex_layout(&layout).unwrap_err(), invalid("vertex_layout_zero_stride"));

    let empty = VertexBufferLayout { array_stride: 16, step_mode: VertexStepMode::Instance, attributes: vec![] };
    assert_eq!(translate_vertex_layout(&empty).unwrap_err(), invalid("vertex_layout_missing_attributes"));

    let out = VertexBufferLayout {
        array_stride: 16,
        step_mode: VertexStepMode::Vertex,
        attributes: vec![attr(VertexFormat::Float32x4, 4, 0)],
    };
    assert_eq!(translate_vertex_layout(&out).unwrap_err(), invalid("vertex_attribute_out_of_bounds"));

    let overflow = VertexBufferLayout {
        array_stride: 16,
        step_mode: VertexStepMode::Vertex,
        attributes: vec![attr(VertexFormat::Float32, u64::MAX - 1, 0)],
    };
    assert_eq!(translate_vertex_layout(&overflow).unwrap_err(), invalid("vertex_attribute_overflow"));

    let duplicate = VertexBufferLayout {
        array_stride: 16,
        step_mode: VertexStepMode::Vertex,
        attributes: vec![attr(VertexFormat::Float32, 0, 3), attr(VertexFormat::Float32, 4, 3)],
    };
    assert_eq!(translate_vertex_layout(&duplicate).unwrap_err(), invalid("vertex_attribute_duplicate_location"));
}

#[test]
fn first_faulty_attribute_decides() {
    // The out-of-bounds attribute comes before the duplicate one.
    let layout = VertexBufferLayout {
        array_stride: 8,
        step_mode: VertexStepMode::Vertex,
        attributes: vec![
            attr(VertexFormat::Float32, 0, 0),
            attr(VertexFormat::Float32x4, 0, 1),
            attr(VertexFormat::Float32, 4, 0),
        ],
    };
    assert_eq!(translate_vertex_layout(&layout).unwrap_err(), invalid("vertex_attribute_out_of_bounds"));
}

#[test]
fn layout_hash_is_default_hasher_digest() {
    let layout = position_uv_layout();
    let mut h = DefaultHasher::new();
    h.write_u64(20);
    h.write_u32(0);
    h.write_u32(0);
    h.write_u64(0);
    h.write_u8(2);
    h.write_u32(1);
    h.write_u64(12);
    h.write_u8(1);
    assert_eq!(hash_vertex_layout(&layout), h.finish());
}

#[test]
fn equal_layouts_share_an_identity() {
    let a = position_uv_layout();
    let b = position_uv_layout();
    assert_eq!(hash_vertex_layout(&a), hash_vertex_layout(&b));
    let mut c = position_uv_layout();
    c.step_mode = VertexStepMode::Instance;
    assert_ne!(hash_vertex_layout(&a), hash_vertex_layout(&c));
}

#[test]
fn format_tags() {
    assert_eq!(vertex_format_tag(VertexFormat::Float32), 0);
    assert_eq!(vertex_format_tag(VertexFormat::Float32x2), 1);
    assert_eq!(vertex_format_tag(VertexFormat::Float32x3), 2);
    assert_eq!(vertex_format_tag(VertexFormat::Float32x4), 3);
    assert_eq!(vertex_format_tag(VertexFormat::Uint32), 4);
}

#[test]
fn mesh_plan_uploads_aligned_buffers() {
    let mut mesh = triangle(position_uv_layout());
    mesh.vertex_streams[0].data = VertexStreamData::Static(vec![5u8; 6]);
    let plan = create_wgpu_mesh(&mesh).unwrap();
    assert_eq!(plan.vertex_buffer.size, 8);
    assert_eq!(plan.vertex_buffer.contents, Some(vec![5, 5, 5, 5, 5, 5, 0, 0]));
    assert!(plan.vertex_buffer.usage.vertex && !plan.vertex_buffer.usage.index);
    assert_eq!(plan.index_buffer.size, 8);
    assert_eq!(plan.index_buffer.contents, Some(vec![0, 0, 1, 0, 2, 0, 0, 0]));
    assert!(plan.index_buffer.usage.index && !plan.index_buffer.usage.vertex);
    assert_eq!(plan.index_format, IndexFormat::Uint16);
    assert_eq!(plan.index_count, 3);
    assert_eq!(plan.vertex_layout_id, hash_vertex_layout(&position_uv_layout()));
    assert_eq!(plan.vertex_layout.attributes, position_uv_layout().attributes);
}

#[test]
fn mesh_with_external_stream_uploads_no_vertex_bytes() {
    let mut mesh = triangle(position_uv_layout());
    mesh.vertex_streams[0].data = VertexStreamData::External(BufferId(9));
    let plan = create_wgpu_mesh(&mesh).unwrap();
    assert_eq!(plan.vertex_buffer.size, 4);
    assert_eq!(plan.vertex_buffer.contents, None);
}

#[test]
fn mesh_errors() {
    let mut no_indices = triangle(position_uv_layout());
    no_indices.index_count = 0;
    assert_eq!(create_wgpu_mesh(&no_indices).unwrap_err(), invalid("mesh_missing_indices"));

    let mut no_index_data = triangle(position_uv_layout());
    no_index_data.index_data = vec![];
    assert_eq!(create_wgpu_mesh(&no_index_data).unwrap_err(), invalid("mesh_missing_index_data"));

    let mut no_vertices = triangle(position_uv_layout());
    no_vertices.vertex_streams[0].data = VertexStreamData::Static(vec![]);
    assert_eq!(create_wgpu_mesh(&no_vertices).unwrap_err(), invalid("mesh_missing_vertex_data"));

    let mut mismatch = triangle(position_uv_layout());
    mismatch.index_format = IndexFormat::Uint32;
    assert_eq!(create_wgpu_mesh(&mismatch).unwrap_err(), invalid("mesh_index_data_size_mismatch"));

    let mut bad_layout = position_uv_layout();
    bad_layout.array_stride = 0;
    assert_eq!(create_wgpu_mesh(&triangle(bad_layout)).unwrap_err(), invalid("vertex_layout_zero_stride"));
}

#[test]
fn mesh_without_streams_is_out_of_limits() {
    let mut mesh = triangle(position_uv_layout());
    assert!(mesh_is_within_limits(&mesh));
    mesh.vertex_streams.clear();
    assert!(!mesh_is_within_limits(&mesh));
}

#[test]
fn texture_upload_plan_formula() {
    let plan = validate_texture_upload(GpuTextureFormat::Rgba8Unorm, 3, 2, &[0u8; 30]).unwrap();
    assert_eq!(plan.width, 3);
    assert_eq!(plan.height, 2);
    assert_eq!(plan.bytes_per_row, 12);
    assert_eq!(plan.rows_per_image, 2);
    assert_eq!(plan.expected_len, 24);
}

#[test]
fn texture_upload_counts_zero_sizes_as_one() {
    let plan = validate_texture_upload(GpuTextureFormat::Rgba8Unorm, 0, 0, &[1, 2, 3, 4]).unwrap();
    assert_eq!((plan.width, plan.height, plan.expected_len, plan.bytes_per_row), (1, 1, 4, 4));
}

#[test]
fn texture_upload_errors() {
    assert_eq!(
        validate_texture_upload(GpuTextureFormat::Rgba8Unorm, 2, 2, &[0u8; 15]).unwrap_err(),
        Error { kind: ErrorKind::TextureUploadFailed("texture_data_too_small"), severity: Severity::Recoverable },
    );
    assert_eq!(
        validate_texture_upload(GpuTextureFormat::Bgra8Unorm, 1, 1, &[0u8; 4]).unwrap_err(),
        Error { kind: ErrorKind::Unsupported("texture_format_not_supported"), severity: Severity::Recoverable },
    );
    assert_eq!(
        validate_texture_upload(GpuTextureFormat::Depth24Plus, 1, 1, &[0u8; 4]).unwrap_err(),
        Error { kind: ErrorKind::Unsupported("texture_format_not_supported"), severity: Severity::Recoverable },
    );
}

#[test]
fn srgb_texture_is_created_as_unorm() {
    let plan = create_wgpu_texture(TextureDescriptor {
        width: 1,
        height: 2,
        format: TexelFormat::Rgba8UnormSrgb,
        data: vec![7u8; 9],
    })
    .unwrap();
    assert_eq!(plan.format, GpuTextureFormat::Rgba8Unorm);
    assert_eq!((plan.width, plan.height), (1, 2));
    assert_eq!(plan.upload.expected_len, 8);
    assert_eq!(plan.data, vec![7u8; 9]);
}

#[test]
fn texture_with_too_little_data_is_refused() {
    let r = create_wgpu_texture(TextureDescriptor { width: 4, height: 4, format: TexelFormat::Rgba8Unorm, data: vec![0u8; 63] });
    assert_eq!(
        r.unwrap_err(),
        Error { kind: ErrorKind::TextureUploadFailed("texture_data_too_small"), severity: Severity::Recoverable },
    );
}
