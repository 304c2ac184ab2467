use rotex_wgpu::buffers::{
    GpuBufferUsages, align_to_u64, allocation_size, map_wgpu_buffer_usage, plan_buffer_upload,
};
use rotex_wgpu::resources::plan_buffer_creation;
use rotex_wgpu::types::{
    BufferDescriptor, BufferUsage, BufferUsages, GpuTextureFormat, IndexFormat, TexelFormat,
    VertexFormat, bytes_per_pixel, index_format_size, map_texture_format, vertex_format_size,
};

fn no_usages() -> BufferUsages {
    BufferUsages { vertex: false, index: false, uniform: false, storage: false }
}

fn usage_flags(copy_dst: bool, vertex: bool, index: bool, uniform: bool, storage: bool) -> GpuBufferUsages {
    GpuBufferUsages { copy_dst, vertex, index, uniform, storage }
}

#[test]
fn align_rounds_up_to_multiple() {
    assert_eq!(align_to_u64(0, 4), 0);
    assert_eq!(align_to_u64(1, 4), 4);
    assert_eq!(align_to_u64(4, 4), 4);
    assert_eq!(align_to_u64(5, 4), 8);
    assert_eq!(align_to_u64(13, 8), 16);
    assert_eq!(align_to_u64(256, 256), 256);
}

#[test]
fn align_with_zero_alignment_is_identity() {
    assert_eq!(align_to_u64(7, 0), 7);
    assert_eq!(align_to_u64(u64::MAX, 0), u64::MAX);
}

#[test]
fn align_law_on_values() {
    for value in 0u64..100 {
        for alignment in 1u64..17 {
            let r = align_to_u64(value, alignment);
            assert!(r >= value);
            assert_eq!(r % alignment, 0);
            assert!(r < value + alignment);
        }
    }
}

#[test]
fn allocation_is_never_empty() {
    assert_eq!(allocation_size(0), 1);
    assert_eq!(allocation_size(1), 1);
    assert_eq!(allocation_size(64), 64);
}

#[test]
fn upload_of_empty_data_is_one_aligned_word() {
    let u = plan_buffer_upload(usage_flags(false, true, false, false, false), &[]);
    assert_eq!(u.size, 4);
    assert_eq!(u.contents, None);
    assert_eq!(u.usage, usage_flags(false, true, false, false, false));
}

#[test]
fn upload_pads_data_with_zeros_to_copy_alignment() {
    // The size is rounded up to the copy alignment of four bytes, which
    // comes from the GPU library.
    let u = plan_buffer_upload(usage_flags(false, false, true, false, false), &[1, 2, 3, 4, 5]);
    assert_eq!(u.size, 8);
    assert_eq!(u.contents, Some(vec![1, 2, 3, 4, 5, 0, 0, 0]));
    let exact = plan_buffer_upload(usage_flags(false, false, true, false, false), &[9, 9, 9, 9]);
    assert_eq!(exact.size, 4);
    assert_eq!(exact.contents, Some(vec![9, 9, 9, 9]));
}

#[test]
fn buffer_usage_adds_copy_dst_and_requested_uses() {
    let desc = BufferDescriptor {
        size: 16,
        usage: BufferUsage::Vertex,
        usages: BufferUsages { vertex: false, index: false, uniform: true, storage: true },
        initial_data: None,
    };
    assert_eq!(map_wgpu_buffer_usage(&desc), usage_flags(true, false, false, true, true));
}

#[test]
fn buffer_usage_falls_back_to_main_usage() {
    let mut desc = BufferDescriptor { size: 16, usage: BufferUsage::Index, usages: no_usages(), initial_data: None };
    assert_eq!(map_wgpu_buffer_usage(&desc), usage_flags(true, false, true, false, false));
    desc.usage = BufferUsage::Storage;
    assert_eq!(map_wgpu_buffer_usage(&desc), usage_flags(true, false, false, false, true));
    desc.usage = BufferUsage::Uniform;
    assert_eq!(map_wgpu_buffer_usage(&desc), usage_flags(true, false, false, true, false));
    desc.usage = BufferUsage::Vertex;
    assert_eq!(map_wgpu_buffer_usage(&desc), usage_flags(true, true, false, false, false));
}

#[test]
fn buffer_creation_cuts_initial_data_to_size() {
    let desc = BufferDescriptor {
        size: 3,
        usage: BufferUsage::Uniform,
        usages: no_usages(),
        initial_data: Some(vec![1, 2, 3, 4, 5]),
    };
    let c = plan_buffer_creation(&desc);
    assert_eq!(c.size, 3);
    assert_eq!(c.initial_data, Some(vec![1, 2, 3]));
    assert_eq!(c.usage, usage_flags(true, false, false, true, false));
}

#[test]
fn buffer_creation_of_zero_size_allocates_one_byte() {
    let desc = BufferDescriptor {
        size: 0,
        usage: BufferUsage::Storage,
        usages: no_usages(),
        initial_data: Some(vec![7, 8]),
    };
    let c = plan_buffer_creation(&desc);
    assert_eq!(c.size, 1);
    assert_eq!(c.initial_data, Some(vec![7]));
    let none = plan_buffer_creation(&BufferDescriptor { initial_data: None, ..desc });
    assert_eq!(none.initial_data, None);
}

#[test]
fn format_sizes() {
    assert_eq!(vertex_format_size(VertexFormat::Float32), 4);
    assert_eq!(vertex_format_size(VertexFormat::Float32x2), 8);
    assert_eq!(vertex_format_size(VertexFormat::Float32x3), 12);
    assert_eq!(vertex_format_size(VertexFormat::Float32x4), 16);
    assert_eq!(vertex_format_size(VertexFormat::Uint32), 4);
    assert_eq!(index_format_size(IndexFormat::Uint16), 2);
    assert_eq!(index_format_size(IndexFormat::Uint32), 4);
    assert_eq!(bytes_per_pixel(TexelFormat::Rgba8Unorm), 4);
    assert_eq!(bytes_per_pixel(TexelFormat::Rgba8UnormSrgb), 4);
}

#[test]
fn srgb_textures_are_created_as_unorm() {
    assert_eq!(map_texture_format(TexelFormat::Rgba8Unorm), GpuTextureFormat::Rgba8Unorm);
    assert_eq!(map_texture_format(TexelFormat::Rgba8UnormSrgb), GpuTextureFormat::Rgba8Unorm);
}
