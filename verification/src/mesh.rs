//! Checking a mesh and planning the buffers it is uploaded into.
use vstd::prelude::*;
use crate::buffers::{BufferUpload, GpuBufferUsages, plan_buffer_upload, spec_buffer_upload};
use crate::error::{Error, ErrorKind, recoverable_error};
use crate::types::{IndexFormat, MeshDescriptor, VertexStreamData, index_format_size, spec_index_format_size};
use crate::vertex::{
    GpuVertexLayout, hash_vertex_layout, spec_translate_vertex_layout, spec_vertex_layout_id,
    translate_vertex_layout, translates_to,
};

verus! {

/// The uses of a mesh's vertex buffer.
pub open spec fn vertex_buffer_usage() -> GpuBufferUsages {
    GpuBufferUsages { copy_dst: false, vertex: true, index: false, uniform: false, storage: false }
}

/// The uses of a mesh's index buffer.
pub open spec fn index_buffer_usage() -> GpuBufferUsages {
    GpuBufferUsages { copy_dst: false, vertex: false, index: true, uniform: false, storage: false }
}

/// The bytes of a mesh's first vertex stream that are uploaded with it:
/// its static data, or nothing when an outside buffer feeds it.
pub open spec fn mesh_vertex_bytes(mesh: MeshDescriptor) -> Seq<u8> {
    match mesh.vertex_streams@[0].data {
        VertexStreamData::Static(d) => d@,
        VertexStreamData::External(_) => Seq::empty(),
    }
}

/// Whether a mesh can be handled at all: when it has indices and index
/// data (so that its vertex data is looked at), it has a vertex stream; and
/// its byte arrays are far enough from the largest `u64` to be rounded up.
pub open spec fn mesh_within_limits(mesh: MeshDescriptor) -> bool {
    &&& mesh.index_count > 0 && mesh.index_data@.len() > 0 ==> mesh.vertex_streams@.len() > 0
    &&& mesh.vertex_streams@.len() > 0 ==> mesh_vertex_bytes(mesh).len() + 4 <= u64::MAX
    &&& mesh.index_data@.len() + 4 <= u64::MAX
}

/// Why a mesh is refused before its vertex layout is looked at, if it is.
pub open spec fn mesh_fault(mesh: MeshDescriptor) -> Option<ErrorKind> {
    let expected = mesh.index_count as int * spec_index_format_size(mesh.index_format) as int;
    if mesh.index_count == 0 {
        Some(ErrorKind::InvalidDescriptor("mesh_missing_indices"))
    } else if mesh.index_data@.len() == 0 {
        Some(ErrorKind::InvalidDescriptor("mesh_missing_index_data"))
    } else if mesh.vertex_streams@[0].data matches VertexStreamData::Static(d) && d@.len() == 0 {
        Some(ErrorKind::InvalidDescriptor("mesh_missing_vertex_data"))
    } else if expected > usize::MAX {
        Some(ErrorKind::InvalidDescriptor("index_size_overflow"))
    } else if mesh.index_data@.len() != expected {
        Some(ErrorKind::InvalidDescriptor("mesh_index_data_size_mismatch"))
    } else {
        None
    }
}

/// Why a mesh is refused, if it is: a fault of the mesh itself, else the
/// refusal of its first stream's vertex layout.
pub open spec fn spec_mesh_error(mesh: MeshDescriptor) -> Option<Error> {
    match mesh_fault(mesh) {
        Some(k) => Some(recoverable_error(k)),
        None => match spec_translate_vertex_layout(mesh.vertex_streams@[0].layout) {
            Err(e) => Some(e),
            Ok(_) => None,
        },
    }
}

/// A checked mesh: the buffers to create, how to draw it, and its layout.
#[derive(Clone, Debug, PartialEq, Eq)]
pub struct MeshPlan {
    pub vertex_buffer: BufferUpload,
    pub index_buffer: BufferUpload,
    pub index_format: IndexFormat,
    pub index_count: u32,
    pub vertex_layout_id: u64,
    pub vertex_layout: GpuVertexLayout,
}

/// Whether `upload` is the upload of `data` with `usage`.
pub open spec fn is_upload_of(upload: BufferUpload, usage: GpuBufferUsages, data: Seq<u8>) -> bool {
    let (size, contents) = spec_buffer_upload(usage, data);
    &&& upload.usage == usage
    &&& upload.size == size
    &&& match upload.contents {
        Some(c) => contents == Some(c@),
        None => contents is None,
    }
}

/// Whether `plan` is the plan of `mesh`.
pub open spec fn is_mesh_plan(mesh: MeshDescriptor, plan: MeshPlan) -> bool {
    &&& is_upload_of(plan.vertex_buffer, vertex_buffer_usage(), mesh_vertex_bytes(mesh))
    &&& is_upload_of(plan.index_buffer, index_buffer_usage(), mesh.index_data@)
    &&& plan.index_format == mesh.index_format
    &&& plan.index_count == mesh.index_count
    &&& plan.vertex_layout_id == spec_vertex_layout_id(mesh.vertex_streams@[0].layout)
    &&& translates_to(mesh.vertex_streams@[0].layout, Ok(plan.vertex_layout))
}

/// Checks a mesh and plans its upload: the mesh needs indices, index data,
/// static vertex data when its first stream has static data, and index data
/// of exactly `index_count` indices; its first stream's layout must
/// translate.
pub fn create_wgpu_mesh(mesh: &MeshDescriptor) -> (r: Result<MeshPlan, Error>)
    requires
        mesh_within_limits(*mesh),
    ensures
        match r {
            Ok(plan) => spec_mesh_error(*mesh) is None && is_mesh_plan(*mesh, plan),
            Err(e) => spec_mesh_error(*mesh) == Some(e),
        },
{
    if mesh.index_count == 0 {
        return Err(Error::recoverable(ErrorKind::InvalidDescriptor("mesh_missing_indices")));
    }
    if mesh.index_data.len() == 0 {
        return Err(Error::recoverable(ErrorKind::InvalidDescriptor("mesh_missing_index_data")));
    }
    let stream = &mesh.vertex_streams[0];
    let empty: Vec<u8> = Vec::new();
    let vertex_data: &Vec<u8> = match &stream.data {
        VertexStreamData::Static(data) => {
            if data.len() == 0 {
                return Err(Error::recoverable(ErrorKind::InvalidDescriptor("mesh_missing_vertex_data")));
            }
            data
        },
        VertexStreamData::External(_) => &empty,
    };
    assert(vertex_data@ == mesh_vertex_bytes(*mesh));
    let index_stride = index_format_size(mesh.index_format);
    let expected = (mesh.index_count as usize).checked_mul(index_stride);
    let expected_index_len = match expected {
        Some(n) => n,
        None => {
            return Err(Error::recoverable(ErrorKind::InvalidDescriptor("index_size_overflow")));
        },
    };
    if mesh.index_data.len() != expected_index_len {
        return Err(Error::recoverable(ErrorKind::InvalidDescriptor("mesh_index_data_size_mismatch")));
    }
    let vertex_layout = match translate_vertex_layout(&stream.layout) {
        Ok(l) => l,
        Err(e) => {
            return Err(e);
        },
    };
    let vertex_usage = GpuBufferUsages { copy_dst: false, vertex: true, index: false, uniform: false, storage: false };
    let index_usage = GpuBufferUsages { copy_dst: false, vertex: false, index: true, uniform: false, storage: false };
    let vertex_buffer = plan_buffer_upload(vertex_usage, vertex_data.as_slice());
    let index_buffer = plan_buffer_upload(index_usage, mesh.index_data.as_slice());
    let vertex_layout_id = hash_vertex_layout(&stream.layout);
    Ok(MeshPlan {
        vertex_buffer,
        index_buffer,
        index_format: mesh.index_format,
        index_count: mesh.index_count,
        vertex_layout_id,
        vertex_layout,
    })
}

/// Whether a mesh can be handled at all; see `mesh_within_limits`.
pub fn mesh_is_within_limits(mesh: &MeshDescriptor) -> (b: bool)
    ensures
        b == mesh_within_limits(*mesh),
{
    if (mesh.index_data.len() as u64) > u64::MAX - 4 {
        return false;
    }
    if mesh.vertex_streams.len() == 0 {
        return mesh.index_count == 0 || mesh.index_data.len() == 0;
    }
    let bytes = match &mesh.vertex_streams[0].data {
        VertexStreamData::Static(d) => d.len(),
        VertexStreamData::External(_) => 0,
    };
    (bytes as u64) <= u64::MAX - 4
}

} // verus!
