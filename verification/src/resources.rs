//! The resources the backend holds, and the checks and plans for creating
//! and updating them.
use vstd::prelude::*;
use std::collections::HashMap;
use std::collections::HashSet;
use crate::bindings::{
    GpuBindGroupLayoutEntry, are_set_layouts, create_bind_group_layout, spec_map_layout_entry,
};
use crate::buffers::{
    GpuBufferUsages, allocation_size, map_wgpu_buffer_usage, spec_allocation_size,
    spec_map_buffer_usage,
};
use crate::compute::{ComputePipelinePlan, create_compute_pipeline};
use crate::error::{Error, ErrorKind, fatal_error, recoverable_error};
use crate::buffers::BufferUpload;
use crate::mesh::{
    create_wgpu_mesh, index_buffer_usage, is_upload_of, mesh_vertex_bytes, mesh_within_limits,
    spec_mesh_error, vertex_buffer_usage,
};
use crate::shader::{ShaderModuleCache, ShaderModuleCreation, request_safe, shader_request};
use crate::pipeline::{MaterialPipelineKey, PipelineCache};
use crate::texture::{
    TexturePlan, TextureUploadPlan, at_least_one, create_wgpu_texture, spec_texture_upload,
    validate_texture_upload,
};
use crate::types::{
    BindGroupDescriptor, BindGroupEntryDescriptor, BindGroupLayoutEntry, BindGroupId,
    BindGroupLayoutId, BufferDescriptor, BufferId, ComputePipelineId, GpuTextureFormat,
    IndexFormat, MaterialDescriptor, MaterialId, MeshDescriptor, MeshId, ResourceCreateDescriptor,
    ResourceHandle, ResourceUpdateDescriptor, TextureId, has_spirv_bytes, has_wgsl_source, spec_map_texture_format,
};
use crate::vertex::{GpuVertexLayout, spec_vertex_layout_id, translates_to};

verus! {

broadcast use vstd::std_specs::hash::group_hash_axioms;

/// What the backend keeps of a mesh: how to draw it and its vertex layout.
#[derive(Clone, Debug, PartialEq, Eq)]
pub struct MeshInfo {
    pub index_format: IndexFormat,
    pub index_count: u32,
    pub vertex_layout_id: u64,
    pub vertex_layout: GpuVertexLayout,
}

/// What the backend keeps of a texture: its format and size.
#[derive(Clone, Copy, Debug, PartialEq, Eq, Hash, Structural)]
pub struct TextureInfo {
    pub format: GpuTextureFormat,
    pub width: u32,
    pub height: u32,
}

/// The resources that exist, by raw id, with what the backend keeps of
/// each: meshes, materials, textures, buffers (their requested size), bind
/// group layouts, bind groups, and compute pipelines (how many bind group
/// layouts each has).
pub struct ResourceStorage {
    pub meshes: HashMap<u64, MeshInfo>,
    pub materials: HashMap<u64, MaterialDescriptor>,
    pub textures: HashMap<u64, TextureInfo>,
    pub buffers: HashMap<u64, u64>,
    pub bind_group_layouts: HashSet<u64>,
    pub bind_groups: HashSet<u64>,
    pub compute_pipelines: HashMap<u64, usize>,
}

/// Whether two storages hold the same resources.
pub open spec fn same_storage(a: ResourceStorage, b: ResourceStorage) -> bool {
    &&& a.meshes@ == b.meshes@
    &&& a.materials@ == b.materials@
    &&& a.textures@ == b.textures@
    &&& a.buffers@ == b.buffers@
    &&& a.bind_group_layouts@ == b.bind_group_layouts@
    &&& a.bind_groups@ == b.bind_groups@
    &&& a.compute_pipelines@ == b.compute_pipelines@
}

impl ResourceStorage {
    /// A storage without resources.
    pub fn new() -> (s: ResourceStorage)
        ensures
            s.meshes@ == Map::<u64, MeshInfo>::empty(),
            s.materials@ == Map::<u64, MaterialDescriptor>::empty(),
            s.textures@ == Map::<u64, TextureInfo>::empty(),
            s.buffers@ == Map::<u64, u64>::empty(),
            s.bind_group_layouts@ == Set::<u64>::empty(),
            s.bind_groups@ == Set::<u64>::empty(),
            s.compute_pipelines@ == Map::<u64, usize>::empty(),
    {
        ResourceStorage {
            meshes: HashMap::new(),
            materials: HashMap::new(),
            textures: HashMap::new(),
            buffers: HashMap::new(),
            bind_group_layouts: HashSet::new(),
            bind_groups: HashSet::new(),
            compute_pipelines: HashMap::new(),
        }
    }
}

/// Whether `info` is what the backend keeps of the accepted mesh `mesh`:
/// its index format and count, and the identity and translation of its
/// first stream's layout.
pub open spec fn mesh_info_of(mesh: MeshDescriptor, info: MeshInfo) -> bool {
    &&& info.index_format == mesh.index_format
    &&& info.index_count == mesh.index_count
    &&& info.vertex_layout_id == spec_vertex_layout_id(mesh.vertex_streams@[0].layout)
    &&& translates_to(mesh.vertex_streams@[0].layout, Ok(info.vertex_layout))
}

/// Why a material is refused, if it is: a shader without WGSL source or
/// SPIR-V bytes, or a shader without an entry point.
pub open spec fn material_fault(m: MaterialDescriptor) -> Option<Error> {
    let v = m.shaders.vertex;
    let f = m.shaders.fragment;
    if !(has_spirv_bytes(v) || has_wgsl_source(v)) || !(has_spirv_bytes(f) || has_wgsl_source(f)) {
        Some(recoverable_error(ErrorKind::InvalidDescriptor("material_shader_source_missing")))
    } else if v.entry_point@.len() == 0 || f.entry_point@.len() == 0 {
        Some(recoverable_error(ErrorKind::InvalidDescriptor("material_shader_entry_missing")))
    } else {
        None
    }
}

/// Checks that both shaders of a material have code and an entry point.
pub fn validate_material_descriptor(material: &MaterialDescriptor) -> (r: Result<(), Error>)
    ensures
        match material_fault(*material) {
            Some(e) => r == Err::<(), Error>(e),
            None => r is Ok,
        },
{
    let has_vert = material.shaders.vertex.spirv_bytes().is_some()
        || material.shaders.vertex.wgsl_source().is_some();
    let has_frag = material.shaders.fragment.spirv_bytes().is_some()
        || material.shaders.fragment.wgsl_source().is_some();
    if !has_vert || !has_frag {
        return Err(Error::recoverable(ErrorKind::InvalidDescriptor("material_shader_source_missing")));
    }
    if material.shaders.vertex.entry_point.as_str().is_empty()
        || material.shaders.fragment.entry_point.as_str().is_empty() {
        return Err(Error::recoverable(ErrorKind::InvalidDescriptor("material_shader_entry_missing")));
    }
    Ok(())
}

/// A buffer to create: its allocation size, its uses, and the bytes to
/// write at its start while it is mapped.
#[derive(Clone, Debug, PartialEq, Eq)]
pub struct BufferCreation {
    pub size: u64,
    pub usage: GpuBufferUsages,
    pub initial_data: Option<Vec<u8>>,
}

/// The number of initial bytes written into a buffer of `size` bytes.
pub open spec fn initial_len(data_len: nat, size: u64) -> nat {
    if data_len < size { data_len } else { size as nat }
}

/// Whether `c` is the creation of the buffer `desc` asks for: allocated
/// with at least one byte and its uses; its initial data, if any, cut to
/// the allocation size.
pub open spec fn is_buffer_creation(desc: BufferDescriptor, c: BufferCreation) -> bool {
    let size = spec_allocation_size(desc.size);
    &&& c.size == size
    &&& c.usage == spec_map_buffer_usage(desc)
    &&& match (desc.initial_data, c.initial_data) {
        (None, None) => true,
        (Some(d), Some(w)) => w@ == d@.subrange(0, initial_len(d@.len(), size) as int),
        _ => false,
    }
}

/// Plans the creation of a buffer.
pub fn plan_buffer_creation(desc: &BufferDescriptor) -> (c: BufferCreation)
    ensures
        is_buffer_creation(*desc, c),
{
    let usage = map_wgpu_buffer_usage(desc);
    let size = allocation_size(desc.size);
    let initial_data = match &desc.initial_data {
        None => None,
        Some(data) => {
            let len: usize = if (data.len() as u64) < size { data.len() } else { size as usize };
            let mut bytes: Vec<u8> = Vec::new();
            let mut i: usize = 0;
            while i < len
                invariant
                    len <= data@.len(),
                    i <= len,
                    bytes@ == data@.subrange(0, i as int),
                decreases len - i,
            {
                bytes.push(data[i]);
                i = i + 1;
            }
            Some(bytes)
        },
    };
    BufferCreation { size, usage, initial_data }
}

/// One entry of a bind group to create.
#[derive(Clone, Copy, Debug, PartialEq, Eq, Hash, Structural)]
pub enum GpuBindGroupEntry {
    /// A range of a buffer; no size binds the rest of the buffer.
    Buffer { binding: u32, buffer: BufferId, offset: u64, size: Option<u64> },
    /// The default view of a texture.
    TextureView { binding: u32, texture: TextureId },
}

/// The GPU entry of a bind group entry: a size of zero binds the rest of
/// the buffer.
pub open spec fn spec_bind_group_entry(e: BindGroupEntryDescriptor) -> GpuBindGroupEntry {
    match e {
        BindGroupEntryDescriptor::Buffer { binding, buffer, offset, size } => GpuBindGroupEntry::Buffer {
            binding,
            buffer,
            offset,
            size: if size == 0 { None } else { Some(size) },
        },
        BindGroupEntryDescriptor::Texture { binding, texture } => GpuBindGroupEntry::TextureView { binding, texture },
    }
}

/// Why an entry of a bind group is refused, if it is: it names a buffer or
/// texture that does not exist.
pub open spec fn entry_fault(s: ResourceStorage, e: BindGroupEntryDescriptor) -> Option<Error> {
    match e {
        BindGroupEntryDescriptor::Buffer { buffer, .. } => if s.buffers@.contains_key(buffer.0) {
            None
        } else {
            Some(fatal_error(ErrorKind::Unsupported("buffer not found")))
        },
        BindGroupEntryDescriptor::Texture { texture, .. } => if s.textures@.contains_key(texture.0) {
            None
        } else {
            Some(fatal_error(ErrorKind::Unsupported("texture not found for bind group")))
        },
    }
}

/// The fault of the first faulty entry among the first `n`.
pub open spec fn first_entry_fault(s: ResourceStorage, entries: Seq<BindGroupEntryDescriptor>, n: int) -> Option<Error>
    decreases n,
{
    if n <= 0 {
        None
    } else {
        match first_entry_fault(s, entries, n - 1) {
            Some(e) => Some(e),
            None => entry_fault(s, entries[n - 1]),
        }
    }
}

/// Why a bind group is refused, if it is: its layout does not exist, or
/// the fault of its first faulty entry.
pub open spec fn bind_group_fault(s: ResourceStorage, g: BindGroupDescriptor) -> Option<Error> {
    if !s.bind_group_layouts@.contains(g.layout.0) {
        Some(fatal_error(ErrorKind::Unsupported("bind group layout not found")))
    } else {
        first_entry_fault(s, g.entries@, g.entries@.len() as int)
    }
}

proof fn lemma_entry_fault_stays(s: ResourceStorage, entries: Seq<BindGroupEntryDescriptor>, n: int, m: int)
    requires
        n <= m,
        first_entry_fault(s, entries, n) is Some,
    ensures
        first_entry_fault(s, entries, m) == first_entry_fault(s, entries, n),
    decreases m - n,
{
    if n < m {
        lemma_entry_fault_stays(s, entries, n, m - 1);
    }
}

impl ResourceStorage {
    /// Checks a bind group against the resources and plans its entries, one
    /// for each of its entries, in order.
    pub fn plan_bind_group(&self, group: &BindGroupDescriptor) -> (r: Result<Vec<GpuBindGroupEntry>, Error>)
        ensures
            match bind_group_fault(*self, *group) {
                Some(e) => r == Err::<Vec<GpuBindGroupEntry>, Error>(e),
                None => r matches Ok(entries) && entries@ == group.entries@.map_values(
                    |e: BindGroupEntryDescriptor| spec_bind_group_entry(e),
                ),
            },
    {
        if !self.bind_group_layouts.contains(&group.layout.0) {
            return Err(Error::fatal(ErrorKind::Unsupported("bind group layout not found")));
        }
        let ghost es = group.entries@;
        let mut entries: Vec<GpuBindGroupEntry> = Vec::new();
        let mut i: usize = 0;
        while i < group.entries.len()
            invariant
                es == group.entries@,
                self.bind_group_layouts@.contains(group.layout.0),
                i <= es.len(),
                first_entry_fault(*self, es, i as int) is None,
                entries@ == es.subrange(0, i as int).map_values(|e: BindGroupEntryDescriptor| spec_bind_group_entry(e)),
            decreases es.len() - i,
        {
            let entry = group.entries[i];
            match entry {
                BindGroupEntryDescriptor::Buffer { binding, buffer, offset, size } => {
                    if !self.buffers.contains_key(&buffer.0) {
                        proof { lemma_entry_fault_stays(*self, es, i + 1, es.len() as int); }
                        return Err(Error::fatal(ErrorKind::Unsupported("buffer not found")));
                    }
                    entries.push(GpuBindGroupEntry::Buffer {
                        binding,
                        buffer,
                        offset,
                        size: if size == 0 { None } else { Some(size) },
                    });
                },
                BindGroupEntryDescriptor::Texture { binding, texture } => {
                    if !self.textures.contains_key(&texture.0) {
                        proof { lemma_entry_fault_stays(*self, es, i + 1, es.len() as int); }
                        return Err(Error::fatal(ErrorKind::Unsupported("texture not found for bind group")));
                    }
                    entries.push(GpuBindGroupEntry::TextureView { binding, texture });
                },
            }
            i = i + 1;
            assert(entries@ =~= es.subrange(0, i as int).map_values(|e: BindGroupEntryDescriptor| spec_bind_group_entry(e)));
        }
        assert(es.subrange(0, i as int) =~= es);
        Ok(entries)
    }
}

/// A GPU object to create, in the order the backend creates them.
#[derive(Clone, Debug, PartialEq, Eq)]
pub enum CreateAction {
    Mesh { id: MeshId, vertex_buffer: BufferUpload, index_buffer: BufferUpload },
    Texture { id: TextureId, plan: TexturePlan },
    Buffer { id: BufferId, buffer: BufferCreation },
    BindGroupLayout { id: BindGroupLayoutId, entries: Vec<GpuBindGroupLayoutEntry> },
    BindGroup { id: BindGroupId, layout: BindGroupLayoutId, entries: Vec<GpuBindGroupEntry> },
    ShaderModule(ShaderModuleCreation),
    ComputePipeline { id: ComputePipelineId, plan: ComputePipelinePlan },
}

/// The kinds of resources the storage holds.
#[derive(Clone, Copy, Debug, PartialEq, Eq, Hash, Structural)]
pub enum ResourceKind {
    Mesh,
    Material,
    Texture,
    Buffer,
    BindGroupLayout,
    BindGroup,
    ComputePipeline,
}

/// Whether `b` holds the same resources as `a` except possibly those of
/// kind `k`.
pub open spec fn same_except(a: ResourceStorage, b: ResourceStorage, k: ResourceKind) -> bool {
    &&& k != ResourceKind::Mesh ==> a.meshes@ == b.meshes@
    &&& k != ResourceKind::Material ==> a.materials@ == b.materials@
    &&& k != ResourceKind::Texture ==> a.textures@ == b.textures@
    &&& k != ResourceKind::Buffer ==> a.buffers@ == b.buffers@
    &&& k != ResourceKind::BindGroupLayout ==> a.bind_group_layouts@ == b.bind_group_layouts@
    &&& k != ResourceKind::BindGroup ==> a.bind_groups@ == b.bind_groups@
    &&& k != ResourceKind::ComputePipeline ==> a.compute_pipelines@ == b.compute_pipelines@
}

/// Whether a creation descriptor can be handled without a panic, with the
/// shader keys `keys` cached: a mesh is within limits, and a compute
/// shader with an entry point that is not cached and is compiled has SPIR-V
/// that starts with the magic number.
pub open spec fn create_descriptor_ok(keys: Set<u64>, d: ResourceCreateDescriptor) -> bool {
    match d {
        ResourceCreateDescriptor::Mesh { mesh, .. } => mesh_within_limits(mesh),
        ResourceCreateDescriptor::ComputePipeline { pipeline, .. } => pipeline.shader.entry_point@.len() != 0
            ==> request_safe(keys, pipeline.shader),
        _ => true,
    }
}

/// How creating the resource `d` changes the storage (`s0` to `s1`) and
/// the shader module keys (`k0` to `k1`), what it asks the GPU to create,
/// and what it returns. A refused resource changes nothing and creates
/// nothing; an accepted one is recorded under its id (replacing what was
/// there) and returned as a handle.
pub open spec fn create_step(
    s0: ResourceStorage,
    k0: Set<u64>,
    d: ResourceCreateDescriptor,
    s1: ResourceStorage,
    k1: Set<u64>,
    actions: Seq<CreateAction>,
    r: Result<ResourceHandle, Error>,
) -> bool {
    match d {
        ResourceCreateDescriptor::Mesh { id, mesh } => k1 == k0 && match spec_mesh_error(mesh) {
            Some(e) => r == Err::<ResourceHandle, Error>(e) && same_storage(s0, s1) && actions.len() == 0,
            None => {
                &&& r == Ok::<ResourceHandle, Error>(ResourceHandle::Mesh(MeshId(id)))
                &&& same_except(s0, s1, ResourceKind::Mesh)
                &&& s1.meshes@ == s0.meshes@.insert(id, s1.meshes@[id])
                &&& actions.len() == 1
                &&& actions[0] matches CreateAction::Mesh { id: aid, vertex_buffer, index_buffer }
                    && aid == MeshId(id)
                    && is_upload_of(vertex_buffer, vertex_buffer_usage(), mesh_vertex_bytes(mesh))
                    && is_upload_of(index_buffer, index_buffer_usage(), mesh.index_data@)
                &&& mesh_info_of(mesh, s1.meshes@[id])
            },
        },
        ResourceCreateDescriptor::Material { id, material } => k1 == k0 && actions.len() == 0 && match material_fault(material) {
            Some(e) => r == Err::<ResourceHandle, Error>(e) && same_storage(s0, s1),
            None => {
                &&& r == Ok::<ResourceHandle, Error>(ResourceHandle::Material(MaterialId(id)))
                &&& same_except(s0, s1, ResourceKind::Material)
                &&& s1.materials@ == s0.materials@.insert(id, material)
            },
        },
        ResourceCreateDescriptor::Texture { id, texture } => {
            let format = spec_map_texture_format(texture.format);
            let width = at_least_one(texture.width);
            let height = at_least_one(texture.height);
            k1 == k0 && match spec_texture_upload(format, width, height, texture.data@.len()) {
                Err(e) => r == Err::<ResourceHandle, Error>(e) && same_storage(s0, s1) && actions.len() == 0,
                Ok(upload) => {
                    &&& r == Ok::<ResourceHandle, Error>(ResourceHandle::Texture(TextureId(id)))
                    &&& same_except(s0, s1, ResourceKind::Texture)
                    &&& s1.textures@ == s0.textures@.insert(id, TextureInfo { format, width, height })
                    &&& actions.len() == 1
                    &&& actions[0] matches CreateAction::Texture { id: aid, plan }
                        && aid == TextureId(id) && plan.upload == upload && plan.width == width
                        && plan.height == height && plan.format == format && plan.data@ == texture.data@
                },
            }
        },
        ResourceCreateDescriptor::Buffer { id, buffer } => {
            &&& k1 == k0
            &&& r == Ok::<ResourceHandle, Error>(ResourceHandle::Buffer(BufferId(id)))
            &&& same_except(s0, s1, ResourceKind::Buffer)
            &&& s1.buffers@ == s0.buffers@.insert(id, buffer.size)
            &&& actions.len() == 1
            &&& actions[0] matches CreateAction::Buffer { id: aid, buffer: c }
                && aid == BufferId(id) && is_buffer_creation(buffer, c)
        },
        ResourceCreateDescriptor::BindGroupLayout { id, layout } => {
            &&& k1 == k0
            &&& r == Ok::<ResourceHandle, Error>(ResourceHandle::BindGroupLayout(BindGroupLayoutId(id)))
            &&& same_except(s0, s1, ResourceKind::BindGroupLayout)
            &&& s1.bind_group_layouts@ == s0.bind_group_layouts@.insert(id)
            &&& actions.len() == 1
            &&& actions[0] matches CreateAction::BindGroupLayout { id: aid, entries }
                && aid == BindGroupLayoutId(id)
                && entries@ == layout.entries@.map_values(|e: BindGroupLayoutEntry| spec_map_layout_entry(e))
        },
        ResourceCreateDescriptor::BindGroup { id, group } => k1 == k0 && match bind_group_fault(s0, group) {
            Some(e) => r == Err::<ResourceHandle, Error>(e) && same_storage(s0, s1) && actions.len() == 0,
            None => {
                &&& r == Ok::<ResourceHandle, Error>(ResourceHandle::BindGroup(BindGroupId(id)))
                &&& same_except(s0, s1, ResourceKind::BindGroup)
                &&& s1.bind_groups@ == s0.bind_groups@.insert(id)
                &&& actions.len() == 1
                &&& actions[0] matches CreateAction::BindGroup { id: aid, layout, entries }
                    && aid == BindGroupId(id) && layout == group.layout
                    && entries@ == group.entries@.map_values(|e: BindGroupEntryDescriptor| spec_bind_group_entry(e))
            },
        },
        ResourceCreateDescriptor::ComputePipeline { id, pipeline } => {
            let shader = pipeline.shader;
            let label: &'static str = "rotex-wgpu-compute-shader";
            if shader.entry_point@.len() == 0 {
                &&& r == Err::<ResourceHandle, Error>(recoverable_error(ErrorKind::InvalidDescriptor("compute_shader_entry_missing")))
                &&& same_storage(s0, s1) && k1 == k0 && actions.len() == 0
            } else {
                match r {
                    Err(e) => shader_request(k0, k1, label, shader, Err(e)) && same_storage(s0, s1) && actions.len() == 0,
                    Ok(h) => {
                        &&& h == ResourceHandle::ComputePipeline(ComputePipelineId(id))
                        &&& (actions.len() == 1 || actions.len() == 2)
                        &&& actions.len() == 2 ==> actions[0] is ShaderModule
                        &&& shader_request(k0, k1, label, shader, Ok(
                            if actions.len() == 2 { Some(actions[0]->ShaderModule_0) } else { None },
                        ))
                        &&& same_except(s0, s1, ResourceKind::ComputePipeline)
                        &&& actions.last() matches CreateAction::ComputePipeline { id: aid, plan }
                            && aid == ComputePipelineId(id)
                            && are_set_layouts(shader.layout, plan.set_layouts@)
                            && plan.shader_key == shader.payload_hash
                            && plan.entry_point@ == shader.entry_point@
                            && s1.compute_pipelines@ == s0.compute_pipelines@.insert(id, plan.set_layouts@.len() as usize)
                    },
                }
            }
        },
    }
}

impl ResourceStorage {
    /// Creates one resource: checks it, plans the GPU objects it needs, and
    /// records it under its id.
    pub fn create_resource(&mut self, shaders: &mut ShaderModuleCache, d: ResourceCreateDescriptor)
        -> (out: (Vec<CreateAction>, Result<ResourceHandle, Error>))
        requires
            create_descriptor_ok(old(shaders).view(), d),
        ensures
            create_step(*old(self), old(shaders).view(), d, *final(self), final(shaders).view(), out.0@, out.1),
    {
        let mut actions: Vec<CreateAction> = Vec::new();
        match d {
            ResourceCreateDescriptor::Mesh { id, mesh } => {
                match create_wgpu_mesh(&mesh) {
                    Err(e) => (actions, Err(e)),
                    Ok(plan) => {
                        let info = MeshInfo {
                            index_format: plan.index_format,
                            index_count: plan.index_count,
                            vertex_layout_id: plan.vertex_layout_id,
                            vertex_layout: plan.vertex_layout,
                        };
                        self.meshes.insert(id, info);
                        actions.push(CreateAction::Mesh {
                            id: MeshId(id),
                            vertex_buffer: plan.vertex_buffer,
                            index_buffer: plan.index_buffer,
                        });
                        (actions, Ok(ResourceHandle::Mesh(MeshId(id))))
                    },
                }
            },
            ResourceCreateDescriptor::Material { id, material } => {
                match validate_material_descriptor(&material) {
                    Err(e) => (actions, Err(e)),
                    Ok(()) => {
                        self.materials.insert(id, material);
                        (actions, Ok(ResourceHandle::Material(MaterialId(id))))
                    },
                }
            },
            ResourceCreateDescriptor::Texture { id, texture } => {
                match create_wgpu_texture(texture) {
                    Err(e) => (actions, Err(e)),
                    Ok(plan) => {
                        let info = TextureInfo { format: plan.format, width: plan.width, height: plan.height };
                        self.textures.insert(id, info);
                        actions.push(CreateAction::Texture { id: TextureId(id), plan });
                        (actions, Ok(ResourceHandle::Texture(TextureId(id))))
                    },
                }
            },
            ResourceCreateDescriptor::Buffer { id, buffer } => {
                let creation = plan_buffer_creation(&buffer);
                self.buffers.insert(id, buffer.size);
                actions.push(CreateAction::Buffer { id: BufferId(id), buffer: creation });
                (actions, Ok(ResourceHandle::Buffer(BufferId(id))))
            },
            ResourceCreateDescriptor::BindGroupLayout { id, layout } => {
                let entries = create_bind_group_layout(&layout);
                self.bind_group_layouts.insert(id);
                actions.push(CreateAction::BindGroupLayout { id: BindGroupLayoutId(id), entries });
                (actions, Ok(ResourceHandle::BindGroupLayout(BindGroupLayoutId(id))))
            },
            ResourceCreateDescriptor::BindGroup { id, group } => {
                match self.plan_bind_group(&group) {
                    Err(e) => (actions, Err(e)),
                    Ok(entries) => {
                        self.bind_groups.insert(id);
                        actions.push(CreateAction::BindGroup { id: BindGroupId(id), layout: group.layout, entries });
                        (actions, Ok(ResourceHandle::BindGroup(BindGroupId(id))))
                    },
                }
            },
            ResourceCreateDescriptor::ComputePipeline { id, pipeline } => {
                match create_compute_pipeline(shaders, &pipeline) {
                    Err(e) => (actions, Err(e)),
                    Ok((created, plan)) => {
                        match created {
                            Some(c) => actions.push(CreateAction::ShaderModule(c)),
                            None => {},
                        }
                        self.compute_pipelines.insert(id, plan.set_layouts.len());
                        actions.push(CreateAction::ComputePipeline { id: ComputePipelineId(id), plan });
                        (actions, Ok(ResourceHandle::ComputePipeline(ComputePipelineId(id))))
                    },
                }
            },
        }
    }
}

/// A GPU change that an update asks for.
#[derive(Clone, Debug, PartialEq, Eq)]
pub enum UpdateAction {
    /// Replace the buffers of a mesh.
    Mesh { id: MeshId, vertex_buffer: BufferUpload, index_buffer: BufferUpload },
    /// Copy the first `upload.expected_len` bytes of `data` into a texture.
    WriteTexture { id: TextureId, upload: TextureUploadPlan, data: Vec<u8> },
    /// Drop the render pipelines built for a material.
    DropMaterialPipelines(MaterialId),
}

/// The mesh descriptor an update of a mesh describes.
pub open spec fn updated_mesh(u: ResourceUpdateDescriptor) -> MeshDescriptor
    recommends
        u is Mesh,
{
    MeshDescriptor {
        vertex_streams: u->vertex_streams,
        index_data: u->index_data,
        index_format: u->index_format,
        index_count: u->index_count,
    }
}

/// Whether an update can be handled without a panic: a mesh has a vertex
/// stream and sizes that can be rounded up.
pub open spec fn update_descriptor_ok(u: ResourceUpdateDescriptor) -> bool {
    u is Mesh ==> mesh_within_limits(updated_mesh(u))
}

/// A material with a depth update applied.
pub open spec fn with_depth(m: MaterialDescriptor, depth: Option<bool>) -> MaterialDescriptor {
    match depth {
        Some(d) => MaterialDescriptor { enable_depth: d, ..m },
        None => m,
    }
}

/// A material with a texture update applied.
pub open spec fn with_texture(m: MaterialDescriptor, texture: Option<Option<TextureId>>) -> MaterialDescriptor {
    match texture {
        Some(t) => MaterialDescriptor { texture: t, ..m },
        None => m,
    }
}

/// How applying the update `u` changes the storage (`s0` to `s1`) and the
/// cached pipelines (`p0` to `p1`), what it asks of the GPU and what it
/// returns. A mesh is replaced like a created one; a material must exist,
/// its depth flag is updated, then its texture, which must exist when one
/// is named (if not, the depth update stays and the error is returned),
/// and its pipelines are dropped; a texture must exist and the data must
/// make a valid upload for its format and size.
pub open spec fn update_step(
    s0: ResourceStorage,
    p0: Set<MaterialPipelineKey>,
    u: ResourceUpdateDescriptor,
    s1: ResourceStorage,
    p1: Set<MaterialPipelineKey>,
    actions: Seq<UpdateAction>,
    r: Result<(), Error>,
) -> bool {
    match u {
        ResourceUpdateDescriptor::Mesh { id, .. } => {
            let mesh = updated_mesh(u);
            p1 == p0 && match spec_mesh_error(mesh) {
                Some(e) => r == Err::<(), Error>(e) && same_storage(s0, s1) && actions.len() == 0,
                None => {
                    &&& r is Ok
                    &&& same_except(s0, s1, ResourceKind::Mesh)
                    &&& s1.meshes@ == s0.meshes@.insert(id.0, s1.meshes@[id.0])
                    &&& mesh_info_of(mesh, s1.meshes@[id.0])
                    &&& actions.len() == 1
                    &&& actions[0] matches UpdateAction::Mesh { id: aid, vertex_buffer, index_buffer }
                        && aid == id
                        && is_upload_of(vertex_buffer, vertex_buffer_usage(), mesh_vertex_bytes(mesh))
                        && is_upload_of(index_buffer, index_buffer_usage(), mesh.index_data@)
                },
            }
        },
        ResourceUpdateDescriptor::Material { id, enable_depth, texture } => {
            if !s0.materials@.contains_key(id.0) {
                &&& r == Err::<(), Error>(recoverable_error(ErrorKind::ResourceNotFound("material")))
                &&& same_storage(s0, s1) && p1 == p0 && actions.len() == 0
            } else {
                let m1 = with_depth(s0.materials@[id.0], enable_depth);
                if texture matches Some(Some(t)) && !s0.textures@.contains_key(t.0) {
                    &&& r == Err::<(), Error>(recoverable_error(ErrorKind::ResourceNotFound("texture")))
                    &&& same_except(s0, s1, ResourceKind::Material)
                    &&& s1.materials@ == s0.materials@.insert(id.0, m1)
                    &&& p1 == p0 && actions.len() == 0
                } else {
                    &&& r is Ok
                    &&& same_except(s0, s1, ResourceKind::Material)
                    &&& s1.materials@ == s0.materials@.insert(id.0, with_texture(m1, texture))
                    &&& p1 == p0.filter(|k: MaterialPipelineKey| k.material_id != id)
                    &&& actions == seq![UpdateAction::DropMaterialPipelines(id)]
                }
            }
        },
        ResourceUpdateDescriptor::Texture { id, data } => {
            &&& same_storage(s0, s1) && p1 == p0
            &&& if !s0.textures@.contains_key(id.0) {
                r == Err::<(), Error>(recoverable_error(ErrorKind::ResourceNotFound("texture"))) && actions.len() == 0
            } else {
                let info = s0.textures@[id.0];
                match spec_texture_upload(info.format, info.width, info.height, data@.len()) {
                    Err(e) => r == Err::<(), Error>(e) && actions.len() == 0,
                    Ok(upload) => {
                        &&& r is Ok
                        &&& actions.len() == 1
                        &&& actions[0] matches UpdateAction::WriteTexture { id: aid, upload: up, data: bytes }
                            && aid == id && up == upload && bytes@ == data@
                    },
                }
            }
        },
    }
}

impl ResourceStorage {
    /// Applies one update.
    pub fn update_resource(&mut self, pipelines: &mut PipelineCache, u: ResourceUpdateDescriptor)
        -> (out: (Vec<UpdateAction>, Result<(), Error>))
        requires
            old(pipelines).wf(),
            update_descriptor_ok(u),
        ensures
            final(pipelines).wf(),
            update_step(*old(self), old(pipelines).view(), u, *final(self), final(pipelines).view(), out.0@, out.1),
    {
        let mut actions: Vec<UpdateAction> = Vec::new();
        match u {
            ResourceUpdateDescriptor::Mesh { id, vertex_streams, index_data, index_format, index_count } => {
                let mesh = MeshDescriptor { vertex_streams, index_data, index_format, index_count };
                match create_wgpu_mesh(&mesh) {
                    Err(e) => (actions, Err(e)),
                    Ok(plan) => {
                        let info = MeshInfo {
                            index_format: plan.index_format,
                            index_count: plan.index_count,
                            vertex_layout_id: plan.vertex_layout_id,
                            vertex_layout: plan.vertex_layout,
                        };
                        self.meshes.insert(id.0, info);
                        actions.push(UpdateAction::Mesh {
                            id,
                            vertex_buffer: plan.vertex_buffer,
                            index_buffer: plan.index_buffer,
                        });
                        (actions, Ok(()))
                    },
                }
            },
            ResourceUpdateDescriptor::Material { id, enable_depth, texture } => {
                let ghost m0 = self.materials@[id.0];
                let ghost before = self.materials@;
                match self.materials.remove(&id.0) {
                    None => {
                        assert(self.materials@ =~= before);
                        (actions, Err(Error::recoverable(ErrorKind::ResourceNotFound("material"))))
                    },
                    Some(mut material) => {
                        if let Some(depth) = enable_depth {
                            material.enable_depth = depth;
                        }
                        assert(material == with_depth(m0, enable_depth));
                        if let Some(texture_update) = texture {
                            if let Some(texture_id) = texture_update {
                                if !self.textures.contains_key(&texture_id.0) {
                                    self.materials.insert(id.0, material);
                                    assert(self.materials@ =~= before.insert(id.0, with_depth(m0, enable_depth)));
                                    return (actions, Err(Error::recoverable(ErrorKind::ResourceNotFound("texture"))));
                                }
                            }
                            material.texture = texture_update;
                        }
                        assert(material == with_texture(with_depth(m0, enable_depth), texture));
                        self.materials.insert(id.0, material);
                        assert(self.materials@ =~= before.insert(id.0, with_texture(with_depth(m0, enable_depth), texture)));
                        pipelines.remove_material(id);
                        actions.push(UpdateAction::DropMaterialPipelines(id));
                        assert(actions@ =~= seq![UpdateAction::DropMaterialPipelines(id)]);
                        (actions, Ok(()))
                    },
                }
            },
            ResourceUpdateDescriptor::Texture { id, data } => {
                let info = match self.textures.get(&id.0) {
                    None => {
                        return (actions, Err(Error::recoverable(ErrorKind::ResourceNotFound("texture"))));
                    },
                    Some(info) => *info,
                };
                match validate_texture_upload(info.format, info.width, info.height, data.as_slice()) {
                    Err(e) => (actions, Err(e)),
                    Ok(upload) => {
                        actions.push(UpdateAction::WriteTexture { id, upload, data });
                        (actions, Ok(()))
                    },
                }
            },
        }
    }
}

} // verus!
