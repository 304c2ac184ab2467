//! Recording a frame: the decisions of each command, and the GPU work they
//! ask for.
use vstd::prelude::*;
use crate::bindings::{SetLayout, are_set_layouts, build_material_set_layouts};
use crate::bridge::{ActiveGraphicsPass, BridgeState, SwapchainInfo};
use crate::error::{Error, ErrorKind, fatal_error, recoverable_error, surface_not_attached_error};
use crate::pipeline::MaterialPipelineKey;
use crate::compute::{ComputeBindGroupKey, ComputeDispatchPlan, dispatch_step, record_compute_dispatch};
use crate::resources::ResourceStorage;
use crate::shader::{ShaderModuleCreation, compiles_to, package_has_fault, package_is_compilable, request_safe, shader_fault};
use crate::types::{
    BindGroupId, BufferId, ColorAttachmentLoad, CullMode, DepthAttachmentLoad, GpuTextureFormat, IndexFormat, MaterialId,
    MeshId, PassColorTarget, RhiCommand, ShaderPackage, VertexAttribute,
    VertexStepMode,
};
use crate::vertex::GpuVertexLayout;

verus! {

broadcast use vstd::std_specs::hash::group_hash_axioms;

/// A render pipeline to create and cache under `key`.
#[derive(Clone, Debug, PartialEq, Eq)]
pub struct RenderPipelinePlan {
    pub key: MaterialPipelineKey,
    pub set_layouts: Vec<SetLayout>,
    pub vertex_layout: GpuVertexLayout,
    pub vertex_shader: u64,
    pub vertex_entry: String,
    pub fragment_shader: u64,
    pub fragment_entry: String,
    pub cull_mode: CullMode,
    pub depth_enabled: bool,
    /// The format of the color target: the surface's.
    pub color_format: wgpu::TextureFormat,
    /// The depth test, when the pipeline tests depth.
    pub depth_test: Option<DepthTestPlan>,
}

/// How fragments are compared with the depth target.
#[derive(Clone, Copy, Debug, PartialEq, Eq, Hash, Structural)]
pub enum DepthCompare {
    /// A fragment passes when it is at most as deep as the stored depth.
    LessEqual,
}

/// The depth test of a render pipeline: the depth target's format,
/// whether passing fragments write their depth, and the comparison.
#[derive(Clone, Copy, Debug, PartialEq, Eq, Hash, Structural)]
pub struct DepthTestPlan {
    pub format: GpuTextureFormat,
    pub write_enabled: bool,
    pub compare: DepthCompare,
}

/// The depth test of the pipelines that test depth: a `Depth24Plus`
/// target, written by passing fragments, compared with `LessEqual`.
pub open spec fn depth_test_plan() -> DepthTestPlan {
    DepthTestPlan { format: GpuTextureFormat::Depth24Plus, write_enabled: true, compare: DepthCompare::LessEqual }
}

/// A copy of a vertex layout.
pub fn copy_vertex_layout(layout: &GpuVertexLayout) -> (c: GpuVertexLayout)
    ensures
        c.array_stride == layout.array_stride,
        c.attributes@ == layout.attributes@,
        c.step_mode == layout.step_mode,
{
    let mut attributes: Vec<VertexAttribute> = Vec::with_capacity(layout.attributes.len());
    let mut i: usize = 0;
    while i < layout.attributes.len()
        invariant
            i <= layout.attributes@.len(),
            attributes@ == layout.attributes@.subrange(0, i as int),
        decreases layout.attributes@.len() - i,
    {
        attributes.push(layout.attributes[i]);
        i = i + 1;
    }
    assert(attributes@ =~= layout.attributes@);
    GpuVertexLayout { array_stride: layout.array_stride, attributes, step_mode: layout.step_mode }
}

/// How looking up a package's module changes the cached shader keys, and
/// the package's fault when it is not cached and cannot be compiled.
pub open spec fn spec_shader_lookup(keys: Set<u64>, p: ShaderPackage) -> (Set<u64>, Option<Error>) {
    if keys.contains(p.payload_hash) {
        (keys, None)
    } else {
        match shader_fault(p) {
            Some(e) => (keys, Some(e)),
            None => (keys.insert(p.payload_hash), None),
        }
    }
}

/// How finding the pipeline for a draw changes the shader keys and the
/// pipeline keys, and what it returns: the material must exist; the
/// pipeline is cached by material, layout identity and whether both the
/// draw and the material test depth; a missing pipeline is built, which
/// compiles the vertex then the fragment shader and needs a surface.
pub open spec fn spec_pipeline_for_draw(
    st: ResourceStorage,
    attached: bool,
    sh: Set<u64>,
    pp: Set<MaterialPipelineKey>,
    material: MaterialId,
    layout_id: u64,
    depth: bool,
) -> (Set<u64>, Set<MaterialPipelineKey>, Result<MaterialPipelineKey, Error>) {
    if !st.materials@.contains_key(material.0) {
        (sh, pp, Err(recoverable_error(ErrorKind::ResourceNotFound("material"))))
    } else {
        let m = st.materials@[material.0];
        let key = MaterialPipelineKey {
            material_id: material,
            vertex_layout_id: layout_id,
            depth_enabled: depth && m.enable_depth,
        };
        if pp.contains(key) {
            (sh, pp, Ok(key))
        } else {
            let (sh1, ev) = spec_shader_lookup(sh, m.shaders.vertex);
            if ev is Some {
                (sh1, pp, Err(ev->Some_0))
            } else {
                let (sh2, ef) = spec_shader_lookup(sh1, m.shaders.fragment);
                if ef is Some {
                    (sh2, pp, Err(ef->Some_0))
                } else if !attached {
                    (sh2, pp, Err(fatal_error(ErrorKind::SurfaceNotAttached)))
                } else {
                    (sh2, pp.insert(key), Ok(key))
                }
            }
        }
    }
}

/// Whether finding the pipeline for a draw cannot panic: a cached
/// pipeline compiles nothing; otherwise the vertex shader, when it is not
/// cached, and then the fragment shader, when the vertex shader was found
/// and the fragment shader is not cached, must be compilable.
pub open spec fn draw_safe(
    st: ResourceStorage,
    sh: Set<u64>,
    pp: Set<MaterialPipelineKey>,
    material: MaterialId,
    layout_id: u64,
    depth: bool,
) -> bool {
    st.materials@.contains_key(material.0) ==> {
        let m = st.materials@[material.0];
        let key = MaterialPipelineKey {
            material_id: material,
            vertex_layout_id: layout_id,
            depth_enabled: depth && m.enable_depth,
        };
        let (sh1, ev) = spec_shader_lookup(sh, m.shaders.vertex);
        !pp.contains(key) ==> {
            &&& request_safe(sh, m.shaders.vertex)
            &&& ev is None ==> request_safe(sh1, m.shaders.fragment)
        }
    }
}

/// Whether `p` builds the pipeline of its key for the layout `layout` on
/// the surface `sc`: the material's set layouts and shaders, its cull
/// mode, depth testing as the key says, and the surface's color format.
pub open spec fn is_pipeline_plan(st: ResourceStorage, sc: Option<SwapchainInfo>, layout: GpuVertexLayout, p: RenderPipelinePlan) -> bool {
    let m = st.materials@[p.key.material_id.0];
    &&& st.materials@.contains_key(p.key.material_id.0)
    &&& are_set_layouts(m.shaders.layout, p.set_layouts@)
    &&& p.vertex_layout.array_stride == layout.array_stride
    &&& p.vertex_layout.attributes@ == layout.attributes@
    &&& p.vertex_layout.step_mode == layout.step_mode
    &&& p.vertex_shader == m.shaders.vertex.payload_hash
    &&& p.vertex_entry@ == m.shaders.vertex.entry_point@
    &&& p.fragment_shader == m.shaders.fragment.payload_hash
    &&& p.fragment_entry@ == m.shaders.fragment.entry_point@
    &&& p.cull_mode == m.cull_mode
    &&& p.depth_enabled == p.key.depth_enabled
    &&& p.depth_test == if p.key.depth_enabled { Some(depth_test_plan()) } else { None }
    &&& sc is Some && p.color_format == sc->Some_0.format
}

/// Whether `c` compiles one of the shaders of the material `material`.
pub open spec fn is_material_shader_creation(st: ResourceStorage, material: MaterialId, c: ShaderModuleCreation) -> bool {
    let m = st.materials@[material.0];
    ||| c.key == m.shaders.vertex.payload_hash && c.label == "rotex-wgpu-vertex-shader"
        && compiles_to(m.shaders.vertex, c.source)
    ||| c.key == m.shaders.fragment.payload_hash && c.label == "rotex-wgpu-fragment-shader"
        && compiles_to(m.shaders.fragment, c.source)
}

/// The GPU objects that finding a draw's pipeline creates.
#[derive(Clone, Debug, PartialEq, Eq)]
pub enum PipelineCreation {
    ShaderModule(ShaderModuleCreation),
    RenderPipeline(RenderPipelinePlan),
}

/// Whether `c` creates the shader module of key `k`.
pub open spec fn creates_shader(c: PipelineCreation, k: u64) -> bool {
    c matches PipelineCreation::ShaderModule(m) && m.key == k
}

/// Whether `c` creates the render pipeline of key `k`.
pub open spec fn creates_pipeline(c: PipelineCreation, k: MaterialPipelineKey) -> bool {
    c matches PipelineCreation::RenderPipeline(p) && p.key == k
}

/// Whether `c` is a module of a shader of `material` whose key was not
/// cached in `sh0` and is in `sh1`.
pub open spec fn new_shader_ok(st: ResourceStorage, material: MaterialId, sh0: Set<u64>, sh1: Set<u64>, c: PipelineCreation) -> bool {
    match c {
        PipelineCreation::ShaderModule(m) => is_material_shader_creation(st, material, m) && sh1.contains(m.key)
            && !sh0.contains(m.key),
        _ => false,
    }
}

/// Whether `created` are the GPU objects created while finding the
/// pipeline of a draw of `material` with `layout`: the shader modules of
/// the keys newly cached, the vertex shader's before the fragment
/// shader's, then the pipeline when its key is newly cached.
pub open spec fn pipeline_creations_ok(
    st: ResourceStorage,
    sc: Option<SwapchainInfo>,
    material: MaterialId,
    layout: GpuVertexLayout,
    sh0: Set<u64>,
    sh1: Set<u64>,
    pp0: Set<MaterialPipelineKey>,
    pp1: Set<MaterialPipelineKey>,
    created: Seq<PipelineCreation>,
) -> bool {
    &&& forall|i: int| 0 <= i < created.len() ==> match #[trigger] created[i] {
        PipelineCreation::ShaderModule(c) => is_material_shader_creation(st, material, c)
            && sh1.contains(c.key) && !sh0.contains(c.key),
        PipelineCreation::RenderPipeline(p) => is_pipeline_plan(st, sc, layout, p) && p.key.material_id == material
            && pp1.contains(p.key) && !pp0.contains(p.key) && i == created.len() - 1,
    }
    &&& forall|k: u64| sh1.contains(k) && !sh0.contains(k) ==> exists|i: int| 0 <= i < created.len()
        && creates_shader(#[trigger] created[i], k)
    &&& forall|k: MaterialPipelineKey| pp1.contains(k) && !pp0.contains(k) ==> exists|i: int| 0 <= i < created.len()
        && creates_pipeline(#[trigger] created[i], k)
    &&& forall|i: int, j: int| #![trigger created[i], created[j]]
        0 <= i < j < created.len() && created[i] is ShaderModule && created[j] is ShaderModule
            ==> created[i]->ShaderModule_0.label == "rotex-wgpu-vertex-shader"
            && created[j]->ShaderModule_0.label == "rotex-wgpu-fragment-shader"
}

impl BridgeState {
    /// Finds the pipeline for a draw of `material` with a mesh of layout
    /// `layout` (identity `layout_id`), building and caching it when it is
    /// missing; see `spec_pipeline_for_draw`. Returns the GPU objects it
    /// needs created and the pipeline's key.
    pub fn rhi_pipeline_for_draw(
        &mut self,
        material_id: MaterialId,
        vertex_layout_id: u64,
        vertex_layout: &GpuVertexLayout,
        depth_enabled: bool,
    ) -> (out: (Vec<PipelineCreation>, Result<MaterialPipelineKey, Error>))
        requires
            old(self).wf(),
            draw_safe(
                old(self).resources,
                old(self).shader_modules.view(),
                old(self).pipeline_cache.view(),
                material_id,
                vertex_layout_id,
                depth_enabled,
            ),
        ensures
            final(self).wf(),
            final(self).resources == old(self).resources,
            final(self).compute_bind_groups == old(self).compute_bind_groups,
            final(self).swapchain == old(self).swapchain,
            final(self).recording_encoder == old(self).recording_encoder,
            final(self).surface_texture == old(self).surface_texture,
            final(self).current_frame_index == old(self).current_frame_index,
            final(self).active_pass == old(self).active_pass,
            final(self).depth_target == old(self).depth_target,
            final(self).render_bundle == old(self).render_bundle,
            final(self).pending_acquire_skips == old(self).pending_acquire_skips,
            (final(self).shader_modules.view(), final(self).pipeline_cache.view(), out.1) == spec_pipeline_for_draw(
                old(self).resources,
                old(self).swapchain is Some,
                old(self).shader_modules.view(),
                old(self).pipeline_cache.view(),
                material_id,
                vertex_layout_id,
                depth_enabled,
            ),
            pipeline_creations_ok(
                old(self).resources,
                old(self).swapchain,
                material_id,
                *vertex_layout,
                old(self).shader_modules.view(),
                final(self).shader_modules.view(),
                old(self).pipeline_cache.view(),
                final(self).pipeline_cache.view(),
                out.0@,
            ),
    {
        let mut created: Vec<PipelineCreation> = Vec::new();
        let material = match self.resources.materials.get(&material_id.0) {
            None => {
                return (created, Err(Error::recoverable(ErrorKind::ResourceNotFound("material"))));
            },
            Some(m) => m,
        };
        let key = MaterialPipelineKey {
            material_id,
            vertex_layout_id,
            depth_enabled: depth_enabled && material.enable_depth,
        };
        if self.pipeline_cache.contains(&key) {
            return (created, Ok(key));
        }
        let ghost sh0 = self.shader_modules.view();
        let ghost m = *material;
        assert(m == old(self).resources.materials@[material_id.0]);
        let vertex = self.shader_modules.get_or_create_shader_module("rotex-wgpu-vertex-shader", &material.shaders.vertex);
        match vertex {
            Err(e) => {
                assert(created@.len() == 0);
                return (created, Err(e));
            },
            Ok(Some(c)) => {
                created.push(PipelineCreation::ShaderModule(c));
                assert(creates_shader(created@[0], c.key));
            },
            Ok(None) => {},
        }
        let ghost sh1 = self.shader_modules.view();
        let ghost after_vertex = created@;
        assert(forall|k: u64| sh1.contains(k) && !sh0.contains(k) ==> k == m.shaders.vertex.payload_hash);
        assert(forall|k: u64| sh1.contains(k) && !sh0.contains(k) ==> after_vertex.len() == 1
            && creates_shader(after_vertex[0], k));
        assert(forall|i: int| 0 <= i < after_vertex.len() ==> new_shader_ok(old(self).resources, material_id, sh0, sh1, #[trigger] after_vertex[i]));
        let fragment = self.shader_modules.get_or_create_shader_module("rotex-wgpu-fragment-shader", &material.shaders.fragment);
        match fragment {
            Err(e) => {
                assert(self.shader_modules.view() == sh1);
                assert forall|k: u64| self.shader_modules.view().contains(k) && !sh0.contains(k) implies exists|i: int|
                    0 <= i < created@.len() && creates_shader(#[trigger] created@[i], k) by {
                    assert(creates_shader(created@[0], k));
                }
                return (created, Err(e));
            },
            Ok(Some(c)) => {
                created.push(PipelineCreation::ShaderModule(c));
            },
            Ok(None) => {},
        }
        let ghost sh2 = self.shader_modules.view();
        let ghost after_fragment = created@;
        assert forall|i: int| 0 <= i < after_fragment.len() implies new_shader_ok(old(self).resources, material_id, sh0, sh2, #[trigger] after_fragment[i]) by {
            if i < after_vertex.len() {
                assert(after_fragment[i] == after_vertex[i]);
            }
        }
        assert forall|k: u64| sh2.contains(k) && !sh0.contains(k) implies exists|i: int|
            0 <= i < after_fragment.len() && creates_shader(#[trigger] after_fragment[i], k) by {
            if sh1.contains(k) {
                assert(creates_shader(after_fragment[0], k));
            } else {
                assert(creates_shader(after_fragment[after_fragment.len() - 1], k));
            }
        }
        let color_format = match self.swapchain {
            None => {
                return (created, Err(surface_not_attached_error()));
            },
            Some(sc) => sc.format,
        };
        let depth_test = if key.depth_enabled {
            Some(DepthTestPlan { format: GpuTextureFormat::Depth24Plus, write_enabled: true, compare: DepthCompare::LessEqual })
        } else {
            None
        };
        let plan = RenderPipelinePlan {
            key,
            set_layouts: build_material_set_layouts(&material.shaders.layout),
            vertex_layout: copy_vertex_layout(vertex_layout),
            vertex_shader: material.shaders.vertex.payload_hash(),
            vertex_entry: material.shaders.vertex.entry_point.clone(),
            fragment_shader: material.shaders.fragment.payload_hash(),
            fragment_entry: material.shaders.fragment.entry_point.clone(),
            cull_mode: material.cull_mode,
            depth_enabled: key.depth_enabled,
            color_format,
            depth_test,
        };
        self.pipeline_cache.insert(key);
        created.push(PipelineCreation::RenderPipeline(plan));
        assert forall|i: int| 0 <= i < created@.len() - 1 implies created@[i] == after_fragment[i] by {}
        assert(creates_pipeline(created@[created@.len() - 1], key));
        assert forall|k: u64| sh2.contains(k) && !sh0.contains(k) implies exists|i: int|
            0 <= i < created@.len() && creates_shader(#[trigger] created@[i], k) by {
            let i = choose|i: int| 0 <= i < after_fragment.len() && creates_shader(after_fragment[i], k);
            assert(created@[i] == after_fragment[i]);
        }
        (created, Ok(key))
    }
}

/// One draw of a render pass: its pipeline, buffers and draw arguments.
#[derive(Clone, Copy, Debug, PartialEq, Eq, Hash, Structural)]
pub struct DrawOp {
    pub pipeline: MaterialPipelineKey,
    pub vertex_buffer: Option<MeshId>,
    pub index_buffer: Option<MeshId>,
    pub index_format: IndexFormat,
    pub index_count: u32,
    pub instance_count: u32,
    pub first_index: u32,
    pub vertex_offset: i32,
    pub first_instance: u32,
}

/// A bind group set for a draw: the draw's index, the set index, the group.
pub type DrawBinding = (usize, u32, BindGroupId);

/// A draw of pipeline `key` that nothing has been set for yet.
pub open spec fn new_draw(key: MaterialPipelineKey) -> DrawOp {
    DrawOp {
        pipeline: key,
        vertex_buffer: None,
        index_buffer: None,
        index_format: IndexFormat::Uint32,
        index_count: 0,
        instance_count: 0,
        first_index: 0,
        vertex_offset: 0,
        first_instance: 0,
    }
}

/// The draws with the last one changed by `f`, or unchanged when there
/// are none.
pub open spec fn update_last(ops: Seq<DrawOp>, f: spec_fn(DrawOp) -> DrawOp) -> Seq<DrawOp> {
    if ops.len() == 0 { ops } else { ops.update(ops.len() - 1, f(ops.last())) }
}

/// The bindings that a `BindDescriptorSets` command adds to draw `op`.
pub open spec fn set_bindings(op: int, first_set: u32, groups: Seq<BindGroupId>) -> Seq<DrawBinding> {
    Seq::new(groups.len(), |i: int| (op as usize, (first_set + i) as u32, groups[i]))
}

/// How recording the draws of a render pass, from command `pos` on,
/// changes the shader keys, the pipeline keys, the draws and their bind
/// groups, and where it ends: at the first `EndRenderPass` (its position),
/// or with the first error. Pipelines are bound as new draws; bind groups,
/// buffers and arguments apply to the last draw; other commands are
/// ignored.
pub open spec fn spec_record(
    st: ResourceStorage,
    attached: bool,
    sh: Set<u64>,
    pp: Set<MaterialPipelineKey>,
    ops: Seq<DrawOp>,
    binds: Seq<DrawBinding>,
    cmds: Seq<RhiCommand>,
    pos: int,
) -> (Set<u64>, Set<MaterialPipelineKey>, Seq<DrawOp>, Seq<DrawBinding>, Result<int, Error>)
    decreases cmds.len() - pos,
{
    if pos < 0 || pos >= cmds.len() {
        (sh, pp, ops, binds, Err(fatal_error(ErrorKind::Unsupported("missing EndRenderPass command"))))
    } else {
        match cmds[pos] {
            RhiCommand::EndRenderPass => (sh, pp, ops, binds, Ok(pos)),
            RhiCommand::BindGraphicsPipeline { material, mesh, depth_enabled } => {
                if !st.meshes@.contains_key(mesh.0) {
                    (sh, pp, ops, binds, Err(recoverable_error(ErrorKind::ResourceNotFound("mesh"))))
                } else {
                    let info = st.meshes@[mesh.0];
                    let (sh1, pp1, r) = spec_pipeline_for_draw(st, attached, sh, pp, material, info.vertex_layout_id, depth_enabled);
                    match r {
                        Err(e) => (sh1, pp1, ops, binds, Err(e)),
                        Ok(key) => spec_record(st, attached, sh1, pp1, ops.push(new_draw(key)), binds, cmds, pos + 1),
                    }
                }
            },
            RhiCommand::BindDescriptorSets { first_set, bind_groups, .. } => {
                if exists|i: int| 0 <= i < bind_groups@.len() && !st.bind_groups@.contains(#[trigger] bind_groups@[i].0) {
                    (sh, pp, ops, binds, Err(fatal_error(ErrorKind::Unsupported("bind group not found"))))
                } else {
                    let binds1 = if ops.len() > 0 { binds + set_bindings(ops.len() - 1, first_set, bind_groups@) } else { binds };
                    spec_record(st, attached, sh, pp, ops, binds1, cmds, pos + 1)
                }
            },
            RhiCommand::SetVertexBuffers { mesh, .. } => {
                if !st.meshes@.contains_key(mesh.0) {
                    (sh, pp, ops, binds, Err(recoverable_error(ErrorKind::ResourceNotFound("mesh"))))
                } else {
                    spec_record(st, attached, sh, pp, update_last(ops, |op: DrawOp| DrawOp { vertex_buffer: Some(mesh), ..op }), binds, cmds, pos + 1)
                }
            },
            RhiCommand::SetIndexBuffer { mesh } => {
                if !st.meshes@.contains_key(mesh.0) {
                    (sh, pp, ops, binds, Err(recoverable_error(ErrorKind::ResourceNotFound("mesh"))))
                } else {
                    let format = st.meshes@[mesh.0].index_format;
                    spec_record(st, attached, sh, pp, update_last(ops, |op: DrawOp| DrawOp { index_buffer: Some(mesh), index_format: format, ..op }), binds, cmds, pos + 1)
                }
            },
            RhiCommand::DrawIndexed { index_count, instance_count, first_index, vertex_offset, first_instance } => {
                spec_record(st, attached, sh, pp, update_last(ops, |op: DrawOp| DrawOp {
                    index_count,
                    instance_count,
                    first_index,
                    vertex_offset,
                    first_instance,
                    ..op
                }), binds, cmds, pos + 1)
            },
            _ => spec_record(st, attached, sh, pp, ops, binds, cmds, pos + 1),
        }
    }
}

/// Whether the set indices that binding `groups` from `first_set` to a
/// draw computes fit a `u32`: each group is found before its index is
/// computed, so only the indices of groups whose predecessors and
/// themselves were found count.
pub open spec fn sets_fit(st: ResourceStorage, first_set: u32, groups: Seq<BindGroupId>) -> bool {
    forall|i: int| 0 <= i < groups.len() && #[trigger] groups_found(st, groups, i + 1) ==> first_set + i <= u32::MAX
}

/// Whether the first `n` groups are all found.
pub open spec fn groups_found(st: ResourceStorage, groups: Seq<BindGroupId>, n: int) -> bool {
    forall|j: int| 0 <= j < n ==> st.bind_groups@.contains(#[trigger] groups[j].0)
}

/// Whether recording the draws of a render pass from command `pos` on
/// cannot panic; it follows `spec_record` step by step, so that only the
/// commands that recording reaches count.
pub open spec fn record_safe(
    st: ResourceStorage,
    attached: bool,
    sh: Set<u64>,
    pp: Set<MaterialPipelineKey>,
    ops: Seq<DrawOp>,
    binds: Seq<DrawBinding>,
    cmds: Seq<RhiCommand>,
    pos: int,
) -> bool
    decreases cmds.len() - pos,
{
    if pos < 0 || pos >= cmds.len() {
        true
    } else {
        match cmds[pos] {
            RhiCommand::EndRenderPass => true,
            RhiCommand::BindGraphicsPipeline { material, mesh, depth_enabled } => {
                if !st.meshes@.contains_key(mesh.0) {
                    true
                } else {
                    let info = st.meshes@[mesh.0];
                    let (sh1, pp1, r) = spec_pipeline_for_draw(st, attached, sh, pp, material, info.vertex_layout_id, depth_enabled);
                    draw_safe(st, sh, pp, material, info.vertex_layout_id, depth_enabled) && match r {
                        Err(_) => true,
                        Ok(key) => record_safe(st, attached, sh1, pp1, ops.push(new_draw(key)), binds, cmds, pos + 1),
                    }
                }
            },
            RhiCommand::BindDescriptorSets { first_set, bind_groups, .. } => {
                (ops.len() > 0 ==> sets_fit(st, first_set, bind_groups@)) && if exists|i: int| 0 <= i < bind_groups@.len()
                    && !st.bind_groups@.contains(#[trigger] bind_groups@[i].0) {
                    true
                } else {
                    let binds1 = if ops.len() > 0 { binds + set_bindings(ops.len() - 1, first_set, bind_groups@) } else { binds };
                    record_safe(st, attached, sh, pp, ops, binds1, cmds, pos + 1)
                }
            },
            RhiCommand::SetVertexBuffers { mesh, .. } => {
                if !st.meshes@.contains_key(mesh.0) {
                    true
                } else {
                    record_safe(st, attached, sh, pp, update_last(ops, |op: DrawOp| DrawOp { vertex_buffer: Some(mesh), ..op }), binds, cmds, pos + 1)
                }
            },
            RhiCommand::SetIndexBuffer { mesh } => {
                if !st.meshes@.contains_key(mesh.0) {
                    true
                } else {
                    let format = st.meshes@[mesh.0].index_format;
                    record_safe(st, attached, sh, pp, update_last(ops, |op: DrawOp| DrawOp { index_buffer: Some(mesh), index_format: format, ..op }), binds, cmds, pos + 1)
                }
            },
            RhiCommand::DrawIndexed { index_count, instance_count, first_index, vertex_offset, first_instance } => {
                record_safe(st, attached, sh, pp, update_last(ops, |op: DrawOp| DrawOp {
                    index_count,
                    instance_count,
                    first_index,
                    vertex_offset,
                    first_instance,
                    ..op
                }), binds, cmds, pos + 1)
            },
            _ => record_safe(st, attached, sh, pp, ops, binds, cmds, pos + 1),
        }
    }
}

impl BridgeState {
    /// Whether finding the pipeline for a draw cannot panic; see
    /// `draw_safe`.
    pub fn draw_is_safe(&self, material_id: MaterialId, vertex_layout_id: u64, depth_enabled: bool) -> (b: bool)
        ensures
            b == draw_safe(
                self.resources,
                self.shader_modules.view(),
                self.pipeline_cache.view(),
                material_id,
                vertex_layout_id,
                depth_enabled,
            ),
    {
        let m = match self.resources.materials.get(&material_id.0) {
            None => {
                return true;
            },
            Some(m) => m,
        };
        let key = MaterialPipelineKey {
            material_id,
            vertex_layout_id,
            depth_enabled: depth_enabled && m.enable_depth,
        };
        if self.pipeline_cache.contains(&key) {
            return true;
        }
        let vertex = &m.shaders.vertex;
        let fragment = &m.shaders.fragment;
        let vertex_cached = self.shader_modules.contains(vertex.payload_hash());
        if !vertex_cached && !package_is_compilable(vertex) {
            return false;
        }
        if !vertex_cached && package_has_fault(vertex) {
            return true;
        }
        let fragment_cached = self.shader_modules.contains(fragment.payload_hash())
            || (!vertex_cached && fragment.payload_hash() == vertex.payload_hash());
        fragment_cached || package_is_compilable(fragment)
    }

    /// Whether the set indices of binding `groups` from `first_set` fit;
    /// see `sets_fit`.
    pub fn sets_fit_in(&self, first_set: u32, groups: &Vec<BindGroupId>) -> (b: bool)
        ensures
            b == sets_fit(self.resources, first_set, groups@),
    {
        let mut i: usize = 0;
        while i < groups.len()
            invariant
                i <= groups@.len(),
                forall|j: int| 0 <= j < i ==> self.resources.bind_groups@.contains(#[trigger] groups@[j].0),
                first_set + i <= u32::MAX + 1,
            decreases groups@.len() - i,
        {
            if !self.resources.bind_groups.contains(&groups[i].0) {
                proof {
                    assert forall|k: int| 0 <= k < groups@.len() && #[trigger] groups_found(self.resources, groups@, k + 1)
                        implies first_set + k <= u32::MAX by {
                        if k >= i {
                            assert(self.resources.bind_groups@.contains(groups@[i as int].0));
                        }
                    }
                }
                return true;
            }
            if (first_set as u64) + (i as u64) > u32::MAX as u64 {
                assert(groups_found(self.resources, groups@, i + 1));
                return false;
            }
            i = i + 1;
        }
        true
    }
}

/// Whether the GPU object `c` is one that recording a pass may create
/// between the caches `(sh0, pp0)` and `(sh1, pp1)`: a module of a shader
/// of a material, or the pipeline of a material for the layout of a mesh,
/// whose key was newly cached.
pub open spec fn recorded_creation_ok(
    st: ResourceStorage,
    sc: Option<SwapchainInfo>,
    sh0: Set<u64>,
    sh1: Set<u64>,
    pp0: Set<MaterialPipelineKey>,
    pp1: Set<MaterialPipelineKey>,
    c: PipelineCreation,
) -> bool {
    match c {
        PipelineCreation::ShaderModule(m) => (exists|mid: MaterialId| #[trigger] is_material_shader_creation(st, mid, m)
            && st.materials@.contains_key(mid.0)) && sh1.contains(m.key) && !sh0.contains(m.key),
        PipelineCreation::RenderPipeline(p) => (exists|mesh: u64| #[trigger] st.meshes@.contains_key(mesh)
            && st.meshes@[mesh].vertex_layout_id == p.key.vertex_layout_id
            && is_pipeline_plan(st, sc, st.meshes@[mesh].vertex_layout, p)) && pp1.contains(p.key) && !pp0.contains(p.key),
    }
}

/// Whether `created` are exactly the creations for the keys newly cached
/// between `(sh0, pp0)` and `(sh1, pp1)`.
pub open spec fn recorded_creations_ok(
    st: ResourceStorage,
    sc: Option<SwapchainInfo>,
    sh0: Set<u64>,
    sh1: Set<u64>,
    pp0: Set<MaterialPipelineKey>,
    pp1: Set<MaterialPipelineKey>,
    created: Seq<PipelineCreation>,
) -> bool {
    &&& forall|i: int| 0 <= i < created.len() ==> recorded_creation_ok(st, sc, sh0, sh1, pp0, pp1, #[trigger] created[i])
    &&& forall|k: u64| sh1.contains(k) && !sh0.contains(k) ==> exists|i: int| 0 <= i < created.len()
        && creates_shader(#[trigger] created[i], k)
    &&& forall|k: MaterialPipelineKey| pp1.contains(k) && !pp0.contains(k) ==> exists|i: int| 0 <= i < created.len()
        && creates_pipeline(#[trigger] created[i], k)
}

/// Finding a draw's pipeline only adds keys to the caches.
proof fn lemma_pipeline_for_draw_grows(
    st: ResourceStorage,
    attached: bool,
    sh: Set<u64>,
    pp: Set<MaterialPipelineKey>,
    material: MaterialId,
    layout_id: u64,
    depth: bool,
)
    ensures
        ({
            let (sh1, pp1, r) = spec_pipeline_for_draw(st, attached, sh, pp, material, layout_id, depth);
            sh.subset_of(sh1) && pp.subset_of(pp1)
        }),
{
}

/// The creations of a pass so far stay valid when the caches grow.
proof fn lemma_creations_extend(
    st: ResourceStorage,
    sc: Option<SwapchainInfo>,
    sh0: Set<u64>,
    sh1: Set<u64>,
    sh2: Set<u64>,
    pp0: Set<MaterialPipelineKey>,
    pp1: Set<MaterialPipelineKey>,
    pp2: Set<MaterialPipelineKey>,
    before: Seq<PipelineCreation>,
    step: Seq<PipelineCreation>,
    material: MaterialId,
    mesh: u64,
    layout: GpuVertexLayout,
)
    requires
        sh0.subset_of(sh1),
        sh1.subset_of(sh2),
        pp0.subset_of(pp1),
        pp1.subset_of(pp2),
        recorded_creations_ok(st, sc, sh0, sh1, pp0, pp1, before),
        pipeline_creations_ok(st, sc, material, layout, sh1, sh2, pp1, pp2, step),
        st.materials@.contains_key(material.0),
        st.meshes@.contains_key(mesh),
        layout.array_stride == st.meshes@[mesh].vertex_layout.array_stride,
        layout.attributes@ == st.meshes@[mesh].vertex_layout.attributes@,
        layout.step_mode == st.meshes@[mesh].vertex_layout.step_mode,
        forall|i: int| 0 <= i < step.len() ==> (#[trigger] step[i] matches PipelineCreation::RenderPipeline(p)
            ==> p.key.vertex_layout_id == st.meshes@[mesh].vertex_layout_id),
    ensures
        recorded_creations_ok(st, sc, sh0, sh2, pp0, pp2, before + step),
{
    let all = before + step;
    assert forall|i: int| 0 <= i < all.len() implies recorded_creation_ok(st, sc, sh0, sh2, pp0, pp2, #[trigger] all[i]) by {
        if i < before.len() {
            assert(all[i] == before[i]);
            assert(recorded_creation_ok(st, sc, sh0, sh1, pp0, pp1, before[i]));
        } else {
            assert(all[i] == step[i - before.len()]);
            match step[i - before.len()] {
                PipelineCreation::ShaderModule(m) => {
                    assert(is_material_shader_creation(st, material, m));
                },
                PipelineCreation::RenderPipeline(p) => {
                    assert(st.meshes@.contains_key(mesh));
                },
            }
        }
    }
    assert forall|k: u64| sh2.contains(k) && !sh0.contains(k) implies exists|i: int| 0 <= i < all.len()
        && creates_shader(#[trigger] all[i], k) by {
        if sh1.contains(k) {
            let i = choose|i: int| 0 <= i < before.len() && creates_shader(before[i], k);
            assert(all[i] == before[i]);
        } else {
            let i = choose|i: int| 0 <= i < step.len() && creates_shader(step[i], k);
            assert(all[before.len() + i] == step[i]);
        }
    }
    assert forall|k: MaterialPipelineKey| pp2.contains(k) && !pp0.contains(k) implies exists|i: int| 0 <= i < all.len()
        && creates_pipeline(#[trigger] all[i], k) by {
        if pp1.contains(k) {
            let i = choose|i: int| 0 <= i < before.len() && creates_pipeline(before[i], k);
            assert(all[i] == before[i]);
        } else {
            let i = choose|i: int| 0 <= i < step.len() && creates_pipeline(step[i], k);
            assert(all[before.len() + i] == step[i]);
        }
    }
}

/// The result of recording, with the end position as a `usize`.
pub open spec fn record_result(r: Result<int, Error>) -> Result<usize, Error> {
    match r {
        Ok(p) => Ok(p as usize),
        Err(e) => Err(e),
    }
}

impl BridgeState {
    /// Records the draws of a render pass from command `start` on, up to
    /// the first `EndRenderPass`; see `spec_record`. Returns the GPU objects
    /// to create, the draws, their bind groups, and the position of the
    /// `EndRenderPass`.
    pub fn record_render_pass(&mut self, commands: &Vec<RhiCommand>, start: usize)
        -> (out: (Vec<PipelineCreation>, Vec<DrawOp>, Vec<DrawBinding>, Result<usize, Error>))
        requires
            old(self).wf(),
            record_safe(
                old(self).resources,
                old(self).swapchain is Some,
                old(self).shader_modules.view(),
                old(self).pipeline_cache.view(),
                Seq::empty(),
                Seq::empty(),
                commands@,
                start as int,
            ),
        ensures
            final(self).wf(),
            final(self).resources == old(self).resources,
            final(self).compute_bind_groups == old(self).compute_bind_groups,
            final(self).swapchain == old(self).swapchain,
            final(self).recording_encoder == old(self).recording_encoder,
            final(self).surface_texture == old(self).surface_texture,
            final(self).current_frame_index == old(self).current_frame_index,
            final(self).active_pass == old(self).active_pass,
            final(self).depth_target == old(self).depth_target,
            final(self).render_bundle == old(self).render_bundle,
            final(self).pending_acquire_skips == old(self).pending_acquire_skips,
            ({
                let (sh, pp, ops, binds, r) = spec_record(
                    old(self).resources,
                    old(self).swapchain is Some,
                    old(self).shader_modules.view(),
                    old(self).pipeline_cache.view(),
                    Seq::empty(),
                    Seq::empty(),
                    commands@,
                    start as int,
                );
                &&& final(self).shader_modules.view() == sh
                &&& final(self).pipeline_cache.view() == pp
                &&& out.1@ == ops
                &&& out.2@ == binds
                &&& out.3 == record_result(r)
            }),
            recorded_creations_ok(
                old(self).resources,
                old(self).swapchain,
                old(self).shader_modules.view(),
                final(self).shader_modules.view(),
                old(self).pipeline_cache.view(),
                final(self).pipeline_cache.view(),
                out.0@,
            ),
    {
        match self.try_record_render_pass(commands, start) {
            Some(out) => out,
            None => {
                proof {
                    assert(false);
                }
                (Vec::new(), Vec::new(), Vec::new(), Ok(start))
            },
        }
    }

    /// Records the draws of a render pass as `record_render_pass` does, but
    /// first checks each step it reaches: `None` when a step would panic
    /// (see `record_safe`).
    #[verifier::rlimit(60)]
    pub fn try_record_render_pass(&mut self, commands: &Vec<RhiCommand>, start: usize)
        -> (out: Option<(Vec<PipelineCreation>, Vec<DrawOp>, Vec<DrawBinding>, Result<usize, Error>)>)
        requires
            old(self).wf(),
        ensures
            final(self).wf(),
            final(self).resources == old(self).resources,
            final(self).compute_bind_groups == old(self).compute_bind_groups,
            final(self).swapchain == old(self).swapchain,
            final(self).recording_encoder == old(self).recording_encoder,
            final(self).surface_texture == old(self).surface_texture,
            final(self).current_frame_index == old(self).current_frame_index,
            final(self).active_pass == old(self).active_pass,
            final(self).depth_target == old(self).depth_target,
            final(self).render_bundle == old(self).render_bundle,
            final(self).pending_acquire_skips == old(self).pending_acquire_skips,
            match out {
                Some(o) => ({
                    let (sh, pp, ops, binds, r) = spec_record(
                        old(self).resources,
                        old(self).swapchain is Some,
                        old(self).shader_modules.view(),
                        old(self).pipeline_cache.view(),
                        Seq::empty(),
                        Seq::empty(),
                        commands@,
                        start as int,
                    );
                    &&& final(self).shader_modules.view() == sh
                    &&& final(self).pipeline_cache.view() == pp
                    &&& o.1@ == ops
                    &&& o.2@ == binds
                    &&& o.3 == record_result(r)
                })
                && recorded_creations_ok(
                    old(self).resources,
                    old(self).swapchain,
                    old(self).shader_modules.view(),
                    final(self).shader_modules.view(),
                    old(self).pipeline_cache.view(),
                    final(self).pipeline_cache.view(),
                    o.0@,
                ),
                None => !record_safe(
                    old(self).resources,
                    old(self).swapchain is Some,
                    old(self).shader_modules.view(),
                    old(self).pipeline_cache.view(),
                    Seq::empty(),
                    Seq::empty(),
                    commands@,
                    start as int,
                ),
            },
    {
        let ghost st = self.resources;
        let ghost attached = self.swapchain is Some;
        let ghost sh0 = self.shader_modules.view();
        let ghost pp0 = self.pipeline_cache.view();
        let ghost target = spec_record(st, attached, sh0, pp0, Seq::empty(), Seq::empty(), commands@, start as int);
        let ghost safe0 = record_safe(st, attached, sh0, pp0, Seq::empty(), Seq::empty(), commands@, start as int);
        let mut created: Vec<PipelineCreation> = Vec::new();
        let mut ops: Vec<DrawOp> = Vec::new();
        let mut binds: Vec<DrawBinding> = Vec::new();
        let mut pos = start;
        while pos < commands.len()
            invariant
                self.wf(),
                st == old(self).resources,
                sh0 == old(self).shader_modules.view(),
                pp0 == old(self).pipeline_cache.view(),
                target == spec_record(st, attached, sh0, pp0, Seq::empty(), Seq::empty(), commands@, start as int),
                self.resources == st,
                attached == (self.swapchain is Some),
                self.compute_bind_groups == old(self).compute_bind_groups,
                self.swapchain == old(self).swapchain,
                self.recording_encoder == old(self).recording_encoder,
                self.surface_texture == old(self).surface_texture,
                self.current_frame_index == old(self).current_frame_index,
                self.active_pass == old(self).active_pass,
                self.depth_target == old(self).depth_target,
                self.render_bundle == old(self).render_bundle,
                self.pending_acquire_skips == old(self).pending_acquire_skips,
                start <= pos,
                target == spec_record(st, attached, self.shader_modules.view(), self.pipeline_cache.view(), ops@, binds@, commands@, pos as int),
                safe0 == record_safe(st, attached, sh0, pp0, Seq::empty(), Seq::empty(), commands@, start as int),
                safe0 == record_safe(st, attached, self.shader_modules.view(), self.pipeline_cache.view(), ops@, binds@, commands@, pos as int),
                sh0.subset_of(self.shader_modules.view()),
                pp0.subset_of(self.pipeline_cache.view()),
                recorded_creations_ok(st, old(self).swapchain, sh0, self.shader_modules.view(), pp0, self.pipeline_cache.view(), created@),
            decreases commands@.len() - pos,
        {
            match &commands[pos] {
                RhiCommand::EndRenderPass => {
                    return Some((created, ops, binds, Ok(pos)));
                },
                RhiCommand::BindGraphicsPipeline { material, mesh, depth_enabled } => {
                    let (layout_id, layout) = match self.resources.meshes.get(&mesh.0) {
                        None => {
                            return Some((created, ops, binds, Err(Error::recoverable(ErrorKind::ResourceNotFound("mesh")))));
                        },
                        Some(info) => (info.vertex_layout_id, copy_vertex_layout(&info.vertex_layout)),
                    };
                    if !self.draw_is_safe(*material, layout_id, *depth_enabled) {
                        return None;
                    }
                    let ghost sh1 = self.shader_modules.view();
                    let ghost pp1 = self.pipeline_cache.view();
                    let ghost before = created@;
                    let (step, result) = self.rhi_pipeline_for_draw(*material, layout_id, &layout, *depth_enabled);
                    proof {
                        lemma_pipeline_for_draw_grows(st, attached, sh1, pp1, *material, layout_id, *depth_enabled);
                        if st.materials@.contains_key(material.0) {
                            assert forall|i: int| 0 <= i < step@.len() implies (#[trigger] step@[i] matches PipelineCreation::RenderPipeline(p)
                                ==> p.key.vertex_layout_id == st.meshes@[mesh.0].vertex_layout_id) by {}
                            lemma_creations_extend(st, self.swapchain, sh0, sh1, self.shader_modules.view(), pp0, pp1,
                                self.pipeline_cache.view(), before, step@, *material, mesh.0, layout);
                        } else {
                            assert(step@.len() == 0) by {
                                if step@.len() > 0 {
                                    let c = step@[0];
                                }
                            }
                            assert(before + step@ =~= before);
                        }
                    }
                    let mut step = step;
                    created.append(&mut step);
                    match result {
                        Err(e) => {
                            return Some((created, ops, binds, Err(e)));
                        },
                        Ok(key) => {
                            ops.push(DrawOp {
                                pipeline: key,
                                vertex_buffer: None,
                                index_buffer: None,
                                index_format: IndexFormat::Uint32,
                                index_count: 0,
                                instance_count: 0,
                                first_index: 0,
                                vertex_offset: 0,
                                first_instance: 0,
                            });
                        },
                    }
                },
                RhiCommand::BindDescriptorSets { first_set, bind_groups, dynamic_offsets: _ } => {
                    if ops.len() > 0 && !self.sets_fit_in(*first_set, bind_groups) {
                        return None;
                    }
                    let mut i: usize = 0;
                    #[verifier::loop_isolation(false)]
                    while i < bind_groups.len()
                        invariant
                            self.resources == st,
                            i <= bind_groups@.len(),
                            forall|j: int| 0 <= j < i ==> st.bind_groups@.contains(#[trigger] bind_groups@[j].0),
                        decreases bind_groups@.len() - i,
                    {
                        if !self.resources.bind_groups.contains(&bind_groups[i].0) {
                            return Some((created, ops, binds, Err(Error::fatal(ErrorKind::Unsupported("bind group not found")))));
                        }
                        i = i + 1;
                    }
                    if ops.len() > 0 {
                        let op = ops.len() - 1;
                        let ghost before = binds@;
                        assert(*first_set + bind_groups@.len() <= u32::MAX + 1) by {
                            if bind_groups@.len() > 0 {
                                let last = bind_groups@.len() - 1;
                                assert(groups_found(st, bind_groups@, last + 1));
                                assert(sets_fit(st, *first_set, bind_groups@));
                            }
                        }
                        let mut j: usize = 0;
                        #[verifier::loop_isolation(false)]
                        while j < bind_groups.len()
                            invariant
                                j <= bind_groups@.len(),
                                *first_set + bind_groups@.len() <= u32::MAX + 1,
                                binds@ == before + set_bindings(op as int, *first_set, bind_groups@).subrange(0, j as int),
                            decreases bind_groups@.len() - j,
                        {
                            binds.push((op, *first_set + j as u32, bind_groups[j]));
                            j = j + 1;
                            assert(binds@ =~= before + set_bindings(op as int, *first_set, bind_groups@).subrange(0, j as int));
                        }
                        assert(set_bindings(op as int, *first_set, bind_groups@).subrange(0, j as int)
                            =~= set_bindings(op as int, *first_set, bind_groups@));
                    }
                },
                RhiCommand::SetVertexBuffers { mesh, first_binding: _ } => {
                    if !self.resources.meshes.contains_key(&mesh.0) {
                        return Some((created, ops, binds, Err(Error::recoverable(ErrorKind::ResourceNotFound("mesh")))));
                    }
                    if ops.len() > 0 {
                        let last = ops.len() - 1;
                        let mut op = ops[last];
                        op.vertex_buffer = Some(*mesh);
                        ops.set(last, op);
                    }
                },
                RhiCommand::SetIndexBuffer { mesh } => {
                    let format = match self.resources.meshes.get(&mesh.0) {
                        None => {
                            return Some((created, ops, binds, Err(Error::recoverable(ErrorKind::ResourceNotFound("mesh")))));
                        },
                        Some(info) => info.index_format,
                    };
                    if ops.len() > 0 {
                        let last = ops.len() - 1;
                        let mut op = ops[last];
                        op.index_buffer = Some(*mesh);
                        op.index_format = format;
                        ops.set(last, op);
                    }
                },
                RhiCommand::DrawIndexed { index_count, instance_count, first_index, vertex_offset, first_instance } => {
                    if ops.len() > 0 {
                        let last = ops.len() - 1;
                        let mut op = ops[last];
                        op.index_count = *index_count;
                        op.instance_count = *instance_count;
                        op.first_index = *first_index;
                        op.vertex_offset = *vertex_offset;
                        op.first_instance = *first_instance;
                        ops.set(last, op);
                    }
                },
                _ => {},
            }
            pos = pos + 1;
        }
        Some((created, ops, binds, Err(Error::fatal(ErrorKind::Unsupported("missing EndRenderPass command")))))
    }
}

/// How the depth target is loaded when a pass begins.
#[derive(Clone, Copy, Debug, PartialEq, Eq, Hash, Structural)]
pub enum DepthLoadOp {
    /// Cleared to the pass's clear depth.
    Clear,
    /// Kept as it is.
    Load,
}

/// The draws a render pass executes: the bundle recorded before, or a new
/// bundle of the given draws, which is kept for later passes.
#[derive(Clone, Debug, PartialEq, Eq)]
pub enum BundlePlan {
    Replay,
    Record { depth_stencil: bool, ops: Vec<DrawOp>, bindings: Vec<DrawBinding> },
}

/// A render pass into the surface texture: the command that began it (its
/// label and clear values), the surface's color format (of the color
/// target and of a recorded bundle), how the color and depth targets are
/// loaded, and its bundle.
#[derive(Clone, Debug, PartialEq, Eq)]
pub struct RenderPassPlan {
    pub command: usize,
    pub color_format: wgpu::TextureFormat,
    pub color_load: ColorAttachmentLoad,
    pub depth: Option<DepthLoadOp>,
    pub bundle: BundlePlan,
}

/// The GPU work a command asks for, in order.
#[derive(Clone, Debug, PartialEq, Eq)]
pub enum FrameAction {
    /// Start a new command encoder, dropping any current one.
    BeginEncoder,
    /// Acquire the next surface texture, then report the outcome with
    /// `finish_acquire`.
    AcquireSurfaceTexture,
    /// Write the data of command `command` into a buffer at `offset`.
    WriteBuffer { buffer: BufferId, offset: u64, command: usize },
    /// Record a compute dispatch into the current encoder, starting one
    /// when there is none.
    Dispatch(ComputeDispatchPlan),
    /// Drop the current encoder, if any: a failed command consumed it.
    DiscardEncoder,
    /// Create the depth target at the given size.
    RecreateDepthTarget { width: u32, height: u32 },
    /// Create a shader module or a render pipeline.
    Create(PipelineCreation),
    /// Record a render pass into the current encoder.
    RenderPass(RenderPassPlan),
    /// Finish and submit the current encoder.
    Submit,
    /// Present the surface texture.
    Present,
}

/// The frame fields of a backend state: whether an encoder records,
/// whether a surface texture is held, the surface, the frame index, the
/// label of the active pass, the depth target size, whether a bundle is
/// kept, and the skipped acquisitions.
pub open spec fn frame_of(b: BridgeState) -> (bool, bool, Option<SwapchainInfo>, u32, Option<Seq<char>>, Option<(u32, u32)>, bool, u32) {
    (
        b.recording_encoder,
        b.surface_texture,
        b.swapchain,
        b.current_frame_index,
        match b.active_pass {
            Some(p) => Some(p.label@),
            None => None,
        },
        b.depth_target,
        b.render_bundle,
        b.pending_acquire_skips,
    )
}

/// The caches of a backend state.
pub open spec fn caches_of(b: BridgeState) -> (Set<u64>, Set<MaterialPipelineKey>, Set<ComputeBindGroupKey>) {
    (b.shader_modules.view(), b.pipeline_cache.view(), b.compute_bind_groups.view())
}

/// The position of the first `EndRenderPass` at or after `from`.
pub open spec fn find_end(cmds: Seq<RhiCommand>, from: int) -> Option<int>
    decreases cmds.len() - from,
{
    if from < 0 || from >= cmds.len() {
        None
    } else if cmds[from] is EndRenderPass {
        Some(from)
    } else {
        find_end(cmds, from + 1)
    }
}

/// Whether every action is a creation, and the creations are those that
/// recording may make between the given caches.
pub open spec fn creations_ok(
    st: ResourceStorage,
    sc: Option<SwapchainInfo>,
    sh0: Set<u64>,
    sh1: Set<u64>,
    pp0: Set<MaterialPipelineKey>,
    pp1: Set<MaterialPipelineKey>,
    actions: Seq<FrameAction>,
) -> bool {
    &&& forall|i: int| 0 <= i < actions.len() ==> (#[trigger] actions[i]) is Create
    &&& recorded_creations_ok(st, sc, sh0, sh1, pp0, pp1, actions.map_values(|a: FrameAction| a->Create_0))
}

/// The size of the depth target for a surface: at least one by one.
pub open spec fn depth_size(sc: SwapchainInfo) -> (u32, u32) {
    (if sc.width == 0 { 1 } else { sc.width }, if sc.height == 0 { 1 } else { sc.height })
}

/// How a render pass loads its depth target.
pub open spec fn depth_load_op(load: DepthAttachmentLoad) -> DepthLoadOp {
    if load == DepthAttachmentLoad::Load { DepthLoadOp::Load } else { DepthLoadOp::Clear }
}

/// How the command at `pos` changes the backend (`b0` to `b1`), what it
/// asks of the GPU, and what it returns: the position of the next command
/// to run, or an error. Resources never change while a frame is recorded.
pub open spec fn command_step(
    b0: BridgeState,
    cmds: Seq<RhiCommand>,
    pos: int,
    b1: BridgeState,
    actions: Seq<FrameAction>,
    r: Result<usize, Error>,
) -> bool {
    let f = frame_of(b0);
    &&& b1.resources == b0.resources
    &&& match cmds[pos] {
        RhiCommand::BeginFrame { .. } => {
            &&& frame_of(b1) == (true, f.1, f.2, (f.3 + 1) as u32, None::<Seq<char>>, f.5, f.6, f.7)
            &&& caches_of(b1) == caches_of(b0)
            &&& actions == seq![FrameAction::BeginEncoder]
            &&& r == Ok::<usize, Error>((pos + 1) as usize)
        },
        RhiCommand::AcquireSwapchainImage => {
            &&& frame_of(b1) == f && caches_of(b1) == caches_of(b0)
            &&& actions == seq![FrameAction::AcquireSurfaceTexture]
            &&& r == Ok::<usize, Error>((pos + 1) as usize)
        },
        RhiCommand::WriteBuffer { buffer, offset, .. } => {
            &&& frame_of(b1) == f && caches_of(b1) == caches_of(b0)
            &&& if b0.resources.buffers@.contains_key(buffer.0) {
                actions == seq![FrameAction::WriteBuffer { buffer, offset, command: pos as usize }]
                    && r == Ok::<usize, Error>((pos + 1) as usize)
            } else {
                actions.len() == 0 && r == Err::<usize, Error>(fatal_error(ErrorKind::Unsupported("buffer not found")))
            }
        },
        RhiCommand::DispatchCompute(pass) => {
            &&& b1.shader_modules.view() == b0.shader_modules.view()
            &&& b1.pipeline_cache.view() == b0.pipeline_cache.view()
            &&& match r {
                Ok(next) => {
                    &&& next == pos + 1
                    &&& frame_of(b1) == (true, f.1, f.2, f.3, f.4, f.5, f.6, f.7)
                    &&& actions.len() == 1
                    &&& actions[0] matches FrameAction::Dispatch(plan)
                        && dispatch_step(b0.resources, b0.compute_bind_groups.view(), pass, b1.compute_bind_groups.view(), Ok(plan))
                },
                Err(e) => {
                    &&& frame_of(b1) == (false, f.1, f.2, f.3, f.4, f.5, f.6, f.7)
                    &&& actions == seq![FrameAction::DiscardEncoder]
                    &&& dispatch_step(b0.resources, b0.compute_bind_groups.view(), pass, b1.compute_bind_groups.view(), Err(e))
                },
            }
        },
        RhiCommand::BeginRenderPass { pass, .. } => {
            if !b0.recording_encoder {
                &&& frame_of(b1) == f && caches_of(b1) == caches_of(b0) && actions.len() == 0
                &&& r == Err::<usize, Error>(fatal_error(ErrorKind::Unsupported("no command encoder for render pass (call BeginFrame first)")))
            } else if pass.color_target is Texture || !b0.surface_texture || b0.swapchain is None {
                &&& frame_of(b1) == (false, f.1, f.2, f.3, f.4, f.5, f.6, f.7)
                &&& caches_of(b1) == caches_of(b0)
                &&& actions == seq![FrameAction::DiscardEncoder]
                &&& r == Err::<usize, Error>(
                    if pass.color_target is Texture {
                        fatal_error(ErrorKind::Unsupported("render to texture not implemented"))
                    } else if !b0.surface_texture {
                        fatal_error(ErrorKind::Unsupported("no surface texture (call AcquireSwapchainImage first)"))
                    } else {
                        fatal_error(ErrorKind::SurfaceNotAttached)
                    },
                )
            } else {
                let size = depth_size(b0.swapchain->Some_0);
                let depth1 = if pass.depth_attachment { Some(size) } else { b0.depth_target };
                let depth_actions = if pass.depth_attachment && b0.depth_target != Some(size) {
                    seq![FrameAction::RecreateDepthTarget { width: size.0, height: size.1 }]
                } else {
                    Seq::empty()
                };
                let depth = if pass.depth_attachment { Some(depth_load_op(pass.depth_load)) } else { None };
                let d = depth_actions.len() as int;
                &&& actions.len() >= d + 1
                &&& actions.subrange(0, d) == depth_actions
                &&& b1.compute_bind_groups.view() == b0.compute_bind_groups.view()
                &&& if b0.render_bundle {
                    &&& b1.shader_modules.view() == b0.shader_modules.view()
                    &&& b1.pipeline_cache.view() == b0.pipeline_cache.view()
                    &&& actions.len() == d + 1
                    &&& match find_end(cmds, pos + 1) {
                        None => {
                            &&& frame_of(b1) == (false, f.1, f.2, f.3, Some(pass.name@), depth1, f.6, f.7)
                            &&& actions.last() == FrameAction::DiscardEncoder
                            &&& r == Err::<usize, Error>(fatal_error(ErrorKind::Unsupported("missing EndRenderPass command")))
                        },
                        Some(end) => {
                            &&& frame_of(b1) == (true, f.1, f.2, f.3, None::<Seq<char>>, depth1, f.6, f.7)
                            &&& actions.last() == FrameAction::RenderPass(RenderPassPlan {
                                command: pos as usize,
                                color_format: b0.swapchain->Some_0.format,
                                color_load: pass.color_load,
                                depth,
                                bundle: BundlePlan::Replay,
                            })
                            &&& r == Ok::<usize, Error>((end + 1) as usize)
                        },
                    }
                } else {
                    let (sh, pp, ops, binds, rr) = spec_record(
                        b0.resources,
                        true,
                        b0.shader_modules.view(),
                        b0.pipeline_cache.view(),
                        Seq::empty(),
                        Seq::empty(),
                        cmds,
                        pos + 1,
                    );
                    &&& b1.shader_modules.view() == sh
                    &&& b1.pipeline_cache.view() == pp
                    &&& creations_ok(
                        b0.resources,
                        b0.swapchain,
                        b0.shader_modules.view(),
                        sh,
                        b0.pipeline_cache.view(),
                        pp,
                        actions.subrange(d, actions.len() - 1),
                    )
                    &&& match rr {
                        Err(e) => {
                            &&& frame_of(b1) == (false, f.1, f.2, f.3, Some(pass.name@), depth1, f.6, f.7)
                            &&& actions.last() == FrameAction::DiscardEncoder
                            &&& r == Err::<usize, Error>(e)
                        },
                        Ok(end) => {
                            &&& frame_of(b1) == (true, f.1, f.2, f.3, None::<Seq<char>>, depth1, true, f.7)
                            &&& actions.last() matches FrameAction::RenderPass(plan)
                                && plan.command == pos && plan.color_load == pass.color_load && plan.depth == depth
                                && plan.color_format == b0.swapchain->Some_0.format
                                && (plan.bundle matches BundlePlan::Record { depth_stencil, ops: o, bindings: bs }
                                    && depth_stencil == pass.depth_attachment && o@ == ops && bs@ == binds)
                            &&& r == Ok::<usize, Error>((end + 1) as usize)
                        },
                    }
                }
            }
        },
        RhiCommand::SubmitFrame { present } => {
            &&& frame_of(b1) == (false, f.1 && !present, f.2, f.3, f.4, f.5, f.6, f.7)
            &&& caches_of(b1) == caches_of(b0)
            &&& actions == (if f.0 { seq![FrameAction::Submit] } else { Seq::empty() })
                + (if present && f.1 { seq![FrameAction::Present] } else { Seq::empty() })
            &&& r == Ok::<usize, Error>((pos + 1) as usize)
        },
        _ => {
            &&& frame_of(b1) == f && caches_of(b1) == caches_of(b0) && actions.len() == 0
            &&& r == Ok::<usize, Error>((pos + 1) as usize)
        },
    }
}

/// Whether running the command at `pos` cannot panic: `BeginFrame` needs
/// room to count the frame, and a render pass that records its draws needs
/// the recording to be safe (see `record_safe`).
pub open spec fn command_safe(b: BridgeState, cmds: Seq<RhiCommand>, pos: int) -> bool {
    match cmds[pos] {
        RhiCommand::BeginFrame { .. } => b.current_frame_index < u32::MAX,
        RhiCommand::BeginRenderPass { pass, .. } => {
            (b.recording_encoder && pass.color_target is Swapchain && b.surface_texture && b.swapchain is Some
                && !b.render_bundle) ==> record_safe(
                b.resources,
                true,
                b.shader_modules.view(),
                b.pipeline_cache.view(),
                Seq::empty(),
                Seq::empty(),
                cmds,
                pos + 1,
            )
        },
        _ => true,
    }
}

/// The position of the first `EndRenderPass` at or after `from`.
fn find_end_render_pass(commands: &Vec<RhiCommand>, from: usize) -> (r: Option<usize>)
    ensures
        match find_end(commands@, from as int) {
            Some(e) => r == Some(e as usize) && from <= e < commands@.len(),
            None => r is None,
        },
{
    let mut p = from;
    while p < commands.len()
        invariant
            from <= p,
            find_end(commands@, from as int) == find_end(commands@, p as int),
        decreases commands@.len() - p,
    {
        match &commands[p] {
            RhiCommand::EndRenderPass => {
                return Some(p);
            },
            _ => {},
        }
        p = p + 1;
    }
    None
}

/// Recording ends, if it ends well, at a command of the list.
pub proof fn lemma_record_end_in_range(
    st: ResourceStorage,
    attached: bool,
    sh: Set<u64>,
    pp: Set<MaterialPipelineKey>,
    ops: Seq<DrawOp>,
    binds: Seq<DrawBinding>,
    cmds: Seq<RhiCommand>,
    pos: int,
)
    ensures
        spec_record(st, attached, sh, pp, ops, binds, cmds, pos).4 matches Ok(e) ==> pos <= e < cmds.len(),
    decreases cmds.len() - pos,
{
    if 0 <= pos < cmds.len() {
        match cmds[pos] {
            RhiCommand::BindGraphicsPipeline { material, mesh, depth_enabled } => {
                if st.meshes@.contains_key(mesh.0) {
                    let info = st.meshes@[mesh.0];
                    let (sh1, pp1, r) = spec_pipeline_for_draw(st, attached, sh, pp, material, info.vertex_layout_id, depth_enabled);
                    if r is Ok {
                        lemma_record_end_in_range(st, attached, sh1, pp1, ops.push(new_draw(r->Ok_0)), binds, cmds, pos + 1);
                    }
                }
            },
            RhiCommand::BindDescriptorSets { first_set, bind_groups, .. } => {
                let binds1 = if ops.len() > 0 { binds + set_bindings(ops.len() - 1, first_set, bind_groups@) } else { binds };
                lemma_record_end_in_range(st, attached, sh, pp, ops, binds1, cmds, pos + 1);
            },
            RhiCommand::SetVertexBuffers { mesh, .. } => {
                lemma_record_end_in_range(st, attached, sh, pp, update_last(ops, |op: DrawOp| DrawOp { vertex_buffer: Some(mesh), ..op }), binds, cmds, pos + 1);
            },
            RhiCommand::SetIndexBuffer { mesh } => {
                if st.meshes@.contains_key(mesh.0) {
                    let format = st.meshes@[mesh.0].index_format;
                    lemma_record_end_in_range(st, attached, sh, pp, update_last(ops, |op: DrawOp| DrawOp { index_buffer: Some(mesh), index_format: format, ..op }), binds, cmds, pos + 1);
                }
            },
            RhiCommand::DrawIndexed { index_count, instance_count, first_index, vertex_offset, first_instance } => {
                lemma_record_end_in_range(st, attached, sh, pp, update_last(ops, |op: DrawOp| DrawOp {
                    index_count,
                    instance_count,
                    first_index,
                    vertex_offset,
                    first_instance,
                    ..op
                }), binds, cmds, pos + 1);
            },
            RhiCommand::EndRenderPass => {},
            _ => {
                lemma_record_end_in_range(st, attached, sh, pp, ops, binds, cmds, pos + 1);
            },
        }
    }
}

/// How reporting an acquisition changes the backend (`b0` to `b1`): it
/// holds a surface texture exactly when one was acquired, which needs an
/// attached surface; nothing else changes.
pub open spec fn acquire_step(b0: BridgeState, acquired: bool, b1: BridgeState, r: Result<(), Error>) -> bool {
    let f = frame_of(b0);
    &&& b1.resources == b0.resources
    &&& caches_of(b1) == caches_of(b0)
    &&& b1.pipeline_cache == b0.pipeline_cache
    &&& b1.compute_bind_groups == b0.compute_bind_groups
    &&& frame_of(b1) == (f.0, acquired, f.2, f.3, f.4, f.5, f.6, f.7)
    &&& r == if acquired && b0.swapchain is None {
        Err::<(), Error>(fatal_error(ErrorKind::SurfaceNotAttached))
    } else {
        Ok(())
    }
}

/// How the frame loop runs the command at `pos` (`b0` to `b1`): the
/// command's step, followed, for `AcquireSwapchainImage`, by the report of
/// whether a surface texture was acquired; the result is the step's, or the
/// report's error.
pub open spec fn frame_step(b0: BridgeState, cmds: Seq<RhiCommand>, pos: int, b1: BridgeState, r: Result<usize, Error>) -> bool {
    exists|mid: BridgeState, actions: Seq<FrameAction>, r0: Result<usize, Error>, acquired: bool, ra: Result<(), Error>|
        #[trigger] frame_step_via(b0, cmds, pos, b1, r, mid, actions, r0, acquired, ra)
}

/// `frame_step` through the state `mid` after the command, its actions and
/// result `r0`, and the report `acquired` with its result `ra`.
pub open spec fn frame_step_via(
    b0: BridgeState,
    cmds: Seq<RhiCommand>,
    pos: int,
    b1: BridgeState,
    r: Result<usize, Error>,
    mid: BridgeState,
    actions: Seq<FrameAction>,
    r0: Result<usize, Error>,
    acquired: bool,
    ra: Result<(), Error>,
) -> bool {
    command_step(b0, cmds, pos, mid, actions, r0) && if cmds[pos] is AcquireSwapchainImage {
        acquire_step(mid, acquired, b1, ra) && r == match ra {
            Ok(_) => r0,
            Err(e) => Err::<usize, Error>(e),
        }
    } else {
        b1 == mid && r == r0
    }
}

/// Whether the states `bs` and positions `ps` are a run of the frame loop
/// in which every step succeeded: step `i` runs the command at `ps[i]` from
/// `bs[i]` and continues at `ps[i + 1]` from `bs[i + 1]`.
pub open spec fn run_prefix(bs: Seq<BridgeState>, ps: Seq<int>, cmds: Seq<RhiCommand>) -> bool {
    &&& bs.len() == ps.len() && bs.len() >= 1
    &&& forall|i: int| 0 <= i < bs.len() - 1 ==> 0 <= #[trigger] ps[i] < cmds.len() && 0 <= ps[i + 1] <= usize::MAX
        && frame_step(bs[i], cmds, ps[i], bs[i + 1], Ok(ps[i + 1] as usize))
}

/// Whether `bs` and `ps` are a whole run of the frame loop over `cmds`,
/// from the first command, with result `r`: every step succeeds and the run
/// goes past the last command, or every step but the last succeeds and the
/// last returns the run's error.
pub open spec fn run(bs: Seq<BridgeState>, ps: Seq<int>, cmds: Seq<RhiCommand>, r: Result<(), Error>) -> bool {
    let n = bs.len() - 1;
    &&& ps.len() >= 1 && ps[0] == 0
    &&& match r {
        Ok(_) => run_prefix(bs, ps, cmds) && ps[n] >= cmds.len(),
        Err(e) => {
            &&& bs.len() >= 2 && bs.len() == ps.len()
            &&& run_prefix(bs.drop_last(), ps.drop_last(), cmds)
            &&& 0 <= ps[n - 1] < cmds.len()
            &&& frame_step(bs[n - 1], cmds, ps[n - 1], bs[n], Err::<usize, Error>(e))
        },
    }
}

impl BridgeState {
    /// Records that the surface texture was acquired (or skipped) for the
    /// pending `AcquireSwapchainImage`: the backend holds it exactly when it
    /// was acquired, and holding one needs an attached surface.
    pub fn finish_acquire(&mut self, acquired: bool) -> (r: Result<(), Error>)
        ensures
            acquire_step(*old(self), acquired, *final(self), r),
    {
        self.surface_texture = acquired;
        if acquired && self.swapchain.is_none() {
            return Err(surface_not_attached_error());
        }
        Ok(())
    }

    /// Runs the command at `pos`; see `command_step`. The command must not
    /// panic; see `command_safe`.
    pub fn execute_command(&mut self, commands: &Vec<RhiCommand>, pos: usize) -> (out: (Vec<FrameAction>, Result<usize, Error>))
        requires
            old(self).wf(),
            pos < commands@.len(),
            command_safe(*old(self), commands@, pos as int),
        ensures
            final(self).wf(),
            command_step(*old(self), commands@, pos as int, *final(self), out.0@, out.1),
    {
        match self.try_execute_command(commands, pos) {
            Some(out) => out,
            None => {
                proof {
                    assert(false);
                }
                (Vec::new(), Ok(pos))
            },
        }
    }

    /// Runs the command at `pos` as `execute_command` does, but first checks
    /// what it reaches: `None` when running it would panic, in which case
    /// nothing is promised of the backend but its well-formedness.
    pub fn try_execute_command(&mut self, commands: &Vec<RhiCommand>, pos: usize)
        -> (out: Option<(Vec<FrameAction>, Result<usize, Error>)>)
        requires
            old(self).wf(),
            pos < commands@.len(),
        ensures
            final(self).wf(),
            match out {
                Some(o) => command_step(*old(self), commands@, pos as int, *final(self), o.0@, o.1),
                None => !command_safe(*old(self), commands@, pos as int),
            },
    {
        let mut actions: Vec<FrameAction> = Vec::new();
        let len = commands.len();
        assert(pos + 1 <= len);
        match &commands[pos] {
            RhiCommand::BeginFrame { frame_index: _ } => {
                if self.current_frame_index == u32::MAX {
                    return None;
                }
                self.current_frame_index = self.current_frame_index + 1;
                actions.push(FrameAction::BeginEncoder);
                self.recording_encoder = true;
                self.active_pass = None;
                Some((actions, Ok(pos + 1)))
            },
            RhiCommand::AcquireSwapchainImage => {
                actions.push(FrameAction::AcquireSurfaceTexture);
                Some((actions, Ok(pos + 1)))
            },
            RhiCommand::WriteBuffer { buffer, offset, data: _ } => {
                if !self.resources.buffers.contains_key(&buffer.0) {
                    return Some((actions, Err(Error::fatal(ErrorKind::Unsupported("buffer not found")))));
                }
                actions.push(FrameAction::WriteBuffer { buffer: *buffer, offset: *offset, command: pos });
                Some((actions, Ok(pos + 1)))
            },
            RhiCommand::DispatchCompute(pass) => {
                self.recording_encoder = false;
                match record_compute_dispatch(&self.resources, &mut self.compute_bind_groups, pass) {
                    Err(e) => {
                        actions.push(FrameAction::DiscardEncoder);
                        Some((actions, Err(e)))
                    },
                    Ok(plan) => {
                        actions.push(FrameAction::Dispatch(plan));
                        self.recording_encoder = true;
                        Some((actions, Ok(pos + 1)))
                    },
                }
            },
            RhiCommand::BeginRenderPass { pass, image_index: _ } => {
                if !self.recording_encoder {
                    return Some((actions, Err(Error::fatal(ErrorKind::Unsupported(
                        "no command encoder for render pass (call BeginFrame first)",
                    )))));
                }
                self.recording_encoder = false;
                match pass.color_target {
                    PassColorTarget::Texture(_) => {
                        actions.push(FrameAction::DiscardEncoder);
                        return Some((actions, Err(Error::fatal(ErrorKind::Unsupported("render to texture not implemented")))));
                    },
                    PassColorTarget::Swapchain => {},
                }
                if !self.surface_texture {
                    actions.push(FrameAction::DiscardEncoder);
                    return Some((actions, Err(Error::fatal(ErrorKind::Unsupported(
                        "no surface texture (call AcquireSwapchainImage first)",
                    )))));
                }
                let sc = match self.swapchain {
                    None => {
                        actions.push(FrameAction::DiscardEncoder);
                        return Some((actions, Err(surface_not_attached_error())));
                    },
                    Some(sc) => sc,
                };
                let depth = if pass.uses_depth_attachment() {
                    let width = if sc.width == 0 { 1 } else { sc.width };
                    let height = if sc.height == 0 { 1 } else { sc.height };
                    let recreate = match self.depth_target {
                        Some(t) => t.0 != width || t.1 != height,
                        None => true,
                    };
                    if recreate {
                        actions.push(FrameAction::RecreateDepthTarget { width, height });
                    }
                    self.depth_target = Some((width, height));
                    Some(match pass.depth_load {
                        DepthAttachmentLoad::Load => DepthLoadOp::Load,
                        _ => DepthLoadOp::Clear,
                    })
                } else {
                    None
                };
                let ghost depth_actions = actions@;
                self.active_pass = Some(ActiveGraphicsPass { label: pass.name.clone() });
                if self.render_bundle {
                    match find_end_render_pass(commands, pos + 1) {
                        Some(end) => {
                            actions.push(FrameAction::RenderPass(RenderPassPlan {
                                command: pos,
                                color_format: sc.format,
                                color_load: pass.color_load,
                                depth,
                                bundle: BundlePlan::Replay,
                            }));
                            self.active_pass = None;
                            self.recording_encoder = true;
                            assert(actions@.subrange(0, depth_actions.len() as int) =~= depth_actions);
                            return Some((actions, Ok(end + 1)));
                        },
                        None => {
                            actions.push(FrameAction::DiscardEncoder);
                            assert(actions@.subrange(0, depth_actions.len() as int) =~= depth_actions);
                            return Some((actions, Err(Error::fatal(ErrorKind::Unsupported("missing EndRenderPass command")))));
                        },
                    }
                }
                let (created, ops, binds, recorded) = match self.try_record_render_pass(commands, pos + 1) {
                    Some(o) => o,
                    None => {
                        return None;
                    },
                };
                proof {
                    lemma_record_end_in_range(
                        old(self).resources,
                        true,
                        old(self).shader_modules.view(),
                        old(self).pipeline_cache.view(),
                        Seq::empty(),
                        Seq::empty(),
                        commands@,
                        pos + 1,
                    );
                }
                let ghost all_created = created@;
                let mut rest = created;
                let mut k: usize = 0;
                let total = rest.len();
                let ghost n = all_created.len();
                while rest.len() > 0
                    invariant
                        rest@ == all_created.subrange(k as int, n as int),
                        n == total,
                        k <= n,
                        n == all_created.len(),
                        actions@ == depth_actions + all_created.subrange(0, k as int).map_values(|c: PipelineCreation| FrameAction::Create(c)),
                    decreases rest@.len(),
                {
                    let c = rest.remove(0);
                    actions.push(FrameAction::Create(c));
                    k = k + 1;
                    assert(actions@ =~= depth_actions + all_created.subrange(0, k as int).map_values(|c: PipelineCreation| FrameAction::Create(c)));
                    assert(rest@ =~= all_created.subrange(k as int, n as int));
                }
                let ghost creations = actions@.subrange(depth_actions.len() as int, actions@.len() as int);
                assert(creations =~= all_created.map_values(|c: PipelineCreation| FrameAction::Create(c)));
                assert(creations.map_values(|a: FrameAction| a->Create_0) =~= all_created);
                match recorded {
                    Err(e) => {
                        actions.push(FrameAction::DiscardEncoder);
                        assert(actions@.subrange(0, depth_actions.len() as int) =~= depth_actions);
                        assert(actions@.subrange(depth_actions.len() as int, actions@.len() - 1) =~= creations);
                        Some((actions, Err(e)))
                    },
                    Ok(end) => {
                        self.render_bundle = true;
                        actions.push(FrameAction::RenderPass(RenderPassPlan {
                            command: pos,
                            color_format: sc.format,
                            color_load: pass.color_load,
                            depth,
                            bundle: BundlePlan::Record {
                                depth_stencil: pass.uses_depth_attachment(),
                                ops,
                                bindings: binds,
                            },
                        }));
                        self.active_pass = None;
                        self.recording_encoder = true;
                        assert(actions@.subrange(0, depth_actions.len() as int) =~= depth_actions);
                        assert(actions@.subrange(depth_actions.len() as int, actions@.len() - 1) =~= creations);
                        Some((actions, Ok(end + 1)))
                    },
                }
            },
            RhiCommand::SubmitFrame { present } => {
                if self.recording_encoder {
                    actions.push(FrameAction::Submit);
                    self.recording_encoder = false;
                }
                if *present && self.surface_texture {
                    actions.push(FrameAction::Present);
                    self.surface_texture = false;
                }
                proof {
                    let f = frame_of(*old(self));
                    assert(actions@ =~= (if f.0 { seq![FrameAction::Submit] } else { Seq::empty() })
                        + (if *present && f.1 { seq![FrameAction::Present] } else { Seq::empty() }));
                }
                Some((actions, Ok(pos + 1)))
            },
            _ => Some((actions, Ok(pos + 1))),
        }
    }
}

} // verus!
