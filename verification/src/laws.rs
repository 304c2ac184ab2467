//! Properties that hold across the operations of the backend.
use vstd::prelude::*;
use crate::bridge::{BridgeState, create_trace};
use crate::buffers::{GpuBufferUsages, spec_buffer_upload, spec_map_buffer_usage};
use crate::compute::dispatch_step;
use crate::error::{CoreSeverity, Error, Severity, is_core_error_of};
use crate::pipeline::MaterialPipelineKey;
use crate::render::{command_step, find_end, frame_of, frame_step, frame_step_via, lemma_record_end_in_range, run, run_prefix, spec_pipeline_for_draw, spec_record};
use crate::resources::{ResourceStorage, create_step, same_storage, update_step};
use crate::types::{
    BindGroupId, BindGroupLayoutId, BufferDescriptor, BufferId, ComputePassDescriptor,
    ComputePipelineId, MaterialId, MeshId, ResourceCreateDescriptor, ResourceHandle,
    ResourceUpdateDescriptor, RhiCommand, TextureId,
};
use crate::compute::{ComputeBindGroupKey, ComputeDispatchPlan};
use crate::resources::CreateAction;
use crate::render::{DrawOp, DrawBinding, FrameAction};

verus! {

/// Once the pipeline of a draw has been found, finding it again for the
/// same material, layout and depth flag hits the cache: it returns the
/// same key and compiles and builds nothing.
pub proof fn law_pipeline_cache_hit(
    st: ResourceStorage,
    attached: bool,
    sh: Set<u64>,
    pp: Set<MaterialPipelineKey>,
    material: MaterialId,
    layout_id: u64,
    depth: bool,
)
    ensures
        ({
            let (sh1, pp1, r1) = spec_pipeline_for_draw(st, attached, sh, pp, material, layout_id, depth);
            r1 is Ok ==> spec_pipeline_for_draw(st, attached, sh1, pp1, material, layout_id, depth) == (sh1, pp1, r1)
        }),
{
}

/// A material that does not test depth gets the same pipeline whether or
/// not the draw asks for depth.
pub proof fn law_depth_flag_needs_material_depth(
    st: ResourceStorage,
    attached: bool,
    sh: Set<u64>,
    pp: Set<MaterialPipelineKey>,
    material: MaterialId,
    layout_id: u64,
)
    requires
        st.materials@.contains_key(material.0),
        !st.materials@[material.0].enable_depth,
    ensures
        spec_pipeline_for_draw(st, attached, sh, pp, material, layout_id, true)
            == spec_pipeline_for_draw(st, attached, sh, pp, material, layout_id, false),
{
}

/// A successful material update drops exactly the cached pipelines of that
/// material.
pub proof fn law_material_update_drops_its_pipelines(
    s0: ResourceStorage,
    p0: Set<MaterialPipelineKey>,
    u: ResourceUpdateDescriptor,
    s1: ResourceStorage,
    p1: Set<MaterialPipelineKey>,
    actions: Seq<crate::resources::UpdateAction>,
)
    requires
        u is Material,
        update_step(s0, p0, u, s1, p1, actions, Ok(())),
    ensures
        forall|k: MaterialPipelineKey| #[trigger] p1.contains(k) <==> p0.contains(k) && k.material_id != u->Material_id,
{
}

/// The handle that creating a resource from `d` returns: the descriptor's
/// id under the descriptor's kind.
pub open spec fn descriptor_handle(d: ResourceCreateDescriptor) -> ResourceHandle {
    match d {
        ResourceCreateDescriptor::Mesh { id, .. } => ResourceHandle::Mesh(MeshId(id)),
        ResourceCreateDescriptor::Material { id, .. } => ResourceHandle::Material(MaterialId(id)),
        ResourceCreateDescriptor::Texture { id, .. } => ResourceHandle::Texture(TextureId(id)),
        ResourceCreateDescriptor::Buffer { id, .. } => ResourceHandle::Buffer(BufferId(id)),
        ResourceCreateDescriptor::BindGroupLayout { id, .. } => ResourceHandle::BindGroupLayout(BindGroupLayoutId(id)),
        ResourceCreateDescriptor::BindGroup { id, .. } => ResourceHandle::BindGroup(BindGroupId(id)),
        ResourceCreateDescriptor::ComputePipeline { id, .. } => ResourceHandle::ComputePipeline(ComputePipelineId(id)),
    }
}

/// An accepted resource is returned as the handle of its own id and kind;
/// a refused one changes no resource, caches no shader and creates no GPU
/// object.
pub proof fn law_create_outcome(
    s0: ResourceStorage,
    k0: Set<u64>,
    d: ResourceCreateDescriptor,
    s1: ResourceStorage,
    k1: Set<u64>,
    actions: Seq<CreateAction>,
    r: Result<ResourceHandle, Error>,
)
    requires
        create_step(s0, k0, d, s1, k1, actions, r),
    ensures
        r matches Ok(h) ==> h == descriptor_handle(d),
        r is Err ==> same_storage(s0, s1) && k1 == k0 && actions.len() == 0,
{
}

/// A batch that succeeds returns, in order, the handle of each of its
/// descriptors.
pub proof fn law_batch_handles(
    descs: Seq<ResourceCreateDescriptor>,
    states: Seq<ResourceStorage>,
    keys: Seq<Set<u64>>,
    acts: Seq<Seq<CreateAction>>,
    handles: Seq<ResourceHandle>,
)
    requires
        create_trace(descs, states, keys, acts, handles, None),
        acts.len() == descs.len(),
    ensures
        handles == descs.map_values(|d: ResourceCreateDescriptor| descriptor_handle(d)),
{
    assert forall|i: int| 0 <= i < handles.len() implies handles[i] == descriptor_handle(descs[i]) by {
        assert(create_step(states[i], keys[i], descs[i], states[i + 1], keys[i + 1], acts[i], Ok(handles[i])));
        law_create_outcome(states[i], keys[i], descs[i], states[i + 1], keys[i + 1], acts[i], Ok(handles[i]));
    }
    assert(handles =~= descs.map_values(|d: ResourceCreateDescriptor| descriptor_handle(d)));
}

/// Once a compute pass has been dispatched, dispatching it again reuses
/// its cached bind groups: nothing is cached or created anew.
pub proof fn law_compute_bind_groups_reused(
    st: ResourceStorage,
    c0: Set<ComputeBindGroupKey>,
    pass: ComputePassDescriptor,
    c1: Set<ComputeBindGroupKey>,
    r1: Result<ComputeDispatchPlan, Error>,
    c2: Set<ComputeBindGroupKey>,
    r2: Result<ComputeDispatchPlan, Error>,
)
    requires
        dispatch_step(st, c0, pass, c1, r1),
        r1 is Ok,
        dispatch_step(st, c1, pass, c2, r2),
    ensures
        c2 == c1,
        r2 matches Ok(plan) && plan.create is None && plan.key == r1->Ok_0.key,
{
}

/// Every severity but a fatal one is reported as a warning: a reported
/// error is fatal exactly when the backend's error is.
pub proof fn law_core_error_keeps_fatality(e: Error, c: crate::error::CoreError)
    requires
        is_core_error_of(e, c),
    ensures
        c.severity == CoreSeverity::Fatal <==> e.severity == Severity::Fatal,
        c.severity == CoreSeverity::Fatal || c.severity == CoreSeverity::Warning,
{
}

/// Every buffer can be copied into and has exactly the uses its descriptor
/// asks for, or, when it asks for none, the one its main usage names.
pub proof fn law_buffer_usage(desc: BufferDescriptor)
    ensures
        spec_map_buffer_usage(desc).copy_dst,
        desc.usages.vertex ==> spec_map_buffer_usage(desc).vertex,
        desc.usages.index ==> spec_map_buffer_usage(desc).index,
        desc.usages.uniform ==> spec_map_buffer_usage(desc).uniform,
        desc.usages.storage ==> spec_map_buffer_usage(desc).storage,
{
}

/// An uploaded buffer is never empty, its size is a multiple of the copy
/// alignment, and it begins with the data, followed by zeros.
pub proof fn law_buffer_upload(usage: GpuBufferUsages, data: Seq<u8>)
    requires
        data.len() + 4 <= u64::MAX,
    ensures
        ({
            let (size, contents) = spec_buffer_upload(usage, data);
            &&& size >= 1 && size >= data.len() && size % 4 == 0
            &&& contents is None <==> data.len() == 0
            &&& contents matches Some(c) ==> c.len() == size && c.subrange(0, data.len() as int) == data
                && forall|i: int| data.len() <= i < size ==> c[i] == 0
        }),
{
    let n = if data.len() == 0 { 1u64 } else { data.len() as u64 };
    crate::buffers::lemma_align_to(n, 4);
    let (size, contents) = spec_buffer_upload(usage, data);
    if let Some(c) = contents {
        assert(c.subrange(0, data.len() as int) =~= data);
    }
}

/// Recording the draws of a render pass only adds shader modules and
/// pipelines to the caches.
pub proof fn law_recording_only_adds_to_caches(
    st: ResourceStorage,
    attached: bool,
    sh: Set<u64>,
    pp: Set<MaterialPipelineKey>,
    ops: Seq<DrawOp>,
    binds: Seq<DrawBinding>,
    cmds: Seq<RhiCommand>,
    pos: int,
)
    ensures
        ({
            let (sh1, pp1, _o, _b, _r) = spec_record(st, attached, sh, pp, ops, binds, cmds, pos);
            sh.subset_of(sh1) && pp.subset_of(pp1)
        }),
    decreases cmds.len() - pos,
{
    if 0 <= pos < cmds.len() {
        match cmds[pos] {
            RhiCommand::BindGraphicsPipeline { material, mesh, depth_enabled } => {
                if st.meshes@.contains_key(mesh.0) {
                    let info = st.meshes@[mesh.0];
                    let (sh1, pp1, r) = spec_pipeline_for_draw(st, attached, sh, pp, material, info.vertex_layout_id, depth_enabled);
                    if r is Ok {
                        law_recording_only_adds_to_caches(st, attached, sh1, pp1, ops.push(crate::render::new_draw(r->Ok_0)), binds, cmds, pos + 1);
                    }
                }
            },
            RhiCommand::BindDescriptorSets { first_set, bind_groups, .. } => {
                let binds1 = if ops.len() > 0 { binds + crate::render::set_bindings(ops.len() - 1, first_set, bind_groups@) } else { binds };
                law_recording_only_adds_to_caches(st, attached, sh, pp, ops, binds1, cmds, pos + 1);
            },
            RhiCommand::SetVertexBuffers { mesh, .. } => {
                law_recording_only_adds_to_caches(st, attached, sh, pp, crate::render::update_last(ops, |op: DrawOp| DrawOp { vertex_buffer: Some(mesh), ..op }), binds, cmds, pos + 1);
            },
            RhiCommand::SetIndexBuffer { mesh } => {
                if st.meshes@.contains_key(mesh.0) {
                    let format = st.meshes@[mesh.0].index_format;
                    law_recording_only_adds_to_caches(st, attached, sh, pp, crate::render::update_last(ops, |op: DrawOp| DrawOp { index_buffer: Some(mesh), index_format: format, ..op }), binds, cmds, pos + 1);
                }
            },
            RhiCommand::DrawIndexed { index_count, instance_count, first_index, vertex_offset, first_instance } => {
                law_recording_only_adds_to_caches(st, attached, sh, pp, crate::render::update_last(ops, |op: DrawOp| DrawOp {
                    index_count,
                    instance_count,
                    first_index,
                    vertex_offset,
                    first_instance,
                    ..op
                }), binds, cmds, pos + 1);
            },
            RhiCommand::EndRenderPass => {},
            _ => {
                law_recording_only_adds_to_caches(st, attached, sh, pp, ops, binds, cmds, pos + 1);
            },
        }
    }
}

/// Dispatching a compute pass only adds bind group keys to the cache.
pub proof fn law_dispatch_only_adds_to_cache(
    st: ResourceStorage,
    c0: Set<ComputeBindGroupKey>,
    pass: ComputePassDescriptor,
    c1: Set<ComputeBindGroupKey>,
    r: Result<ComputeDispatchPlan, Error>,
)
    requires
        dispatch_step(st, c0, pass, c1, r),
    ensures
        c0.subset_of(c1),
{
    let intents = pass.buffer_intents@;
    if st.compute_pipelines@.contains_key(pass.pipeline.0) && intents.len() > 0 {
        let key = ComputeBindGroupKey { pipeline: pass.pipeline, buffer: intents[0].buffer };
        if !c0.contains(key) {
            let sets = choose|sets: Seq<u32>| #[trigger] crate::compute::is_set_list(intents, sets) && match crate::compute::groups_fault(
                st,
                st.compute_pipelines@[pass.pipeline.0] as int,
                intents,
                sets,
                sets.len() as int,
            ) {
                Some(e) => r == Err::<ComputeDispatchPlan, Error>(e) && c1 == c0,
                None => c1 == c0.insert(key) && r is Ok,
            };
        }
    }
}

/// Running a command never changes the resources or the surface, only adds
/// to the caches, keeps a recorded bundle, and moves the frame index only
/// on `BeginFrame`.
pub proof fn law_command_keeps_state(
    b0: BridgeState,
    cmds: Seq<RhiCommand>,
    pos: int,
    b1: BridgeState,
    actions: Seq<FrameAction>,
    r: Result<usize, Error>,
)
    requires
        0 <= pos < cmds.len(),
        command_step(b0, cmds, pos, b1, actions, r),
    ensures
        b1.resources == b0.resources,
        b1.swapchain == b0.swapchain,
        b1.pending_acquire_skips == b0.pending_acquire_skips,
        b0.shader_modules.view().subset_of(b1.shader_modules.view()),
        b0.pipeline_cache.view().subset_of(b1.pipeline_cache.view()),
        b0.compute_bind_groups.view().subset_of(b1.compute_bind_groups.view()),
        b0.render_bundle ==> b1.render_bundle,
        !(cmds[pos] is BeginFrame) ==> b1.current_frame_index == b0.current_frame_index,
{
    match cmds[pos] {
        RhiCommand::DispatchCompute(pass) => {
            match r {
                Ok(_) => {
                    let plan = actions[0]->Dispatch_0;
                    law_dispatch_only_adds_to_cache(b0.resources, b0.compute_bind_groups.view(), pass, b1.compute_bind_groups.view(), Ok(plan));
                },
                Err(e) => {
                    law_dispatch_only_adds_to_cache(b0.resources, b0.compute_bind_groups.view(), pass, b1.compute_bind_groups.view(), Err(e));
                },
            }
        },
        RhiCommand::BeginRenderPass { .. } => {
            law_recording_only_adds_to_caches(
                b0.resources,
                true,
                b0.shader_modules.view(),
                b0.pipeline_cache.view(),
                Seq::empty(),
                Seq::empty(),
                cmds,
                pos + 1,
            );
        },
        _ => {},
    }
}

/// `BeginFrame` counts the frame, starts an encoder and ends any pass.
pub proof fn law_begin_frame(
    b0: BridgeState,
    cmds: Seq<RhiCommand>,
    pos: int,
    b1: BridgeState,
    actions: Seq<FrameAction>,
    r: Result<usize, Error>,
)
    requires
        0 <= pos < cmds.len(),
        cmds[pos] is BeginFrame,
        b0.current_frame_index < u32::MAX,
        command_step(b0, cmds, pos, b1, actions, r),
    ensures
        b1.current_frame_index == b0.current_frame_index + 1,
        b1.recording_encoder,
        b1.active_pass is None,
        b1.surface_texture == b0.surface_texture,
        r == Ok::<usize, Error>((pos + 1) as usize),
{
}

/// `SubmitFrame` leaves no encoder; when it presents, it gives up the
/// surface texture, and otherwise keeps it.
pub proof fn law_submit_frame(
    b0: BridgeState,
    cmds: Seq<RhiCommand>,
    pos: int,
    b1: BridgeState,
    actions: Seq<FrameAction>,
    r: Result<usize, Error>,
)
    requires
        0 <= pos < cmds.len(),
        cmds[pos] is SubmitFrame,
        command_step(b0, cmds, pos, b1, actions, r),
    ensures
        !b1.recording_encoder,
        b1.surface_texture == (b0.surface_texture && !cmds[pos]->present),
        actions.contains(FrameAction::Submit) <==> b0.recording_encoder,
        actions.contains(FrameAction::Present) <==> (b0.surface_texture && cmds[pos]->present),
        r == Ok::<usize, Error>((pos + 1) as usize),
{
    let present = cmds[pos]->present;
    if b0.recording_encoder {
        assert(actions[0] == FrameAction::Submit);
    }
    if b0.surface_texture && present {
        assert(actions[actions.len() - 1] == FrameAction::Present);
    }
}

/// A render pass begun without an encoder fails and changes nothing.
pub proof fn law_render_pass_needs_encoder(
    b0: BridgeState,
    cmds: Seq<RhiCommand>,
    pos: int,
    b1: BridgeState,
    actions: Seq<FrameAction>,
    r: Result<usize, Error>,
)
    requires
        0 <= pos < cmds.len(),
        cmds[pos] is BeginRenderPass,
        !b0.recording_encoder,
        command_step(b0, cmds, pos, b1, actions, r),
    ensures
        r is Err,
        frame_of(b1) == frame_of(b0),
        actions.len() == 0,
{
}

/// The first `EndRenderPass` found from `from` on lies at or after `from`.
proof fn lemma_find_end_range(cmds: Seq<RhiCommand>, from: int)
    ensures
        find_end(cmds, from) matches Some(e) ==> from <= e < cmds.len(),
    decreases cmds.len() - from,
{
    if 0 <= from < cmds.len() && !(cmds[from] is EndRenderPass) {
        lemma_find_end_range(cmds, from + 1);
    }
}

/// A step of the frame loop that succeeds continues at a later command.
proof fn lemma_step_advances(b0: BridgeState, cmds: Seq<RhiCommand>, pos: int, b1: BridgeState, next: usize)
    requires
        0 <= pos < cmds.len(),
        cmds.len() <= usize::MAX,
        frame_step(b0, cmds, pos, b1, Ok(next)),
    ensures
        pos < next,
{
    let (mid, actions, r0, acquired, ra) = choose|mid: BridgeState, actions: Seq<FrameAction>, r0: Result<usize, Error>, acquired: bool, ra: Result<(), Error>|
        #[trigger] frame_step_via(b0, cmds, pos, b1, Ok(next), mid, actions, r0, acquired, ra);
    assert(r0 == Ok::<usize, Error>(next));
    if cmds[pos] is BeginRenderPass {
        lemma_find_end_range(cmds, pos + 1);
        lemma_record_end_in_range(
            b0.resources,
            true,
            b0.shader_modules.view(),
            b0.pipeline_cache.view(),
            Seq::empty(),
            Seq::empty(),
            cmds,
            pos + 1,
        );
    }
}

/// The frame loop runs the commands in order, each at most once, and stops
/// at the first error: the positions of the commands it runs strictly
/// increase, every command before the last one run succeeded, and on an
/// error the last command run is the one that failed, with that error.
pub proof fn law_run_in_order(bs: Seq<BridgeState>, ps: Seq<int>, cmds: Seq<RhiCommand>, r: Result<(), Error>)
    requires
        run(bs, ps, cmds, r),
        cmds.len() <= usize::MAX,
    ensures
        bs.len() == ps.len(),
        r is Ok ==> forall|i: int| 0 <= i < bs.len() - 1 ==> #[trigger] ps[i] < ps[i + 1],
        r is Err ==> forall|i: int| 0 <= i < bs.len() - 2 ==> #[trigger] ps[i] < ps[i + 1],
        forall|i: int| 0 <= i < bs.len() - 2 ==> frame_step(bs[i], cmds, #[trigger] ps[i], bs[i + 1], Ok(ps[i + 1] as usize)),
        r matches Err(e) ==> frame_step(bs[bs.len() - 2], cmds, ps[bs.len() - 2], bs[bs.len() - 1], Err::<usize, Error>(e)),
        r is Ok ==> ps[ps.len() - 1] >= cmds.len(),
{
    match r {
        Ok(_) => {
            assert forall|i: int| 0 <= i < bs.len() - 1 implies #[trigger] ps[i] < ps[i + 1] by {
                assert(0 <= ps[i] < cmds.len());
                lemma_step_advances(bs[i], cmds, ps[i], bs[i + 1], ps[i + 1] as usize);
            }
        },
        Err(e) => {
            let bs0 = bs.drop_last();
            let ps0 = ps.drop_last();
            assert forall|i: int| 0 <= i < bs.len() - 2 implies frame_step(bs[i], cmds, #[trigger] ps[i], bs[i + 1], Ok(ps[i + 1] as usize))
                && ps[i] < ps[i + 1] by {
                assert(bs0[i] == bs[i] && bs0[i + 1] == bs[i + 1]);
                assert(ps0[i] == ps[i] && ps0[i + 1] == ps[i + 1]);
                assert(0 <= ps0[i] < cmds.len());
                lemma_step_advances(bs[i], cmds, ps[i], bs[i + 1], ps[i + 1] as usize);
            }
        },
    }
}

/// A step of the frame loop that succeeds leaves no pass active when none
/// was: a pass that begins and ends well is closed, and a new frame closes
/// any pass.
proof fn lemma_step_keeps_no_pass(b0: BridgeState, cmds: Seq<RhiCommand>, pos: int, b1: BridgeState, next: usize)
    requires
        0 <= pos < cmds.len(),
        frame_step(b0, cmds, pos, b1, Ok(next)),
        b0.active_pass is None,
    ensures
        b1.active_pass is None,
{
    let (mid, actions, r0, acquired, ra) = choose|mid: BridgeState, actions: Seq<FrameAction>, r0: Result<usize, Error>, acquired: bool, ra: Result<(), Error>|
        #[trigger] frame_step_via(b0, cmds, pos, b1, Ok(next), mid, actions, r0, acquired, ra);
    assert(r0 == Ok::<usize, Error>(next));
    assert(frame_of(mid).4 is None);
}

/// A run of the frame loop that succeeds, from a backend with no active
/// pass, ends with no active pass.
pub proof fn law_run_clears_active_pass(bs: Seq<BridgeState>, ps: Seq<int>, cmds: Seq<RhiCommand>)
    requires
        run(bs, ps, cmds, Ok(())),
        bs[0].active_pass is None,
    ensures
        bs[bs.len() - 1].active_pass is None,
{
    lemma_no_pass_up_to(bs, ps, cmds, bs.len() - 1);
}

/// In a run of successful steps from a backend with no active pass, no
/// state up to `k` has an active pass.
proof fn lemma_no_pass_up_to(bs: Seq<BridgeState>, ps: Seq<int>, cmds: Seq<RhiCommand>, k: int)
    requires
        run_prefix(bs, ps, cmds),
        bs[0].active_pass is None,
        0 <= k < bs.len(),
    ensures
        bs[k].active_pass is None,
    decreases k,
{
    if k > 0 {
        lemma_no_pass_up_to(bs, ps, cmds, k - 1);
        assert(0 <= ps[k - 1] < cmds.len());
        lemma_step_keeps_no_pass(bs[k - 1], cmds, ps[k - 1], bs[k], ps[k] as usize);
    }
}

/// One turn of the frame loop is a step of a run: running the command,
/// then, after `AcquireSwapchainImage`, reporting the acquisition, is a
/// `frame_step` with the step's result, or the report's error.
pub proof fn law_loop_turn_is_frame_step(
    b0: BridgeState,
    cmds: Seq<RhiCommand>,
    pos: int,
    mid: BridgeState,
    actions: Seq<FrameAction>,
    r0: Result<usize, Error>,
    acquired: bool,
    b1: BridgeState,
    ra: Result<(), Error>,
)
    requires
        command_step(b0, cmds, pos, mid, actions, r0),
        cmds[pos] is AcquireSwapchainImage ==> crate::render::acquire_step(mid, acquired, b1, ra),
        !(cmds[pos] is AcquireSwapchainImage) ==> b1 == mid,
    ensures
        frame_step(b0, cmds, pos, b1, if cmds[pos] is AcquireSwapchainImage {
            match ra {
                Ok(_) => r0,
                Err(e) => Err::<usize, Error>(e),
            }
        } else {
            r0
        }),
{
    let r = if cmds[pos] is AcquireSwapchainImage {
        match ra {
            Ok(_) => r0,
            Err(e) => Err::<usize, Error>(e),
        }
    } else {
        r0
    };
    assert(frame_step_via(b0, cmds, pos, b1, r, mid, actions, r0, acquired, ra));
}

/// A batch that fails stops at its first refused resource: every resource
/// before it was created, the refused one changes no resource, caches no
/// shader and creates nothing, and no resource after it is looked at.
pub proof fn law_batch_stops_at_refusal(
    descs: Seq<ResourceCreateDescriptor>,
    states: Seq<ResourceStorage>,
    keys: Seq<Set<u64>>,
    acts: Seq<Seq<CreateAction>>,
    handles: Seq<ResourceHandle>,
    e: Error,
)
    requires
        create_trace(descs, states, keys, acts, handles, Some(e)),
    ensures
        acts.len() >= 1 && handles.len() == acts.len() - 1 && acts.len() <= descs.len(),
        forall|i: int| 0 <= i < handles.len() ==> handles[i] == descriptor_handle(#[trigger] descs[i]),
        same_storage(states[acts.len() - 1], states[acts.len() as int]),
        keys[acts.len() as int] == keys[acts.len() - 1],
        acts[acts.len() - 1].len() == 0,
        states.len() == acts.len() + 1,
{
    let n = acts.len() as int;
    assert forall|i: int| 0 <= i < handles.len() implies handles[i] == descriptor_handle(#[trigger] descs[i]) by {
        assert(create_step(states[i], keys[i], descs[i], states[i + 1], keys[i + 1], acts[i], Ok(handles[i])));
        law_create_outcome(states[i], keys[i], descs[i], states[i + 1], keys[i + 1], acts[i], Ok(handles[i]));
    }
    assert(create_step(states[n - 1], keys[n - 1], descs[n - 1], states[n], keys[n], acts[n - 1], Err(e)));
    law_create_outcome(states[n - 1], keys[n - 1], descs[n - 1], states[n], keys[n], acts[n - 1], Err(e));
}

/// Binding groups `g_0 .. g_{n-1}` to draw `op` from set `first_set` binds
/// each group `g_i` to that draw at set `first_set + i`, in order: no two
/// groups share a set, so none replaces another.
pub proof fn law_bind_groups_take_consecutive_sets(op: int, first_set: u32, groups: Seq<BindGroupId>)
    requires
        0 <= op <= usize::MAX,
        first_set + groups.len() <= u32::MAX + 1,
    ensures
        crate::render::set_bindings(op, first_set, groups).len() == groups.len(),
        forall|i: int| 0 <= i < groups.len() ==> {
            let b = #[trigger] crate::render::set_bindings(op, first_set, groups)[i];
            &&& b.0 == op
            &&& b.1 == first_set + i
            &&& b.2 == groups[i]
        },
        forall|i: int, j: int| 0 <= i < j < groups.len() ==> #[trigger] crate::render::set_bindings(op, first_set, groups)[i].1
            != #[trigger] crate::render::set_bindings(op, first_set, groups)[j].1,
{
}

/// The binding of a compute buffer intent keeps the intent's binding,
/// buffer and offset; a size of zero binds the rest of the buffer, any other
/// size binds exactly that many bytes.
pub proof fn law_compute_binding_keeps_range(intent: crate::types::BufferUsageIntent)
    ensures
        crate::compute::spec_compute_buffer_binding(intent).binding == intent.binding,
        crate::compute::spec_compute_buffer_binding(intent).buffer == intent.buffer,
        crate::compute::spec_compute_buffer_binding(intent).offset == intent.offset,
        intent.size == 0 ==> crate::compute::spec_compute_buffer_binding(intent).size is None,
        intent.size != 0 ==> crate::compute::spec_compute_buffer_binding(intent).size == Some(intent.size),
{
}

/// A binding is visible to a shader stage exactly when its declaration asks
/// for that stage.
pub proof fn law_stages_visible_as_declared(stages: crate::types::ShaderStageFlags)
    ensures
        crate::bindings::spec_map_shader_stages(stages).vertex == stages.vertex,
        crate::bindings::spec_map_shader_stages(stages).fragment == stages.fragment,
        crate::bindings::spec_map_shader_stages(stages).compute == stages.compute,
{
}

/// A bind group entry keeps its binding and what it names: a buffer entry
/// keeps its buffer and offset, binds the rest of the buffer for a size of
/// zero and exactly its size otherwise; a texture entry binds the texture's
/// view.
pub proof fn law_bind_group_entry_keeps_range(e: crate::types::BindGroupEntryDescriptor)
    ensures
        match e {
            crate::types::BindGroupEntryDescriptor::Buffer { binding, buffer, offset, size } => {
                crate::resources::spec_bind_group_entry(e) matches crate::resources::GpuBindGroupEntry::Buffer {
                    binding: b,
                    buffer: f,
                    offset: o,
                    size: z,
                } && b == binding && f == buffer && o == offset && (size == 0 ==> z is None) && (size != 0 ==> z == Some(size))
            },
            crate::types::BindGroupEntryDescriptor::Texture { binding, texture } => {
                crate::resources::spec_bind_group_entry(e) matches crate::resources::GpuBindGroupEntry::TextureView {
                    binding: b,
                    texture: t,
                } && b == binding && t == texture
            },
        },
{
}

/// The bytes that `n` indices of a format take: two for 16-bit indices,
/// four for 32-bit ones.
pub open spec fn index_bytes(format: crate::types::IndexFormat, n: int) -> int {
    match format {
        crate::types::IndexFormat::Uint16 => 2 * n,
        crate::types::IndexFormat::Uint32 => 4 * n,
    }
}

/// A mesh is accepted only with indices whose data holds exactly
/// `index_count` indices of its format, and with vertex data when its first
/// stream carries its own; index data of any other length is refused as a
/// size mismatch when nothing earlier refuses the mesh.
pub proof fn law_mesh_index_data_exact(mesh: crate::types::MeshDescriptor)
    requires
        mesh.vertex_streams@.len() > 0,
    ensures
        crate::mesh::spec_mesh_error(mesh) is None ==> {
            &&& mesh.index_count > 0
            &&& mesh.index_data@.len() == index_bytes(mesh.index_format, mesh.index_count as int)
            &&& mesh.vertex_streams@[0].data matches crate::types::VertexStreamData::Static(d) ==> d@.len() > 0
        },
        ({
            &&& mesh.index_count > 0
            &&& mesh.index_data@.len() > 0
            &&& !(mesh.vertex_streams@[0].data matches crate::types::VertexStreamData::Static(d) && d@.len() == 0)
            &&& index_bytes(mesh.index_format, mesh.index_count as int) <= usize::MAX
            &&& mesh.index_data@.len() != index_bytes(mesh.index_format, mesh.index_count as int)
        }) ==> crate::mesh::spec_mesh_error(mesh) == Some(crate::error::recoverable_error(
            crate::error::ErrorKind::InvalidDescriptor("mesh_index_data_size_mismatch"),
        )),
{
    let n = mesh.index_count as int;
    let k = crate::types::spec_index_format_size(mesh.index_format) as int;
    match mesh.index_format {
        crate::types::IndexFormat::Uint16 => {
            assert(k == 2);
            assert(n * k == 2 * n) by (nonlinear_arith)
                requires
                    k == 2,
            ;
        },
        crate::types::IndexFormat::Uint32 => {
            assert(k == 4);
            assert(n * k == 4 * n) by (nonlinear_arith)
                requires
                    k == 4,
            ;
        },
    }
    assert(n * k == index_bytes(mesh.index_format, n));
}

} // verus!
