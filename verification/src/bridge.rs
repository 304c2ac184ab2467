//! The state of the backend and the batch operations on its resources.
use vstd::prelude::*;
use crate::compute::ComputeBindGroupCache;
use crate::error::{Error, ErrorKind, fatal_error, surface_not_attached_error};
use crate::pipeline::{MaterialPipelineKey, PipelineCache};
use crate::resources::{
    CreateAction, ResourceStorage, UpdateAction, create_descriptor_ok, create_step,
    update_descriptor_ok, update_step,
};
use crate::shader::{ShaderModuleCache, package_is_compilable};
use crate::mesh::mesh_is_within_limits;
use crate::types::{
    CreatedResources, ResourceBatchCreate, ResourceBatchUpdate, ResourceCreateDescriptor,
    Extent2D, ResourceHandle, ResourceUpdateDescriptor, TextureId, TextureReadback,
};

verus! {

/// The attached surface as it is configured: its size and the format of
/// its textures.
#[derive(Clone, Copy, Debug, PartialEq, Eq, Hash)]
pub struct SwapchainInfo {
    pub width: u32,
    pub height: u32,
    pub format: wgpu::TextureFormat,
}

/// The render pass being recorded.
#[derive(Clone, Debug, PartialEq, Eq)]
pub struct ActiveGraphicsPass {
    pub label: String,
}

/// Everything the backend decides with: its resources, its caches, the
/// surface, and the state of the frame being recorded.
pub struct BridgeState {
    pub resources: ResourceStorage,
    pub shader_modules: ShaderModuleCache,
    pub pipeline_cache: PipelineCache,
    pub compute_bind_groups: ComputeBindGroupCache,
    pub swapchain: Option<SwapchainInfo>,
    pub recording_encoder: bool,
    pub surface_texture: bool,
    pub current_frame_index: u32,
    pub active_pass: Option<ActiveGraphicsPass>,
    pub depth_target: Option<(u32, u32)>,
    pub render_bundle: bool,
    pub pending_acquire_skips: u32,
}

impl BridgeState {
    /// The caches hold each key once.
    pub open spec fn wf(&self) -> bool {
        self.pipeline_cache.wf() && self.compute_bind_groups.wf()
    }

    /// A backend without resources, surface or frame.
    pub fn new() -> (b: BridgeState)
        ensures
            b.wf(),
            b.resources.meshes@.len() == 0,
            b.resources.materials@.len() == 0,
            b.resources.textures@.len() == 0,
            b.resources.buffers@.len() == 0,
            b.resources.bind_group_layouts@.len() == 0,
            b.resources.bind_groups@.len() == 0,
            b.resources.compute_pipelines@.len() == 0,
            b.shader_modules.view().len() == 0,
            b.pipeline_cache.view().len() == 0,
            b.compute_bind_groups.view().len() == 0,
            b.swapchain is None,
            !b.recording_encoder,
            !b.surface_texture,
            b.current_frame_index == 0,
            b.active_pass is None,
            b.depth_target is None,
            !b.render_bundle,
            b.pending_acquire_skips == 0,
    {
        BridgeState {
            resources: ResourceStorage::new(),
            shader_modules: ShaderModuleCache::new(),
            pipeline_cache: PipelineCache::new(),
            compute_bind_groups: ComputeBindGroupCache::new(),
            swapchain: None,
            recording_encoder: false,
            surface_texture: false,
            current_frame_index: 0,
            active_pass: None,
            depth_target: None,
            render_bundle: false,
            pending_acquire_skips: 0,
        }
    }
}

/// The error of a result, if it is one.
pub open spec fn err_of<T>(r: Result<T, Error>) -> Option<Error> {
    match r {
        Ok(_) => None,
        Err(e) => Some(e),
    }
}

/// The concatenation of the sequences, in order.
pub open spec fn concat_all<A>(s: Seq<Seq<A>>) -> Seq<A>
    decreases s.len(),
{
    if s.len() == 0 { Seq::empty() } else { concat_all(s.drop_last()) + s.last() }
}

/// Whether the trace describes creating the first `n` resources of
/// `descs` from `(s0, k0)`: step `i` goes from state `i` to state `i + 1`,
/// asks for `acts[i]` and returns the handle `i`, except that when `err` is
/// set the last step returns that error and ends the batch.
pub open spec fn create_trace(
    descs: Seq<ResourceCreateDescriptor>,
    states: Seq<ResourceStorage>,
    keys: Seq<Set<u64>>,
    acts: Seq<Seq<CreateAction>>,
    handles: Seq<ResourceHandle>,
    err: Option<Error>,
) -> bool {
    let n = acts.len();
    &&& states.len() == n + 1 && keys.len() == n + 1
    &&& n <= descs.len()
    &&& match err {
        None => handles.len() == n,
        Some(_) => n > 0 && handles.len() == n - 1,
    }
    &&& forall|i: int| 0 <= i < n ==> create_step(
        #[trigger] states[i],
        keys[i],
        descs[i],
        states[i + 1],
        keys[i + 1],
        acts[i],
        if i < handles.len() { Ok(handles[i]) } else { Err(err->Some_0) },
    )
}

/// Whether the trace describes applying the first `n` updates of `ups`,
/// the last of which returned `err` when it is set.
pub open spec fn update_trace(
    ups: Seq<ResourceUpdateDescriptor>,
    states: Seq<ResourceStorage>,
    pipes: Seq<Set<MaterialPipelineKey>>,
    acts: Seq<Seq<UpdateAction>>,
    err: Option<Error>,
) -> bool {
    let n = acts.len();
    &&& states.len() == n + 1 && pipes.len() == n + 1
    &&& n <= ups.len()
    &&& err is Some ==> n > 0
    &&& forall|i: int| 0 <= i < n ==> update_step(
        #[trigger] states[i],
        pipes[i],
        ups[i],
        states[i + 1],
        pipes[i + 1],
        acts[i],
        if err is Some && i == n - 1 { Err(err->Some_0) } else { Ok(()) },
    )
}

/// Whether creating the batch `descs` from `(s0, k0)` never reaches a
/// resource whose creation would panic: every resource that the resources
/// before it, all created, leave to be created is fine.
pub open spec fn batch_create_safe(s0: ResourceStorage, k0: Set<u64>, descs: Seq<ResourceCreateDescriptor>) -> bool {
    forall|states: Seq<ResourceStorage>, keys: Seq<Set<u64>>, acts: Seq<Seq<CreateAction>>, handles: Seq<ResourceHandle>|
        #[trigger] create_trace(descs, states, keys, acts, handles, None) && states[0] == s0 && keys[0] == k0
            && acts.len() < descs.len() ==> create_descriptor_ok(keys.last(), descs[acts.len() as int])
}

/// Whether applying the batch `ups` from `(s0, p0)` never reaches an
/// update that would panic.
pub open spec fn batch_update_safe(s0: ResourceStorage, p0: Set<MaterialPipelineKey>, ups: Seq<ResourceUpdateDescriptor>) -> bool {
    forall|states: Seq<ResourceStorage>, pipes: Seq<Set<MaterialPipelineKey>>, acts: Seq<Seq<UpdateAction>>|
        #[trigger] update_trace(ups, states, pipes, acts, None) && states[0] == s0 && pipes[0] == p0
            && acts.len() < ups.len() ==> update_descriptor_ok(ups[acts.len() as int])
}

/// A creation trace that reaches a resource whose creation would panic
/// shows the batch unsafe.
proof fn lemma_create_unsafe_reached(
    s0: ResourceStorage,
    k0: Set<u64>,
    descs: Seq<ResourceCreateDescriptor>,
    states: Seq<ResourceStorage>,
    keys: Seq<Set<u64>>,
    acts: Seq<Seq<CreateAction>>,
    handles: Seq<ResourceHandle>,
)
    requires
        create_trace(descs, states, keys, acts, handles, None),
        states[0] == s0 && keys[0] == k0,
        acts.len() < descs.len(),
        !create_descriptor_ok(keys.last(), descs[acts.len() as int]),
    ensures
        !batch_create_safe(s0, k0, descs),
{
}

/// An update trace that reaches an update that would panic shows the batch
/// unsafe.
proof fn lemma_update_unsafe_reached(
    s0: ResourceStorage,
    p0: Set<MaterialPipelineKey>,
    ups: Seq<ResourceUpdateDescriptor>,
    states: Seq<ResourceStorage>,
    pipes: Seq<Set<MaterialPipelineKey>>,
    acts: Seq<Seq<UpdateAction>>,
)
    requires
        update_trace(ups, states, pipes, acts, None),
        states[0] == s0 && pipes[0] == p0,
        acts.len() < ups.len(),
        !update_descriptor_ok(ups[acts.len() as int]),
    ensures
        !batch_update_safe(s0, p0, ups),
{
}

/// Extending an unfinished creation trace by one more step.
proof fn lemma_create_trace_push(
    descs: Seq<ResourceCreateDescriptor>,
    states: Seq<ResourceStorage>,
    keys: Seq<Set<u64>>,
    acts: Seq<Seq<CreateAction>>,
    handles: Seq<ResourceHandle>,
    s1: ResourceStorage,
    k1: Set<u64>,
    step: Seq<CreateAction>,
    r: Result<ResourceHandle, Error>,
)
    requires
        create_trace(descs, states, keys, acts, handles, None),
        acts.len() < descs.len(),
        create_step(states.last(), keys.last(), descs[acts.len() as int], s1, k1, step, r),
    ensures
        r matches Ok(h) ==> create_trace(descs, states.push(s1), keys.push(k1), acts.push(step), handles.push(h), None),
        r matches Err(e) ==> create_trace(descs, states.push(s1), keys.push(k1), acts.push(step), handles, Some(e)),
{
    let n = acts.len() as int;
    let states2 = states.push(s1);
    let keys2 = keys.push(k1);
    let acts2 = acts.push(step);
    let handles2 = match r {
        Ok(h) => handles.push(h),
        Err(_) => handles,
    };
    let err = match r {
        Ok(_) => None,
        Err(e) => Some(e),
    };
    assert forall|i: int| 0 <= i < n + 1 implies create_step(
        #[trigger] states2[i],
        keys2[i],
        descs[i],
        states2[i + 1],
        keys2[i + 1],
        acts2[i],
        if i < handles2.len() { Ok(handles2[i]) } else { Err(err->Some_0) },
    ) by {
        if i < n {
            assert(states2[i] == states[i] && states2[i + 1] == states[i + 1]);
            assert(keys2[i] == keys[i] && keys2[i + 1] == keys[i + 1]);
            assert(acts2[i] == acts[i]);
            assert(handles2[i] == handles[i]);
            assert(create_step(states[i], keys[i], descs[i], states[i + 1], keys[i + 1], acts[i], Ok(handles[i])));
        } else {
            assert(states2[i] == states.last());
            assert(keys2[i] == keys.last());
        }
    }
}

/// Extending an unfinished update trace by one more step.
proof fn lemma_update_trace_push(
    ups: Seq<ResourceUpdateDescriptor>,
    states: Seq<ResourceStorage>,
    pipes: Seq<Set<MaterialPipelineKey>>,
    acts: Seq<Seq<UpdateAction>>,
    s1: ResourceStorage,
    p1: Set<MaterialPipelineKey>,
    step: Seq<UpdateAction>,
    r: Result<(), Error>,
)
    requires
        update_trace(ups, states, pipes, acts, None),
        acts.len() < ups.len(),
        update_step(states.last(), pipes.last(), ups[acts.len() as int], s1, p1, step, r),
    ensures
        update_trace(ups, states.push(s1), pipes.push(p1), acts.push(step), err_of(r)),
{
    let n = acts.len() as int;
    let states2 = states.push(s1);
    let pipes2 = pipes.push(p1);
    let acts2 = acts.push(step);
    let err = err_of(r);
    assert forall|i: int| 0 <= i < n + 1 implies update_step(
        #[trigger] states2[i],
        pipes2[i],
        ups[i],
        states2[i + 1],
        pipes2[i + 1],
        acts2[i],
        if err is Some && i == n { Err(err->Some_0) } else { Ok(()) },
    ) by {
        if i < n {
            assert(states2[i] == states[i] && states2[i + 1] == states[i + 1]);
            assert(pipes2[i] == pipes[i] && pipes2[i + 1] == pipes[i + 1]);
            assert(acts2[i] == acts[i]);
            assert(update_step(states[i], pipes[i], ups[i], states[i + 1], pipes[i + 1], acts[i], Ok(())));
        } else {
            assert(states2[i] == states.last());
            match r {
                Ok(_) => {},
                Err(_) => {},
            }
        }
    }
}

impl BridgeState {
    /// Creates a batch of resources in order. The batch stops at the first
    /// refused resource and returns its error; the resources before it stay
    /// created. The actions are the GPU objects to create, in order, for
    /// every resource handled.
    pub fn create_resources(&mut self, descriptor: ResourceBatchCreate)
        -> (out: (Vec<CreateAction>, Result<CreatedResources, Error>))
        requires
            batch_create_safe(old(self).resources, old(self).shader_modules.view(), descriptor.resources@),
        ensures
            exists|states: Seq<ResourceStorage>, keys: Seq<Set<u64>>, acts: Seq<Seq<CreateAction>>, handles: Seq<ResourceHandle>|
                #![trigger create_trace(descriptor.resources@, states, keys, acts, handles, err_of(out.1))]
            {
                &&& create_trace(
                    descriptor.resources@,
                    states,
                    keys,
                    acts,
                    handles,
                    err_of(out.1),
                )
                &&& states[0] == old(self).resources && keys[0] == old(self).shader_modules.view()
                &&& states.last() == final(self).resources && keys.last() == final(self).shader_modules.view()
                &&& out.0@ == concat_all(acts)
                &&& out.1 matches Ok(created) ==> created.handles@ == handles
                    && acts.len() == descriptor.resources@.len()
            },
            final(self).pipeline_cache == old(self).pipeline_cache,
            final(self).compute_bind_groups == old(self).compute_bind_groups,
            final(self).swapchain == old(self).swapchain,
            final(self).recording_encoder == old(self).recording_encoder,
            final(self).surface_texture == old(self).surface_texture,
            final(self).current_frame_index == old(self).current_frame_index,
            final(self).active_pass == old(self).active_pass,
            final(self).depth_target == old(self).depth_target,
            final(self).render_bundle == old(self).render_bundle,
            final(self).pending_acquire_skips == old(self).pending_acquire_skips,
    {
        match self.try_create_resources(descriptor) {
            Some(out) => out,
            None => {
                proof {
                    assert(false);
                }
                (Vec::new(), Ok(CreatedResources { handles: Vec::new() }))
            },
        }
    }

    /// Creates a batch of resources in order, as `create_resources` does,
    /// but first checks each resource it reaches: `None` when creating one
    /// would panic (a mesh out of limits, or compute SPIR-V without the
    /// magic number that must be compiled).
    pub fn try_create_resources(&mut self, descriptor: ResourceBatchCreate)
        -> (out: Option<(Vec<CreateAction>, Result<CreatedResources, Error>)>)
        ensures
            match out {
                Some(out) => exists|states: Seq<ResourceStorage>, keys: Seq<Set<u64>>, acts: Seq<Seq<CreateAction>>, handles: Seq<ResourceHandle>|
                    #![trigger create_trace(descriptor.resources@, states, keys, acts, handles, err_of(out.1))]
                {
                    &&& create_trace(
                        descriptor.resources@,
                        states,
                        keys,
                        acts,
                        handles,
                        err_of(out.1),
                    )
                    &&& states[0] == old(self).resources && keys[0] == old(self).shader_modules.view()
                    &&& states.last() == final(self).resources && keys.last() == final(self).shader_modules.view()
                    &&& out.0@ == concat_all(acts)
                    &&& out.1 matches Ok(created) ==> created.handles@ == handles
                        && acts.len() == descriptor.resources@.len()
                },
                None => !batch_create_safe(old(self).resources, old(self).shader_modules.view(), descriptor.resources@),
            },
            final(self).pipeline_cache == old(self).pipeline_cache,
            final(self).compute_bind_groups == old(self).compute_bind_groups,
            final(self).swapchain == old(self).swapchain,
            final(self).recording_encoder == old(self).recording_encoder,
            final(self).surface_texture == old(self).surface_texture,
            final(self).current_frame_index == old(self).current_frame_index,
            final(self).active_pass == old(self).active_pass,
            final(self).depth_target == old(self).depth_target,
            final(self).render_bundle == old(self).render_bundle,
            final(self).pending_acquire_skips == old(self).pending_acquire_skips,
    {
        let ghost descs = descriptor.resources@;
        let ghost mut states: Seq<ResourceStorage> = seq![self.resources];
        let ghost mut keys: Seq<Set<u64>> = seq![self.shader_modules.view()];
        let ghost mut acts: Seq<Seq<CreateAction>> = Seq::empty();
        let mut actions: Vec<CreateAction> = Vec::new();
        let mut handles: Vec<ResourceHandle> = Vec::with_capacity(descriptor.resources.len());
        let mut rest = descriptor.resources;
        assert(rest@ =~= descs.subrange(0, descs.len() as int));
        while rest.len() > 0
            invariant
                rest@ == descs.subrange(acts.len() as int, descs.len() as int),
                descs == descriptor.resources@,
                create_trace(descs, states, keys, acts, handles@, None),
                states[0] == old(self).resources && keys[0] == old(self).shader_modules.view(),
                states.last() == self.resources && keys.last() == self.shader_modules.view(),
                actions@ == concat_all(acts),
                self.pipeline_cache == old(self).pipeline_cache,
                self.compute_bind_groups == old(self).compute_bind_groups,
                self.swapchain == old(self).swapchain,
                self.recording_encoder == old(self).recording_encoder,
                self.surface_texture == old(self).surface_texture,
                self.current_frame_index == old(self).current_frame_index,
                self.active_pass == old(self).active_pass,
                self.depth_target == old(self).depth_target,
                self.render_bundle == old(self).render_bundle,
                self.pending_acquire_skips == old(self).pending_acquire_skips,
            decreases rest@.len(),
        {
            let ghost n = acts.len() as int;
            if !create_descriptor_is_ok(&self.shader_modules, &rest[0]) {
                proof {
                    lemma_create_unsafe_reached(old(self).resources, old(self).shader_modules.view(), descs, states, keys, acts, handles@);
                }
                return None;
            }
            let d = rest.remove(0);
            assert(d == descs[n]);
            let ghost old_acts = acts;
            let (step_actions, result) = self.resources.create_resource(&mut self.shader_modules, d);
            let ghost step = step_actions@;
            proof {
                lemma_create_trace_push(descs, states, keys, acts, handles@, self.resources, self.shader_modules.view(), step, result);
                states = states.push(self.resources);
                keys = keys.push(self.shader_modules.view());
                acts = acts.push(step);
            }
            let mut step_actions = step_actions;
            actions.append(&mut step_actions);
            proof {
                assert(acts.drop_last() =~= old_acts);
                assert(concat_all(acts) == concat_all(acts.drop_last()) + acts.last());
                assert(actions@ =~= concat_all(acts));
            }
            match result {
                Ok(handle) => {
                    handles.push(handle);
                    assert(create_trace(descs, states, keys, acts, handles@, None));
                    assert(rest@ =~= descs.subrange(acts.len() as int, descs.len() as int));
                },
                Err(e) => {
                    assert(create_trace(descs, states, keys, acts, handles@, Some(e)));
                    assert(err_of(Err::<CreatedResources, Error>(e)) == Some(e));
                    return Some((actions, Err(e)));
                },
            }
        }
        assert(acts.len() == descs.len());
        let created = CreatedResources { handles };
        assert(create_trace(descs, states, keys, acts, created.handles@, err_of(Ok::<CreatedResources, Error>(created))));
        Some((actions, Ok(created)))
    }

    /// Applies a batch of updates in order. The batch stops at the first
    /// failing update and returns its error; the updates before it stay
    /// applied. The actions are the GPU changes to make, in order.
    pub fn update_resources(&mut self, descriptor: ResourceBatchUpdate)
        -> (out: (Vec<UpdateAction>, Result<(), Error>))
        requires
            old(self).wf(),
            batch_update_safe(old(self).resources, old(self).pipeline_cache.view(), descriptor.updates@),
        ensures
            final(self).wf(),
            exists|states: Seq<ResourceStorage>, pipes: Seq<Set<MaterialPipelineKey>>, acts: Seq<Seq<UpdateAction>>|
                #![trigger update_trace(descriptor.updates@, states, pipes, acts, err_of(out.1))]
            {
                &&& update_trace(descriptor.updates@, states, pipes, acts, err_of(out.1))
                &&& states[0] == old(self).resources && pipes[0] == old(self).pipeline_cache.view()
                &&& states.last() == final(self).resources && pipes.last() == final(self).pipeline_cache.view()
                &&& out.0@ == concat_all(acts)
                &&& out.1 is Ok ==> acts.len() == descriptor.updates@.len()
            },
            final(self).shader_modules == old(self).shader_modules,
            final(self).compute_bind_groups == old(self).compute_bind_groups,
            final(self).swapchain == old(self).swapchain,
            final(self).recording_encoder == old(self).recording_encoder,
            final(self).surface_texture == old(self).surface_texture,
            final(self).current_frame_index == old(self).current_frame_index,
            final(self).active_pass == old(self).active_pass,
            final(self).depth_target == old(self).depth_target,
            final(self).render_bundle == old(self).render_bundle,
            final(self).pending_acquire_skips == old(self).pending_acquire_skips,
    {
        match self.try_update_resources(descriptor) {
            Some(out) => out,
            None => {
                proof {
                    assert(false);
                }
                (Vec::new(), Ok(()))
            },
        }
    }

    /// Applies a batch of updates in order, as `update_resources` does, but
    /// first checks each update it reaches: `None` when applying one would
    /// panic (a mesh out of limits).
    pub fn try_update_resources(&mut self, descriptor: ResourceBatchUpdate)
        -> (out: Option<(Vec<UpdateAction>, Result<(), Error>)>)
        requires
            old(self).wf(),
        ensures
            final(self).wf(),
            match out {
                Some(out) => exists|states: Seq<ResourceStorage>, pipes: Seq<Set<MaterialPipelineKey>>, acts: Seq<Seq<UpdateAction>>|
                    #![trigger update_trace(descriptor.updates@, states, pipes, acts, err_of(out.1))]
                {
                    &&& update_trace(descriptor.updates@, states, pipes, acts, err_of(out.1))
                    &&& states[0] == old(self).resources && pipes[0] == old(self).pipeline_cache.view()
                    &&& states.last() == final(self).resources && pipes.last() == final(self).pipeline_cache.view()
                    &&& out.0@ == concat_all(acts)
                    &&& out.1 is Ok ==> acts.len() == descriptor.updates@.len()
                },
                None => !batch_update_safe(old(self).resources, old(self).pipeline_cache.view(), descriptor.updates@),
            },
            final(self).shader_modules == old(self).shader_modules,
            final(self).compute_bind_groups == old(self).compute_bind_groups,
            final(self).swapchain == old(self).swapchain,
            final(self).recording_encoder == old(self).recording_encoder,
            final(self).surface_texture == old(self).surface_texture,
            final(self).current_frame_index == old(self).current_frame_index,
            final(self).active_pass == old(self).active_pass,
            final(self).depth_target == old(self).depth_target,
            final(self).render_bundle == old(self).render_bundle,
            final(self).pending_acquire_skips == old(self).pending_acquire_skips,
    {
        let ghost ups = descriptor.updates@;
        let ghost mut states: Seq<ResourceStorage> = seq![self.resources];
        let ghost mut pipes: Seq<Set<MaterialPipelineKey>> = seq![self.pipeline_cache.view()];
        let ghost mut acts: Seq<Seq<UpdateAction>> = Seq::empty();
        let mut actions: Vec<UpdateAction> = Vec::new();
        let mut rest = descriptor.updates;
        assert(rest@ =~= ups.subrange(0, ups.len() as int));
        while rest.len() > 0
            invariant
                rest@ == ups.subrange(acts.len() as int, ups.len() as int),
                ups == descriptor.updates@,
                update_trace(ups, states, pipes, acts, None),
                self.wf(),
                states[0] == old(self).resources && pipes[0] == old(self).pipeline_cache.view(),
                states.last() == self.resources && pipes.last() == self.pipeline_cache.view(),
                actions@ == concat_all(acts),
                self.shader_modules == old(self).shader_modules,
                self.compute_bind_groups == old(self).compute_bind_groups,
                self.swapchain == old(self).swapchain,
                self.recording_encoder == old(self).recording_encoder,
                self.surface_texture == old(self).surface_texture,
                self.current_frame_index == old(self).current_frame_index,
                self.active_pass == old(self).active_pass,
                self.depth_target == old(self).depth_target,
                self.render_bundle == old(self).render_bundle,
                self.pending_acquire_skips == old(self).pending_acquire_skips,
            decreases rest@.len(),
        {
            let ghost n = acts.len() as int;
            if !update_descriptor_is_ok(&rest[0]) {
                proof {
                    lemma_update_unsafe_reached(old(self).resources, old(self).pipeline_cache.view(), ups, states, pipes, acts);
                }
                return None;
            }
            let u = rest.remove(0);
            assert(u == ups[n]);
            let ghost old_acts = acts;
            let ghost s_before = self.resources;
            let ghost p_before = self.pipeline_cache.view();
            let (step_actions, result) = self.resources.update_resource(&mut self.pipeline_cache, u);
            let ghost step = step_actions@;
            proof {
                lemma_update_trace_push(ups, states, pipes, acts, self.resources, self.pipeline_cache.view(), step, result);
                states = states.push(self.resources);
                pipes = pipes.push(self.pipeline_cache.view());
                acts = acts.push(step);
            }
            let mut step_actions = step_actions;
            actions.append(&mut step_actions);
            proof {
                assert(acts.drop_last() =~= old_acts);
                assert(concat_all(acts) == concat_all(acts.drop_last()) + acts.last());
                assert(actions@ =~= concat_all(acts));
            }
            match result {
                Ok(()) => {
                    assert(rest@ =~= ups.subrange(acts.len() as int, ups.len() as int));
                },
                Err(e) => {
                    return Some((actions, Err(e)));
                },
            }
        }
        assert(update_trace(ups, states, pipes, acts, err_of(Ok::<(), Error>(()))));
        Some((actions, Ok(())))
    }
}

impl BridgeState {
    /// Records the surface that was attached: its configured size and
    /// format.
    pub fn attach_surface(&mut self, swapchain: SwapchainInfo)
        ensures
            final(self).swapchain == Some(swapchain),
            final(self).resources == old(self).resources,
            final(self).shader_modules == old(self).shader_modules,
            final(self).pipeline_cache == old(self).pipeline_cache,
            final(self).compute_bind_groups == old(self).compute_bind_groups,
            final(self).recording_encoder == old(self).recording_encoder,
            final(self).surface_texture == old(self).surface_texture,
            final(self).current_frame_index == old(self).current_frame_index,
            final(self).active_pass == old(self).active_pass,
            final(self).depth_target == old(self).depth_target,
            final(self).render_bundle == old(self).render_bundle,
            final(self).pending_acquire_skips == old(self).pending_acquire_skips,
    {
        self.swapchain = Some(swapchain);
    }

    /// Records a new surface size, keeping its format; there must be a
    /// surface.
    pub fn resize(&mut self, extent: Extent2D) -> (r: Result<(), Error>)
        ensures
            old(self).swapchain is None ==> r == Err::<(), Error>(fatal_error(ErrorKind::SurfaceNotAttached))
                && final(self).swapchain is None,
            old(self).swapchain is Some ==> r is Ok && final(self).swapchain == Some(
                SwapchainInfo { width: extent.width, height: extent.height, format: old(self).swapchain->Some_0.format },
            ),
            final(self).resources == old(self).resources,
            final(self).shader_modules == old(self).shader_modules,
            final(self).pipeline_cache == old(self).pipeline_cache,
            final(self).compute_bind_groups == old(self).compute_bind_groups,
            final(self).recording_encoder == old(self).recording_encoder,
            final(self).surface_texture == old(self).surface_texture,
            final(self).current_frame_index == old(self).current_frame_index,
            final(self).active_pass == old(self).active_pass,
            final(self).depth_target == old(self).depth_target,
            final(self).render_bundle == old(self).render_bundle,
            final(self).pending_acquire_skips == old(self).pending_acquire_skips,
    {
        match self.swapchain {
            None => Err(surface_not_attached_error()),
            Some(sc) => {
                self.swapchain = Some(SwapchainInfo { width: extent.width, height: extent.height, format: sc.format });
                Ok(())
            },
        }
    }

    /// Texture readback is not offered by this backend.
    pub fn read_texture(&self, id: TextureId) -> (r: Result<TextureReadback, Error>)
        ensures
            r == Err::<TextureReadback, Error>(fatal_error(
                ErrorKind::Unsupported("Texture readback is not implemented on the WGPU backend"),
            )),
    {
        Err(Error::fatal(ErrorKind::Unsupported("Texture readback is not implemented on the WGPU backend")))
    }
}

/// Whether a resource can be created without a panic, with the shader
/// modules `shaders` cached.
pub fn create_descriptor_is_ok(shaders: &ShaderModuleCache, d: &ResourceCreateDescriptor) -> (b: bool)
    ensures
        b == create_descriptor_ok(shaders.view(), *d),
{
    match d {
        ResourceCreateDescriptor::Mesh { id: _, mesh } => mesh_is_within_limits(mesh),
        ResourceCreateDescriptor::ComputePipeline { id: _, pipeline } => {
            pipeline.shader.entry_point.as_str().is_empty() || shaders.contains(pipeline.shader.payload_hash())
                || package_is_compilable(&pipeline.shader)
        },
        _ => true,
    }
}

/// Whether an update can be applied without a panic.
pub fn update_descriptor_is_ok(u: &ResourceUpdateDescriptor) -> (b: bool)
    ensures
        b == update_descriptor_ok(*u),
{
    match u {
        ResourceUpdateDescriptor::Mesh { id: _, vertex_streams, index_data, index_format: _, index_count } => {
            if (index_data.len() as u64) > u64::MAX - 4 {
                return false;
            }
            if vertex_streams.len() == 0 {
                return *index_count == 0 || index_data.len() == 0;
            }
            let bytes = match &vertex_streams[0].data {
                crate::types::VertexStreamData::Static(d) => d.len(),
                crate::types::VertexStreamData::External(_) => 0,
            };
            (bytes as u64) <= u64::MAX - 4
        },
        _ => true,
    }
}

} // verus!
