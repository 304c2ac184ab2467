//! Compute pipelines: creation, and the bind groups and dispatch of a
//! compute pass.
use vstd::prelude::*;
use std::collections::BTreeMap;
use vstd::std_specs::iter::IteratorSpec;
use crate::bindings::{SetLayout, are_set_layouts, build_set_layouts_from_abstract_layout};
use crate::error::{Error, ErrorKind, recoverable_error};
use crate::shader::{ShaderModuleCache, ShaderModuleCreation, request_safe, shader_request};
use crate::resources::ResourceStorage;
use crate::types::{
    BufferId, BufferUsageIntent, ComputePassDescriptor, ComputePipelineDescriptor, ComputePipelineId,
};

verus! {

/// A compute pipeline to create: the layouts of its bind group indices, the
/// key of its shader module, and its entry point.
#[derive(Clone, Debug, PartialEq, Eq)]
pub struct ComputePipelinePlan {
    pub set_layouts: Vec<SetLayout>,
    pub shader_key: u64,
    pub entry_point: String,
}

/// Plans a compute pipeline: it needs an entry point; its layouts are the
/// set layouts of its shader's layout; its shader module is found in or
/// added to the cache.
pub fn create_compute_pipeline(shaders: &mut ShaderModuleCache, descriptor: &ComputePipelineDescriptor)
    -> (r: Result<(Option<ShaderModuleCreation>, ComputePipelinePlan), Error>)
    requires
        descriptor.shader.entry_point@.len() != 0 ==> request_safe(old(shaders).view(), descriptor.shader),
    ensures
        descriptor.shader.entry_point@.len() == 0 ==> r == Err::<(Option<ShaderModuleCreation>, ComputePipelinePlan), Error>(
            recoverable_error(ErrorKind::InvalidDescriptor("compute_shader_entry_missing")),
        ) && final(shaders).view() == old(shaders).view(),
        descriptor.shader.entry_point@.len() != 0 ==> match r {
            Ok((created, plan)) => shader_request(
                old(shaders).view(),
                final(shaders).view(),
                "rotex-wgpu-compute-shader",
                descriptor.shader,
                Ok(created),
            ) && are_set_layouts(descriptor.shader.layout, plan.set_layouts@)
                && plan.shader_key == descriptor.shader.payload_hash
                && plan.entry_point@ == descriptor.shader.entry_point@,
            Err(e) => shader_request(
                old(shaders).view(),
                final(shaders).view(),
                "rotex-wgpu-compute-shader",
                descriptor.shader,
                Err(e),
            ),
        },
{
    let package = &descriptor.shader;
    if package.entry_point.as_str().is_empty() {
        return Err(Error::recoverable(ErrorKind::InvalidDescriptor("compute_shader_entry_missing")));
    }
    let set_layouts = build_set_layouts_from_abstract_layout(&package.layout);
    let created = shaders.get_or_create_shader_module("rotex-wgpu-compute-shader", package);
    let created = match created {
        Ok(c) => c,
        Err(e) => {
            return Err(e);
        },
    };
    let plan = ComputePipelinePlan {
        set_layouts,
        shader_key: package.payload_hash(),
        entry_point: package.entry_point.clone(),
    };
    Ok((created, plan))
}

/// What the bind groups of a compute pass are cached by: the pipeline and
/// the buffer of the pass's first intent.
#[derive(Clone, Copy, Debug, PartialEq, Eq, Hash, Structural)]
pub struct ComputeBindGroupKey {
    pub pipeline: ComputePipelineId,
    pub buffer: BufferId,
}

/// The keys under which compute bind groups were built, each once. The
/// keys are structs, and a hash map keyed by a struct gives no contract that
/// a proof can use (its hashing and equality come from derived impls that
/// Verus does not read), so the keys are a vector without duplicates.
pub struct ComputeBindGroupCache {
    keys: Vec<ComputeBindGroupKey>,
}

impl ComputeBindGroupCache {
    /// The cached keys.
    pub closed spec fn view(&self) -> Set<ComputeBindGroupKey> {
        self.keys@.to_set()
    }

    /// No key is cached twice.
    pub closed spec fn wf(&self) -> bool {
        self.keys@.no_duplicates()
    }

    /// An empty cache.
    pub fn new() -> (c: ComputeBindGroupCache)
        ensures
            c.wf(),
            c.view() == Set::<ComputeBindGroupKey>::empty(),
    {
        let c = ComputeBindGroupCache { keys: Vec::new() };
        assert(c.keys@.to_set() =~= Set::<ComputeBindGroupKey>::empty());
        c
    }

    /// Whether bind groups are cached under `key`.
    pub fn contains(&self, key: &ComputeBindGroupKey) -> (b: bool)
        ensures
            b == self.view().contains(*key),
    {
        let mut i: usize = 0;
        while i < self.keys.len()
            invariant
                i <= self.keys@.len(),
                forall|j: int| 0 <= j < i ==> self.keys@[j] != *key,
            decreases self.keys@.len() - i,
        {
            if self.keys[i] == *key {
                assert(self.keys@.contains(*key));
                return true;
            }
            i = i + 1;
        }
        assert(!self.keys@.contains(*key));
        false
    }

    /// Caches `key`, which is not cached yet.
    fn insert_new(&mut self, key: ComputeBindGroupKey)
        requires
            old(self).wf(),
            !old(self).view().contains(key),
        ensures
            final(self).wf(),
            final(self).view() == old(self).view().insert(key),
    {
        let ghost before = self.keys@;
        self.keys.push(key);
        proof {
            assert forall|k: ComputeBindGroupKey| #[trigger] self.keys@.contains(k) <==> before.contains(k) || k == key by {
                if self.keys@.contains(k) && k != key {
                    let t = choose|t: int| 0 <= t < self.keys@.len() && self.keys@[t] == k;
                    assert(before[t] == k);
                }
                if before.contains(k) {
                    let t = choose|t: int| 0 <= t < before.len() && before[t] == k;
                    assert(self.keys@[t] == k);
                }
                if k == key {
                    assert(self.keys@[before.len() as int] == k);
                }
            }
            assert forall|a: int, b: int| 0 <= a < b < self.keys@.len() implies self.keys@[a] != self.keys@[b] by {
                if b == before.len() {
                    assert(before.contains(self.keys@[a]));
                }
            }
        }
        assert(self.keys@.to_set() =~= before.to_set().insert(key));
    }
}

/// A buffer range bound by a compute bind group; no size binds the rest of
/// the buffer.
#[derive(Clone, Copy, Debug, PartialEq, Eq, Hash, Structural)]
pub struct ComputeBufferBinding {
    pub binding: u32,
    pub buffer: BufferId,
    pub offset: u64,
    pub size: Option<u64>,
}

/// The binding of an intent: a size of zero binds the rest of the buffer.
pub open spec fn spec_compute_buffer_binding(intent: BufferUsageIntent) -> ComputeBufferBinding {
    ComputeBufferBinding {
        binding: intent.binding,
        buffer: intent.buffer,
        offset: intent.offset,
        size: if intent.size == 0 { None } else { Some(intent.size) },
    }
}

/// The binding of an intent.
pub fn compute_buffer_binding(intent: &BufferUsageIntent) -> (b: ComputeBufferBinding)
    ensures
        b == spec_compute_buffer_binding(*intent),
{
    if intent.size == 0 {
        ComputeBufferBinding { binding: intent.binding, buffer: intent.buffer, offset: intent.offset, size: None }
    } else {
        ComputeBufferBinding {
            binding: intent.binding,
            buffer: intent.buffer,
            offset: intent.offset,
            size: Some(intent.size),
        }
    }
}

/// The bind group of one set index of a compute pass.
#[derive(Clone, Debug, PartialEq, Eq)]
pub struct ComputeBindGroupPlan {
    pub set: u32,
    pub entries: Vec<ComputeBufferBinding>,
}

/// A compute dispatch to record: the bind groups to build and cache first
/// (none when they are cached), then the pipeline, the cached bind groups
/// and the workgroup counts.
#[derive(Clone, Debug, PartialEq, Eq)]
pub struct ComputeDispatchPlan {
    pub pipeline: ComputePipelineId,
    pub key: ComputeBindGroupKey,
    pub create: Option<Vec<ComputeBindGroupPlan>>,
    pub workgroup_count: [u32; 3],
}

/// Whether `sets` lists the set indices of the intents, each once, in
/// increasing order.
pub open spec fn is_set_list(intents: Seq<BufferUsageIntent>, sets: Seq<u32>) -> bool {
    &&& forall|a: int, b: int| 0 <= a < b < sets.len() ==> sets[a] < sets[b]
    &&& forall|x: u32| sets.contains(x) <==> exists|i: int| 0 <= i < intents.len() && intents[i].set == x
}

/// The bindings of the intents among the first `n` that are at set `s`,
/// in order.
pub open spec fn group_bindings(intents: Seq<BufferUsageIntent>, s: u32, n: int) -> Seq<ComputeBufferBinding>
    decreases n,
{
    if n <= 0 {
        Seq::empty()
    } else {
        let prev = group_bindings(intents, s, n - 1);
        if intents[n - 1].set == s { prev.push(spec_compute_buffer_binding(intents[n - 1])) } else { prev }
    }
}

/// Why the bind group of set `s` cannot be built, if it cannot: the
/// pipeline has no layout at that index, or an intent at that set names a
/// buffer that does not exist.
pub open spec fn group_fault(st: ResourceStorage, layouts: int, intents: Seq<BufferUsageIntent>, s: u32) -> Option<Error> {
    if s >= layouts {
        Some(recoverable_error(ErrorKind::InvalidDescriptor("compute_bind_group_layout_missing")))
    } else if exists|i: int| 0 <= i < intents.len() && intents[i].set == s && !st.buffers@.contains_key(intents[i].buffer.0) {
        Some(recoverable_error(ErrorKind::ResourceNotFound("buffer")))
    } else {
        None
    }
}

/// The fault of the first of the first `k` sets whose bind group cannot be
/// built.
pub open spec fn groups_fault(st: ResourceStorage, layouts: int, intents: Seq<BufferUsageIntent>, sets: Seq<u32>, k: int) -> Option<Error>
    decreases k,
{
    if k <= 0 {
        None
    } else {
        match groups_fault(st, layouts, intents, sets, k - 1) {
            Some(e) => Some(e),
            None => group_fault(st, layouts, intents, sets[k - 1]),
        }
    }
}

proof fn lemma_groups_fault_stays(st: ResourceStorage, layouts: int, intents: Seq<BufferUsageIntent>, sets: Seq<u32>, k: int, m: int)
    requires
        k <= m,
        groups_fault(st, layouts, intents, sets, k) is Some,
    ensures
        groups_fault(st, layouts, intents, sets, m) == groups_fault(st, layouts, intents, sets, k),
    decreases m - k,
{
    if k < m {
        lemma_groups_fault_stays(st, layouts, intents, sets, k, m - 1);
    }
}

/// Whether `groups` are the bind groups of the sets, in order.
pub open spec fn are_group_plans(intents: Seq<BufferUsageIntent>, sets: Seq<u32>, groups: Seq<ComputeBindGroupPlan>) -> bool {
    &&& groups.len() == sets.len()
    &&& forall|k: int| 0 <= k < sets.len() ==> (#[trigger] groups[k]).set == sets[k]
        && groups[k].entries@ == group_bindings(intents, sets[k], intents.len() as int)
}

/// How planning the dispatch of `pass` answers and changes the cached
/// bind group keys: the pipeline must exist and the pass must bind a
/// buffer; cached bind groups are reused; otherwise the bind group of each
/// set index, in increasing order, must have a layout and existing
/// buffers, and the groups are planned and their key cached.
pub open spec fn dispatch_step(
    st: ResourceStorage,
    c0: Set<ComputeBindGroupKey>,
    pass: ComputePassDescriptor,
    c1: Set<ComputeBindGroupKey>,
    r: Result<ComputeDispatchPlan, Error>,
) -> bool {
    let intents = pass.buffer_intents@;
    if !st.compute_pipelines@.contains_key(pass.pipeline.0) {
        r == Err::<ComputeDispatchPlan, Error>(recoverable_error(ErrorKind::ResourceNotFound("compute_pipeline"))) && c1 == c0
    } else if intents.len() == 0 {
        r == Err::<ComputeDispatchPlan, Error>(recoverable_error(ErrorKind::InvalidDescriptor("compute_pass_missing_buffer_intent")))
            && c1 == c0
    } else {
        let key = ComputeBindGroupKey { pipeline: pass.pipeline, buffer: intents[0].buffer };
        let layouts = st.compute_pipelines@[pass.pipeline.0] as int;
        if c0.contains(key) {
            &&& c1 == c0
            &&& r matches Ok(plan) && plan.pipeline == pass.pipeline && plan.key == key && plan.create is None
                && plan.workgroup_count == pass.workgroup_count
        } else {
            exists|sets: Seq<u32>| #[trigger] is_set_list(intents, sets) && match groups_fault(st, layouts, intents, sets, sets.len() as int) {
                Some(e) => r == Err::<ComputeDispatchPlan, Error>(e) && c1 == c0,
                None => {
                    &&& c1 == c0.insert(key)
                    &&& r matches Ok(plan) && plan.pipeline == pass.pipeline && plan.key == key
                        && plan.workgroup_count == pass.workgroup_count
                        && (plan.create matches Some(groups) && are_group_plans(intents, sets, groups@))
                },
            }
        }
    }
}

/// Adding the set of intent `i` to the sets of the intents before it gives
/// the sets of the intents up to `i`.
proof fn lemma_group_one_more(intents: Seq<BufferUsageIntent>, i: usize, before: Map<u32, ()>, after: Map<u32, ()>)
    requires
        i < intents.len(),
        forall|x: u32| #[trigger] before.contains_key(x) <==> exists|k: int| 0 <= k < i && intents[k].set == x,
        after == before.insert(intents[i as int].set, ()),
    ensures
        forall|x: u32| #[trigger] after.contains_key(x) <==> exists|k: int| 0 <= k < i + 1 && intents[k].set == x,
{
    assert forall|x: u32| #[trigger] after.contains_key(x) <==> exists|k: int| 0 <= k < i + 1 && intents[k].set == x by {
        if x == intents[i as int].set {
            assert(intents[i as int].set == x);
        }
    }
}

/// The intents grouped by set index: a map whose keys are the sets that
/// the intents name.
fn group_by_set(intents: &Vec<BufferUsageIntent>) -> (by_set: BTreeMap<u32, ()>)
    ensures
        forall|x: u32| #[trigger] by_set@.contains_key(x) <==> exists|k: int| 0 <= k < intents@.len() && intents@[k].set == x,
{
    broadcast use vstd::std_specs::btree::group_btree_axioms, vstd::laws_cmp::group_laws_cmp;
    let mut by_set: BTreeMap<u32, ()> = BTreeMap::new();
    let mut i: usize = 0;
    while i < intents.len()
        invariant
            i <= intents@.len(),
            forall|x: u32| #[trigger] by_set@.contains_key(x) <==> exists|k: int| 0 <= k < i && intents@[k].set == x,
        decreases intents@.len() - i,
    {
        let ghost before = by_set@;
        by_set.insert(intents[i].set, ());
        proof {
            lemma_group_one_more(intents@, i, before, by_set@);
        }
        i = i + 1;
    }
    by_set
}

/// The keys of the map, in increasing order.
fn sorted_keys(by_set: &BTreeMap<u32, ()>) -> (sets: Vec<u32>)
    ensures
        forall|a: int, b: int| 0 <= a < b < sets@.len() ==> sets@[a] < sets@[b],
        forall|x: u32| sets@.contains(x) <==> by_set@.contains_key(x),
{
    broadcast use vstd::std_specs::btree::group_btree_axioms, vstd::laws_cmp::group_laws_cmp;
    let ghost m = by_set@;
    let ghost v = vstd::std_specs::btree::spec_btree_map_iter(by_set).remaining();
    let ghost keys = v.map_values(|kv: (&u32, &())| *kv.0);
    assert(vstd::std_specs::btree::key_obeys_cmp_spec::<u32>());
    let mut sets: Vec<u32> = Vec::new();
    for kv in it: by_set.iter()
        invariant
            m == by_set@,
            it.seq() == v,
            keys == v.map_values(|kv: (&u32, &())| *kv.0),
            vstd::std_specs::btree::increasing_seq(keys),
            sets@ == keys.subrange(0, it.index()),
    {
        sets.push(*kv.0);
        proof {
            assert(sets@ =~= keys.subrange(0, it.index() + 1));
        }
    }
    proof {
        assert(sets@ =~= keys);
        assert forall|a: int, b: int| 0 <= a < b < sets@.len() implies sets@[a] < sets@[b] by {
            assert(vstd::std_specs::cmp::OrdSpec::cmp_spec(&keys[a], &keys[b]) is Less);
        }
        assert forall|x: u32| sets@.contains(x) <==> m.contains_key(x) by {
            if sets@.contains(x) {
                let t = choose|t: int| 0 <= t < sets@.len() && sets@[t] == x;
                assert(m.contains_key(*v[t].0));
            }
            if m.contains_key(x) {
                assert(v.contains((&x, &m[x])));
                let t = choose|t: int| 0 <= t < v.len() && v[t] == (&x, &m[x]);
                assert(sets@[t] == x);
            }
        }
    }
    sets
}

/// The set indices of the intents, each once, in increasing order: the
/// keys of the intents grouped by set.
fn set_list(intents: &Vec<BufferUsageIntent>) -> (sets: Vec<u32>)
    ensures
        is_set_list(intents@, sets@),
{
    let by_set = group_by_set(intents);
    sorted_keys(&by_set)
}

/// Plans a compute dispatch; see `dispatch_step`.
pub fn record_compute_dispatch(st: &ResourceStorage, cache: &mut ComputeBindGroupCache, pass: &ComputePassDescriptor)
    -> (r: Result<ComputeDispatchPlan, Error>)
    requires
        old(cache).wf(),
    ensures
        final(cache).wf(),
        dispatch_step(*st, old(cache).view(), *pass, final(cache).view(), r),
{
    let layouts = match st.compute_pipelines.get(&pass.pipeline.0) {
        None => {
            return Err(Error::recoverable(ErrorKind::ResourceNotFound("compute_pipeline")));
        },
        Some(n) => *n,
    };
    let ghost intents = pass.buffer_intents@;
    let sets = set_list(&pass.buffer_intents);
    if pass.buffer_intents.len() == 0 {
        return Err(Error::recoverable(ErrorKind::InvalidDescriptor("compute_pass_missing_buffer_intent")));
    }
    let key = ComputeBindGroupKey { pipeline: pass.pipeline, buffer: pass.buffer_intents[0].buffer };
    if cache.contains(&key) {
        return Ok(ComputeDispatchPlan { pipeline: pass.pipeline, key, create: None, workgroup_count: pass.workgroup_count });
    }
    let mut groups: Vec<ComputeBindGroupPlan> = Vec::new();
    let mut k: usize = 0;
    while k < sets.len()
        invariant
            intents == pass.buffer_intents@,
            is_set_list(intents, sets@),
            st.compute_pipelines@.contains_key(pass.pipeline.0),
            layouts == st.compute_pipelines@[pass.pipeline.0],
            intents.len() > 0,
            key == (ComputeBindGroupKey { pipeline: pass.pipeline, buffer: intents[0].buffer }),
            cache.wf(),
            cache.view() == old(cache).view(),
            !cache.view().contains(key),
            k <= sets@.len(),
            groups_fault(*st, layouts as int, intents, sets@, k as int) is None,
            groups@.len() == k,
            forall|t: int| 0 <= t < k ==> (#[trigger] groups@[t]).set == sets@[t]
                && groups@[t].entries@ == group_bindings(intents, sets@[t], intents.len() as int),
        decreases sets@.len() - k,
    {
        let set = sets[k];
        if set as usize >= layouts {
            proof { lemma_groups_fault_stays(*st, layouts as int, intents, sets@, k + 1, sets@.len() as int); }
            return Err(Error::recoverable(ErrorKind::InvalidDescriptor("compute_bind_group_layout_missing")));
        }
        let mut entries: Vec<ComputeBufferBinding> = Vec::new();
        let mut j: usize = 0;
        while j < pass.buffer_intents.len()
            invariant
                intents == pass.buffer_intents@,
                is_set_list(intents, sets@),
                st.compute_pipelines@.contains_key(pass.pipeline.0),
                layouts == st.compute_pipelines@[pass.pipeline.0],
                intents.len() > 0,
                key == (ComputeBindGroupKey { pipeline: pass.pipeline, buffer: intents[0].buffer }),
                cache.wf(),
                cache.view() == old(cache).view(),
                !cache.view().contains(key),
                k < sets@.len(),
                set == sets@[k as int],
                (set as int) < (layouts as int),
                groups_fault(*st, layouts as int, intents, sets@, k as int) is None,
                j <= intents.len(),
                entries@ == group_bindings(intents, set, j as int),
                forall|i: int| 0 <= i < j && intents[i].set == set ==> st.buffers@.contains_key(intents[i].buffer.0),
            decreases intents.len() - j,
        {
            let intent = pass.buffer_intents[j];
            if intent.set == set {
                if !st.buffers.contains_key(&intent.buffer.0) {
                    assert(group_fault(*st, layouts as int, intents, set) == Some(
                        recoverable_error(ErrorKind::ResourceNotFound("buffer")),
                    ));
                    proof { lemma_groups_fault_stays(*st, layouts as int, intents, sets@, k + 1, sets@.len() as int); }
                    return Err(Error::recoverable(ErrorKind::ResourceNotFound("buffer")));
                }
                entries.push(compute_buffer_binding(&intent));
            }
            j = j + 1;
        }
        assert(group_fault(*st, layouts as int, intents, set) is None);
        groups.push(ComputeBindGroupPlan { set, entries });
        k = k + 1;
    }
    cache.insert_new(key);
    assert(are_group_plans(intents, sets@, groups@));
    Ok(ComputeDispatchPlan { pipeline: pass.pipeline, key, create: Some(groups), workgroup_count: pass.workgroup_count })
}

} // verus!
