//! The cache of render pipelines, keyed by material, vertex layout and
//! depth testing.
use vstd::prelude::*;
use crate::types::MaterialId;

verus! {

/// What a render pipeline is cached by.
#[derive(Clone, Copy, Debug, PartialEq, Eq, Hash, Structural)]
pub struct MaterialPipelineKey {
    pub material_id: MaterialId,
    pub vertex_layout_id: u64,
    pub depth_enabled: bool,
}

/// The keys of the render pipelines built so far, each once. The keys are
/// structs, and a hash map keyed by a struct gives no contract that a proof
/// can use (its hashing and equality come from derived impls that Verus
/// does not read), so the keys are a vector without duplicates.
pub struct PipelineCache {
    keys: Vec<MaterialPipelineKey>,
}

impl PipelineCache {
    /// The cached keys.
    pub closed spec fn view(&self) -> Set<MaterialPipelineKey> {
        self.keys@.to_set()
    }

    /// No key is cached twice.
    pub closed spec fn wf(&self) -> bool {
        self.keys@.no_duplicates()
    }

    /// An empty cache.
    pub fn new() -> (c: PipelineCache)
        ensures
            c.wf(),
            c.view() == Set::<MaterialPipelineKey>::empty(),
    {
        let c = PipelineCache { keys: Vec::new() };
        assert(c.keys@.to_set() =~= Set::<MaterialPipelineKey>::empty());
        c
    }

    /// The number of cached pipelines.
    pub fn len(&self) -> (n: usize)
        requires
            self.wf(),
        ensures
            n == self.view().len(),
    {
        proof {
            self.keys@.unique_seq_to_set();
        }
        self.keys.len()
    }

    /// Whether a pipeline is cached under `key`.
    pub fn contains(&self, key: &MaterialPipelineKey) -> (b: bool)
        ensures
            b == self.view().contains(*key),
    {
        let mut i: usize = 0;
        while i < self.keys.len()
            invariant
                i <= self.keys@.len(),
                forall|j: int| 0 <= j < i ==> self.keys@[j] != *key,
            decreases self.keys@.len() - i,
        {
            if self.keys[i] == *key {
                assert(self.keys@.contains(*key));
                return true;
            }
            i = i + 1;
        }
        assert(!self.keys@.contains(*key));
        false
    }

    /// Caches `key`.
    pub fn insert(&mut self, key: MaterialPipelineKey)
        requires
            old(self).wf(),
        ensures
            final(self).wf(),
            final(self).view() == old(self).view().insert(key),
    {
        if !self.contains(&key) {
            let ghost before = self.keys@;
            self.keys.push(key);
            proof {
                assert forall|k: MaterialPipelineKey| #[trigger] self.keys@.contains(k) <==> before.contains(k) || k == key by {
                    if self.keys@.contains(k) && k != key {
                        let t = choose|t: int| 0 <= t < self.keys@.len() && self.keys@[t] == k;
                        assert(before[t] == k);
                    }
                    if before.contains(k) {
                        let t = choose|t: int| 0 <= t < before.len() && before[t] == k;
                        assert(self.keys@[t] == k);
                    }
                    if k == key {
                        assert(self.keys@[before.len() as int] == k);
                    }
                }
                assert forall|a: int, b: int| 0 <= a < b < self.keys@.len() implies self.keys@[a] != self.keys@[b] by {
                    if b == before.len() {
                        assert(before.contains(self.keys@[a]));
                    }
                }
            }
        }
        assert(self.keys@.to_set() =~= old(self).keys@.to_set().insert(key));
    }

    /// Drops every pipeline of a material.
    pub fn remove_material(&mut self, material: MaterialId)
        requires
            old(self).wf(),
        ensures
            final(self).wf(),
            final(self).view() == old(self).view().filter(|k: MaterialPipelineKey| k.material_id != material),
    {
        let ghost old_keys = self.keys@;
        let mut kept: Vec<MaterialPipelineKey> = Vec::new();
        let mut i: usize = 0;
        while i < self.keys.len()
            invariant
                old_keys == self.keys@,
                old_keys.no_duplicates(),
                i <= old_keys.len(),
                kept@.no_duplicates(),
                forall|k: MaterialPipelineKey| #[trigger] kept@.contains(k) <==> (old_keys.subrange(0, i as int).contains(k)
                    && k.material_id != material),
            decreases old_keys.len() - i,
        {
            let key = self.keys[i];
            let ghost prefix = old_keys.subrange(0, i as int);
            let ghost before = kept@;
            assert(old_keys.subrange(0, i + 1) =~= prefix.push(key));
            proof {
                assert forall|k: MaterialPipelineKey| #[trigger] prefix.push(key).contains(k) <==> prefix.contains(k) || k == key by {
                    if prefix.push(key).contains(k) && k != key {
                        let t = choose|t: int| 0 <= t < prefix.push(key).len() && prefix.push(key)[t] == k;
                        assert(prefix[t] == k);
                    }
                    if prefix.contains(k) {
                        let t = choose|t: int| 0 <= t < prefix.len() && prefix[t] == k;
                        assert(prefix.push(key)[t] == k);
                    }
                    if k == key {
                        assert(prefix.push(key)[prefix.len() as int] == k);
                    }
                }
                assert(!prefix.contains(key)) by {
                    if prefix.contains(key) {
                        let t = choose|t: int| 0 <= t < prefix.len() && prefix[t] == key;
                        assert(old_keys[t] == old_keys[i as int]);
                    }
                }
            }
            if key.material_id != material {
                kept.push(key);
                proof {
                    assert forall|k: MaterialPipelineKey| #[trigger] kept@.contains(k) <==> before.contains(k) || k == key by {
                        if kept@.contains(k) && k != key {
                            let t = choose|t: int| 0 <= t < kept@.len() && kept@[t] == k;
                            assert(before[t] == k);
                        }
                        if before.contains(k) {
                            let t = choose|t: int| 0 <= t < before.len() && before[t] == k;
                            assert(kept@[t] == k);
                        }
                        if k == key {
                            assert(kept@[before.len() as int] == k);
                        }
                    }
                    assert forall|a: int, b: int| 0 <= a < b < kept@.len() implies kept@[a] != kept@[b] by {
                        if b == before.len() {
                            assert(before.contains(kept@[a]));
                        }
                    }
                }
            }
            i = i + 1;
        }
        assert(old_keys.subrange(0, i as int) =~= old_keys);
        self.keys = kept;
        assert(self.keys@.to_set() =~= old_keys.to_set().filter(|k: MaterialPipelineKey| k.material_id != material));
    }
}

} // verus!
