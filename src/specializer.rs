//! Caches that turn a specialization key into the id of a pipeline, building
//! each distinct pipeline once.
use crate::descriptor::{
    ComputePipelineDescriptor, MeshVertexBufferLayoutRef, RenderPipelineDescriptor,
};
use crate::keyed::{assoc_map, find_entry, obeys_key_laws};
use crate::pipeline_cache::{CachedComputePipelineId, CachedRenderPipelineId, PipelineCache};
use core::hash::Hash;
use vstd::prelude::*;
use vstd::std_specs::cmp::PartialEqSpec;

verus! {

/// Builds the descriptor of a render pipeline from a key.
pub trait SpecializedRenderPipeline {
    type Key: Clone + Hash + Eq + PartialEqSpec;

    fn specialize(&self, key: Self::Key) -> RenderPipelineDescriptor;
}

/// Builds the descriptor of a compute pipeline from a key.
pub trait SpecializedComputePipeline {
    type Key: Clone + Hash + Eq + PartialEqSpec;

    fn specialize(&self, key: Self::Key) -> ComputePipelineDescriptor;
}

/// One call of a memoizing cache, in terms of its map before and after and
/// of the pipeline queue before and after: a key already mapped gives its id
/// and changes nothing; a new key queues exactly one descriptor and is mapped
/// to `fresh`, the id of that descriptor.
pub open spec fn memo_step<K, V, D>(
    before: Map<K, V>,
    queue: Seq<D>,
    key: K,
    after: Map<K, V>,
    queue_after: Seq<D>,
    r: V,
    fresh: V,
) -> bool {
    if before.contains_key(key) {
        &&& r == before[key]
        &&& after == before
        &&& queue_after == queue
    } else {
        &&& r == fresh
        &&& after == before.insert(key, fresh)
        &&& queue_after.len() == queue.len() + 1
        &&& queue_after.drop_last() == queue
    }
}

/// The render pipelines specialized for `S`, by key.
pub struct SpecializedRenderPipelines<S: SpecializedRenderPipeline> {
    cache: Vec<(S::Key, CachedRenderPipelineId)>,
}

impl<S: SpecializedRenderPipeline> View for SpecializedRenderPipelines<S> {
    type V = Map<S::Key, CachedRenderPipelineId>;

    closed spec fn view(&self) -> Map<S::Key, CachedRenderPipelineId> {
        assoc_map(self.cache@)
    }
}

impl<S: SpecializedRenderPipeline> SpecializedRenderPipelines<S> {
    pub fn new() -> (r: Self)
        ensures
            r@ == Map::<S::Key, CachedRenderPipelineId>::empty(),
    {
        SpecializedRenderPipelines { cache: Vec::new() }
    }

    /// The id of the pipeline for `key`, specializing and queueing it on the
    /// first request for that key.
    pub fn specialize(
        &mut self,
        cache: &mut PipelineCache,
        specialize_pipeline: &S,
        key: S::Key,
    ) -> (r: CachedRenderPipelineId)
        requires
            obeys_key_laws::<S::Key>(),
        ensures
            memo_step(
                old(self)@,
                old(cache).render_queue(),
                key,
                final(self)@,
                final(cache).render_queue(),
                r,
                CachedRenderPipelineId(old(cache).render_queue().len() as usize),
            ),
            !old(self)@.contains_key(key) ==> call_ensures(
                S::specialize,
                (specialize_pipeline, key),
                final(cache).render_queue().last(),
            ),
            final(cache).compute_queue() == old(cache).compute_queue(),
    {
        if let Some(id) = find_entry(&self.cache, &key) {
            return id;
        }
        let stored = key.clone();
        assert(cloned(key, stored));
        let descriptor = specialize_pipeline.specialize(key);
        let ghost queued = descriptor;
        let id = cache.queue_render_pipeline(descriptor);
        self.cache.push((stored, id));
        proof {
            assert(self.cache@.drop_last() == old(self).cache@);
            assert(cache.render_queue().drop_last() =~= old(cache).render_queue());
            assert(cache.render_queue().last() == queued);
        }
        id
    }
}

impl<S: SpecializedRenderPipeline> Default for SpecializedRenderPipelines<S> {
    fn default() -> (r: Self)
        ensures
            r@ == Map::<S::Key, CachedRenderPipelineId>::empty(),
    {
        Self::new()
    }
}

/// The compute pipelines specialized for `S`, by key.
pub struct SpecializedComputePipelines<S: SpecializedComputePipeline> {
    cache: Vec<(S::Key, CachedComputePipelineId)>,
}

impl<S: SpecializedComputePipeline> View for SpecializedComputePipelines<S> {
    type V = Map<S::Key, CachedComputePipelineId>;

    closed spec fn view(&self) -> Map<S::Key, CachedComputePipelineId> {
        assoc_map(self.cache@)
    }
}

impl<S: SpecializedComputePipeline> SpecializedComputePipelines<S> {
    pub fn new() -> (r: Self)
        ensures
            r@ == Map::<S::Key, CachedComputePipelineId>::empty(),
    {
        SpecializedComputePipelines { cache: Vec::new() }
    }

    /// The id of the pipeline for `key`, specializing and queueing it on the
    /// first request for that key.
    pub fn specialize(
        &mut self,
        cache: &mut PipelineCache,
        specialize_pipeline: &S,
        key: S::Key,
    ) -> (r: CachedComputePipelineId)
        requires
            obeys_key_laws::<S::Key>(),
        ensures
            memo_step(
                old(self)@,
                old(cache).compute_queue(),
                key,
                final(self)@,
                final(cache).compute_queue(),
                r,
                CachedComputePipelineId(old(cache).compute_queue().len() as usize),
            ),
            !old(self)@.contains_key(key) ==> call_ensures(
                S::specialize,
                (specialize_pipeline, key),
                final(cache).compute_queue().last(),
            ),
            final(cache).render_queue() == old(cache).render_queue(),
    {
        if let Some(id) = find_entry(&self.cache, &key) {
            return id;
        }
        let stored = key.clone();
        assert(cloned(key, stored));
        let descriptor = specialize_pipeline.specialize(key);
        let ghost queued = descriptor;
        let id = cache.queue_compute_pipeline(descriptor);
        self.cache.push((stored, id));
        proof {
            assert(self.cache@.drop_last() == old(self).cache@);
            assert(cache.compute_queue().drop_last() =~= old(cache).compute_queue());
            assert(cache.compute_queue().last() == queued);
        }
        id
    }
}

impl<S: SpecializedComputePipeline> Default for SpecializedComputePipelines<S> {
    fn default() -> (r: Self)
        ensures
            r@ == Map::<S::Key, CachedComputePipelineId>::empty(),
    {
        Self::new()
    }
}

/// Asking a memoizing cache twice for the same key gives the same id both
/// times; the second request changes nothing, so the key is built at most
/// once, and exactly once when it was not cached before.
pub proof fn lemma_memoized<K, V, D>(
    m0: Map<K, V>,
    q0: Seq<D>,
    key: K,
    m1: Map<K, V>,
    q1: Seq<D>,
    r1: V,
    f1: V,
    m2: Map<K, V>,
    q2: Seq<D>,
    r2: V,
    f2: V,
)
    requires
        memo_step(m0, q0, key, m1, q1, r1, f1),
        memo_step(m1, q1, key, m2, q2, r2, f2),
    ensures
        r2 == r1,
        m2 == m1,
        q2 == q1,
        m0.contains_key(key) ==> q2 == q0,
        !m0.contains_key(key) ==> q2.len() == q0.len() + 1,
{
}

/// Two different keys, neither cached, each get a pipeline of their own:
/// two descriptors are queued and the ids differ.
pub proof fn lemma_keys_independent<K, D>(
    m0: Map<K, CachedRenderPipelineId>,
    q0: Seq<D>,
    k1: K,
    k2: K,
    m1: Map<K, CachedRenderPipelineId>,
    q1: Seq<D>,
    r1: CachedRenderPipelineId,
    m2: Map<K, CachedRenderPipelineId>,
    q2: Seq<D>,
    r2: CachedRenderPipelineId,
)
    requires
        k1 != k2,
        !m0.contains_key(k1),
        !m0.contains_key(k2),
        q0.len() < usize::MAX,
        memo_step(m0, q0, k1, m1, q1, r1, CachedRenderPipelineId(q0.len() as usize)),
        memo_step(m1, q1, k2, m2, q2, r2, CachedRenderPipelineId(q1.len() as usize)),
    ensures
        r1 != r2,
        r1.0 == q0.len(),
        r2.0 == q0.len() + 1,
        q2.len() == q0.len() + 2,
        m2 == m0.insert(k1, r1).insert(k2, r2),
{
}

} // verus!
