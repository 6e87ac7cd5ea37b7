//! The mesh pipeline cache: keyed by a mesh's raw vertex layout and a key,
//! and sharing one pipeline between raw layouts that specialize to the same
//! vertex buffer layout.
use crate::descriptor::{
    MeshVertexBufferLayoutRef, MeshVertexBufferLayoutView, RenderPipelineDescriptor,
    VertexBufferLayout, VertexBufferLayoutView,
};
use crate::error::{MissingVertexAttributeError, SpecializedMeshPipelineError};
use crate::keyed::{
    assoc_map, find_entry, lemma_assoc_absent, lemma_assoc_found, lemma_assoc_update,
    obeys_key_laws,
};
use crate::pipeline_cache::{CachedRenderPipelineId, PipelineCache};
use core::hash::Hash;
use vstd::prelude::*;
use vstd::std_specs::cmp::PartialEqSpec;

verus! {

/// Builds the descriptor of a render pipeline from a key and the raw vertex
/// layout of a mesh, or fails when the layout lacks an attribute it needs.
pub trait SpecializedMeshPipeline {
    type Key: Clone + Hash + Eq + PartialEqSpec;

    /// A descriptor it returns describes at least one vertex buffer; the
    /// first is the one the cache deduplicates by.
    fn specialize(&self, key: Self::Key, layout: &MeshVertexBufferLayoutRef) -> (r: Result<
        RenderPipelineDescriptor,
        SpecializedMeshPipelineError,
    >)
        ensures
            r is Ok ==> r->Ok_0.vertex.buffers@.len() > 0,
    ;

    /// A readable name of this specializer, which errors are tagged with.
    fn pipeline_type(&self) -> &'static str {
        "SpecializedMeshPipeline"
    }
}

/// The vertex buffer layout a cache deduplicates a descriptor by.
pub open spec fn normalized_layout(d: RenderPipelineDescriptor) -> VertexBufferLayoutView {
    d@.buffers[0]
}

/// The same error, tagged with the type of the specializer it came from.
pub open spec fn tagged(e: SpecializedMeshPipelineError, t: SpecializedMeshPipelineError) -> bool {
    match (e, t) {
        (
            SpecializedMeshPipelineError::MissingVertexAttribute(a),
            SpecializedMeshPipelineError::MissingVertexAttribute(b),
        ) => a.id == b.id && a.name@ == b.name@ && b.pipeline_type is Some,
    }
}

/// The render pipelines specialized for `S`, by raw vertex layout and key.
pub struct SpecializedMeshPipelines<S: SpecializedMeshPipeline> {
    mesh_layout_cache: Vec<(MeshVertexBufferLayoutRef, S::Key, CachedRenderPipelineId)>,
    vertex_layouts: Vec<VertexBufferLayout>,
    vertex_layout_cache: Vec<Vec<(S::Key, CachedRenderPipelineId)>>,
    check_descriptors: bool,
    mismatches: Vec<CachedRenderPipelineId>,
}

impl<S: SpecializedMeshPipeline> SpecializedMeshPipelines<S> {
    closed spec fn primary_entries(&self) -> Seq<
        ((MeshVertexBufferLayoutView, S::Key), CachedRenderPipelineId),
    > {
        Seq::new(
            self.mesh_layout_cache@.len(),
            |i: int|
                (
                    (self.mesh_layout_cache@[i].0@, self.mesh_layout_cache@[i].1),
                    self.mesh_layout_cache@[i].2,
                ),
        )
    }

    closed spec fn secondary_entries(&self) -> Seq<
        (VertexBufferLayoutView, Map<S::Key, CachedRenderPipelineId>),
    > {
        Seq::new(
            self.vertex_layouts@.len(),
            |i: int| (self.vertex_layouts@[i]@, assoc_map(self.vertex_layout_cache@[i]@)),
        )
    }

    /// The ids cached by raw vertex layout and key.
    pub closed spec fn primary(&self) -> Map<
        (MeshVertexBufferLayoutView, S::Key),
        CachedRenderPipelineId,
    > {
        assoc_map(self.primary_entries())
    }

    /// The ids cached by normalized vertex buffer layout, then by key.
    pub closed spec fn secondary(&self) -> Map<
        VertexBufferLayoutView,
        Map<S::Key, CachedRenderPipelineId>,
    > {
        assoc_map(self.secondary_entries())
    }

    /// Whether a descriptor that specializes to an already cached pipeline
    /// is compared with the one that pipeline was queued with.
    pub closed spec fn checks_descriptors(&self) -> bool {
        self.check_descriptors
    }

    /// The ids of cached pipelines whose descriptor differed from the one
    /// produced again for the same vertex buffer layout and key, in order.
    pub closed spec fn mismatches(&self) -> Seq<CachedRenderPipelineId> {
        self.mismatches@
    }

    /// One entry per normalized vertex buffer layout.
    pub closed spec fn wf(&self) -> bool {
        &&& self.vertex_layouts@.len() == self.vertex_layout_cache@.len()
        &&& forall|i: int, j: int|
            0 <= i < j < self.vertex_layouts@.len() ==> self.vertex_layouts@[i]@
                != self.vertex_layouts@[j]@
    }

    /// What handling the specializer's `result` for `layout` and `key` does,
    /// from `self` and `cache` to `after` and `cache_after`, returning `r`.
    /// A failure is returned tagged and changes nothing. A descriptor whose
    /// normalized layout and key are cached gives that id; any other is
    /// queued. Either way `(layout, key)` is then mapped to the id.
    pub open spec fn handles(
        &self,
        cache: PipelineCache,
        layout: MeshVertexBufferLayoutView,
        key: S::Key,
        result: Result<RenderPipelineDescriptor, SpecializedMeshPipelineError>,
        after: Self,
        cache_after: PipelineCache,
        r: Result<CachedRenderPipelineId, SpecializedMeshPipelineError>,
    ) -> bool {
        &&& cache_after.compute_queue() == cache.compute_queue()
        &&& after.checks_descriptors() == self.checks_descriptors()
        &&& match result {
            Err(e) => {
                &&& r is Err && tagged(e, r->Err_0)
                &&& after.primary() == self.primary()
                &&& after.secondary() == self.secondary()
                &&& after.mismatches() == self.mismatches()
                &&& cache_after.render_queue() == cache.render_queue()
            },
            Ok(d) => {
                let nl = normalized_layout(d);
                let known = self.secondary().contains_key(nl) && self.secondary()[nl].contains_key(
                    key,
                );
                &&& r is Ok
                &&& after.primary() == self.primary().insert((layout, key), r->Ok_0)
                &&& if known {
                    let id = self.secondary()[nl][key];
                    &&& r->Ok_0 == id
                    &&& after.secondary() == self.secondary()
                    &&& cache_after.render_queue() == cache.render_queue()
                    &&& after.mismatches() == if self.checks_descriptors() && id.0
                        < cache.render_queue().len() && cache.render_queue()[id.0 as int]@
                        != d@ {
                        self.mismatches().push(id)
                    } else {
                        self.mismatches()
                    }
                } else {
                    let inner = if self.secondary().contains_key(nl) {
                        self.secondary()[nl]
                    } else {
                        Map::empty()
                    };
                    &&& r->Ok_0 == CachedRenderPipelineId(cache.render_queue().len() as usize)
                    &&& cache_after.render_queue() == cache.render_queue().push(d)
                    &&& after.secondary() == self.secondary().insert(
                        nl,
                        inner.insert(key, r->Ok_0),
                    )
                    &&& after.mismatches() == self.mismatches()
                }
            },
        }
    }
    /// One call of [`Self::specialize`]: a cached pair gives its id and
    /// changes nothing; any other is handled as [`Self::handles`] says, for
    /// some result of the specializer.
    pub open spec fn answers(
        &self,
        cache: PipelineCache,
        layout: MeshVertexBufferLayoutView,
        key: S::Key,
        after: Self,
        cache_after: PipelineCache,
        r: Result<CachedRenderPipelineId, SpecializedMeshPipelineError>,
    ) -> bool {
        if self.primary().contains_key((layout, key)) {
            &&& r == Ok::<CachedRenderPipelineId, SpecializedMeshPipelineError>(
                self.primary()[(layout, key)],
            )
            &&& after == *self
            &&& cache_after == cache
        } else {
            exists|result: Result<RenderPipelineDescriptor, SpecializedMeshPipelineError>|
                self.handles(cache, layout, key, result, after, cache_after, r)
        }
    }
}

impl<S: SpecializedMeshPipeline> SpecializedMeshPipelines<S> {
    /// An empty cache; `check_descriptors` says whether descriptors that
    /// specialize to a cached pipeline are compared with its own.
    pub fn with_descriptor_checks(check_descriptors: bool) -> (r: Self)
        ensures
            r.wf(),
            r.primary() == Map::<(MeshVertexBufferLayoutView, S::Key), CachedRenderPipelineId>::empty(),
            r.secondary() == Map::<VertexBufferLayoutView, Map<S::Key, CachedRenderPipelineId>>::empty(),
            r.mismatches().len() == 0,
            r.checks_descriptors() == check_descriptors,
    {
        let r = SpecializedMeshPipelines {
            mesh_layout_cache: Vec::new(),
            vertex_layouts: Vec::new(),
            vertex_layout_cache: Vec::new(),
            check_descriptors,
            mismatches: Vec::new(),
        };
        assert(r.primary_entries() =~= Seq::empty());
        assert(r.secondary_entries() =~= Seq::empty());
        r
    }

    /// An empty cache that compares descriptors.
    pub fn new() -> (r: Self)
        ensures
            r.wf(),
            r.primary() == Map::<(MeshVertexBufferLayoutView, S::Key), CachedRenderPipelineId>::empty(),
            r.secondary() == Map::<VertexBufferLayoutView, Map<S::Key, CachedRenderPipelineId>>::empty(),
            r.mismatches().len() == 0,
            r.checks_descriptors(),
    {
        Self::with_descriptor_checks(true)
    }

    /// The id cached for `layout` and `key`, if any.
    pub fn get(&self, layout: &MeshVertexBufferLayoutRef, key: &S::Key) -> (r: Option<
        CachedRenderPipelineId,
    >)
        requires
            obeys_key_laws::<S::Key>(),
        ensures
            r is Some <==> self.primary().contains_key((layout@, *key)),
            r is Some ==> r->Some_0 == self.primary()[(layout@, *key)],
    {
        let ghost entries = self.primary_entries();
        let mut j: usize = self.mesh_layout_cache.len();
        while j > 0
            invariant
                entries == self.primary_entries(),
                j <= self.mesh_layout_cache@.len(),
                obeys_key_laws::<S::Key>(),
                forall|m: int|
                    j <= m < self.mesh_layout_cache@.len() ==> entries[m].0 != (layout@, *key),
            decreases j,
        {
            j = j - 1;
            if self.mesh_layout_cache[j].0.same_as(layout) && self.mesh_layout_cache[j].1 == *key {
                proof {
                    lemma_assoc_found(entries, j as int);
                }
                return Some(self.mesh_layout_cache[j].2);
            }
        }
        proof {
            lemma_assoc_absent(entries, (layout@, *key));
        }
        None
    }

    fn find_layout(&self, layout: &VertexBufferLayout) -> (r: Option<usize>)
        requires
            self.wf(),
        ensures
            r is Some <==> self.secondary().contains_key(layout@),
            r is Some ==> r->Some_0 < self.vertex_layouts@.len() && self.vertex_layouts@[r->Some_0 as int]@ == layout@
                && self.secondary()[layout@] == assoc_map(self.vertex_layout_cache@[r->Some_0 as int]@),
            r is None ==> forall|m: int| 0 <= m < self.vertex_layouts@.len() ==> self.vertex_layouts@[m]@ != layout@,
    {
        let ghost entries = self.secondary_entries();
        let mut i: usize = 0;
        while i < self.vertex_layouts.len()
            invariant
                entries == self.secondary_entries(),
                self.wf(),
                i <= self.vertex_layouts@.len(),
                forall|m: int| 0 <= m < i ==> entries[m].0 != layout@,
            decreases self.vertex_layouts@.len() - i,
        {
            if self.vertex_layouts[i].same_as(layout) {
                proof {
                    lemma_assoc_found(entries, i as int);
                }
                return Some(i);
            }
            i = i + 1;
        }
        proof {
            lemma_assoc_absent(entries, layout@);
            assert forall|m: int| 0 <= m < self.vertex_layouts@.len() implies self.vertex_layouts@[m]@
                != layout@ by {
                assert(entries[m].0 == self.vertex_layouts@[m]@);
            }
        }
        None
    }
    /// Handles what the specializer returned for `key` and `layout`: tags a
    /// failure with `specialize_pipeline`'s name, and otherwise reuses the
    /// pipeline cached for the descriptor's vertex buffer layout and `key`,
    /// or queues the descriptor, and caches the id for `layout` and `key`.
    pub fn specialize_slow(
        &mut self,
        cache: &mut PipelineCache,
        specialize_pipeline: &S,
        key: S::Key,
        layout: &MeshVertexBufferLayoutRef,
        result: Result<RenderPipelineDescriptor, SpecializedMeshPipelineError>,
    ) -> (r: Result<CachedRenderPipelineId, SpecializedMeshPipelineError>)
        requires
            old(self).wf(),
            obeys_key_laws::<S::Key>(),
            result is Ok ==> result->Ok_0.vertex.buffers@.len() > 0,
        ensures
            final(self).wf(),
            old(self).handles(*old(cache), layout@, key, result, *final(self), *final(cache), r),
    {
        let ghost old_primary = self.primary_entries();
        let ghost old_secondary = self.secondary_entries();
        let descriptor = match result {
            Ok(d) => d,
            Err(SpecializedMeshPipelineError::MissingVertexAttribute(e)) => {
                let tagged = MissingVertexAttributeError {
                    pipeline_type: Some(specialize_pipeline.pipeline_type()),
                    id: e.id,
                    name: e.name,
                };
                return Err(SpecializedMeshPipelineError::MissingVertexAttribute(tagged));
            },
        };
        let ghost d = descriptor;
        let ghost nl = normalized_layout(descriptor);
        assert(descriptor.vertex.buffers@[0]@ == nl);
        let id = match self.find_layout(&descriptor.vertex.buffers[0]) {
            Some(i) => {
                match find_entry(&self.vertex_layout_cache[i], &key) {
                    Some(id) => {
                        if self.check_descriptors {
                            if let Some(stored) = cache.get_render_pipeline_descriptor(id) {
                                if !stored.same_as(&descriptor) {
                                    self.mismatches.push(id);
                                }
                            }
                        }
                        id
                    },
                    None => {
                        let id = cache.queue_render_pipeline(descriptor);
                        let stored = key.clone();
                        assert(cloned(key, stored));
                        let ghost old_inner = self.vertex_layout_cache@[i as int];
                        let mut inner = self.vertex_layout_cache.remove(i);
                        inner.push((stored, id));
                        self.vertex_layout_cache.insert(i, inner);
                        proof {
                            assert(inner@.drop_last() =~= old_inner@);
                            assert(assoc_map(inner@) == assoc_map(old_inner@).insert(key, id));
                            assert(self.vertex_layout_cache@ =~= old(self).vertex_layout_cache@.update(i as int, inner));
                            lemma_assoc_update(old_secondary, i as int, assoc_map(inner@));
                            assert(self.secondary_entries() =~= old_secondary.update(
                                i as int,
                                (old_secondary[i as int].0, assoc_map(inner@)),
                            ));
                            assert(cache.render_queue().drop_last() =~= old(cache).render_queue());
                        }
                        id
                    },
                }
            },
            None => {
                let normalized = descriptor.vertex.buffers[0].duplicate();
                let id = cache.queue_render_pipeline(descriptor);
                let stored = key.clone();
                assert(cloned(key, stored));
                self.vertex_layouts.push(normalized);
                self.vertex_layout_cache.push(vec![(stored, id)]);
                proof {
                    let single = self.vertex_layout_cache@.last()@;
                    assert(single.drop_last() =~= Seq::<(S::Key, CachedRenderPipelineId)>::empty());
                    assert(assoc_map(single.drop_last()) == Map::<S::Key, CachedRenderPipelineId>::empty());
                    assert(assoc_map(single) == Map::<S::Key, CachedRenderPipelineId>::empty().insert(key, id));
                    assert(self.secondary_entries() =~= old_secondary.push((nl, assoc_map(single))));
                    assert(self.secondary_entries().drop_last() =~= old_secondary);
                }
                id
            },
        };
        self.mesh_layout_cache.push((layout.duplicate(), key, id));
        proof {
            assert(self.primary_entries().drop_last() =~= old_primary);
        }
        Ok(id)
    }
    /// The id of the pipeline for `key` and the mesh layout `layout`: the one
    /// cached for that pair, or else what [`Self::specialize_slow`] makes of
    /// the specializer's result.
    #[inline]
    pub fn specialize(
        &mut self,
        cache: &mut PipelineCache,
        specialize_pipeline: &S,
        key: S::Key,
        layout: &MeshVertexBufferLayoutRef,
    ) -> (r: Result<CachedRenderPipelineId, SpecializedMeshPipelineError>)
        requires
            old(self).wf(),
            obeys_key_laws::<S::Key>(),
        ensures
            final(self).wf(),
            old(self).answers(*old(cache), layout@, key, *final(self), *final(cache), r),
            !old(self).primary().contains_key((layout@, key)) ==> exists|
                result: Result<RenderPipelineDescriptor, SpecializedMeshPipelineError>,
            |
                {
                    &&& call_ensures(S::specialize, (specialize_pipeline, key, layout), result)
                    &&& old(self).handles(
                        *old(cache),
                        layout@,
                        key,
                        result,
                        *final(self),
                        *final(cache),
                        r,
                    )
                },
    {
        if let Some(id) = self.get(layout, &key) {
            return Ok(id);
        }
        let requested = key.clone();
        assert(cloned(key, requested));
        let result = specialize_pipeline.specialize(requested, layout);
        assert(call_ensures(S::specialize, (specialize_pipeline, key, layout), result));
        self.specialize_slow(cache, specialize_pipeline, key, layout, result)
    }

    /// Whether descriptors are compared, as [`Self::checks_descriptors`].
    pub fn check_descriptors(&self) -> (r: bool)
        ensures
            r == self.checks_descriptors(),
    {
        self.check_descriptors
    }

    /// The ids whose cached descriptor differed from one produced again for
    /// the same vertex buffer layout and key.
    pub fn descriptor_mismatches(&self) -> (r: &[CachedRenderPipelineId])
        ensures
            r@ == self.mismatches(),
    {
        self.mismatches.as_slice()
    }
}

impl<S: SpecializedMeshPipeline> Default for SpecializedMeshPipelines<S> {
    fn default() -> (r: Self)
        ensures
            r.wf(),
            r.primary() == Map::<(MeshVertexBufferLayoutView, S::Key), CachedRenderPipelineId>::empty(),
            r.secondary() == Map::<VertexBufferLayoutView, Map<S::Key, CachedRenderPipelineId>>::empty(),
            r.mismatches().len() == 0,
            r.checks_descriptors(),
    {
        Self::new()
    }
}

/// Once a request for a layout and key has succeeded, asking again for the
/// same pair gives the same id and changes neither cache.
pub proof fn lemma_mesh_idempotent<S: SpecializedMeshPipeline>(
    c0: SpecializedMeshPipelines<S>,
    p0: PipelineCache,
    layout: MeshVertexBufferLayoutView,
    key: S::Key,
    c1: SpecializedMeshPipelines<S>,
    p1: PipelineCache,
    r1: Result<CachedRenderPipelineId, SpecializedMeshPipelineError>,
    c2: SpecializedMeshPipelines<S>,
    p2: PipelineCache,
    r2: Result<CachedRenderPipelineId, SpecializedMeshPipelineError>,
)
    requires
        c0.answers(p0, layout, key, c1, p1, r1),
        c1.answers(p1, layout, key, c2, p2, r2),
        r1 is Ok,
    ensures
        r2 == r1,
        c2 == c1,
        p2 == p1,
{
    if !c0.primary().contains_key((layout, key)) {
        let result = choose|result: Result<RenderPipelineDescriptor, SpecializedMeshPipelineError>|
            c0.handles(p0, layout, key, result, c1, p1, r1);
        assert(c0.handles(p0, layout, key, result, c1, p1, r1));
        assert(c1.primary().contains_key((layout, key)));
    }
}

/// Two different raw layouts whose descriptors for the same key have the
/// same vertex buffer layout share one pipeline: the pair that was not
/// built before is queued once, and both requests give its id.
pub proof fn lemma_mesh_dedup<S: SpecializedMeshPipeline>(
    c0: SpecializedMeshPipelines<S>,
    p0: PipelineCache,
    l1: MeshVertexBufferLayoutView,
    l2: MeshVertexBufferLayoutView,
    key: S::Key,
    d1: RenderPipelineDescriptor,
    d2: RenderPipelineDescriptor,
    c1: SpecializedMeshPipelines<S>,
    p1: PipelineCache,
    r1: Result<CachedRenderPipelineId, SpecializedMeshPipelineError>,
    c2: SpecializedMeshPipelines<S>,
    p2: PipelineCache,
    r2: Result<CachedRenderPipelineId, SpecializedMeshPipelineError>,
)
    requires
        l1 != l2,
        normalized_layout(d1) == normalized_layout(d2),
        !(c0.secondary().contains_key(normalized_layout(d1)) && c0.secondary()[normalized_layout(
            d1,
        )].contains_key(key)),
        c0.handles(p0, l1, key, Ok(d1), c1, p1, r1),
        c1.handles(p1, l2, key, Ok(d2), c2, p2, r2),
    ensures
        r1 is Ok,
        r2 == r1,
        p1.render_queue() == p0.render_queue().push(d1),
        p2.render_queue() == p1.render_queue(),
        c2.primary() == c0.primary().insert((l1, key), r1->Ok_0).insert((l2, key), r1->Ok_0),
{
    let nl = normalized_layout(d1);
    assert(c1.secondary().contains_key(nl));
    assert(c1.secondary()[nl].contains_key(key));
}

/// A failed request caches nothing: the pair stays uncached, so the next
/// request for it asks the specializer again.
pub proof fn lemma_failure_not_cached<S: SpecializedMeshPipeline>(
    c0: SpecializedMeshPipelines<S>,
    p0: PipelineCache,
    layout: MeshVertexBufferLayoutView,
    key: S::Key,
    e: SpecializedMeshPipelineError,
    c1: SpecializedMeshPipelines<S>,
    p1: PipelineCache,
    r: Result<CachedRenderPipelineId, SpecializedMeshPipelineError>,
)
    requires
        !c0.primary().contains_key((layout, key)),
        c0.handles(p0, layout, key, Err(e), c1, p1, r),
    ensures
        r is Err,
        !c1.primary().contains_key((layout, key)),
        c1.secondary() == c0.secondary(),
        p1.render_queue() == p0.render_queue(),
{
}

} // verus!
