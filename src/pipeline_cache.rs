//! The pipeline cache: it takes descriptors, queues them for building and
//! hands back ids that stay valid for its lifetime.
use crate::descriptor::{ComputePipelineDescriptor, RenderPipelineDescriptor};
use vstd::prelude::*;

verus! {

/// The id of a render pipeline queued in a [`PipelineCache`]: its position
/// in the cache's queue of render descriptors.
#[derive(Clone, Copy, Debug, PartialEq, Eq, Structural, Hash)]
pub struct CachedRenderPipelineId(pub usize);

/// The id of a compute pipeline queued in a [`PipelineCache`]: its position
/// in the cache's queue of compute descriptors.
#[derive(Clone, Copy, Debug, PartialEq, Eq, Structural, Hash)]
pub struct CachedComputePipelineId(pub usize);

impl CachedRenderPipelineId {
    pub fn id(&self) -> (r: usize)
        ensures
            r == self.0,
    {
        self.0
    }
}

impl CachedComputePipelineId {
    pub fn id(&self) -> (r: usize)
        ensures
            r == self.0,
    {
        self.0
    }
}

/// Every descriptor ever queued, in order; a descriptor's id is its index.
#[derive(Debug)]
pub struct PipelineCache {
    render: Vec<RenderPipelineDescriptor>,
    compute: Vec<ComputePipelineDescriptor>,
}

impl PipelineCache {
    /// The render descriptors queued so far, oldest first.
    pub closed spec fn render_queue(&self) -> Seq<RenderPipelineDescriptor> {
        self.render@
    }

    /// The compute descriptors queued so far, oldest first.
    pub closed spec fn compute_queue(&self) -> Seq<ComputePipelineDescriptor> {
        self.compute@
    }

    pub fn new() -> (r: PipelineCache)
        ensures
            r.render_queue().len() == 0,
            r.compute_queue().len() == 0,
    {
        PipelineCache { render: Vec::new(), compute: Vec::new() }
    }

    /// Queues a render pipeline for building; its id is the number of render
    /// pipelines queued before it.
    pub fn queue_render_pipeline(&mut self, descriptor: RenderPipelineDescriptor) -> (r:
        CachedRenderPipelineId)
        ensures
            r.0 == old(self).render_queue().len(),
            final(self).render_queue() == old(self).render_queue().push(descriptor),
            final(self).compute_queue() == old(self).compute_queue(),
    {
        let id = self.render.len();
        self.render.push(descriptor);
        CachedRenderPipelineId(id)
    }

    /// Queues a compute pipeline for building; its id is the number of
    /// compute pipelines queued before it.
    pub fn queue_compute_pipeline(&mut self, descriptor: ComputePipelineDescriptor) -> (r:
        CachedComputePipelineId)
        ensures
            r.0 == old(self).compute_queue().len(),
            final(self).compute_queue() == old(self).compute_queue().push(descriptor),
            final(self).render_queue() == old(self).render_queue(),
    {
        let id = self.compute.len();
        self.compute.push(descriptor);
        CachedComputePipelineId(id)
    }

    /// The descriptor a render pipeline was queued with, if the id is one of
    /// this cache's.
    pub fn get_render_pipeline_descriptor(&self, id: CachedRenderPipelineId) -> (r: Option<
        &RenderPipelineDescriptor,
    >)
        ensures
            id.0 < self.render_queue().len() <==> r is Some,
            r is Some ==> *r->Some_0 == self.render_queue()[id.0 as int],
    {
        if id.0 < self.render.len() {
            Some(&self.render[id.0])
        } else {
            None
        }
    }

    /// How many render pipelines have been queued.
    pub fn render_pipeline_count(&self) -> (r: usize)
        ensures
            r == self.render_queue().len(),
    {
        self.render.len()
    }

    /// How many compute pipelines have been queued.
    pub fn compute_pipeline_count(&self) -> (r: usize)
        ensures
            r == self.compute_queue().len(),
    {
        self.compute.len()
    }
}

} // verus!
