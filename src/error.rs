//! Why a mesh pipeline could not be specialized.
use vstd::prelude::*;

verus! {

/// A vertex attribute that a specialization needs and a mesh's layout lacks.
#[derive(Debug)]
pub struct MissingVertexAttributeError {
    /// The type of the specializer that asked for the attribute, once the
    /// error has passed through a mesh pipeline cache.
    pub pipeline_type: Option<&'static str>,
    pub id: u64,
    pub name: String,
}

#[derive(Debug)]
pub enum SpecializedMeshPipelineError {
    MissingVertexAttribute(MissingVertexAttributeError),
}

impl From<MissingVertexAttributeError> for SpecializedMeshPipelineError {
    fn from(e: MissingVertexAttributeError) -> (r: SpecializedMeshPipelineError) {
        SpecializedMeshPipelineError::MissingVertexAttribute(e)
    }
}

impl vstd::std_specs::convert::FromSpecImpl<MissingVertexAttributeError> for
    SpecializedMeshPipelineError {
    open spec fn obeys_from_spec() -> bool {
        true
    }

    open spec fn from_spec(e: MissingVertexAttributeError) -> SpecializedMeshPipelineError {
        SpecializedMeshPipelineError::MissingVertexAttribute(e)
    }
}

} // verus!
