//! Specialization caches for render and compute pipelines: a key (and, for
//! meshes, a raw vertex layout) is turned into the id of a queued pipeline,
//! and each distinct pipeline is built once.
pub mod descriptor;
pub mod error;
pub mod keyed;
pub mod mesh;
pub mod pipeline_cache;
pub mod specializer;
