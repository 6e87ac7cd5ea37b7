use pipeline_specializer::descriptor::{
    MeshVertexBufferLayoutRef, RenderPipelineDescriptor, VertexAttribute, VertexBufferLayout,
    VertexState, VertexStepMode,
};
use pipeline_specializer::error::{MissingVertexAttributeError, SpecializedMeshPipelineError};
use pipeline_specializer::mesh::{SpecializedMeshPipeline, SpecializedMeshPipelines};
use pipeline_specializer::pipeline_cache::PipelineCache;
use std::cell::Cell;

const POSITION: u64 = 0;
const UV: u64 = 1;
const NORMAL: u64 = 2;

fn attribute_name(id: u64) -> &'static str {
    match id {
        POSITION => "position",
        UV => "uv",
        _ => "normal",
    }
}

fn format_of(id: u64) -> u32 {
    match id {
        POSITION => 3,
        UV => 2,
        _ => 4,
    }
}

fn size_of(format: u32) -> u64 {
    match format {
        2 => 8,
        _ => 12,
    }
}

/// A raw mesh layout holding the given attributes, packed in that order.
fn mesh_layout(ids: &[u64]) -> MeshVertexBufferLayoutRef {
    let mut offset = 0;
    let mut attributes = Vec::new();
    for (i, id) in ids.iter().enumerate() {
        let format = format_of(*id);
        attributes.push(VertexAttribute { format, offset, shader_location: i as u32 });
        offset += size_of(format);
    }
    MeshVertexBufferLayoutRef {
        attribute_ids: ids.to_vec(),
        layout: VertexBufferLayout {
            array_stride: offset,
            step_mode: VertexStepMode::Vertex,
            attributes,
        },
    }
}

/// Packs the `wanted` attributes of `layout` in the order asked for.
fn normalize(
    layout: &MeshVertexBufferLayoutRef,
    wanted: &[u64],
) -> Result<VertexBufferLayout, SpecializedMeshPipelineError> {
    let mut offset = 0;
    let mut attributes = Vec::new();
    for (location, id) in wanted.iter().enumerate() {
        let Some(at) = layout.attribute_ids.iter().position(|a| a == id) else {
            return Err(SpecializedMeshPipelineError::from(MissingVertexAttributeError {
                pipeline_type: None,
                id: *id,
                name: attribute_name(*id).to_string(),
            }));
        };
        let format = layout.layout.attributes[at].format;
        attributes.push(VertexAttribute { format, offset, shader_location: location as u32 });
        offset += size_of(format);
    }
    Ok(VertexBufferLayout { array_stride: offset, step_mode: VertexStepMode::Vertex, attributes })
}

struct MeshPipeline {
    wanted: Vec<u64>,
    /// Also lets the raw attribute count into the descriptor, which no
    /// specializer should do.
    leaks_raw_layout: bool,
    calls: Cell<usize>,
}

impl MeshPipeline {
    fn new(wanted: &[u64]) -> Self {
        MeshPipeline { wanted: wanted.to_vec(), leaks_raw_layout: false, calls: Cell::new(0) }
    }
}

impl SpecializedMeshPipeline for MeshPipeline {
    type Key = u32;

    fn specialize(
        &self,
        key: u32,
        layout: &MeshVertexBufferLayoutRef,
    ) -> Result<RenderPipelineDescriptor, SpecializedMeshPipelineError> {
        self.calls.set(self.calls.get() + 1);
        let buffer = normalize(layout, &self.wanted)?;
        let mut shader_defs = vec![key as u64];
        if self.leaks_raw_layout {
            shader_defs.push(layout.attribute_ids.len() as u64);
        }
        Ok(RenderPipelineDescriptor {
            vertex: VertexState { shader: 5, shader_defs, buffers: vec![buffer] },
            fragment_shader: Some(6),
        })
    }

    fn pipeline_type(&self) -> &'static str {
        "MeshPipeline"
    }
}

#[test]
fn layouts_lacking_an_attribute_fail_and_cache_nothing() {
    let mut pool = PipelineCache::new();
    let mut pipelines: SpecializedMeshPipelines<MeshPipeline> = SpecializedMeshPipelines::new();
    let spec = MeshPipeline::new(&[POSITION, NORMAL]);
    let a = mesh_layout(&[POSITION, UV]);
    let b = mesh_layout(&[UV, POSITION]);
    for layout in [&a, &b] {
        match pipelines.specialize(&mut pool, &spec, 1, layout) {
            Err(SpecializedMeshPipelineError::MissingVertexAttribute(e)) => {
                assert_eq!(e.name, "normal");
                assert_eq!(e.id, NORMAL);
                assert_eq!(e.pipeline_type, Some("MeshPipeline"));
            }
            Ok(_) => panic!("a layout without normals specialized"),
        }
    }
    assert!(pipelines.get(&a, &1).is_none());
    assert!(pipelines.get(&b, &1).is_none());
    assert_eq!(pool.render_pipeline_count(), 0);
}

#[test]
fn reordered_layouts_share_one_pipeline() {
    let mut pool = PipelineCache::new();
    let mut pipelines: SpecializedMeshPipelines<MeshPipeline> = SpecializedMeshPipelines::new();
    let spec = MeshPipeline::new(&[POSITION, UV]);
    let a = mesh_layout(&[POSITION, UV]);
    let b = mesh_layout(&[UV, POSITION]);
    let h = pipelines.specialize(&mut pool, &spec, 9, &a).unwrap();
    assert_eq!(pool.render_pipeline_count(), 1);
    let h2 = pipelines.specialize(&mut pool, &spec, 9, &b).unwrap();
    assert_eq!(h, h2);
    assert_eq!(pool.render_pipeline_count(), 1);
    assert_eq!(pipelines.get(&a, &9), Some(h));
    assert_eq!(pipelines.get(&b, &9), Some(h));
    assert!(pipelines.descriptor_mismatches().is_empty());
}

#[test]
fn repeated_request_takes_the_fast_path() {
    let mut pool = PipelineCache::new();
    let mut pipelines: SpecializedMeshPipelines<MeshPipeline> = SpecializedMeshPipelines::new();
    let spec = MeshPipeline::new(&[POSITION]);
    let a = mesh_layout(&[POSITION, UV]);
    let h1 = pipelines.specialize(&mut pool, &spec, 2, &a).unwrap();
    let h2 = pipelines.specialize(&mut pool, &spec, 2, &a).unwrap();
    let h3 = pipelines.specialize(&mut pool, &spec, 2, &mesh_layout(&[POSITION, UV])).unwrap();
    assert_eq!(h1, h2);
    assert_eq!(h1, h3);
    assert_eq!(spec.calls.get(), 1);
    assert_eq!(pool.render_pipeline_count(), 1);
}

#[test]
fn other_keys_build_other_pipelines() {
    let mut pool = PipelineCache::new();
    let mut pipelines: SpecializedMeshPipelines<MeshPipeline> = SpecializedMeshPipelines::new();
    let spec = MeshPipeline::new(&[POSITION]);
    let a = mesh_layout(&[POSITION]);
    let h1 = pipelines.specialize(&mut pool, &spec, 1, &a).unwrap();
    let h2 = pipelines.specialize(&mut pool, &spec, 2, &a).unwrap();
    assert_ne!(h1, h2);
    assert_eq!(pool.render_pipeline_count(), 2);
}

#[test]
fn failure_is_retried_not_replayed() {
    let mut pool = PipelineCache::new();
    let mut pipelines: SpecializedMeshPipelines<MeshPipeline> = SpecializedMeshPipelines::new();
    let spec = MeshPipeline::new(&[NORMAL]);
    let a = mesh_layout(&[POSITION]);
    assert!(pipelines.specialize(&mut pool, &spec, 4, &a).is_err());
    assert!(pipelines.specialize(&mut pool, &spec, 4, &a).is_err());
    assert_eq!(spec.calls.get(), 2);
    assert_eq!(pool.render_pipeline_count(), 0);
}

#[test]
fn descriptor_depending_on_raw_layout_is_recorded() {
    let mut pool = PipelineCache::new();
    let mut pipelines: SpecializedMeshPipelines<MeshPipeline> = SpecializedMeshPipelines::new();
    let mut spec = MeshPipeline::new(&[POSITION, UV]);
    spec.leaks_raw_layout = true;
    let a = mesh_layout(&[POSITION, UV]);
    let c = mesh_layout(&[POSITION, UV, NORMAL]);
    let h = pipelines.specialize(&mut pool, &spec, 3, &a).unwrap();
    let h2 = pipelines.specialize(&mut pool, &spec, 3, &c).unwrap();
    assert_eq!(h, h2);
    assert_eq!(pool.render_pipeline_count(), 1);
    assert_eq!(pipelines.descriptor_mismatches(), &[h][..]);
}

#[test]
fn unchecked_cache_records_no_mismatch() {
    let mut pool = PipelineCache::new();
    let mut pipelines: SpecializedMeshPipelines<MeshPipeline> =
        SpecializedMeshPipelines::with_descriptor_checks(false);
    assert!(!pipelines.check_descriptors());
    let mut spec = MeshPipeline::new(&[POSITION, UV]);
    spec.leaks_raw_layout = true;
    let h = pipelines.specialize(&mut pool, &spec, 3, &mesh_layout(&[POSITION, UV])).unwrap();
    let h2 = pipelines.specialize(&mut pool, &spec, 3, &mesh_layout(&[UV, POSITION, NORMAL])).unwrap();
    assert_eq!(h, h2);
    assert!(pipelines.descriptor_mismatches().is_empty());
}

#[test]
fn slow_path_tags_errors_and_reuses_known_layouts() {
    let mut pool = PipelineCache::new();
    let mut pipelines: SpecializedMeshPipelines<MeshPipeline> = Default::default();
    let spec = MeshPipeline::new(&[POSITION]);
    let a = mesh_layout(&[POSITION]);
    let err = SpecializedMeshPipelineError::MissingVertexAttribute(MissingVertexAttributeError {
        pipeline_type: None,
        id: UV,
        name: "uv".to_string(),
    });
    match pipelines.specialize_slow(&mut pool, &spec, 1, &a, Err(err)) {
        Err(SpecializedMeshPipelineError::MissingVertexAttribute(e)) => {
            assert_eq!(e.pipeline_type, Some("MeshPipeline"));
            assert_eq!(e.id, UV);
            assert_eq!(e.name, "uv");
        }
        Ok(_) => panic!("an error was turned into a pipeline"),
    }
    let d = spec.specialize(1, &a).unwrap();
    let h = pipelines.specialize_slow(&mut pool, &spec, 1, &a, Ok(d)).unwrap();
    let b = mesh_layout(&[UV, POSITION]);
    let d2 = spec.specialize(1, &b).unwrap();
    let h2 = pipelines.specialize_slow(&mut pool, &spec, 1, &b, Ok(d2)).unwrap();
    assert_eq!(h, h2);
    assert_eq!(pool.render_pipeline_count(), 1);
}

#[test]
fn layouts_compare_by_content() {
    let a = mesh_layout(&[POSITION, UV]);
    let b = mesh_layout(&[UV, POSITION]);
    assert!(a == mesh_layout(&[POSITION, UV]));
    assert!(a != b);
    assert!(a.layout == a.layout.duplicate());
    assert!(a.layout != b.layout);
    assert!(a == a.duplicate());
}
