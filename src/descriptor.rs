//! The values a pipeline is built from: vertex buffer layouts, the raw
//! layouts of meshes, and the descriptors handed to the pipeline cache.
use vstd::prelude::*;

verus! {

/// How often a vertex buffer advances.
#[derive(Clone, Copy, Debug, PartialEq, Eq, Structural, Hash)]
pub enum VertexStepMode {
    Vertex,
    Instance,
}

/// One attribute of a vertex buffer: its format code, byte offset and
/// shader location.
#[derive(Clone, Copy, Debug, PartialEq, Eq, Structural, Hash)]
pub struct VertexAttribute {
    pub format: u32,
    pub offset: u64,
    pub shader_location: u32,
}

/// The normalized layout of one vertex buffer, as a pipeline consumes it.
#[derive(Debug)]
pub struct VertexBufferLayout {
    pub array_stride: u64,
    pub step_mode: VertexStepMode,
    pub attributes: Vec<VertexAttribute>,
}

pub struct VertexBufferLayoutView {
    pub array_stride: u64,
    pub step_mode: VertexStepMode,
    pub attributes: Seq<VertexAttribute>,
}

impl View for VertexBufferLayout {
    type V = VertexBufferLayoutView;

    open spec fn view(&self) -> VertexBufferLayoutView {
        VertexBufferLayoutView {
            array_stride: self.array_stride,
            step_mode: self.step_mode,
            attributes: self.attributes@,
        }
    }
}

/// Whether two sequences of words hold the same words in the same order.
pub fn same_words(a: &Vec<u64>, b: &Vec<u64>) -> (r: bool)
    ensures
        r == (a@ == b@),
{
    if a.len() != b.len() {
        return false;
    }
    let mut i: usize = 0;
    while i < a.len()
        invariant
            a@.len() == b@.len(),
            i <= a@.len(),
            forall|j: int| 0 <= j < i ==> a@[j] == b@[j],
        decreases a@.len() - i,
    {
        if a[i] != b[i] {
            return false;
        }
        i = i + 1;
    }
    assert(a@ =~= b@);
    true
}

impl VertexBufferLayout {
    /// Compares two layouts field by field, attributes in order.
    pub fn same_as(&self, other: &VertexBufferLayout) -> (r: bool)
        ensures
            r == (self@ == other@),
    {
        if self.array_stride != other.array_stride || self.step_mode != other.step_mode
            || self.attributes.len() != other.attributes.len() {
            return false;
        }
        let mut i: usize = 0;
        while i < self.attributes.len()
            invariant
                self.attributes@.len() == other.attributes@.len(),
                i <= self.attributes@.len(),
                forall|j: int| 0 <= j < i ==> self.attributes@[j] == other.attributes@[j],
            decreases self.attributes@.len() - i,
        {
            if self.attributes[i] != other.attributes[i] {
                return false;
            }
            i = i + 1;
        }
        assert(self.attributes@ =~= other.attributes@);
        true
    }

    /// A copy with the same fields and attributes.
    pub fn duplicate(&self) -> (r: VertexBufferLayout)
        ensures
            r@ == self@,
    {
        let mut attributes: Vec<VertexAttribute> = Vec::new();
        let mut i: usize = 0;
        while i < self.attributes.len()
            invariant
                i <= self.attributes@.len(),
                attributes@ =~= self.attributes@.subrange(0, i as int),
            decreases self.attributes@.len() - i,
        {
            attributes.push(self.attributes[i]);
            i = i + 1;
        }
        assert(attributes@ =~= self.attributes@);
        VertexBufferLayout {
            array_stride: self.array_stride,
            step_mode: self.step_mode,
            attributes,
        }
    }
}

impl PartialEq for VertexBufferLayout {
    fn eq(&self, other: &VertexBufferLayout) -> (r: bool) {
        self.same_as(other)
    }
}

impl vstd::std_specs::cmp::PartialEqSpecImpl for VertexBufferLayout {
    open spec fn obeys_eq_spec() -> bool {
        true
    }

    open spec fn eq_spec(&self, other: &VertexBufferLayout) -> bool {
        self@ == other@
    }
}

/// A reference to the raw vertex layout of a mesh: the ids of the mesh's
/// attributes, in the mesh's order, and the buffer layout they describe.
/// Two references are the same when their contents are.
#[derive(Debug)]
pub struct MeshVertexBufferLayoutRef {
    pub attribute_ids: Vec<u64>,
    pub layout: VertexBufferLayout,
}

pub struct MeshVertexBufferLayoutView {
    pub attribute_ids: Seq<u64>,
    pub layout: VertexBufferLayoutView,
}

impl View for MeshVertexBufferLayoutRef {
    type V = MeshVertexBufferLayoutView;

    open spec fn view(&self) -> MeshVertexBufferLayoutView {
        MeshVertexBufferLayoutView { attribute_ids: self.attribute_ids@, layout: self.layout@ }
    }
}

impl MeshVertexBufferLayoutRef {
    /// Compares attribute ids and layout.
    pub fn same_as(&self, other: &MeshVertexBufferLayoutRef) -> (r: bool)
        ensures
            r == (self@ == other@),
    {
        let ids = same_words(&self.attribute_ids, &other.attribute_ids);
        ids && self.layout.same_as(&other.layout)
    }

    /// A copy with the same attribute ids and layout.
    pub fn duplicate(&self) -> (r: MeshVertexBufferLayoutRef)
        ensures
            r@ == self@,
    {
        let mut attribute_ids: Vec<u64> = Vec::new();
        let mut i: usize = 0;
        while i < self.attribute_ids.len()
            invariant
                i <= self.attribute_ids@.len(),
                attribute_ids@ =~= self.attribute_ids@.subrange(0, i as int),
            decreases self.attribute_ids@.len() - i,
        {
            attribute_ids.push(self.attribute_ids[i]);
            i = i + 1;
        }
        assert(attribute_ids@ =~= self.attribute_ids@);
        MeshVertexBufferLayoutRef { attribute_ids, layout: self.layout.duplicate() }
    }
}

impl PartialEq for MeshVertexBufferLayoutRef {
    fn eq(&self, other: &MeshVertexBufferLayoutRef) -> (r: bool) {
        self.same_as(other)
    }
}

impl vstd::std_specs::cmp::PartialEqSpecImpl for MeshVertexBufferLayoutRef {
    open spec fn obeys_eq_spec() -> bool {
        true
    }

    open spec fn eq_spec(&self, other: &MeshVertexBufferLayoutRef) -> bool {
        self@ == other@
    }
}

/// The vertex stage of a render pipeline.
#[derive(Debug)]
pub struct VertexState {
    pub shader: u64,
    pub shader_defs: Vec<u64>,
    pub buffers: Vec<VertexBufferLayout>,
}

/// Everything needed to build a render pipeline.
#[derive(Debug)]
pub struct RenderPipelineDescriptor {
    pub vertex: VertexState,
    pub fragment_shader: Option<u64>,
}

pub struct RenderPipelineView {
    pub shader: u64,
    pub shader_defs: Seq<u64>,
    pub buffers: Seq<VertexBufferLayoutView>,
    pub fragment_shader: Option<u64>,
}

impl View for RenderPipelineDescriptor {
    type V = RenderPipelineView;

    open spec fn view(&self) -> RenderPipelineView {
        RenderPipelineView {
            shader: self.vertex.shader,
            shader_defs: self.vertex.shader_defs@,
            buffers: self.vertex.buffers@.map_values(|b: VertexBufferLayout| b@),
            fragment_shader: self.fragment_shader,
        }
    }
}

impl RenderPipelineDescriptor {
    /// Compares shaders, shader defs and every vertex buffer layout.
    pub fn same_as(&self, other: &RenderPipelineDescriptor) -> (r: bool)
        ensures
            r == (self@ == other@),
    {
        if self.vertex.shader != other.vertex.shader
            || self.fragment_shader != other.fragment_shader
            || !same_words(&self.vertex.shader_defs, &other.vertex.shader_defs) {
            return false;
        }
        let ghost a = self@.buffers;
        let ghost b = other@.buffers;
        if self.vertex.buffers.len() != other.vertex.buffers.len() {
            assert(a.len() != b.len());
            return false;
        }
        let mut i: usize = 0;
        while i < self.vertex.buffers.len()
            invariant
                a == self.vertex.buffers@.map_values(|l: VertexBufferLayout| l@),
                b == other.vertex.buffers@.map_values(|l: VertexBufferLayout| l@),
                self.vertex.buffers@.len() == other.vertex.buffers@.len(),
                i <= self.vertex.buffers@.len(),
                forall|j: int| 0 <= j < i ==> a[j] == b[j],
            decreases self.vertex.buffers@.len() - i,
        {
            if !self.vertex.buffers[i].same_as(&other.vertex.buffers[i]) {
                assert(a[i as int] != b[i as int]);
                return false;
            }
            i = i + 1;
        }
        assert(a =~= b);
        true
    }
}

impl PartialEq for RenderPipelineDescriptor {
    fn eq(&self, other: &RenderPipelineDescriptor) -> (r: bool) {
        self.same_as(other)
    }
}

impl vstd::std_specs::cmp::PartialEqSpecImpl for RenderPipelineDescriptor {
    open spec fn obeys_eq_spec() -> bool {
        true
    }

    open spec fn eq_spec(&self, other: &RenderPipelineDescriptor) -> bool {
        self@ == other@
    }
}

/// Everything needed to build a compute pipeline.
#[derive(Debug)]
pub struct ComputePipelineDescriptor {
    pub shader: u64,
    pub shader_defs: Vec<u64>,
    pub entry_point: u64,
}

} // verus!
