//! Vertex streams: what a mesh vertex and a draw instance hold, and how a
//! pipeline reads them.
//!
//! Every component is stored as the bit pattern of a 32-bit float. The
//! library moves these words around and never does arithmetic on them.

use vstd::prelude::*;

verus! {

/// The shape of one vertex attribute.
#[derive(Clone, Copy, Debug, PartialEq, Eq, Structural)]
pub enum VertexFormat {
    Float32x2,
    Float32x3,
    Float32x4,
}

/// Whether a vertex buffer advances per vertex or per instance.
#[derive(Clone, Copy, Debug, PartialEq, Eq, Structural)]
pub enum VertexStepMode {
    Vertex,
    Instance,
}

/// One attribute inside a vertex buffer.
#[derive(Clone, Copy, Debug, PartialEq, Eq, Structural)]
pub struct VertexAttribute {
    pub offset: u64,
    pub shader_location: u32,
    pub format: VertexFormat,
}

/// How a pipeline reads one vertex buffer.
#[derive(Clone, Debug, PartialEq, Eq)]
pub struct VertexBufferLayout {
    pub array_stride: u64,
    pub step_mode: VertexStepMode,
    pub attributes: Vec<VertexAttribute>,
}

pub struct VertexBufferLayoutView {
    pub array_stride: u64,
    pub step_mode: VertexStepMode,
    pub attributes: Seq<VertexAttribute>,
}

impl View for VertexBufferLayout {
    type V = VertexBufferLayoutView;

    open spec fn view(&self) -> VertexBufferLayoutView {
        VertexBufferLayoutView {
            array_stride: self.array_stride,
            step_mode: self.step_mode,
            attributes: self.attributes@,
        }
    }
}

/// The views of a run of layouts.
pub open spec fn layouts_view(layouts: Seq<VertexBufferLayout>) -> Seq<VertexBufferLayoutView> {
    layouts.map_values(|l: VertexBufferLayout| l@)
}

/// A mesh vertex: position, normal and texture coordinates.
#[derive(Clone, Copy, Debug, PartialEq, Eq)]
pub struct Vertex {
    pub position: [u32; 3],
    pub normal: [u32; 3],
    pub tex_coords: [u32; 2],
}

impl Vertex {
    /// The eight words of a vertex, in the order in which a vertex buffer holds them.
    pub open spec fn spec_words(self) -> Seq<u32> {
        seq![
            self.position[0],
            self.position[1],
            self.position[2],
            self.normal[0],
            self.normal[1],
            self.normal[2],
            self.tex_coords[0],
            self.tex_coords[1],
        ]
    }

    /// The layout of a buffer of vertices: 32 bytes per vertex, with position,
    /// normal and texture coordinates at shader locations 0, 1 and 2.
    pub open spec fn spec_desc() -> VertexBufferLayoutView {
        VertexBufferLayoutView {
            array_stride: 32,
            step_mode: VertexStepMode::Vertex,
            attributes: seq![
                VertexAttribute { offset: 0, shader_location: 0, format: VertexFormat::Float32x3 },
                VertexAttribute { offset: 12, shader_location: 1, format: VertexFormat::Float32x3 },
                VertexAttribute { offset: 24, shader_location: 2, format: VertexFormat::Float32x2 },
            ],
        }
    }

    pub fn desc() -> (layout: VertexBufferLayout)
        ensures
            layout@ == Self::spec_desc(),
    {
        let mut attributes: Vec<VertexAttribute> = Vec::new();
        attributes.push(
            VertexAttribute { offset: 0, shader_location: 0, format: VertexFormat::Float32x3 },
        );
        attributes.push(
            VertexAttribute { offset: 12, shader_location: 1, format: VertexFormat::Float32x3 },
        );
        attributes.push(
            VertexAttribute { offset: 24, shader_location: 2, format: VertexFormat::Float32x2 },
        );
        let layout = VertexBufferLayout {
            array_stride: 32,
            step_mode: VertexStepMode::Vertex,
            attributes,
        };
        assert(layout@.attributes =~= Self::spec_desc().attributes);
        layout
    }
}

/// The data of one draw instance: a 4x4 model matrix, column by column.
#[derive(Clone, Copy, Debug, PartialEq, Eq)]
pub struct Instance {
    pub model: [[u32; 4]; 4],
}

impl Instance {
    /// The sixteen words of an instance, column after column.
    pub open spec fn spec_words(self) -> Seq<u32> {
        seq![
            self.model[0][0],
            self.model[0][1],
            self.model[0][2],
            self.model[0][3],
            self.model[1][0],
            self.model[1][1],
            self.model[1][2],
            self.model[1][3],
            self.model[2][0],
            self.model[2][1],
            self.model[2][2],
            self.model[2][3],
            self.model[3][0],
            self.model[3][1],
            self.model[3][2],
            self.model[3][3],
        ]
    }

    /// The layout of a buffer of instances: 64 bytes per instance, the four
    /// columns at shader locations 3 to 6.
    pub open spec fn spec_desc() -> VertexBufferLayoutView {
        VertexBufferLayoutView {
            array_stride: 64,
            step_mode: VertexStepMode::Instance,
            attributes: seq![
                VertexAttribute { offset: 0, shader_location: 3, format: VertexFormat::Float32x4 },
                VertexAttribute { offset: 16, shader_location: 4, format: VertexFormat::Float32x4 },
                VertexAttribute { offset: 32, shader_location: 5, format: VertexFormat::Float32x4 },
                VertexAttribute { offset: 48, shader_location: 6, format: VertexFormat::Float32x4 },
            ],
        }
    }

    pub fn desc() -> (layout: VertexBufferLayout)
        ensures
            layout@ == Self::spec_desc(),
    {
        let mut attributes: Vec<VertexAttribute> = Vec::new();
        attributes.push(
            VertexAttribute { offset: 0, shader_location: 3, format: VertexFormat::Float32x4 },
        );
        attributes.push(
            VertexAttribute { offset: 16, shader_location: 4, format: VertexFormat::Float32x4 },
        );
        attributes.push(
            VertexAttribute { offset: 32, shader_location: 5, format: VertexFormat::Float32x4 },
        );
        attributes.push(
            VertexAttribute { offset: 48, shader_location: 6, format: VertexFormat::Float32x4 },
        );
        let layout = VertexBufferLayout {
            array_stride: 64,
            step_mode: VertexStepMode::Instance,
            attributes,
        };
        assert(layout@.attributes =~= Self::spec_desc().attributes);
        layout
    }
}

/// The words of a run of vertices, vertex after vertex.
pub open spec fn vertex_words(vertices: Seq<Vertex>) -> Seq<u32>
    decreases vertices.len(),
{
    if vertices.len() == 0 {
        Seq::empty()
    } else {
        vertex_words(vertices.drop_last()) + vertices.last().spec_words()
    }
}

/// The words of a run of instances, instance after instance.
pub open spec fn instance_words(instances: Seq<Instance>) -> Seq<u32>
    decreases instances.len(),
{
    if instances.len() == 0 {
        Seq::empty()
    } else {
        instance_words(instances.drop_last()) + instances.last().spec_words()
    }
}

/// Lays the vertices out as the words of a vertex buffer.
pub fn flatten_vertices(vertices: &Vec<Vertex>) -> (words: Vec<u32>)
    ensures
        words@ == vertex_words(vertices@),
{
    let mut words: Vec<u32> = Vec::new();
    let mut i: usize = 0;
    while i < vertices.len()
        invariant
            i <= vertices.len(),
            words@ == vertex_words(vertices@.take(i as int)),
        decreases vertices.len() - i,
    {
        let v = &vertices[i];
        let ghost before = words@;
        words.push(v.position[0]);
        words.push(v.position[1]);
        words.push(v.position[2]);
        words.push(v.normal[0]);
        words.push(v.normal[1]);
        words.push(v.normal[2]);
        words.push(v.tex_coords[0]);
        words.push(v.tex_coords[1]);
        proof {
            assert(vertices@.take(i + 1).drop_last() =~= vertices@.take(i as int));
            assert(words@ =~= before + vertices@[i as int].spec_words());
        }
        i += 1;
    }
    assert(vertices@.take(i as int) =~= vertices@);
    words
}

/// Lays the instances out as the words of an instance buffer.
pub fn flatten_instances(instances: &Vec<Instance>) -> (words: Vec<u32>)
    ensures
        words@ == instance_words(instances@),
{
    let mut words: Vec<u32> = Vec::new();
    let mut i: usize = 0;
    while i < instances.len()
        invariant
            i <= instances.len(),
            words@ == instance_words(instances@.take(i as int)),
        decreases instances.len() - i,
    {
        let m = &instances[i];
        let ghost before = words@;
        words.push(m.model[0][0]);
        words.push(m.model[0][1]);
        words.push(m.model[0][2]);
        words.push(m.model[0][3]);
        words.push(m.model[1][0]);
        words.push(m.model[1][1]);
        words.push(m.model[1][2]);
        words.push(m.model[1][3]);
        words.push(m.model[2][0]);
        words.push(m.model[2][1]);
        words.push(m.model[2][2]);
        words.push(m.model[2][3]);
        words.push(m.model[3][0]);
        words.push(m.model[3][1]);
        words.push(m.model[3][2]);
        words.push(m.model[3][3]);
        proof {
            assert(instances@.take(i + 1).drop_last() =~= instances@.take(i as int));
            assert(words@ =~= before + instances@[i as int].spec_words());
        }
        i += 1;
    }
    assert(instances@.take(i as int) =~= instances@);
    words
}

} // verus!
