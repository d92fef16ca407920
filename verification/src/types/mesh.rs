//! Meshes: geometry on the device, drawn submesh by submesh.

use vstd::prelude::*;
use crate::device::{
    BufferContents, BufferId, BufferUsages, ContentsView, Device, IndexFormat, RequestView,
};
use crate::render_pass::{lemma_plus, PassOp, RenderPass};
use crate::types::instance_buffer::{InstanceBuffer, InstanceBufferView};
use crate::types::vertex::{flatten_vertices, vertex_words, Vertex};

verus! {

/// One object of a model file, as its parser hands it out: three
/// words per position and per normal, two per texture coordinate, and one
/// index per corner of a triangle.
#[derive(Clone, Debug, PartialEq, Eq)]
pub struct ObjModel {
    pub positions: Vec<u32>,
    pub normals: Vec<u32>,
    pub texcoords: Vec<u32>,
    pub indices: Vec<u32>,
}

pub struct ObjModelView {
    pub positions: Seq<u32>,
    pub normals: Seq<u32>,
    pub texcoords: Seq<u32>,
    pub indices: Seq<u32>,
}

impl View for ObjModel {
    type V = ObjModelView;

    open spec fn view(&self) -> ObjModelView {
        ObjModelView {
            positions: self.positions@,
            normals: self.normals@,
            texcoords: self.texcoords@,
            indices: self.indices@,
        }
    }
}

/// The views of a run of models.
pub open spec fn models_view(models: Seq<ObjModel>) -> Seq<ObjModelView> {
    models.map_values(|m: ObjModel| m@)
}

/// The smallest of three numbers.
pub open spec fn min3(a: int, b: int, c: int) -> int {
    if a <= b && a <= c {
        a
    } else if b <= c {
        b
    } else {
        c
    }
}

impl ObjModelView {
    /// Every attribute list holds whole attributes.
    pub open spec fn aligned(self) -> bool {
        &&& self.positions.len() % 3 == 0
        &&& self.normals.len() % 3 == 0
        &&& self.texcoords.len() % 2 == 0
    }

    /// A draw call can count the indices.
    pub open spec fn countable(self) -> bool {
        self.indices.len() <= u32::MAX
    }

    /// The model can be uploaded as a submesh.
    pub open spec fn well_formed(self) -> bool {
        self.aligned() && self.countable()
    }

    /// A vertex needs a position, a normal and a texture coordinate: there
    /// are as many vertices as the shortest attribute list allows.
    pub open spec fn vertex_count(self) -> int {
        min3(
            self.positions.len() as int / 3,
            self.normals.len() as int / 3,
            self.texcoords.len() as int / 2,
        )
    }

    /// The `i`-th vertex: the `i`-th position, normal and texture coordinate.
    pub open spec fn vertex(self, i: int) -> Vertex {
        Vertex {
            position: [self.positions[3 * i], self.positions[3 * i + 1], self.positions[3 * i + 2]],
            normal: [self.normals[3 * i], self.normals[3 * i + 1], self.normals[3 * i + 2]],
            tex_coords: [self.texcoords[2 * i], self.texcoords[2 * i + 1]],
        }
    }

    /// The vertices of the model.
    pub open spec fn vertices(self) -> Seq<Vertex> {
        Seq::new(self.vertex_count() as nat, |i: int| self.vertex(i))
    }
}

/// What went wrong with a model.
#[derive(Clone, Copy, Debug, PartialEq, Eq, Structural)]
pub enum MeshFault {
    /// An attribute list ends in the middle of an attribute.
    RaggedAttributes,
    /// There are more indices than a draw call can count.
    TooManyIndices,
}

/// The first model of a file that cannot be uploaded, and why.
#[derive(Clone, Copy, Debug, PartialEq, Eq, Structural)]
pub struct MeshError {
    pub model: usize,
    pub fault: MeshFault,
}

/// The fault of a model that is not well formed.
pub open spec fn model_fault(model: ObjModelView) -> MeshFault {
    if !model.aligned() {
        MeshFault::RaggedAttributes
    } else {
        MeshFault::TooManyIndices
    }
}

/// Every model of the run can be uploaded.
pub open spec fn models_well_formed(models: Seq<ObjModelView>) -> bool {
    forall|i: int| 0 <= i < models.len() ==> (#[trigger] models[i]).well_formed()
}

/// The first model from number `from` on that cannot be uploaded, and why.
pub open spec fn fault_from(models: Seq<ObjModelView>, from: int) -> Option<MeshError>
    decreases models.len() - from,
{
    if from < 0 || from >= models.len() {
        None
    } else if !models[from].well_formed() {
        Some(MeshError { model: from as usize, fault: model_fault(models[from]) })
    } else {
        fault_from(models, from + 1)
    }
}

/// The first model of the run that cannot be uploaded, and why.
pub open spec fn first_fault_of(models: Seq<ObjModelView>) -> Option<MeshError> {
    fault_from(models, 0)
}

/// There is a first fault exactly if some model cannot be uploaded.
pub proof fn lemma_fault_from(models: Seq<ObjModelView>, from: int)
    requires
        0 <= from,
    ensures
        fault_from(models, from) is None <==> forall|i: int|
            from <= i < models.len() ==> (#[trigger] models[i]).well_formed(),
    decreases models.len() - from,
{
    if from < models.len() && models[from].well_formed() {
        lemma_fault_from(models, from + 1);
    }
}

/// One contiguous piece of a mesh, drawn by one draw call.
#[derive(Clone, Copy, Debug, PartialEq, Eq, Structural)]
pub struct Submesh {
    pub vertex_buffer: BufferId,
    pub index_buffer: BufferId,
    pub num_indices: u32,
    pub indirect_args: Option<BufferId>,
}

/// What a vertex buffer is used for.
pub open spec fn vertex_usage() -> BufferUsages {
    BufferUsages {
        vertex: true,
        index: false,
        uniform: false,
        storage: false,
        indirect: false,
        copy_dst: false,
    }
}

/// What an index buffer is used for.
pub open spec fn index_usage() -> BufferUsages {
    BufferUsages {
        vertex: false,
        index: true,
        uniform: false,
        storage: false,
        indirect: false,
        copy_dst: false,
    }
}

/// What a buffer of indirect draw arguments is used for.
pub open spec fn indirect_usage() -> BufferUsages {
    BufferUsages {
        vertex: false,
        index: false,
        uniform: false,
        storage: false,
        indirect: true,
        copy_dst: false,
    }
}

/// The two requests that make the vertex and the index buffer of a submesh.
pub open spec fn submesh_requests(vertices: Seq<Vertex>, indices: Seq<u32>) -> Seq<RequestView> {
    seq![
        RequestView::CreateBuffer {
            contents: ContentsView::Words(vertex_words(vertices)),
            usage: vertex_usage(),
        },
        RequestView::CreateBuffer { contents: ContentsView::Words(indices), usage: index_usage() },
    ]
}

/// The submesh that the two requests at `at` make.
pub open spec fn submesh_at(indices: Seq<u32>, at: int) -> Submesh {
    Submesh {
        vertex_buffer: BufferId { index: at as usize },
        index_buffer: BufferId { index: (at + 1) as usize },
        num_indices: indices.len() as u32,
        indirect_args: None,
    }
}

/// The words of the arguments of an indexed indirect draw: index count,
/// instance count, first index, base vertex, first instance.
pub open spec fn indirect_arguments(index_count: u32, instance_count: u32) -> Seq<u32> {
    seq![index_count, instance_count, 0, 0, 0]
}

/// The request that makes the indirect draw arguments of a submesh.
pub open spec fn indirect_request(submesh: Submesh, instance_count: u32) -> RequestView {
    RequestView::CreateBuffer {
        contents: ContentsView::Words(indirect_arguments(submesh.num_indices, instance_count)),
        usage: indirect_usage(),
    }
}

impl Submesh {
    /// What drawing the submesh once records.
    pub open spec fn draw_ops(self) -> Seq<PassOp> {
        seq![
            PassOp::SetVertexBuffer { slot: 0, buffer: self.vertex_buffer },
            PassOp::SetIndexBuffer { buffer: self.index_buffer, format: IndexFormat::Uint32 },
            PassOp::DrawIndexed { index_count: self.num_indices, base_vertex: 0, instance_count: 1 },
        ]
    }

    /// The draw call of an instanced draw: through the indirect arguments
    /// if the submesh has them, else directly with the number of instances.
    pub open spec fn instanced_draw_call(self, instances: InstanceBufferView) -> PassOp {
        match self.indirect_args {
            Some(arguments) => PassOp::DrawIndexedIndirect { arguments, offset: 0 },
            None => PassOp::DrawIndexed {
                index_count: self.num_indices,
                base_vertex: 0,
                instance_count: instances.instances.len() as u32,
            },
        }
    }

    /// What drawing the submesh once per instance records.
    pub open spec fn instanced_draw_ops(self, instances: InstanceBufferView) -> Seq<PassOp> {
        seq![
            PassOp::SetVertexBuffer { slot: 0, buffer: self.vertex_buffer },
            PassOp::SetIndexBuffer { buffer: self.index_buffer, format: IndexFormat::Uint32 },
            PassOp::SetVertexBuffer { slot: 1, buffer: instances.buffer },
            self.instanced_draw_call(instances),
        ]
    }

    /// Uploads `vertices` and `indices` as one submesh.
    pub fn new(device: &mut Device, vertices: &Vec<Vertex>, indices: &Vec<u32>) -> (submesh:
        Submesh)
        requires
            indices@.len() <= u32::MAX,
        ensures
            final(device)@ == old(device)@ + submesh_requests(vertices@, indices@),
            submesh == submesh_at(indices@, old(device)@.len() as int),
    {
        let words = flatten_vertices(vertices);
        let vertex_buffer = device.create_buffer_init(
            BufferContents::Words(words),
            BufferUsages {
                vertex: true,
                index: false,
                uniform: false,
                storage: false,
                indirect: false,
                copy_dst: false,
            },
        );
        let index_buffer = device.create_buffer_init(
            BufferContents::Words(indices.clone()),
            BufferUsages {
                vertex: false,
                index: true,
                uniform: false,
                storage: false,
                indirect: false,
                copy_dst: false,
            },
        );
        proof {
            assert(device@ =~= old(device)@ + submesh_requests(vertices@, indices@));
        }
        Submesh {
            vertex_buffer,
            index_buffer,
            num_indices: indices.len() as u32,
            indirect_args: None,
        }
    }

    /// Draws the submesh once.
    pub fn render(&self, render_pass: &mut RenderPass)
        ensures
            final(render_pass)@ == old(render_pass)@.plus(self.draw_ops()),
    {
        render_pass.set_vertex_buffer(0, self.vertex_buffer);
        render_pass.set_index_buffer(self.index_buffer, IndexFormat::Uint32);
        render_pass.draw_indexed(self.num_indices, 0, 1);
        proof {
            assert(render_pass@.ops =~= old(render_pass)@.ops + self.draw_ops());
        }
    }

    /// Draws the submesh once per instance of `instance_buffer`.
    pub fn render_instanced(&self, render_pass: &mut RenderPass, instance_buffer: &InstanceBuffer)
        ensures
            final(render_pass)@ == old(render_pass)@.plus(
                self.instanced_draw_ops(instance_buffer@),
            ),
    {
        render_pass.set_vertex_buffer(0, self.vertex_buffer);
        render_pass.set_index_buffer(self.index_buffer, IndexFormat::Uint32);
        instance_buffer.bind_as_buffer(1, render_pass);
        match self.indirect_args {
            Some(arguments) => {
                render_pass.draw_indexed_indirect(arguments, 0);
            },
            None => {
                render_pass.draw_indexed(
                    self.num_indices,
                    0,
                    instance_buffer.get_instance_count() as u32,
                );
            },
        }
        proof {
            assert(render_pass@.ops =~= old(render_pass)@.ops + self.instanced_draw_ops(
                instance_buffer@,
            ));
        }
    }

    /// Asks for the arguments of an indirect draw of this submesh, once per
    /// instance of `instance_buffer`, and keeps the buffer that will hold them.
    pub fn create_instanced_indirect_args(
        &mut self,
        device: &mut Device,
        instance_buffer: &InstanceBuffer,
    )
        ensures
            final(device)@ == old(device)@.push(
                indirect_request(*old(self), instance_buffer@.instances.len() as u32),
            ),
            *final(self) == (Submesh {
                indirect_args: Some(BufferId { index: old(device)@.len() as usize }),
                ..*old(self)
            }),
    {
        let mut words: Vec<u32> = Vec::new();
        words.push(self.num_indices);
        words.push(instance_buffer.get_instance_count() as u32);
        words.push(0);
        words.push(0);
        words.push(0);
        proof {
            assert(words@ =~= indirect_arguments(
                self.num_indices,
                instance_buffer@.instances.len() as u32,
            ));
        }
        let arguments = device.create_buffer_init(
            BufferContents::Words(words),
            BufferUsages {
                vertex: false,
                index: false,
                uniform: false,
                storage: false,
                indirect: true,
                copy_dst: false,
            },
        );
        self.indirect_args = Some(arguments);
    }
}

/// The requests that make the submeshes of the first `n` models, model after model.
pub open spec fn mesh_requests(models: Seq<ObjModelView>, n: int) -> Seq<RequestView>
    decreases n,
{
    if n <= 0 {
        Seq::empty()
    } else {
        mesh_requests(models, n - 1) + submesh_requests(
            models[n - 1].vertices(),
            models[n - 1].indices,
        )
    }
}

/// The submeshes that `mesh_requests` makes when its first request is number `at`.
pub open spec fn mesh_submeshes(models: Seq<ObjModelView>, at: int) -> Seq<Submesh> {
    Seq::new(models.len(), |i: int| submesh_at(models[i].indices, at + 2 * i))
}

/// The requests that make the indirect draw arguments of the first `n` submeshes.
pub open spec fn indirect_requests(submeshes: Seq<Submesh>, instance_count: u32) -> Seq<
    RequestView,
> {
    Seq::new(submeshes.len(), |i: int| indirect_request(submeshes[i], instance_count))
}

/// The submeshes, each with the indirect draw arguments that the requests from `at` on make.
pub open spec fn with_indirect_args(submeshes: Seq<Submesh>, at: int) -> Seq<Submesh> {
    Seq::new(
        submeshes.len(),
        |i: int|
            Submesh { indirect_args: Some(BufferId { index: (at + i) as usize }), ..submeshes[i] },
    )
}

/// The geometry of a model file on the device, and the instances to draw it with, if any.
pub struct Mesh {
    submeshes: Vec<Submesh>,
    instance_buffer: Option<InstanceBuffer>,
}

pub struct MeshView {
    pub submeshes: Seq<Submesh>,
    pub instance_buffer: Option<InstanceBufferView>,
}

impl View for Mesh {
    type V = MeshView;

    closed spec fn view(&self) -> MeshView {
        MeshView {
            submeshes: self.submeshes@,
            instance_buffer: match self.instance_buffer {
                Some(buffer) => Some(buffer@),
                None => None,
            },
        }
    }
}

impl MeshView {
    /// What drawing the first `n` submeshes once records.
    pub open spec fn draw_ops_upto(self, n: int) -> Seq<PassOp>
        decreases n,
    {
        if n <= 0 {
            Seq::empty()
        } else {
            self.draw_ops_upto(n - 1) + self.submeshes[n - 1].draw_ops()
        }
    }

    /// What drawing the mesh once records: every submesh, in order.
    pub open spec fn draw_ops(self) -> Seq<PassOp> {
        self.draw_ops_upto(self.submeshes.len() as int)
    }

    /// What drawing the first `n` submeshes once per instance records.
    pub open spec fn instanced_draw_ops_upto(self, instances: InstanceBufferView, n: int) -> Seq<
        PassOp,
    >
        decreases n,
    {
        if n <= 0 {
            Seq::empty()
        } else {
            self.instanced_draw_ops_upto(instances, n - 1) + self.submeshes[n
                - 1].instanced_draw_ops(instances)
        }
    }

    /// What an instanced draw of the mesh records: every submesh in order,
    /// or nothing if the mesh has no instances.
    pub open spec fn instanced_draw_ops(self) -> Seq<PassOp> {
        match self.instance_buffer {
            Some(instances) => self.instanced_draw_ops_upto(
                instances,
                self.submeshes.len() as int,
            ),
            None => Seq::empty(),
        }
    }

    /// The mesh after `instances` were attached by requests from `at` on.
    pub open spec fn instanced(self, instances: InstanceBufferView, at: int) -> MeshView {
        MeshView {
            submeshes: with_indirect_args(self.submeshes, at),
            instance_buffer: Some(instances),
        }
    }
}

/// Builds the vertices of a model.
pub fn assemble_vertices(model: &ObjModel) -> (vertices: Vec<Vertex>)
    ensures
        vertices@ == model@.vertices(),
{
    let p = model.positions.len() / 3;
    let n = model.normals.len() / 3;
    let t = model.texcoords.len() / 2;
    let count = if p <= n && p <= t {
        p
    } else if n <= t {
        n
    } else {
        t
    };
    let mut vertices: Vec<Vertex> = Vec::new();
    let mut i: usize = 0;
    while i < count
        invariant
            i <= count,
            count == model@.vertex_count(),
            count <= model.positions@.len() / 3,
            count <= model.normals@.len() / 3,
            count <= model.texcoords@.len() / 2,
            model.positions@.len() <= usize::MAX,
            model.normals@.len() <= usize::MAX,
            model.texcoords@.len() <= usize::MAX,
            vertices@.len() == i,
            forall|k: int| 0 <= k < i ==> vertices@[k] == model@.vertex(k),
        decreases count - i,
    {
        assert(3 * i + 2 < model.positions@.len());
        assert(3 * i + 2 < model.normals@.len());
        assert(2 * i + 1 < model.texcoords@.len());
        let a: usize = 3 * i;
        let b: usize = 2 * i;
        let vertex = Vertex {
            position: [model.positions[a], model.positions[a + 1], model.positions[a + 2]],
            normal: [model.normals[a], model.normals[a + 1], model.normals[a + 2]],
            tex_coords: [model.texcoords[b], model.texcoords[b + 1]],
        };
        proof {
            let expected = model@.vertex(i as int);
            assert(vertex.position =~= expected.position);
            assert(vertex.normal =~= expected.normal);
            assert(vertex.tex_coords =~= expected.tex_coords);
        }
        vertices.push(vertex);
        i += 1;
    }
    assert(vertices@ =~= model@.vertices());
    vertices
}

/// Looks for the first model that cannot be uploaded.
pub fn first_fault(models: &Vec<ObjModel>) -> (r: Option<MeshError>)
    ensures
        r == first_fault_of(models_view(models@)),
        r is None <==> models_well_formed(models_view(models@)),
{
    let ghost views = models_view(models@);
    proof {
        lemma_fault_from(views, 0);
    }
    let mut i: usize = 0;
    while i < models.len()
        invariant
            i <= models.len(),
            views == models_view(models@),
            first_fault_of(views) == fault_from(views, i as int),
        decreases models.len() - i,
    {
        let model = &models[i];
        assert(views[i as int] == model@);
        if model.positions.len() % 3 != 0 || model.normals.len() % 3 != 0 || model.texcoords.len()
            % 2 != 0 {
            return Some(MeshError { model: i, fault: MeshFault::RaggedAttributes });
        }
        if model.indices.len() > 0xffff_ffff {
            return Some(MeshError { model: i, fault: MeshFault::TooManyIndices });
        }
        i += 1;
    }
    None
}

impl Mesh {
    /// Uploads the models of a model file, one submesh per model. If a model
    /// cannot be uploaded, nothing is asked of the device.
    pub fn load_from_file(device: &mut Device, models: &Vec<ObjModel>) -> (r: Result<
        Mesh,
        MeshError,
    >)
        ensures
            r is Ok <==> first_fault_of(models_view(models@)) is None,
            r matches Ok(mesh) ==> {
                &&& final(device)@ == old(device)@ + mesh_requests(
                    models_view(models@),
                    models@.len() as int,
                )
                &&& mesh@.submeshes == mesh_submeshes(
                    models_view(models@),
                    old(device)@.len() as int,
                )
                &&& mesh@.instance_buffer is None
            },
            r matches Err(error) ==> {
                &&& final(device)@ == old(device)@
                &&& first_fault_of(models_view(models@)) == Some(error)
            },
    {
        match first_fault(models) {
            Some(error) => { return Err(error); },
            None => {},
        }
        let ghost views = models_view(models@);
        let ghost at = old(device)@.len() as int;
        let mut submeshes: Vec<Submesh> = Vec::new();
        let mut i: usize = 0;
        while i < models.len()
            invariant
                i <= models.len(),
                views == models_view(models@),
                models_well_formed(views),
                at == old(device)@.len(),
                device@ == old(device)@ + mesh_requests(views, i as int),
                device@.len() == at + 2 * i,
                submeshes@.len() == i,
                forall|k: int|
                    0 <= k < i ==> submeshes@[k] == submesh_at(#[trigger] views[k].indices, at + 2 * k),
            decreases models.len() - i,
        {
            let model = &models[i];
            assert(views[i as int] == model@);
            assert(views[i as int].well_formed());
            let vertices = assemble_vertices(model);
            let submesh = Submesh::new(device, &vertices, &model.indices);
            submeshes.push(submesh);
            proof {
                assert(device@ =~= old(device)@ + mesh_requests(views, i + 1));
            }
            i += 1;
        }
        proof {
            assert(submeshes@ =~= mesh_submeshes(views, at));
        }
        Ok(Mesh { submeshes, instance_buffer: None })
    }

    /// Uploads one list of vertices and indices as a mesh of a single submesh.
    pub fn load_from_raw(device: &mut Device, vertices: &Vec<Vertex>, indices: &Vec<u32>) -> (mesh:
        Mesh)
        requires
            indices@.len() <= u32::MAX,
        ensures
            final(device)@ == old(device)@ + submesh_requests(vertices@, indices@),
            mesh@.submeshes == seq![submesh_at(indices@, old(device)@.len() as int)],
            mesh@.instance_buffer is None,
    {
        let submesh = Submesh::new(device, vertices, indices);
        let mut submeshes: Vec<Submesh> = Vec::new();
        submeshes.push(submesh);
        Mesh { submeshes, instance_buffer: None }
    }

    /// The submeshes, in draw order.
    pub fn submeshes(&self) -> (submeshes: &Vec<Submesh>)
        ensures
            submeshes@ == self@.submeshes,
    {
        &self.submeshes
    }

    /// The instances that the mesh is drawn with, if any were attached.
    pub fn instance_buffer(&self) -> (buffer: Option<&InstanceBuffer>)
        ensures
            buffer is Some <==> self@.instance_buffer is Some,
            buffer matches Some(b) ==> self@.instance_buffer == Some(b@),
    {
        self.instance_buffer.as_ref()
    }

    /// Attaches the instances to draw the mesh with, and asks for the
    /// indirect draw arguments of every submesh. Instances attached earlier are dropped.
    pub fn set_instances(&mut self, device: &mut Device, instance_buffer: InstanceBuffer)
        ensures
            final(device)@ == old(device)@ + indirect_requests(
                old(self)@.submeshes,
                instance_buffer@.instances.len() as u32,
            ),
            final(self)@ == old(self)@.instanced(instance_buffer@, old(device)@.len() as int),
    {
        let ghost at = old(device)@.len() as int;
        let ghost before = old(self)@.submeshes;
        let ghost count = instance_buffer@.instances.len() as u32;
        let n = self.submeshes.len();
        let mut i: usize = 0;
        while i < n
            invariant
                i <= n,
                n == before.len(),
                self.submeshes@.len() == n,
                at == old(device)@.len(),
                count == instance_buffer@.instances.len() as u32,
                device@ == old(device)@ + indirect_requests(before.take(i as int), count),
                forall|k: int|
                    0 <= k < i ==> #[trigger] self.submeshes@[k] == with_indirect_args(
                        before,
                        at,
                    )[k],
                forall|k: int| i <= k < n ==> #[trigger] self.submeshes@[k] == before[k],
            decreases n - i,
        {
            let mut submesh = self.submeshes[i];
            submesh.create_instanced_indirect_args(device, &instance_buffer);
            self.submeshes.set(i, submesh);
            proof {
                assert(device@ =~= old(device)@ + indirect_requests(before.take(i + 1), count));
            }
            i += 1;
        }
        proof {
            assert(before.take(n as int) =~= before);
            assert(self.submeshes@ =~= with_indirect_args(before, at));
        }
        self.instance_buffer = Some(instance_buffer);
    }

    /// Draws every submesh once, in order.
    pub fn render(&self, render_pass: &mut RenderPass)
        ensures
            final(render_pass)@ == old(render_pass)@.plus(self@.draw_ops()),
    {
        let mut i: usize = 0;
        proof {
            lemma_plus(old(render_pass)@, Seq::empty(), Seq::empty());
        }
        while i < self.submeshes.len()
            invariant
                i <= self.submeshes@.len(),
                render_pass@ == old(render_pass)@.plus(self@.draw_ops_upto(i as int)),
            decreases self.submeshes@.len() - i,
        {
            self.submeshes[i].render(render_pass);
            proof {
                lemma_plus(
                    old(render_pass)@,
                    self@.draw_ops_upto(i as int),
                    self.submeshes@[i as int].draw_ops(),
                );
            }
            i += 1;
        }
    }

    /// Draws every submesh once per attached instance, in order. A mesh
    /// without instances draws nothing.
    pub fn render_instanced(&self, render_pass: &mut RenderPass)
        ensures
            final(render_pass)@ == old(render_pass)@.plus(self@.instanced_draw_ops()),
    {
        proof {
            lemma_plus(old(render_pass)@, Seq::empty(), Seq::empty());
        }
        match &self.instance_buffer {
            Some(instances) => {
                let mut i: usize = 0;
                while i < self.submeshes.len()
                    invariant
                        i <= self.submeshes@.len(),
                        self.instance_buffer == Some(*instances),
                        render_pass@ == old(render_pass)@.plus(
                            self@.instanced_draw_ops_upto(instances@, i as int),
                        ),
                    decreases self.submeshes@.len() - i,
                {
                    self.submeshes[i].render_instanced(render_pass, instances);
                    proof {
                        lemma_plus(
                            old(render_pass)@,
                            self@.instanced_draw_ops_upto(instances@, i as int),
                            self.submeshes@[i as int].instanced_draw_ops(instances@),
                        );
                    }
                    i += 1;
                }
            },
            None => {},
        }
    }
}

} // verus!
