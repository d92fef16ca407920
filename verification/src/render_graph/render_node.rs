//! Render nodes: a shader, uniform data and an ordered list of commands,
//! compiled once into a pipeline and a list of draw commands, then
//! replayed every frame.

use vstd::prelude::*;
use crate::Handle;
use crate::device::{BindGroupLayoutId, Device, RequestView, ShaderModuleId};
use crate::pipeline::{pipeline_requests, Pipeline};
use crate::render_graph::commands::{
    commands_view, draw_commands_view, mesh_key, texture_key, Command, CommandView, DrawCommand,
    DrawCommandView,
};
use crate::render_graph::resource_manager::{
    image_option_view, models_option_view, LoadError, ResourceHandle, ResourceKey,
    ResourceManager, ResourceManagerView, ResourceType,
};
use crate::render_pass::{
    lemma_plus, CommandEncoder, DepthAttachment, LoadOp, PassOp, RenderPass, RenderPassView,
};
use crate::types::instance_buffer::{instance_buffer_requests, InstanceBufferView};
use crate::types::mesh::{indirect_requests, ObjModel, ObjModelView, models_view};
use crate::types::texture::{ImageData, ImageDataView, TextureSize};
use crate::types::uniform_buffer::{Uniform, UniformBuffer};
use crate::types::uniform_set::{
    uniform_group_requests, UniformBufferType, UniformSet, UniformSetView,
};
use crate::types::vertex::{
    layouts_view, Instance, Vertex, VertexBufferLayout, VertexBufferLayoutView,
};

verus! {

/// What was read from the file that a command names.
#[derive(Clone, Debug, PartialEq, Eq)]
pub enum Source {
    /// The text of a shader file.
    Shader(String),
    /// The models of a model file.
    Models(Vec<ObjModel>),
    /// The decoded image of a texture file.
    Image(ImageData),
}

pub enum SourceView {
    Shader(Seq<char>),
    Models(Seq<ObjModelView>),
    Image(ImageDataView),
}

impl View for Source {
    type V = SourceView;

    open spec fn view(&self) -> SourceView {
        match *self {
            Source::Shader(text) => SourceView::Shader(text@),
            Source::Models(models) => SourceView::Models(models_view(models@)),
            Source::Image(image) => SourceView::Image(image@),
        }
    }
}

/// The view of a source that may be missing.
pub open spec fn source_option_view(source: Option<Source>) -> Option<SourceView> {
    match source {
        Some(source) => Some(source@),
        None => None,
    }
}

/// The views of the sources of a node, one per command.
pub open spec fn sources_view(sources: Seq<Option<Source>>) -> Seq<Option<SourceView>> {
    sources.map_values(|s: Option<Source>| source_option_view(s))
}

/// The source of command `i`: nothing, if the list is too short.
pub open spec fn source_at(sources: Seq<Option<SourceView>>, i: int) -> Option<SourceView> {
    if 0 <= i < sources.len() {
        sources[i]
    } else {
        None
    }
}

/// The shader text in a source, if it is one.
pub open spec fn shader_of(source: Option<SourceView>) -> Option<Seq<char>> {
    match source {
        Some(SourceView::Shader(text)) => Some(text),
        _ => None,
    }
}

/// The models in a source, if it holds models.
pub open spec fn models_of(source: Option<SourceView>) -> Option<Seq<ObjModelView>> {
    match source {
        Some(SourceView::Models(models)) => Some(models),
        _ => None,
    }
}

/// The image in a source, if it is one.
pub open spec fn image_of(source: Option<SourceView>) -> Option<ImageDataView> {
    match source {
        Some(SourceView::Image(image)) => Some(image),
        _ => None,
    }
}

/// Why a node could not be built.
#[derive(Clone, Copy, Debug, PartialEq, Eq, Structural)]
pub enum BuildError {
    /// The node is built already.
    AlreadyBuilt,
    /// The shader file that command `command` names could not be read.
    ShaderUnavailable { command: usize },
    /// The resource that command `command` names could not be loaded.
    Load { command: usize, error: LoadError },
    /// Command `command` has more instances than a draw call can count.
    TooManyInstances { command: usize },
    /// No command names a shader.
    NoShader,
}

/// How far the first pass over the commands of a node has come.
pub struct BuildState {
    /// The resource cache.
    pub cache: ResourceManagerView,
    /// Everything asked of the device.
    pub log: Seq<RequestView>,
    /// The shader module of the last shader command.
    pub shader: Option<ShaderModuleId>,
    /// Whether an instanced draw was seen.
    pub instanced: bool,
    /// The draw commands compiled so far.
    pub compiled: Seq<DrawCommandView>,
    /// Why the pass stopped, if it did.
    pub error: Option<BuildError>,
}

impl BuildState {
    /// The state in which the pass stops with `error`.
    pub open spec fn fail(self, error: BuildError) -> BuildState {
        BuildState { error: Some(error), ..self }
    }

    /// Compiles a shader command: a shader module is made from the text of the file.
    pub open spec fn load_shader(self, path: Seq<char>, source: Option<SourceView>, index: int) -> BuildState {
        match shader_of(source) {
            None => self.fail(BuildError::ShaderUnavailable { command: index as usize }),
            Some(text) => BuildState {
                log: self.log.push(RequestView::CreateShaderModule { path, source: text }),
                shader: Some(ShaderModuleId { index: self.log.len() as usize }),
                ..self
            },
        }
    }

    /// Compiles a texture binding: the texture is loaded through the cache.
    pub open spec fn bind_texture(
        self,
        slot: u32,
        path: Seq<char>,
        source: Option<SourceView>,
        index: int,
    ) -> BuildState {
        let key = texture_key(path);
        let image = image_of(source);
        match self.cache.texture_load_error(key, image) {
            Some(error) => self.fail(BuildError::Load { command: index as usize, error }),
            None => BuildState {
                cache: self.cache.after_texture_load(key, image, self.log.len()),
                log: self.log + self.cache.texture_load_requests(key, image, self.log.len()),
                compiled: self.compiled.push(DrawCommandView::BindTexture(slot, key)),
                ..self
            },
        }
    }

    /// Compiles a draw: the mesh is loaded through the cache.
    pub open spec fn draw_mesh(self, path: Seq<char>, source: Option<SourceView>, index: int) -> BuildState {
        let key = mesh_key(path);
        let models = models_of(source);
        match self.cache.mesh_load_error(key, models) {
            Some(error) => self.fail(BuildError::Load { command: index as usize, error }),
            None => BuildState {
                cache: self.cache.after_mesh_load(key, models, self.log.len() as int),
                log: self.log + self.cache.mesh_load_requests(key, models),
                compiled: self.compiled.push(DrawCommandView::DrawMesh(key)),
                ..self
            },
        }
    }

    /// Compiles an instanced draw: an instance buffer is made, the mesh is
    /// loaded through the cache, and the buffer is attached to the mesh
    /// together with indirect draw arguments for every submesh.
    pub open spec fn draw_mesh_instanced(
        self,
        path: Seq<char>,
        instances: Seq<Instance>,
        source: Option<SourceView>,
        index: int,
    ) -> BuildState {
        let key = mesh_key(path);
        let models = models_of(source);
        if instances.len() > u32::MAX {
            self.fail(BuildError::TooManyInstances { command: index as usize })
        } else {
            match self.cache.mesh_load_error(key, models) {
                Some(error) => self.fail(BuildError::Load { command: index as usize, error }),
                None => {
                    let buffer = InstanceBufferView::made_at(instances, self.log.len());
                    let log1 = self.log + instance_buffer_requests(instances, self.log.len());
                    let cache2 = self.cache.after_mesh_load(key, models, log1.len() as int);
                    let log2 = log1 + self.cache.mesh_load_requests(key, models);
                    let mesh = cache2.meshes[key];
                    BuildState {
                        cache: ResourceManagerView {
                            meshes: cache2.meshes.insert(
                                key,
                                mesh.instanced(buffer, log2.len() as int),
                            ),
                            ..cache2
                        },
                        log: log2 + indirect_requests(mesh.submeshes, instances.len() as u32),
                        instanced: true,
                        compiled: self.compiled.push(DrawCommandView::DrawMeshInstanced(key)),
                        ..self
                    }
                },
            }
        }
    }

    /// Compiles one command.
    pub open spec fn step(self, command: CommandView, source: Option<SourceView>, index: int) -> BuildState {
        match command {
            CommandView::LoadShader(path) => self.load_shader(path, source, index),
            CommandView::BindTexture(slot, path) => self.bind_texture(slot, path, source, index),
            CommandView::DrawMesh(path) => self.draw_mesh(path, source, index),
            CommandView::DrawMeshInstanced(path, instances) => self.draw_mesh_instanced(
                path,
                instances,
                source,
                index,
            ),
        }
    }

    /// Compiles the first `n` commands in order, stopping at the first that fails.
    pub open spec fn run(
        self,
        commands: Seq<CommandView>,
        sources: Seq<Option<SourceView>>,
        n: int,
    ) -> BuildState
        decreases n,
    {
        if n <= 0 {
            self
        } else {
            let before = self.run(commands, sources, n - 1);
            if before.error is Some {
                before
            } else {
                before.step(commands[n - 1], source_at(sources, n - 1), n - 1)
            }
        }
    }
}

/// Once the pass has stopped, it stays where it is.
pub proof fn lemma_run_stops(
    start: BuildState,
    commands: Seq<CommandView>,
    sources: Seq<Option<SourceView>>,
    i: int,
    n: int,
)
    requires
        0 <= i <= n,
        start.run(commands, sources, i).error is Some,
    ensures
        start.run(commands, sources, n) == start.run(commands, sources, i),
    decreases n - i,
{
    if i < n {
        lemma_run_stops(start, commands, sources, i, n - 1);
    }
}

/// Two states of a mesh have the same geometry: as many submeshes, with
/// the same vertex buffers, index buffers and index counts.
pub open spec fn same_geometry(
    earlier: crate::types::mesh::MeshView,
    later: crate::types::mesh::MeshView,
) -> bool {
    &&& later.submeshes.len() == earlier.submeshes.len()
    &&& forall|i: int|
        0 <= i < earlier.submeshes.len() ==> {
            &&& (#[trigger] later.submeshes[i]).vertex_buffer == earlier.submeshes[i].vertex_buffer
            &&& later.submeshes[i].index_buffer == earlier.submeshes[i].index_buffer
            &&& later.submeshes[i].num_indices == earlier.submeshes[i].num_indices
        }
}

/// `later` holds every resource that `earlier` holds: every mesh with the
/// geometry it had, every texture and material as it was, and the same depth target.
pub open spec fn keeps_resources(earlier: ResourceManagerView, later: ResourceManagerView) -> bool {
    &&& forall|key: ResourceKey| #[trigger]
        earlier.meshes.dom().contains(key) ==> later.meshes.dom().contains(key) && same_geometry(
            earlier.meshes[key],
            later.meshes[key],
        )
    &&& forall|key: ResourceKey| #[trigger]
        earlier.textures.dom().contains(key) ==> later.textures.dom().contains(key)
            && later.textures[key] == earlier.textures[key]
    &&& later.materials == earlier.materials
    &&& later.depth_texture == earlier.depth_texture
}

/// The resource that a draw command names is cached.
pub open spec fn resolved(command: DrawCommandView, cache: ResourceManagerView) -> bool {
    match command {
        DrawCommandView::BindTexture(_, key) => cache.textures.dom().contains(key),
        DrawCommandView::DrawMesh(key) => cache.meshes.dom().contains(key),
        DrawCommandView::DrawMeshInstanced(key) => cache.meshes.dom().contains(key)
            && cache.meshes[key].instance_buffer is Some,
    }
}

/// Every draw command of the run is resolved.
pub open spec fn all_resolved(compiled: Seq<DrawCommandView>, cache: ResourceManagerView) -> bool {
    forall|j: int| 0 <= j < compiled.len() ==> resolved(#[trigger] compiled[j], cache)
}

/// Compiling a command evicts nothing and takes nothing back: the cache
/// keeps every resource, the device log keeps every request, the draw
/// commands compiled before stay, and whatever is compiled is resolved.
pub proof fn lemma_step_keeps(
    state: BuildState,
    command: CommandView,
    source: Option<SourceView>,
    index: int,
)
    requires
        state.error is None,
        all_resolved(state.compiled, state.cache),
    ensures
        ({
            let next = state.step(command, source, index);
            &&& keeps_resources(state.cache, next.cache)
            &&& state.log.len() <= next.log.len()
            &&& next.log.subrange(0, state.log.len() as int) == state.log
            &&& all_resolved(next.compiled, next.cache)
            &&& next.error is Some ==> next.cache == state.cache && next.log == state.log
        }),
{
    let next = state.step(command, source, index);
    assert(next.log.subrange(0, state.log.len() as int) =~= state.log);
    match command {
        CommandView::DrawMeshInstanced(path, instances) => {
            let key = mesh_key(path);
            let models = models_of(source);
            if instances.len() <= u32::MAX && state.cache.mesh_load_error(key, models) is None {
                let cache2 = state.cache.after_mesh_load(
                    key,
                    models,
                    (state.log.len() + 3) as int,
                );
                assert(cache2.meshes.dom().contains(key));
                let mesh = cache2.meshes[key];
                let attached = next.cache.meshes[key];
                assert(attached.submeshes.len() == mesh.submeshes.len());
                assert(same_geometry(mesh, attached));
                assert forall|other: ResourceKey| #[trigger]
                    state.cache.meshes.dom().contains(other) implies next.cache.meshes.dom().contains(
                    other,
                ) && same_geometry(state.cache.meshes[other], next.cache.meshes[other]) by {
                    if other == key {
                        assert(cache2 == state.cache);
                    } else {
                        assert(next.cache.meshes[other] == state.cache.meshes[other]);
                    }
                }
                assert forall|other: ResourceKey| #[trigger]
                    state.cache.textures.dom().contains(other) implies next.cache.textures.dom().contains(
                    other,
                ) && next.cache.textures[other] == state.cache.textures[other] by {}
                assert(keeps_resources(state.cache, next.cache));
                assert forall|j: int| 0 <= j < next.compiled.len() implies resolved(
                    #[trigger] next.compiled[j],
                    next.cache,
                ) by {
                    if j < state.compiled.len() {
                        assert(resolved(state.compiled[j], state.cache));
                        assert(next.compiled[j] == state.compiled[j]);
                    } else {
                        assert(next.compiled[j] == DrawCommandView::DrawMeshInstanced(key));
                    }
                }
            }
        },
        CommandView::DrawMesh(path) => {
            assert forall|j: int| 0 <= j < next.compiled.len() implies resolved(
                #[trigger] next.compiled[j],
                next.cache,
            ) by {
                if j < state.compiled.len() {
                    assert(resolved(state.compiled[j], state.cache));
                }
            }
        },
        CommandView::BindTexture(slot, path) => {
            assert forall|j: int| 0 <= j < next.compiled.len() implies resolved(
                #[trigger] next.compiled[j],
                next.cache,
            ) by {
                if j < state.compiled.len() {
                    assert(resolved(state.compiled[j], state.cache));
                }
            }
        },
        CommandView::LoadShader(path) => {},
    }
}

/// Keeping resources is transitive.
pub proof fn lemma_keeps_resources_chain(
    first: ResourceManagerView,
    second: ResourceManagerView,
    third: ResourceManagerView,
)
    requires
        keeps_resources(first, second),
        keeps_resources(second, third),
    ensures
        keeps_resources(first, third),
{
    assert forall|key: ResourceKey| #[trigger] first.meshes.dom().contains(key) implies third.meshes.dom().contains(
        key,
    ) && same_geometry(first.meshes[key], third.meshes[key]) by {
        assert(second.meshes.dom().contains(key));
        assert(same_geometry(first.meshes[key], second.meshes[key]));
        assert(same_geometry(second.meshes[key], third.meshes[key]));
        assert forall|i: int| 0 <= i < first.meshes[key].submeshes.len() implies {
            &&& (#[trigger] third.meshes[key].submeshes[i]).vertex_buffer
                == first.meshes[key].submeshes[i].vertex_buffer
            &&& third.meshes[key].submeshes[i].index_buffer
                == first.meshes[key].submeshes[i].index_buffer
            &&& third.meshes[key].submeshes[i].num_indices
                == first.meshes[key].submeshes[i].num_indices
        } by {
            assert(second.meshes[key].submeshes[i].vertex_buffer
                == first.meshes[key].submeshes[i].vertex_buffer);
        }
    }
    assert forall|key: ResourceKey| #[trigger] first.textures.dom().contains(key) implies third.textures.dom().contains(
        key,
    ) && third.textures[key] == first.textures[key] by {
        assert(second.textures.dom().contains(key));
    }
}

/// Compiling the commands of a node evicts nothing and takes nothing
/// back, and resolves every draw command that it compiles.
pub proof fn lemma_run_keeps(
    start: BuildState,
    commands: Seq<CommandView>,
    sources: Seq<Option<SourceView>>,
    n: int,
)
    requires
        0 <= n,
        all_resolved(start.compiled, start.cache),
    ensures
        ({
            let end = start.run(commands, sources, n);
            &&& keeps_resources(start.cache, end.cache)
            &&& start.log.len() <= end.log.len()
            &&& end.log.subrange(0, start.log.len() as int) == start.log
            &&& all_resolved(end.compiled, end.cache)
        }),
    decreases n,
{
    if n > 0 {
        lemma_run_keeps(start, commands, sources, n - 1);
        let before = start.run(commands, sources, n - 1);
        let end = start.run(commands, sources, n);
        if before.error is None {
            lemma_step_keeps(before, commands[n - 1], source_at(sources, n - 1), n - 1);
            lemma_keeps_resources_chain(start.cache, before.cache, end.cache);
            assert(end.log.subrange(0, start.log.len() as int) =~= before.log.subrange(
                0,
                start.log.len() as int,
            ));
        }
    } else {
        assert(start.log.subrange(0, start.log.len() as int) =~= start.log);
    }
}

/// Building a node evicts nothing and takes nothing back: whether it
/// succeeds or fails, the cache holds every resource that it held, with
/// the same buffers, and the device log begins with what it held. After
/// a build that succeeded, every draw command of the node is resolved, so
/// that replaying the node skips none of them.
pub proof fn lemma_build_keeps(
    node: RenderNodeView,
    cache: ResourceManagerView,
    log: Seq<RequestView>,
    sources: Seq<Option<SourceView>>,
)
    ensures
        ({
            let outcome = node.build(cache, log, sources);
            &&& keeps_resources(cache, outcome.cache)
            &&& log.len() <= outcome.log.len()
            &&& outcome.log.subrange(0, log.len() as int) == log
            &&& outcome.error is None ==> all_resolved(
                outcome.node.compiled_commands,
                outcome.cache,
            )
            &&& outcome.error is None <==> outcome.node.pipeline is Some && node.pipeline is None
            &&& outcome.error is Some ==> outcome.node == node
        }),
{
    let outcome = node.build(cache, log, sources);
    if node.pipeline is None {
        let start = BuildState {
            cache,
            log,
            shader: None,
            instanced: false,
            compiled: Seq::empty(),
            error: None,
        };
        lemma_run_keeps(start, node.commands, sources, node.commands.len() as int);
        let end = start.run(node.commands, sources, node.commands.len() as int);
        assert(outcome.log.subrange(0, log.len() as int) =~= end.log.subrange(
            0,
            log.len() as int,
        ));
    } else {
        assert(log.subrange(0, log.len() as int) =~= log);
    }
}

/// The bind-group layouts of the uniform sets of a node: the static set's, then the dynamic set's.
pub open spec fn uniform_layouts(
    static_set: Option<UniformSetView>,
    dynamic_set: Option<UniformSetView>,
) -> Seq<BindGroupLayoutId> {
    let first = match static_set {
        Some(set) => seq![set.bind_group_layout],
        None => Seq::empty(),
    };
    let second = match dynamic_set {
        Some(set) => seq![set.bind_group_layout],
        None => Seq::empty(),
    };
    first + second
}

/// The bind-group layout that a draw command adds to the pipeline: that of
/// its texture, if it binds one that is cached and can be sampled.
pub open spec fn command_layout(command: DrawCommandView, cache: ResourceManagerView) -> Seq<
    BindGroupLayoutId,
> {
    match command {
        DrawCommandView::BindTexture(_, key) => if cache.textures.dom().contains(key) {
            match cache.textures[key].binding {
                Some(binding) => seq![binding.bind_group_layout],
                None => Seq::empty(),
            }
        } else {
            Seq::empty()
        },
        _ => Seq::empty(),
    }
}

/// The bind-group layouts of the textures that the first `n` draw commands bind, in order.
pub open spec fn texture_layouts(
    compiled: Seq<DrawCommandView>,
    cache: ResourceManagerView,
    n: int,
) -> Seq<BindGroupLayoutId>
    decreases n,
{
    if n <= 0 {
        Seq::empty()
    } else {
        texture_layouts(compiled, cache, n - 1) + command_layout(compiled[n - 1], cache)
    }
}

/// The vertex layouts of a pipeline: mesh vertices, and instances if an
/// instanced draw was seen. The instance layout is there at most once.
pub open spec fn vertex_layouts(instanced: bool) -> Seq<VertexBufferLayoutView> {
    if instanced {
        seq![Vertex::spec_desc(), Instance::spec_desc()]
    } else {
        seq![Vertex::spec_desc()]
    }
}

/// The bind-group slot of the dynamic uniform set: 1 behind a static set, else 0.
pub open spec fn dynamic_slot(has_static: bool) -> u32 {
    if has_static {
        1
    } else {
        0
    }
}

/// What binding the uniform sets of a node records.
pub open spec fn uniform_ops(
    static_set: Option<UniformSetView>,
    dynamic_set: Option<UniformSetView>,
) -> Seq<PassOp> {
    let first = match static_set {
        Some(set) => seq![PassOp::SetBindGroup { index: 0, group: set.bind_group }],
        None => Seq::empty(),
    };
    let second = match dynamic_set {
        Some(set) => seq![
            PassOp::SetBindGroup { index: dynamic_slot(static_set is Some), group: set.bind_group },
        ],
        None => Seq::empty(),
    };
    first + second
}

/// What replaying one draw command records. A command whose resource is
/// not cached records nothing.
pub open spec fn command_ops(command: DrawCommandView, cache: ResourceManagerView) -> Seq<PassOp> {
    match command {
        DrawCommandView::DrawMesh(key) => if cache.meshes.dom().contains(key) {
            cache.meshes[key].draw_ops()
        } else {
            Seq::empty()
        },
        DrawCommandView::DrawMeshInstanced(key) => if cache.meshes.dom().contains(key) {
            cache.meshes[key].instanced_draw_ops()
        } else {
            Seq::empty()
        },
        DrawCommandView::BindTexture(slot, key) => if cache.textures.dom().contains(key) {
            cache.textures[key].bind_ops(slot)
        } else {
            Seq::empty()
        },
    }
}

/// What replaying the first `n` draw commands records, in order.
pub open spec fn replay_ops(compiled: Seq<DrawCommandView>, cache: ResourceManagerView, n: int) -> Seq<
    PassOp,
>
    decreases n,
{
    if n <= 0 {
        Seq::empty()
    } else {
        replay_ops(compiled, cache, n - 1) + command_ops(compiled[n - 1], cache)
    }
}

/// The dynamic uniform set is bound at slot 1 if the node has a static
/// set, which is then bound at slot 0, and at slot 0 if it has none.
pub proof fn lemma_dynamic_slot(static_set: Option<UniformSetView>, dynamic_set: UniformSetView)
    ensures
        static_set matches Some(set) ==> uniform_ops(static_set, Some(dynamic_set)) == seq![
            PassOp::SetBindGroup { index: 0, group: set.bind_group },
            PassOp::SetBindGroup { index: 1, group: dynamic_set.bind_group },
        ],
        static_set is None ==> uniform_ops(static_set, Some(dynamic_set)) == seq![
            PassOp::SetBindGroup { index: 0, group: dynamic_set.bind_group },
        ],
{
    match static_set {
        Some(set) => {
            assert(uniform_ops(static_set, Some(dynamic_set)) =~= seq![
                PassOp::SetBindGroup { index: 0, group: set.bind_group },
                PassOp::SetBindGroup { index: 1, group: dynamic_set.bind_group },
            ]);
        },
        None => {
            assert(uniform_ops(static_set, Some(dynamic_set)) =~= seq![
                PassOp::SetBindGroup { index: 0, group: dynamic_set.bind_group },
            ]);
        },
    }
}

/// The first node of a frame clears; every later node keeps what is there.
pub open spec fn load_op(id: int) -> LoadOp {
    if id == 0 {
        LoadOp::Clear
    } else {
        LoadOp::Load
    }
}

/// One unit of rendering: commands, uniform sets and a depth flag, and,
/// once built, a pipeline and the compiled draw commands.
pub struct RenderNode {
    pub name: String,
    commands: Vec<Command>,
    compiled_commands: Vec<DrawCommand>,
    pipeline: Option<Pipeline>,
    static_uniform_set: Option<UniformSet>,
    dynamic_uniform_set: Option<UniformSet>,
    use_depth: bool,
}

pub struct RenderNodeView {
    pub name: Seq<char>,
    pub commands: Seq<CommandView>,
    pub compiled_commands: Seq<DrawCommandView>,
    pub pipeline: Option<Pipeline>,
    pub static_uniform_set: Option<UniformSetView>,
    pub dynamic_uniform_set: Option<UniformSetView>,
    pub use_depth: bool,
}

/// The view of a uniform set that may be missing.
pub open spec fn set_option_view(set: Option<UniformSet>) -> Option<UniformSetView> {
    match set {
        Some(set) => Some(set@),
        None => None,
    }
}

impl View for RenderNode {
    type V = RenderNodeView;

    closed spec fn view(&self) -> RenderNodeView {
        RenderNodeView {
            name: self.name@,
            commands: commands_view(self.commands@),
            compiled_commands: draw_commands_view(self.compiled_commands@),
            pipeline: self.pipeline,
            static_uniform_set: set_option_view(self.static_uniform_set),
            dynamic_uniform_set: set_option_view(self.dynamic_uniform_set),
            use_depth: self.use_depth,
        }
    }
}

/// What building a node comes to.
pub struct BuildOutcome {
    pub error: Option<BuildError>,
    pub node: RenderNodeView,
    pub cache: ResourceManagerView,
    pub log: Seq<RequestView>,
}

impl RenderNodeView {
    /// The uniform set of the given kind.
    pub open spec fn uniform_set(self, kind: UniformBufferType) -> Option<UniformSetView> {
        match kind {
            UniformBufferType::STATIC => self.static_uniform_set,
            UniformBufferType::DYNAMIC => self.dynamic_uniform_set,
        }
    }

    /// The buffers of the uniform set of the given kind: none, if there is no such set.
    pub open spec fn uniform_buffers(self, kind: UniformBufferType) -> Seq<UniformBuffer> {
        match self.uniform_set(kind) {
            Some(set) => set.uniform_buffers,
            None => Seq::empty(),
        }
    }

    /// The node after `buffer` joined its uniform set of the given kind,
    /// whose layout and bind group the two requests at `at` make.
    pub open spec fn with_uniform(self, kind: UniformBufferType, buffer: UniformBuffer, at: nat) -> RenderNodeView {
        let set = Some(UniformSetView::made_at(self.uniform_buffers(kind).push(buffer), at));
        match kind {
            UniformBufferType::STATIC => RenderNodeView { static_uniform_set: set, ..self },
            UniformBufferType::DYNAMIC => RenderNodeView { dynamic_uniform_set: set, ..self },
        }
    }

    /// The bind-group layouts of the node's pipeline, in pipeline slot order:
    /// the static uniform set, the dynamic uniform set, then one per
    /// texture binding in command order.
    pub open spec fn bind_group_layouts(self, compiled: Seq<DrawCommandView>, cache: ResourceManagerView) -> Seq<
        BindGroupLayoutId,
    > {
        uniform_layouts(self.static_uniform_set, self.dynamic_uniform_set) + texture_layouts(
            compiled,
            cache,
            compiled.len() as int,
        )
    }

    /// What building the node comes to, from a given cache and device log,
    /// with `sources[i]` read from the file that command `i` names.
    ///
    /// A node is built once: a built node is refused. Otherwise every
    /// command is compiled in order. If one fails, or if there is no
    /// shader in the end, the node stays unbuilt; the cache and the
    /// device keep what the commands before the failure did. Else the pipeline
    /// is built and the node holds it with its compiled draw commands.
    pub open spec fn build(
        self,
        cache: ResourceManagerView,
        log: Seq<RequestView>,
        sources: Seq<Option<SourceView>>,
    ) -> BuildOutcome {
        if self.pipeline is Some {
            BuildOutcome { error: Some(BuildError::AlreadyBuilt), node: self, cache, log }
        } else {
            let start = BuildState {
                cache,
                log,
                shader: None,
                instanced: false,
                compiled: Seq::empty(),
                error: None,
            };
            let end = start.run(self.commands, sources, self.commands.len() as int);
            if end.error is Some {
                BuildOutcome { error: end.error, node: self, cache: end.cache, log: end.log }
            } else if end.shader is None {
                BuildOutcome {
                    error: Some(BuildError::NoShader),
                    node: self,
                    cache: end.cache,
                    log: end.log,
                }
            } else {
                BuildOutcome {
                    error: None,
                    node: RenderNodeView {
                        pipeline: Some(
                            Pipeline {
                                pipeline: crate::device::RenderPipelineId {
                                    index: (end.log.len() + 1) as usize,
                                },
                            },
                        ),
                        compiled_commands: end.compiled,
                        ..self
                    },
                    cache: end.cache,
                    log: end.log + pipeline_requests(
                        end.shader->0,
                        self.bind_group_layouts(end.compiled, end.cache),
                        vertex_layouts(end.instanced),
                        self.use_depth,
                        end.log.len(),
                    ),
                }
            }
        }
    }

    /// The depth attachment of the node's pass: the cached depth target,
    /// if the node tests depth.
    pub open spec fn depth_attachment(self, id: int, cache: ResourceManagerView) -> Option<DepthAttachment> {
        if self.use_depth && cache.depth_texture is Some {
            Some(DepthAttachment { texture: cache.depth_texture->0.texture, load: load_op(id) })
        } else {
            None
        }
    }

    /// What the node's pass records: its pipeline, its uniform sets, then its draw commands in order.
    pub open spec fn pass_ops(self, cache: ResourceManagerView) -> Seq<PassOp> {
        seq![PassOp::SetPipeline(self.pipeline->0.pipeline)] + uniform_ops(
            self.static_uniform_set,
            self.dynamic_uniform_set,
        ) + replay_ops(self.compiled_commands, cache, self.compiled_commands.len() as int)
    }

    /// The pass of a built node that is the `id`-th node of its graph.
    pub open spec fn pass(self, id: int, cache: ResourceManagerView) -> RenderPassView {
        RenderPassView {
            label: self.name,
            color_load: load_op(id),
            depth: self.depth_attachment(id, cache),
            ops: self.pass_ops(cache),
        }
    }

    /// The cache after the node has run against a surface of the given
    /// size: a built node that tests depth fetches the depth target.
    pub open spec fn cache_after(self, cache: ResourceManagerView, size: TextureSize, at: nat) -> ResourceManagerView {
        if self.pipeline is Some && self.use_depth {
            cache.after_depth_load(size.width, size.height, at)
        } else {
            cache
        }
    }

    /// What running the node asks of the device.
    pub open spec fn frame_requests(self, cache: ResourceManagerView, size: TextureSize) -> Seq<RequestView> {
        if self.pipeline is Some && self.use_depth {
            cache.depth_requests(size.width, size.height)
        } else {
            Seq::empty()
        }
    }

    /// The passes that running the node adds to the frame: one if it is built, else none.
    pub open spec fn frame_passes(self, id: int, cache: ResourceManagerView, size: TextureSize, at: nat) -> Seq<
        RenderPassView,
    > {
        if self.pipeline is Some {
            seq![self.pass(id, self.cache_after(cache, size, at))]
        } else {
            Seq::empty()
        }
    }
}

impl RenderNode {
    /// A node without commands, without uniforms and without a depth test.
    pub fn new(name: String) -> (node: RenderNode)
        ensures
            node@ == (RenderNodeView {
                name: name@,
                commands: Seq::empty(),
                compiled_commands: Seq::empty(),
                pipeline: None,
                static_uniform_set: None,
                dynamic_uniform_set: None,
                use_depth: false,
            }),
    {
        let node = RenderNode {
            name,
            commands: Vec::new(),
            compiled_commands: Vec::new(),
            pipeline: None,
            static_uniform_set: None,
            dynamic_uniform_set: None,
            use_depth: false,
        };
        assert(node@.commands =~= Seq::empty());
        assert(node@.compiled_commands =~= Seq::empty());
        node
    }

    /// Appends a command.
    pub fn add_command(&mut self, command: Command)
        ensures
            final(self)@ == (RenderNodeView {
                commands: old(self)@.commands.push(command@),
                ..old(self)@
            }),
    {
        self.commands.push(command);
        assert(commands_view(self.commands@) =~= old(self)@.commands.push(command@));
    }

    /// Says whether the node tests and writes depth.
    pub fn use_depth(&mut self, use_depth: bool)
        ensures
            final(self)@ == (RenderNodeView { use_depth, ..old(self)@ }),
    {
        self.use_depth = use_depth;
    }

    /// Whether the node is built.
    pub fn is_built(&self) -> (built: bool)
        ensures
            built == (self@.pipeline is Some),
    {
        self.pipeline.is_some()
    }

    /// The commands of the node, in order.
    pub fn commands(&self) -> (commands: &Vec<Command>)
        ensures
            commands_view(commands@) == self@.commands,
    {
        &self.commands
    }

    /// The compiled draw commands of the node, in order.
    pub fn compiled_commands(&self) -> (commands: &Vec<DrawCommand>)
        ensures
            draw_commands_view(commands@) == self@.compiled_commands,
    {
        &self.compiled_commands
    }

    /// The pipeline of the node, once it is built.
    pub fn pipeline(&self) -> (pipeline: Option<Pipeline>)
        ensures
            pipeline == self@.pipeline,
    {
        self.pipeline
    }

    /// The uniform set of the given kind, if the node has one.
    pub fn uniform_set(&self, kind: UniformBufferType) -> (set: Option<&UniformSet>)
        ensures
            set is Some <==> self@.uniform_set(kind) is Some,
            set matches Some(s) ==> self@.uniform_set(kind) == Some(s@),
    {
        match kind {
            UniformBufferType::STATIC => self.static_uniform_set.as_ref(),
            UniformBufferType::DYNAMIC => self.dynamic_uniform_set.as_ref(),
        }
    }

    /// The number of buffers in the uniform set of the given kind.
    pub fn uniform_count(&self, kind: UniformBufferType) -> (n: usize)
        ensures
            n == self@.uniform_buffers(kind).len(),
    {
        match kind {
            UniformBufferType::STATIC => match &self.static_uniform_set {
                Some(set) => set.len(),
                None => 0,
            },
            UniformBufferType::DYNAMIC => match &self.dynamic_uniform_set {
                Some(set) => set.len(),
                None => 0,
            },
        }
    }

    /// Adds a buffer that other nodes may share to the uniform set of the
    /// given kind, which is made if the node has none yet. The layout and
    /// the bind group of the set are made anew.
    pub fn add_uniform_buffer_handle(
        &mut self,
        device: &mut Device,
        buffer: Handle<UniformBuffer>,
        buffer_type: UniformBufferType,
    )
        requires
            old(self)@.uniform_buffers(buffer_type).len() < u32::MAX,
        ensures
            final(self)@ == old(self)@.with_uniform(buffer_type, buffer@, old(device)@.len()),
            final(device)@ == old(device)@ + uniform_group_requests(
                old(self)@.uniform_buffers(buffer_type).push(buffer@),
                old(device)@.len(),
            ),
    {
        match buffer_type {
            UniformBufferType::STATIC => {
                let taken = self.static_uniform_set.take();
                self.static_uniform_set = Some(Self::joined(device, taken, buffer));
            },
            UniformBufferType::DYNAMIC => {
                let taken = self.dynamic_uniform_set.take();
                self.dynamic_uniform_set = Some(Self::joined(device, taken, buffer));
            },
        }
    }

    /// The set that holds the buffers of `set`, if there is one, and then `buffer`.
    fn joined(device: &mut Device, set: Option<UniformSet>, buffer: Handle<UniformBuffer>) -> (made:
        UniformSet)
        requires
            set matches Some(s) ==> s@.uniform_buffers.len() < u32::MAX,
        ensures
            made@ == UniformSetView::made_at(
                (match set {
                    Some(s) => s@.uniform_buffers,
                    None => Seq::empty(),
                }).push(buffer@),
                old(device)@.len(),
            ),
            final(device)@ == old(device)@ + uniform_group_requests(
                made@.uniform_buffers,
                old(device)@.len(),
            ),
    {
        match set {
            Some(mut set) => {
                set.add_existing_uniform_buffer(device, buffer);
                set
            },
            None => {
                let mut buffers: Vec<Handle<UniformBuffer>> = Vec::new();
                buffers.push(buffer);
                proof {
                    assert(crate::types::uniform_set::buffers_view(buffers@) =~= Seq::<
                        UniformBuffer,
                    >::empty().push(buffer@));
                }
                UniformSet::new(device, buffers)
            },
        }
    }

    /// Makes a uniform buffer that holds `payload` and adds it to the
    /// uniform set of the given kind, which is made if the node has none
    /// yet. The buffer is handed out, except when it joins a static set
    /// that was there before.
    pub fn add_uniform_payload(
        &mut self,
        device: &mut Device,
        payload: Vec<u8>,
        buffer_type: UniformBufferType,
    ) -> (handle: Option<Handle<UniformBuffer>>)
        requires
            old(self)@.uniform_buffers(buffer_type).len() < u32::MAX,
        ensures
            ({
                let buffer = UniformBuffer {
                    buffer: crate::device::BufferId { index: old(device)@.len() as usize },
                    size: payload@.len() as usize,
                };
                &&& final(self)@ == old(self)@.with_uniform(
                    buffer_type,
                    buffer,
                    old(device)@.len() + 1,
                )
                &&& final(device)@ == old(device)@.push(UniformBuffer::creation(payload@))
                    + uniform_group_requests(
                    old(self)@.uniform_buffers(buffer_type).push(buffer),
                    old(device)@.len() + 1,
                )
                &&& handle is None <==> (buffer_type == UniformBufferType::STATIC && old(
                    self,
                )@.static_uniform_set is Some)
                &&& handle matches Some(h) ==> h@ == buffer
            }),
    {
        let was_static = self.static_uniform_set.is_some();
        let made = UniformBuffer::with_payload(device, payload);
        let handle = Handle::new(made);
        let kept = handle.clone();
        self.add_uniform_buffer_handle(device, handle, buffer_type);
        match buffer_type {
            UniformBufferType::STATIC => if was_static {
                None
            } else {
                Some(kept)
            },
            UniformBufferType::DYNAMIC => Some(kept),
        }
    }

    /// Makes a uniform buffer that holds the payload of `data`, whatever
    /// `data` serialises to, and adds it to the uniform set of the given kind.
    pub fn add_uniform_buffer<T: Uniform>(
        &mut self,
        device: &mut Device,
        data: &T,
        buffer: UniformBufferType,
    ) -> (handle: Option<Handle<UniformBuffer>>)
        requires
            old(self)@.uniform_buffers(buffer).len() < u32::MAX,
        ensures
            exists|payload: Seq<u8>|
                {
                    let made = UniformBuffer {
                        buffer: crate::device::BufferId { index: old(device)@.len() as usize },
                        size: payload.len() as usize,
                    };
                    &&& final(self)@ == old(self)@.with_uniform(
                        buffer,
                        made,
                        old(device)@.len() + 1,
                    )
                    &&& final(device)@ == old(device)@.push(
                        #[trigger] UniformBuffer::creation(payload),
                    ) + uniform_group_requests(
                        old(self)@.uniform_buffers(buffer).push(made),
                        old(device)@.len() + 1,
                    )
                    &&& handle matches Some(h) ==> h@ == made
                },
            handle is None <==> (buffer == UniformBufferType::STATIC && old(
                self,
            )@.static_uniform_set is Some),
    {
        let payload = data.to_wgpu();
        let ghost bytes = payload@;
        let handle = self.add_uniform_payload(device, payload, buffer);
        proof {
            assert(device@ == old(device)@.push(UniformBuffer::creation(bytes))
                + uniform_group_requests(
                old(self)@.uniform_buffers(buffer).push(
                    UniformBuffer {
                        buffer: crate::device::BufferId { index: old(device)@.len() as usize },
                        size: bytes.len() as usize,
                    },
                ),
                old(device)@.len() + 1,
            ));
        }
        handle
    }

    /// Compiles the commands of the node and builds its pipeline.
    /// `sources[i]` is what was read from the file that command `i` names;
    /// it may be missing where the resource is cached already.
    pub fn build_pipeline(
        &mut self,
        device: &mut Device,
        resource_manager: &mut ResourceManager,
        sources: &Vec<Option<Source>>,
    ) -> (r: Result<(), BuildError>)
        ensures
            ({
                let outcome = old(self)@.build(
                    old(resource_manager)@,
                    old(device)@,
                    sources_view(sources@),
                );
                &&& r == (match outcome.error {
                    Some(error) => Err::<(), BuildError>(error),
                    None => Ok::<(), BuildError>(()),
                })
                &&& final(self)@ == outcome.node
                &&& final(resource_manager)@ == outcome.cache
                &&& final(device)@ == outcome.log
            }),
    {
        if self.pipeline.is_some() {
            return Err(BuildError::AlreadyBuilt);
        }
        let ghost node = self@;
        let ghost views = sources_view(sources@);
        let ghost start = BuildState {
            cache: resource_manager@,
            log: device@,
            shader: None,
            instanced: false,
            compiled: Seq::empty(),
            error: None,
        };
        let mut shader: Option<ShaderModuleId> = None;
        let mut instanced = false;
        let mut compiled: Vec<DrawCommand> = Vec::new();
        assert(draw_commands_view(compiled@) =~= Seq::empty());
        let mut i: usize = 0;
        while i < self.commands.len()
            invariant
                i <= self.commands@.len(),
                *self == *old(self),
                node == self@,
                node.commands.len() == self.commands@.len(),
                node.commands == commands_view(self.commands@),
                views == sources_view(sources@),
                node.pipeline is None,
                start == (BuildState {
                    cache: old(resource_manager)@,
                    log: old(device)@,
                    shader: None,
                    instanced: false,
                    compiled: Seq::empty(),
                    error: None,
                }),
                start.run(node.commands, views, i as int) == (BuildState {
                    cache: resource_manager@,
                    log: device@,
                    shader,
                    instanced,
                    compiled: draw_commands_view(compiled@),
                    error: None,
                }),
            decreases self.commands@.len() - i,
        {
            let source: Option<&Source> = if i < sources.len() {
                sources[i].as_ref()
            } else {
                None
            };
            assert(source_view(source) == source_at(views, i as int));
            assert(node.commands[i as int] == self.commands@[i as int]@);
            let ghost before = start.run(node.commands, views, i as int);
            let step = compile_command(
                &self.commands[i],
                source,
                i,
                device,
                resource_manager,
                &mut shader,
                &mut instanced,
                &mut compiled,
            );
            match step {
                Err(error) => {
                    proof {
                        let after = before.step(
                            node.commands[i as int],
                            source_at(views, i as int),
                            i as int,
                        );
                        assert(start.run(node.commands, views, i + 1) == after);
                        assert(after.error == Some(error));
                        lemma_run_stops(
                            start,
                            node.commands,
                            views,
                            i + 1,
                            node.commands.len() as int,
                        );
                    }
                    return Err(error);
                },
                Ok(()) => {},
            }
            i += 1;
        }
        let ghost end = start.run(node.commands, views, node.commands.len() as int);
        let shader_module = match shader {
            Some(module) => module,
            None => { return Err(BuildError::NoShader); },
        };
        let mut bind_group_layouts: Vec<BindGroupLayoutId> = Vec::new();
        match &self.static_uniform_set {
            Some(set) => {
                bind_group_layouts.push(set.bind_group_layout);
            },
            None => {},
        }
        match &self.dynamic_uniform_set {
            Some(set) => {
                bind_group_layouts.push(set.bind_group_layout);
            },
            None => {},
        }
        assert(bind_group_layouts@ =~= uniform_layouts(
            node.static_uniform_set,
            node.dynamic_uniform_set,
        ));
        let mut k: usize = 0;
        while k < compiled.len()
            invariant
                k <= compiled@.len(),
                end.compiled == draw_commands_view(compiled@),
                end.cache == resource_manager@,
                bind_group_layouts@ == uniform_layouts(
                    node.static_uniform_set,
                    node.dynamic_uniform_set,
                ) + texture_layouts(end.compiled, end.cache, k as int),
            decreases compiled@.len() - k,
        {
            assert(end.compiled[k as int] == compiled@[k as int]@);
            match &compiled[k] {
                DrawCommand::BindTexture(_, handle) => {
                    match resource_manager.get_texture(handle) {
                        Some(texture) => {
                            match texture.get_bind_group_layout() {
                                Some(layout) => {
                                    bind_group_layouts.push(layout);
                                },
                                None => {},
                            }
                        },
                        None => {},
                    }
                },
                _ => {},
            }
            proof {
                assert(bind_group_layouts@ =~= uniform_layouts(
                    node.static_uniform_set,
                    node.dynamic_uniform_set,
                ) + texture_layouts(end.compiled, end.cache, k + 1));
            }
            k += 1;
        }
        let mut vertex_buffer_layouts: Vec<VertexBufferLayout> = Vec::new();
        vertex_buffer_layouts.push(Vertex::desc());
        if instanced {
            vertex_buffer_layouts.push(Instance::desc());
        }
        assert(layouts_view(vertex_buffer_layouts@) =~= vertex_layouts(instanced));
        let pipeline = Pipeline::new(
            device,
            shader_module,
            bind_group_layouts,
            vertex_buffer_layouts,
            self.use_depth,
        );
        self.pipeline = Some(pipeline);
        self.compiled_commands = compiled;
        Ok(())
    }

    /// Replays the node as the `id`-th node of a frame that is drawn to a
    /// surface of the given size. A node that is not built does nothing.
    ///
    /// A node that tests depth first fetches the shared depth target for
    /// the surface. Then one pass is opened, which clears colour and depth
    /// if `id` is 0 and keeps them otherwise. The pass binds the pipeline,
    /// the static uniform set at slot 0, the dynamic uniform set at the
    /// slot after it, and then replays the compiled draw commands in order.
    pub fn execute(
        &self,
        id: usize,
        resource_manager: &mut ResourceManager,
        device: &mut Device,
        surface: TextureSize,
        encoder: &mut CommandEncoder,
    )
        ensures
            final(resource_manager)@ == self@.cache_after(
                old(resource_manager)@,
                surface,
                old(device)@.len(),
            ),
            final(device)@ == old(device)@ + self@.frame_requests(old(resource_manager)@, surface),
            final(encoder)@ == old(encoder)@ + self@.frame_passes(
                id as int,
                old(resource_manager)@,
                surface,
                old(device)@.len(),
            ),
    {
        let pipeline = match &self.pipeline {
            Some(pipeline) => pipeline,
            None => {
                proof {
                    assert(device@ =~= old(device)@ + Seq::<RequestView>::empty());
                    assert(encoder@ =~= old(encoder)@ + Seq::<RenderPassView>::empty());
                }
                return ;
            },
        };
        let load = if id == 0 {
            LoadOp::Clear
        } else {
            LoadOp::Load
        };
        let depth = if self.use_depth {
            let texture = resource_manager.load_depth_texture(device, surface.width, surface.height);
            Some(DepthAttachment { texture: texture.texture, load })
        } else {
            assert(device@ =~= old(device)@ + Seq::<RequestView>::empty());
            None
        };
        let ghost node = self@;
        let ghost cache = resource_manager@;
        let mut render_pass = RenderPass::begin(self.name.clone(), load, depth);
        let ghost opened = render_pass@;
        pipeline.bind_pipeline(&mut render_pass);
        let using_static_uniform_set = self.static_uniform_set.is_some();
        match &self.static_uniform_set {
            Some(set) => {
                set.bind(0, &mut render_pass);
            },
            None => {},
        }
        match &self.dynamic_uniform_set {
            Some(set) => {
                set.bind(
                    if using_static_uniform_set {
                        1
                    } else {
                        0
                    },
                    &mut render_pass,
                );
            },
            None => {},
        }
        let ghost prelude = seq![PassOp::SetPipeline(pipeline.pipeline)] + uniform_ops(
            node.static_uniform_set,
            node.dynamic_uniform_set,
        );
        proof {
            assert(render_pass@.ops =~= opened.ops + prelude);
            assert(render_pass@ == opened.plus(prelude));
            lemma_plus(opened, prelude, Seq::empty());
            assert(prelude + Seq::<PassOp>::empty() =~= prelude);
        }
        let mut k: usize = 0;
        while k < self.compiled_commands.len()
            invariant
                k <= self.compiled_commands@.len(),
                node == self@,
                node.compiled_commands == draw_commands_view(self.compiled_commands@),
                cache == resource_manager@,
                render_pass@ == opened.plus(
                    prelude + replay_ops(node.compiled_commands, cache, k as int),
                ),
            decreases self.compiled_commands@.len() - k,
        {
            assert(node.compiled_commands[k as int] == self.compiled_commands@[k as int]@);
            let ghost so_far = prelude + replay_ops(node.compiled_commands, cache, k as int);
            let ghost added = command_ops(node.compiled_commands[k as int], cache);
            match &self.compiled_commands[k] {
                DrawCommand::DrawMesh(mesh_id) => {
                    match resource_manager.get_mesh(mesh_id) {
                        Some(mesh) => {
                            mesh.render(&mut render_pass);
                        },
                        None => {
                            proof {
                                lemma_plus(render_pass@, Seq::empty(), Seq::empty());
                            }
                        },
                    }
                },
                DrawCommand::DrawMeshInstanced(mesh_id) => {
                    match resource_manager.get_mesh(mesh_id) {
                        Some(mesh) => {
                            mesh.render_instanced(&mut render_pass);
                        },
                        None => {
                            proof {
                                lemma_plus(render_pass@, Seq::empty(), Seq::empty());
                            }
                        },
                    }
                },
                DrawCommand::BindTexture(index, texture_id) => {
                    match resource_manager.get_texture(texture_id) {
                        Some(texture) => {
                            texture.bind(*index, &mut render_pass);
                        },
                        None => {
                            proof {
                                lemma_plus(render_pass@, Seq::empty(), Seq::empty());
                            }
                        },
                    }
                },
            }
            proof {
                assert(render_pass@ == opened.plus(so_far).plus(added));
                lemma_plus(opened, so_far, added);
                assert(so_far + added =~= prelude + replay_ops(
                    node.compiled_commands,
                    cache,
                    k + 1,
                ));
            }
            k += 1;
        }
        proof {
            assert(opened.ops + node.pass_ops(cache) =~= node.pass_ops(cache));
            assert(render_pass@ == node.pass(id as int, cache));
        }
        encoder.end_render_pass(render_pass);
        proof {
            assert(encoder@ =~= old(encoder)@ + self@.frame_passes(
                id as int,
                old(resource_manager)@,
                surface,
                old(device)@.len(),
            ));
        }
    }
}

/// The view of a source behind a reference that may be missing.
pub open spec fn source_view(source: Option<&Source>) -> Option<SourceView> {
    match source {
        Some(source) => Some(source@),
        None => None,
    }
}

/// The models in `source`, if it holds models.
fn models_in<'a>(source: Option<&'a Source>) -> (models: Option<&'a Vec<ObjModel>>)
    ensures
        models_option_view(models) == models_of(source_view(source)),
{
    match source {
        Some(Source::Models(models)) => Some(models),
        _ => None,
    }
}

/// The image in `source`, if it is one.
fn image_in<'a>(source: Option<&'a Source>) -> (image: Option<&'a ImageData>)
    ensures
        image_option_view(image) == image_of(source_view(source)),
{
    match source {
        Some(Source::Image(image)) => Some(image),
        _ => None,
    }
}

/// Compiles one command: loads what it names through the cache and
/// appends the draw command that it stands for. A command that fails changes nothing.
pub fn compile_command(
    command: &Command,
    source: Option<&Source>,
    index: usize,
    device: &mut Device,
    resource_manager: &mut ResourceManager,
    shader: &mut Option<ShaderModuleId>,
    instanced: &mut bool,
    compiled: &mut Vec<DrawCommand>,
) -> (r: Result<(), BuildError>)
    ensures
        ({
            let before = BuildState {
                cache: old(resource_manager)@,
                log: old(device)@,
                shader: *old(shader),
                instanced: *old(instanced),
                compiled: draw_commands_view(old(compiled)@),
                error: None,
            };
            let after = before.step(command@, source_view(source), index as int);
            &&& r == (match after.error {
                Some(error) => Err::<(), BuildError>(error),
                None => Ok::<(), BuildError>(()),
            })
            &&& after == (BuildState {
                cache: final(resource_manager)@,
                log: final(device)@,
                shader: *final(shader),
                instanced: *final(instanced),
                compiled: draw_commands_view(final(compiled)@),
                error: after.error,
            })
        }),
{
    let ghost before = BuildState {
        cache: resource_manager@,
        log: device@,
        shader: *shader,
        instanced: *instanced,
        compiled: draw_commands_view(compiled@),
        error: None,
    };
    match command {
        Command::LoadShader(path) => {
            let text = match source {
                Some(Source::Shader(text)) => text,
                _ => { return Err(BuildError::ShaderUnavailable { command: index }); },
            };
            let module = device.create_shader_module(path.clone(), text.clone());
            *shader = Some(module);
            Ok(())
        },
        Command::BindTexture(slot, path) => {
            let handle = ResourceHandle::new(path.clone(), ResourceType::Texture);
            let image = image_in(source);
            match resource_manager.load_texture(device, handle.clone(), image) {
                Err(error) => {
                    assert(device@ =~= old(device)@);
                    return Err(BuildError::Load { command: index, error });
                },
                Ok(_) => {},
            }
            compiled.push(DrawCommand::BindTexture(*slot, handle));
            proof {
                assert(draw_commands_view(compiled@) =~= before.compiled.push(
                    DrawCommandView::BindTexture(*slot, handle@),
                ));
            }
            Ok(())
        },
        Command::DrawMesh(path) => {
            let handle = ResourceHandle::new(path.clone(), ResourceType::Mesh);
            let models = models_in(source);
            match resource_manager.load_mesh(device, handle.clone(), models) {
                Err(error) => {
                    assert(device@ =~= old(device)@);
                    return Err(BuildError::Load { command: index, error });
                },
                Ok(_) => {},
            }
            compiled.push(DrawCommand::DrawMesh(handle));
            proof {
                assert(draw_commands_view(compiled@) =~= before.compiled.push(
                    DrawCommandView::DrawMesh(handle@),
                ));
            }
            Ok(())
        },
        Command::DrawMeshInstanced(path, instances) => {
            if instances.len() > 0xffff_ffff {
                return Err(BuildError::TooManyInstances { command: index });
            }
            let handle = ResourceHandle::new(path.clone(), ResourceType::Mesh);
            let models = models_in(source);
            match resource_manager.mesh_load_error(&handle, models) {
                Some(error) => { return Err(BuildError::Load { command: index, error }); },
                None => {},
            }
            let buffer = resource_manager.build_instance_buffer(device, instances);
            // This load cannot fail: that was found out above.
            let _ = resource_manager.load_mesh(device, handle.clone(), models);
            assert(resource_manager@.meshes.dom().contains(handle@));
            match resource_manager.get_mesh_mut(&handle) {
                Some(mesh) => {
                    mesh.set_instances(device, buffer);
                },
                None => {
                    // The mesh is cached, so it is found.
                    return Err(
                        BuildError::Load { command: index, error: LoadError::Unavailable },
                    );
                },
            }
            *instanced = true;
            compiled.push(DrawCommand::DrawMeshInstanced(handle));
            proof {
                assert(draw_commands_view(compiled@) =~= before.compiled.push(
                    DrawCommandView::DrawMeshInstanced(handle@),
                ));
            }
            Ok(())
        },
    }
}

} // verus!
