use minirender::device::{
    BindGroupLayoutId, BufferContents, BufferId, BufferUsages, Device, IndexFormat,
    RenderPipelineId, Request, ShaderModuleId,
};
use minirender::pipeline::Pipeline;
use minirender::render_graph::render_node::compile_command;
use minirender::render_graph::{
    BuildError, Command, DrawCommand, LoadError, RenderNode, ResourceHandle, ResourceManager,
    ResourceType, Source,
};
use minirender::render_pass::{CommandEncoder, DepthAttachment, LoadOp, PassOp};
use minirender::types::mesh::{MeshError, MeshFault, ObjModel};
use minirender::types::texture::{ImageData, TextureSize};
use minirender::types::uniform_buffer::{Uniform, UniformBuffer};
use minirender::types::{Instance, Vertex};
use minirender::{Handle, UniformBufferType};

struct Matrix([f32; 16]);

impl Uniform for Matrix {
    fn to_wgpu(&self) -> Vec<u8> {
        self.0.iter().flat_map(|v| v.to_ne_bytes()).collect()
    }
}

fn triangle() -> ObjModel {
    let one = 1.0f32.to_bits();
    ObjModel {
        positions: vec![0, 0, 0, one, 0, 0, 0, one, 0],
        normals: vec![0, 0, one, 0, 0, one, 0, 0, one],
        texcoords: vec![0, 0, one, 0, 0, one],
        indices: vec![0, 1, 2],
    }
}

fn shader() -> Option<Source> {
    Some(Source::Shader("@vertex fn vert_main() {}".to_string()))
}

fn models() -> Option<Source> {
    Some(Source::Models(vec![triangle()]))
}

fn image() -> Option<Source> {
    Some(Source::Image(ImageData { width: 1, height: 1, rgba: vec![255; 4] }))
}

fn mesh(id: &str) -> ResourceHandle {
    ResourceHandle::new(id.to_string(), ResourceType::Mesh)
}

fn texture(id: &str) -> ResourceHandle {
    ResourceHandle::new(id.to_string(), ResourceType::Texture)
}

fn surface() -> TextureSize {
    TextureSize { width: 640, height: 480 }
}

fn triangle_node() -> RenderNode {
    let mut node = RenderNode::new("triangle".to_string());
    node.add_command(Command::LoadShader("tri.wgsl".to_string()));
    node.add_command(Command::DrawMesh("tri.obj".to_string()));
    node
}

fn draws(ops: &Vec<PassOp>) -> Vec<PassOp> {
    ops.iter()
        .copied()
        .filter(|op| {
            matches!(op, PassOp::DrawIndexed { .. } | PassOp::DrawIndexedIndirect { .. })
        })
        .collect()
}

#[test]
fn new_node_is_empty_and_unbuilt() {
    let mut node = RenderNode::new("n".to_string());
    assert_eq!(node.name, "n");
    assert!(node.commands().is_empty());
    assert!(node.compiled_commands().is_empty());
    assert!(!node.is_built());
    assert_eq!(node.pipeline(), None);
    assert!(node.uniform_set(UniformBufferType::STATIC).is_none());
    assert!(node.uniform_set(UniformBufferType::DYNAMIC).is_none());
    assert_eq!(node.uniform_count(UniformBufferType::STATIC), 0);
    node.add_command(Command::DrawMesh("a.obj".to_string()));
    node.add_command(Command::BindTexture(2, "a.png".to_string()));
    assert_eq!(
        node.commands(),
        &vec![
            Command::DrawMesh("a.obj".to_string()),
            Command::BindTexture(2, "a.png".to_string()),
        ]
    );
}

#[test]
fn triangle_node_issues_exactly_one_draw_call() {
    let mut device = Device::new();
    let mut cache = ResourceManager::new();
    let mut node = triangle_node();
    node.use_depth(false);
    assert_eq!(node.build_pipeline(&mut device, &mut cache, &vec![shader(), models()]), Ok(()));
    assert!(node.is_built());
    assert_eq!(node.pipeline(), Some(Pipeline { pipeline: RenderPipelineId { index: 4 } }));
    assert_eq!(node.compiled_commands(), &vec![DrawCommand::DrawMesh(mesh("tri.obj"))]);
    assert_eq!(device.len(), 5);
    assert_eq!(
        device.requests()[0],
        Request::CreateShaderModule {
            path: "tri.wgsl".to_string(),
            source: "@vertex fn vert_main() {}".to_string(),
        }
    );
    assert_eq!(device.requests()[3], Request::CreatePipelineLayout { bind_group_layouts: vec![] });
    match &device.requests()[4] {
        Request::CreateRenderPipeline { descriptor } => {
            assert_eq!(descriptor.shader, ShaderModuleId { index: 0 });
            assert_eq!(descriptor.vertex_buffers, vec![Vertex::desc()]);
            assert_eq!(descriptor.depth_stencil, None);
        }
        other => panic!("unexpected request {:?}", other),
    }
    let mut encoder = CommandEncoder::new();
    node.execute(0, &mut cache, &mut device, surface(), &mut encoder);
    assert_eq!(device.len(), 5);
    assert_eq!(encoder.passes().len(), 1);
    let pass = &encoder.passes()[0];
    assert_eq!(pass.label(), "triangle");
    assert_eq!(pass.color_load(), LoadOp::Clear);
    assert_eq!(pass.depth(), None);
    assert_eq!(
        pass.ops(),
        &vec![
            PassOp::SetPipeline(RenderPipelineId { index: 4 }),
            PassOp::SetVertexBuffer { slot: 0, buffer: BufferId { index: 1 } },
            PassOp::SetIndexBuffer { buffer: BufferId { index: 2 }, format: IndexFormat::Uint32 },
            PassOp::DrawIndexed { index_count: 3, base_vertex: 0, instance_count: 1 },
        ]
    );
    assert_eq!(
        draws(pass.ops()),
        vec![PassOp::DrawIndexed { index_count: 3, base_vertex: 0, instance_count: 1 }]
    );
}

#[test]
fn hundred_instances_are_drawn_by_one_indirect_call() {
    let mut device = Device::new();
    let mut cache = ResourceManager::new();
    let mut node = RenderNode::new("instanced".to_string());
    node.add_command(Command::LoadShader("inst.wgsl".to_string()));
    let instances = vec![Instance { model: [[1.0f32.to_bits(); 4]; 4] }; 100];
    node.add_command(Command::DrawMeshInstanced("tri.obj".to_string(), instances));
    assert_eq!(node.build_pipeline(&mut device, &mut cache, &vec![shader(), models()]), Ok(()));
    let cached = cache.get_mesh(&mesh("tri.obj")).unwrap();
    let buffer = cached.instance_buffer().unwrap();
    assert_eq!(buffer.get_instance_count(), 100);
    assert_eq!(buffer.instances().len(), 100);
    assert_eq!(buffer.buffer(), BufferId { index: 1 });
    match &device.requests()[1] {
        Request::CreateBuffer { contents: BufferContents::Words(words), usage } => {
            assert_eq!(words.len(), 1600);
            assert_eq!(
                *usage,
                BufferUsages {
                    vertex: true,
                    index: false,
                    uniform: false,
                    storage: true,
                    indirect: false,
                    copy_dst: true,
                }
            );
        }
        other => panic!("unexpected request {:?}", other),
    }
    let arguments = cached.submeshes()[0].indirect_args.unwrap();
    assert_eq!(arguments, BufferId { index: 6 });
    match &device.requests()[6] {
        Request::CreateBuffer { contents, usage } => {
            assert_eq!(contents, &BufferContents::Words(vec![3, 100, 0, 0, 0]));
            assert!(usage.indirect);
            let expected = wgpu::util::DrawIndexedIndirectArgs {
                index_count: 3,
                instance_count: 100,
                first_index: 0,
                base_vertex: 0,
                first_instance: 0,
            };
            assert_eq!(contents.as_bytes(), expected.as_bytes());
        }
        other => panic!("unexpected request {:?}", other),
    }
    match &device.requests()[8] {
        Request::CreateRenderPipeline { descriptor } => {
            assert_eq!(descriptor.vertex_buffers, vec![Vertex::desc(), Instance::desc()]);
        }
        other => panic!("unexpected request {:?}", other),
    }
    let mut encoder = CommandEncoder::new();
    node.execute(0, &mut cache, &mut device, surface(), &mut encoder);
    let ops = encoder.passes()[0].ops();
    assert_eq!(draws(ops), vec![PassOp::DrawIndexedIndirect { arguments, offset: 0 }]);
    assert!(ops.contains(&PassOp::SetVertexBuffer { slot: 1, buffer: BufferId { index: 1 } }));
}

#[test]
fn instance_layout_is_added_once() {
    let mut device = Device::new();
    let mut cache = ResourceManager::new();
    let mut node = RenderNode::new("twice".to_string());
    node.add_command(Command::DrawMeshInstanced(
        "tri.obj".to_string(),
        vec![Instance { model: [[0; 4]; 4] }; 2],
    ));
    node.add_command(Command::LoadShader("inst.wgsl".to_string()));
    node.add_command(Command::DrawMeshInstanced(
        "tri.obj".to_string(),
        vec![Instance { model: [[0; 4]; 4] }; 3],
    ));
    assert_eq!(
        node.build_pipeline(&mut device, &mut cache, &vec![models(), shader(), None]),
        Ok(())
    );
    match device.requests().last().unwrap() {
        Request::CreateRenderPipeline { descriptor } => {
            assert_eq!(descriptor.vertex_buffers, vec![Vertex::desc(), Instance::desc()]);
        }
        other => panic!("unexpected request {:?}", other),
    }
    let cached = cache.get_mesh(&mesh("tri.obj")).unwrap();
    assert_eq!(cached.instance_buffer().unwrap().get_instance_count(), 3);
    assert_eq!(
        node.compiled_commands(),
        &vec![
            DrawCommand::DrawMeshInstanced(mesh("tri.obj")),
            DrawCommand::DrawMeshInstanced(mesh("tri.obj")),
        ]
    );
}

#[test]
fn node_without_shader_is_not_built() {
    let mut device = Device::new();
    let mut cache = ResourceManager::new();
    let mut node = RenderNode::new("no shader".to_string());
    node.add_command(Command::DrawMesh("tri.obj".to_string()));
    assert_eq!(
        node.build_pipeline(&mut device, &mut cache, &vec![models()]),
        Err(BuildError::NoShader)
    );
    assert!(!node.is_built());
    assert!(node.compiled_commands().is_empty());
    assert!(cache.get_mesh(&mesh("tri.obj")).is_some());
    assert_eq!(device.len(), 2);
    let mut empty = RenderNode::new("empty".to_string());
    assert_eq!(empty.build_pipeline(&mut device, &mut cache, &vec![]), Err(BuildError::NoShader));
}

#[test]
fn unreadable_shader_stops_the_build() {
    let mut device = Device::new();
    let mut cache = ResourceManager::new();
    let mut node = triangle_node();
    assert_eq!(
        node.build_pipeline(&mut device, &mut cache, &vec![None, models()]),
        Err(BuildError::ShaderUnavailable { command: 0 })
    );
    assert_eq!(device.len(), 0);
    assert!(cache.get_mesh(&mesh("tri.obj")).is_none());
    assert_eq!(
        node.build_pipeline(&mut device, &mut cache, &vec![models(), models()]),
        Err(BuildError::ShaderUnavailable { command: 0 })
    );
    assert_eq!(
        node.build_pipeline(&mut device, &mut cache, &vec![]),
        Err(BuildError::ShaderUnavailable { command: 0 })
    );
    assert!(!node.is_built());
}

#[test]
fn missing_mesh_stops_the_build() {
    let mut device = Device::new();
    let mut cache = ResourceManager::new();
    let mut node = triangle_node();
    node.add_command(Command::BindTexture(0, "t.png".to_string()));
    assert_eq!(
        node.build_pipeline(&mut device, &mut cache, &vec![shader(), None, image()]),
        Err(BuildError::Load { command: 1, error: LoadError::Unavailable })
    );
    assert!(!node.is_built());
    assert_eq!(device.len(), 1);
    assert!(cache.get_texture(&texture("t.png")).is_none());
    assert_eq!(
        node.build_pipeline(&mut device, &mut cache, &vec![shader(), shader(), image()]),
        Err(BuildError::Load { command: 1, error: LoadError::Unavailable })
    );
    let mut bad = triangle();
    bad.texcoords.pop();
    let sources = vec![shader(), Some(Source::Models(vec![triangle(), bad])), image()];
    assert_eq!(
        node.build_pipeline(&mut device, &mut cache, &sources),
        Err(BuildError::Load {
            command: 1,
            error: LoadError::BadMesh(MeshError { model: 1, fault: MeshFault::RaggedAttributes }),
        })
    );
    assert_eq!(device.len(), 3);
}

#[test]
fn missing_texture_stops_the_build() {
    let mut device = Device::new();
    let mut cache = ResourceManager::new();
    let mut node = RenderNode::new("textured".to_string());
    node.add_command(Command::LoadShader("s.wgsl".to_string()));
    node.add_command(Command::BindTexture(1, "t.png".to_string()));
    assert_eq!(
        node.build_pipeline(&mut device, &mut cache, &vec![shader()]),
        Err(BuildError::Load { command: 1, error: LoadError::Unavailable })
    );
    let bad = Some(Source::Image(ImageData { width: 2, height: 1, rgba: vec![0; 4] }));
    assert_eq!(
        node.build_pipeline(&mut device, &mut cache, &vec![shader(), bad]),
        Err(BuildError::Load { command: 1, error: LoadError::BadImage })
    );
    assert_eq!(node.build_pipeline(&mut device, &mut cache, &vec![shader(), image()]), Ok(()));
}

#[test]
fn built_node_cannot_be_built_again() {
    let mut device = Device::new();
    let mut cache = ResourceManager::new();
    let mut node = triangle_node();
    assert_eq!(node.build_pipeline(&mut device, &mut cache, &vec![shader(), models()]), Ok(()));
    let pipeline = node.pipeline();
    assert_eq!(
        node.build_pipeline(&mut device, &mut cache, &vec![shader(), models()]),
        Err(BuildError::AlreadyBuilt)
    );
    assert_eq!(device.len(), 5);
    assert_eq!(node.pipeline(), pipeline);
    assert_eq!(node.compiled_commands().len(), 1);
}

#[test]
fn last_shader_command_wins() {
    let mut device = Device::new();
    let mut cache = ResourceManager::new();
    let mut node = RenderNode::new("two shaders".to_string());
    node.add_command(Command::LoadShader("a.wgsl".to_string()));
    node.add_command(Command::LoadShader("b.wgsl".to_string()));
    let sources = vec![shader(), Some(Source::Shader("second".to_string()))];
    assert_eq!(node.build_pipeline(&mut device, &mut cache, &sources), Ok(()));
    match &device.requests()[3] {
        Request::CreateRenderPipeline { descriptor } => {
            assert_eq!(descriptor.shader, ShaderModuleId { index: 1 });
        }
        other => panic!("unexpected request {:?}", other),
    }
}

#[test]
fn two_nodes_share_one_mesh() {
    let mut device = Device::new();
    let mut cache = ResourceManager::new();
    let mut first = triangle_node();
    let mut second = triangle_node();
    assert_eq!(first.build_pipeline(&mut device, &mut cache, &vec![shader(), models()]), Ok(()));
    let uploaded = device.len();
    assert!(!second.commands()[1].needs_source(&cache));
    assert!(second.commands()[0].needs_source(&cache));
    assert_eq!(second.build_pipeline(&mut device, &mut cache, &vec![shader(), None]), Ok(()));
    assert_eq!(device.len(), uploaded + 3);
    let mut encoder = CommandEncoder::new();
    first.execute(0, &mut cache, &mut device, surface(), &mut encoder);
    second.execute(1, &mut cache, &mut device, surface(), &mut encoder);
    let a = encoder.passes()[0].ops();
    let b = encoder.passes()[1].ops();
    assert_eq!(a[1..], b[1..]);
    assert_ne!(a[0], b[0]);
}

#[test]
fn commands_need_their_file_until_the_resource_is_cached() {
    let mut device = Device::new();
    let mut cache = ResourceManager::new();
    let draw = Command::DrawMesh("tri.obj".to_string());
    let instanced = Command::DrawMeshInstanced("tri.obj".to_string(), vec![]);
    let bind = Command::BindTexture(0, "tri.obj".to_string());
    let load = Command::LoadShader("tri.obj".to_string());
    assert!(draw.needs_source(&cache));
    assert!(instanced.needs_source(&cache));
    assert!(bind.needs_source(&cache));
    assert!(load.needs_source(&cache));
    assert_eq!(draw.path(), "tri.obj");
    assert_eq!(bind.path(), "tri.obj");
    let file = vec![triangle()];
    cache.load_mesh(&mut device, mesh("tri.obj"), Some(&file)).unwrap();
    assert!(!draw.needs_source(&cache));
    assert!(!instanced.needs_source(&cache));
    assert!(bind.needs_source(&cache));
    assert!(load.needs_source(&cache));
}

#[test]
fn pipeline_layouts_are_static_dynamic_then_textures() {
    let mut device = Device::new();
    let mut cache = ResourceManager::new();
    let mut node = RenderNode::new("layouts".to_string());
    node.add_command(Command::BindTexture(2, "a.png".to_string()));
    node.add_command(Command::LoadShader("s.wgsl".to_string()));
    node.add_command(Command::DrawMesh("tri.obj".to_string()));
    node.add_command(Command::BindTexture(2, "b.png".to_string()));
    node.add_command(Command::BindTexture(3, "a.png".to_string()));
    node.add_uniform_payload(&mut device, vec![0; 4], UniformBufferType::DYNAMIC);
    node.add_uniform_payload(&mut device, vec![0; 4], UniformBufferType::STATIC);
    let stat = node.uniform_set(UniformBufferType::STATIC).unwrap().bind_group_layout;
    let dynamic = node.uniform_set(UniformBufferType::DYNAMIC).unwrap().bind_group_layout;
    let sources = vec![image(), shader(), models(), image(), None];
    assert_eq!(node.build_pipeline(&mut device, &mut cache, &sources), Ok(()));
    let a = cache.get_texture(&texture("a.png")).unwrap().get_bind_group_layout().unwrap();
    let b = cache.get_texture(&texture("b.png")).unwrap().get_bind_group_layout().unwrap();
    assert_ne!(a, b);
    let n = device.len();
    assert_eq!(
        device.requests()[n - 2],
        Request::CreatePipelineLayout { bind_group_layouts: vec![stat, dynamic, a, b, a] }
    );
    assert_eq!(
        node.compiled_commands(),
        &vec![
            DrawCommand::BindTexture(2, texture("a.png")),
            DrawCommand::DrawMesh(mesh("tri.obj")),
            DrawCommand::BindTexture(2, texture("b.png")),
            DrawCommand::BindTexture(3, texture("a.png")),
        ]
    );
}

#[test]
fn textures_and_draws_are_replayed_in_command_order() {
    let mut device = Device::new();
    let mut cache = ResourceManager::new();
    let mut node = RenderNode::new("interleaved".to_string());
    node.add_command(Command::LoadShader("s.wgsl".to_string()));
    node.add_command(Command::BindTexture(1, "a.png".to_string()));
    node.add_command(Command::DrawMesh("tri.obj".to_string()));
    node.add_command(Command::BindTexture(1, "b.png".to_string()));
    node.add_command(Command::DrawMesh("tri.obj".to_string()));
    let sources = vec![shader(), image(), models(), image(), None];
    assert_eq!(node.build_pipeline(&mut device, &mut cache, &sources), Ok(()));
    let a = cache.get_texture(&texture("a.png")).unwrap().binding.unwrap().bind_group;
    let b = cache.get_texture(&texture("b.png")).unwrap().binding.unwrap().bind_group;
    let mut encoder = CommandEncoder::new();
    node.execute(5, &mut cache, &mut device, surface(), &mut encoder);
    let ops = encoder.passes()[0].ops();
    let draw = PassOp::DrawIndexed { index_count: 3, base_vertex: 0, instance_count: 1 };
    assert_eq!(ops.len(), 9);
    assert_eq!(ops[1], PassOp::SetBindGroup { index: 1, group: a });
    assert_eq!(ops[4], draw);
    assert_eq!(ops[5], PassOp::SetBindGroup { index: 1, group: b });
    assert_eq!(ops[8], draw);
    assert_eq!(encoder.passes()[0].color_load(), LoadOp::Load);
}

#[test]
fn dynamic_set_is_bound_behind_the_static_set() {
    let mut device = Device::new();
    let mut cache = ResourceManager::new();
    let mut node = triangle_node();
    let payload = Matrix([0.5; 16]);
    let stat = node.add_uniform_buffer(&mut device, &payload, UniformBufferType::STATIC);
    let dynamic = node.add_uniform_buffer(&mut device, &payload, UniformBufferType::DYNAMIC);
    assert_eq!(stat.unwrap().get().size(), 64);
    assert_eq!(dynamic.unwrap().get().buffer(), BufferId { index: 3 });
    assert_eq!(node.build_pipeline(&mut device, &mut cache, &vec![shader(), models()]), Ok(()));
    let mut encoder = CommandEncoder::new();
    node.execute(0, &mut cache, &mut device, surface(), &mut encoder);
    let ops = encoder.passes()[0].ops();
    let static_group = node.uniform_set(UniformBufferType::STATIC).unwrap().bind_group;
    let dynamic_group = node.uniform_set(UniformBufferType::DYNAMIC).unwrap().bind_group;
    assert_eq!(ops[1], PassOp::SetBindGroup { index: 0, group: static_group });
    assert_eq!(ops[2], PassOp::SetBindGroup { index: 1, group: dynamic_group });
}

#[test]
fn dynamic_set_alone_is_bound_at_slot_zero() {
    let mut device = Device::new();
    let mut cache = ResourceManager::new();
    let mut node = triangle_node();
    node.add_uniform_buffer(&mut device, &Matrix([0.0; 16]), UniformBufferType::DYNAMIC);
    assert_eq!(node.build_pipeline(&mut device, &mut cache, &vec![shader(), models()]), Ok(()));
    let mut encoder = CommandEncoder::new();
    node.execute(0, &mut cache, &mut device, surface(), &mut encoder);
    let ops = encoder.passes()[0].ops();
    let dynamic_group = node.uniform_set(UniformBufferType::DYNAMIC).unwrap().bind_group;
    assert_eq!(ops[1], PassOp::SetBindGroup { index: 0, group: dynamic_group });
    assert!(matches!(ops[2], PassOp::SetVertexBuffer { .. }));
}

#[test]
fn static_set_alone_is_bound_at_slot_zero() {
    let mut device = Device::new();
    let mut cache = ResourceManager::new();
    let mut node = triangle_node();
    node.add_uniform_payload(&mut device, vec![1, 2], UniformBufferType::STATIC);
    assert_eq!(node.build_pipeline(&mut device, &mut cache, &vec![shader(), models()]), Ok(()));
    let mut encoder = CommandEncoder::new();
    node.execute(0, &mut cache, &mut device, surface(), &mut encoder);
    let ops = encoder.passes()[0].ops();
    let group = node.uniform_set(UniformBufferType::STATIC).unwrap().bind_group;
    assert_eq!(ops[1], PassOp::SetBindGroup { index: 0, group });
    assert!(matches!(ops[2], PassOp::SetVertexBuffer { .. }));
}

#[test]
fn uniform_buffers_join_their_set_in_order() {
    let mut device = Device::new();
    let mut node = RenderNode::new("uniforms".to_string());
    let first = node.add_uniform_payload(&mut device, vec![1; 4], UniformBufferType::STATIC);
    let second = node.add_uniform_payload(&mut device, vec![2; 8], UniformBufferType::STATIC);
    assert_eq!(first.unwrap().get(), &UniformBuffer { buffer: BufferId { index: 0 }, size: 4 });
    assert!(second.is_none());
    assert_eq!(node.uniform_count(UniformBufferType::STATIC), 2);
    assert_eq!(node.uniform_count(UniformBufferType::DYNAMIC), 0);
    let a = node.add_uniform_payload(&mut device, vec![3; 4], UniformBufferType::DYNAMIC).unwrap();
    let b = node.add_uniform_payload(&mut device, vec![4; 4], UniformBufferType::DYNAMIC).unwrap();
    let set = node.uniform_set(UniformBufferType::DYNAMIC).unwrap();
    assert_eq!(set.uniform_buffers[0].get(), a.get());
    assert_eq!(set.uniform_buffers[1].get(), b.get());
    assert_eq!(set.bind_group.index, device.len() - 1);
    let stat = node.uniform_set(UniformBufferType::STATIC).unwrap();
    assert_eq!(stat.uniform_buffers[1].get().size(), 8);
    assert_eq!(stat.bind_group_layout, BindGroupLayoutId { index: 4 });
}

#[test]
fn shared_uniform_buffer_is_bound_in_both_nodes() {
    let mut device = Device::new();
    let mut one = RenderNode::new("one".to_string());
    let mut two = RenderNode::new("two".to_string());
    let camera = one
        .add_uniform_buffer(&mut device, &Matrix([1.0; 16]), UniformBufferType::DYNAMIC)
        .unwrap();
    two.add_uniform_buffer_handle(&mut device, camera.clone(), UniformBufferType::DYNAMIC);
    two.add_uniform_buffer_handle(&mut device, camera.clone(), UniformBufferType::STATIC);
    let dynamic = two.uniform_set(UniformBufferType::DYNAMIC).unwrap();
    assert_eq!(dynamic.uniform_buffers[0].get(), camera.get());
    assert_eq!(two.uniform_count(UniformBufferType::STATIC), 1);
    assert_eq!(camera.get().update(&mut device, &Matrix([2.0; 16])), Ok(()));
    assert!(camera.get().write(&mut device, vec![0; 60]).is_err());
    let _ = Handle::new(*camera.get());
}

#[test]
fn depth_node_attaches_the_shared_depth_target() {
    let mut device = Device::new();
    let mut cache = ResourceManager::new();
    let mut node = triangle_node();
    node.use_depth(true);
    assert_eq!(node.build_pipeline(&mut device, &mut cache, &vec![shader(), models()]), Ok(()));
    let built = device.len();
    let mut encoder = CommandEncoder::new();
    node.execute(0, &mut cache, &mut device, surface(), &mut encoder);
    node.execute(1, &mut cache, &mut device, surface(), &mut encoder);
    assert_eq!(device.len(), built + 1);
    let target = cache.load_depth_texture(&mut device, 640, 480).texture;
    assert_eq!(
        encoder.passes()[0].depth(),
        Some(DepthAttachment { texture: target, load: LoadOp::Clear })
    );
    assert_eq!(
        encoder.passes()[1].depth(),
        Some(DepthAttachment { texture: target, load: LoadOp::Load })
    );
    node.execute(1, &mut cache, &mut device, TextureSize { width: 320, height: 240 }, &mut encoder);
    assert_eq!(device.len(), built + 2);
    assert_ne!(encoder.passes()[2].depth().unwrap().texture, target);
}

#[test]
fn unbuilt_node_draws_nothing() {
    let mut device = Device::new();
    let mut cache = ResourceManager::new();
    let mut node = triangle_node();
    node.use_depth(true);
    let mut encoder = CommandEncoder::new();
    node.execute(0, &mut cache, &mut device, surface(), &mut encoder);
    assert!(encoder.passes().is_empty());
    assert_eq!(device.len(), 0);
}

#[test]
fn single_command_is_compiled_against_the_cache() {
    let mut device = Device::new();
    let mut cache = ResourceManager::new();
    let mut shader_module = None;
    let mut instanced = false;
    let mut compiled = Vec::new();
    let command = Command::DrawMeshInstanced("tri.obj".to_string(), vec![]);
    let source = Source::Models(vec![triangle()]);
    assert_eq!(
        compile_command(
            &command,
            Some(&source),
            4,
            &mut device,
            &mut cache,
            &mut shader_module,
            &mut instanced,
            &mut compiled,
        ),
        Ok(())
    );
    assert!(instanced);
    assert_eq!(shader_module, None);
    assert_eq!(compiled, vec![DrawCommand::DrawMeshInstanced(mesh("tri.obj"))]);
    let cached = cache.get_mesh(&mesh("tri.obj")).unwrap();
    assert_eq!(cached.instance_buffer().unwrap().get_instance_count(), 0);
    assert_eq!(
        compile_command(
            &Command::DrawMesh("other.obj".to_string()),
            None,
            5,
            &mut device,
            &mut cache,
            &mut shader_module,
            &mut instanced,
            &mut compiled,
        ),
        Err(BuildError::Load { command: 5, error: LoadError::Unavailable })
    );
    assert_eq!(compiled.len(), 1);
}
