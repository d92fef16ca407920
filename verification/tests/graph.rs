use minirender::device::Device;
use minirender::render_graph::{
    BuildError, Command, GraphError, LoadError, RenderGraph, RenderNode, ResourceHandle,
    ResourceManager, ResourceType, Source,
};
use minirender::render_pass::{CommandEncoder, LoadOp};
use minirender::types::mesh::ObjModel;
use minirender::types::texture::TextureSize;

fn triangle() -> ObjModel {
    let one = 1.0f32.to_bits();
    ObjModel {
        positions: vec![0, 0, 0, one, 0, 0, 0, one, 0],
        normals: vec![0, 0, one, 0, 0, one, 0, 0, one],
        texcoords: vec![0, 0, one, 0, 0, one],
        indices: vec![0, 1, 2],
    }
}

fn node(name: &str, depth: bool) -> RenderNode {
    let mut node = RenderNode::new(name.to_string());
    node.add_command(Command::LoadShader("shader.wgsl".to_string()));
    node.add_command(Command::DrawMesh("tri.obj".to_string()));
    node.use_depth(depth);
    node
}

fn sources() -> Vec<Option<Source>> {
    vec![Some(Source::Shader("code".to_string())), Some(Source::Models(vec![triangle()]))]
}

fn surface() -> TextureSize {
    TextureSize { width: 100, height: 50 }
}

#[test]
fn only_the_first_of_three_nodes_clears() {
    let mut device = Device::new();
    let mut cache = ResourceManager::new();
    let mut graph = RenderGraph::new();
    graph.add_node(node("zero", true));
    graph.add_node(node("one", false));
    graph.add_node(node("two", true));
    assert_eq!(
        graph.build(&mut device, &mut cache, &vec![sources(), sources(), sources()]),
        Ok(())
    );
    let mut encoder = CommandEncoder::new();
    graph.execute(&mut cache, &mut device, surface(), &mut encoder);
    let passes = encoder.passes();
    assert_eq!(passes.len(), 3);
    assert_eq!(passes[0].label(), "zero");
    assert_eq!(passes[1].label(), "one");
    assert_eq!(passes[2].label(), "two");
    assert_eq!(passes[0].color_load(), LoadOp::Clear);
    assert_eq!(passes[1].color_load(), LoadOp::Load);
    assert_eq!(passes[2].color_load(), LoadOp::Load);
    assert_eq!(passes[0].depth().unwrap().load, LoadOp::Clear);
    assert_eq!(passes[1].depth(), None);
    assert_eq!(passes[2].depth().unwrap().load, LoadOp::Load);
    assert_eq!(passes[0].depth().unwrap().texture, passes[2].depth().unwrap().texture);
}

#[test]
fn every_frame_clears_once() {
    let mut device = Device::new();
    let mut cache = ResourceManager::new();
    let mut graph = RenderGraph::new();
    graph.add_node(node("zero", true));
    graph.add_node(node("one", true));
    assert_eq!(graph.build(&mut device, &mut cache, &vec![sources(), sources()]), Ok(()));
    let built = device.len();
    for frame in 0..3 {
        let mut encoder = CommandEncoder::new();
        graph.execute(&mut cache, &mut device, surface(), &mut encoder);
        let clears =
            encoder.passes().iter().filter(|p| p.color_load() == LoadOp::Clear).count();
        assert_eq!(clears, 1, "frame {}", frame);
        assert_eq!(encoder.passes().len(), 2);
        assert_eq!(device.len(), built + 1);
    }
}

#[test]
fn graph_shares_resources_between_nodes() {
    let mut device = Device::new();
    let mut cache = ResourceManager::new();
    let mut graph = RenderGraph::new();
    graph.add_node(node("zero", false));
    graph.add_node(node("one", false));
    let second = vec![Some(Source::Shader("code".to_string())), None];
    assert_eq!(graph.build(&mut device, &mut cache, &vec![sources(), second]), Ok(()));
    assert_eq!(device.len(), 5 + 3);
    assert!(graph.nodes()[0].is_built());
    assert!(graph.nodes()[1].is_built());
    let handle = ResourceHandle::new("tri.obj".to_string(), ResourceType::Mesh);
    assert!(cache.get_mesh(&handle).is_some());
}

#[test]
fn graph_build_stops_at_the_first_node_that_fails() {
    let mut device = Device::new();
    let mut cache = ResourceManager::new();
    let mut graph = RenderGraph::new();
    graph.add_node(node("zero", false));
    let mut broken = RenderNode::new("broken".to_string());
    broken.add_command(Command::LoadShader("shader.wgsl".to_string()));
    broken.add_command(Command::DrawMesh("missing.obj".to_string()));
    graph.add_node(broken);
    graph.add_node(node("two", false));
    assert_eq!(
        graph.build(&mut device, &mut cache, &vec![sources(), sources()[..1].to_vec(), sources()]),
        Err(GraphError {
            node: 1,
            error: BuildError::Load { command: 1, error: LoadError::Unavailable },
        })
    );
    assert!(graph.nodes()[0].is_built());
    assert!(!graph.nodes()[1].is_built());
    assert!(!graph.nodes()[2].is_built());
    let mut encoder = CommandEncoder::new();
    graph.execute(&mut cache, &mut device, surface(), &mut encoder);
    assert_eq!(encoder.passes().len(), 1);
    assert_eq!(encoder.passes()[0].label(), "zero");
}

#[test]
fn graph_without_sources_fails_at_its_first_node() {
    let mut device = Device::new();
    let mut cache = ResourceManager::new();
    let mut graph = RenderGraph::new();
    graph.add_node(node("zero", false));
    assert_eq!(
        graph.build(&mut device, &mut cache, &vec![]),
        Err(GraphError { node: 0, error: BuildError::ShaderUnavailable { command: 0 } })
    );
    assert_eq!(device.len(), 0);
}

#[test]
fn unbuilt_first_node_leaves_the_frame_uncleared() {
    let mut device = Device::new();
    let mut cache = ResourceManager::new();
    let mut graph = RenderGraph::new();
    graph.add_node(node("zero", false));
    let mut built = node("one", false);
    assert_eq!(built.build_pipeline(&mut device, &mut cache, &sources()), Ok(()));
    graph.add_node(built);
    let mut encoder = CommandEncoder::new();
    graph.execute(&mut cache, &mut device, surface(), &mut encoder);
    assert_eq!(encoder.passes().len(), 1);
    assert_eq!(encoder.passes()[0].label(), "one");
    assert_eq!(encoder.passes()[0].color_load(), LoadOp::Load);
}

#[test]
fn empty_graph_builds_and_draws_nothing() {
    let mut device = Device::new();
    let mut cache = ResourceManager::new();
    let mut graph = RenderGraph::new();
    assert_eq!(graph.build(&mut device, &mut cache, &vec![]), Ok(()));
    let mut encoder = CommandEncoder::new();
    graph.execute(&mut cache, &mut device, surface(), &mut encoder);
    assert!(encoder.passes().is_empty());
    assert!(graph.nodes().is_empty());
    assert_eq!(device.len(), 0);
}
