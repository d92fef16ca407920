//! The render graph: render nodes in draw order.

pub mod commands;
pub mod render_node;
pub mod resource_manager;

pub use commands::{Command, DrawCommand};
pub use render_node::{BuildError, RenderNode, Source};
pub use resource_manager::{LoadError, ResourceHandle, ResourceManager, ResourceType};

use vstd::prelude::*;
use crate::device::{Device, RequestView};
use crate::render_graph::render_node::{
    load_op, sources_view, RenderNodeView, SourceView,
};
use crate::render_graph::resource_manager::ResourceManagerView;
use crate::render_pass::{CommandEncoder, LoadOp, RenderPassView};
use crate::types::texture::TextureSize;

verus! {

/// The node that could not be built, and why.
#[derive(Clone, Copy, Debug, PartialEq, Eq, Structural)]
pub struct GraphError {
    pub node: usize,
    pub error: BuildError,
}

/// The views of a run of nodes.
pub open spec fn nodes_view(nodes: Seq<RenderNode>) -> Seq<RenderNodeView> {
    nodes.map_values(|n: RenderNode| n@)
}

/// The views of the sources of a graph: one list per node.
pub open spec fn graph_sources_view(sources: Seq<Vec<Option<Source>>>) -> Seq<
    Seq<Option<SourceView>>,
> {
    sources.map_values(|s: Vec<Option<Source>>| sources_view(s@))
}

/// The sources of node `i`: none, if the list is too short.
pub open spec fn sources_for(sources: Seq<Seq<Option<SourceView>>>, i: int) -> Seq<
    Option<SourceView>,
> {
    if 0 <= i < sources.len() {
        sources[i]
    } else {
        Seq::empty()
    }
}

/// How far building a graph has come.
pub struct GraphBuild {
    pub nodes: Seq<RenderNodeView>,
    pub cache: ResourceManagerView,
    pub log: Seq<RequestView>,
    pub error: Option<GraphError>,
}

impl GraphBuild {
    /// Builds the first `n` nodes in order against the one shared cache,
    /// stopping at the first node that fails.
    pub open spec fn run(self, sources: Seq<Seq<Option<SourceView>>>, n: int) -> GraphBuild
        decreases n,
    {
        if n <= 0 {
            self
        } else {
            let before = self.run(sources, n - 1);
            if before.error is Some {
                before
            } else {
                let outcome = before.nodes[n - 1].build(
                    before.cache,
                    before.log,
                    sources_for(sources, n - 1),
                );
                GraphBuild {
                    nodes: before.nodes.update(n - 1, outcome.node),
                    cache: outcome.cache,
                    log: outcome.log,
                    error: match outcome.error {
                        Some(error) => Some(GraphError { node: (n - 1) as usize, error }),
                        None => None,
                    },
                }
            }
        }
    }
}

/// Once building has stopped, it stays where it is.
pub proof fn lemma_graph_build_stops(
    start: GraphBuild,
    sources: Seq<Seq<Option<SourceView>>>,
    i: int,
    n: int,
)
    requires
        0 <= i <= n,
        start.run(sources, i).error is Some,
    ensures
        start.run(sources, n) == start.run(sources, i),
    decreases n - i,
{
    if i < n {
        lemma_graph_build_stops(start, sources, i, n - 1);
    }
}

/// Building never changes the number of nodes.
pub proof fn lemma_graph_build_len(start: GraphBuild, sources: Seq<Seq<Option<SourceView>>>, n: int)
    requires
        0 <= n <= start.nodes.len(),
    ensures
        start.run(sources, n).nodes.len() == start.nodes.len(),
    decreases n,
{
    if n > 0 {
        lemma_graph_build_len(start, sources, n - 1);
    }
}

/// What a frame has come to after some of its nodes ran.
pub struct Frame {
    pub cache: ResourceManagerView,
    pub log: Seq<RequestView>,
    pub passes: Seq<RenderPassView>,
}

/// Runs the first `n` nodes in order, each with its place in the graph as
/// its index, against one shared cache and one shared frame.
pub open spec fn frame(
    nodes: Seq<RenderNodeView>,
    cache: ResourceManagerView,
    log: Seq<RequestView>,
    size: TextureSize,
    n: int,
) -> Frame
    decreases n,
{
    if n <= 0 {
        Frame { cache, log, passes: Seq::empty() }
    } else {
        let before = frame(nodes, cache, log, size, n - 1);
        let node = nodes[n - 1];
        Frame {
            cache: node.cache_after(before.cache, size, before.log.len()),
            log: before.log + node.frame_requests(before.cache, size),
            passes: before.passes + node.frame_passes(
                n - 1,
                before.cache,
                size,
                before.log.len(),
            ),
        }
    }
}

/// In a frame, a pass clears colour only if it is the first pass of the
/// frame and comes from the first node of the graph; every other pass
/// keeps what is there. The same holds of depth, for every pass that has a
/// depth attachment. If the first node is built, the frame begins with its pass.
pub proof fn lemma_only_first_node_clears(
    nodes: Seq<RenderNodeView>,
    cache: ResourceManagerView,
    log: Seq<RequestView>,
    size: TextureSize,
    n: int,
)
    requires
        0 <= n <= nodes.len(),
    ensures
        ({
            let passes = frame(nodes, cache, log, size, n).passes;
            &&& n >= 1 && nodes[0].pipeline is Some ==> passes.len() >= 1
            &&& forall|j: int|
                0 <= j < passes.len() ==> {
                    &&& (#[trigger] passes[j]).color_load == LoadOp::Clear <==> j == 0
                        && nodes[0].pipeline is Some
                    &&& passes[j].depth matches Some(depth) ==> (depth.load == LoadOp::Clear
                        <==> j == 0 && nodes[0].pipeline is Some)
                }
        }),
    decreases n,
{
    if n > 0 {
        lemma_only_first_node_clears(nodes, cache, log, size, n - 1);
        let before = frame(nodes, cache, log, size, n - 1);
        let passes = frame(nodes, cache, log, size, n).passes;
        let node = nodes[n - 1];
        assert forall|j: int| 0 <= j < passes.len() implies {
            &&& (#[trigger] passes[j]).color_load == LoadOp::Clear <==> j == 0
                && nodes[0].pipeline is Some
            &&& passes[j].depth matches Some(depth) ==> (depth.load == LoadOp::Clear <==> j == 0
                && nodes[0].pipeline is Some)
        } by {
            if j < before.passes.len() {
                assert(passes[j] == before.passes[j]);
            } else {
                assert(passes[j] == node.pass(
                    n - 1,
                    node.cache_after(before.cache, size, before.log.len()),
                ));
            }
        }
    }
}

/// In a frame of a graph whose nodes are all built, node `i` has the
/// `i`-th pass, and that pass clears if and only if `i` is 0.
pub proof fn lemma_built_graph_passes(
    nodes: Seq<RenderNodeView>,
    cache: ResourceManagerView,
    log: Seq<RequestView>,
    size: TextureSize,
    n: int,
)
    requires
        0 <= n <= nodes.len(),
        forall|i: int| 0 <= i < nodes.len() ==> (#[trigger] nodes[i]).pipeline is Some,
    ensures
        ({
            let passes = frame(nodes, cache, log, size, n).passes;
            &&& passes.len() == n
            &&& forall|i: int|
                0 <= i < n ==> {
                    &&& (#[trigger] passes[i]).label == nodes[i].name
                    &&& passes[i].color_load == load_op(i)
                    &&& passes[i].depth is Some <==> nodes[i].use_depth
                    &&& passes[i].depth matches Some(depth) ==> depth.load == load_op(i)
                }
        }),
    decreases n,
{
    if n > 0 {
        lemma_built_graph_passes(nodes, cache, log, size, n - 1);
        let before = frame(nodes, cache, log, size, n - 1);
        let passes = frame(nodes, cache, log, size, n).passes;
        let node = nodes[n - 1];
        assert(node.pipeline is Some);
        assert forall|i: int| 0 <= i < n implies {
            &&& (#[trigger] passes[i]).label == nodes[i].name
            &&& passes[i].color_load == load_op(i)
            &&& passes[i].depth is Some <==> nodes[i].use_depth
            &&& passes[i].depth matches Some(depth) ==> depth.load == load_op(i)
        } by {
            if i < n - 1 {
                assert(passes[i] == before.passes[i]);
            } else {
                assert(passes[i] == node.pass(
                    n - 1,
                    node.cache_after(before.cache, size, before.log.len()),
                ));
            }
        }
    }
}

/// Drawing a frame loads and evicts nothing: the cache holds the same
/// meshes, textures and materials after it as before, and the device log
/// begins with what it held. Only the depth target may have been made anew.
pub proof fn lemma_frame_keeps(
    nodes: Seq<RenderNodeView>,
    cache: ResourceManagerView,
    log: Seq<RequestView>,
    size: TextureSize,
    n: int,
)
    requires
        0 <= n <= nodes.len(),
    ensures
        ({
            let end = frame(nodes, cache, log, size, n);
            &&& end.cache.meshes == cache.meshes
            &&& end.cache.textures == cache.textures
            &&& end.cache.materials == cache.materials
            &&& log.len() <= end.log.len()
            &&& end.log.subrange(0, log.len() as int) == log
        }),
    decreases n,
{
    if n > 0 {
        lemma_frame_keeps(nodes, cache, log, size, n - 1);
        let before = frame(nodes, cache, log, size, n - 1);
        let end = frame(nodes, cache, log, size, n);
        assert(end.log.subrange(0, log.len() as int) =~= before.log.subrange(
            0,
            log.len() as int,
        ));
    } else {
        assert(log.subrange(0, log.len() as int) =~= log);
    }
}

/// Render nodes in draw order.
pub struct RenderGraph {
    nodes: Vec<RenderNode>,
}

impl View for RenderGraph {
    type V = Seq<RenderNodeView>;

    closed spec fn view(&self) -> Seq<RenderNodeView> {
        nodes_view(self.nodes@)
    }
}

impl RenderGraph {
    /// A graph without nodes.
    pub fn new() -> (graph: RenderGraph)
        ensures
            graph@ == Seq::<RenderNodeView>::empty(),
    {
        let graph = RenderGraph { nodes: Vec::new() };
        assert(graph@ =~= Seq::<RenderNodeView>::empty());
        graph
    }

    /// Appends a node: it is drawn after all the nodes that are there.
    pub fn add_node(&mut self, node: RenderNode)
        ensures
            final(self)@ == old(self)@.push(node@),
    {
        self.nodes.push(node);
        assert(self@ =~= old(self)@.push(node@));
    }

    /// The nodes, in draw order.
    pub fn nodes(&self) -> (nodes: &Vec<RenderNode>)
        ensures
            nodes_view(nodes@) == self@,
    {
        &self.nodes
    }

    /// Builds every node in draw order against the one shared cache, and
    /// stops at the first node that cannot be built. `sources[i]` holds
    /// the sources of node `i`.
    pub fn build(
        &mut self,
        device: &mut Device,
        resource_manager: &mut ResourceManager,
        sources: &Vec<Vec<Option<Source>>>,
    ) -> (r: Result<(), GraphError>)
        ensures
            ({
                let start = GraphBuild {
                    nodes: old(self)@,
                    cache: old(resource_manager)@,
                    log: old(device)@,
                    error: None,
                };
                let end = start.run(graph_sources_view(sources@), old(self)@.len() as int);
                &&& r == (match end.error {
                    Some(error) => Err::<(), GraphError>(error),
                    None => Ok::<(), GraphError>(()),
                })
                &&& final(self)@ == end.nodes
                &&& final(resource_manager)@ == end.cache
                &&& final(device)@ == end.log
            }),
    {
        let ghost start = GraphBuild {
            nodes: self@,
            cache: resource_manager@,
            log: device@,
            error: None,
        };
        let ghost views = graph_sources_view(sources@);
        let none: Vec<Option<Source>> = Vec::new();
        assert(sources_view(none@) =~= Seq::empty());
        let n = self.nodes.len();
        let mut i: usize = 0;
        while i < n
            invariant
                i <= n,
                n == self.nodes@.len(),
                n == old(self)@.len(),
                views == graph_sources_view(sources@),
                sources_view(none@) == Seq::<Option<SourceView>>::empty(),
                start == (GraphBuild {
                    nodes: old(self)@,
                    cache: old(resource_manager)@,
                    log: old(device)@,
                    error: None,
                }),
                start.run(views, i as int) == (GraphBuild {
                    nodes: self@,
                    cache: resource_manager@,
                    log: device@,
                    error: None,
                }),
            decreases n - i,
        {
            let node_sources: &Vec<Option<Source>> = if i < sources.len() {
                &sources[i]
            } else {
                &none
            };
            assert(sources_view(node_sources@) == sources_for(views, i as int));
            let ghost before = self@;
            assert(before[i as int] == self.nodes@[i as int]@);
            let built = self.nodes[i].build_pipeline(device, resource_manager, node_sources);
            proof {
                assert(self@ =~= before.update(i as int, self.nodes@[i as int]@));
            }
            match built {
                Err(error) => {
                    proof {
                        assert(start.run(views, i + 1).error == Some(
                            GraphError { node: i, error },
                        ));
                        lemma_graph_build_stops(start, views, i + 1, n as int);
                    }
                    return Err(GraphError { node: i, error });
                },
                Ok(()) => {},
            }
            i += 1;
        }
        Ok(())
    }

    /// Replays every node in draw order into one frame that is drawn to a
    /// surface of the given size. Node `i` runs with index `i`, so that
    /// only the first node clears the frame.
    pub fn execute(
        &self,
        resource_manager: &mut ResourceManager,
        device: &mut Device,
        surface: TextureSize,
        encoder: &mut CommandEncoder,
    )
        ensures
            ({
                let end = frame(
                    self@,
                    old(resource_manager)@,
                    old(device)@,
                    surface,
                    self@.len() as int,
                );
                &&& final(resource_manager)@ == end.cache
                &&& final(device)@ == end.log
                &&& final(encoder)@ == old(encoder)@ + end.passes
            }),
    {
        let mut i: usize = 0;
        assert(encoder@ =~= old(encoder)@ + Seq::<RenderPassView>::empty());
        while i < self.nodes.len()
            invariant
                i <= self.nodes@.len(),
                ({
                    let so_far = frame(
                        self@,
                        old(resource_manager)@,
                        old(device)@,
                        surface,
                        i as int,
                    );
                    &&& resource_manager@ == so_far.cache
                    &&& device@ == so_far.log
                    &&& encoder@ == old(encoder)@ + so_far.passes
                }),
            decreases self.nodes@.len() - i,
        {
            assert(self@[i as int] == self.nodes@[i as int]@);
            let ghost so_far = frame(
                self@,
                old(resource_manager)@,
                old(device)@,
                surface,
                i as int,
            );
            self.nodes[i].execute(i, resource_manager, device, surface, encoder);
            proof {
                let next = frame(
                    self@,
                    old(resource_manager)@,
                    old(device)@,
                    surface,
                    i + 1,
                );
                assert(encoder@ =~= old(encoder)@ + next.passes);
            }
            i += 1;
        }
    }
}

} // verus!
