//! The record of a frame: the render passes that were opened against the
//! frame's colour target, and what each of them was told to do.

use vstd::prelude::*;
use crate::device::{BindGroupId, BufferId, IndexFormat, RenderPipelineId, TextureId};

verus! {

/// What happens to an attachment when a pass begins. `Clear` sets colour to
/// opaque black and depth to the far plane; `Load` keeps what earlier passes drew.
#[derive(Clone, Copy, Debug, PartialEq, Eq, Structural)]
pub enum LoadOp {
    Clear,
    Load,
}

/// The depth attachment of a pass. Depth is always stored; there is no stencil.
#[derive(Clone, Copy, Debug, PartialEq, Eq, Structural)]
pub struct DepthAttachment {
    pub texture: TextureId,
    pub load: LoadOp,
}

/// One thing a render pass was told to do.
#[derive(Clone, Copy, Debug, PartialEq, Eq, Structural)]
pub enum PassOp {
    SetPipeline(RenderPipelineId),
    /// Bind `group` at bind-group slot `index`, without dynamic offsets.
    SetBindGroup { index: u32, group: BindGroupId },
    /// Read vertex stream `slot` from the whole of `buffer`.
    SetVertexBuffer { slot: u32, buffer: BufferId },
    /// Read indices from the whole of `buffer`.
    SetIndexBuffer { buffer: BufferId, format: IndexFormat },
    /// Draw indices `0..index_count` for instances `0..instance_count`.
    DrawIndexed { index_count: u32, base_vertex: i32, instance_count: u32 },
    /// Draw with the arguments that `arguments` holds at byte `offset`.
    DrawIndexedIndirect { arguments: BufferId, offset: u64 },
}

/// One render pass against the frame's colour target. Colour is always stored.
#[derive(Clone, Debug, PartialEq, Eq)]
pub struct RenderPass {
    label: String,
    color_load: LoadOp,
    depth: Option<DepthAttachment>,
    ops: Vec<PassOp>,
}

pub struct RenderPassView {
    pub label: Seq<char>,
    pub color_load: LoadOp,
    pub depth: Option<DepthAttachment>,
    pub ops: Seq<PassOp>,
}

impl View for RenderPass {
    type V = RenderPassView;

    closed spec fn view(&self) -> RenderPassView {
        RenderPassView {
            label: self.label@,
            color_load: self.color_load,
            depth: self.depth,
            ops: self.ops@,
        }
    }
}

impl RenderPassView {
    /// The same pass with `ops` recorded after what it holds.
    pub open spec fn plus(self, ops: Seq<PassOp>) -> RenderPassView {
        RenderPassView { ops: self.ops + ops, ..self }
    }
}

impl RenderPass {
    /// Opens a pass in which nothing is recorded yet.
    pub fn begin(label: String, color_load: LoadOp, depth: Option<DepthAttachment>) -> (pass:
        RenderPass)
        ensures
            pass@ == (RenderPassView { label: label@, color_load, depth, ops: Seq::empty() }),
    {
        RenderPass { label, color_load, depth, ops: Vec::new() }
    }

    pub fn label(&self) -> (label: &String)
        ensures
            label@ == self@.label,
    {
        &self.label
    }

    pub fn color_load(&self) -> (load: LoadOp)
        ensures
            load == self@.color_load,
    {
        self.color_load
    }

    pub fn depth(&self) -> (depth: Option<DepthAttachment>)
        ensures
            depth == self@.depth,
    {
        self.depth
    }

    /// What was recorded, in order.
    pub fn ops(&self) -> (ops: &Vec<PassOp>)
        ensures
            ops@ == self@.ops,
    {
        &self.ops
    }

    fn record(&mut self, op: PassOp)
        ensures
            final(self)@ == old(self)@.plus(seq![op]),
    {
        self.ops.push(op);
        assert(self@.ops =~= old(self)@.ops + seq![op]);
    }

    pub fn set_pipeline(&mut self, pipeline: RenderPipelineId)
        ensures
            final(self)@ == old(self)@.plus(seq![PassOp::SetPipeline(pipeline)]),
    {
        self.record(PassOp::SetPipeline(pipeline));
    }

    pub fn set_bind_group(&mut self, index: u32, group: BindGroupId)
        ensures
            final(self)@ == old(self)@.plus(seq![PassOp::SetBindGroup { index, group }]),
    {
        self.record(PassOp::SetBindGroup { index, group });
    }

    pub fn set_vertex_buffer(&mut self, slot: u32, buffer: BufferId)
        ensures
            final(self)@ == old(self)@.plus(seq![PassOp::SetVertexBuffer { slot, buffer }]),
    {
        self.record(PassOp::SetVertexBuffer { slot, buffer });
    }

    pub fn set_index_buffer(&mut self, buffer: BufferId, format: IndexFormat)
        ensures
            final(self)@ == old(self)@.plus(seq![PassOp::SetIndexBuffer { buffer, format }]),
    {
        self.record(PassOp::SetIndexBuffer { buffer, format });
    }

    pub fn draw_indexed(&mut self, index_count: u32, base_vertex: i32, instance_count: u32)
        ensures
            final(self)@ == old(self)@.plus(
                seq![PassOp::DrawIndexed { index_count, base_vertex, instance_count }],
            ),
    {
        self.record(PassOp::DrawIndexed { index_count, base_vertex, instance_count });
    }

    pub fn draw_indexed_indirect(&mut self, arguments: BufferId, offset: u64)
        ensures
            final(self)@ == old(self)@.plus(
                seq![PassOp::DrawIndexedIndirect { arguments, offset }],
            ),
    {
        self.record(PassOp::DrawIndexedIndirect { arguments, offset });
    }
}

/// Recording nothing changes nothing, and two in a row are one.
pub proof fn lemma_plus(pass: RenderPassView, a: Seq<PassOp>, b: Seq<PassOp>)
    ensures
        pass.plus(Seq::empty()) == pass,
        pass.plus(a).plus(b) == pass.plus(a + b),
{
    assert(pass.ops + Seq::<PassOp>::empty() =~= pass.ops);
    assert((pass.ops + a) + b =~= pass.ops + (a + b));
}

/// The passes of one frame, in the order in which they were opened.
pub struct CommandEncoder {
    passes: Vec<RenderPass>,
}

/// The views of a run of passes.
pub open spec fn passes_view(passes: Seq<RenderPass>) -> Seq<RenderPassView> {
    passes.map_values(|p: RenderPass| p@)
}

impl View for CommandEncoder {
    type V = Seq<RenderPassView>;

    closed spec fn view(&self) -> Seq<RenderPassView> {
        passes_view(self.passes@)
    }
}

impl CommandEncoder {
    /// An encoder for a frame in which nothing is drawn yet.
    pub fn new() -> (encoder: CommandEncoder)
        ensures
            encoder@ == Seq::<RenderPassView>::empty(),
    {
        let encoder = CommandEncoder { passes: Vec::new() };
        assert(encoder@ =~= Seq::<RenderPassView>::empty());
        encoder
    }

    /// Closes `pass` and adds it to the frame.
    pub fn end_render_pass(&mut self, pass: RenderPass)
        ensures
            final(self)@ == old(self)@.push(pass@),
    {
        self.passes.push(pass);
        assert(self@ =~= old(self)@.push(pass@));
    }

    /// The passes of the frame, first opened first.
    pub fn passes(&self) -> (passes: &Vec<RenderPass>)
        ensures
            passes_view(passes@) == self@,
    {
        &self.passes
    }
}

} // verus!
