//! A group of uniform buffers behind one bind group.

use vstd::prelude::*;
use crate::Handle;
use crate::device::{
    BindGroupEntry, BindGroupId, BindGroupLayoutEntry, BindGroupLayoutId, BindingResource,
    BindingType, BufferBindingType, Device, RequestView, ShaderStages,
};
use crate::render_pass::{PassOp, RenderPass};
use crate::types::uniform_buffer::UniformBuffer;

verus! {

/// Whether a uniform buffer is written once or every frame.
#[derive(Clone, Copy, Debug, PartialEq, Eq, Structural)]
pub enum UniformBufferType {
    /// Written once, when it is made.
    STATIC,
    /// Written every frame.
    DYNAMIC,
}

/// The buffers behind a run of handles.
pub open spec fn buffers_view(handles: Seq<Handle<UniformBuffer>>) -> Seq<UniformBuffer> {
    handles.map_values(|h: Handle<UniformBuffer>| h@)
}

/// The layout slots for `n` uniform buffers: slot `i` has binding index `i`
/// and shows a uniform buffer to the vertex and the fragment stage.
pub open spec fn uniform_layout_entries(n: nat) -> Seq<BindGroupLayoutEntry> {
    Seq::new(
        n,
        |i: int|
            BindGroupLayoutEntry {
                binding: i as u32,
                visibility: ShaderStages { vertex: true, fragment: true },
                ty: BindingType::Buffer {
                    ty: BufferBindingType::Uniform,
                    has_dynamic_offset: false,
                    min_binding_size: None,
                },
                count: None,
            },
    )
}

/// The bind-group slots for `buffers`: slot `i` has binding index `i` and
/// binds the whole of the `i`-th buffer.
pub open spec fn uniform_bindings(buffers: Seq<UniformBuffer>) -> Seq<BindGroupEntry> {
    Seq::new(
        buffers.len(),
        |i: int|
            BindGroupEntry {
                binding: i as u32,
                resource: BindingResource::Buffer {
                    buffer: buffers[i].buffer,
                    offset: 0,
                    size: None,
                },
            },
    )
}

/// The two requests that make the layout and the bind group for `buffers`,
/// when the first of them is request number `at`.
pub open spec fn uniform_group_requests(buffers: Seq<UniformBuffer>, at: nat) -> Seq<RequestView> {
    seq![
        RequestView::CreateBindGroupLayout { entries: uniform_layout_entries(buffers.len()) },
        RequestView::CreateBindGroup {
            layout: BindGroupLayoutId { index: at as usize },
            bindings: uniform_bindings(buffers),
        },
    ]
}

/// Uniform buffers that share one bind-group layout and one bind group.
pub struct UniformSet {
    pub uniform_buffers: Vec<Handle<UniformBuffer>>,
    pub bind_group_layout: BindGroupLayoutId,
    pub bind_group: BindGroupId,
}

pub struct UniformSetView {
    pub uniform_buffers: Seq<UniformBuffer>,
    pub bind_group_layout: BindGroupLayoutId,
    pub bind_group: BindGroupId,
}

impl View for UniformSet {
    type V = UniformSetView;

    open spec fn view(&self) -> UniformSetView {
        UniformSetView {
            uniform_buffers: buffers_view(self.uniform_buffers@),
            bind_group_layout: self.bind_group_layout,
            bind_group: self.bind_group,
        }
    }
}

impl UniformSetView {
    /// The set's layout and bind group are the ones that `log` asks for, and
    /// they are made for exactly the set's buffers, in order.
    pub open spec fn realized_in(self, log: Seq<RequestView>) -> bool {
        &&& self.bind_group_layout.index < log.len()
        &&& self.bind_group.index < log.len()
        &&& log[self.bind_group_layout.index as int] == (RequestView::CreateBindGroupLayout {
            entries: uniform_layout_entries(self.uniform_buffers.len()),
        })
        &&& log[self.bind_group.index as int] == (RequestView::CreateBindGroup {
            layout: self.bind_group_layout,
            bindings: uniform_bindings(self.uniform_buffers),
        })
    }

    /// The set as it is right after its group was made by the two requests at `at`.
    pub open spec fn made_at(buffers: Seq<UniformBuffer>, at: nat) -> UniformSetView {
        UniformSetView {
            uniform_buffers: buffers,
            bind_group_layout: BindGroupLayoutId { index: at as usize },
            bind_group: BindGroupId { index: (at + 1) as usize },
        }
    }
}

impl UniformSet {
    /// A set over `uniform_buffers`, in the order given.
    pub fn new(device: &mut Device, uniform_buffers: Vec<Handle<UniformBuffer>>) -> (set: UniformSet)
        requires
            uniform_buffers@.len() <= u32::MAX,
        ensures
            final(device)@ == old(device)@ + uniform_group_requests(
                buffers_view(uniform_buffers@),
                old(device)@.len(),
            ),
            set@ == UniformSetView::made_at(buffers_view(uniform_buffers@), old(device)@.len()),
            set@.realized_in(final(device)@),
    {
        let (bind_group_layout, bind_group) = Self::create_bind_groups(device, &uniform_buffers);
        UniformSet { uniform_buffers, bind_group_layout, bind_group }
    }

    /// Asks for the layout and the bind group of `uniform_buffers`.
    fn create_bind_groups(device: &mut Device, uniform_buffers: &Vec<Handle<UniformBuffer>>) -> (ids:
        (BindGroupLayoutId, BindGroupId))
        requires
            uniform_buffers@.len() <= u32::MAX,
        ensures
            final(device)@ == old(device)@ + uniform_group_requests(
                buffers_view(uniform_buffers@),
                old(device)@.len(),
            ),
            ids.0.index == old(device)@.len(),
            ids.1.index == old(device)@.len() + 1,
            UniformSetView::made_at(
                buffers_view(uniform_buffers@),
                old(device)@.len(),
            ).realized_in(final(device)@),
    {
        let mut layout_entries: Vec<BindGroupLayoutEntry> = Vec::new();
        let mut bindings: Vec<BindGroupEntry> = Vec::new();
        let ghost buffers = buffers_view(uniform_buffers@);
        let mut i: usize = 0;
        while i < uniform_buffers.len()
            invariant
                i <= uniform_buffers@.len() <= u32::MAX,
                buffers == buffers_view(uniform_buffers@),
                layout_entries@ == uniform_layout_entries(i as nat),
                bindings@ == uniform_bindings(buffers.take(i as int)),
            decreases uniform_buffers@.len() - i,
        {
            let buffer = uniform_buffers[i].get().buffer;
            layout_entries.push(
                BindGroupLayoutEntry {
                    binding: i as u32,
                    visibility: ShaderStages { vertex: true, fragment: true },
                    ty: BindingType::Buffer {
                        ty: BufferBindingType::Uniform,
                        has_dynamic_offset: false,
                        min_binding_size: None,
                    },
                    count: None,
                },
            );
            bindings.push(
                BindGroupEntry {
                    binding: i as u32,
                    resource: BindingResource::Buffer { buffer, offset: 0, size: None },
                },
            );
            proof {
                assert(layout_entries@ =~= uniform_layout_entries((i + 1) as nat));
                assert(bindings@ =~= uniform_bindings(buffers.take(i + 1)));
            }
            i += 1;
        }
        proof {
            assert(buffers.take(i as int) =~= buffers);
        }
        let layout = device.create_bind_group_layout(layout_entries);
        let group = device.create_bind_group(layout, bindings);
        proof {
            assert(device@ =~= old(device)@ + uniform_group_requests(buffers, old(device)@.len()));
        }
        (layout, group)
    }

    /// Appends `uniform_buffer` and asks for a new layout and a new bind
    /// group over all the buffers of the set.
    pub fn add_uniform_buffer(&mut self, device: &mut Device, uniform_buffer: UniformBuffer)
        requires
            old(self)@.uniform_buffers.len() < u32::MAX,
        ensures
            final(self)@ == UniformSetView::made_at(
                old(self)@.uniform_buffers.push(uniform_buffer),
                old(device)@.len(),
            ),
            final(device)@ == old(device)@ + uniform_group_requests(
                final(self)@.uniform_buffers,
                old(device)@.len(),
            ),
            final(self)@.realized_in(final(device)@),
    {
        self.add_existing_uniform_buffer(device, Handle::new(uniform_buffer));
    }

    /// Appends a buffer that is shared with other owners and asks for a new
    /// layout and a new bind group over all the buffers of the set.
    pub fn add_existing_uniform_buffer(
        &mut self,
        device: &mut Device,
        uniform_buffer: Handle<UniformBuffer>,
    )
        requires
            old(self)@.uniform_buffers.len() < u32::MAX,
        ensures
            final(self)@ == UniformSetView::made_at(
                old(self)@.uniform_buffers.push(uniform_buffer@),
                old(device)@.len(),
            ),
            final(device)@ == old(device)@ + uniform_group_requests(
                final(self)@.uniform_buffers,
                old(device)@.len(),
            ),
            final(self)@.realized_in(final(device)@),
    {
        self.uniform_buffers.push(uniform_buffer);
        proof {
            assert(buffers_view(self.uniform_buffers@) =~= old(self)@.uniform_buffers.push(
                uniform_buffer@,
            ));
        }
        let (bind_group_layout, bind_group) = Self::create_bind_groups(
            device,
            &self.uniform_buffers,
        );
        self.bind_group_layout = bind_group_layout;
        self.bind_group = bind_group;
    }

    /// The number of buffers in the set.
    pub fn len(&self) -> (n: usize)
        ensures
            n == self@.uniform_buffers.len(),
    {
        self.uniform_buffers.len()
    }

    /// Binds the set's bind group at bind-group slot `index` of `render_pass`.
    pub fn bind(&self, index: u32, render_pass: &mut RenderPass)
        ensures
            final(render_pass)@ == old(render_pass)@.plus(
                seq![PassOp::SetBindGroup { index, group: self.bind_group }],
            ),
    {
        render_pass.set_bind_group(index, self.bind_group);
    }
}

/// In the bind group of a set, the binding indices are `0, 1, ..` without a
/// gap, and slot `i` binds the buffer that was added `i`-th.
pub proof fn lemma_dense_bindings(buffers: Seq<UniformBuffer>)
    requires
        buffers.len() <= u32::MAX,
    ensures
        uniform_bindings(buffers).len() == buffers.len(),
        uniform_layout_entries(buffers.len()).len() == buffers.len(),
        forall|i: int|
            0 <= i < buffers.len() ==> {
                &&& (#[trigger] uniform_bindings(buffers)[i]).binding == i
                &&& uniform_bindings(buffers)[i].resource == (BindingResource::Buffer {
                    buffer: buffers[i].buffer,
                    offset: 0,
                    size: None,
                })
            },
        forall|i: int|
            0 <= i < buffers.len() ==> (#[trigger] uniform_layout_entries(
                buffers.len(),
            )[i]).binding == i,
{
}

} // verus!
