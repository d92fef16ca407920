//! The per-instance data of an instanced draw.

use vstd::prelude::*;
use crate::device::{
    BindGroupEntry, BindGroupId, BindGroupLayoutEntry, BindGroupLayoutId, BindingResource,
    BindingType, BufferBindingType, BufferContents, BufferId, BufferUsages, ContentsView, Device,
    RequestView, ShaderStages,
};
use crate::render_pass::{PassOp, RenderPass};
use crate::types::vertex::{flatten_instances, instance_words, Instance};

verus! {

/// A list of instances together with the buffer that holds them and a bind
/// group that shows the buffer to the vertex stage as read-only storage.
///
/// There are never more instances than a draw call can count.
pub struct InstanceBuffer {
    instances: Vec<Instance>,
    buffer: BufferId,
    bind_group: BindGroupId,
    bind_group_layout: BindGroupLayoutId,
}

pub struct InstanceBufferView {
    pub instances: Seq<Instance>,
    pub buffer: BufferId,
    pub bind_group: BindGroupId,
    pub bind_group_layout: BindGroupLayoutId,
}

impl View for InstanceBuffer {
    type V = InstanceBufferView;

    closed spec fn view(&self) -> InstanceBufferView {
        InstanceBufferView {
            instances: self.instances@,
            buffer: self.buffer,
            bind_group: self.bind_group,
            bind_group_layout: self.bind_group_layout,
        }
    }
}

/// What an instance buffer is used for: read as a vertex stream, bound as
/// storage, written by the queue.
pub open spec fn instance_buffer_usage() -> BufferUsages {
    BufferUsages {
        vertex: true,
        index: false,
        uniform: false,
        storage: true,
        indirect: false,
        copy_dst: true,
    }
}

/// The three requests that make an instance buffer, its layout and its bind
/// group, when the first of them is request number `at`.
pub open spec fn instance_buffer_requests(instances: Seq<Instance>, at: nat) -> Seq<RequestView> {
    seq![
        RequestView::CreateBuffer {
            contents: ContentsView::Words(instance_words(instances)),
            usage: instance_buffer_usage(),
        },
        RequestView::CreateBindGroupLayout {
            entries: seq![
                BindGroupLayoutEntry {
                    binding: 0,
                    visibility: ShaderStages { vertex: true, fragment: false },
                    ty: BindingType::Buffer {
                        ty: BufferBindingType::Storage { read_only: true },
                        has_dynamic_offset: false,
                        min_binding_size: None,
                    },
                    count: None,
                },
            ],
        },
        RequestView::CreateBindGroup {
            layout: BindGroupLayoutId { index: (at + 1) as usize },
            bindings: seq![
                BindGroupEntry {
                    binding: 0,
                    resource: BindingResource::Buffer {
                        buffer: BufferId { index: at as usize },
                        offset: 0,
                        size: None,
                    },
                },
            ],
        },
    ]
}

impl InstanceBufferView {
    /// The buffer as it is right after it was made by the three requests at `at`.
    pub open spec fn made_at(instances: Seq<Instance>, at: nat) -> InstanceBufferView {
        InstanceBufferView {
            instances,
            buffer: BufferId { index: at as usize },
            bind_group_layout: BindGroupLayoutId { index: (at + 1) as usize },
            bind_group: BindGroupId { index: (at + 2) as usize },
        }
    }
}

impl InstanceBuffer {
    #[verifier::type_invariant]
    spec fn counted(&self) -> bool {
        self.instances@.len() <= u32::MAX
    }

    /// A buffer that holds `instances`.
    pub fn new(device: &mut Device, instances: Vec<Instance>) -> (made: InstanceBuffer)
        requires
            instances@.len() <= u32::MAX,
        ensures
            final(device)@ == old(device)@ + instance_buffer_requests(
                instances@,
                old(device)@.len(),
            ),
            made@ == InstanceBufferView::made_at(instances@, old(device)@.len()),
    {
        let words = flatten_instances(&instances);
        let buffer = device.create_buffer_init(
            BufferContents::Words(words),
            BufferUsages {
                vertex: true,
                index: false,
                uniform: false,
                storage: true,
                indirect: false,
                copy_dst: true,
            },
        );
        let mut entries: Vec<BindGroupLayoutEntry> = Vec::new();
        entries.push(
            BindGroupLayoutEntry {
                binding: 0,
                visibility: ShaderStages { vertex: true, fragment: false },
                ty: BindingType::Buffer {
                    ty: BufferBindingType::Storage { read_only: true },
                    has_dynamic_offset: false,
                    min_binding_size: None,
                },
                count: None,
            },
        );
        let bind_group_layout = device.create_bind_group_layout(entries);
        let mut bindings: Vec<BindGroupEntry> = Vec::new();
        bindings.push(
            BindGroupEntry {
                binding: 0,
                resource: BindingResource::Buffer { buffer, offset: 0, size: None },
            },
        );
        let bind_group = device.create_bind_group(bind_group_layout, bindings);
        proof {
            assert(device@ =~= old(device)@ + instance_buffer_requests(
                instances@,
                old(device)@.len(),
            ));
        }
        InstanceBuffer { instances, buffer, bind_group, bind_group_layout }
    }

    /// The number of instances, which a draw call can count.
    pub fn get_instance_count(&self) -> (n: usize)
        ensures
            n == self@.instances.len(),
            n <= u32::MAX,
    {
        proof {
            use_type_invariant(self);
        }
        self.instances.len()
    }

    /// The instances, in draw order.
    pub fn instances(&self) -> (instances: &Vec<Instance>)
        ensures
            instances@ == self@.instances,
    {
        &self.instances
    }

    /// The id of the buffer that holds the instances.
    pub fn buffer(&self) -> (id: BufferId)
        ensures
            id == self@.buffer,
    {
        self.buffer
    }

    /// The id of the bind group over the buffer.
    pub fn bind_group(&self) -> (id: BindGroupId)
        ensures
            id == self@.bind_group,
    {
        self.bind_group
    }

    /// The id of the layout of the bind group.
    pub fn bind_group_layout(&self) -> (id: BindGroupLayoutId)
        ensures
            id == self@.bind_group_layout,
    {
        self.bind_group_layout
    }

    /// Asks for the whole buffer to be overwritten with the instances as they are now.
    pub fn update(&self, device: &mut Device)
        ensures
            final(device)@ == old(device)@.push(
                RequestView::WriteBuffer {
                    buffer: self@.buffer,
                    offset: 0,
                    data: ContentsView::Words(instance_words(self@.instances)),
                },
            ),
    {
        let words = flatten_instances(&self.instances);
        device.write_buffer(self.buffer, 0, BufferContents::Words(words));
    }

    /// Asks for instances `start..end` to be overwritten in the buffer with
    /// what they are now. An instance takes 64 bytes.
    pub fn update_slice(&self, device: &mut Device, start: usize, end: usize)
        requires
            start <= end <= self@.instances.len(),
        ensures
            final(device)@ == old(device)@.push(
                RequestView::WriteBuffer {
                    buffer: self@.buffer,
                    offset: (start * 64) as u64,
                    data: ContentsView::Words(
                        instance_words(self@.instances.subrange(start as int, end as int)),
                    ),
                },
            ),
    {
        proof {
            use_type_invariant(self);
        }
        let mut part: Vec<Instance> = Vec::new();
        let mut i: usize = start;
        while i < end
            invariant
                start <= i <= end <= self.instances@.len(),
                part@ == self.instances@.subrange(start as int, i as int),
            decreases end - i,
        {
            part.push(self.instances[i]);
            proof {
                assert(part@ =~= self.instances@.subrange(start as int, i + 1));
            }
            i += 1;
        }
        let words = flatten_instances(&part);
        let offset: u64 = (start as u64) * 64;
        device.write_buffer(self.buffer, offset, BufferContents::Words(words));
    }

    /// Replaces instance `index`. The buffer is not written until the next update.
    pub fn update_instance(&mut self, index: usize, instance: Instance)
        requires
            index < old(self)@.instances.len(),
        ensures
            final(self)@ == (InstanceBufferView {
                instances: old(self)@.instances.update(index as int, instance),
                ..old(self)@
            }),
    {
        proof {
            use_type_invariant(&*self);
        }
        let mut instances: Vec<Instance> = Vec::new();
        core::mem::swap(&mut instances, &mut self.instances);
        instances.set(index, instance);
        core::mem::swap(&mut instances, &mut self.instances);
    }

    /// Binds the bind group over the buffer at bind-group slot `index`.
    pub fn bind_as_group(&self, index: u32, render_pass: &mut RenderPass)
        ensures
            final(render_pass)@ == old(render_pass)@.plus(
                seq![PassOp::SetBindGroup { index, group: self@.bind_group }],
            ),
    {
        render_pass.set_bind_group(index, self.bind_group);
    }

    /// Makes the buffer vertex stream 1, next to the mesh's own stream 0.
    /// The stream is always 1, whatever `index` is.
    pub fn bind_as_buffer(&self, index: u32, render_pass: &mut RenderPass)
        ensures
            final(render_pass)@ == old(render_pass)@.plus(
                seq![PassOp::SetVertexBuffer { slot: 1, buffer: self@.buffer }],
            ),
    {
        render_pass.set_vertex_buffer(1, self.buffer);
    }
}

} // verus!
