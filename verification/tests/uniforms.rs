use minirender::device::{
    BindGroupEntry, BindGroupLayoutEntry, BindGroupLayoutId, BindingResource, BindingType,
    BufferBindingType, BufferContents, BufferId, BufferUsages, Device, Request, ShaderStages,
};
use minirender::render_pass::{LoadOp, PassOp, RenderPass};
use minirender::types::uniform_buffer::{Uniform, UniformBuffer, UniformError};
use minirender::types::uniform_set::UniformSet;
use minirender::Handle;

struct Payload(Vec<u8>);

impl Uniform for Payload {
    fn to_wgpu(&self) -> Vec<u8> {
        self.0.clone()
    }
}

fn uniform_usage() -> BufferUsages {
    BufferUsages {
        vertex: false,
        index: false,
        uniform: true,
        storage: false,
        indirect: false,
        copy_dst: true,
    }
}

fn uniform_slot(binding: u32) -> BindGroupLayoutEntry {
    BindGroupLayoutEntry {
        binding,
        visibility: ShaderStages { vertex: true, fragment: true },
        ty: BindingType::Buffer {
            ty: BufferBindingType::Uniform,
            has_dynamic_offset: false,
            min_binding_size: None,
        },
        count: None,
    }
}

fn bound(binding: u32, buffer: usize) -> BindGroupEntry {
    BindGroupEntry {
        binding,
        resource: BindingResource::Buffer {
            buffer: BufferId { index: buffer },
            offset: 0,
            size: None,
        },
    }
}

#[test]
fn uniform_buffer_is_created_with_its_payload() {
    let mut device = Device::new();
    let buffer = UniformBuffer::new(&mut device, &Payload(vec![1, 2, 3, 4]));
    assert_eq!(buffer.buffer(), BufferId { index: 0 });
    assert_eq!(buffer.size(), 4);
    assert_eq!(
        device.requests(),
        &vec![Request::CreateBuffer {
            contents: BufferContents::Bytes(vec![1, 2, 3, 4]),
            usage: uniform_usage(),
        }]
    );
}

#[test]
fn uniform_update_of_the_same_length_is_written() {
    let mut device = Device::new();
    let buffer = UniformBuffer::with_payload(&mut device, vec![0; 8]);
    assert_eq!(buffer.update(&mut device, &Payload(vec![7; 8])), Ok(()));
    assert_eq!(device.len(), 2);
    assert_eq!(
        device.requests()[1],
        Request::WriteBuffer {
            buffer: BufferId { index: 0 },
            offset: 0,
            data: BufferContents::Bytes(vec![7; 8]),
        }
    );
}

#[test]
fn uniform_update_of_another_length_is_refused() {
    let mut device = Device::new();
    let buffer = UniformBuffer::with_payload(&mut device, vec![0; 8]);
    assert_eq!(
        buffer.update(&mut device, &Payload(vec![7; 7])),
        Err(UniformError::SizeMismatch { expected: 8, found: 7 })
    );
    assert_eq!(
        buffer.write(&mut device, vec![7; 9]),
        Err(UniformError::SizeMismatch { expected: 8, found: 9 })
    );
    assert_eq!(
        buffer.write(&mut device, vec![]),
        Err(UniformError::SizeMismatch { expected: 8, found: 0 })
    );
    assert_eq!(device.len(), 1);
}

#[test]
fn empty_uniform_accepts_only_empty_payloads() {
    let mut device = Device::new();
    let buffer = UniformBuffer::with_payload(&mut device, vec![]);
    assert_eq!(buffer.write(&mut device, vec![]), Ok(()));
    assert_eq!(
        buffer.write(&mut device, vec![1]),
        Err(UniformError::SizeMismatch { expected: 0, found: 1 })
    );
}

#[test]
fn uniform_set_binds_its_buffers_densely_in_insertion_order() {
    let mut device = Device::new();
    let first = UniformBuffer::with_payload(&mut device, vec![1; 4]);
    let mut set = UniformSet::new(&mut device, vec![Handle::new(first)]);
    assert_eq!(set.bind_group_layout, BindGroupLayoutId { index: 1 });
    assert_eq!(set.bind_group.index, 2);
    let mut ids = vec![first.buffer().index];
    for n in 2..=5usize {
        let next = UniformBuffer::with_payload(&mut device, vec![n as u8; 4]);
        ids.push(next.buffer().index);
        set.add_uniform_buffer(&mut device, next);
        assert_eq!(set.len(), n);
        let log = device.requests();
        assert_eq!(set.bind_group.index, log.len() - 1);
        assert_eq!(set.bind_group_layout.index, log.len() - 2);
        let slots: Vec<BindGroupLayoutEntry> = (0..n as u32).map(uniform_slot).collect();
        assert_eq!(
            log[set.bind_group_layout.index],
            Request::CreateBindGroupLayout { entries: slots }
        );
        let bindings: Vec<BindGroupEntry> =
            (0..n).map(|i| bound(i as u32, ids[i])).collect();
        assert_eq!(
            log[set.bind_group.index],
            Request::CreateBindGroup { layout: set.bind_group_layout, bindings }
        );
    }
    let held: Vec<usize> = set.uniform_buffers.iter().map(|h| h.get().buffer().index).collect();
    assert_eq!(held, ids);
}

#[test]
fn uniform_set_over_no_buffers_has_no_slots() {
    let mut device = Device::new();
    let set = UniformSet::new(&mut device, vec![]);
    assert_eq!(set.len(), 0);
    assert_eq!(
        device.requests(),
        &vec![
            Request::CreateBindGroupLayout { entries: vec![] },
            Request::CreateBindGroup { layout: BindGroupLayoutId { index: 0 }, bindings: vec![] },
        ]
    );
}

#[test]
fn uniform_set_shares_existing_buffers() {
    let mut device = Device::new();
    let shared = Handle::new(UniformBuffer::with_payload(&mut device, vec![0; 16]));
    let mut one = UniformSet::new(&mut device, vec![shared.clone()]);
    let mut two = UniformSet::new(&mut device, vec![]);
    two.add_existing_uniform_buffer(&mut device, shared.clone());
    one.add_existing_uniform_buffer(&mut device, shared);
    assert_eq!(two.uniform_buffers[0].get(), one.uniform_buffers[0].get());
    assert_eq!(one.len(), 2);
    assert_eq!(
        device.requests()[one.bind_group.index],
        Request::CreateBindGroup {
            layout: one.bind_group_layout,
            bindings: vec![bound(0, 0), bound(1, 0)],
        }
    );
}

#[test]
fn uniform_set_binds_at_the_slot_it_is_given() {
    let mut device = Device::new();
    let set = UniformSet::new(&mut device, vec![]);
    let mut pass = RenderPass::begin("pass".to_string(), LoadOp::Load, None);
    set.bind(3, &mut pass);
    assert_eq!(pass.ops(), &vec![PassOp::SetBindGroup { index: 3, group: set.bind_group }]);
}

#[test]
fn handle_shares_one_value() {
    let handle = Handle::new(41u32);
    let other = handle.clone();
    assert_eq!(*handle.get(), 41);
    assert!(std::ptr::eq(handle.get(), other.get()));
}
