//! A buffer that holds one uniform payload.

use vstd::prelude::*;
use crate::device::{BufferContents, BufferId, BufferUsages, ContentsView, Device, RequestView};

verus! {

/// Data that can be handed to a shader as a uniform.
pub trait Uniform {
    /// The payload in the layout that the shader expects.
    fn to_wgpu(&self) -> Vec<u8>;
}

/// Why a uniform buffer refused a payload.
#[derive(Clone, Copy, Debug, PartialEq, Eq, Structural)]
pub enum UniformError {
    /// The payload is not as long as the buffer.
    SizeMismatch { expected: usize, found: usize },
}

/// A buffer that holds one uniform payload. Its length is fixed when it is made.
#[derive(Clone, Copy, Debug, PartialEq, Eq, Structural)]
pub struct UniformBuffer {
    pub buffer: BufferId,
    pub size: usize,
}

impl UniformBuffer {
    /// What a uniform buffer is used for: bound as a uniform, written by the queue.
    pub open spec fn usage() -> BufferUsages {
        BufferUsages {
            vertex: false,
            index: false,
            uniform: true,
            storage: false,
            indirect: false,
            copy_dst: true,
        }
    }

    /// The request that creates a uniform buffer holding `payload`.
    pub open spec fn creation(payload: Seq<u8>) -> RequestView {
        RequestView::CreateBuffer { contents: ContentsView::Bytes(payload), usage: Self::usage() }
    }

    /// The request that overwrites the whole of the buffer with `payload`.
    pub open spec fn overwrite(self, payload: Seq<u8>) -> RequestView {
        RequestView::WriteBuffer {
            buffer: self.buffer,
            offset: 0,
            data: ContentsView::Bytes(payload),
        }
    }

    /// A buffer that holds `payload`.
    pub fn with_payload(device: &mut Device, payload: Vec<u8>) -> (buffer: UniformBuffer)
        ensures
            final(device)@ == old(device)@.push(Self::creation(payload@)),
            buffer.buffer.index == old(device)@.len(),
            buffer.size == payload@.len(),
    {
        let size = payload.len();
        let usage = BufferUsages {
            vertex: false,
            index: false,
            uniform: true,
            storage: false,
            indirect: false,
            copy_dst: true,
        };
        let buffer = device.create_buffer_init(BufferContents::Bytes(payload), usage);
        UniformBuffer { buffer, size }
    }

    /// A buffer that holds the payload of `data`, whatever `data` serialises to.
    pub fn new<T: Uniform>(device: &mut Device, data: &T) -> (buffer: UniformBuffer)
        ensures
            exists|payload: Seq<u8>|
                {
                    &&& final(device)@ == old(device)@.push(#[trigger] Self::creation(payload))
                    &&& buffer.size == payload.len()
                },
            buffer.buffer.index == old(device)@.len(),
    {
        let payload = data.to_wgpu();
        let ghost bytes = payload@;
        let buffer = Self::with_payload(device, payload);
        assert(device@ == old(device)@.push(Self::creation(bytes)));
        buffer
    }

    /// The id of the buffer.
    pub fn buffer(&self) -> (id: BufferId)
        ensures
            id == self.buffer,
    {
        self.buffer
    }

    /// The length in bytes that every payload of this buffer has.
    pub fn size(&self) -> (size: usize)
        ensures
            size == self.size,
    {
        self.size
    }

    /// Overwrites the buffer with `payload`, which must be exactly as long
    /// as the buffer. A payload of another length is refused and nothing is written.
    pub fn write(&self, device: &mut Device, payload: Vec<u8>) -> (r: Result<(), UniformError>)
        ensures
            r is Ok <==> payload@.len() == self.size,
            r is Ok ==> final(device)@ == old(device)@.push(self.overwrite(payload@)),
            r matches Err(e) ==> {
                &&& final(device)@ == old(device)@
                &&& e == (UniformError::SizeMismatch {
                    expected: self.size,
                    found: payload@.len() as usize,
                })
            },
    {
        if payload.len() != self.size {
            return Err(UniformError::SizeMismatch { expected: self.size, found: payload.len() });
        }
        device.write_buffer(self.buffer, 0, BufferContents::Bytes(payload));
        Ok(())
    }

    /// Overwrites the buffer with the payload of `data`. The payload is
    /// refused, and nothing is written, unless it is exactly as long as the buffer.
    pub fn update<T: Uniform>(&self, device: &mut Device, data: &T) -> (r: Result<
        (),
        UniformError,
    >)
        ensures
            r is Ok ==> exists|payload: Seq<u8>|
                {
                    &&& payload.len() == self.size
                    &&& final(device)@ == old(device)@.push(#[trigger] self.overwrite(payload))
                },
            r matches Err(e) ==> {
                &&& final(device)@ == old(device)@
                &&& e matches UniformError::SizeMismatch { expected, found }
                &&& expected == self.size
                &&& found != self.size
            },
    {
        let payload = data.to_wgpu();
        let ghost bytes = payload@;
        assert(bytes.len() == payload.len());
        let r = self.write(device, payload);
        proof {
            if r is Ok {
                assert(device@ == old(device)@.push(self.overwrite(bytes)));
            }
        }
        r
    }
}

} // verus!
