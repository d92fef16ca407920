//! The logical graphics device.
//!
//! Nothing in this library drives a graphics device. Every object that the
//! renderer needs is asked for by appending a [`Request`] to the log of a
//! [`Device`]; the object's id is the position of that request in the log. A
//! backend walks the log in order and creates the real objects.

use vstd::prelude::*;
use crate::bytes::{native_image, words_to_bytes};
use crate::types::vertex::{VertexBufferLayout, VertexBufferLayoutView, layouts_view};

verus! {

/// Names a buffer by the position of the request that creates it.
#[derive(Clone, Copy, Debug, PartialEq, Eq, Structural, Hash)]
pub struct BufferId {
    pub index: usize,
}

/// Names a texture, together with its default view and its sampler.
#[derive(Clone, Copy, Debug, PartialEq, Eq, Structural, Hash)]
pub struct TextureId {
    pub index: usize,
}

/// Names a bind-group layout.
#[derive(Clone, Copy, Debug, PartialEq, Eq, Structural, Hash)]
pub struct BindGroupLayoutId {
    pub index: usize,
}

/// Names a bind group.
#[derive(Clone, Copy, Debug, PartialEq, Eq, Structural, Hash)]
pub struct BindGroupId {
    pub index: usize,
}

/// Names a shader module.
#[derive(Clone, Copy, Debug, PartialEq, Eq, Structural, Hash)]
pub struct ShaderModuleId {
    pub index: usize,
}

/// Names a pipeline layout.
#[derive(Clone, Copy, Debug, PartialEq, Eq, Structural, Hash)]
pub struct PipelineLayoutId {
    pub index: usize,
}

/// Names a render pipeline.
#[derive(Clone, Copy, Debug, PartialEq, Eq, Structural, Hash)]
pub struct RenderPipelineId {
    pub index: usize,
}

/// What a buffer may be used for.
#[derive(Clone, Copy, Debug, PartialEq, Eq, Structural)]
pub struct BufferUsages {
    pub vertex: bool,
    pub index: bool,
    pub uniform: bool,
    pub storage: bool,
    pub indirect: bool,
    pub copy_dst: bool,
}

/// What a buffer is filled with: bytes as they are, or 32-bit words that the
/// backend lays out in the machine's byte order.
#[derive(Clone, Debug, PartialEq, Eq)]
pub enum BufferContents {
    Bytes(Vec<u8>),
    Words(Vec<u32>),
}

pub enum ContentsView {
    Bytes(Seq<u8>),
    Words(Seq<u32>),
}

impl View for BufferContents {
    type V = ContentsView;

    open spec fn view(&self) -> ContentsView {
        match *self {
            BufferContents::Bytes(b) => ContentsView::Bytes(b@),
            BufferContents::Words(w) => ContentsView::Words(w@),
        }
    }
}

impl ContentsView {
    /// The number of bytes that the contents take in a buffer.
    pub open spec fn byte_len(self) -> nat {
        match self {
            ContentsView::Bytes(b) => b.len(),
            ContentsView::Words(w) => 4 * w.len(),
        }
    }

    /// `bytes` is what a backend uploads for these contents.
    pub open spec fn uploads(self, bytes: Seq<u8>) -> bool {
        match self {
            ContentsView::Bytes(b) => bytes == b,
            ContentsView::Words(w) => native_image(w, bytes),
        }
    }
}

impl BufferContents {
    /// The bytes to upload.
    pub fn as_bytes(&self) -> (bytes: Vec<u8>)
        ensures
            self@.uploads(bytes@),
            bytes@.len() == self@.byte_len(),
    {
        match self {
            BufferContents::Bytes(b) => b.clone(),
            BufferContents::Words(w) => words_to_bytes(w),
        }
    }
}

/// The shader stages that can see a binding.
#[derive(Clone, Copy, Debug, PartialEq, Eq, Structural)]
pub struct ShaderStages {
    pub vertex: bool,
    pub fragment: bool,
}

/// How a shader sees a bound buffer.
#[derive(Clone, Copy, Debug, PartialEq, Eq, Structural)]
pub enum BufferBindingType {
    Uniform,
    Storage { read_only: bool },
}

/// The kind of resource behind a binding.
#[derive(Clone, Copy, Debug, PartialEq, Eq, Structural)]
pub enum BindingType {
    Buffer { ty: BufferBindingType, has_dynamic_offset: bool, min_binding_size: Option<u64> },
    /// A two-dimensional, filterable, single-sampled colour texture.
    Texture,
    /// A filtering sampler.
    Sampler,
}

/// One slot of a bind-group layout.
#[derive(Clone, Copy, Debug, PartialEq, Eq, Structural)]
pub struct BindGroupLayoutEntry {
    pub binding: u32,
    pub visibility: ShaderStages,
    pub ty: BindingType,
    pub count: Option<u32>,
}

/// What is bound at a slot of a bind group.
#[derive(Clone, Copy, Debug, PartialEq, Eq, Structural)]
pub enum BindingResource {
    Buffer { buffer: BufferId, offset: u64, size: Option<u64> },
    TextureView(TextureId),
    Sampler(TextureId),
}

/// One slot of a bind group.
#[derive(Clone, Copy, Debug, PartialEq, Eq, Structural)]
pub struct BindGroupEntry {
    pub binding: u32,
    pub resource: BindingResource,
}

/// The texel formats that the renderer uses.
#[derive(Clone, Copy, Debug, PartialEq, Eq, Structural)]
pub enum TexelFormat {
    Rgba8UnormSrgb,
    Bgra8UnormSrgb,
    Depth32Float,
}

/// How vertices are assembled into primitives.
#[derive(Clone, Copy, Debug, PartialEq, Eq, Structural)]
pub enum PrimitiveTopology {
    PointList,
    LineList,
    LineStrip,
    TriangleList,
    TriangleStrip,
}

/// The winding of a front face.
#[derive(Clone, Copy, Debug, PartialEq, Eq, Structural)]
pub enum FrontFace {
    Ccw,
    Cw,
}

/// A side of a triangle.
#[derive(Clone, Copy, Debug, PartialEq, Eq, Structural)]
pub enum Face {
    Front,
    Back,
}

/// How polygons are rasterised.
#[derive(Clone, Copy, Debug, PartialEq, Eq, Structural)]
pub enum PolygonMode {
    Fill,
    Line,
    Point,
}

/// The width of the indices of an index buffer.
#[derive(Clone, Copy, Debug, PartialEq, Eq, Structural)]
pub enum IndexFormat {
    Uint16,
    Uint32,
}

/// Primitive assembly and rasterisation state of a pipeline.
#[derive(Clone, Copy, Debug, PartialEq, Eq, Structural)]
pub struct PrimitiveState {
    pub topology: PrimitiveTopology,
    pub strip_index_format: Option<IndexFormat>,
    pub front_face: FrontFace,
    pub cull_mode: Option<Face>,
    pub unclipped_depth: bool,
    pub polygon_mode: PolygonMode,
    pub conservative: bool,
}

/// The test that a new depth value must pass against the stored one.
#[derive(Clone, Copy, Debug, PartialEq, Eq, Structural)]
pub enum DepthFunction {
    Never,
    Less,
    Equal,
    LessEqual,
    Greater,
    NotEqual,
    GreaterEqual,
    Always,
}

/// Depth state of a pipeline. There is no stencil test and no depth bias.
#[derive(Clone, Copy, Debug, PartialEq, Eq, Structural)]
pub struct DepthStencilState {
    pub format: TexelFormat,
    pub depth_write_enabled: bool,
    pub depth_test: DepthFunction,
}

/// Multisampling state of a pipeline.
#[derive(Clone, Copy, Debug, PartialEq, Eq, Structural)]
pub struct MultisampleState {
    pub count: u32,
    pub mask: u64,
    pub alpha_to_coverage_enabled: bool,
}

/// How a fragment is combined with what the target holds.
#[derive(Clone, Copy, Debug, PartialEq, Eq, Structural)]
pub enum BlendState {
    Replace,
    AlphaBlending,
}

/// The colour channels that a pipeline writes.
#[derive(Clone, Copy, Debug, PartialEq, Eq, Structural)]
pub struct ColorWrites {
    pub red: bool,
    pub green: bool,
    pub blue: bool,
    pub alpha: bool,
}

/// The one colour target of a pipeline.
#[derive(Clone, Copy, Debug, PartialEq, Eq, Structural)]
pub struct ColorTargetState {
    pub format: TexelFormat,
    pub blend: Option<BlendState>,
    pub write_mask: ColorWrites,
}

/// Everything that fixes a render pipeline.
#[derive(Clone, Debug, PartialEq, Eq)]
pub struct RenderPipelineDescriptor {
    pub layout: PipelineLayoutId,
    pub shader: ShaderModuleId,
    pub vertex_entry_point: String,
    pub fragment_entry_point: String,
    pub vertex_buffers: Vec<VertexBufferLayout>,
    pub target: ColorTargetState,
    pub primitive: PrimitiveState,
    pub depth_stencil: Option<DepthStencilState>,
    pub multisample: MultisampleState,
    pub multiview: Option<u32>,
}

pub struct RenderPipelineDescriptorView {
    pub layout: PipelineLayoutId,
    pub shader: ShaderModuleId,
    pub vertex_entry_point: Seq<char>,
    pub fragment_entry_point: Seq<char>,
    pub vertex_buffers: Seq<VertexBufferLayoutView>,
    pub target: ColorTargetState,
    pub primitive: PrimitiveState,
    pub depth_stencil: Option<DepthStencilState>,
    pub multisample: MultisampleState,
    pub multiview: Option<u32>,
}

impl View for RenderPipelineDescriptor {
    type V = RenderPipelineDescriptorView;

    open spec fn view(&self) -> RenderPipelineDescriptorView {
        RenderPipelineDescriptorView {
            layout: self.layout,
            shader: self.shader,
            vertex_entry_point: self.vertex_entry_point@,
            fragment_entry_point: self.fragment_entry_point@,
            vertex_buffers: layouts_view(self.vertex_buffers@),
            target: self.target,
            primitive: self.primitive,
            depth_stencil: self.depth_stencil,
            multisample: self.multisample,
            multiview: self.multiview,
        }
    }
}

/// One thing asked of the graphics device.
#[derive(Clone, Debug, PartialEq, Eq)]
pub enum Request {
    /// A buffer that starts out holding `contents`.
    CreateBuffer { contents: BufferContents, usage: BufferUsages },
    /// Overwrite part of a buffer, from byte `offset` on.
    WriteBuffer { buffer: BufferId, offset: u64, data: BufferContents },
    /// A two-dimensional texture with its view and sampler. `pixels` is
    /// empty where the texture starts out undefined.
    CreateTexture { width: u32, height: u32, format: TexelFormat, pixels: Vec<u8> },
    CreateBindGroupLayout { entries: Vec<BindGroupLayoutEntry> },
    CreateBindGroup { layout: BindGroupLayoutId, bindings: Vec<BindGroupEntry> },
    /// A shader module compiled from `source`, which was read from `path`.
    CreateShaderModule { path: String, source: String },
    /// A pipeline layout without push constants.
    CreatePipelineLayout { bind_group_layouts: Vec<BindGroupLayoutId> },
    CreateRenderPipeline { descriptor: RenderPipelineDescriptor },
}

pub enum RequestView {
    CreateBuffer { contents: ContentsView, usage: BufferUsages },
    WriteBuffer { buffer: BufferId, offset: u64, data: ContentsView },
    CreateTexture { width: u32, height: u32, format: TexelFormat, pixels: Seq<u8> },
    CreateBindGroupLayout { entries: Seq<BindGroupLayoutEntry> },
    CreateBindGroup { layout: BindGroupLayoutId, bindings: Seq<BindGroupEntry> },
    CreateShaderModule { path: Seq<char>, source: Seq<char> },
    CreatePipelineLayout { bind_group_layouts: Seq<BindGroupLayoutId> },
    CreateRenderPipeline { descriptor: RenderPipelineDescriptorView },
}

impl View for Request {
    type V = RequestView;

    open spec fn view(&self) -> RequestView {
        match *self {
            Request::CreateBuffer { contents, usage } => RequestView::CreateBuffer {
                contents: contents@,
                usage,
            },
            Request::WriteBuffer { buffer, offset, data } => RequestView::WriteBuffer {
                buffer,
                offset,
                data: data@,
            },
            Request::CreateTexture { width, height, format, pixels } => RequestView::CreateTexture {
                width,
                height,
                format,
                pixels: pixels@,
            },
            Request::CreateBindGroupLayout { entries } => RequestView::CreateBindGroupLayout {
                entries: entries@,
            },
            Request::CreateBindGroup { layout, bindings } => RequestView::CreateBindGroup {
                layout,
                bindings: bindings@,
            },
            Request::CreateShaderModule { path, source } => RequestView::CreateShaderModule {
                path: path@,
                source: source@,
            },
            Request::CreatePipelineLayout { bind_group_layouts } => RequestView::CreatePipelineLayout {
                bind_group_layouts: bind_group_layouts@,
            },
            Request::CreateRenderPipeline { descriptor } => RequestView::CreateRenderPipeline {
                descriptor: descriptor@,
            },
        }
    }
}

/// The views of a run of requests.
pub open spec fn requests_view(log: Seq<Request>) -> Seq<RequestView> {
    log.map_values(|r: Request| r@)
}

/// The log of everything asked of the graphics device so far.
pub struct Device {
    log: Vec<Request>,
}

impl View for Device {
    type V = Seq<RequestView>;

    closed spec fn view(&self) -> Seq<RequestView> {
        requests_view(self.log@)
    }
}

impl Device {
    /// A device of which nothing has been asked.
    pub fn new() -> (d: Device)
        ensures
            d@ == Seq::<RequestView>::empty(),
    {
        let d = Device { log: Vec::new() };
        assert(d@ =~= Seq::<RequestView>::empty());
        d
    }

    /// The number of requests made so far, which is the id of the next object.
    pub fn len(&self) -> (n: usize)
        ensures
            n == self@.len(),
    {
        self.log.len()
    }

    /// The requests made so far, oldest first.
    pub fn requests(&self) -> (log: &Vec<Request>)
        ensures
            requests_view(log@) == self@,
    {
        &self.log
    }

    fn push(&mut self, request: Request) -> (index: usize)
        ensures
            index == old(self)@.len(),
            final(self)@ == old(self)@.push(request@),
    {
        let index = self.log.len();
        self.log.push(request);
        assert(self@ =~= old(self)@.push(request@));
        index
    }

    /// Asks for a buffer that starts out holding `contents`.
    pub fn create_buffer_init(&mut self, contents: BufferContents, usage: BufferUsages) -> (id:
        BufferId)
        ensures
            id.index == old(self)@.len(),
            final(self)@ == old(self)@.push(
                RequestView::CreateBuffer { contents: contents@, usage },
            ),
    {
        BufferId { index: self.push(Request::CreateBuffer { contents, usage }) }
    }

    /// Asks for `data` to be written into `buffer` from byte `offset` on.
    pub fn write_buffer(&mut self, buffer: BufferId, offset: u64, data: BufferContents)
        ensures
            final(self)@ == old(self)@.push(
                RequestView::WriteBuffer { buffer, offset, data: data@ },
            ),
    {
        self.push(Request::WriteBuffer { buffer, offset, data });
    }

    /// Asks for a texture of the given size and format.
    pub fn create_texture(
        &mut self,
        width: u32,
        height: u32,
        format: TexelFormat,
        pixels: Vec<u8>,
    ) -> (id: TextureId)
        ensures
            id.index == old(self)@.len(),
            final(self)@ == old(self)@.push(
                RequestView::CreateTexture { width, height, format, pixels: pixels@ },
            ),
    {
        TextureId { index: self.push(Request::CreateTexture { width, height, format, pixels }) }
    }

    /// Asks for a bind-group layout with the given slots.
    pub fn create_bind_group_layout(&mut self, entries: Vec<BindGroupLayoutEntry>) -> (id:
        BindGroupLayoutId)
        ensures
            id.index == old(self)@.len(),
            final(self)@ == old(self)@.push(
                RequestView::CreateBindGroupLayout { entries: entries@ },
            ),
    {
        BindGroupLayoutId { index: self.push(Request::CreateBindGroupLayout { entries }) }
    }

    /// Asks for a bind group that fills the slots of `layout`.
    pub fn create_bind_group(&mut self, layout: BindGroupLayoutId, bindings: Vec<BindGroupEntry>) -> (id:
        BindGroupId)
        ensures
            id.index == old(self)@.len(),
            final(self)@ == old(self)@.push(
                RequestView::CreateBindGroup { layout, bindings: bindings@ },
            ),
    {
        BindGroupId { index: self.push(Request::CreateBindGroup { layout, bindings }) }
    }

    /// Asks for a shader module compiled from `source`.
    pub fn create_shader_module(&mut self, path: String, source: String) -> (id: ShaderModuleId)
        ensures
            id.index == old(self)@.len(),
            final(self)@ == old(self)@.push(
                RequestView::CreateShaderModule { path: path@, source: source@ },
            ),
    {
        ShaderModuleId { index: self.push(Request::CreateShaderModule { path, source }) }
    }

    /// Asks for a pipeline layout over the given bind-group layouts.
    pub fn create_pipeline_layout(&mut self, bind_group_layouts: Vec<BindGroupLayoutId>) -> (id:
        PipelineLayoutId)
        ensures
            id.index == old(self)@.len(),
            final(self)@ == old(self)@.push(
                RequestView::CreatePipelineLayout { bind_group_layouts: bind_group_layouts@ },
            ),
    {
        PipelineLayoutId { index: self.push(Request::CreatePipelineLayout { bind_group_layouts }) }
    }

    /// Asks for a render pipeline.
    pub fn create_render_pipeline(&mut self, descriptor: RenderPipelineDescriptor) -> (id:
        RenderPipelineId)
        ensures
            id.index == old(self)@.len(),
            final(self)@ == old(self)@.push(
                RequestView::CreateRenderPipeline { descriptor: descriptor@ },
            ),
    {
        RenderPipelineId { index: self.push(Request::CreateRenderPipeline { descriptor }) }
    }
}

} // verus!
