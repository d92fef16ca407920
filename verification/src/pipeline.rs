//! The pipeline builder: from a shader, bind-group layouts and vertex
//! layouts to one immutable render pipeline.

use vstd::prelude::*;
use crate::device::{
    BindGroupLayoutId, BlendState, ColorTargetState, ColorWrites, DepthFunction,
    DepthStencilState, Device, Face, FrontFace, MultisampleState, PolygonMode, PrimitiveState,
    PrimitiveTopology, RenderPipelineDescriptor, RenderPipelineDescriptorView, RenderPipelineId,
    PipelineLayoutId, RequestView, ShaderModuleId, TexelFormat,
};
use crate::render_pass::{PassOp, RenderPass};
use crate::types::vertex::{layouts_view, VertexBufferLayout, VertexBufferLayoutView};

verus! {

/// The fixed-function state of a pipeline.
#[derive(Clone, Copy, Debug, PartialEq, Eq, Structural)]
pub struct PipelineSettings {
    pub primitive_mode: PrimitiveState,
    pub depth_stencil: Option<DepthStencilState>,
    pub multisample: MultisampleState,
    pub multiview: Option<u32>,
}

impl PipelineSettings {
    /// Filled triangle lists, counter-clockwise front faces, back faces
    /// culled; no depth test; one sample per pixel; no multiview.
    pub open spec fn spec_default() -> PipelineSettings {
        PipelineSettings {
            primitive_mode: PrimitiveState {
                topology: PrimitiveTopology::TriangleList,
                strip_index_format: None,
                front_face: FrontFace::Ccw,
                cull_mode: Some(Face::Back),
                unclipped_depth: false,
                polygon_mode: PolygonMode::Fill,
                conservative: false,
            },
            depth_stencil: None,
            multisample: MultisampleState {
                count: 1,
                mask: 0xffff_ffff_ffff_ffff,
                alpha_to_coverage_enabled: false,
            },
            multiview: None,
        }
    }

    /// A depth test on a 32-bit float depth target: a fragment passes if it
    /// is nearer than what is stored, and then its depth is written.
    pub open spec fn depth_state() -> DepthStencilState {
        DepthStencilState {
            format: TexelFormat::Depth32Float,
            depth_write_enabled: true,
            depth_test: DepthFunction::Less,
        }
    }

    /// The settings of a pipeline that tests depth if and only if `use_depth`.
    pub open spec fn for_depth(use_depth: bool) -> PipelineSettings {
        PipelineSettings {
            depth_stencil: if use_depth {
                Some(Self::depth_state())
            } else {
                None
            },
            ..Self::spec_default()
        }
    }

    /// The same settings with the depth test switched on.
    pub fn enable_depth_stencil(self) -> (settings: PipelineSettings)
        ensures
            settings == (PipelineSettings { depth_stencil: Some(Self::depth_state()), ..self }),
    {
        PipelineSettings {
            primitive_mode: self.primitive_mode,
            depth_stencil: Some(
                DepthStencilState {
                    format: TexelFormat::Depth32Float,
                    depth_write_enabled: true,
                    depth_test: DepthFunction::Less,
                },
            ),
            multisample: self.multisample,
            multiview: self.multiview,
        }
    }
}

impl Default for PipelineSettings {
    fn default() -> (settings: PipelineSettings)
        ensures
            settings == PipelineSettings::spec_default(),
    {
        PipelineSettings {
            primitive_mode: PrimitiveState {
                topology: PrimitiveTopology::TriangleList,
                strip_index_format: None,
                front_face: FrontFace::Ccw,
                cull_mode: Some(Face::Back),
                unclipped_depth: false,
                polygon_mode: PolygonMode::Fill,
                conservative: false,
            },
            depth_stencil: None,
            multisample: MultisampleState {
                count: 1,
                mask: 0xffff_ffff_ffff_ffff,
                alpha_to_coverage_enabled: false,
            },
            multiview: None,
        }
    }
}

/// The one colour target of every pipeline: the swapchain's sRGB format,
/// alpha blending, all channels written.
pub open spec fn color_target() -> ColorTargetState {
    ColorTargetState {
        format: TexelFormat::Bgra8UnormSrgb,
        blend: Some(BlendState::AlphaBlending),
        write_mask: ColorWrites { red: true, green: true, blue: true, alpha: true },
    }
}

/// The descriptor of the pipeline that is built from the given parts.
pub open spec fn pipeline_descriptor(
    layout: PipelineLayoutId,
    shader: ShaderModuleId,
    vertex_buffers: Seq<VertexBufferLayoutView>,
    use_depth: bool,
) -> RenderPipelineDescriptorView {
    let settings = PipelineSettings::for_depth(use_depth);
    RenderPipelineDescriptorView {
        layout,
        shader,
        vertex_entry_point: "vert_main"@,
        fragment_entry_point: "frag_main"@,
        vertex_buffers,
        target: color_target(),
        primitive: settings.primitive_mode,
        depth_stencil: settings.depth_stencil,
        multisample: settings.multisample,
        multiview: settings.multiview,
    }
}

/// The two requests that build a pipeline, when the first of them is
/// request number `at`: a pipeline layout over the bind-group layouts, then the pipeline.
pub open spec fn pipeline_requests(
    shader: ShaderModuleId,
    bind_group_layouts: Seq<BindGroupLayoutId>,
    vertex_buffers: Seq<VertexBufferLayoutView>,
    use_depth: bool,
    at: nat,
) -> Seq<RequestView> {
    seq![
        RequestView::CreatePipelineLayout { bind_group_layouts },
        RequestView::CreateRenderPipeline {
            descriptor: pipeline_descriptor(
                PipelineLayoutId { index: at as usize },
                shader,
                vertex_buffers,
                use_depth,
            ),
        },
    ]
}

/// A built render pipeline. It is never changed; another pipeline is another object.
#[derive(Clone, Copy, Debug, PartialEq, Eq, Structural)]
pub struct Pipeline {
    pub pipeline: RenderPipelineId,
}

impl Pipeline {
    /// Builds the pipeline of `shader` over the given bind-group layouts
    /// and vertex layouts, with a depth test if and only if `use_depth`.
    pub fn new(
        device: &mut Device,
        shader: ShaderModuleId,
        bind_group_layouts: Vec<BindGroupLayoutId>,
        vertex_buffer_layouts: Vec<VertexBufferLayout>,
        use_depth: bool,
    ) -> (pipeline: Pipeline)
        ensures
            final(device)@ == old(device)@ + pipeline_requests(
                shader,
                bind_group_layouts@,
                layouts_view(vertex_buffer_layouts@),
                use_depth,
                old(device)@.len(),
            ),
            pipeline.pipeline.index == old(device)@.len() + 1,
    {
        let ghost layouts = bind_group_layouts@;
        let layout = Self::create_layout(device, bind_group_layouts);
        let pipeline = Self::create_pipeline(
            device,
            layout,
            shader,
            vertex_buffer_layouts,
            use_depth,
        );
        proof {
            assert(device@ =~= old(device)@ + pipeline_requests(
                shader,
                layouts,
                layouts_view(vertex_buffer_layouts@),
                use_depth,
                old(device)@.len(),
            ));
        }
        Pipeline { pipeline }
    }

    /// Makes the pipeline the current one of `render_pass`.
    pub fn bind_pipeline(&self, render_pass: &mut RenderPass)
        ensures
            final(render_pass)@ == old(render_pass)@.plus(
                seq![PassOp::SetPipeline(self.pipeline)],
            ),
    {
        render_pass.set_pipeline(self.pipeline);
    }

    fn create_layout(device: &mut Device, bind_group_layouts: Vec<BindGroupLayoutId>) -> (layout:
        PipelineLayoutId)
        ensures
            final(device)@ == old(device)@.push(
                RequestView::CreatePipelineLayout { bind_group_layouts: bind_group_layouts@ },
            ),
            layout.index == old(device)@.len(),
    {
        device.create_pipeline_layout(bind_group_layouts)
    }

    fn create_pipeline(
        device: &mut Device,
        layout: PipelineLayoutId,
        shader: ShaderModuleId,
        vertex_buffer_layouts: Vec<VertexBufferLayout>,
        use_depth: bool,
    ) -> (pipeline: RenderPipelineId)
        ensures
            final(device)@ == old(device)@.push(
                RequestView::CreateRenderPipeline {
                    descriptor: pipeline_descriptor(
                        layout,
                        shader,
                        layouts_view(vertex_buffer_layouts@),
                        use_depth,
                    ),
                },
            ),
            pipeline.index == old(device)@.len(),
    {
        let mut pipeline_settings = PipelineSettings::default();
        if use_depth {
            pipeline_settings = pipeline_settings.enable_depth_stencil();
        }
        let descriptor = RenderPipelineDescriptor {
            layout,
            shader,
            vertex_entry_point: "vert_main".to_owned(),
            fragment_entry_point: "frag_main".to_owned(),
            vertex_buffers: vertex_buffer_layouts,
            target: ColorTargetState {
                format: TexelFormat::Bgra8UnormSrgb,
                blend: Some(BlendState::AlphaBlending),
                write_mask: ColorWrites { red: true, green: true, blue: true, alpha: true },
            },
            primitive: pipeline_settings.primitive_mode,
            depth_stencil: pipeline_settings.depth_stencil,
            multisample: pipeline_settings.multisample,
            multiview: pipeline_settings.multiview,
        };
        device.create_render_pipeline(descriptor)
    }
}

} // verus!
