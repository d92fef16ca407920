use minirender::device::{
    BlendState, ColorTargetState, ColorWrites, DepthFunction, DepthStencilState, Device, Face,
    FrontFace, MultisampleState, PipelineLayoutId, PolygonMode, PrimitiveState, PrimitiveTopology,
    RenderPipelineDescriptor, RenderPipelineId, Request, TexelFormat,
};
use minirender::pipeline::{Pipeline, PipelineSettings};
use minirender::render_graph::{DrawCommand, ResourceHandle, ResourceType};
use minirender::render_pass::{LoadOp, PassOp, RenderPass};
use minirender::types::{Instance, Material, Vertex};

fn texture(id: &str) -> ResourceHandle {
    ResourceHandle::new(id.to_string(), ResourceType::Texture)
}

fn primitive() -> PrimitiveState {
    PrimitiveState {
        topology: PrimitiveTopology::TriangleList,
        strip_index_format: None,
        front_face: FrontFace::Ccw,
        cull_mode: Some(Face::Back),
        unclipped_depth: false,
        polygon_mode: PolygonMode::Fill,
        conservative: false,
    }
}

fn multisample() -> MultisampleState {
    MultisampleState { count: 1, mask: u64::MAX, alpha_to_coverage_enabled: false }
}

fn depth_state() -> DepthStencilState {
    DepthStencilState {
        format: TexelFormat::Depth32Float,
        depth_write_enabled: true,
        depth_test: DepthFunction::Less,
    }
}

#[test]
fn default_settings_have_no_depth_test() {
    let settings = PipelineSettings::default();
    assert_eq!(
        settings,
        PipelineSettings {
            primitive_mode: primitive(),
            depth_stencil: None,
            multisample: multisample(),
            multiview: None,
        }
    );
    assert_eq!(
        settings.enable_depth_stencil(),
        PipelineSettings {
            primitive_mode: primitive(),
            depth_stencil: Some(depth_state()),
            multisample: multisample(),
            multiview: None,
        }
    );
}

#[test]
fn pipeline_is_built_from_layout_and_descriptor() {
    for use_depth in [false, true] {
        let mut device = Device::new();
        let shader = device.create_shader_module("s.wgsl".to_string(), "code".to_string());
        let layouts = vec![
            minirender::device::BindGroupLayoutId { index: 7 },
            minirender::device::BindGroupLayoutId { index: 3 },
        ];
        let pipeline = Pipeline::new(
            &mut device,
            shader,
            layouts.clone(),
            vec![Vertex::desc(), Instance::desc()],
            use_depth,
        );
        assert_eq!(pipeline.pipeline, RenderPipelineId { index: 2 });
        assert_eq!(
            device.requests()[1],
            Request::CreatePipelineLayout { bind_group_layouts: layouts }
        );
        assert_eq!(
            device.requests()[2],
            Request::CreateRenderPipeline {
                descriptor: RenderPipelineDescriptor {
                    layout: PipelineLayoutId { index: 1 },
                    shader,
                    vertex_entry_point: "vert_main".to_string(),
                    fragment_entry_point: "frag_main".to_string(),
                    vertex_buffers: vec![Vertex::desc(), Instance::desc()],
                    target: ColorTargetState {
                        format: TexelFormat::Bgra8UnormSrgb,
                        blend: Some(BlendState::AlphaBlending),
                        write_mask: ColorWrites { red: true, green: true, blue: true, alpha: true },
                    },
                    primitive: primitive(),
                    depth_stencil: if use_depth { Some(depth_state()) } else { None },
                    multisample: multisample(),
                    multiview: None,
                },
            }
        );
        let mut pass = RenderPass::begin("p".to_string(), LoadOp::Clear, None);
        pipeline.bind_pipeline(&mut pass);
        assert_eq!(pass.ops(), &vec![PassOp::SetPipeline(RenderPipelineId { index: 2 })]);
    }
}

#[test]
fn material_binds_albedo_then_normal_map() {
    let both = Material::new(
        "both".to_string(),
        Some(ResourceHandle::new("base".to_string(), ResourceType::Material)),
        [1, 2, 3, 4],
        5,
        [6, 7, 8],
        Some(texture("albedo.png")),
        Some(texture("normal.png")),
    );
    assert!(!both.is_base());
    assert_eq!(
        both.generate_draw_commands(),
        vec![
            DrawCommand::BindTexture(0, texture("albedo.png")),
            DrawCommand::BindTexture(1, texture("normal.png")),
        ]
    );
    let normal_only =
        Material::new_base("n".to_string(), [0; 4], 0, [0; 3], None, Some(texture("normal.png")));
    assert!(normal_only.is_base());
    assert_eq!(
        normal_only.generate_draw_commands(),
        vec![DrawCommand::BindTexture(1, texture("normal.png"))]
    );
    let albedo_only =
        Material::new_base("a".to_string(), [0; 4], 0, [0; 3], Some(texture("albedo.png")), None);
    assert_eq!(
        albedo_only.generate_draw_commands(),
        vec![DrawCommand::BindTexture(0, texture("albedo.png"))]
    );
    let bare = Material::new_base("bare".to_string(), [0; 4], 0, [0; 3], None, None);
    assert!(bare.generate_draw_commands().is_empty());
    assert_eq!(bare.color, [0; 4]);
    assert_eq!(both.color, [1, 2, 3, 4]);
    assert_eq!(both.roughness, 5);
    assert_eq!(both.specular, [6, 7, 8]);
    assert!(both.pipeline.is_none());
}

#[test]
fn materials_are_told_apart_by_name() {
    let a = Material::new_base("steel".to_string(), [0; 4], 0, [0; 3], None, None);
    let b = Material::new_base("steel".to_string(), [9; 4], 1, [2; 3], Some(texture("t")), None);
    let c = Material::new_base("wood".to_string(), [0; 4], 0, [0; 3], None, None);
    assert!(a == b);
    assert!(a != c);
}

#[test]
fn material_pipeline_is_bound_once_built() {
    let mut device = Device::new();
    let shader = device.create_shader_module("m.wgsl".to_string(), "code".to_string());
    let mut material = Material::new_base("m".to_string(), [0; 4], 0, [0; 3], None, None);
    let mut pass = RenderPass::begin("m".to_string(), LoadOp::Load, None);
    material.bind_pipeline(&mut pass);
    assert!(pass.ops().is_empty());
    material.build_material(&mut device, shader, vec![], vec![Vertex::desc()], true);
    assert_eq!(material.pipeline, Some(Pipeline { pipeline: RenderPipelineId { index: 2 } }));
    material.bind_pipeline(&mut pass);
    assert_eq!(pass.ops(), &vec![PassOp::SetPipeline(RenderPipelineId { index: 2 })]);
    assert_eq!(material.name, "m");
}
