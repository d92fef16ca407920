//! Materials: surface properties and the textures that go with them.

use vstd::prelude::*;
use crate::device::{BindGroupLayoutId, Device, ShaderModuleId};
use crate::pipeline::{pipeline_requests, Pipeline};
use crate::render_graph::commands::{draw_commands_view, DrawCommand, DrawCommandView};
use crate::render_graph::resource_manager::{ResourceHandle, ResourceKey};
use crate::render_pass::{lemma_plus, PassOp, RenderPass};
use crate::types::vertex::{layouts_view, VertexBufferLayout};

verus! {

/// A material. A base material has a pipeline of its own; any other
/// material names the base material that it inherits from. Colour,
/// roughness and specular are bit patterns of 32-bit floats.
#[derive(Debug)]
pub struct Material {
    pub name: String,
    pub base_material: Option<ResourceHandle>,
    pub pipeline: Option<Pipeline>,
    pub color: [u32; 4],
    pub roughness: u32,
    pub specular: [u32; 3],
    pub albedo_texture: Option<ResourceHandle>,
    pub normal_texture: Option<ResourceHandle>,
}

/// The key of a handle that may be missing.
pub open spec fn key_of(handle: Option<ResourceHandle>) -> Option<ResourceKey> {
    match handle {
        Some(handle) => Some(handle@),
        None => None,
    }
}

/// The draw commands that bind the textures of a material: albedo at slot
/// 0, then the normal map at slot 1, each only if the material has it.
pub open spec fn material_commands(
    albedo: Option<ResourceKey>,
    normal: Option<ResourceKey>,
) -> Seq<DrawCommandView> {
    let first = match albedo {
        Some(key) => seq![DrawCommandView::BindTexture(0, key)],
        None => Seq::empty(),
    };
    let second = match normal {
        Some(key) => seq![DrawCommandView::BindTexture(1, key)],
        None => Seq::empty(),
    };
    first + second
}

impl Material {
    /// A material that inherits from `base_material`, if one is given.
    pub fn new(
        name: String,
        base_material: Option<ResourceHandle>,
        color: [u32; 4],
        roughness: u32,
        specular: [u32; 3],
        albedo_texture: Option<ResourceHandle>,
        normal_texture: Option<ResourceHandle>,
    ) -> (material: Material)
        ensures
            material == (Material {
                name,
                base_material,
                pipeline: None,
                color,
                roughness,
                specular,
                albedo_texture,
                normal_texture,
            }),
    {
        Material {
            name,
            base_material,
            pipeline: None,
            color,
            roughness,
            specular,
            albedo_texture,
            normal_texture,
        }
    }

    /// A base material.
    pub fn new_base(
        name: String,
        color: [u32; 4],
        roughness: u32,
        specular: [u32; 3],
        albedo_texture: Option<ResourceHandle>,
        normal_texture: Option<ResourceHandle>,
    ) -> (material: Material)
        ensures
            material == (Material {
                name,
                base_material: None,
                pipeline: None,
                color,
                roughness,
                specular,
                albedo_texture,
                normal_texture,
            }),
    {
        Material {
            name,
            base_material: None,
            pipeline: None,
            color,
            roughness,
            specular,
            albedo_texture,
            normal_texture,
        }
    }

    /// Builds the pipeline of the material, in place of the one it had.
    pub fn build_material(
        &mut self,
        device: &mut Device,
        shader: ShaderModuleId,
        bind_group_layouts: Vec<BindGroupLayoutId>,
        vertex_buffer_layouts: Vec<VertexBufferLayout>,
        use_depth: bool,
    )
        ensures
            final(device)@ == old(device)@ + pipeline_requests(
                shader,
                bind_group_layouts@,
                layouts_view(vertex_buffer_layouts@),
                use_depth,
                old(device)@.len(),
            ),
            *final(self) == (Material {
                pipeline: Some(final(self).pipeline->0),
                ..*old(self)
            }),
            final(self).pipeline is Some,
            final(self).pipeline->0.pipeline.index == old(device)@.len() + 1,
    {
        let pipeline = Pipeline::new(
            device,
            shader,
            bind_group_layouts,
            vertex_buffer_layouts,
            use_depth,
        );
        self.pipeline = Some(pipeline);
    }

    /// What binding the material's pipeline records: nothing, if it has none.
    pub open spec fn pipeline_ops(&self) -> Seq<PassOp> {
        match self.pipeline {
            Some(pipeline) => seq![PassOp::SetPipeline(pipeline.pipeline)],
            None => Seq::empty(),
        }
    }

    /// Makes the material's pipeline the current one, if it has one.
    pub fn bind_pipeline(&self, render_pass: &mut RenderPass)
        ensures
            final(render_pass)@ == old(render_pass)@.plus(self.pipeline_ops()),
    {
        match &self.pipeline {
            Some(pipeline) => {
                pipeline.bind_pipeline(render_pass);
            },
            None => {
                proof {
                    lemma_plus(old(render_pass)@, Seq::empty(), Seq::empty());
                }
            },
        }
    }

    /// Whether the material stands on its own.
    pub fn is_base(&self) -> (base: bool)
        ensures
            base == (self.base_material is None),
    {
        self.base_material.is_none()
    }

    /// The draw commands that bind the textures of the material.
    pub fn generate_draw_commands(&self) -> (commands: Vec<DrawCommand>)
        ensures
            draw_commands_view(commands@) == material_commands(
                key_of(self.albedo_texture),
                key_of(self.normal_texture),
            ),
    {
        let mut commands: Vec<DrawCommand> = Vec::new();
        match &self.albedo_texture {
            Some(albedo) => {
                commands.push(DrawCommand::BindTexture(0, albedo.clone()));
            },
            None => {},
        }
        match &self.normal_texture {
            Some(normal) => {
                commands.push(DrawCommand::BindTexture(1, normal.clone()));
            },
            None => {},
        }
        proof {
            assert(draw_commands_view(commands@) =~= material_commands(
                key_of(self.albedo_texture),
                key_of(self.normal_texture),
            ));
        }
        commands
    }
}

impl PartialEq for Material {
    /// Materials are told apart by name alone.
    fn eq(&self, other: &Self) -> (same: bool) {
        self.name == other.name
    }
}

impl vstd::std_specs::cmp::PartialEqSpecImpl for Material {
    open spec fn obeys_eq_spec() -> bool {
        true
    }

    open spec fn eq_spec(&self, other: &Self) -> bool {
        self.name@ == other.name@
    }
}

impl Eq for Material {

}

} // verus!
