//! What a render node is told to do, and what that is compiled to.

use vstd::prelude::*;
use crate::render_graph::resource_manager::{
    ResourceHandle, ResourceKey, ResourceManager, ResourceManagerView, ResourceType,
};
use crate::types::vertex::Instance;

verus! {

/// One step of a render node, as its author writes it. Files are named by path.
#[derive(Clone, Debug, PartialEq, Eq)]
pub enum Command {
    /// Use the shader in this file.
    LoadShader(String),
    /// Bind the texture in this file at a bind-group slot. The texture is
    /// loaded when the node is built, unless it is loaded already.
    BindTexture(u32, String),
    /// Draw the mesh in this file. The mesh is loaded when the node is
    /// built, unless it is loaded already.
    DrawMesh(String),
    /// Draw the mesh in this file once per instance.
    DrawMeshInstanced(String, Vec<Instance>),
}

pub enum CommandView {
    LoadShader(Seq<char>),
    BindTexture(u32, Seq<char>),
    DrawMesh(Seq<char>),
    DrawMeshInstanced(Seq<char>, Seq<Instance>),
}

impl View for Command {
    type V = CommandView;

    open spec fn view(&self) -> CommandView {
        match *self {
            Command::LoadShader(path) => CommandView::LoadShader(path@),
            Command::BindTexture(index, path) => CommandView::BindTexture(index, path@),
            Command::DrawMesh(path) => CommandView::DrawMesh(path@),
            Command::DrawMeshInstanced(path, instances) => CommandView::DrawMeshInstanced(
                path@,
                instances@,
            ),
        }
    }
}

/// The key under which the mesh of the file at `path` is cached.
pub open spec fn mesh_key(path: Seq<char>) -> ResourceKey {
    ResourceKey { id: path, resource_type: ResourceType::Mesh }
}

/// The key under which the texture of the file at `path` is cached.
pub open spec fn texture_key(path: Seq<char>) -> ResourceKey {
    ResourceKey { id: path, resource_type: ResourceType::Texture }
}

impl CommandView {
    /// Whether building the command reads its file: a shader is always
    /// read, a texture or a mesh only if it is not cached.
    pub open spec fn needs_source(self, cache: ResourceManagerView) -> bool {
        match self {
            CommandView::LoadShader(_) => true,
            CommandView::BindTexture(_, path) => !cache.textures.dom().contains(texture_key(path)),
            CommandView::DrawMesh(path) => !cache.meshes.dom().contains(mesh_key(path)),
            CommandView::DrawMeshInstanced(path, _) => !cache.meshes.dom().contains(
                mesh_key(path),
            ),
        }
    }
}

impl Command {
    /// The path of the file that the command names.
    pub fn path(&self) -> (path: &String)
        ensures
            path@ == (match self@ {
                CommandView::LoadShader(p) => p,
                CommandView::BindTexture(_, p) => p,
                CommandView::DrawMesh(p) => p,
                CommandView::DrawMeshInstanced(p, _) => p,
            }),
    {
        match self {
            Command::LoadShader(path) => path,
            Command::BindTexture(_, path) => path,
            Command::DrawMesh(path) => path,
            Command::DrawMeshInstanced(path, _) => path,
        }
    }

    /// Whether the file of the command has to be read before the command
    /// is built against `resource_manager`.
    pub fn needs_source(&self, resource_manager: &ResourceManager) -> (needed: bool)
        ensures
            needed == self@.needs_source(resource_manager@),
    {
        match self {
            Command::LoadShader(_) => true,
            Command::BindTexture(_, path) => {
                let handle = ResourceHandle::new(path.clone(), ResourceType::Texture);
                resource_manager.get_texture(&handle).is_none()
            },
            Command::DrawMesh(path) => {
                let handle = ResourceHandle::new(path.clone(), ResourceType::Mesh);
                resource_manager.get_mesh(&handle).is_none()
            },
            Command::DrawMeshInstanced(path, _) => {
                let handle = ResourceHandle::new(path.clone(), ResourceType::Mesh);
                resource_manager.get_mesh(&handle).is_none()
            },
        }
    }
}

/// The views of a run of commands.
pub open spec fn commands_view(commands: Seq<Command>) -> Seq<CommandView> {
    commands.map_values(|c: Command| c@)
}

/// One step of a built render node. It names its resource by handle, so
/// that replaying it needs no file and no path.
#[derive(Clone, Debug, PartialEq, Eq)]
pub enum DrawCommand {
    BindTexture(u32, ResourceHandle),
    DrawMesh(ResourceHandle),
    DrawMeshInstanced(ResourceHandle),
}

pub enum DrawCommandView {
    BindTexture(u32, ResourceKey),
    DrawMesh(ResourceKey),
    DrawMeshInstanced(ResourceKey),
}

impl View for DrawCommand {
    type V = DrawCommandView;

    open spec fn view(&self) -> DrawCommandView {
        match *self {
            DrawCommand::BindTexture(index, handle) => DrawCommandView::BindTexture(index, handle@),
            DrawCommand::DrawMesh(handle) => DrawCommandView::DrawMesh(handle@),
            DrawCommand::DrawMeshInstanced(handle) => DrawCommandView::DrawMeshInstanced(handle@),
        }
    }
}

/// The views of a run of draw commands.
pub open spec fn draw_commands_view(commands: Seq<DrawCommand>) -> Seq<DrawCommandView> {
    commands.map_values(|c: DrawCommand| c@)
}

} // verus!
