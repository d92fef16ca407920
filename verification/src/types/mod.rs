pub mod instance_buffer;
pub mod material;
pub mod mesh;
pub mod texture;
pub mod uniform_buffer;
pub mod uniform_set;
pub mod vertex;

pub use instance_buffer::InstanceBuffer;
pub use material::Material;
pub use mesh::Mesh;
pub use texture::Texture;
pub use uniform_buffer::{Uniform, UniformBuffer, UniformError};
pub use uniform_set::{UniformBufferType, UniformSet};
pub use vertex::{Instance, Vertex};
