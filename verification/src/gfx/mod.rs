mod batch;
mod camera;
pub mod laws;
mod model;
pub mod raw;
pub mod shader;
mod sprite;
mod texture;
mod vertex;

pub use batch::{index_values, quads_of, submitted, Batch, DrawCall};
pub use camera::{Camera, LookAt, Orthographic, Vector3};
pub use model::{BatchView, Command, DrawCallView, MAX_QUADS};
pub use sprite::{Sprite, SpriteView};
pub use texture::{Texture, TextureRegistry};
pub use vertex::{corner_order, quad_indices, quad_vertices, Quad, Vertex};
