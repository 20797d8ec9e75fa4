mod adore;
mod amber;
mod api;
mod assets;
mod gfx;
pub mod logger;
pub mod text;
mod types;
mod window;

pub use adore::{Adore, AdoreConfig};
pub use amber::{Amber, AmberConfig};
pub use assets::{
    asset_error, decoded, load_texture_from_bytes, loaded, sized, AssetError, AssetManager, Image, ImageErrorKind,
    ImageView, Upload,
};
pub use api::{abort, input, input_mut, set_title};
pub use gfx::laws;
pub use gfx::raw;
pub use gfx::shader;
pub use gfx::{
    corner_order, index_values, quad_indices, quad_vertices, quads_of, submitted, Batch, BatchView, Camera, Command,
    DrawCall, DrawCallView, LookAt, Orthographic, Quad, Sprite, SpriteView, Texture, TextureRegistry, Vector3, Vertex, MAX_QUADS,
};
pub use types::errors;
pub use types::{Color, Delta, Position, Rectangle, Size};
pub use window::{
    centered, centered_at, known, lookup, press_states, Action, Event, Input, InputView, PressMap, PressState, PressType, Window,
    WindowConfig, WindowView,
};
