mod asset_manager;
mod decode;

pub use asset_manager::AssetManager;
pub use decode::{
    asset_error, decoded, load_texture_from_bytes, loaded, sized, AssetError, Image, ImageErrorKind, ImageView,
    Upload,
};
