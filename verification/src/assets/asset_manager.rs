use vstd::prelude::*;

use crate::assets::decode::{decoded, load_texture_from_bytes, sized, AssetError, Image};

verus! {

/// Loads the assets of a game.
#[derive(Debug, Default, Clone, Copy)]
pub struct AssetManager;

impl AssetManager {
    /// Decodes the bytes of an image file, or hands on why they could not be
    /// read.
    pub fn load_texture(read: Result<Vec<u8>, AssetError>) -> (result: Result<Image, AssetError>)
        ensures
            match read {
                Ok(bytes) => sized(result) == AssetError::expected(decoded(bytes@)),
                Err(error) => result == Err::<Image, AssetError>(error),
            },
            result.is_ok() ==> result.unwrap()@.filled(),
    {
        match read {
            Ok(bytes) => load_texture_from_bytes(bytes.as_slice()),
            Err(error) => Err(error),
        }
    }
}

} // verus!
