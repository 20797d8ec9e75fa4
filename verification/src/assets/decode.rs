use vstd::prelude::*;

use crate::gfx::Texture;
use crate::types::Size;

verus! {

/// A decoded image: its pixels, row by row, four bytes (red, green, blue,
/// alpha) for each, and its size in pixels.
#[derive(Debug, Clone, PartialEq, Eq)]
pub struct Image {
    pub rgba: Vec<u8>,
    pub width: u32,
    pub height: u32,
}

/// What an `Image` holds.
pub struct ImageView {
    pub rgba: Seq<u8>,
    pub width: u32,
    pub height: u32,
}

impl View for Image {
    type V = ImageView;

    open spec fn view(&self) -> ImageView {
        ImageView { rgba: self.rgba@, width: self.width, height: self.height }
    }
}

impl ImageView {
    /// The size of the image in pixels.
    pub open spec fn size(self) -> Size<u32> {
        Size { width: self.width, height: self.height }
    }

    /// Whether there are four bytes for each pixel of the image.
    pub open spec fn filled(self) -> bool {
        self.rgba.len() == 4 * self.width * self.height
    }
}

/// What comes of decoding the bytes of an image file, as far as it is the
/// same on every machine: the size of the image in pixels, or why there is
/// no image. The colours of the pixels are not part of it: a decoder may
/// round them otherwise on another processor.
pub uninterp spec fn decoded(bytes: Seq<u8>) -> Result<Size<u32>, ImageErrorKind>;

/// The size of the image that an attempt to load one has given, or why it
/// has given none.
pub open spec fn sized<E>(result: Result<Image, E>) -> Result<Size<u32>, E> {
    match result {
        Ok(image) => Ok(image@.size()),
        Err(error) => Err(error),
    }
}

/// Why bytes did not decode to an image.
#[derive(Debug, Clone, Copy, PartialEq, Eq, Structural)]
pub enum ImageErrorKind {
    Decoding,
    Encoding,
    Parameter,
    Limits,
    Unsupported,
    Io,
}

/// Why an asset could not be loaded.
#[derive(Debug, Clone, Copy, PartialEq, Eq, Structural)]
pub enum AssetError {
    /// The bytes are no image that can be decoded.
    TextureDecodeError,
    /// The bytes could not be read.
    IoError,
}

/// How a texture is written to the device: the extent of the copy and the
/// layout of the data.
#[derive(Debug, Clone, Copy, PartialEq, Eq, Structural)]
pub struct Upload {
    pub width: u32,
    pub height: u32,
    pub depth_or_array_layers: u32,
    pub offset: u64,
    pub bytes_per_row: u32,
    pub rows_per_image: u32,
}

impl AssetError {
    /// What a failure to decode means for the caller: bytes that could not
    /// be read are an `IoError`, all else is a `TextureDecodeError`.
    pub open spec fn of(kind: ImageErrorKind) -> AssetError {
        if kind == ImageErrorKind::Io {
            AssetError::IoError
        } else {
            AssetError::TextureDecodeError
        }
    }

    /// What comes of loading a texture from bytes, given what comes of
    /// decoding them.
    pub open spec fn expected(outcome: Result<Size<u32>, ImageErrorKind>) -> Result<Size<u32>, AssetError> {
        match outcome {
            Ok(size) => Ok(size),
            Err(kind) => Err(AssetError::of(kind)),
        }
    }
}

/// `image::load_from_memory`: whether the bytes decode, and to an image of
/// which size or with which variant of `image::ImageError`, is named by
/// `decoded`. The image is handed out as plain values, its pixels through
/// `DynamicImage::to_rgba8`: of them only their count is claimed, four
/// bytes for each pixel.
#[verifier::external_body]
fn decode(bytes: &[u8]) -> (result: Result<Image, ImageErrorKind>)
    ensures
        sized(result) == decoded(bytes@),
        result.is_ok() ==> result.unwrap()@.filled(),
{
    match image::load_from_memory(bytes) {
        Ok(image) => Ok(Image { width: image.width(), height: image.height(), rgba: image.to_rgba8().into_raw() }),
        Err(image::ImageError::Decoding(_)) => Err(ImageErrorKind::Decoding),
        Err(image::ImageError::Encoding(_)) => Err(ImageErrorKind::Encoding),
        Err(image::ImageError::Parameter(_)) => Err(ImageErrorKind::Parameter),
        Err(image::ImageError::Limits(_)) => Err(ImageErrorKind::Limits),
        Err(image::ImageError::Unsupported(_)) => Err(ImageErrorKind::Unsupported),
        Err(image::ImageError::IoError(_)) => Err(ImageErrorKind::Io),
    }
}

/// What a failure to decode means for the caller: bytes that could not be
/// read are an `IoError`, all else is a `TextureDecodeError`.
pub fn asset_error(kind: ImageErrorKind) -> (error: AssetError)
    ensures
        error == AssetError::of(kind),
{
    match kind {
        ImageErrorKind::Io => AssetError::IoError,
        _ => AssetError::TextureDecodeError,
    }
}

/// What the caller gets of an attempt to decode: the image as it is, or
/// what the failure means for the caller.
pub fn loaded(outcome: Result<Image, ImageErrorKind>) -> (result: Result<Image, AssetError>)
    ensures
        match outcome {
            Ok(image) => result == Ok::<Image, AssetError>(image),
            Err(kind) => result == Err::<Image, AssetError>(AssetError::of(kind)),
        },
{
    match outcome {
        Ok(image) => Ok(image),
        Err(kind) => Err(asset_error(kind)),
    }
}

/// Decodes the bytes of an image file. Whether there is an image, its size
/// and the error are those of the bytes; the image has four bytes for each
/// of its pixels.
pub fn load_texture_from_bytes(bytes: &[u8]) -> (result: Result<Image, AssetError>)
    ensures
        sized(result) == AssetError::expected(decoded(bytes@)),
        result.is_ok() ==> result.unwrap()@.filled(),
{
    loaded(decode(bytes))
}

impl ImageView {
    /// How the image is written to the device as a texture, if a row of it
    /// can be counted in 32 bits.
    pub open spec fn upload(self) -> Option<Upload> {
        if 4 * self.width <= u32::MAX {
            Some(
                Upload {
                    width: self.width,
                    height: self.height,
                    depth_or_array_layers: 1,
                    offset: 0,
                    bytes_per_row: (4 * self.width) as u32,
                    rows_per_image: self.height,
                },
            )
        } else {
            None
        }
    }
}

impl Image {
    /// How the image is written to the device as a texture: one layer of
    /// its size, four bytes for each pixel of a row.
    pub fn upload(&self) -> (upload: Option<Upload>)
        ensures
            upload == self@.upload(),
    {
        if self.width <= u32::MAX / 4 {
            Some(
                Upload {
                    width: self.width,
                    height: self.height,
                    depth_or_array_layers: 1,
                    offset: 0,
                    bytes_per_row: 4 * self.width,
                    rows_per_image: self.height,
                },
            )
        } else {
            None
        }
    }

    /// The handle of the texture that the image is on the device, once it is
    /// uploaded under `id`.
    pub fn texture(&self, id: u64) -> (texture: Texture)
        ensures
            texture == (Texture { id, width: self.width, height: self.height }),
    {
        Texture::new(id, self.width, self.height)
    }
}

} // verus!
