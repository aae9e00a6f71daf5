//! Textures as a renderer uploads them: decoded pixels and their layout.

use crate::io::Texture;
use crate::io::TextureEncoding;
use vstd::prelude::*;

verus! {

/// The image error of the `image` crate.
#[verifier::external_type_specification]
#[verifier::external_body]
pub struct ExImageError(image::ImageError);

/// What decoding `data` as a PNG image (`png`) or a TGA image (not `png`)
/// and converting it to 8-bit RGBA gives: the width, the height and the
/// pixels row by row, or nothing where `data` is no such image.
pub uninterp spec fn decoded(png: bool, data: Seq<u8>) -> Option<(u32, u32, Seq<u8>)>;

/// Decodes a PNG image and converts it to 8-bit RGBA.
///
/// This is `image::load_from_memory_with_format` with the PNG format,
/// followed by `to_rgba8`, `width`, `height` and `into_vec`. The result
/// depends on the bytes alone.
#[verifier::external_body]
fn decode_png(data: &[u8]) -> (r: Result<(u32, u32, Vec<u8>), image::ImageError>)
    ensures
        match r {
            Ok(image) => decoded(true, data@) == Some((image.0, image.1, image.2@)),
            Err(_) => decoded(true, data@) is None,
        },
{
    let image = image::load_from_memory_with_format(data, image::ImageFormat::Png)?.to_rgba8();
    Ok((image.width(), image.height(), image.into_vec()))
}

/// Decodes a TGA image and converts it to 8-bit RGBA.
///
/// This is `image::load_from_memory_with_format` with the TGA format,
/// followed by `to_rgba8`, `width`, `height` and `into_vec`. The result
/// depends on the bytes alone.
#[verifier::external_body]
fn decode_tga(data: &[u8]) -> (r: Result<(u32, u32, Vec<u8>), image::ImageError>)
    ensures
        match r {
            Ok(image) => decoded(false, data@) == Some((image.0, image.1, image.2@)),
            Err(_) => decoded(false, data@) is None,
        },
{
    let image = image::load_from_memory_with_format(data, image::ImageFormat::Tga)?.to_rgba8();
    Ok((image.width(), image.height(), image.into_vec()))
}

/// How the pixels of an uploaded texture are laid out.
#[derive(Debug, Clone, Copy, PartialEq, Eq, Structural)]
pub enum TextureFormat {
    /// Red, green, blue and alpha, 8 bits each, sRGB.
    Rgba8UnormSrgb,
    /// BC7 block compression, sRGB.
    Bc7RgbaUnormSrgb,
}

/// Why a texture cannot be uploaded.
#[derive(Debug, Clone, Copy, PartialEq, Eq, Structural)]
pub enum TextureError {
    /// The data is no image of the encoding that the texture names.
    Decode,
    /// Textures of this encoding are not supported yet.
    Unsupported(TextureEncoding),
}

/// What a [`TextureInfo`] is.
pub struct TextureInfoView {
    pub data: Seq<u8>,
    pub texture_format: TextureFormat,
    pub width: u32,
    pub height: u32,
}

/// A texture that is ready for upload: its pixels, their layout and the
/// extent of the image.
#[derive(Debug)]
pub struct TextureInfo {
    data: Vec<u8>,
    texture_format: TextureFormat,
    width: u32,
    height: u32,
}

impl View for TextureInfo {
    type V = TextureInfoView;

    closed spec fn view(&self) -> TextureInfoView {
        TextureInfoView {
            data: self.data@,
            texture_format: self.texture_format,
            width: self.width,
            height: self.height,
        }
    }
}

/// What a texture is uploaded as, given what decoding its data gave: the
/// decoded pixels of a PNG or TGA image, as 8-bit RGBA. Data that does not
/// decode is refused, and so is every BC7 texture.
pub open spec fn prepared(
    encoding: TextureEncoding,
    image: Option<(u32, u32, Seq<u8>)>,
) -> Result<TextureInfoView, TextureError> {
    match encoding {
        TextureEncoding::Bc7 => Err(TextureError::Unsupported(TextureEncoding::Bc7)),
        _ => match image {
            Some((width, height, data)) => Ok(
                TextureInfoView {
                    data,
                    texture_format: TextureFormat::Rgba8UnormSrgb,
                    width,
                    height,
                },
            ),
            None => Err(TextureError::Decode),
        },
    }
}

/// The image that a decoder gave, if it gave one.
pub open spec fn image_of(image: Option<(u32, u32, Vec<u8>)>) -> Option<(u32, u32, Seq<u8>)> {
    match image {
        Some((width, height, data)) => Some((width, height, data@)),
        None => None,
    }
}

/// The result of a preparation by its views.
pub open spec fn prepared_view(r: Result<TextureInfo, TextureError>) -> Result<
    TextureInfoView,
    TextureError,
> {
    match r {
        Ok(info) => Ok(info@),
        Err(e) => Err(e),
    }
}

impl TextureInfo {
    /// Prepares a texture for upload: decodes a PNG or TGA image to 8-bit
    /// RGBA. BC7 textures are refused; they lack the width and the height
    /// that an upload needs.
    pub fn new(texture: &Texture) -> (r: Result<TextureInfo, TextureError>)
        ensures
            prepared_view(r) == prepared(
                texture@.enc,
                match texture@.enc {
                    TextureEncoding::Png => decoded(true, texture@.data),
                    TextureEncoding::Tga => decoded(false, texture@.data),
                    TextureEncoding::Bc7 => None,
                },
            ),
    {
        let image: Option<(u32, u32, Vec<u8>)> = match texture.encoding() {
            TextureEncoding::Png => match decode_png(texture.data()) {
                Ok(image) => Some(image),
                Err(_) => None,
            },
            TextureEncoding::Tga => match decode_tga(texture.data()) {
                Ok(image) => Some(image),
                Err(_) => None,
            },
            TextureEncoding::Bc7 => None,
        };
        Self::from_decoded(texture.encoding(), image)
    }

    /// Prepares a texture of the given encoding from what decoding its data
    /// gave.
    pub fn from_decoded(encoding: TextureEncoding, image: Option<(u32, u32, Vec<u8>)>) -> (r:
        Result<TextureInfo, TextureError>)
        ensures
            prepared_view(r) == prepared(encoding, image_of(image)),
    {
        match encoding {
            TextureEncoding::Bc7 => Err(TextureError::Unsupported(TextureEncoding::Bc7)),
            _ => match image {
                Some((width, height, data)) => Ok(
                    TextureInfo {
                        data,
                        texture_format: TextureFormat::Rgba8UnormSrgb,
                        width,
                        height,
                    },
                ),
                None => Err(TextureError::Decode),
            },
        }
    }

    /// The pixels, row by row.
    pub fn data(&self) -> (r: &[u8])
        ensures
            r@ == self@.data,
    {
        self.data.as_slice()
    }

    /// How the pixels are laid out.
    pub fn texture_format(&self) -> (r: TextureFormat)
        ensures
            r == self@.texture_format,
    {
        self.texture_format
    }

    /// The width of the image in pixels.
    pub fn width(&self) -> (r: u32)
        ensures
            r == self@.width,
    {
        self.width
    }

    /// The height of the image in pixels.
    pub fn height(&self) -> (r: u32)
        ensures
            r == self@.height,
    {
        self.height
    }
}

} // verus!
