//! CPU-side texture resources: tightly packed RGBA8 pixel data.

use vstd::prelude::*;

use crate::resource::TextureId;

verus! {

/// An immutable texture resource.  `content` is tightly packed RGBA8 data:
/// four bytes per pixel, row stride `4 * width` bytes.
#[derive(Debug)]
pub struct Texture {
    pub id: TextureId,
    pub dimensions: (u32, u32),
    pub content: Vec<u8>,
}

impl Texture {
    /// The pixel data covers exactly the stated dimensions.
    pub open spec fn well_formed(self) -> bool {
        self.content@.len() == 4 * (self.dimensions.0 as nat) * (self.dimensions.1 as nat)
    }

    pub fn id(&self) -> (r: &TextureId)
        ensures
            *r == self.id,
    {
        &self.id
    }

    pub fn dimensions(&self) -> (r: (u32, u32))
        ensures
            r == self.dimensions,
    {
        self.dimensions
    }

    pub fn content(&self) -> (r: &Vec<u8>)
        ensures
            *r == self.content,
    {
        &self.content
    }
}

/// Why decoding an encoded image into a [`Texture`] failed.
#[derive(Debug)]
pub enum LoadTextureError {
    /// The given MIME type names no supported image format.
    InvalidMimeType,
    /// The image data could not be decoded.
    Image(image::ImageError),
}

/// The RGBA8 decoding of an encoded image, as width, height and pixel
/// bytes, or nothing where the bytes do not decode under the format the
/// MIME type names.  Decoding is a function of the bytes and the MIME type
/// alone.
pub uninterp spec fn decoded_rgba8(bytes: Seq<u8>, mime_type: Seq<char>) -> Option<
    (u32, u32, Seq<u8>),
>;

/// Whether the MIME type names an image format the decoder supports.
pub uninterp spec fn mime_type_supported(mime_type: Seq<char>) -> bool;

#[verifier::external_type_specification]
#[verifier::external_body]
pub struct ExImageError(image::ImageError);

/// Relies on `image::ImageFormat::from_mime_type` (a pure lookup of the
/// MIME type) and `image::load_from_memory_with_format` followed by
/// `DynamicImage::to_rgba8`: the decoder reads only the given bytes, and
/// the returned RGBA8 buffer holds width * height pixels of four bytes
/// each.
#[verifier::external_body]
fn decode_rgba8(bytes: &[u8], mime_type: &str) -> (r: Result<(u32, u32, Vec<u8>), LoadTextureError>)
    ensures
        match r {
            Ok((width, height, content)) => {
                &&& mime_type_supported(mime_type@)
                &&& decoded_rgba8(bytes@, mime_type@) == Some((width, height, content@))
                &&& content@.len() == 4 * (width as nat) * (height as nat)
            },
            Err(LoadTextureError::InvalidMimeType) => !mime_type_supported(mime_type@),
            Err(LoadTextureError::Image(_)) => {
                &&& mime_type_supported(mime_type@)
                &&& decoded_rgba8(bytes@, mime_type@) is None
            },
        },
{
    let format = image::ImageFormat::from_mime_type(mime_type)
        .ok_or(LoadTextureError::InvalidMimeType)?;
    let decoded = image::load_from_memory_with_format(bytes, format)
        .map_err(LoadTextureError::Image)?;
    let rgba = decoded.to_rgba8();
    let (width, height) = (rgba.width(), rgba.height());
    Ok((width, height, rgba.into_raw()))
}

impl Texture {
    /// Decode an encoded image (its format named by a MIME type) into a
    /// texture with a freshly generated id.
    pub fn from_bytes(bytes: &[u8], mime_type: &str) -> (r: Result<Texture, LoadTextureError>)
        ensures
            match r {
                Ok(texture) => {
                    &&& mime_type_supported(mime_type@)
                    &&& decoded_rgba8(bytes@, mime_type@) == Some(
                        (texture.dimensions.0, texture.dimensions.1, texture.content@),
                    )
                    &&& texture.well_formed()
                    &&& texture.id.0 != 0
                },
                Err(LoadTextureError::InvalidMimeType) => !mime_type_supported(mime_type@),
                Err(LoadTextureError::Image(_)) => {
                    &&& mime_type_supported(mime_type@)
                    &&& decoded_rgba8(bytes@, mime_type@) is None
                },
            },
    {
        match decode_rgba8(bytes, mime_type) {
            Ok((width, height, content)) => Ok(
                Texture { id: TextureId::new(), dimensions: (width, height), content },
            ),
            Err(e) => Err(e),
        }
    }
}

} // verus!
