use vstd::prelude::*;

use crate::resources::Extent3d;

verus! {

/// std's I/O error, carried unchanged from a failed read into a load error.
#[verifier::external_type_specification]
#[verifier::external_body]
pub struct ExIoError(std::io::Error);

/// The image crate's decoding error, carried unchanged into a load error.
#[verifier::external_type_specification]
#[verifier::external_body]
pub struct ExImageError(image::ImageError);

/// Reading a shader's source failed.
#[derive(Debug)]
pub enum CreateShaderError {
    IoError(std::io::Error),
}

/// Loading a texture failed: its file could not be read, its bytes could
/// not be decoded, or its rows are too wide to describe in 32 bits.
#[derive(Debug)]
pub enum CreateTextureError {
    IoError(std::io::Error),
    DecodeError(image::ImageError),
    TooLarge { width: u32, height: u32 },
}

impl From<std::io::Error> for CreateShaderError {
    fn from(e: std::io::Error) -> (r: CreateShaderError) {
        CreateShaderError::IoError(e)
    }
}

impl vstd::std_specs::convert::FromSpecImpl<std::io::Error> for CreateShaderError {
    open spec fn obeys_from_spec() -> bool {
        true
    }

    open spec fn from_spec(e: std::io::Error) -> CreateShaderError {
        CreateShaderError::IoError(e)
    }
}

impl From<std::io::Error> for CreateTextureError {
    fn from(e: std::io::Error) -> (r: CreateTextureError) {
        CreateTextureError::IoError(e)
    }
}

impl vstd::std_specs::convert::FromSpecImpl<std::io::Error> for CreateTextureError {
    open spec fn obeys_from_spec() -> bool {
        true
    }

    open spec fn from_spec(e: std::io::Error) -> CreateTextureError {
        CreateTextureError::IoError(e)
    }
}

impl From<image::ImageError> for CreateTextureError {
    fn from(e: image::ImageError) -> (r: CreateTextureError) {
        CreateTextureError::DecodeError(e)
    }
}

impl vstd::std_specs::convert::FromSpecImpl<image::ImageError> for CreateTextureError {
    open spec fn obeys_from_spec() -> bool {
        true
    }

    open spec fn from_spec(e: image::ImageError) -> CreateTextureError {
        CreateTextureError::DecodeError(e)
    }
}

/// The pixels of an image file as 8-bit RGBA, with the image's width and
/// height; `None` where the bytes are no image the decoder reads.
pub uninterp spec fn rgba8_decoding(bytes: Seq<u8>) -> Option<(u32, u32, Seq<u8>)>;

/// Relies on image::load_from_memory, which guesses the format from the bytes
/// and decodes them, and on DynamicImage::to_rgba8 and ImageBuffer::into_raw,
/// which give the pixels as 8-bit RGBA rows. An image buffer holds at least
/// four bytes for each of its pixels (ImageBuffer::from_raw refuses less).
#[verifier::external_body]
fn decode_rgba8(bytes: &[u8]) -> (r: Result<(u32, u32, Vec<u8>), image::ImageError>)
    ensures
        match r {
            Ok((width, height, pixels)) => {
                &&& rgba8_decoding(bytes@) == Some((width, height, pixels@))
                &&& pixels@.len() >= 4 * width * height
            },
            Err(_) => rgba8_decoding(bytes@) is None,
        },
{
    let rgba = image::load_from_memory(bytes)?.to_rgba8();
    Ok((rgba.width(), rgba.height(), rgba.into_raw()))
}

/// A decoded image laid out for upload into one 2D texture layer.
#[derive(Debug)]
pub struct TextureData {
    pub size: Extent3d,
    pub bytes_per_row: u32,
    pub rows_per_image: u32,
    pub pixels: Vec<u8>,
}

/// `r` is the upload of `width` x `height` RGBA pixels: a single layer whose
/// rows hold four bytes per texel, or `TooLarge` where a row's byte count
/// does not fit in 32 bits.
pub open spec fn is_upload_of(
    r: Result<TextureData, CreateTextureError>,
    width: u32,
    height: u32,
    pixels: Seq<u8>,
) -> bool {
    if 4 * width <= u32::MAX {
        &&& r matches Ok(d)
        &&& d.size == (Extent3d { width, height, depth_or_array_layers: 1 })
        &&& d.bytes_per_row == 4 * width
        &&& d.rows_per_image == height
        &&& d.pixels@ == pixels
    } else {
        r matches Err(CreateTextureError::TooLarge { width: w, height: h }) && w == width && h
            == height
    }
}

/// `r` is what loading the file contents `bytes` gives: a decode error where
/// they are no image, else the upload of the decoded pixels.
pub open spec fn is_texture_from(r: Result<TextureData, CreateTextureError>, bytes: Seq<u8>) -> bool {
    match rgba8_decoding(bytes) {
        None => r matches Err(CreateTextureError::DecodeError(_)),
        Some((width, height, pixels)) => is_upload_of(r, width, height, pixels),
    }
}

/// Lays out `width` x `height` RGBA pixels for upload.
pub fn texture_data(width: u32, height: u32, pixels: Vec<u8>) -> (r: Result<
    TextureData,
    CreateTextureError,
>)
    ensures
        is_upload_of(r, width, height, pixels@),
{
    if width > u32::MAX / 4 {
        return Err(CreateTextureError::TooLarge { width, height });
    }
    Ok(
        TextureData {
            size: Extent3d { width, height, depth_or_array_layers: 1 },
            bytes_per_row: 4 * width,
            rows_per_image: height,
            pixels,
        },
    )
}

/// Decodes the contents of an image file and lays it out for upload.
pub fn decode_texture(bytes: &[u8]) -> (r: Result<TextureData, CreateTextureError>)
    ensures
        is_texture_from(r, bytes@),
{
    match decode_rgba8(bytes) {
        Err(e) => Err(CreateTextureError::DecodeError(e)),
        Ok((width, height, pixels)) => texture_data(width, height, pixels),
    }
}

/// Loads a texture from the outcome of reading its file: a failed read is
/// an `IoError` carrying the read's error, never a panic.
pub fn load_texture(read: Result<Vec<u8>, std::io::Error>) -> (r: Result<
    TextureData,
    CreateTextureError,
>)
    ensures
        match read {
            Err(e) => r == Err::<TextureData, CreateTextureError>(CreateTextureError::IoError(e)),
            Ok(bytes) => is_texture_from(r, bytes@),
        },
{
    match read {
        Err(e) => Err(CreateTextureError::IoError(e)),
        Ok(bytes) => decode_texture(bytes.as_slice()),
    }
}

} // verus!
