use vstd::prelude::*;
use vstd::arithmetic::mul::lemma_mul_upper_bound;

use crate::error::TextureSaverError;
use crate::readback::BYTES_PER_PIXEL;
use crate::size::Size;

verus! {

/// Turns a tightly packed RGBA8 pixel array into an image file on disk.
pub struct TextureSaver;

/// Relies on image::ImageBuffer::from_raw and ImageBuffer::save: a byte
/// container of exactly `width * height * 4` bytes is accepted by from_raw
/// as a tightly packed RGBA8 image, and save encodes it in the format named
/// by the path's extension and writes the file, or reports the reason it
/// could not.
#[verifier::external_body]
fn save_rgba8_image(file_path: &str, width: u32, height: u32, data: Vec<u8>) -> (result: Result<
    (),
    image::ImageError,
>)
    requires
        data@.len() == width * height * BYTES_PER_PIXEL,
{
    let buffer = image::ImageBuffer::<image::Rgba<u8>, Vec<u8>>::from_raw(width, height, data)
        .expect("a container of width * height * 4 bytes fits the image");
    buffer.save(file_path)
}

impl TextureSaver {
    /// Writes `data` as a `texture_size.width` by `texture_size.height`
    /// RGBA8 image at `file_path`. Fails with `ImageBufferCreationError`
    /// exactly when `data` is not `width * height * 4` bytes long, before
    /// anything is written; fails with `ImageSaveError` when the encoder
    /// or the filesystem refused the write, wrapping the cause.
    pub fn save_buffer_data_to_file(
        file_path: &str,
        texture_size: &Size,
        data: Vec<u8>,
    ) -> (result: Result<(), TextureSaverError>)
        ensures
            (result matches Err(TextureSaverError::ImageBufferCreationError)) <==> data@.len()
                != texture_size.area() * BYTES_PER_PIXEL,
            result is Ok ==> data@.len() == texture_size.area() * BYTES_PER_PIXEL,
    {
        proof {
            lemma_mul_upper_bound(
                texture_size.width as int,
                u32::MAX as int,
                texture_size.height as int,
                u32::MAX as int,
            );
        }
        let expected: u128 = (texture_size.width as u128) * (texture_size.height as u128) * (
        BYTES_PER_PIXEL as u128);
        if (data.len() as u128) != expected {
            return Err(TextureSaverError::ImageBufferCreationError);
        }
        match save_rgba8_image(file_path, texture_size.width, texture_size.height, data) {
            Ok(()) => Ok(()),
            Err(error) => Err(TextureSaverError::ImageSaveError(error)),
        }
    }
}

} // verus!
