use vstd::prelude::*;

verus! {

/// Relies on image::ImageError, the image crate's encode and write failure,
/// carried through opaquely as the cause of a failed save.
#[verifier::external_type_specification]
#[verifier::external_body]
pub struct ExImageError(image::ImageError);

/// Relies on wgpu::BufferAsyncError, the failure of an asynchronous buffer
/// mapping, carried through opaquely.
#[verifier::external_type_specification]
#[verifier::external_body]
pub struct ExBufferAsyncError(wgpu::BufferAsyncError);

/// Relies on wgpu::RequestDeviceError, the failure of device acquisition,
/// carried through opaquely.
#[verifier::external_type_specification]
#[verifier::external_body]
pub struct ExRequestDeviceError(wgpu::RequestDeviceError);

/// Failure of the step that turns a pixel buffer into an image file.
#[derive(Debug)]
pub enum TextureSaverError {
    /// The pixel buffer's byte length did not match `width * height * 4`.
    ImageBufferCreationError,
    /// The underlying encode or write failed; wraps the cause.
    ImageSaveError(image::ImageError),
}

/// Failure of renderer construction, readback, or saving.
#[derive(Debug)]
pub enum RendererError {
    /// The asynchronous read-mapping of the staging buffer failed.
    BufferMapError(wgpu::BufferAsyncError),
    /// Saving the pixel buffer to disk failed.
    TextureSaveFailure(TextureSaverError),
    /// No suitable GPU adapter was found.
    NoAdapterFound,
    /// Device and queue acquisition failed.
    DeviceRequestError(wgpu::RequestDeviceError),
}

impl From<image::ImageError> for TextureSaverError {
    fn from(error: image::ImageError) -> (converted: Self) {
        TextureSaverError::ImageSaveError(error)
    }
}

impl vstd::std_specs::convert::FromSpecImpl<image::ImageError> for TextureSaverError {
    open spec fn obeys_from_spec() -> bool {
        true
    }

    open spec fn from_spec(error: image::ImageError) -> Self {
        TextureSaverError::ImageSaveError(error)
    }
}

impl From<wgpu::BufferAsyncError> for RendererError {
    fn from(error: wgpu::BufferAsyncError) -> (converted: Self) {
        RendererError::BufferMapError(error)
    }
}

impl vstd::std_specs::convert::FromSpecImpl<wgpu::BufferAsyncError> for RendererError {
    open spec fn obeys_from_spec() -> bool {
        true
    }

    open spec fn from_spec(error: wgpu::BufferAsyncError) -> Self {
        RendererError::BufferMapError(error)
    }
}

impl From<TextureSaverError> for RendererError {
    fn from(error: TextureSaverError) -> (converted: Self) {
        RendererError::TextureSaveFailure(error)
    }
}

impl vstd::std_specs::convert::FromSpecImpl<TextureSaverError> for RendererError {
    open spec fn obeys_from_spec() -> bool {
        true
    }

    open spec fn from_spec(error: TextureSaverError) -> Self {
        RendererError::TextureSaveFailure(error)
    }
}

} // verus!
