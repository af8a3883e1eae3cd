//! Raster image decoding: bytes in, pixel dimensions and an RGBA buffer
//! out.  The decoding itself is the `image` crate's work, taken on trust at
//! a single seam; everything around it is verified.

use vstd::prelude::*;

verus! {

/// Why an operation was abandoned.  Every failure is recoverable: the
/// previous image, view state, list or bitmap is kept.
#[derive(Clone, Copy, PartialEq, Eq, Structural, Debug)]
pub enum ViewerError {
    /// The bytes could not be decoded as a raster image; the previous image
    /// and view state are retained.
    DecodeFailure,
    /// A directory could not be listed; the navigation list keeps its
    /// previous contents.
    DirectoryReadFailure,
    /// A bitmap for the requested dimensions could not be allocated; the
    /// cache keeps the last good bitmap and display continues at degraded
    /// sharpness.
    RasterizationAllocationFailure,
}

impl ViewerError {
    /// A short description, for the host shell's log.
    pub fn message(&self) -> (r: &'static str)
        ensures
            r@.len() > 0,
    {
        proof {
            reveal_strlit("could not decode the image");
            reveal_strlit("could not list the directory");
            reveal_strlit("could not allocate the bitmap");
        }
        match self {
            ViewerError::DecodeFailure => "could not decode the image",
            ViewerError::DirectoryReadFailure => "could not list the directory",
            ViewerError::RasterizationAllocationFailure => "could not allocate the bitmap",
        }
    }
}

/// A decoded raster image: its pixel dimensions and its RGBA buffer, four
/// bytes per pixel.
#[derive(Debug)]
pub struct RasterImage {
    pub width: u32,
    pub height: u32,
    pub pixels: Vec<u8>,
}

impl RasterImage {
    /// The buffer holds exactly four bytes for every pixel.
    pub open spec fn wf(self) -> bool {
        self.pixels@.len() == 4 * self.width * self.height
    }
}

/// Whether raster image bytes decode, and to which pixel dimensions: `None`
/// when the bytes are not a decodable image.  Success and dimensions come
/// from header parsing under a fixed allocation limit, so they are functions
/// of the bytes alone and carry a name; the pixel values do not, since the
/// decoders may pick different arithmetic kernels on different machines, so
/// of the buffer only its length is stated.
pub uninterp spec fn decoded_dims(bytes: Seq<u8>) -> Option<(u32, u32)>;

/// Relies on `image::load_from_memory` (the format is sniffed from the
/// bytes; whether it decodes, and at which dimensions, depends on the bytes
/// alone) and on `DynamicImage::to_rgba8` with `ImageBuffer::into_raw`: the
/// returned buffer is freshly allocated with exactly `width * height`
/// four-byte RGBA pixels, and decoding failure reports `None` instead of
/// panicking.  Decoded dimensions stay far below the range where the
/// conversion's internal size computation could overflow.
#[verifier::external_body]
fn decode_rgba_bytes(bytes: &[u8]) -> (r: Option<(u32, u32, Vec<u8>)>)
    ensures
        (r is Some) <==> (decoded_dims(bytes@) is Some),
        r matches Some((w, h, pixels)) ==> decoded_dims(bytes@) == Some((w, h)) && pixels@.len()
            == 4 * w * h,
{
    match image::load_from_memory(bytes) {
        Ok(img) => {
            let rgba = img.to_rgba8();
            let (w, h) = rgba.dimensions();
            Some((w, h, rgba.into_raw()))
        },
        Err(_) => None,
    }
}

/// Decode raster image bytes into pixel dimensions and an RGBA buffer: it
/// succeeds exactly when `decoded_dims` holds dimensions for the bytes, and
/// then yields those dimensions with a buffer of four bytes per pixel.
/// Returns `DecodeFailure` exactly when the external decoder rejects the
/// bytes; the caller then keeps its previous image and view state.
pub fn decode_raster(bytes: &[u8]) -> (r: Result<RasterImage, ViewerError>)
    ensures
        (r is Ok) <==> (decoded_dims(bytes@) is Some),
        r matches Ok(img) ==> img.wf() && decoded_dims(bytes@) == Some((img.width, img.height)),
        r matches Err(e) ==> e == ViewerError::DecodeFailure,
{
    match decode_rgba_bytes(bytes) {
        Some((width, height, pixels)) => Ok(RasterImage { width, height, pixels }),
        None => Err(ViewerError::DecodeFailure),
    }
}

} // verus!
