//! Rasterization cache policy for vector images: when the zoom factor drifts
//! more than five percent away from the scale of the cached bitmap, the
//! bitmap is re-rasterized at the new scale; inside that hysteresis band the
//! cached bitmap is kept and merely stretched on screen.

use vstd::prelude::*;

verus! {

use crate::viewport::{SCALE_MIN, SCALE_MAX, SCALE_UNIT};

/// The cached bitmap is stale when the current zoom factor lies more than
/// five percent (relative) away from the factor it was rendered at:
/// `|current - last| > last / 20`, stated without division.
pub open spec fn stale(current_scale: int, last_rendered_scale: int) -> bool {
    ||| 20 * (current_scale - last_rendered_scale) > last_rendered_scale
    ||| 20 * (last_rendered_scale - current_scale) > last_rendered_scale
}

/// Pixel count of one bitmap axis when an intrinsic dimension `dim` is
/// rasterized at zoom factor `scale` (thousandths): `dim * scale / 1000`
/// rounded up to the next whole pixel.
pub open spec fn target_dim(dim: u32, scale: int) -> int {
    (dim * scale + (SCALE_UNIT - 1)) / (SCALE_UNIT as int)
}

/// Decide whether the cached bitmap must be re-rasterized for the current
/// zoom factor.
pub fn needs_rerender(current_scale: i64, last_rendered_scale: i64) -> (r: bool)
    requires
        SCALE_MIN <= current_scale <= SCALE_MAX,
        SCALE_MIN <= last_rendered_scale <= SCALE_MAX,
    ensures
        r == stale(current_scale as int, last_rendered_scale as int),
{
    20 * (current_scale - last_rendered_scale) > last_rendered_scale
        || 20 * (last_rendered_scale - current_scale) > last_rendered_scale
}

/// The bitmap dimensions to rasterize an `w` by `h` vector image at zoom
/// factor `scale`: each axis scaled and rounded up to a whole pixel.
pub fn target_dims(w: u32, h: u32, scale: i64) -> (r: (u64, u64))
    requires
        SCALE_MIN <= scale <= SCALE_MAX,
    ensures
        r.0 == target_dim(w, scale as int),
        r.1 == target_dim(h, scale as int),
{
    proof {
        lemma_scaled_dim_bound(w as int, scale as int);
        lemma_scaled_dim_bound(h as int, scale as int);
    }
    let unit: u64 = SCALE_UNIT as u64;
    let rw: u64 = ((w as u64) * (scale as u64) + (unit - 1)) / unit;
    let rh: u64 = ((h as u64) * (scale as u64) + (unit - 1)) / unit;
    (rw, rh)
}

/// An intrinsic dimension times a clamped zoom factor stays far below the
/// 64-bit range.
pub(crate) proof fn lemma_scaled_dim_bound(dim: int, scale: int) by (nonlinear_arith)
    requires
        0 <= dim <= u32::MAX,
        0 <= scale <= SCALE_MAX,
    ensures
        0 <= dim * scale <= u32::MAX * (SCALE_MAX as int),
{
}

/// The image being displayed, as the core models it.  Bitmap and document
/// handles are opaque tokens minted by the external texture sink; the core
/// only stores and compares them.
pub enum LoadedImage {
    /// A decoded raster image: the texture holds the pixels one-to-one.
    Raster { handle: u64, width: u32, height: u32, path: Vec<u8> },
    /// A parsed vector document together with its cached rasterization.
    Vector {
        handle: u64,
        intrinsic_width: u32,
        intrinsic_height: u32,
        last_rendered_scale: i64,
        bitmap_width: u64,
        bitmap_height: u64,
        path: Vec<u8>,
    },
}

impl LoadedImage {
    /// A vector image's cached bitmap always reflects a rasterization at
    /// `last_rendered_scale`: its dimensions are the target dimensions for
    /// that scale.
    pub open spec fn wf(self) -> bool {
        match self {
            LoadedImage::Raster { .. } => true,
            LoadedImage::Vector {
                intrinsic_width,
                intrinsic_height,
                last_rendered_scale,
                bitmap_width,
                bitmap_height,
                ..
            } => {
                &&& SCALE_MIN <= last_rendered_scale <= SCALE_MAX
                &&& bitmap_width == target_dim(intrinsic_width, last_rendered_scale as int)
                &&& bitmap_height == target_dim(intrinsic_height, last_rendered_scale as int)
            },
        }
    }

    /// Logical pixel size of the image: decoded size for a raster image,
    /// intrinsic size for a vector document (independent of the cached
    /// bitmap's resolution).
    pub open spec fn spec_size(self) -> (u32, u32) {
        match self {
            LoadedImage::Raster { width, height, .. } => (width, height),
            LoadedImage::Vector { intrinsic_width, intrinsic_height, .. } => (
                intrinsic_width,
                intrinsic_height,
            ),
        }
    }

    /// The zoom factor the cached bitmap of a vector image was rendered at
    /// (zero for a raster image, which has no cache).
    pub open spec fn spec_last_rendered_scale(self) -> int {
        match self {
            LoadedImage::Raster { .. } => 0,
            LoadedImage::Vector { last_rendered_scale, .. } => last_rendered_scale as int,
        }
    }

    /// The texture handle to hand to the external draw call.
    pub open spec fn spec_handle(self) -> u64 {
        match self {
            LoadedImage::Raster { handle, .. } => handle,
            LoadedImage::Vector { handle, .. } => handle,
        }
    }

    /// Logical pixel size of the image.
    pub fn size(&self) -> (r: (u32, u32))
        ensures
            r == self.spec_size(),
    {
        match self {
            LoadedImage::Raster { width, height, .. } => (*width, *height),
            LoadedImage::Vector { intrinsic_width, intrinsic_height, .. } => (
                *intrinsic_width,
                *intrinsic_height,
            ),
        }
    }

    /// The texture handle to hand to the external draw call.
    pub fn handle(&self) -> (r: u64)
        ensures
            r == self.spec_handle(),
    {
        match self {
            LoadedImage::Raster { handle, .. } => *handle,
            LoadedImage::Vector { handle, .. } => *handle,
        }
    }

    /// The path the image was loaded from.
    pub fn path(&self) -> (r: &Vec<u8>)
        ensures
            r@ == self.spec_path(),
    {
        match self {
            LoadedImage::Raster { path, .. } => path,
            LoadedImage::Vector { path, .. } => path,
        }
    }

    /// The path the image was loaded from.
    pub open spec fn spec_path(self) -> Seq<u8> {
        match self {
            LoadedImage::Raster { path, .. } => path@,
            LoadedImage::Vector { path, .. } => path@,
        }
    }

    /// Record a fresh rasterization of a vector image: replace the cached
    /// bitmap handle and remember the scale it was rendered at.  Called only
    /// after the external rasterizer succeeded; on failure the previous
    /// bitmap is simply kept and this is never called.
    pub fn commit_render(&mut self, scale: i64, new_handle: u64, bitmap_w: u64, bitmap_h: u64)
        requires
            *old(self) is Vector,
            old(self).wf(),
            SCALE_MIN <= scale <= SCALE_MAX,
            bitmap_w == target_dim(old(self).spec_size().0, scale as int),
            bitmap_h == target_dim(old(self).spec_size().1, scale as int),
        ensures
            final(self).wf(),
            *final(self) is Vector,
            final(self).spec_size() == old(self).spec_size(),
            final(self).spec_path() == old(self).spec_path(),
            final(self).spec_handle() == new_handle,
            *final(self) matches LoadedImage::Vector { last_rendered_scale, bitmap_width, bitmap_height, .. }
                && last_rendered_scale == scale
                && bitmap_width == bitmap_w
                && bitmap_height == bitmap_h,
    {
        match self {
            LoadedImage::Vector { handle, last_rendered_scale, bitmap_width, bitmap_height, .. } => {
                *handle = new_handle;
                *last_rendered_scale = scale;
                *bitmap_width = bitmap_w;
                *bitmap_height = bitmap_h;
            },
            LoadedImage::Raster { .. } => {},
        }
    }
}

/// Cache hysteresis law: from a rendered scale `last`, a current scale four
/// percent away does not trigger a re-rasterization, while one six percent
/// away does.
pub proof fn lemma_hysteresis_band(last: int, four_up: int, six_up: int)
    requires
        last >= 1,
        100 * four_up == 104 * last,
        100 * six_up == 106 * last,
    ensures
        !stale(four_up, last),
        stale(six_up, last),
{
}

} // verus!
