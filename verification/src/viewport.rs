//! Viewport state: zoom factor and pan offset, fit-to-window computation and
//! anchor-preserving zoom.
//!
//! Units: screen-space lengths (pan offsets, anchor positions, available
//! sizes) are in thousandths of a screen pixel.  The zoom factor is in
//! thousandths: `SCALE_UNIT` displays the image at its native size, and an
//! image pixel then covers `scale` thousandths of a screen pixel.

use vstd::prelude::*;

verus! {

use vstd::arithmetic::div_mod::{lemma_fundamental_div_mod, lemma_div_pos_is_pos, lemma_div_nonincreasing};

/// The zoom factor that displays an image at its native pixel size.
pub const SCALE_UNIT: i64 = 1000;

/// Smallest zoom factor: one tenth of native size.
pub const SCALE_MIN: i64 = 100;

/// Largest zoom factor: ten times native size.
pub const SCALE_MAX: i64 = 10000;

/// Bound on every screen coordinate handed to the core, in thousandths of a
/// pixel (ten million pixels, far beyond any physical display).
pub const COORD_LIMIT: i64 = 10_000_000_000;

/// Saturation bound for each pan-offset component, in thousandths of a pixel.
/// Anchor-preserving zoom is exact as long as the solved offset stays inside
/// this bound; beyond it the offset saturates so that later arithmetic cannot
/// overflow.
pub const PAN_LIMIT: i64 = 1_000_000_000_000;

/// A zoom factor pushed back into the allowed range.
pub open spec fn clamped_scale(raw: int) -> int {
    if raw < SCALE_MIN {
        SCALE_MIN as int
    } else if raw > SCALE_MAX {
        SCALE_MAX as int
    } else {
        raw
    }
}

/// A pan-offset component pushed back into the saturation range.
pub open spec fn clamped_pan(raw: int) -> int {
    if raw < -PAN_LIMIT {
        -PAN_LIMIT as int
    } else if raw > PAN_LIMIT {
        PAN_LIMIT as int
    } else {
        raw
    }
}

/// The largest zoom factor at which an image of `w` by `h` pixels fits whole
/// inside an available area of `avail_w` by `avail_h` thousandths of a pixel:
/// the smaller of the two per-axis ratios, rounded down.
pub open spec fn fit_scale(w: u32, h: u32, avail_w: int, avail_h: int) -> int {
    vstd::math::min(avail_w / w as int, avail_h / h as int)
}

/// The pan offset (one component) that keeps the image point under `anchor`
/// fixed on screen when the zoom factor moves from `scale_old` to
/// `scale_new`.  `center` is the midpoint of the available area, the origin
/// of pan offsets.
pub open spec fn zoomed_pan(old_pan: int, scale_old: int, scale_new: int, anchor: int, center: int) -> int {
    let rel = anchor - center - old_pan;
    (anchor - center) - ((rel * scale_new) / scale_old)
}

/// Zoom factor and pan offset of the displayed image, plus the logical pixel
/// size of that image once one is loaded.  The pan offset is measured from
/// the geometric center of the available drawing area.
pub struct Viewport {
    /// Zoom factor in thousandths, always within `SCALE_MIN ..= SCALE_MAX`.
    pub scale: i64,
    /// Horizontal pan offset in thousandths of a pixel.
    pub pan_x: i64,
    /// Vertical pan offset in thousandths of a pixel.
    pub pan_y: i64,
    /// Width and height in pixels of the loaded image, if any.
    pub image_size: Option<(u32, u32)>,
}

impl Viewport {
    /// The scale is always clamped and the pan offset always saturated.
    pub open spec fn wf(self) -> bool {
        &&& SCALE_MIN <= self.scale <= SCALE_MAX
        &&& -PAN_LIMIT <= self.pan_x <= PAN_LIMIT
        &&& -PAN_LIMIT <= self.pan_y <= PAN_LIMIT
    }

    /// Initial state: native scale, centered, no image.
    pub fn new() -> (v: Viewport)
        ensures
            v.wf(),
            v.scale == SCALE_UNIT,
            v.pan_x == 0,
            v.pan_y == 0,
            v.image_size is None,
    {
        Viewport { scale: SCALE_UNIT, pan_x: 0, pan_y: 0, image_size: None }
    }
}

/// Push a raw zoom factor back into the allowed range.
pub fn clamp_scale(raw: i64) -> (s: i64)
    ensures
        s == clamped_scale(raw as int),
{
    if raw < SCALE_MIN {
        SCALE_MIN
    } else if raw > SCALE_MAX {
        SCALE_MAX
    } else {
        raw
    }
}

/// Push a raw pan-offset component back into the saturation range.
fn clamp_pan(raw: i64) -> (p: i64)
    ensures
        p == clamped_pan(raw as int),
{
    if raw < -PAN_LIMIT {
        -PAN_LIMIT
    } else if raw > PAN_LIMIT {
        PAN_LIMIT
    } else {
        raw
    }
}

/// With a positive divisor, a negative dividend has a quotient between the
/// dividend and zero.
proof fn lemma_neg_div_bounds(n: int, d: int, q: int, r: int) by (nonlinear_arith)
    requires
        n < 0,
        d >= 1,
        n == d * q + r,
        0 <= r < d,
    ensures
        n <= q < 0,
{
}

/// Floor division of `n` by a positive divisor `d`, matching mathematical
/// (Euclidean) division.
pub(crate) fn div_floor(n: i64, d: i64) -> (q: i64)
    requires
        1 <= d,
        i64::MIN < n,
    ensures
        q == n as int / d as int,
{
    proof {
        if n >= 0 {
            lemma_div_pos_is_pos(n as int, d as int);
            lemma_div_nonincreasing(n as int, d as int);
        } else {
            lemma_fundamental_div_mod(n as int, d as int);
            lemma_neg_div_bounds(n as int, d as int, n as int / d as int, n as int % d as int);
        }
    }
    match n.checked_div_euclid(d) {
        Some(q) => q,
        None => {
            proof {
                assert(false);
            }
            0
        },
    }
}

impl Viewport {
    /// The largest zoom factor (clamped) at which the whole image fits in the
    /// available area, per the spec `fit_scale`.  Returns `None` exactly when
    /// a dimension of the image is zero, in which case nothing is changed by
    /// the callers either.
    pub fn fit_to_window(image_w: u32, image_h: u32, avail_w: i64, avail_h: i64) -> (r: Option<i64>)
        requires
            0 < avail_w <= COORD_LIMIT,
            0 < avail_h <= COORD_LIMIT,
        ensures
            (r is Some) <==> (image_w > 0 && image_h > 0),
            r matches Some(s) ==> s == clamped_scale(fit_scale(image_w, image_h, avail_w as int, avail_h as int)),
    {
        if image_w == 0 || image_h == 0 {
            return None;
        }
        proof {
            lemma_div_pos_is_pos(avail_w as int, image_w as int);
            lemma_div_nonincreasing(avail_w as int, image_w as int);
            lemma_div_pos_is_pos(avail_h as int, image_h as int);
            lemma_div_nonincreasing(avail_h as int, image_h as int);
        }
        let sw: i64 = ((avail_w as u64) / (image_w as u64)) as i64;
        let sh: i64 = ((avail_h as u64) / (image_h as u64)) as i64;
        let raw = if sw < sh {
            sw
        } else {
            sh
        };
        Some(clamp_scale(raw))
    }

    /// Solve one pan component so that the image point under `anchor` stays
    /// put; saturated at `PAN_LIMIT`.
    fn solve_anchor(old_pan: i64, scale_old: i64, scale_new: i64, anchor: i64, center: i64) -> (p: i64)
        requires
            SCALE_MIN <= scale_old <= SCALE_MAX,
            SCALE_MIN <= scale_new <= SCALE_MAX,
            -PAN_LIMIT <= old_pan <= PAN_LIMIT,
            -COORD_LIMIT <= anchor <= COORD_LIMIT,
            -COORD_LIMIT <= center <= COORD_LIMIT,
        ensures
            p == clamped_pan(zoomed_pan(old_pan as int, scale_old as int, scale_new as int, anchor as int, center as int)),
            -PAN_LIMIT <= p <= PAN_LIMIT,
    {
        let rel: i64 = anchor - center - old_pan;
        proof {
            lemma_mul_abs_bound(rel as int, scale_new as int, 2 * COORD_LIMIT + PAN_LIMIT, SCALE_MAX as int);
        }
        let num: i64 = rel * scale_new;
        let q: i64 = div_floor(num, scale_old);
        proof {
            if num >= 0 {
                lemma_div_pos_is_pos(num as int, scale_old as int);
                lemma_div_nonincreasing(num as int, scale_old as int);
            } else {
                lemma_fundamental_div_mod(num as int, scale_old as int);
                lemma_neg_div_bounds(num as int, scale_old as int, num as int / scale_old as int, num as int % scale_old as int);
            }
        }
        clamp_pan(anchor - center - q)
    }

    /// Change the zoom factor to `new_scale_raw` (clamped first, per policy)
    /// while keeping the image point under `(anchor_x, anchor_y)` fixed on
    /// screen; `(center_x, center_y)` is the midpoint of the available area.
    pub fn zoom_to(&mut self, new_scale_raw: i64, anchor_x: i64, anchor_y: i64, center_x: i64, center_y: i64)
        requires
            old(self).wf(),
            -COORD_LIMIT <= anchor_x <= COORD_LIMIT,
            -COORD_LIMIT <= anchor_y <= COORD_LIMIT,
            -COORD_LIMIT <= center_x <= COORD_LIMIT,
            -COORD_LIMIT <= center_y <= COORD_LIMIT,
        ensures
            final(self).wf(),
            final(self).scale == clamped_scale(new_scale_raw as int),
            final(self).pan_x == clamped_pan(zoomed_pan(old(self).pan_x as int, old(self).scale as int, final(self).scale as int, anchor_x as int, center_x as int)),
            final(self).pan_y == clamped_pan(zoomed_pan(old(self).pan_y as int, old(self).scale as int, final(self).scale as int, anchor_y as int, center_y as int)),
            final(self).image_size == old(self).image_size,
    {
        let scale_new = clamp_scale(new_scale_raw);
        let pan_x = Self::solve_anchor(self.pan_x, self.scale, scale_new, anchor_x, center_x);
        let pan_y = Self::solve_anchor(self.pan_y, self.scale, scale_new, anchor_y, center_y);
        self.scale = scale_new;
        self.pan_x = pan_x;
        self.pan_y = pan_y;
    }

    /// Change the zoom factor without an anchor (no pointer hovering over the
    /// drawing area from which to solve a pan offset).
    pub fn set_scale(&mut self, new_scale_raw: i64)
        requires
            old(self).wf(),
        ensures
            final(self).wf(),
            final(self).scale == clamped_scale(new_scale_raw as int),
            final(self).pan_x == old(self).pan_x,
            final(self).pan_y == old(self).pan_y,
            final(self).image_size == old(self).image_size,
    {
        self.scale = clamp_scale(new_scale_raw);
    }

    /// Add a screen-space drag delta to the pan offset, saturating at
    /// `PAN_LIMIT`.
    pub fn pan(&mut self, dx: i64, dy: i64)
        requires
            old(self).wf(),
            -COORD_LIMIT <= dx <= COORD_LIMIT,
            -COORD_LIMIT <= dy <= COORD_LIMIT,
        ensures
            final(self).wf(),
            final(self).pan_x == clamped_pan(old(self).pan_x + dx),
            final(self).pan_y == clamped_pan(old(self).pan_y + dy),
            final(self).scale == old(self).scale,
            final(self).image_size == old(self).image_size,
    {
        self.pan_x = clamp_pan(self.pan_x + dx);
        self.pan_y = clamp_pan(self.pan_y + dy);
    }

    /// Re-center the image and recompute the fit-to-window scale.  When no
    /// image is loaded or a dimension of the image is zero the scale is left
    /// alone; the pan offset is reset either way, as part of the same atomic
    /// action.
    pub fn reset_to_fit(&mut self, avail_w: i64, avail_h: i64)
        requires
            old(self).wf(),
            0 < avail_w <= COORD_LIMIT,
            0 < avail_h <= COORD_LIMIT,
        ensures
            final(self).wf(),
            final(self).pan_x == 0,
            final(self).pan_y == 0,
            final(self).image_size == old(self).image_size,
            final(self).scale == (if old(self).image_size matches Some((w, h)) && w > 0 && h > 0 {
                clamped_scale(fit_scale(old(self).image_size->Some_0.0, old(self).image_size->Some_0.1, avail_w as int, avail_h as int))
            } else {
                old(self).scale as int
            }),
    {
        self.pan_x = 0;
        self.pan_y = 0;
        if let Some((w, h)) = self.image_size {
            if let Some(s) = Self::fit_to_window(w, h, avail_w, avail_h) {
                self.scale = s;
            }
        }
    }

    /// Recompute the fit-to-window scale after the available area changed,
    /// leaving the pan offset alone (it is reset only when explicitly
    /// requested).  Without an image, or with a zero-sized one, the scale is
    /// left alone too.
    pub fn refit(&mut self, avail_w: i64, avail_h: i64)
        requires
            old(self).wf(),
            0 < avail_w <= COORD_LIMIT,
            0 < avail_h <= COORD_LIMIT,
        ensures
            final(self).wf(),
            final(self).pan_x == old(self).pan_x,
            final(self).pan_y == old(self).pan_y,
            final(self).image_size == old(self).image_size,
            final(self).scale == (if old(self).image_size matches Some((w, h)) && w > 0 && h > 0 {
                clamped_scale(fit_scale(old(self).image_size->Some_0.0, old(self).image_size->Some_0.1, avail_w as int, avail_h as int))
            } else {
                old(self).scale as int
            }),
    {
        if let Some((w, h)) = self.image_size {
            if let Some(s) = Self::fit_to_window(w, h, avail_w, avail_h) {
                self.scale = s;
            }
        }
    }

    /// Re-center the image and show it at its native size ("100%").
    pub fn reset_to_native(&mut self)
        requires
            old(self).wf(),
        ensures
            final(self).wf(),
            final(self).pan_x == 0,
            final(self).pan_y == 0,
            final(self).scale == SCALE_UNIT,
            final(self).image_size == old(self).image_size,
    {
        self.pan_x = 0;
        self.pan_y = 0;
        self.scale = SCALE_UNIT;
    }
}

/// Multiplying both sides of an inequality by a nonnegative factor keeps it.
proof fn lemma_mul_le_mono(a: int, b: int, c: int) by (nonlinear_arith)
    requires
        a <= b,
        0 <= c,
    ensures
        c * a <= c * b,
{
}

/// A product is bounded by the product of the factors' bounds.
proof fn lemma_mul_abs_bound(a: int, b: int, a_bound: int, b_bound: int) by (nonlinear_arith)
    requires
        -a_bound <= a <= a_bound,
        0 <= b <= b_bound,
    ensures
        -(a_bound * b_bound) <= a * b <= a_bound * b_bound,
{
}

/// Distribution of multiplication over a successor.
proof fn lemma_mul_succ(a: int, b: int) by (nonlinear_arith)
    ensures
        a * (b + 1) == a * b + a,
{
}

/// Multiplication commutes.
proof fn lemma_mul_comm(a: int, b: int) by (nonlinear_arith)
    ensures
        a * b == b * a,
{
}

/// Scale clamp law: whatever raw zoom factor an operation produces, the
/// stored factor lies in `SCALE_MIN ..= SCALE_MAX`, so repeated zoom steps
/// can never leave the range.
pub proof fn lemma_scale_always_in_range(raw: int)
    ensures
        SCALE_MIN <= clamped_scale(raw) <= SCALE_MAX,
{
}

/// Fit correctness law: at the fit-to-window scale the whole image fits in
/// the available area (`w * s <= avail_w` and `h * s <= avail_h`, in
/// thousandths of a pixel), and the scale is tight: one step more in either
/// axis ratio and some dimension would no longer fit.
pub proof fn lemma_fit_scale_correct(w: u32, h: u32, avail_w: int, avail_h: int)
    requires
        0 < w,
        0 < h,
        0 < avail_w,
        0 < avail_h,
    ensures
        w * fit_scale(w, h, avail_w, avail_h) <= avail_w,
        h * fit_scale(w, h, avail_w, avail_h) <= avail_h,
        w * (fit_scale(w, h, avail_w, avail_h) + 1) > avail_w
            || h * (fit_scale(w, h, avail_w, avail_h) + 1) > avail_h,
{
    let s = fit_scale(w, h, avail_w, avail_h);
    let qw = avail_w / w as int;
    let qh = avail_h / h as int;
    lemma_fundamental_div_mod(avail_w, w as int);
    lemma_fundamental_div_mod(avail_h, h as int);
    assert(avail_w == w * qw + avail_w % w as int);
    assert(avail_h == h * qh + avail_h % h as int);
    if qw <= qh {
        assert(s == qw);
        lemma_mul_le_mono(s, qh, h as int);
        lemma_mul_succ(w as int, qw);
    } else {
        assert(s == qh);
        lemma_mul_le_mono(s, qw, w as int);
        lemma_mul_succ(h as int, qh);
    }
}

/// Anchor invariant law: when the solved pan offset does not saturate, the
/// image point under the anchor before the zoom equals the one after it, up
/// to the one rounding step of the integer division.  In cross-multiplied
/// form: the relative anchor positions `rel_old = anchor - center - old_pan`
/// and `rel_new = anchor - center - new_pan`, which denote the image-space
/// points `rel_old / scale_old` and `rel_new / scale_new`, satisfy
/// `0 <= rel_old * scale_new - rel_new * scale_old < scale_old`, so the two
/// image-space points differ by less than `1 / scale_new` of a thousandth of
/// a pixel.
pub proof fn lemma_zoom_preserves_anchor(old_pan: int, scale_old: int, scale_new: int, anchor: int, center: int)
    requires
        SCALE_MIN <= scale_old <= SCALE_MAX,
        SCALE_MIN <= scale_new <= SCALE_MAX,
        -PAN_LIMIT <= zoomed_pan(old_pan, scale_old, scale_new, anchor, center) <= PAN_LIMIT,
    ensures
        ({
            let new_pan = clamped_pan(zoomed_pan(old_pan, scale_old, scale_new, anchor, center));
            let rel_old = anchor - center - old_pan;
            let rel_new = anchor - center - new_pan;
            0 <= rel_old * scale_new - rel_new * scale_old < scale_old
        }),
{
    let rel_old = anchor - center - old_pan;
    let q = (rel_old * scale_new) / scale_old;
    let r = (rel_old * scale_new) % scale_old;
    lemma_fundamental_div_mod(rel_old * scale_new, scale_old);
    assert(rel_old * scale_new == scale_old * q + r);
    let new_pan = clamped_pan(zoomed_pan(old_pan, scale_old, scale_new, anchor, center));
    assert(new_pan == anchor - center - q);
    let rel_new = anchor - center - new_pan;
    assert(rel_new == q);
    lemma_mul_comm(q, scale_old);
}

} // verus!
