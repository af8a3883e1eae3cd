use viewer_core::viewport::{Viewport, SCALE_MAX, SCALE_MIN, SCALE_UNIT, PAN_LIMIT};

#[test]
fn fit_scale_landscape_window() {
    // 200x100 image in a 800x800 (thousandths: 800_000) square area: the
    // width is the binding axis, scale = 800_000 / 200 = 4000 (x4).
    let s = Viewport::fit_to_window(200, 100, 800_000, 800_000).unwrap();
    assert_eq!(s, 4000);
    // the image fits: 200 * 4000 = 800_000 <= 800_000 (width is tight)
    assert!(200 * s <= 800_000);
    assert!(100 * s <= 800_000);
    assert_eq!(200 * (s + 1) > 800_000, true);
}

#[test]
fn fit_scale_portrait_window() {
    // 100x200 image in 900_000 x 600_000: height binds, 600_000/200 = 3000.
    let s = Viewport::fit_to_window(100, 200, 900_000, 600_000).unwrap();
    assert_eq!(s, 3000);
}

#[test]
fn fit_scale_rounds_down() {
    // 3x1 image in 1000 x 1_000_000: 1000/3 = 333 (rounded down), so the
    // image really fits: 3 * 333 = 999 <= 1000.
    let s = Viewport::fit_to_window(3, 1, 1000, 1_000_000).unwrap();
    assert_eq!(s, 333);
    assert!(3 * s <= 1000);
}

#[test]
fn fit_scale_clamps_to_bounds() {
    // A huge image in a small area clamps at the minimum zoom factor.
    let s = Viewport::fit_to_window(4_000_000, 4_000_000, 1000, 1000).unwrap();
    assert_eq!(s, SCALE_MIN);
    // A tiny image in a huge area clamps at the maximum.
    let s = Viewport::fit_to_window(1, 1, 10_000_000_000, 10_000_000_000).unwrap();
    assert_eq!(s, SCALE_MAX);
}

#[test]
fn fit_scale_zero_dimension_is_none() {
    assert!(Viewport::fit_to_window(0, 100, 800_000, 600_000).is_none());
    assert!(Viewport::fit_to_window(100, 0, 800_000, 600_000).is_none());
}

#[test]
fn zoom_preserves_anchor_point() {
    // Anchor invariant on concrete numbers: the image-space point under the
    // anchor is the same before and after the zoom, up to the one rounding
    // step: 0 <= rel_old * s_new - rel_new * s_old < s_old.
    let mut v = Viewport::new();
    v.pan_x = 5_000;
    v.pan_y = -3_000;
    let (anchor_x, anchor_y) = (120_000i64, 90_000i64);
    let (center_x, center_y) = (400_000i64, 300_000i64);
    let s_old = v.scale;
    let rel_old_x = anchor_x - center_x - v.pan_x;
    let rel_old_y = anchor_y - center_y - v.pan_y;
    v.zoom_to(2_500, anchor_x, anchor_y, center_x, center_y);
    assert_eq!(v.scale, 2_500);
    let rel_new_x = anchor_x - center_x - v.pan_x;
    let rel_new_y = anchor_y - center_y - v.pan_y;
    let err_x = rel_old_x * v.scale - rel_new_x * s_old;
    let err_y = rel_old_y * v.scale - rel_new_y * s_old;
    assert!(0 <= err_x && err_x < s_old);
    assert!(0 <= err_y && err_y < s_old);
}

#[test]
fn zoom_clamps_scale() {
    let mut v = Viewport::new();
    v.zoom_to(99_999, 0, 0, 0, 0);
    assert_eq!(v.scale, SCALE_MAX);
    v.zoom_to(-50, 0, 0, 0, 0);
    assert_eq!(v.scale, SCALE_MIN);
}

#[test]
fn repeated_zoom_stays_in_bounds() {
    // Scale clamp: a long run of zoom-in steps followed by zoom-out steps
    // never leaves [SCALE_MIN, SCALE_MAX].
    let mut v = Viewport::new();
    for _ in 0..200 {
        let raw = v.scale.saturating_mul(11) / 10;
        v.zoom_to(raw, 10_000, 10_000, 0, 0);
        assert!(SCALE_MIN <= v.scale && v.scale <= SCALE_MAX);
    }
    assert_eq!(v.scale, SCALE_MAX);
    for _ in 0..200 {
        let raw = v.scale * 10 / 11;
        v.zoom_to(raw, 10_000, 10_000, 0, 0);
        assert!(SCALE_MIN <= v.scale && v.scale <= SCALE_MAX);
    }
    assert_eq!(v.scale, SCALE_MIN);
}

#[test]
fn pan_adds_and_saturates() {
    let mut v = Viewport::new();
    v.pan(1_500, -2_500);
    v.pan(500, 500);
    assert_eq!(v.pan_x, 2_000);
    assert_eq!(v.pan_y, -2_000);
    v.pan_x = PAN_LIMIT - 1;
    v.pan(10, 0);
    assert_eq!(v.pan_x, PAN_LIMIT);
}

#[test]
fn reset_to_fit_recenters_and_refits() {
    let mut v = Viewport::new();
    v.image_size = Some((100, 100));
    v.pan_x = 7_000;
    v.pan_y = 9_000;
    v.reset_to_fit(500_000, 400_000);
    assert_eq!((v.pan_x, v.pan_y), (0, 0));
    assert_eq!(v.scale, 4000);
}

#[test]
fn reset_to_native_shows_full_size() {
    let mut v = Viewport::new();
    v.image_size = Some((100, 100));
    v.scale = 4000;
    v.pan_x = 7_000;
    v.reset_to_native();
    assert_eq!((v.pan_x, v.pan_y), (0, 0));
    assert_eq!(v.scale, SCALE_UNIT);
}
