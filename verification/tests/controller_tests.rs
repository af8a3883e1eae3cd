use viewer_core::config::DisplayMode;
use viewer_core::controller::{InputSnapshot, ViewerSession};
use viewer_core::nav::NavDirection;
use viewer_core::gesture::GESTURE_THRESHOLD;

fn quiet_input() -> InputSnapshot {
    InputSnapshot {
        avail_min_x: 0,
        avail_min_y: 0,
        avail_w: 800_000,
        avail_h: 600_000,
        pointer: None,
        wheel: 0,
        drag_dx: 0,
        drag_dy: 0,
        dragging: false,
        gesture_pressed: false,
        gesture_held: false,
        gesture_released: false,
        key_next: false,
        key_prev: false,
        key_fit: false,
        key_native: false,
        key_open: false,
        key_zoom_in: false,
        key_zoom_out: false,
    }
}

#[test]
fn vector_zoom_rerenders_with_hysteresis() {
    // End-to-end: a 100x100 vector document at scale 1.0 is cached at
    // 100x100; zooming to 1.5 re-renders at 150x150; a further nudge to
    // ~1.52 stays inside the hysteresis band and keeps the 150x150 bitmap.
    let mut s = ViewerSession::new(DisplayMode::Original);
    s.commit_vector_load(100, 100, b"/d/a.svg".to_vec(), 1, 1000, 100, 100, None);

    // wheel travel of 500 pixels: factor 1.5; the cache is judged before the
    // zoom lands, so this tick sees no staleness yet
    let mut input = quiet_input();
    input.wheel = 500;
    let out = s.tick(&input);
    assert!(out.rerender.is_none());
    assert_eq!(s.viewport.scale, 1500);

    // next tick: 1.5 vs rendered 1.0 is far outside the band
    let out = s.tick(&quiet_input());
    let rq = out.rerender.expect("stale cache must request a render");
    assert_eq!((rq.width, rq.height, rq.scale), (150, 150, 1500));
    s.commit_render(rq.scale, 2, rq.width, rq.height);
    assert_eq!(out.handle, Some(1)); // the old bitmap was still drawn this tick

    // quiet tick: cache now matches, nothing to do
    let out = s.tick(&quiet_input());
    assert!(out.rerender.is_none());
    assert_eq!(out.handle, Some(2));

    // nudge the scale by ~1.3 percent: 1500 * 1013/1000 = 1519; the band
    // holds and the 150x150 bitmap stays
    let mut input = quiet_input();
    input.wheel = 13;
    let out = s.tick(&input);
    assert!(out.rerender.is_none());
    assert_eq!(s.viewport.scale, 1519);
    let out = s.tick(&quiet_input());
    assert!(out.rerender.is_none());
    assert_eq!(out.handle, Some(2));
    // the placement stretches the cached bitmap to the logical size
    let pl = out.placement.unwrap();
    assert_eq!((pl.width, pl.height), (100 * 1519, 100 * 1519));
}

#[test]
fn placement_centers_and_pans() {
    let mut s = ViewerSession::new(DisplayMode::Original);
    s.commit_raster_load(100, 50, b"/d/a.png".to_vec(), 9, 800_000, 600_000, None);
    assert_eq!(s.viewport.scale, 1000);
    let mut input = quiet_input();
    input.drag_dx = 10_000;
    input.drag_dy = -4_000;
    input.dragging = true;
    let out = s.tick(&input);
    let pl = out.placement.unwrap();
    // centered: (800_000 - 100_000)/2 + pan 10_000; (600_000 - 50_000)/2 - 4_000
    assert_eq!(pl.x, 350_000 + 10_000);
    assert_eq!(pl.y, 275_000 - 4_000);
    assert_eq!((pl.width, pl.height), (100_000, 50_000));
    assert_eq!(out.handle, Some(9));
}

#[test]
fn fit_mode_refits_on_resize_only() {
    let mut s = ViewerSession::new(DisplayMode::FitWindow);
    s.commit_raster_load(100, 100, b"/d/a.png".to_vec(), 1, 800_000, 600_000, None);
    assert_eq!(s.viewport.scale, 6000); // fit against the load-time area
    let out = s.tick(&quiet_input());
    assert!(out.open_dialog == false);
    assert_eq!(s.viewport.scale, 6000);
    // drag pans without disturbing the fit
    let mut input = quiet_input();
    input.dragging = true;
    input.drag_dx = 1_000;
    s.tick(&input);
    assert_eq!(s.viewport.pan_x, 1_000);
    // a resize recomputes the fit scale but keeps the pan offset
    let mut input = quiet_input();
    input.avail_w = 400_000;
    input.avail_h = 600_000;
    s.tick(&input);
    assert_eq!(s.viewport.scale, 4000);
    assert_eq!(s.viewport.pan_x, 1_000);
}

#[test]
fn original_mode_ignores_resize() {
    let mut s = ViewerSession::new(DisplayMode::Original);
    s.commit_raster_load(100, 100, b"/d/a.png".to_vec(), 1, 800_000, 600_000, None);
    assert_eq!(s.viewport.scale, 1000);
    let mut input = quiet_input();
    input.avail_w = 400_000;
    s.tick(&input);
    assert_eq!(s.viewport.scale, 1000);
}

#[test]
fn fit_and_native_keys_reset_view() {
    let mut s = ViewerSession::new(DisplayMode::Original);
    s.commit_raster_load(100, 100, b"/d/a.png".to_vec(), 1, 800_000, 600_000, None);
    let mut input = quiet_input();
    input.dragging = true;
    input.drag_dx = 5_000;
    s.tick(&input);
    let mut input = quiet_input();
    input.key_fit = true;
    s.tick(&input);
    assert_eq!((s.viewport.pan_x, s.viewport.pan_y), (0, 0));
    assert_eq!(s.viewport.scale, 6000);
    let mut input = quiet_input();
    input.key_native = true;
    s.tick(&input);
    assert_eq!(s.viewport.scale, 1000);
}

#[test]
fn keyboard_zoom_steps_scale() {
    let mut s = ViewerSession::new(DisplayMode::Original);
    s.commit_raster_load(100, 100, b"/d/a.png".to_vec(), 1, 800_000, 600_000, None);
    let mut input = quiet_input();
    input.key_zoom_in = true;
    s.tick(&input);
    assert_eq!(s.viewport.scale, 1100);
    let mut input = quiet_input();
    input.key_zoom_out = true;
    s.tick(&input);
    assert_eq!(s.viewport.scale, 1000);
}

#[test]
fn wheel_zoom_anchors_on_pointer() {
    let mut s = ViewerSession::new(DisplayMode::Original);
    s.commit_raster_load(100, 100, b"/d/a.png".to_vec(), 1, 800_000, 600_000, None);
    let mut input = quiet_input();
    input.pointer = Some((500_000, 300_000));
    input.wheel = 1000; // doubles the scale
    let s_old = s.viewport.scale;
    s.tick(&input);
    assert_eq!(s.viewport.scale, 2000);
    // the image point under the pointer stayed put (cross-multiplied check,
    // center of the area is (400_000, 300_000))
    let rel_old_x = 500_000 - 400_000 - 0;
    let rel_new_x = 500_000 - 400_000 - s.viewport.pan_x;
    let err = rel_old_x * s.viewport.scale - rel_new_x * s_old;
    assert!(0 <= err && err < s_old);
    assert_eq!(s.viewport.pan_y, 0); // pointer sat on the vertical center
}

#[test]
fn arrow_key_requests_wrapped_navigation() {
    let mut s = ViewerSession::new(DisplayMode::Original);
    let listing = vec![b"/d/a.png".to_vec(), b"/d/b.png".to_vec(), b"/d/c.png".to_vec()];
    s.rebuild_navigation(&listing, &b"/d/c.png".to_vec());
    s.commit_raster_load(10, 10, b"/d/c.png".to_vec(), 1, 800_000, 600_000, None);
    let mut input = quiet_input();
    input.key_next = true;
    let out = s.tick(&input);
    let (idx, path) = out.navigate_to.expect("navigation requested");
    assert_eq!(idx, 0);
    assert_eq!(path, b"/d/a.png".to_vec());
    // the index is committed only after the load succeeded
    assert_eq!(s.nav.current_index, Some(2));
    s.commit_raster_load(10, 10, path, 2, 800_000, 600_000, Some(idx));
    assert_eq!(s.nav.current_index, Some(0));
    // and from the front, backwards wraps to the back
    let mut input = quiet_input();
    input.key_prev = true;
    let out = s.tick(&input);
    assert_eq!(out.navigate_to.unwrap().0, 2);
}

#[test]
fn gesture_swipe_navigates_next() {
    let mut s = ViewerSession::new(DisplayMode::Original);
    let listing = vec![b"/d/a.png".to_vec(), b"/d/b.png".to_vec()];
    s.rebuild_navigation(&listing, &b"/d/a.png".to_vec());
    s.commit_raster_load(10, 10, b"/d/a.png".to_vec(), 1, 800_000, 600_000, None);
    // press the trigger button, stroke rightward, release
    let mut input = quiet_input();
    input.gesture_pressed = true;
    input.gesture_held = true;
    input.pointer = Some((100_000, 100_000));
    s.tick(&input);
    let mut input = quiet_input();
    input.gesture_held = true;
    input.pointer = Some((100_000 + GESTURE_THRESHOLD, 100_000));
    s.tick(&input);
    let mut input = quiet_input();
    input.gesture_released = true;
    let out = s.tick(&input);
    assert_eq!(out.navigate_to.unwrap().0, 1);
    assert!(!s.gesture.active);
}

#[test]
fn gesture_button_suppresses_drag_pan() {
    let mut s = ViewerSession::new(DisplayMode::Original);
    s.commit_raster_load(10, 10, b"/d/a.png".to_vec(), 1, 800_000, 600_000, None);
    let mut input = quiet_input();
    input.dragging = true;
    input.drag_dx = 5_000;
    input.gesture_held = true;
    s.tick(&input);
    assert_eq!(s.viewport.pan_x, 0);
}

#[test]
fn open_dialog_key_yields_to_navigation() {
    let mut s = ViewerSession::new(DisplayMode::Original);
    s.commit_raster_load(10, 10, b"/d/a.png".to_vec(), 1, 800_000, 600_000, None);
    let mut input = quiet_input();
    input.key_open = true;
    let out = s.tick(&input);
    assert!(out.open_dialog);
    let mut input = quiet_input();
    input.key_open = true;
    input.key_next = true;
    let out = s.tick(&input);
    assert!(!out.open_dialog);
}

#[test]
fn no_image_means_no_input_handling() {
    let mut s = ViewerSession::new(DisplayMode::Original);
    let mut input = quiet_input();
    input.key_zoom_in = true;
    input.key_next = true;
    let out = s.tick(&input);
    assert!(out.navigate_to.is_none());
    assert!(out.placement.is_none());
    assert!(out.handle.is_none());
    assert!(!out.open_dialog);
    assert_eq!(s.viewport.scale, 1000);
}

#[test]
fn scale_percent_for_title() {
    let mut s = ViewerSession::new(DisplayMode::Original);
    s.commit_raster_load(10, 10, b"/d/a.png".to_vec(), 1, 800_000, 600_000, None);
    assert_eq!(s.scale_percent(), 100);
    let mut input = quiet_input();
    input.wheel = 500;
    s.tick(&input);
    assert_eq!(s.scale_percent(), 150);
}

#[test]
fn load_scale_matches_mode() {
    let s = ViewerSession::new(DisplayMode::FitWindow);
    assert_eq!(s.load_scale(100, 100, 800_000, 600_000), 6000);
    assert_eq!(s.load_scale(0, 100, 800_000, 600_000), 1000); // zero-sized image
    let s = ViewerSession::new(DisplayMode::Original);
    assert_eq!(s.load_scale(100, 100, 800_000, 600_000), 1000);
}
