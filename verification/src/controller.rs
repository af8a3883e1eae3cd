//! Frame controller: one viewer session, advanced once per UI tick.  Each
//! tick consumes a snapshot of the input state and yields what the host
//! shell must do: re-rasterize a stale vector bitmap, load a neighbouring
//! image, open a file dialog, and where to draw the current texture.  Loads
//! and rasterizations are performed outside and committed back here, so a
//! failed one leaves the session exactly as it was.

use vstd::prelude::*;

verus! {

use crate::cache::{LoadedImage, needs_rerender, target_dims, target_dim, stale};
use crate::config::DisplayMode;
use crate::gesture::{GestureState, GestureModel, begin_step, sample_step, resolved_action};
use crate::nav::{NavigationList, NavDirection, advanced_index, keeps_supported, paths_view};
use crate::viewport::{
    Viewport,
    COORD_LIMIT,
    SCALE_UNIT,
    SCALE_MIN,
    SCALE_MAX,
    clamped_scale,
    clamped_pan,
    zoomed_pan,
    fit_scale,
    div_floor,
};

/// Bound on one tick's wheel travel, in pixels.
pub const WHEEL_LIMIT: i64 = 1_000_000;

/// A clamped zoom factor times one tick's wheel factor stays far inside the
/// 64-bit range.
proof fn lemma_wheel_product_bound(scale: int, factor: int) by (nonlinear_arith)
    requires
        0 <= scale <= SCALE_MAX,
        -WHEEL_LIMIT <= factor <= WHEEL_LIMIT + 1000,
    ensures
        -(SCALE_MAX * (WHEEL_LIMIT + 1000)) <= scale * factor <= SCALE_MAX * (WHEEL_LIMIT + 1000),
{
}

/// Everything the core reads from the host toolkit in one tick.  Lengths and
/// positions are in thousandths of a pixel; `wheel` is in whole pixels of
/// scroll travel (each pixel scales the zoom factor by a thousandth).
pub struct InputSnapshot {
    /// Top-left corner of the available drawing area.
    pub avail_min_x: i64,
    pub avail_min_y: i64,
    /// Size of the available drawing area.
    pub avail_w: i64,
    pub avail_h: i64,
    /// Pointer position, if the pointer hovers the drawing area.
    pub pointer: Option<(i64, i64)>,
    /// Vertical scroll travel this tick, in pixels.
    pub wheel: i64,
    /// Primary-button drag delta this tick.
    pub drag_dx: i64,
    pub drag_dy: i64,
    /// Whether a primary-button drag is in progress.
    pub dragging: bool,
    /// Whether the gesture trigger button went down this tick.
    pub gesture_pressed: bool,
    /// Whether the gesture trigger button is held.
    pub gesture_held: bool,
    /// Whether the gesture trigger button went up this tick.
    pub gesture_released: bool,
    /// Key presses this tick.
    pub key_next: bool,
    pub key_prev: bool,
    pub key_fit: bool,
    pub key_native: bool,
    pub key_open: bool,
    pub key_zoom_in: bool,
    pub key_zoom_out: bool,
}

impl InputSnapshot {
    /// The drawing area is nonempty and lies, like the pointer, within the
    /// coordinate bound; drag and wheel travel are bounded the same way.
    pub open spec fn wf(self) -> bool {
        &&& -COORD_LIMIT <= self.avail_min_x
        &&& -COORD_LIMIT <= self.avail_min_y
        &&& 0 < self.avail_w <= COORD_LIMIT
        &&& 0 < self.avail_h <= COORD_LIMIT
        &&& self.avail_min_x + self.avail_w <= COORD_LIMIT
        &&& self.avail_min_y + self.avail_h <= COORD_LIMIT
        &&& (self.pointer matches Some((x, y)) ==> -COORD_LIMIT <= x <= COORD_LIMIT
            && -COORD_LIMIT <= y <= COORD_LIMIT)
        &&& -WHEEL_LIMIT <= self.wheel <= WHEEL_LIMIT
        &&& -COORD_LIMIT <= self.drag_dx <= COORD_LIMIT
        &&& -COORD_LIMIT <= self.drag_dy <= COORD_LIMIT
    }
}

/// A request to rasterize the loaded vector document again: the bitmap
/// dimensions to allocate and the zoom factor to record on success.
pub struct RenderRequest {
    pub width: u64,
    pub height: u64,
    pub scale: i64,
}

/// Where the current texture goes on screen, in thousandths of a pixel.
pub struct Placement {
    pub x: i64,
    pub y: i64,
    pub width: i64,
    pub height: i64,
}

/// What one tick asks of the host shell.
pub struct FrameOutput {
    /// Load the image at this index and path, then commit the load and the
    /// index; on failure change nothing.
    pub navigate_to: Option<(usize, Vec<u8>)>,
    /// Rasterize the loaded vector document at these dimensions, then commit
    /// the render; on allocation failure keep the previous bitmap.
    pub rerender: Option<RenderRequest>,
    /// Draw the current texture here.
    pub placement: Option<Placement>,
    /// The texture to draw.
    pub handle: Option<u64>,
    /// Ask the user for a file to open.
    pub open_dialog: bool,
}

/// One viewer session: the composed state of the four components.
pub struct ViewerSession {
    pub mode: DisplayMode,
    pub viewport: Viewport,
    pub image: Option<LoadedImage>,
    pub nav: NavigationList,
    pub gesture: GestureState,
    /// The drawing-area size of the previous tick, to detect resizes.
    pub last_avail: Option<(i64, i64)>,
}

impl ViewerSession {
    /// Component invariants hold and the viewport's logical image size is
    /// the loaded image's.
    pub open spec fn wf(self) -> bool {
        &&& self.viewport.wf()
        &&& self.nav.wf()
        &&& self.gesture.wf()
        &&& (self.image matches Some(im) ==> im.wf() && self.viewport.image_size == Some(
            im.spec_size(),
        ))
        &&& (self.image is None ==> self.viewport.image_size is None)
    }

    /// A fresh session: no image, native scale, empty list, idle recognizer.
    pub fn new(mode: DisplayMode) -> (s: ViewerSession)
        ensures
            s.wf(),
            s.mode == mode,
            s.image is None,
            s.nav.entries@.len() == 0,
            s.viewport.scale == SCALE_UNIT,
            s.viewport.pan_x == 0,
            s.viewport.pan_y == 0,
            s.last_avail is None,
    {
        ViewerSession {
            mode,
            viewport: Viewport::new(),
            image: None,
            nav: NavigationList::new(),
            gesture: GestureState::new(),
            last_avail: None,
        }
    }
}

/// The zoom factor a freshly loaded image of `w` by `h` pixels is shown at:
/// the fit-to-window factor in fit mode (when the image has real size), the
/// native factor otherwise.
pub open spec fn load_scale_spec(mode: DisplayMode, w: u32, h: u32, avail_w: int, avail_h: int) -> int {
    if mode == DisplayMode::FitWindow && w > 0 && h > 0 {
        clamped_scale(fit_scale(w, h, avail_w, avail_h))
    } else {
        SCALE_UNIT as int
    }
}

impl ViewerSession {
    /// The zoom factor an image of `w` by `h` pixels will be shown at when
    /// its load is committed against an available area of `avail_w` by
    /// `avail_h`: what a vector document must be rasterized at first.
    pub fn load_scale(&self, w: u32, h: u32, avail_w: i64, avail_h: i64) -> (r: i64)
        requires
            0 < avail_w <= COORD_LIMIT,
            0 < avail_h <= COORD_LIMIT,
        ensures
            r == load_scale_spec(self.mode, w, h, avail_w as int, avail_h as int),
            SCALE_MIN <= r <= SCALE_MAX,
    {
        if matches!(self.mode, DisplayMode::FitWindow) {
            if let Some(s) = Viewport::fit_to_window(w, h, avail_w, avail_h) {
                return s;
            }
        }
        SCALE_UNIT
    }

    /// Commit a decoded raster image: it replaces the current image
    /// wholesale, the pan offset is reset, and the scale is the load scale.
    /// Called only after the decode succeeded and the texture was uploaded;
    /// on a decode failure the previous image and view state stay untouched.
    pub fn commit_raster_load(
        &mut self,
        width: u32,
        height: u32,
        path: Vec<u8>,
        handle: u64,
        avail_w: i64,
        avail_h: i64,
        nav_index: Option<usize>,
    )
        requires
            old(self).wf(),
            0 < avail_w <= COORD_LIMIT,
            0 < avail_h <= COORD_LIMIT,
            nav_index matches Some(i) ==> i < old(self).nav.entries@.len(),
        ensures
            final(self).wf(),
            final(self).mode == old(self).mode,
            final(self).image matches Some(im) && im == (LoadedImage::Raster {
                handle,
                width,
                height,
                path,
            }),
            final(self).viewport.scale == load_scale_spec(
                old(self).mode,
                width,
                height,
                avail_w as int,
                avail_h as int,
            ),
            final(self).viewport.pan_x == 0,
            final(self).viewport.pan_y == 0,
            final(self).viewport.image_size == Some((width, height)),
            final(self).nav.entries == old(self).nav.entries,
            final(self).nav.current_index == (if nav_index is Some {
                nav_index
            } else {
                old(self).nav.current_index
            }),
            final(self).last_avail == old(self).last_avail,
            final(self).gesture == old(self).gesture,
    {
        let scale = self.load_scale(width, height, avail_w, avail_h);
        self.viewport.image_size = Some((width, height));
        self.viewport.pan_x = 0;
        self.viewport.pan_y = 0;
        self.viewport.scale = scale;
        self.image = Some(LoadedImage::Raster { handle, width, height, path });
        if let Some(i) = nav_index {
            self.nav.commit_index(i);
        }
    }

    /// Commit a parsed and first-rasterized vector document: it replaces the
    /// current image wholesale, the pan offset is reset, the scale is the
    /// load scale, and the cached bitmap records the scale it was rendered
    /// at.  Called only after parsing, rasterization and upload succeeded.
    pub fn commit_vector_load(
        &mut self,
        intrinsic_width: u32,
        intrinsic_height: u32,
        path: Vec<u8>,
        handle: u64,
        rendered_scale: i64,
        bitmap_width: u64,
        bitmap_height: u64,
        nav_index: Option<usize>,
    )
        requires
            old(self).wf(),
            SCALE_MIN <= rendered_scale <= SCALE_MAX,
            bitmap_width == target_dim(intrinsic_width, rendered_scale as int),
            bitmap_height == target_dim(intrinsic_height, rendered_scale as int),
            nav_index matches Some(i) ==> i < old(self).nav.entries@.len(),
        ensures
            final(self).wf(),
            final(self).mode == old(self).mode,
            final(self).image matches Some(im) && im == (LoadedImage::Vector {
                handle,
                intrinsic_width,
                intrinsic_height,
                last_rendered_scale: rendered_scale,
                bitmap_width,
                bitmap_height,
                path,
            }),
            final(self).viewport.scale == rendered_scale,
            final(self).viewport.pan_x == 0,
            final(self).viewport.pan_y == 0,
            final(self).viewport.image_size == Some((intrinsic_width, intrinsic_height)),
            final(self).nav.entries == old(self).nav.entries,
            final(self).nav.current_index == (if nav_index is Some {
                nav_index
            } else {
                old(self).nav.current_index
            }),
            final(self).last_avail == old(self).last_avail,
            final(self).gesture == old(self).gesture,
    {
        self.viewport.image_size = Some((intrinsic_width, intrinsic_height));
        self.viewport.pan_x = 0;
        self.viewport.pan_y = 0;
        self.viewport.scale = rendered_scale;
        self.image = Some(
            LoadedImage::Vector {
                handle,
                intrinsic_width,
                intrinsic_height,
                last_rendered_scale: rendered_scale,
                bitmap_width,
                bitmap_height,
                path,
            },
        );
        if let Some(i) = nav_index {
            self.nav.commit_index(i);
        }
    }

    /// Whether the loaded image is a vector document (so a `RenderRequest`
    /// can be committed against it).
    pub fn has_vector_image(&self) -> (r: bool)
        ensures
            r == (self.image matches Some(im) && im is Vector),
    {
        match &self.image {
            Some(LoadedImage::Vector { .. }) => true,
            _ => false,
        }
    }

    /// Commit a fresh rasterization of the loaded vector document, replacing
    /// the cached bitmap.  Called only when the external rasterizer
    /// succeeded; on allocation failure nothing is committed and the
    /// previous bitmap stays in use.
    pub fn commit_render(&mut self, scale: i64, new_handle: u64, bitmap_w: u64, bitmap_h: u64)
        requires
            old(self).wf(),
            old(self).image matches Some(im) && im is Vector,
            SCALE_MIN <= scale <= SCALE_MAX,
            bitmap_w == target_dim(old(self).image->Some_0.spec_size().0, scale as int),
            bitmap_h == target_dim(old(self).image->Some_0.spec_size().1, scale as int),
        ensures
            final(self).wf(),
            final(self).image matches Some(im) && im is Vector && im.spec_size() == old(
                self,
            ).image->Some_0.spec_size() && im.spec_path() == old(self).image->Some_0.spec_path()
                && im.spec_handle() == new_handle && (im matches LoadedImage::Vector {
                last_rendered_scale,
                bitmap_width,
                bitmap_height,
                ..
            } && last_rendered_scale == scale && bitmap_width == bitmap_w && bitmap_height
                == bitmap_h),
            final(self).viewport == old(self).viewport,
            final(self).mode == old(self).mode,
            final(self).nav == old(self).nav,
            final(self).gesture == old(self).gesture,
            final(self).last_avail == old(self).last_avail,
    {
        if let Some(im) = &mut self.image {
            im.commit_render(scale, new_handle, bitmap_w, bitmap_h);
        }
    }

    /// Commit a navigation step once the image at `index` has loaded.
    pub fn commit_nav(&mut self, index: usize)
        requires
            old(self).wf(),
            index < old(self).nav.entries@.len(),
        ensures
            final(self).wf(),
            final(self).nav.entries == old(self).nav.entries,
            final(self).nav.current_index == Some(index),
            final(self).viewport == old(self).viewport,
            final(self).image == old(self).image,
            final(self).mode == old(self).mode,
            final(self).gesture == old(self).gesture,
            final(self).last_avail == old(self).last_avail,
    {
        self.nav.commit_index(index);
    }

    /// Replace the navigation list from a fresh directory listing: keep the
    /// entries with a recognized image extension, sorted lexicographically,
    /// and point at the first occurrence of `opened` (at index 0 when it is
    /// absent).  Nothing else of the session changes; on a directory read
    /// failure the shell never calls this and the previous list stays.
    pub fn rebuild_navigation(&mut self, listing: &Vec<Vec<u8>>, opened: &Vec<u8>)
        requires
            old(self).wf(),
        ensures
            final(self).wf(),
            paths_view(final(self).nav.entries@).to_multiset() == keeps_supported(
                paths_view(listing@),
            ).to_multiset(),
            final(self).nav.entries@.len() == keeps_supported(paths_view(listing@)).len(),
            (final(self).nav.current_index is Some <==> final(self).nav.entries@.len() > 0),
            (final(self).nav.current_index matches Some(ix) ==> if (exists|j: int|
                0 <= j < final(self).nav.entries@.len() && final(self).nav.entries@[j]@
                    == opened@) {
                &&& final(self).nav.entries@[ix as int]@ == opened@
                &&& forall|j: int| 0 <= j < ix ==> final(self).nav.entries@[j]@ != opened@
            } else {
                ix == 0
            }),
            final(self).viewport == old(self).viewport,
            final(self).image == old(self).image,
            final(self).mode == old(self).mode,
            final(self).gesture == old(self).gesture,
            final(self).last_avail == old(self).last_avail,
    {
        self.nav.rebuild(listing, opened);
    }

    /// The zoom factor as a whole percentage, for the title bar.
    pub fn scale_percent(&self) -> (r: i64)
        requires
            self.wf(),
        ensures
            r == self.viewport.scale as int / 10,
    {
        self.viewport.scale / 10
    }
}

/// The viewport as a plain triple (scale, horizontal pan, vertical pan),
/// which the tick transition is written over.
pub open spec fn vp_state(v: Viewport) -> (int, int, int) {
    (v.scale as int, v.pan_x as int, v.pan_y as int)
}

/// The horizontal screen coordinate zoom anchors on: the pointer when it
/// hovers, else the center of the available area.
pub open spec fn anchor_x(input: InputSnapshot) -> int {
    match input.pointer {
        Option::Some((x, _)) => x as int,
        Option::None => input.avail_min_x + input.avail_w / 2,
    }
}

/// The vertical screen coordinate zoom anchors on.
pub open spec fn anchor_y(input: InputSnapshot) -> int {
    match input.pointer {
        Option::Some((_, y)) => y as int,
        Option::None => input.avail_min_y + input.avail_h / 2,
    }
}

/// One anchored zoom of the viewport triple to the clamped `raw` factor.
pub open spec fn vp_zoom(st: (int, int, int), raw: int, input: InputSnapshot) -> (int, int, int) {
    let scale_new = clamped_scale(raw);
    let cx = input.avail_min_x + input.avail_w / 2;
    let cy = input.avail_min_y + input.avail_h / 2;
    (
        scale_new,
        clamped_pan(zoomed_pan(st.1, st.0, scale_new, anchor_x(input), cx)),
        clamped_pan(zoomed_pan(st.2, st.0, scale_new, anchor_y(input), cy)),
    )
}

/// Fit-scale recomputation when the available area changed since the last
/// tick (fit mode only); the pan offset is untouched.
pub open spec fn vp_refit(
    st: (int, int, int),
    image_size: Option<(u32, u32)>,
    mode: DisplayMode,
    last_avail: Option<(i64, i64)>,
    input: InputSnapshot,
) -> (int, int, int) {
    if mode == DisplayMode::FitWindow && last_avail != Some((input.avail_w, input.avail_h)) {
        match image_size {
            Option::Some((w, h)) => if w > 0 && h > 0 {
                (
                    clamped_scale(fit_scale(w, h, input.avail_w as int, input.avail_h as int)),
                    st.1,
                    st.2,
                )
            } else {
                st
            },
            Option::None => st,
        }
    } else {
        st
    }
}

/// The two discrete view-reset keys: fit-to-window and native size, both of
/// which re-center the image as part of the same action.  Navigation keys
/// take precedence and leave the viewport to the load that follows.
pub open spec fn vp_reset_keys(
    st: (int, int, int),
    image_size: Option<(u32, u32)>,
    input: InputSnapshot,
) -> (int, int, int) {
    if input.key_next || input.key_prev {
        st
    } else if input.key_fit {
        match image_size {
            Option::Some((w, h)) => if w > 0 && h > 0 {
                (
                    clamped_scale(fit_scale(w, h, input.avail_w as int, input.avail_h as int)),
                    0,
                    0,
                )
            } else {
                (st.0, 0, 0)
            },
            Option::None => (st.0, 0, 0),
        }
    } else if input.key_native {
        (SCALE_UNIT as int, 0, 0)
    } else {
        st
    }
}

/// The keyboard zoom step: one anchored zoom in (factor 11/10) or out
/// (factor 10/11).
pub open spec fn vp_zoom_keys(st: (int, int, int), input: InputSnapshot) -> (int, int, int) {
    if input.key_zoom_in {
        vp_zoom(st, st.0 * 11 / 10, input)
    } else if input.key_zoom_out {
        vp_zoom(st, st.0 * 10 / 11, input)
    } else {
        st
    }
}

/// The wheel zoom step: one anchored zoom by a thousandth per pixel of
/// scroll travel.
pub open spec fn vp_wheel(st: (int, int, int), input: InputSnapshot) -> (int, int, int) {
    if input.wheel != 0 {
        vp_zoom(st, st.0 * (1000 + input.wheel) / 1000, input)
    } else {
        st
    }
}

/// The primary-button drag: a saturated pan, unless the gesture trigger
/// button is held (panning and gesture strokes are mutually exclusive).
pub open spec fn vp_drag(st: (int, int, int), input: InputSnapshot) -> (int, int, int) {
    if input.dragging && !input.gesture_held {
        (st.0, clamped_pan(st.1 + input.drag_dx), clamped_pan(st.2 + input.drag_dy))
    } else {
        st
    }
}

/// The whole tick's effect on the viewport: fit recomputation on resize,
/// then, only while an image is displayed, the reset keys, the keyboard
/// zoom, the wheel zoom and the drag, in the order the input is consumed.
pub open spec fn vp_after_tick(s: ViewerSession, input: InputSnapshot) -> (int, int, int) {
    let st = vp_refit(vp_state(s.viewport), s.viewport.image_size, s.mode, s.last_avail, input);
    if s.image is Some {
        vp_drag(
            vp_wheel(vp_zoom_keys(vp_reset_keys(st, s.viewport.image_size, input), input), input),
            input,
        )
    } else {
        st
    }
}

/// The recognizer state after this tick's button edges and pointer sample
/// are folded in (before a release resolves and resets it).
pub open spec fn gesture_after_feed(g: GestureModel, input: InputSnapshot) -> GestureModel {
    match input.pointer {
        Option::Some((px, py)) => if input.gesture_pressed {
            begin_step(px as int, py as int)
        } else if input.gesture_held && g.active {
            sample_step(g, px as int, py as int)
        } else {
            g
        },
        Option::None => g,
    }
}

/// The idle recognizer model.
pub open spec fn gesture_idle() -> GestureModel {
    GestureModel { active: false, last: None, dirs: Seq::empty() }
}

/// The navigation step this tick asks for: the arrow keys first, else a
/// released gesture's resolved action.
pub open spec fn nav_request(s: ViewerSession, input: InputSnapshot) -> Option<NavDirection> {
    if input.key_next {
        Some(NavDirection::Next)
    } else if input.key_prev {
        Some(NavDirection::Prev)
    } else if input.gesture_released {
        resolved_action(gesture_after_feed(s.gesture@, input).dirs)
    } else {
        None
    }
}

/// One placement coordinate: the image is centered in the available area
/// and shifted by the pan offset; `dim * scale` is the displayed length in
/// thousandths of a pixel.
pub open spec fn placement_coord(avail_min: int, avail_len: int, dim: u32, scale: int, pan: int) -> int {
    avail_min + (avail_len - dim * scale) / 2 + pan
}

/// Consume this tick's view input on the viewport: the reset keys, the
/// keyboard zoom, the wheel zoom and the drag, in that order.
fn apply_view_input(vp: &mut Viewport, input: &InputSnapshot)
    requires
        old(vp).wf(),
        input.wf(),
    ensures
        final(vp).wf(),
        final(vp).image_size == old(vp).image_size,
        vp_state(*final(vp)) == vp_drag(
            vp_wheel(
                vp_zoom_keys(
                    vp_reset_keys(vp_state(*old(vp)), old(vp).image_size, *input),
                    *input,
                ),
                *input,
            ),
            *input,
        ),
{
    let ghost st1 = vp_state(*old(vp));
    // The discrete view-reset keys; navigation keys take precedence and the
    // dialog key needs nothing from the viewport.
    if input.key_next || input.key_prev {
    } else if input.key_fit {
        vp.reset_to_fit(input.avail_w, input.avail_h);
    } else if input.key_native {
        vp.reset_to_native();
    }
    proof {
        assert(vp_state(*vp) == vp_reset_keys(st1, old(vp).image_size, *input));
    }
    let ghost st2 = vp_reset_keys(st1, old(vp).image_size, *input);
    // Keyboard zoom, anchored on the pointer or the area center.
    let cx = input.avail_min_x + div_floor(input.avail_w, 2);
    let cy = input.avail_min_y + div_floor(input.avail_h, 2);
    let (ax, ay) = match input.pointer {
        Some((px, py)) => (px, py),
        None => (cx, cy),
    };
    if input.key_zoom_in {
        let raw = div_floor(vp.scale * 11, 10);
        vp.zoom_to(raw, ax, ay, cx, cy);
    } else if input.key_zoom_out {
        let raw = div_floor(vp.scale * 10, 11);
        vp.zoom_to(raw, ax, ay, cx, cy);
    }
    let ghost st3 = vp_zoom_keys(st2, *input);
    proof {
        assert(vp_state(*vp) == st3);
    }
    // Wheel zoom, a thousandth per pixel of travel.
    if input.wheel != 0 {
        proof {
            lemma_wheel_product_bound(vp.scale as int, 1000 + input.wheel as int);
        }
        let raw = div_floor(vp.scale * (1000 + input.wheel), 1000);
        vp.zoom_to(raw, ax, ay, cx, cy);
    }
    let ghost st4 = vp_wheel(st3, *input);
    proof {
        assert(vp_state(*vp) == st4);
    }
    // Primary drag pans; the gesture button excludes it.
    if input.dragging && !input.gesture_held {
        vp.pan(input.drag_dx, input.drag_dy);
    }
    proof {
        assert(vp_state(*vp) == vp_drag(st4, *input));
    }
}

/// Fold this tick's trigger-button edges and pointer sample into the
/// recognizer, resolving and resetting it on release.
fn feed_gesture(g: &mut GestureState, input: &InputSnapshot) -> (r: Option<NavDirection>)
    requires
        old(g).wf(),
        input.wf(),
    ensures
        final(g).wf(),
        final(g)@ == (if input.gesture_released {
            gesture_idle()
        } else {
            gesture_after_feed(old(g)@, *input)
        }),
        r == (if input.gesture_released {
            resolved_action(gesture_after_feed(old(g)@, *input).dirs)
        } else {
            None::<NavDirection>
        }),
{
    if input.gesture_pressed {
        if let Some((px, py)) = input.pointer {
            g.begin(px, py);
        }
    } else if input.gesture_held && g.active {
        if let Some((px, py)) = input.pointer {
            g.sample(px, py);
        }
    }
    proof {
        assert(g@ == gesture_after_feed(old(g)@, *input));
    }
    if input.gesture_released {
        let action = g.resolve();
        proof {
            assert(g@.dirs =~= gesture_idle().dirs);
            assert(g@ == gesture_idle());
        }
        action
    } else {
        None
    }
}

impl ViewerSession {
    /// The re-rasterization this tick asks for, judged against the current
    /// (post-refit) zoom factor: the cached bitmap of a vector document is
    /// replaced when the factor left the hysteresis band.
    fn rerender_request(&self) -> (r: Option<RenderRequest>)
        requires
            self.wf(),
        ensures
            (r is Some) <==> (self.image matches Some(im) && im is Vector && stale(
                self.viewport.scale as int,
                im.spec_last_rendered_scale(),
            )),
            r matches Some(rq) ==> {
                &&& rq.scale == self.viewport.scale
                &&& rq.width == target_dim(
                    self.image->Some_0.spec_size().0,
                    self.viewport.scale as int,
                )
                &&& rq.height == target_dim(
                    self.image->Some_0.spec_size().1,
                    self.viewport.scale as int,
                )
            },
    {
        match &self.image {
            Some(
                LoadedImage::Vector { intrinsic_width, intrinsic_height, last_rendered_scale, .. },
            ) => {
                if needs_rerender(self.viewport.scale, *last_rendered_scale) {
                    let dims = target_dims(*intrinsic_width, *intrinsic_height, self.viewport.scale);
                    Some(
                        RenderRequest { width: dims.0, height: dims.1, scale: self.viewport.scale },
                    )
                } else {
                    None
                }
            },
            _ => None,
        }
    }

    /// Turn a navigation step into a load request against the committed
    /// index: the wrapped neighbour index and the path at it.
    fn navigation_output(&self, dir: Option<NavDirection>) -> (r: Option<(usize, Vec<u8>)>)
        requires
            self.wf(),
        ensures
            match dir {
                Option::None => r is None,
                Option::Some(d) => {
                    match self.nav.current_index {
                        Option::Some(cur) => r matches Some((idx, p)) && idx == advanced_index(
                            cur as int,
                            self.nav.entries@.len() as int,
                            d,
                        ) && p@ == self.nav.entries@[idx as int]@,
                        Option::None => r is None,
                    }
                },
            },
    {
        match dir {
            Some(d) => {
                match self.nav.advance(d) {
                    Some(idx) => {
                        match self.nav.path_at(idx) {
                            Some(p) => Some((idx, p)),
                            None => None,
                        }
                    },
                    None => None,
                }
            },
            None => None,
        }
    }

    /// The placement rectangle and texture handle for the external draw
    /// call: the image centered in the available area at the current zoom
    /// factor, shifted by the pan offset.
    fn draw_output(&self, input: &InputSnapshot) -> (r: (Option<Placement>, Option<u64>))
        requires
            self.wf(),
            input.wf(),
        ensures
            (r.0 is Some) <==> (self.image is Some),
            (r.1 is Some) <==> (self.image is Some),
            r.1 matches Some(h) ==> h == self.image->Some_0.spec_handle(),
            r.0 matches Some(pl) ==> {
                let (w, h) = self.image->Some_0.spec_size();
                let st = vp_state(self.viewport);
                &&& pl.width == w * st.0
                &&& pl.height == h * st.0
                &&& pl.x == placement_coord(
                    input.avail_min_x as int,
                    input.avail_w as int,
                    w,
                    st.0,
                    st.1,
                )
                &&& pl.y == placement_coord(
                    input.avail_min_y as int,
                    input.avail_h as int,
                    h,
                    st.0,
                    st.2,
                )
            },
    {
        if let Some(im) = &self.image {
            let (w, h) = im.size();
            proof {
                crate::cache::lemma_scaled_dim_bound(w as int, self.viewport.scale as int);
                crate::cache::lemma_scaled_dim_bound(h as int, self.viewport.scale as int);
            }
            let scaled_w: i64 = (w as i64) * self.viewport.scale;
            let scaled_h: i64 = (h as i64) * self.viewport.scale;
            let x = input.avail_min_x + div_floor(input.avail_w - scaled_w, 2) + self.viewport.pan_x;
            let y = input.avail_min_y + div_floor(input.avail_h - scaled_h, 2) + self.viewport.pan_y;
            (Some(Placement { x, y, width: scaled_w, height: scaled_h }), Some(im.handle()))
        } else {
            (None, None)
        }
    }

    /// One UI tick: recompute the fit scale if the window was resized,
    /// decide whether the vector cache is stale, consume this tick's keys,
    /// wheel, drag and gesture stroke (only while an image is displayed),
    /// and yield the texture placement for the external draw call together
    /// with everything the host shell must go and do.
    #[verifier::rlimit(100)]
    pub fn tick(&mut self, input: &InputSnapshot) -> (out: FrameOutput)
        requires
            old(self).wf(),
            input.wf(),
        ensures
            final(self).wf(),
            final(self).mode == old(self).mode,
            final(self).image == old(self).image,
            final(self).nav == old(self).nav,
            final(self).last_avail == (if old(self).mode == DisplayMode::FitWindow {
                Some((input.avail_w, input.avail_h))
            } else {
                old(self).last_avail
            }),
            vp_state(final(self).viewport) == vp_after_tick(*old(self), *input),
            final(self).viewport.image_size == old(self).viewport.image_size,
            // the gesture recognizer either tracked this tick's sample or was
            // resolved and reset by the release
            final(self).gesture@ == (if old(self).image is Some && input.gesture_released {
                gesture_idle()
            } else if old(self).image is Some {
                gesture_after_feed(old(self).gesture@, *input)
            } else {
                old(self).gesture@
            }),
            // staleness is judged right after the resize refit, before this
            // tick's zoom input (which takes effect next tick)
            (out.rerender is Some) <==> (old(self).image matches Some(im) && im is Vector && stale(
                vp_refit(
                    vp_state(old(self).viewport),
                    old(self).viewport.image_size,
                    old(self).mode,
                    old(self).last_avail,
                    *input,
                ).0,
                im.spec_last_rendered_scale(),
            )),
            out.rerender matches Some(rq) ==> {
                let s1 = vp_refit(
                    vp_state(old(self).viewport),
                    old(self).viewport.image_size,
                    old(self).mode,
                    old(self).last_avail,
                    *input,
                ).0;
                &&& rq.scale == s1
                &&& rq.width == target_dim(old(self).image->Some_0.spec_size().0, s1)
                &&& rq.height == target_dim(old(self).image->Some_0.spec_size().1, s1)
            },
            // navigation: arrow keys first, else a released gesture, against
            // the committed index, wrapping circularly
            ({
                let req = (if old(self).image is Some {
                    nav_request(*old(self), *input)
                } else {
                    None::<NavDirection>
                });
                match req {
                    Option::None => out.navigate_to is None,
                    Option::Some(dir) => {
                        match old(self).nav.current_index {
                            Option::Some(cur) => out.navigate_to matches Some((idx, p)) && idx
                                == advanced_index(
                                cur as int,
                                old(self).nav.entries@.len() as int,
                                dir,
                            ) && p@ == old(self).nav.entries@[idx as int]@,
                            Option::None => out.navigate_to is None,
                        }
                    },
                }
            }),
            // the placement rectangle: image centered, panned, at the final
            // scale of this tick
            (out.placement is Some) <==> (final(self).image is Some),
            (out.handle is Some) <==> (final(self).image is Some),
            out.handle matches Some(h) ==> h == final(self).image->Some_0.spec_handle(),
            out.placement matches Some(pl) ==> {
                let (w, h) = final(self).image->Some_0.spec_size();
                let st = vp_after_tick(*old(self), *input);
                &&& pl.width == w * st.0
                &&& pl.height == h * st.0
                &&& pl.x == placement_coord(
                    input.avail_min_x as int,
                    input.avail_w as int,
                    w,
                    st.0,
                    st.1,
                )
                &&& pl.y == placement_coord(
                    input.avail_min_y as int,
                    input.avail_h as int,
                    h,
                    st.0,
                    st.2,
                )
            },
            out.open_dialog == (old(self).image is Some && !input.key_next && !input.key_prev
                && !input.key_fit && !input.key_native && input.key_open),
    {
        let ghost st0 = vp_state(old(self).viewport);
        // 1. Recompute the fit scale when the available area changed.
        if matches!(self.mode, DisplayMode::FitWindow) {
            let changed = match self.last_avail {
                Some((lw, lh)) => !(lw == input.avail_w && lh == input.avail_h),
                None => true,
            };
            if changed {
                self.viewport.refit(input.avail_w, input.avail_h);
            }
            self.last_avail = Some((input.avail_w, input.avail_h));
        }
        let ghost st1 = vp_refit(
            st0,
            old(self).viewport.image_size,
            old(self).mode,
            old(self).last_avail,
            *input,
        );
        proof {
            assert(vp_state(self.viewport) == st1);
        }
        // 2. Judge the vector cache against the post-refit scale.
        let rerender = self.rerender_request();
        let mut nav_dir: Option<NavDirection> = None;
        let mut open_dialog = false;
        if self.image.is_some() {
            // 3. Navigation keys first, then the file dialog key.
            if input.key_next {
                nav_dir = Some(NavDirection::Next);
            } else if input.key_prev {
                nav_dir = Some(NavDirection::Prev);
            } else if !input.key_fit && !input.key_native && input.key_open {
                open_dialog = true;
            }
            // 4.-6. The view-reset keys, the zooms and the drag.
            apply_view_input(&mut self.viewport, input);
            // 7. Gesture stroke: begin on press, sample while held, resolve
            // on release; a key navigation outranks it.
            let action = feed_gesture(&mut self.gesture, input);
            if nav_dir.is_none() {
                nav_dir = action;
            }
        }
        // 8. Turn the navigation step into a load request for the shell.
        let navigate_to = self.navigation_output(nav_dir);
        // 9. The placement rectangle for the external draw call.
        let (placement, handle) = self.draw_output(input);
        FrameOutput { navigate_to, rerender, placement, handle, open_dialog }
    }
}

} // verus!
