//! Core of a single-image viewer: the viewport transform that maps a logical
//! image into screen space under zoom and pan, the policy that decides when a
//! vector image must be re-rasterized at a new resolution, a directional-swipe
//! gesture recognizer, an ordered circular navigation list over sibling image
//! paths, and a frame controller that composes them once per UI tick.
//!
//! All screen-space lengths are carried in thousandths of a pixel and the zoom
//! factor in thousandths, so the geometry is exact integer arithmetic.  The
//! windowing toolkit, file dialogs, configuration files, image decoding and
//! vector rasterization are external collaborators: they hand this core plain
//! values (dimensions, byte buffers, input snapshots) and take plain values
//! back (placement rectangles, render requests, paths to load).

pub mod cache;
pub mod config;
pub mod controller;
pub mod gesture;
pub mod icon;
pub mod loader;
pub mod nav;
pub mod viewport;
