//! Viewer configuration: the initial display mode and the debug-log switch.
//! Reading and writing the configuration file is the host shell's concern;
//! this core only interprets the values.

use vstd::prelude::*;

verus! {

/// Contents of the configuration file.
pub struct ViewerConfig {
    /// `"fitwindow"` fits each image to the window; anything else (the file
    /// writes `"original"`) shows images at their native size.
    pub initial_display_mode: String,
    /// Whether debug logging is enabled.
    pub enable_debug_log: bool,
}

/// How the zoom factor is chosen when an image loads or the window resizes.
#[derive(Clone, Copy, PartialEq, Eq, Structural, Debug)]
pub enum DisplayMode {
    /// Recompute the fit-to-window scale on load and on every resize.
    FitWindow,
    /// Show images at their native size and leave the scale alone on resize.
    Original,
}

impl ViewerConfig {
    /// Whether the configured mode string selects fit-to-window display.
    pub open spec fn spec_is_fit(self) -> bool {
        self.initial_display_mode@ == "fitwindow"@
    }

    /// The display mode the configuration selects: `"fitwindow"` fits, any
    /// other string shows images at native size.
    pub fn display_mode(&self) -> (r: DisplayMode)
        ensures
            (r == DisplayMode::FitWindow) <==> self.spec_is_fit(),
            (r == DisplayMode::Original) <==> !self.spec_is_fit(),
    {
        let fit: String = "fitwindow".to_owned();
        if self.initial_display_mode == fit {
            DisplayMode::FitWindow
        } else {
            DisplayMode::Original
        }
    }
}

impl Default for ViewerConfig {
    /// The out-of-the-box configuration: fit to window, no debug logging.
    fn default() -> (r: Self)
        ensures
            r.spec_is_fit(),
            !r.enable_debug_log,
    {
        ViewerConfig { initial_display_mode: "fitwindow".to_owned(), enable_debug_log: false }
    }
}

} // verus!
