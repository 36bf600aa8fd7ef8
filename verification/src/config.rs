//! Immutable window-creation parameters, fixed once before the window exists
//! and never mutated afterwards.

use vstd::prelude::*;

verus! {

/// Debug-overlay flag: no overlay.
pub const DEBUG_NONE: u32 = 0;

/// Debug-overlay flag: wireframe rendering.
pub const DEBUG_WIREFRAME: u32 = 1;

/// Debug-overlay flag: statistics display.
pub const DEBUG_STATS: u32 = 4;

/// Debug-overlay flag: debug text display.
pub const DEBUG_TEXT: u32 = 8;

/// How the window occupies the display.
#[derive(Clone, Copy, Debug, PartialEq, Eq, Structural)]
pub enum DisplayMode {
    Windowed,
    Fullscreen,
    BorderlessFullscreen,
}

/// Creation parameters of a window: title, geometry, display mode and the
/// debug-overlay flag bitset.
#[derive(Clone, Debug)]
pub struct WindowMetadata {
    pub title: String,
    pub width: u32,
    pub height: u32,
    pub mode: DisplayMode,
    pub debug_flags: u32,
}

impl WindowMetadata {
    /// A window is created with positive geometry.
    pub open spec fn wf(self) -> bool {
        self.width > 0 && self.height > 0
    }

    /// Bundle creation parameters. Geometry must be positive.
    pub fn new(title: String, width: u32, height: u32, mode: DisplayMode, debug_flags: u32) -> (m:
        WindowMetadata)
        requires
            width > 0,
            height > 0,
        ensures
            m.title@ == title@,
            m.width == width,
            m.height == height,
            m.mode == mode,
            m.debug_flags == debug_flags,
            m.wf(),
    {
        WindowMetadata { title, width, height, mode, debug_flags }
    }
}

} // verus!
