//! Video capture settings of the emulated camera.

use vstd::prelude::*;

verus! {

/// The resolution and frame rate a camera is captured at.
#[derive(Clone, Copy, Debug, PartialEq, Eq, Structural)]
pub struct CaptureConfig {
    pub width: u32,
    pub height: u32,
    pub fps: u32,
}

impl CaptureConfig {
    /// The capture preset named 1080p30: 1080 by 720 pixels at 30 frames
    /// per second.
    pub fn res_1080p30() -> (config: Self)
        ensures
            config == (CaptureConfig { width: 1080, height: 720, fps: 30 }),
    {
        Self { width: 1080, height: 720, fps: 30 }
    }
}

impl Default for CaptureConfig {
    /// The 1080p30 preset.
    fn default() -> (config: Self)
        ensures
            config == (CaptureConfig { width: 1080, height: 720, fps: 30 }),
    {
        Self::res_1080p30()
    }
}

} // verus!
