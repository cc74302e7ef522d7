//! Video scale modes and frame sizes.

use vstd::prelude::*;

verus! {

/// How the video frame is laid out in its area.
#[derive(Clone, Copy, Debug, PartialEq, Eq, Structural)]
pub enum ScaleMode {
    /// Aspect-preserving fit, centred.
    FitWindow,
    /// One frame pixel per physical pixel, scaled down when it does not fit.
    ActualSize,
    /// Laid out as `FitWindow`; the window follows the frame size.
    ResizeWindowToVideo,
}

/// Size of a video frame in pixels.
#[derive(Clone, Copy, Debug, PartialEq, Eq, Structural)]
pub struct FrameSize {
    pub width: u32,
    pub height: u32,
}

/// The window size that `ResizeWindowToVideo` asks for: the frame size, when
/// a frame is known; no size in the other modes.
pub fn desired_window_size(frame: Option<FrameSize>, mode: ScaleMode) -> (r: Option<FrameSize>)
    ensures
        r == (if mode == ScaleMode::ResizeWindowToVideo {
            frame
        } else {
            None
        }),
{
    match (mode, frame) {
        (ScaleMode::ResizeWindowToVideo, Some(f)) => Some(f),
        _ => None,
    }
}

} // verus!
