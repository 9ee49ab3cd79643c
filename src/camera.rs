//! Camera settings that do not involve geometry.
use vstd::prelude::*;

verus! {

/// How far a sample may be jittered inside its pixel.
///
/// `PixelRatio` jitters by exactly half a pixel of the image; `Blurry` and
/// `Blurrier` jitter by half a pixel measured on the viewport.
#[derive(Clone, Copy, Debug, PartialEq, Eq, Structural)]
pub enum SampleType {
    PixelRatio,
    Blurry,
    Blurrier,
}

} // verus!
