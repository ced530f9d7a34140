//! Easing curves of the camera follower's smoothed approach.
use vstd::prelude::*;

verus! {

/// Easing curve applied while the camera follows its target smoothly.
#[derive(Clone, Copy, Debug, PartialEq, Eq, Structural)]
pub enum EasingCurve {
    /// Constant-speed interpolation.
    Linear,
    /// Exponential decay: fast start, slow finish. The default.
    EaseOut,
    /// Slow start, fast finish.
    EaseIn,
    /// Smooth at both ends.
    EaseInOut,
}

impl Default for EasingCurve {
    fn default() -> (r: Self)
        ensures
            r == EasingCurve::EaseOut,
    {
        EasingCurve::EaseOut
    }
}

} // verus!
