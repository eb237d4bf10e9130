use vstd::prelude::*;

use crate::config::GestureAction;

verus! {

/// Result of a pinch/spread gesture detection.
#[derive(Debug, Clone, Copy, PartialEq, Eq, Structural)]
pub enum PinchDirection {
    /// Fingers moving apart (spread).
    Spread,
    /// Fingers moving together (pinch).
    Pinch,
}

/// The action configured for a four-finger pinch or spread.
pub fn pinch_action(direction: PinchDirection, spread: GestureAction, pinch: GestureAction) -> (a: GestureAction)
    ensures
        a == match direction {
            PinchDirection::Spread => spread,
            PinchDirection::Pinch => pinch,
        },
{
    match direction {
        PinchDirection::Spread => spread,
        PinchDirection::Pinch => pinch,
    }
}

} // verus!
