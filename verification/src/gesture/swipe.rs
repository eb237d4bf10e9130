use vstd::prelude::*;

use crate::config::GestureAction;

verus! {

/// Direction of a detected swipe gesture.
#[derive(Debug, Clone, Copy, PartialEq, Eq, Structural)]
pub enum SwipeDirection {
    Up,
    Down,
    Left,
    Right,
}

/// The action configured for a four-finger swipe in `direction`.
pub fn swipe_action(
    direction: SwipeDirection,
    up: GestureAction,
    down: GestureAction,
    left: GestureAction,
    right: GestureAction,
) -> (a: GestureAction)
    ensures
        a == match direction {
            SwipeDirection::Up => up,
            SwipeDirection::Down => down,
            SwipeDirection::Left => left,
            SwipeDirection::Right => right,
        },
{
    match direction {
        SwipeDirection::Up => up,
        SwipeDirection::Down => down,
        SwipeDirection::Left => left,
        SwipeDirection::Right => right,
    }
}

/// What the engine does with four fingers on the pad.
#[derive(Debug, Clone, Copy, PartialEq, Eq, Structural)]
pub enum FourFingerMode {
    /// Alt-Tab is held: finger movement steps through the window switcher.
    NavigateAltTab,
    /// Recognize a swipe, or else a pinch or spread.
    Recognize,
    /// A four-finger gesture already fired in this touch: nothing more.
    Wait,
}

/// The mode of a four-finger frame: Alt-Tab navigation takes priority;
/// otherwise gestures are recognized until one fires.
pub fn four_finger_mode(alt_tab_active: bool, four_finger_triggered: bool) -> (m: FourFingerMode)
    ensures
        m == (if alt_tab_active {
            FourFingerMode::NavigateAltTab
        } else if !four_finger_triggered {
            FourFingerMode::Recognize
        } else {
            FourFingerMode::Wait
        }),
{
    if alt_tab_active {
        FourFingerMode::NavigateAltTab
    } else if !four_finger_triggered {
        FourFingerMode::Recognize
    } else {
        FourFingerMode::Wait
    }
}

/// What a recognized four-finger swipe does.
#[derive(Debug, Clone, Copy, PartialEq, Eq, Structural)]
pub enum SwipeOutcome {
    /// Hold Alt, press Tab, and press Left too when the swipe went left.
    StartAltTab { step_left: bool },
    /// Perform the configured action.
    Run(GestureAction),
}

/// A sideways swipe mapped to Alt-Tab opens the window switcher and keeps
/// Alt held (stepping back once for a left swipe); any other swipe performs
/// its configured action.
pub fn swipe_outcome(direction: SwipeDirection, action: GestureAction) -> (o: SwipeOutcome)
    ensures
        o == (if action == GestureAction::AltTab && (direction == SwipeDirection::Left || direction
            == SwipeDirection::Right) {
            SwipeOutcome::StartAltTab { step_left: direction == SwipeDirection::Left }
        } else {
            SwipeOutcome::Run(action)
        }),
{
    let alt_tab = matches!(action, GestureAction::AltTab);
    match direction {
        SwipeDirection::Left if alt_tab => SwipeOutcome::StartAltTab { step_left: true },
        SwipeDirection::Right if alt_tab => SwipeOutcome::StartAltTab { step_left: false },
        _ => SwipeOutcome::Run(action),
    }
}

} // verus!
