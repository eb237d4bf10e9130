use vstd::prelude::*;

use crate::config::DragButton;

verus! {

pub const MOUSEEVENTF_LEFTDOWN: u32 = 0x0002;
pub const MOUSEEVENTF_LEFTUP: u32 = 0x0004;
pub const MOUSEEVENTF_RIGHTDOWN: u32 = 0x0008;
pub const MOUSEEVENTF_RIGHTUP: u32 = 0x0010;
pub const MOUSEEVENTF_MIDDLEDOWN: u32 = 0x0020;
pub const MOUSEEVENTF_MIDDLEUP: u32 = 0x0040;

/// Mouse event flag that presses the drag button (`None`: no event).
pub fn button_down_flag(button: DragButton) -> (r: Option<u32>)
    ensures
        r == (match button {
            DragButton::Left => Some(MOUSEEVENTF_LEFTDOWN),
            DragButton::Right => Some(MOUSEEVENTF_RIGHTDOWN),
            DragButton::Middle => Some(MOUSEEVENTF_MIDDLEDOWN),
            DragButton::NoButton => None,
        }),
{
    match button {
        DragButton::Left => Some(MOUSEEVENTF_LEFTDOWN),
        DragButton::Right => Some(MOUSEEVENTF_RIGHTDOWN),
        DragButton::Middle => Some(MOUSEEVENTF_MIDDLEDOWN),
        DragButton::NoButton => None,
    }
}

/// Mouse event flag that releases the drag button (`None`: no event).
pub fn button_up_flag(button: DragButton) -> (r: Option<u32>)
    ensures
        r == (match button {
            DragButton::Left => Some(MOUSEEVENTF_LEFTUP),
            DragButton::Right => Some(MOUSEEVENTF_RIGHTUP),
            DragButton::Middle => Some(MOUSEEVENTF_MIDDLEUP),
            DragButton::NoButton => None,
        }),
{
    match button {
        DragButton::Left => Some(MOUSEEVENTF_LEFTUP),
        DragButton::Right => Some(MOUSEEVENTF_RIGHTUP),
        DragButton::Middle => Some(MOUSEEVENTF_MIDDLEUP),
        DragButton::NoButton => None,
    }
}

/// Every button a drag presses is the one its release lets go: the up flag
/// is the down flag shifted one bit left.
pub proof fn lemma_release_matches_press(button: DragButton)
    ensures
        (match button {
            DragButton::Left => Some(MOUSEEVENTF_LEFTDOWN),
            DragButton::Right => Some(MOUSEEVENTF_RIGHTDOWN),
            DragButton::Middle => Some(MOUSEEVENTF_MIDDLEDOWN),
            DragButton::NoButton => None::<u32>,
        }) matches Some(d) ==> (match button {
            DragButton::Left => Some(MOUSEEVENTF_LEFTUP),
            DragButton::Right => Some(MOUSEEVENTF_RIGHTUP),
            DragButton::Middle => Some(MOUSEEVENTF_MIDDLEUP),
            DragButton::NoButton => None::<u32>,
        }) == Some((d * 2) as u32),
{
}

} // verus!
