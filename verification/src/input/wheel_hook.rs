//! Decisions of the low-level mouse hook.

use vstd::prelude::*;

verus! {

/// Marker in `dwExtraInfo` of scroll events the scroller synthesizes; the
/// hook lets them through instead of suppressing them.
pub const SYNTHETIC_SCROLL_MARKER: usize = 0xFACECAFE;

pub const WM_MOUSEMOVE: u32 = 0x0200;
pub const WM_LBUTTONDOWN: u32 = 0x0201;
pub const WM_LBUTTONUP: u32 = 0x0202;
pub const WM_RBUTTONDOWN: u32 = 0x0204;
pub const WM_RBUTTONUP: u32 = 0x0205;
pub const WM_MBUTTONDOWN: u32 = 0x0207;
pub const WM_MBUTTONUP: u32 = 0x0208;
pub const WM_MOUSEWHEEL: u32 = 0x020A;
pub const WM_MOUSEHWHEEL: u32 = 0x020E;

/// What the hook does with a mouse event.
#[derive(Debug, Clone, Copy, PartialEq, Eq, Structural)]
pub enum HookDecision {
    /// Hand the event on to the next hook.
    PassThrough,
    /// Swallow the event.
    Swallow,
    /// Swallow the event and feed its wheel delta to the smooth scroller.
    Intercept(i32, bool),
}

/// The state of the hook's switches when an event arrives.
#[derive(Debug, Clone, Copy)]
pub struct HookFlags {
    /// Two or more fingers scroll on the touchpad.
    pub touchpad_scrolling: bool,
    /// Mouse wheel smooth scrolling is enabled.
    pub smooth_scroll_enabled: bool,
    /// The application policy allows smooth scrolling for the foreground
    /// window.
    pub policy_allows: bool,
    /// The synthetic touchpad device exists.
    pub synthetic_device_active: bool,
}

pub open spec fn is_button_or_move(msg: u32) -> bool {
    msg == WM_MOUSEMOVE || msg == WM_LBUTTONDOWN || msg == WM_LBUTTONUP || msg == WM_RBUTTONDOWN
        || msg == WM_RBUTTONUP || msg == WM_MBUTTONDOWN || msg == WM_MBUTTONUP
}

/// Mouse events promoted from touch input carry this signature in the
/// upper bytes of their extra info.
pub open spec fn is_touch_promoted(extra_info: usize) -> bool {
    (extra_info as u32) & 0xFFFFFF00u32 == 0xFF515700u32
}

/// The signed wheel delta in the high word of an event's mouse data.
pub open spec fn wheel_delta(mouse_data: u32) -> int {
    ((mouse_data >> 16u32) as i16) as int
}

/// The decision for one event, as a function of its fields.
pub open spec fn hook_decision_spec(
    n_code: i32,
    msg: u32,
    extra_info: usize,
    flags: u32,
    mouse_data: u32,
    sw: HookFlags,
) -> HookDecision {
    if n_code < 0 {
        HookDecision::PassThrough
    } else if is_button_or_move(msg) && is_touch_promoted(extra_info) {
        HookDecision::Swallow
    } else if msg == WM_MOUSEWHEEL || msg == WM_MOUSEHWHEEL {
        if extra_info == SYNTHETIC_SCROLL_MARKER {
            HookDecision::PassThrough
        } else if sw.touchpad_scrolling {
            HookDecision::Swallow
        } else if sw.smooth_scroll_enabled && sw.policy_allows && sw.synthetic_device_active {
            let delta = wheel_delta(mouse_data);
            if flags & 1 != 0 || flags & 2 != 0 {
                HookDecision::PassThrough
            } else if delta % 120 != 0 {
                HookDecision::PassThrough
            } else {
                HookDecision::Intercept(delta as i32, msg == WM_MOUSEHWHEEL)
            }
        } else {
            HookDecision::PassThrough
        }
    } else {
        HookDecision::PassThrough
    }
}

/// Decide what the low-level mouse hook does with an event:
/// touch-promoted clicks and moves are swallowed (they make the cursor jump),
/// the scroller's own wheel events pass, wheel events are swallowed while the
/// touchpad scrolls, and physical wheel notches (deltas that are whole
/// multiples of 120) are intercepted for smooth scrolling when it is
/// enabled, the application policy allows it and the synthetic device
/// exists; injected wheel events and deltas of
/// free-spinning or high-resolution wheels pass.
pub fn mouse_hook_decision(
    n_code: i32,
    msg: u32,
    extra_info: usize,
    flags: u32,
    mouse_data: u32,
    sw: HookFlags,
) -> (r: HookDecision)
    ensures
        r == hook_decision_spec(n_code, msg, extra_info, flags, mouse_data, sw),
{
    if n_code < 0 {
        return HookDecision::PassThrough;
    }
    if msg == WM_MOUSEMOVE || msg == WM_LBUTTONDOWN || msg == WM_LBUTTONUP || msg == WM_RBUTTONDOWN
        || msg == WM_RBUTTONUP || msg == WM_MBUTTONDOWN || msg == WM_MBUTTONUP {
        let is_touch = ((extra_info as u32) & 0xFFFFFF00u32) == 0xFF515700u32;
        if is_touch {
            return HookDecision::Swallow;
        }
    }
    if msg == WM_MOUSEWHEEL || msg == WM_MOUSEHWHEEL {
        // The scroller's own synthetic events pass.
        if extra_info == SYNTHETIC_SCROLL_MARKER {
            return HookDecision::PassThrough;
        }
        // While the touchpad scrolls, other scroll events are suppressed.
        if sw.touchpad_scrolling {
            return HookDecision::Swallow;
        }
        if sw.smooth_scroll_enabled && sw.policy_allows && sw.synthetic_device_active {
            let is_injected = (flags & 1) != 0 || (flags & 2) != 0;
            if is_injected {
                return HookDecision::PassThrough;
            }
            let delta = ((mouse_data >> 16u32) as i16) as i32;
            // Only whole notches (multiples of 120) are smoothed; free-spinning
            // and high-resolution wheels pass through untouched.
            if delta % 120 != 0 {
                return HookDecision::PassThrough;
            }
            let horizontal = msg == WM_MOUSEHWHEEL;
            return HookDecision::Intercept(delta, horizontal);
        }
    }
    HookDecision::PassThrough
}

/// The hook never touches its own synthetic scroll events, never
/// intercepts anything but wheel events, and intercepts only whole notches.
pub proof fn lemma_hook_spares_synthetic_scrolls(
    n_code: i32,
    msg: u32,
    flags: u32,
    mouse_data: u32,
    sw: HookFlags,
)
    ensures
        (msg == WM_MOUSEWHEEL || msg == WM_MOUSEHWHEEL) ==> hook_decision_spec(
            n_code,
            msg,
            SYNTHETIC_SCROLL_MARKER,
            flags,
            mouse_data,
            sw,
        ) == HookDecision::PassThrough,
        forall|extra: usize|
            #![trigger hook_decision_spec(n_code, msg, extra, flags, mouse_data, sw)]
            hook_decision_spec(n_code, msg, extra, flags, mouse_data, sw) is Intercept ==> (msg
                == WM_MOUSEWHEEL || msg == WM_MOUSEHWHEEL),
        forall|extra: usize|
            #![trigger hook_decision_spec(n_code, msg, extra, flags, mouse_data, sw)]
            hook_decision_spec(n_code, msg, extra, flags, mouse_data, sw) matches HookDecision::Intercept(
                d,
                _,
            ) ==> d % 120 == 0,
{
    assert((SYNTHETIC_SCROLL_MARKER as u32) & 0xFFFFFF00u32 == 0xFACECA00u32) by (bit_vector);
}

} // verus!
