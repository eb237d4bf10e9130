//! Keyboard side of gestures: which keys an action presses, in which order.

use vstd::prelude::*;

use crate::config::GestureAction;
use crate::gesture::two_finger::EdgeSlideAction;

verus! {

pub const VK_TAB: u16 = 0x09;
pub const VK_PRIOR: u16 = 0x21;
pub const VK_NEXT: u16 = 0x22;
pub const VK_LEFT: u16 = 0x25;
pub const VK_UP: u16 = 0x26;
pub const VK_RIGHT: u16 = 0x27;
pub const VK_DOWN: u16 = 0x28;
pub const VK_A: u16 = 0x41;
pub const VK_D: u16 = 0x44;
pub const VK_S: u16 = 0x53;
pub const VK_LWIN: u16 = 0x5B;
pub const VK_LCONTROL: u16 = 0xA2;
pub const VK_LMENU: u16 = 0xA4;
pub const VK_VOLUME_DOWN: u16 = 0xAE;
pub const VK_VOLUME_UP: u16 = 0xAF;

/// Brightness change per edge step, in percent.
pub const BRIGHTNESS_STEP: i32 = 10;

/// One synthesized key transition.
#[derive(Debug, Clone, Copy, PartialEq, Eq, Structural)]
pub struct KeyEvent {
    pub vk: u16,
    pub key_up: bool,
}

/// Key transitions of a shortcut: every key pressed in order, then released
/// in reverse order.
pub open spec fn combo_events(keys: Seq<u16>) -> Seq<KeyEvent> {
    Seq::new(keys.len(), |i: int| KeyEvent { vk: keys[i], key_up: false }) + Seq::new(
        keys.len(),
        |i: int| KeyEvent { vk: keys[keys.len() - 1 - i], key_up: true },
    )
}

/// Key transitions that send a keyboard shortcut: key-down events in order
/// followed by key-up events in reverse order.
pub fn key_combo_events(keys: &[u16]) -> (r: Vec<KeyEvent>)
    requires
        2 * keys@.len() <= usize::MAX,
    ensures
        r@ == combo_events(keys@),
{
    let n = keys.len();
    let mut r: Vec<KeyEvent> = Vec::new();
    let mut i: usize = 0;
    while i < n
        invariant
            n == keys@.len(),
            0 <= i <= n,
            r@ == Seq::new(i as nat, |j: int| KeyEvent { vk: keys@[j], key_up: false }),
        decreases n - i,
    {
        r.push(KeyEvent { vk: keys[i], key_up: false });
        proof {
            assert(r@ =~= Seq::new(i as nat + 1, |j: int| KeyEvent { vk: keys@[j], key_up: false }));
        }
        i += 1;
    }
    let mut k: usize = 0;
    while k < n
        invariant
            n == keys@.len(),
            0 <= k <= n,
            r@ == Seq::new(n as nat, |j: int| KeyEvent { vk: keys@[j], key_up: false }) + Seq::new(
                k as nat,
                |j: int| KeyEvent { vk: keys@[n - 1 - j], key_up: true },
            ),
        decreases n - k,
    {
        r.push(KeyEvent { vk: keys[n - 1 - k], key_up: true });
        proof {
            assert(r@ =~= Seq::new(n as nat, |j: int| KeyEvent { vk: keys@[j], key_up: false })
                + Seq::new(k as nat + 1, |j: int| KeyEvent { vk: keys@[n - 1 - j], key_up: true }));
        }
        k += 1;
    }
    r
}

/// Sending a shortcut leaves no key pressed: every key is pressed once and
/// released once, the releases mirroring the presses.
pub proof fn lemma_combo_releases_mirror_presses(keys: Seq<u16>)
    ensures
        combo_events(keys).len() == 2 * keys.len(),
        forall|i: int|
            0 <= i < keys.len() ==> (#[trigger] combo_events(keys)[i]).vk == keys[i]
                && !combo_events(keys)[i].key_up && combo_events(keys)[2 * keys.len() - 1 - i].vk
                == keys[i] && combo_events(keys)[2 * keys.len() - 1 - i].key_up,
{
}

/// What the input layer does to perform an action.
#[derive(Debug, Clone, PartialEq, Eq)]
pub enum ActionCommand {
    /// Nothing to do.
    Nothing,
    /// Send this keyboard shortcut.
    Keys(Vec<u16>),
    /// Send this volume key and show the volume overlay.
    VolumeKey(u16),
    /// Change the screen brightness by this many percent.
    Brightness(i32),
}

/// The shortcut an action sends, if it is a plain shortcut.
pub open spec fn action_keys(a: GestureAction) -> Option<Seq<u16>> {
    match a {
        GestureAction::WinTab => Some(seq![VK_LWIN, VK_TAB]),
        GestureAction::AltTab => Some(seq![VK_LMENU, VK_TAB]),
        GestureAction::CtrlWinLeft => Some(seq![VK_LCONTROL, VK_LWIN, VK_LEFT]),
        GestureAction::CtrlWinRight => Some(seq![VK_LCONTROL, VK_LWIN, VK_RIGHT]),
        GestureAction::ShowDesktop => Some(seq![VK_LWIN, VK_D]),
        GestureAction::OpenStart => Some(seq![VK_LWIN]),
        GestureAction::Search => Some(seq![VK_LWIN, VK_S]),
        GestureAction::BrowserBack => Some(seq![VK_LMENU, VK_LEFT]),
        GestureAction::BrowserForward => Some(seq![VK_LMENU, VK_RIGHT]),
        GestureAction::NotificationCenter => Some(seq![VK_LWIN, VK_A]),
        GestureAction::PageUp => Some(seq![VK_PRIOR]),
        GestureAction::PageDown => Some(seq![VK_NEXT]),
        GestureAction::Maximize => Some(seq![VK_LWIN, VK_UP]),
        _ => None,
    }
}

/// How an action is carried out.
pub open spec fn action_command_spec(a: GestureAction) -> ActionCommand {
    match a {
        GestureAction::NoAction => ActionCommand::Nothing,
        GestureAction::VolumeUp => ActionCommand::VolumeKey(VK_VOLUME_UP),
        GestureAction::VolumeDown => ActionCommand::VolumeKey(VK_VOLUME_DOWN),
        GestureAction::BrightnessUp => ActionCommand::Brightness(BRIGHTNESS_STEP),
        GestureAction::BrightnessDown => ActionCommand::Brightness(-10i32),
        _ => ActionCommand::Nothing,
    }
}

fn keys_of(keys: &[u16]) -> (v: Vec<u16>)
    ensures
        v@ == keys@,
{
    let mut v: Vec<u16> = Vec::new();
    let mut i: usize = 0;
    while i < keys.len()
        invariant
            0 <= i <= keys@.len(),
            v@ == keys@.take(i as int),
        decreases keys@.len() - i,
    {
        v.push(keys[i]);
        proof {
            assert(keys@.take(i as int + 1) == keys@.take(i as int).push(keys@[i as int]));
        }
        i += 1;
    }
    proof {
        assert(keys@.take(keys@.len() as int) == keys@);
    }
    v
}

/// Decide how to carry out a gesture action: the shortcut it sends, the
/// volume key it presses, or the brightness change it makes.
pub fn action_command(action: GestureAction) -> (r: ActionCommand)
    ensures
        action_keys(action) matches Some(k) ==> r matches ActionCommand::Keys(v) && v@ == k,
        action_keys(action) is None ==> r == action_command_spec(action),
        // Switching virtual desktops holds Ctrl+Win (0xA2, 0x5B) and presses
        // the arrow (Left 0x25, Right 0x27) pointing the way it switches.
        action == GestureAction::CtrlWinLeft || action == GestureAction::CtrlWinRight ==> (r matches ActionCommand::Keys(v)
            && v@ == seq![0xA2u16, 0x5Bu16, if action == GestureAction::CtrlWinLeft { 0x25u16 } else { 0x27u16 }]),
        // Browser history holds Alt (0xA4) with Left to go back and Right to go forward.
        action == GestureAction::BrowserBack || action == GestureAction::BrowserForward ==> (r matches ActionCommand::Keys(v)
            && v@ == seq![0xA4u16, if action == GestureAction::BrowserBack { 0x25u16 } else { 0x27u16 }]),
        // Paging presses Page Up (0x21) or Page Down (0x22) alone.
        action == GestureAction::PageUp || action == GestureAction::PageDown ==> (r matches ActionCommand::Keys(v)
            && v@ == seq![if action == GestureAction::PageUp { 0x21u16 } else { 0x22u16 }]),
        // Volume presses the matching media key (Volume Up 0xAF, Volume Down 0xAE).
        action == GestureAction::VolumeUp ==> r == ActionCommand::VolumeKey(0xAFu16),
        action == GestureAction::VolumeDown ==> r == ActionCommand::VolumeKey(0xAEu16),
        // Brightness moves up and down by the same step.
        action == GestureAction::BrightnessUp ==> (r matches ActionCommand::Brightness(d) && d > 0 && d
            == BRIGHTNESS_STEP),
        // Windows shell shortcuts hold Win (0x5B): alone for Start, with Tab
        // (0x09) for Task View, D (0x44) for the desktop, S (0x53) for
        // Search, A (0x41) for the notification center, Up (0x26) to maximize;
        // Alt (0xA4) with Tab switches windows.
        action == GestureAction::OpenStart ==> (r matches ActionCommand::Keys(v) && v@ == seq![0x5Bu16]),
        action == GestureAction::WinTab ==> (r matches ActionCommand::Keys(v) && v@ == seq![0x5Bu16, 0x09u16]),
        action == GestureAction::ShowDesktop ==> (r matches ActionCommand::Keys(v) && v@ == seq![0x5Bu16, 0x44u16]),
        action == GestureAction::Search ==> (r matches ActionCommand::Keys(v) && v@ == seq![0x5Bu16, 0x53u16]),
        action == GestureAction::NotificationCenter ==> (r matches ActionCommand::Keys(v) && v@ == seq![
            0x5Bu16,
            0x41u16,
        ]),
        action == GestureAction::Maximize ==> (r matches ActionCommand::Keys(v) && v@ == seq![0x5Bu16, 0x26u16]),
        action == GestureAction::AltTab ==> (r matches ActionCommand::Keys(v) && v@ == seq![0xA4u16, 0x09u16]),
        action == GestureAction::NoAction ==> r == ActionCommand::Nothing,
        action == GestureAction::BrightnessDown ==> (r matches ActionCommand::Brightness(d) && d < 0 && -d
            == BRIGHTNESS_STEP),
{
    let keys: &[u16] = match action {
        GestureAction::NoAction => {
            return ActionCommand::Nothing;
        },
        GestureAction::VolumeUp => {
            return ActionCommand::VolumeKey(VK_VOLUME_UP);
        },
        GestureAction::VolumeDown => {
            return ActionCommand::VolumeKey(VK_VOLUME_DOWN);
        },
        GestureAction::BrightnessUp => {
            return ActionCommand::Brightness(BRIGHTNESS_STEP);
        },
        GestureAction::BrightnessDown => {
            return ActionCommand::Brightness(-BRIGHTNESS_STEP);
        },
        GestureAction::WinTab => &[VK_LWIN, VK_TAB],
        GestureAction::AltTab => &[VK_LMENU, VK_TAB],
        GestureAction::CtrlWinLeft => &[VK_LCONTROL, VK_LWIN, VK_LEFT],
        GestureAction::CtrlWinRight => &[VK_LCONTROL, VK_LWIN, VK_RIGHT],
        GestureAction::ShowDesktop => &[VK_LWIN, VK_D],
        GestureAction::OpenStart => &[VK_LWIN],
        GestureAction::Search => &[VK_LWIN, VK_S],
        GestureAction::BrowserBack => &[VK_LMENU, VK_LEFT],
        GestureAction::BrowserForward => &[VK_LMENU, VK_RIGHT],
        GestureAction::NotificationCenter => &[VK_LWIN, VK_A],
        GestureAction::PageUp => &[VK_PRIOR],
        GestureAction::PageDown => &[VK_NEXT],
        GestureAction::Maximize => &[VK_LWIN, VK_UP],
    };
    ActionCommand::Keys(keys_of(keys))
}

/// Opposite directions mirror each other: the shortcut that moves right
/// (switch to the desktop on the right, browse forward) is the shortcut that
/// moves left with its Left arrow (0x25) replaced by the Right arrow (0x27),
/// and the two never share their arrow.
pub proof fn lemma_direction_shortcuts_mirror()
    ensures
        ({
            let l = action_keys(GestureAction::CtrlWinLeft).unwrap();
            let r = action_keys(GestureAction::CtrlWinRight).unwrap();
            &&& l.last() == 0x25u16
            &&& r == l.update(l.len() - 1, 0x27u16)
            &&& r.drop_last() == seq![0xA2u16, 0x5Bu16]
        }),
        ({
            let l = action_keys(GestureAction::BrowserBack).unwrap();
            let r = action_keys(GestureAction::BrowserForward).unwrap();
            &&& l.last() == 0x25u16
            &&& r == l.update(l.len() - 1, 0x27u16)
            &&& r.drop_last() == seq![0xA4u16]
        }),
        action_keys(GestureAction::PageDown).unwrap() == action_keys(GestureAction::PageUp).unwrap().update(
            0,
            0x22u16,
        ),
        action_keys(GestureAction::PageUp).unwrap() == seq![0x21u16],
{
    let l = action_keys(GestureAction::CtrlWinLeft).unwrap();
    assert(action_keys(GestureAction::CtrlWinRight).unwrap() =~= l.update(l.len() - 1, 0x27u16));
    assert(action_keys(GestureAction::CtrlWinRight).unwrap().drop_last() =~= seq![0xA2u16, 0x5Bu16]);
    let b = action_keys(GestureAction::BrowserBack).unwrap();
    assert(action_keys(GestureAction::BrowserForward).unwrap() =~= b.update(b.len() - 1, 0x27u16));
    assert(action_keys(GestureAction::BrowserForward).unwrap().drop_last() =~= seq![0xA4u16]);
    assert(action_keys(GestureAction::PageDown).unwrap() =~= action_keys(GestureAction::PageUp).unwrap().update(
        0,
        0x22u16,
    ));
}

/// The action an edge slide performs, honouring the inversion settings.
pub fn edge_slide_gesture(action: EdgeSlideAction, invert_volume: bool, invert_brightness: bool) -> (a:
    GestureAction)
    ensures
        a == (match action {
            EdgeSlideAction::VolumeUp => if invert_volume {
                GestureAction::VolumeDown
            } else {
                GestureAction::VolumeUp
            },
            EdgeSlideAction::VolumeDown => if invert_volume {
                GestureAction::VolumeUp
            } else {
                GestureAction::VolumeDown
            },
            EdgeSlideAction::BrightnessUp => if invert_brightness {
                GestureAction::BrightnessDown
            } else {
                GestureAction::BrightnessUp
            },
            EdgeSlideAction::BrightnessDown => if invert_brightness {
                GestureAction::BrightnessUp
            } else {
                GestureAction::BrightnessDown
            },
        }),
{
    match action {
        EdgeSlideAction::VolumeUp => if invert_volume {
            GestureAction::VolumeDown
        } else {
            GestureAction::VolumeUp
        },
        EdgeSlideAction::VolumeDown => if invert_volume {
            GestureAction::VolumeUp
        } else {
            GestureAction::VolumeDown
        },
        EdgeSlideAction::BrightnessUp => if invert_brightness {
            GestureAction::BrightnessDown
        } else {
            GestureAction::BrightnessUp
        },
        EdgeSlideAction::BrightnessDown => if invert_brightness {
            GestureAction::BrightnessUp
        } else {
            GestureAction::BrightnessDown
        },
    }
}

/// New brightness after a step: the current value moved by `delta`, kept
/// within [min, max].
pub open spec fn stepped_brightness(cur: u32, delta: i32, min: u32, max: u32) -> u32 {
    let v = cur as i32 + delta;
    let lo = min as i32;
    let hi = max as i32;
    (if v < lo {
        lo as int
    } else if v > hi {
        hi as int
    } else {
        v
    }) as u32
}

/// Brightness after a step of `delta`, clamped to the monitor's range.
pub fn step_brightness(cur: u32, delta: i32, min: u32, max: u32) -> (r: u32)
    requires
        min as i32 <= max as i32,
        i32::MIN <= cur as i32 + delta <= i32::MAX,
    ensures
        r == stepped_brightness(cur, delta, min, max),
        // The result stays within the monitor's range ...
        min as i32 <= r as i32 <= max as i32,
        // ... is the stepped value whenever that is in range ...
        min as i32 <= cur as i32 + delta <= max as i32 ==> r as i32 == cur as i32 + delta,
        // ... and otherwise the nearest end of the range.
        cur as i32 + delta < min as i32 ==> r == min,
        cur as i32 + delta > max as i32 ==> r == max,
{
    let v = cur as i32 + delta;
    let lo = min as i32;
    let hi = max as i32;
    let c = if v < lo {
        lo
    } else if v > hi {
        hi
    } else {
        v
    };
    proof {
        assert((c as u32) as i32 == c) by (bit_vector);
        assert(((min as i32) as u32) == min) by (bit_vector);
        assert(((max as i32) as u32) == max) by (bit_vector);
    }
    c as u32
}


/// A brightness value read through WMI, by its variant type.
#[derive(Debug, Clone, Copy, PartialEq, Eq, Structural)]
pub enum WmiValue {
    UI1(u8),
    /// A signed byte, held as the stored byte (it converts without sign
    /// extension).
    I1(u8),
    UI2(u16),
    I2(i16),
    UI4(u32),
    I4(i32),
    Int(i32),
    UInt(u32),
    /// A variant type that does not hold a brightness (its type tag).
    Unsupported(u16),
}

/// The brightness a WMI value holds, converted to `u32` (signed values
/// wrap as `as` casts do); `None` for unsupported variant types.
pub fn variant_to_u32(v: WmiValue) -> (r: Option<u32>)
    ensures
        r == (match v {
            WmiValue::UI1(x) => Some(x as u32),
            WmiValue::I1(x) => Some(x as u32),
            WmiValue::UI2(x) => Some(x as u32),
            WmiValue::I2(x) => Some(x as u32),
            WmiValue::UI4(x) => Some(x),
            WmiValue::I4(x) => Some(x as u32),
            WmiValue::Int(x) => Some(x as u32),
            WmiValue::UInt(x) => Some(x),
            WmiValue::Unsupported(_) => None,
        }),
{
    match v {
        WmiValue::UI1(x) => Some(x as u32),
        WmiValue::I1(x) => Some(x as u32),
        WmiValue::UI2(x) => Some(x as u32),
        WmiValue::I2(x) => Some(x as u32),
        WmiValue::UI4(x) => Some(x),
        WmiValue::I4(x) => Some(x as u32),
        WmiValue::Int(x) => Some(x as u32),
        WmiValue::UInt(x) => Some(x),
        WmiValue::Unsupported(_) => None,
    }
}

} // verus!
