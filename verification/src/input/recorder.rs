//! Naming of recorded keyboard shortcuts.

use vstd::prelude::*;

use crate::text::{digit_char, digits, digits_exec, push_char, zero_pad, zero_pad_exec};

verus! {

/// Virtual keys of the modifier keys (Shift, Ctrl, Alt and Win, generic,
/// left and right).
pub open spec fn is_modifier_spec(vk: u32) -> bool {
    vk == 0x10 || vk == 0x11 || vk == 0x12 || vk == 0xA0 || vk == 0xA1 || vk == 0xA2 || vk == 0xA3
        || vk == 0xA4 || vk == 0xA5 || vk == 0x5B || vk == 0x5C
}

/// Whether a virtual key is a modifier key.
pub fn is_modifier(vk: u32) -> (r: bool)
    ensures
        r == is_modifier_spec(vk),
{
    vk == 0x10 || vk == 0x11 || vk == 0x12 || vk == 0xA0 || vk == 0xA1 || vk == 0xA2 || vk == 0xA3
        || vk == 0xA4 || vk == 0xA5 || vk == 0x5B || vk == 0x5C
}

/// Name of a key with its own label, if it has one.
pub open spec fn vk_label(vk: u32) -> Option<&'static str> {
    match vk {
        0x08 => Some("Backspace"),
        0x09 => Some("Tab"),
        0x0D => Some("Enter"),
        0x13 => Some("Pause"),
        0x14 => Some("CapsLock"),
        0x1B => Some("Esc"),
        0x20 => Some("Space"),
        0x21 => Some("PageUp"),
        0x22 => Some("PageDown"),
        0x23 => Some("End"),
        0x24 => Some("Home"),
        0x25 => Some("Left"),
        0x26 => Some("Up"),
        0x27 => Some("Right"),
        0x28 => Some("Down"),
        0x2C => Some("PrtSc"),
        0x2D => Some("Insert"),
        0x2E => Some("Delete"),
        0x5B | 0x5C => Some("Win"),
        0x60 => Some("Num0"),
        0x61 => Some("Num1"),
        0x62 => Some("Num2"),
        0x63 => Some("Num3"),
        0x64 => Some("Num4"),
        0x65 => Some("Num5"),
        0x66 => Some("Num6"),
        0x67 => Some("Num7"),
        0x68 => Some("Num8"),
        0x69 => Some("Num9"),
        0x6A => Some("Num*"),
        0x6B => Some("Num+"),
        0x6C => Some("NumEnter"),
        0x6D => Some("Num-"),
        0x6E => Some("Num."),
        0x6F => Some("Num/"),
        0x70 => Some("F1"),
        0x71 => Some("F2"),
        0x72 => Some("F3"),
        0x73 => Some("F4"),
        0x74 => Some("F5"),
        0x75 => Some("F6"),
        0x76 => Some("F7"),
        0x77 => Some("F8"),
        0x78 => Some("F9"),
        0x79 => Some("F10"),
        0x7A => Some("F11"),
        0x7B => Some("F12"),
        0x90 => Some("NumLock"),
        0x91 => Some("ScrollLock"),
        0xA0 | 0xA1 => Some("Shift"),
        0xA2 | 0xA3 => Some("Ctrl"),
        0xA4 | 0xA5 => Some("Alt"),
        0xAD => Some("VolumeMute"),
        0xAE => Some("VolumeDown"),
        0xAF => Some("VolumeUp"),
        0xB0 => Some("MediaNext"),
        0xB1 => Some("MediaPrev"),
        0xB2 => Some("MediaStop"),
        0xB3 => Some("MediaPlay"),
        0xBA => Some(";"),
        0xBB => Some("="),
        0xBC => Some(","),
        0xBD => Some("-"),
        0xBE => Some("."),
        0xBF => Some("/"),
        0xC0 => Some("`"),
        0xDB => Some("["),
        0xDC => Some("\\"),
        0xDD => Some("]"),
        0xDE => Some("'"),
        _ => None,
    }
}

/// Display name of a virtual key: its label; a digit or letter key's own
/// character; otherwise `VK_0x` and its code in (at least two) upper-case
/// hex digits.
pub open spec fn vk_name(vk: u32) -> Seq<char> {
    match vk_label(vk) {
        Some(l) => l@,
        None => if 0x30 <= vk <= 0x39 {
            seq![((48 + (vk - 0x30)) as u8) as char]
        } else if 0x41 <= vk <= 0x5A {
            seq![((65 + (vk - 0x41)) as u8) as char]
        } else {
            "VK_0x"@ + zero_pad(digits(vk as nat, 16), 2)
        },
    }
}

fn vk_label_exec(vk: u32) -> (r: Option<&'static str>)
    ensures
        r == vk_label(vk),
{
    match vk {
        0x08 => Some("Backspace"),
        0x09 => Some("Tab"),
        0x0D => Some("Enter"),
        0x13 => Some("Pause"),
        0x14 => Some("CapsLock"),
        0x1B => Some("Esc"),
        0x20 => Some("Space"),
        0x21 => Some("PageUp"),
        0x22 => Some("PageDown"),
        0x23 => Some("End"),
        0x24 => Some("Home"),
        0x25 => Some("Left"),
        0x26 => Some("Up"),
        0x27 => Some("Right"),
        0x28 => Some("Down"),
        0x2C => Some("PrtSc"),
        0x2D => Some("Insert"),
        0x2E => Some("Delete"),
        0x5B | 0x5C => Some("Win"),
        0x60 => Some("Num0"),
        0x61 => Some("Num1"),
        0x62 => Some("Num2"),
        0x63 => Some("Num3"),
        0x64 => Some("Num4"),
        0x65 => Some("Num5"),
        0x66 => Some("Num6"),
        0x67 => Some("Num7"),
        0x68 => Some("Num8"),
        0x69 => Some("Num9"),
        0x6A => Some("Num*"),
        0x6B => Some("Num+"),
        0x6C => Some("NumEnter"),
        0x6D => Some("Num-"),
        0x6E => Some("Num."),
        0x6F => Some("Num/"),
        0x70 => Some("F1"),
        0x71 => Some("F2"),
        0x72 => Some("F3"),
        0x73 => Some("F4"),
        0x74 => Some("F5"),
        0x75 => Some("F6"),
        0x76 => Some("F7"),
        0x77 => Some("F8"),
        0x78 => Some("F9"),
        0x79 => Some("F10"),
        0x7A => Some("F11"),
        0x7B => Some("F12"),
        0x90 => Some("NumLock"),
        0x91 => Some("ScrollLock"),
        0xA0 | 0xA1 => Some("Shift"),
        0xA2 | 0xA3 => Some("Ctrl"),
        0xA4 | 0xA5 => Some("Alt"),
        0xAD => Some("VolumeMute"),
        0xAE => Some("VolumeDown"),
        0xAF => Some("VolumeUp"),
        0xB0 => Some("MediaNext"),
        0xB1 => Some("MediaPrev"),
        0xB2 => Some("MediaStop"),
        0xB3 => Some("MediaPlay"),
        0xBA => Some(";"),
        0xBB => Some("="),
        0xBC => Some(","),
        0xBD => Some("-"),
        0xBE => Some("."),
        0xBF => Some("/"),
        0xC0 => Some("`"),
        0xDB => Some("["),
        0xDC => Some("\\"),
        0xDD => Some("]"),
        0xDE => Some("'"),
        _ => None,
    }
}

/// Display name of a virtual key, as shown for recorded shortcuts.
pub fn vk_to_name(vk: u32) -> (r: String)
    ensures
        r@ == vk_name(vk),
        0x21 <= vk <= 0x28 ==> r@ == seq!["PageUp", "PageDown", "End", "Home", "Left", "Up", "Right", "Down"][vk
            - 0x21]@,
        0x70 <= vk <= 0x7B ==> r@ == seq!['F'] + digits((vk - 0x6F) as nat, 10),
        0x60 <= vk <= 0x69 ==> r@ == "Num"@ + seq![digit_char((vk - 0x60) as nat)],
        0xA0 <= vk <= 0xA5 ==> r@ == seq!["Shift", "Ctrl", "Alt"][(vk - 0xA0) / 2]@,
        (vk == 0x5B || vk == 0x5C) ==> r@ == "Win"@,
        (0x30 <= vk <= 0x39 || 0x41 <= vk <= 0x5A) ==> r@.len() == 1 && r@[0] as u32 == vk,
        0xAD <= vk <= 0xB3 ==> r@ == seq![
            "VolumeMute",
            "VolumeDown",
            "VolumeUp",
            "MediaNext",
            "MediaPrev",
            "MediaStop",
            "MediaPlay",
        ][vk - 0xAD]@,
        0x6A <= vk <= 0x6F ==> r@ == seq!["Num*", "Num+", "NumEnter", "Num-", "Num.", "Num/"][vk - 0x6A]@,
        0xBA <= vk <= 0xC0 ==> r@ == seq![";", "=", ",", "-", ".", "/", "`"][vk - 0xBA]@,
        0xDB <= vk <= 0xDE ==> r@ == seq!["[", "\\", "]", "'"][vk - 0xDB]@,
        0x2C <= vk <= 0x2E ==> r@ == seq!["PrtSc", "Insert", "Delete"][vk - 0x2C]@,
        0x90 <= vk <= 0x91 ==> r@ == seq!["NumLock", "ScrollLock"][vk - 0x90]@,
{
    proof {
        if 0x21 <= vk <= 0x28 {
            lemma_navigation_key_names(vk);
        }
        if 0x70 <= vk <= 0x7B {
            lemma_function_key_names(vk);
        }
        if 0x60 <= vk <= 0x69 {
            lemma_numpad_digit_names(vk);
        }
        lemma_modifier_key_names(vk);
        lemma_other_key_names(vk);
        if 0x30 <= vk <= 0x39 || 0x41 <= vk <= 0x5A {
            lemma_character_key_names(vk);
        }
    }
    match vk_label_exec(vk) {
        Some(l) => String::from_str(l),
        None => {
            if vk >= 0x30 && vk <= 0x39 {
                let mut s = String::new();
                push_char(&mut s, ((48 + (vk - 0x30)) as u8) as char);
                s
            } else if vk >= 0x41 && vk <= 0x5A {
                let mut s = String::new();
                push_char(&mut s, ((65 + (vk - 0x41)) as u8) as char);
                s
            } else {
                let hex = zero_pad_exec(digits_exec(vk, 16), 2);
                let mut s = String::from_str("VK_0x");
                let mut i: usize = 0;
                while i < hex.len()
                    invariant
                        0 <= i <= hex@.len(),
                        s@ == "VK_0x"@ + hex@.take(i as int),
                    decreases hex@.len() - i,
                {
                    push_char(&mut s, hex[i]);
                    proof {
                        assert(hex@.take(i as int + 1) == hex@.take(i as int).push(hex@[i as int]));
                    }
                    i += 1;
                }
                proof {
                    assert(hex@.take(hex@.len() as int) == hex@);
                }
                s
            }
        },
    }
}

/// Function keys F1 to F12 (virtual keys 0x70 to 0x7B, in order) are named
/// `F` followed by their number.
pub proof fn lemma_function_key_names(vk: u32)
    requires
        0x70 <= vk <= 0x7B,
    ensures
        vk_name(vk) == seq!['F'] + digits((vk - 0x6F) as nat, 10),
{
    reveal_strlit("F1");
    reveal_strlit("F2");
    reveal_strlit("F3");
    reveal_strlit("F4");
    reveal_strlit("F5");
    reveal_strlit("F6");
    reveal_strlit("F7");
    reveal_strlit("F8");
    reveal_strlit("F9");
    reveal_strlit("F10");
    reveal_strlit("F11");
    reveal_strlit("F12");
    let n = (vk - 0x6F) as nat;
    assert(digit_char(0) == '0' && digit_char(1) == '1' && digit_char(2) == '2' && digit_char(3) == '3'
        && digit_char(4) == '4' && digit_char(5) == '5' && digit_char(6) == '6' && digit_char(7) == '7'
        && digit_char(8) == '8' && digit_char(9) == '9');
    if n < 10 {
        assert(digits(n, 10) == seq![digit_char(n)]);
        assert(vk_name(vk) =~= seq!['F'] + digits(n, 10));
    } else {
        assert(digits(n, 10) == digits(1, 10).push(digit_char((n % 10) as nat)));
        assert(digits(1, 10) == seq![digit_char(1)]);
        assert(vk_name(vk) =~= seq!['F'] + digits(n, 10));
    }
}

/// The navigation keys, virtual keys 0x21 to 0x28 in Windows order, are
/// named Page Up, Page Down, End, Home and the four arrows Left, Up, Right,
/// Down.
pub proof fn lemma_navigation_key_names(vk: u32)
    requires
        0x21 <= vk <= 0x28,
    ensures
        vk_name(vk) == seq!["PageUp", "PageDown", "End", "Home", "Left", "Up", "Right", "Down"][vk - 0x21]@,
{
}

/// The other named keys, by their Windows virtual-key blocks: the
/// volume and media keys 0xAD to 0xB3, the keypad operators 0x6A to 0x6F,
/// the punctuation keys 0xBA to 0xC0 and 0xDB to 0xDE (US layout), the
/// editing keys 0x2C to 0x2E, the lock keys 0x90 and 0x91, and the single
/// control keys.
pub proof fn lemma_other_key_names(vk: u32)
    ensures
        0xAD <= vk <= 0xB3 ==> vk_name(vk) == seq![
            "VolumeMute",
            "VolumeDown",
            "VolumeUp",
            "MediaNext",
            "MediaPrev",
            "MediaStop",
            "MediaPlay",
        ][vk - 0xAD]@,
        0x6A <= vk <= 0x6F ==> vk_name(vk) == seq!["Num*", "Num+", "NumEnter", "Num-", "Num.", "Num/"][vk
            - 0x6A]@,
        0xBA <= vk <= 0xC0 ==> vk_name(vk) == seq![";", "=", ",", "-", ".", "/", "`"][vk - 0xBA]@,
        0xDB <= vk <= 0xDE ==> vk_name(vk) == seq!["[", "\\", "]", "'"][vk - 0xDB]@,
        0x2C <= vk <= 0x2E ==> vk_name(vk) == seq!["PrtSc", "Insert", "Delete"][vk - 0x2C]@,
        0x90 <= vk <= 0x91 ==> vk_name(vk) == seq!["NumLock", "ScrollLock"][vk - 0x90]@,
        vk == 0x08 ==> vk_name(vk) == "Backspace"@,
        vk == 0x09 ==> vk_name(vk) == "Tab"@,
        vk == 0x0D ==> vk_name(vk) == "Enter"@,
        vk == 0x13 ==> vk_name(vk) == "Pause"@,
        vk == 0x14 ==> vk_name(vk) == "CapsLock"@,
        vk == 0x1B ==> vk_name(vk) == "Esc"@,
        vk == 0x20 ==> vk_name(vk) == "Space"@,
{
}

/// The numeric keypad digits, virtual keys 0x60 to 0x69, are named `Num`
/// followed by their digit.
pub proof fn lemma_numpad_digit_names(vk: u32)
    requires
        0x60 <= vk <= 0x69,
    ensures
        vk_name(vk) == "Num"@ + seq![digit_char((vk - 0x60) as nat)],
{
    reveal_strlit("Num");
    reveal_strlit("Num0");
    reveal_strlit("Num1");
    reveal_strlit("Num2");
    reveal_strlit("Num3");
    reveal_strlit("Num4");
    reveal_strlit("Num5");
    reveal_strlit("Num6");
    reveal_strlit("Num7");
    reveal_strlit("Num8");
    reveal_strlit("Num9");
    assert(digit_char(0) == '0' && digit_char(1) == '1' && digit_char(2) == '2' && digit_char(3) == '3'
        && digit_char(4) == '4' && digit_char(5) == '5' && digit_char(6) == '6' && digit_char(7) == '7'
        && digit_char(8) == '8' && digit_char(9) == '9');
    assert(vk_name(vk) =~= "Num"@ + seq![digit_char((vk - 0x60) as nat)]);
}

/// The left and right keys of a modifier share its name: virtual keys
/// 0xA0/0xA1 are Shift, 0xA2/0xA3 Ctrl, 0xA4/0xA5 Alt, and 0x5B/0x5C Win.
pub proof fn lemma_modifier_key_names(vk: u32)
    ensures
        0xA0 <= vk <= 0xA5 ==> vk_name(vk) == seq!["Shift", "Ctrl", "Alt"][(vk - 0xA0) / 2]@,
        (vk == 0x5B || vk == 0x5C) ==> vk_name(vk) == "Win"@,
{
}

/// A digit or letter key is named by the one character whose code is the
/// key's own virtual-key code (`0`-`9` are 0x30-0x39, `A`-`Z` are 0x41-0x5A).
pub proof fn lemma_character_key_names(vk: u32)
    requires
        0x30 <= vk <= 0x39 || 0x41 <= vk <= 0x5A,
    ensures
        vk_name(vk).len() == 1,
        vk_name(vk)[0] as u32 == vk,
{
    assert(vk_label(vk) is None);
    if 0x30 <= vk <= 0x39 {
        let b = (48 + (vk - 0x30)) as u8;
        assert(b == vk);
        assert((b as char) as u32 == b);
    } else {
        let b = (65 + (vk - 0x41)) as u8;
        assert(b == vk);
        assert((b as char) as u32 == b);
    }
}

/// The shortcut string for a key pressed with the given modifiers held:
/// `Ctrl`, `Alt`, `Shift`, `Win` (those held, in this order) and the key's
/// name, joined by `+`.
pub open spec fn combo_name(ctrl: bool, alt: bool, shift: bool, win: bool, vk: u32) -> Seq<char> {
    (if ctrl {
        "Ctrl+"@
    } else {
        Seq::empty()
    }) + (if alt {
        "Alt+"@
    } else {
        Seq::empty()
    }) + (if shift {
        "Shift+"@
    } else {
        Seq::empty()
    }) + (if win {
        "Win+"@
    } else {
        Seq::empty()
    }) + vk_name(vk)
}

/// Build the shortcut string for a key pressed with the given modifiers held.
pub fn build_combo_string(ctrl: bool, alt: bool, shift: bool, win: bool, vk: u32) -> (r: String)
    ensures
        r@ == combo_name(ctrl, alt, shift, win, vk),
{
    let mut s = String::new();
    if ctrl {
        s.append("Ctrl+");
    }
    if alt {
        s.append("Alt+");
    }
    if shift {
        s.append("Shift+");
    }
    if win {
        s.append("Win+");
    }
    let name = vk_to_name(vk);
    s.append(name.as_str());
    proof {
        let e = Seq::<char>::empty();
        assert(e + "Ctrl+"@ == "Ctrl+"@);
    }
    s
}


/// Virtual key of the Escape key, which cancels recording.
pub const VK_ESCAPE: u32 = 0x1B;

/// Outcome of one scan over the keyboard state while recording a shortcut.
#[derive(Debug, Clone, Copy, PartialEq, Eq, Structural)]
pub enum ScanOutcome {
    /// No decisive key press yet: keep polling.
    Continue,
    /// Escape was pressed: recording is cancelled.
    Cancel,
    /// This non-modifier key was freshly pressed: the shortcut is complete.
    Pressed(u32),
}

/// The first decisive fresh key press at or after key `i`: a key that is
/// down now and was not down at the previous scan, and is Escape or not a
/// modifier.
pub open spec fn scan_from(prev: Seq<bool>, down: Seq<bool>, i: int) -> ScanOutcome
    decreases down.len() - i,
{
    if i < 0 || i >= down.len() {
        ScanOutcome::Continue
    } else if down[i] && !prev[i] {
        if i == VK_ESCAPE {
            ScanOutcome::Cancel
        } else if is_modifier_spec(i as u32) {
            scan_from(prev, down, i + 1)
        } else {
            ScanOutcome::Pressed(i as u32)
        }
    } else {
        scan_from(prev, down, i + 1)
    }
}

/// One scan while recording a shortcut: compare the key states `down`
/// (indexed by virtual key) with those of the previous scan, and find the
/// first fresh press of Escape or of a non-modifier key. When the scan
/// decides nothing, the current states become the previous ones.
pub fn scan_key_states(prev: &mut Vec<bool>, down: &Vec<bool>) -> (r: ScanOutcome)
    requires
        old(prev)@.len() == down@.len(),
        down@.len() <= 256,
    ensures
        r == scan_from(old(prev)@, down@, 0),
        r == ScanOutcome::Continue ==> final(prev)@ == down@,
        r == ScanOutcome::Cancel ==> final(prev)@ == down@.take(VK_ESCAPE as int + 1) + old(prev)@.skip(
            VK_ESCAPE as int + 1,
        ),
        r matches ScanOutcome::Pressed(k) ==> final(prev)@ == down@.take(k as int + 1) + old(prev)@.skip(
            k as int + 1,
        ),
{
    let ghost prev0 = prev@;
    let n = down.len();
    let mut i: usize = 0;
    while i < n
        invariant
            n == down@.len(),
            n <= 256,
            0 <= i <= n,
            prev@.len() == n,
            prev0 == old(prev)@,
            prev0.len() == n,
            forall|j: int| 0 <= j < i ==> prev@[j] == down@[j],
            forall|j: int| i <= j < n ==> prev@[j] == prev0[j],
            scan_from(prev0, down@, 0) == scan_from(prev0, down@, i as int),
        decreases n - i,
    {
        let fresh = down[i] && !prev[i];
        assert(prev@[i as int] == prev0[i as int]);
        assert((i as u32) as int == i as int);
        prev.set(i, down[i]);
        if fresh {
            proof {
                assert(prev@ =~= down@.take(i as int + 1) + prev0.skip(i as int + 1));
            }
            if i as u32 == VK_ESCAPE {
                return ScanOutcome::Cancel;
            }
            if !is_modifier(i as u32) {
                return ScanOutcome::Pressed(i as u32);
            }
        }
        i += 1;
    }
    proof {
        assert(prev@ =~= down@);
    }
    ScanOutcome::Continue
}

} // verus!
