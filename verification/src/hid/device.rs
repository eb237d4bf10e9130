//! Identification of precision touchpads.

use vstd::prelude::*;
use vstd::string::StringSliceAdditionalSpecFns;
use vstd::utf8::{decode_utf8, valid_utf8};

use md5::{Digest, Md5};

use crate::hid::types::TouchpadDeviceInfo;
use crate::text::{decimal_string, digits, push_char};

verus! {

/// HID usage page of digitizers.
pub const DIGITIZER_USAGE_PAGE: u16 = 0x000D;
/// HID usage of a touch pad on the digitizer page.
pub const TOUCH_PAD_USAGE: u16 = 0x0005;

/// Whether a HID device with this top-level usage is a precision touchpad.
pub fn is_precision_touchpad(usage_page: u16, usage: u16) -> (r: bool)
    ensures
        r == (usage_page == DIGITIZER_USAGE_PAGE && usage == TOUCH_PAD_USAGE),
{
    usage_page == DIGITIZER_USAGE_PAGE && usage == TOUCH_PAD_USAGE
}

/// The MD5 digest of a byte string.
pub uninterp spec fn md5_of(data: Seq<u8>) -> Seq<u8>;

/// Calls `md5::Md5::digest` (the `Digest` trait of the md-5 crate).
/// Trusted: the result is the MD5 digest of `data`, named `md5_of`, and is
/// 16 bytes long (the output size `U16` of `Md5Core`).
#[verifier::external_body]
fn md5_digest(data: &[u8]) -> (r: Vec<u8>)
    ensures
        r@ == md5_of(data@),
        r@.len() == 16,
{
    Md5::digest(data).to_vec()
}

/// Lower-case hex digit for a value below 16.
pub open spec fn lower_hex_char(d: nat) -> char {
    if d < 10 {
        ((48 + d) as u8) as char
    } else {
        ((87 + d) as u8) as char
    }
}

/// Two lower-case hex digits per byte.
pub open spec fn hex_lower(bytes: Seq<u8>) -> Seq<char>
    decreases bytes.len(),
{
    if bytes.len() == 0 {
        Seq::empty()
    } else {
        hex_lower(bytes.drop_last()) + seq![
            lower_hex_char((bytes.last() / 16) as nat),
            lower_hex_char((bytes.last() % 16) as nat),
        ]
    }
}

fn lower_hex_char_exec(d: u8) -> (c: char)
    requires
        d < 16,
    ensures
        c == lower_hex_char(d as nat),
{
    if d < 10 {
        ((48 + d) as u8) as char
    } else {
        ((87 + d) as u8) as char
    }
}

/// MD5 of a string, as lower-case hex: the stable identifier of a device.
pub fn compute_md5(input: &str) -> (r: String)
    ensures
        r@ == hex_lower(md5_of(input.spec_bytes())),
{
    let digest = md5_digest(input.as_bytes());
    let mut s = String::new();
    let mut i: usize = 0;
    while i < digest.len()
        invariant
            0 <= i <= digest@.len(),
            s@ == hex_lower(digest@.take(i as int)),
        decreases digest@.len() - i,
    {
        let b = digest[i];
        push_char(&mut s, lower_hex_char_exec(b / 16));
        push_char(&mut s, lower_hex_char_exec(b % 16));
        proof {
            assert(digest@.take(i as int + 1).drop_last() == digest@.take(i as int));
        }
        i += 1;
    }
    proof {
        assert(digest@.take(digest@.len() as int) == digest@);
    }
    s
}

/// Calls `String::from_utf8`.
/// Trusted: succeeds exactly on valid UTF-8 and then holds the decoded
/// characters, as its documentation states.
#[verifier::external_body]
fn string_from_utf8(bytes: Vec<u8>) -> (r: Option<String>)
    ensures
        r is Some <==> valid_utf8(bytes@),
        r matches Some(s) ==> s@ == decode_utf8(bytes@),
{
    String::from_utf8(bytes).ok()
}

/// Bytes of a null-terminated buffer before its first zero byte.
pub open spec fn before_nul(buf: Seq<u8>) -> Seq<u8>
    decreases buf.len(),
{
    if buf.len() == 0 {
        buf
    } else if buf[0] == 0 {
        Seq::empty()
    } else {
        seq![buf[0]] + before_nul(buf.drop_first())
    }
}

/// The device name held by a null-terminated buffer, if it is valid UTF-8.
pub fn device_name_from_buffer(buf: &[u8]) -> (r: Option<String>)
    ensures
        r is Some <==> valid_utf8(before_nul(buf@)),
        r matches Some(s) ==> s@ == decode_utf8(before_nul(buf@)),
{
    let mut len: usize = 0;
    while len < buf.len() && buf[len] != 0
        invariant
            0 <= len <= buf@.len(),
            forall|j: int| 0 <= j < len ==> buf@[j] != 0,
        decreases buf@.len() - len,
    {
        len += 1;
    }
    let mut name: Vec<u8> = Vec::new();
    let mut i: usize = 0;
    while i < len
        invariant
            0 <= i <= len <= buf@.len(),
            name@ == buf@.take(i as int),
        decreases len - i,
    {
        name.push(buf[i]);
        proof {
            assert(buf@.take(i as int + 1) == buf@.take(i as int).push(buf@[i as int]));
        }
        i += 1;
    }
    proof {
        lemma_before_nul(buf@, len as int);
    }
    string_from_utf8(name)
}

proof fn lemma_before_nul(buf: Seq<u8>, len: int)
    requires
        0 <= len <= buf.len(),
        forall|j: int| 0 <= j < len ==> buf[j] != 0,
        len == buf.len() || buf[len] == 0,
    ensures
        before_nul(buf) == buf.take(len),
    decreases buf.len(),
{
    if buf.len() > 0 {
        if len == 0 {
            assert(buf.take(0) == Seq::<u8>::empty());
        } else {
            let t = buf.drop_first();
            assert forall|j: int| 0 <= j < len - 1 implies t[j] != 0 by {
                assert(t[j] == buf[j + 1]);
            }
            if len < buf.len() {
                assert(t[len - 1] == buf[len]);
            }
            lemma_before_nul(t, len - 1);
            assert(seq![buf[0]] + t.take(len - 1) == buf.take(len));
        }
    } else {
        assert(buf.take(len) == buf);
    }
}

/// Device information for a touchpad: its id is the MD5 of its device name
/// (or `default` when the name is unknown), vendor and product ids in
/// decimal.
pub fn touchpad_device_info(handle: isize, vendor_id: u32, product_id: u32, name: Option<&str>) -> (info:
    TouchpadDeviceInfo)
    ensures
        info.handle == handle,
        info.vendor_id@ == digits(vendor_id as nat, 10),
        info.product_id@ == digits(product_id as nat, 10),
        info.device_id@ == (match name {
            Some(n) => hex_lower(md5_of(n.spec_bytes())),
            None => "default"@,
        }),
{
    let mut info = TouchpadDeviceInfo::new(handle);
    info.vendor_id = decimal_string(vendor_id);
    info.product_id = decimal_string(product_id);
    match name {
        Some(n) => {
            info.device_id = compute_md5(n);
        },
        None => {},
    }
    info
}

} // verus!
