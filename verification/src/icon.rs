//! Application icons for the policy lists: pixel conversion, PNG encoding
//! and the data URL handed to the settings UI.

use vstd::prelude::*;

use base64::Engine;
use image::{ImageBuffer, ImageError, ImageFormat, RgbaImage};

use crate::text::push_char;

verus! {

/// An RGBA image of the image crate, held opaquely: its declaration needs
/// the crate's `Pixel` trait as a bound, which Verus does not take.
#[verifier::external_body]
pub struct PixelImage {
    inner: RgbaImage,
}

/// Whether some pixel of a 32-bit BGRA buffer has a non-zero alpha.
pub open spec fn has_alpha(buf: Seq<u8>) -> bool {
    exists|i: int| 0 <= i < buf.len() / 4 && #[trigger] buf[4 * i + 3] > 0
}

/// Channel `k` of the RGBA image made from a BGRA buffer: red, green and
/// blue swapped into place; alpha kept when the buffer has any, else opaque.
/// A trailing partial pixel is dropped.
pub open spec fn rgba_sample(buf: Seq<u8>, k: int) -> u8 {
    let i = k / 4;
    let ch = k % 4;
    if ch == 0 {
        buf[4 * i + 2]
    } else if ch == 1 {
        buf[4 * i + 1]
    } else if ch == 2 {
        buf[4 * i]
    } else if has_alpha(buf) {
        buf[4 * i + 3]
    } else {
        255
    }
}

pub open spec fn rgba_of(buf: Seq<u8>) -> Seq<u8> {
    Seq::new((4 * (buf.len() / 4)) as nat, |k: int| rgba_sample(buf, k))
}

fn any_alpha(buffer: &[u8]) -> (r: bool)
    ensures
        r == has_alpha(buffer@),
{
    let n = buffer.len() / 4;
    assert(4 * n <= buffer@.len());
    let mut i: usize = 0;
    while i < n
        invariant
            n == buffer@.len() / 4,
            4 * n <= buffer@.len(),
            buffer@.len() <= usize::MAX,
            0 <= i <= n,
            forall|j: int| 0 <= j < i ==> #[trigger] buffer@[4 * j + 3] == 0,
        decreases n - i,
    {
        if buffer[4 * i + 3] > 0 {
            return true;
        }
        i += 1;
    }
    false
}

/// Convert 32-bit BGRA pixels to RGBA. Icons without any alpha information
/// become fully opaque.
pub fn bgra_to_rgba(buffer: &[u8]) -> (r: Vec<u8>)
    ensures
        r@ == rgba_of(buffer@),
{
    let n = buffer.len() / 4;
    assert(4 * n <= buffer@.len());
    let has_nonzero_alpha = any_alpha(buffer);
    let mut out: Vec<u8> = Vec::new();
    let mut p: usize = 0;
    while p < n
        invariant
            n == buffer@.len() / 4,
            4 * n <= buffer@.len(),
            buffer@.len() <= usize::MAX,
            0 <= p <= n,
            has_nonzero_alpha == has_alpha(buffer@),
            out@.len() == 4 * p,
            forall|k: int| 0 <= k < 4 * p ==> #[trigger] out@[k] == rgba_sample(buffer@, k),
        decreases n - p,
    {
        let b = buffer[4 * p];
        let g = buffer[4 * p + 1];
        let r = buffer[4 * p + 2];
        let a = if has_nonzero_alpha {
            buffer[4 * p + 3]
        } else {
            255
        };
        out.push(r);
        out.push(g);
        out.push(b);
        out.push(a);
        proof {
            assert forall|k: int| 4 * p <= k < 4 * p + 4 implies #[trigger] out@[k] == rgba_sample(
                buffer@,
                k,
            ) by {
                assert(k / 4 == p);
            }
        }
        p += 1;
    }
    assert(out@ =~= rgba_of(buffer@));
    out
}

/// Width of an RGBA image buffer.
pub uninterp spec fn image_width(img: PixelImage) -> u32;

/// Height of an RGBA image buffer.
pub uninterp spec fn image_height(img: PixelImage) -> u32;

/// Samples held by an RGBA image buffer.
pub uninterp spec fn image_samples(img: PixelImage) -> Seq<u8>;

/// Calls `image::ImageBuffer::from_raw` for RGBA pixels.
/// Trusted: succeeds exactly when the buffer holds at least
/// 4 * width * height samples (its `check_image_fits`), and then the image
/// has the given dimensions and holds the buffer.
#[verifier::external_body]
fn rgba_image_from_raw(width: u32, height: u32, buf: Vec<u8>) -> (r: Option<PixelImage>)
    ensures
        r is Some <==> 4 * width * height <= buf@.len(),
        r matches Some(img) ==> image_width(img) == width && image_height(img) == height
            && image_samples(img) == buf@,
{
    ImageBuffer::from_raw(width, height, buf).map(|inner| PixelImage { inner })
}

/// The PNG file for an RGBA image of the given size and samples, or `None`
/// when the encoder rejects it.
pub uninterp spec fn png_encoding(width: u32, height: u32, samples: Seq<u8>) -> Option<Seq<u8>>;

/// The error type of the image crate.
#[verifier::external_type_specification]
#[verifier::external_body]
pub struct ExImageError(ImageError);

/// Calls `image::ImageBuffer::write_to` with `ImageFormat::Png` into memory.
/// Trusted: the bytes written are the PNG encoding of the image's size and
/// samples, named `png_encoding`; which error the encoder reports is not
/// stated.
#[verifier::external_body]
fn write_png(img: &PixelImage) -> (r: Result<Vec<u8>, ImageError>)
    ensures
        r is Ok <==> png_encoding(image_width(*img), image_height(*img), image_samples(*img)) is Some,
        r matches Ok(v) ==> png_encoding(image_width(*img), image_height(*img), image_samples(*img))
            == Some(v@),
{
    let mut bytes: Vec<u8> = Vec::new();
    let mut cursor = std::io::Cursor::new(&mut bytes);
    match img.inner.write_to(&mut cursor, ImageFormat::Png) {
        Ok(()) => Ok(bytes),
        Err(e) => Err(e),
    }
}

/// Calls the `Display` impl of `image::ImageError`.
/// Trusted for nothing: the text of an error is not stated.
#[verifier::external_body]
fn image_error_text(e: &ImageError) -> (r: String) {
    format!("{}", e)
}

/// Character of the standard base64 alphabet for a 6-bit value.
pub open spec fn b64_char(v: int) -> char {
    if v < 26 {
        ((65 + v) as u8) as char
    } else if v < 52 {
        ((97 + v - 26) as u8) as char
    } else if v < 62 {
        ((48 + v - 52) as u8) as char
    } else if v == 62 {
        '+'
    } else {
        '/'
    }
}

/// Standard base64 (RFC 4648 alphabet, `=` padding) of a byte string.
pub open spec fn base64_spec(b: Seq<u8>) -> Seq<char>
    decreases b.len(),
{
    if b.len() == 0 {
        Seq::empty()
    } else if b.len() == 1 {
        seq![b64_char(b[0] as int / 4), b64_char((b[0] % 4) * 16), '=', '=']
    } else if b.len() == 2 {
        seq![b64_char(b[0] as int / 4), b64_char((b[0] % 4) * 16 + b[1] / 16), b64_char((b[1] % 16) * 4), '=']
    } else {
        seq![
            b64_char(b[0] as int / 4),
            b64_char((b[0] % 4) * 16 + b[1] / 16),
            b64_char((b[1] % 16) * 4 + b[2] / 64),
            b64_char(b[2] as int % 64),
        ] + base64_spec(b.skip(3))
    }
}

/// Calls `base64::Engine::encode` on the `STANDARD` engine.
/// Trusted: the result is the standard base64 encoding with padding
/// (RFC 4648), as the engine's configuration states.
#[verifier::external_body]
fn base64_encode(bytes: &[u8]) -> (r: String)
    ensures
        r@ == base64_spec(bytes@),
{
    base64::engine::general_purpose::STANDARD.encode(bytes)
}

/// Message given when the pixel buffer is too small for the icon size.
pub open spec fn too_small_message() -> Seq<char> {
    "Failed to create image from raw pixels"@
}

/// Prefix of the message given when PNG encoding fails.
pub open spec fn png_failure_prefix() -> Seq<char> {
    "Failed to encode PNG: "@
}

/// Encode a BGRA icon bitmap of the given size as base64 PNG.
pub fn encode_icon_png_base64(width: u32, height: u32, bgra: &[u8]) -> (r: Result<String, String>)
    ensures
        4 * width * height > 4 * (bgra@.len() / 4) ==> (r matches Err(m) && m@ == too_small_message()),
        4 * width * height <= 4 * (bgra@.len() / 4) ==> (match png_encoding(width, height, rgba_of(bgra@)) {
            Some(png) => (r matches Ok(b64) && b64@ == base64_spec(png)),
            None => (r matches Err(m) && png_failure_prefix().is_prefix_of(m@)),
        }),
{
    let rgba = bgra_to_rgba(bgra);
    let img = match rgba_image_from_raw(width, height, rgba) {
        Some(img) => img,
        None => {
            return Err(String::from_str("Failed to create image from raw pixels"));
        },
    };
    let png = match write_png(&img) {
        Ok(p) => p,
        Err(e) => {
            let mut msg = String::from_str("Failed to encode PNG: ");
            msg.append(image_error_text(&e).as_str());
            return Err(msg);
        },
    };
    Ok(base64_encode(png.as_slice()))
}

/// The data URL of a base64 PNG.
pub fn png_data_url(b64: &str) -> (r: String)
    ensures
        r@ == "data:image/png;base64,"@ + b64@,
{
    let mut s = String::from_str("data:image/png;base64,");
    s.append(b64);
    s
}

} // verus!
