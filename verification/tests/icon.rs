use base64::Engine;
use mac_touchpad_core::icon::{bgra_to_rgba, encode_icon_png_base64, png_data_url};

#[test]
fn bgra_pixels_become_rgba() {
    assert_eq!(bgra_to_rgba(&[1, 2, 3, 4, 5, 6, 7, 0]), vec![3, 2, 1, 4, 7, 6, 5, 0]);
    // No alpha anywhere: the icon is made opaque.
    assert_eq!(bgra_to_rgba(&[1, 2, 3, 0, 5, 6, 7, 0]), vec![3, 2, 1, 255, 7, 6, 5, 255]);
    // A trailing partial pixel is dropped.
    assert_eq!(bgra_to_rgba(&[1, 2, 3, 9, 8]), vec![3, 2, 1, 9]);
    assert!(bgra_to_rgba(&[]).is_empty());
}

#[test]
fn icon_is_encoded_as_base64_png() {
    let b64 = match encode_icon_png_base64(2, 1, &[10, 20, 30, 0, 40, 50, 60, 0]) {
        Ok(s) => s,
        Err(e) => panic!("encoding failed: {}", e),
    };
    assert!(b64.starts_with("iVBORw0KGgo"));
    let png = base64::engine::general_purpose::STANDARD.decode(&b64).expect("valid base64");
    assert_eq!(&png[..8], &[0x89, b'P', b'N', b'G', 0x0D, 0x0A, 0x1A, 0x0A]);
    let img = image::load_from_memory(&png).expect("valid png").to_rgba8();
    assert_eq!(img.dimensions(), (2, 1));
    assert_eq!(img.as_raw().as_slice(), &[30, 20, 10, 255, 60, 50, 40, 255]);
}

#[test]
fn too_small_buffer_is_rejected() {
    assert_eq!(
        encode_icon_png_base64(2, 2, &[0u8; 15]),
        Err("Failed to create image from raw pixels".to_string())
    );
    assert_eq!(
        encode_icon_png_base64(u32::MAX, u32::MAX, &[0u8; 4]),
        Err("Failed to create image from raw pixels".to_string())
    );
}

#[test]
fn data_url_prefix() {
    assert_eq!(png_data_url("AAAA"), "data:image/png;base64,AAAA");
    assert_eq!(png_data_url(""), "data:image/png;base64,");
}
