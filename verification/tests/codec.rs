use base64::Engine;
use bananaslice::{Raster, decode_image, encode_image, get_image_dimensions, png_dimensions};

fn checker_raster(w: u32, h: u32) -> Raster {
    let mut pixels = Vec::new();
    for y in 0..h {
        for x in 0..w {
            if (x + y) % 2 == 0 {
                pixels.extend_from_slice(&[200, 100, 50, 255]);
            } else {
                pixels.extend_from_slice(&[10, 20, 30, 255]);
            }
        }
    }
    Raster { width: w, height: h, pixels }
}

#[test]
fn png_round_trip_is_exact() {
    let r = checker_raster(4, 3);
    let b64 = encode_image(&r, "png").unwrap();
    let back = decode_image(&b64).unwrap();
    assert_eq!(back.width, 4);
    assert_eq!(back.height, 3);
    assert_eq!(back.pixels, r.pixels);
}

#[test]
fn webp_round_trip_is_exact() {
    let r = checker_raster(8, 8);
    let b64 = encode_image(&r, "webp").unwrap();
    let back = decode_image(&b64).unwrap();
    assert_eq!(back.width, 8);
    assert_eq!(back.height, 8);
    assert_eq!(back.pixels, r.pixels);
}

#[test]
fn jpeg_round_trip_is_near_exact() {
    // JPEG drops alpha and is lossy; a uniform image stays within tolerance.
    let mut pixels = Vec::new();
    for _ in 0..64 {
        pixels.extend_from_slice(&[120, 80, 200, 255]);
    }
    let r = Raster { width: 8, height: 8, pixels };
    let b64 = encode_image(&r, "jpeg").unwrap();
    let back = decode_image(&b64).unwrap();
    assert_eq!(back.width, 8);
    assert_eq!(back.height, 8);
    for px in back.pixels.chunks(4) {
        assert!((px[0] as i32 - 120).abs() <= 8);
        assert!((px[1] as i32 - 80).abs() <= 8);
        assert!((px[2] as i32 - 200).abs() <= 8);
        assert_eq!(px[3], 255);
    }
}

#[test]
fn unknown_format_token_falls_back_to_png() {
    // The documented fallback: an unrecognized token encodes as PNG.
    let r = checker_raster(2, 2);
    let b64 = encode_image(&r, "bmp-or-whatever").unwrap();
    let bytes = base64::engine::general_purpose::STANDARD.decode(&b64).unwrap();
    assert_eq!(&bytes[0..8], &[0x89, 0x50, 0x4E, 0x47, 0x0D, 0x0A, 0x1A, 0x0A]);
}

#[test]
fn format_tokens_are_ascii_case_insensitive() {
    let r = checker_raster(2, 2);
    let b64 = encode_image(&r, "JPG").unwrap();
    let bytes = base64::engine::general_purpose::STANDARD.decode(&b64).unwrap();
    assert_eq!(&bytes[0..2], &[0xFF, 0xD8]);
    let b64 = encode_image(&r, "WebP").unwrap();
    let bytes = base64::engine::general_purpose::STANDARD.decode(&b64).unwrap();
    assert_eq!(&bytes[0..4], b"RIFF");
}

#[test]
fn decode_image_rejects_bad_base64_preserving_the_cause() {
    let err = decode_image("!!!not-base64!!!").unwrap_err();
    assert!(err.starts_with("Failed to decode base64: "), "{err}");
    // The decoder's own description follows the prefix.
    assert!(err.len() > "Failed to decode base64: ".len(), "{err}");
}

#[test]
fn decode_image_rejects_non_image_bytes_preserving_the_cause() {
    let b64 = base64::engine::general_purpose::STANDARD.encode(b"plain text, no image");
    let err = decode_image(&b64).unwrap_err();
    assert!(err.starts_with("Failed to load image: "), "{err}");
    assert!(err.len() > "Failed to load image: ".len(), "{err}");
}

#[test]
fn png_dimensions_reads_the_header() {
    let mut bytes = vec![0x89, 0x50, 0x4E, 0x47, 0x0D, 0x0A, 0x1A, 0x0A];
    bytes.extend_from_slice(&[0, 0, 0, 13]);
    bytes.extend_from_slice(b"IHDR");
    bytes.extend_from_slice(&[0, 0, 1, 0x90]); // width 400
    bytes.extend_from_slice(&[0, 0, 0, 0xC8]); // height 200
    assert_eq!(png_dimensions(&bytes), Some((400, 200)));
}

#[test]
fn png_dimensions_rejects_short_or_foreign_bytes() {
    assert_eq!(png_dimensions(&vec![0x89, 0x50]), None);
    assert_eq!(png_dimensions(&vec![0u8; 30]), None);
}

#[test]
fn get_image_dimensions_on_encoded_raster() {
    let r = checker_raster(7, 5);
    let b64 = encode_image(&r, "png").unwrap();
    assert_eq!(get_image_dimensions(&b64), Some((7, 5)));
    assert_eq!(get_image_dimensions("%%%"), None);
}
