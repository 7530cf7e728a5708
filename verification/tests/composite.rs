use bananaslice::{
    Raster, alpha_blend, composite_rasters, composite_patch, CompositeRequest, decode_image,
    encode_image,
};

fn uniform_raster(w: u32, h: u32, px: [u8; 4]) -> Raster {
    let mut pixels = Vec::new();
    for _ in 0..(w as usize * h as usize) {
        pixels.extend_from_slice(&px);
    }
    Raster { width: w, height: h, pixels }
}

fn pixel_at(r: &Raster, x: u32, y: u32) -> [u8; 4] {
    let i = ((y * r.width + x) * 4) as usize;
    [r.pixels[i], r.pixels[i + 1], r.pixels[i + 2], r.pixels[i + 3]]
}

#[test]
fn alpha_blend_fully_opaque_takes_the_overlay() {
    let r = alpha_blend((10, 20, 30, 40), (200, 100, 50, 255));
    assert_eq!(r, (200, 100, 50, 255));
}

#[test]
fn alpha_blend_fully_transparent_keeps_the_base() {
    let r = alpha_blend((10, 20, 30, 40), (200, 100, 50, 0));
    assert_eq!(r, (10, 20, 30, 255));
}

#[test]
fn alpha_blend_half_transparent_exact_values() {
    // (200*128 + 100*127) / 255 = 150, (0*128 + 255*127) / 255 = 127,
    // (60*128 + 0*127) / 255 = 30; output alpha forced to 255.
    let r = alpha_blend((100, 255, 0, 9), (200, 0, 60, 128));
    assert_eq!(r, (150, 127, 30, 255));
}

#[test]
fn opaque_patch_overwrites_its_region_and_nothing_else() {
    let mut base = uniform_raster(20, 20, [10, 20, 30, 255]);
    let patch = uniform_raster(10, 10, [200, 100, 50, 255]);
    composite_rasters(&mut base, &patch, 5, 5);
    for y in 0..20 {
        for x in 0..20 {
            let expected = if (5..15).contains(&x) && (5..15).contains(&y) {
                [200, 100, 50, 255]
            } else {
                [10, 20, 30, 255]
            };
            assert_eq!(pixel_at(&base, x, y), expected, "pixel ({x},{y})");
        }
    }
}

#[test]
fn out_of_bounds_patch_pixels_are_dropped() {
    let mut base = uniform_raster(20, 20, [10, 20, 30, 200]);
    let patch = uniform_raster(10, 10, [200, 100, 50, 255]);
    composite_rasters(&mut base, &patch, 15, 18);
    for y in 0..20 {
        for x in 0..20 {
            let expected = if x >= 15 && y >= 18 {
                [200, 100, 50, 255]
            } else {
                [10, 20, 30, 200]
            };
            assert_eq!(pixel_at(&base, x, y), expected, "pixel ({x},{y})");
        }
    }
}

#[test]
fn patch_entirely_outside_changes_nothing() {
    let mut base = uniform_raster(8, 8, [1, 2, 3, 4]);
    let patch = uniform_raster(4, 4, [200, 100, 50, 255]);
    composite_rasters(&mut base, &patch, 100, 100);
    for y in 0..8 {
        for x in 0..8 {
            assert_eq!(pixel_at(&base, x, y), [1, 2, 3, 4]);
        }
    }
}

#[test]
fn transparent_patch_forces_opaque_output() {
    let mut base = uniform_raster(4, 4, [10, 20, 30, 77]);
    let patch = uniform_raster(4, 4, [200, 100, 50, 0]);
    composite_rasters(&mut base, &patch, 0, 0);
    for y in 0..4 {
        for x in 0..4 {
            assert_eq!(pixel_at(&base, x, y), [10, 20, 30, 255]);
        }
    }
}

#[test]
fn composite_patch_end_to_end_without_resize() {
    let base = uniform_raster(20, 20, [10, 20, 30, 255]);
    let patch = uniform_raster(10, 10, [200, 100, 50, 255]);
    let req = CompositeRequest {
        base_image_base64: encode_image(&base, "png").unwrap(),
        patch_image_base64: encode_image(&patch, "png").unwrap(),
        x: 5,
        y: 5,
        target_width: 0,
        target_height: 0,
        format: String::from("png"),
    };
    let resp = composite_patch(req);
    assert!(resp.success);
    assert!(resp.error.is_none());
    let out = decode_image(&resp.image_base64.unwrap()).unwrap();
    assert_eq!(out.width, 20);
    assert_eq!(out.height, 20);
    for y in 0..20 {
        for x in 0..20 {
            let expected = if (5..15).contains(&x) && (5..15).contains(&y) {
                [200, 100, 50, 255]
            } else {
                [10, 20, 30, 255]
            };
            assert_eq!(pixel_at(&out, x, y), expected, "pixel ({x},{y})");
        }
    }
}

#[test]
fn composite_patch_resizes_to_the_target_box() {
    let base = uniform_raster(30, 30, [10, 20, 30, 255]);
    let patch = uniform_raster(4, 4, [200, 100, 50, 255]);
    let req = CompositeRequest {
        base_image_base64: encode_image(&base, "png").unwrap(),
        patch_image_base64: encode_image(&patch, "png").unwrap(),
        x: 2,
        y: 3,
        target_width: 12,
        target_height: 9,
        format: String::from("png"),
    };
    let resp = composite_patch(req);
    assert!(resp.success);
    let out = decode_image(&resp.image_base64.unwrap()).unwrap();
    assert_eq!(out.width, 30);
    assert_eq!(out.height, 30);
    // A pixel inside the 12x9 box but beyond the patch's native 4x4 extent
    // carries the (uniform) patch color: the patch was really resized.
    for (x, y) in [(11u32, 8u32), (13, 11)] {
        let px = pixel_at(&out, x, y);
        assert!((px[0] as i32 - 200).abs() <= 2, "pixel ({x},{y}): {px:?}");
        assert!((px[1] as i32 - 100).abs() <= 2, "pixel ({x},{y}): {px:?}");
        assert!((px[2] as i32 - 50).abs() <= 2, "pixel ({x},{y}): {px:?}");
        assert_eq!(px[3], 255);
    }
    // A pixel well outside the 12x9 box at (2,3) is untouched.
    assert_eq!(pixel_at(&out, 20, 20), [10, 20, 30, 255]);
}

#[test]
fn composite_patch_reports_bad_base64() {
    let req = CompositeRequest {
        base_image_base64: String::from("!!!"),
        patch_image_base64: String::from("!!!"),
        x: 0,
        y: 0,
        target_width: 0,
        target_height: 0,
        format: String::from("png"),
    };
    let resp = composite_patch(req);
    assert!(!resp.success);
    assert!(resp.image_base64.is_none());
    let err = resp.error.unwrap();
    assert!(err.starts_with("Failed to decode base64: "), "{err}");
}

#[test]
fn composite_patch_is_a_pure_function_of_the_request() {
    let make = |base: &str, patch: &str| CompositeRequest {
        base_image_base64: String::from(base),
        patch_image_base64: String::from(patch),
        x: 1,
        y: 2,
        target_width: 0,
        target_height: 0,
        format: String::from("png"),
    };
    let good = encode_image(&uniform_raster(3, 3, [1, 2, 3, 255]), "png").unwrap();

    let a = composite_patch(make(&good, &good));
    let b = composite_patch(make(&good, &good));
    assert_eq!(a.success, b.success);
    assert_eq!(a.image_base64, b.image_base64);
    assert_eq!(a.error, b.error);

    let c = composite_patch(make("%%%", &good));
    let d = composite_patch(make("%%%", &good));
    assert_eq!(c.error, d.error);
    assert!(c.error.is_some());
}
