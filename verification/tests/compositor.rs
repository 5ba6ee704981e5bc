//! Tests of the layer compositor: the blend formula, the alpha inversion,
//! clipping, malformed-layer rejection, and the order dependence of
//! overlapping layers.

use subtitle_compositor::compositor::{composite_frame, composite_layer, Error, Layer};

/// A layer whose every coverage byte is `k`.
fn solid_layer(x: i32, y: i32, width: u32, height: u32, k: u8, color: u32) -> Layer {
    Layer {
        x,
        y,
        width,
        height,
        bitmap: vec![k; (width * height) as usize],
        color,
    }
}

/// A framebuffer of `w * h` pixels whose every byte is `b`.
fn frame(w: usize, h: usize, b: u8) -> Vec<u8> {
    vec![b; w * h * 4]
}

#[test]
fn full_coverage_replaces_with_tint() {
    // Opaque red: alpha byte 0xFF stores "no transparency" and inverts to 0.
    let layer = solid_layer(0, 0, 2, 2, 255, 0xFF0000FF);
    let mut dst = frame(2, 2, 0);
    let r = composite_layer(&layer, 2, 2, &mut dst);
    assert!(r.is_ok());
    for px in 0..4 {
        assert_eq!(&dst[px * 4..px * 4 + 4], &[255, 0, 0, 0]);
    }
}

#[test]
fn zero_coverage_is_a_no_op() {
    let layer = solid_layer(0, 0, 2, 2, 0, 0xFF00FF77);
    let mut dst: Vec<u8> = (0u8..16).collect();
    let before = dst.clone();
    let r = composite_layer(&layer, 2, 2, &mut dst);
    assert!(r.is_ok());
    assert_eq!(dst, before);
}

#[test]
fn zero_coverage_twice_identical_to_once() {
    let layer = solid_layer(0, 0, 2, 2, 0, 0x12345678);
    let mut dst: Vec<u8> = (100u8..116).collect();
    assert!(composite_layer(&layer, 2, 2, &mut dst).is_ok());
    let after_once = dst.clone();
    assert!(composite_layer(&layer, 2, 2, &mut dst).is_ok());
    assert_eq!(dst, after_once);
}

#[test]
fn out_of_bounds_layer_does_not_write() {
    let mut dst: Vec<u8> = (0u8..16).collect();
    let before = dst.clone();
    // Entirely to the left, above, to the right of, and below a 2x2 frame.
    for layer in [
        solid_layer(-3, 0, 3, 2, 255, 0xFFFFFFFF),
        solid_layer(0, -2, 2, 2, 255, 0xFFFFFFFF),
        solid_layer(2, 0, 3, 2, 255, 0xFFFFFFFF),
        solid_layer(0, 2, 2, 5, 255, 0xFFFFFFFF),
    ] {
        let r = composite_layer(&layer, 2, 2, &mut dst);
        assert!(r.is_ok());
        assert_eq!(dst, before);
    }
}

#[test]
fn malformed_layer_rejected_before_mutation() {
    let mut layer = solid_layer(0, 0, 2, 2, 255, 0xFFFFFFFF);
    layer.bitmap.pop();
    let mut dst: Vec<u8> = (0u8..16).collect();
    let before = dst.clone();
    let r = composite_layer(&layer, 2, 2, &mut dst);
    assert!(matches!(r, Err(Error::MalformedLayer)));
    assert_eq!(dst, before);
}

#[test]
fn frame_stops_at_first_malformed_layer() {
    let good_red = solid_layer(0, 0, 1, 1, 255, 0xFF0000FF);
    let mut malformed = solid_layer(0, 0, 1, 1, 255, 0x00FF00FF);
    malformed.bitmap.clear();
    let good_blue = solid_layer(0, 0, 1, 1, 255, 0x0000FFFF);
    let layers = vec![good_red, malformed, good_blue];

    let mut dst = frame(1, 1, 0);
    let r = composite_frame(&layers, 1, 1, &mut dst);
    assert!(matches!(r, Err(Error::MalformedLayer)));
    // The first layer was applied; the malformed one and the blue one were not.
    assert_eq!(dst, vec![255, 0, 0, 0]);
}

#[test]
fn frame_composites_all_layers_in_order() {
    let red = solid_layer(0, 0, 1, 1, 128, 0xFF0000FF);
    let blue = solid_layer(0, 0, 1, 1, 128, 0x0000FFFF);
    let layers = vec![red.clone(), blue.clone()];

    let mut via_frame = frame(1, 1, 0);
    assert!(composite_frame(&layers, 1, 1, &mut via_frame).is_ok());

    let mut via_layers = frame(1, 1, 0);
    assert!(composite_layer(&red, 1, 1, &mut via_layers).is_ok());
    assert!(composite_layer(&blue, 1, 1, &mut via_layers).is_ok());

    assert_eq!(via_frame, via_layers);
}

#[test]
fn order_of_overlapping_partial_layers_matters() {
    let red = solid_layer(0, 0, 1, 1, 128, 0xFF0000FF);
    let blue = solid_layer(0, 0, 1, 1, 128, 0x0000FFFF);

    let mut red_then_blue = frame(1, 1, 0);
    assert!(composite_layer(&red, 1, 1, &mut red_then_blue).is_ok());
    assert!(composite_layer(&blue, 1, 1, &mut red_then_blue).is_ok());

    let mut blue_then_red = frame(1, 1, 0);
    assert!(composite_layer(&blue, 1, 1, &mut blue_then_red).is_ok());
    assert!(composite_layer(&red, 1, 1, &mut blue_then_red).is_ok());

    assert_ne!(red_then_blue, blue_then_red);
    // Red first then blue: red fades to (128 * 0 + 127 * 128) / 255 = 63.
    assert_eq!(red_then_blue, vec![63, 0, 128, 0]);
    // Blue first then red: blue fades, red ends strong.
    assert_eq!(blue_then_red, vec![128, 0, 63, 0]);
}

#[test]
fn blend_formula_truncates_toward_zero() {
    // k = 128, tint channel 200, destination 50:
    // (128 * 200 + 127 * 50) / 255 = 31950 / 255 = 125 (truncated).
    // Alpha: tint byte is 255 - 200 = 55: (128 * 55 + 127 * 50) / 255 = 52.
    let layer = solid_layer(0, 0, 1, 1, 128, 0xC8C8C8C8);
    let mut dst = frame(1, 1, 50);
    assert!(composite_layer(&layer, 1, 1, &mut dst).is_ok());
    assert_eq!(dst, vec![125, 125, 125, 52]);
}

#[test]
fn negative_offset_is_clipped() {
    // A 2x2 layer at (-1, -1): only its bottom-right pixel reaches the frame,
    // landing on frame pixel (0, 0).
    let mut layer = solid_layer(-1, -1, 2, 2, 0, 0xFF0000FF);
    layer.bitmap = vec![10, 20, 30, 255];
    let mut dst = frame(2, 2, 0);
    assert!(composite_layer(&layer, 2, 2, &mut dst).is_ok());
    assert_eq!(&dst[0..4], &[255, 0, 0, 0]);
    assert!(dst[4..].iter().all(|&b| b == 0));
}

#[test]
fn overhanging_edges_are_clipped() {
    // A 3x3 layer at (1, 1) over a 2x2 frame: only its top-left pixel lands,
    // on frame pixel (1, 1).
    let layer = solid_layer(1, 1, 3, 3, 255, 0x0000FFFF);
    let mut dst = frame(2, 2, 7);
    assert!(composite_layer(&layer, 2, 2, &mut dst).is_ok());
    assert_eq!(&dst[0..12], &[7u8; 12][..]);
    assert_eq!(&dst[12..16], &[0, 0, 255, 0]);
}

#[test]
fn stride_addresses_the_right_pixel() {
    // Frame 3 pixels wide, 2 high; a 1x1 layer at (2, 1) must write bytes
    // (1 * 3 + 2) * 4 .. + 4 and nothing else.
    let layer = solid_layer(2, 1, 1, 1, 255, 0x01020304);
    let mut dst = frame(3, 2, 0);
    assert!(composite_layer(&layer, 3, 2, &mut dst).is_ok());
    let off = (1 * 3 + 2) * 4;
    assert_eq!(&dst[off..off + 4], &[1, 2, 3, 251]);
    assert!(dst[..off].iter().all(|&b| b == 0));
}

#[test]
fn wide_frame_stride_is_not_hardcoded() {
    // A frame wider than a pixel row of the layer: the last pixel of the
    // second row must land at byte (1 * 1920 + 1919) * 4 of a 1920-wide
    // frame, and the same layer on a 960-wide frame at (1 * 960 + 959) * 4.
    for fw in [1920usize, 960] {
        let layer = solid_layer((fw - 1) as i32, 1, 1, 1, 255, 0xAABBCCDD);
        let mut dst = frame(fw, 2, 0);
        assert!(composite_layer(&layer, fw, 2, &mut dst).is_ok());
        let off = (fw + fw - 1) * 4;
        assert_eq!(&dst[off..off + 4], &[0xAA, 0xBB, 0xCC, 255 - 0xDD]);
        assert!(dst[..off].iter().all(|&b| b == 0));
    }
}

#[test]
fn empty_layer_is_accepted_and_writes_nothing() {
    let layer = Layer {
        x: 0,
        y: 0,
        width: 0,
        height: 5,
        bitmap: Vec::new(),
        color: 0xFFFFFFFF,
    };
    let mut dst: Vec<u8> = (0u8..16).collect();
    let before = dst.clone();
    assert!(composite_layer(&layer, 2, 2, &mut dst).is_ok());
    assert_eq!(dst, before);
}

#[test]
fn empty_frame_of_layers_changes_nothing() {
    let layers: Vec<Layer> = Vec::new();
    let mut dst: Vec<u8> = (0u8..16).collect();
    let before = dst.clone();
    assert!(composite_frame(&layers, 2, 2, &mut dst).is_ok());
    assert_eq!(dst, before);
}
