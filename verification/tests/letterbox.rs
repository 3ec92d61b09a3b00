use grafiek_wasm::letterbox::content_region;
use grafiek_wasm::letterbox::letterbox_uniforms;
use grafiek_wasm::letterbox::AspectRatio;
use grafiek_wasm::letterbox::LetterboxUniforms;
use grafiek_wasm::letterbox::Region;

fn aspect(width: u32, height: u32) -> f64 {
    width as f64 / height as f64
}

#[test]
fn uniforms_hold_size_and_aspect_of_the_destination() {
    assert_eq!(
        letterbox_uniforms(640, 480),
        Some(LetterboxUniforms {
            output_width: 640,
            output_height: 480,
            aspect_ratio: AspectRatio { numer: 640, denom: 480 },
        })
    );
}

#[test]
fn uniforms_skip_a_destination_without_height() {
    assert_eq!(letterbox_uniforms(640, 0), None);
    assert_eq!(letterbox_uniforms(0, 0), None);
}

#[test]
fn uniforms_allow_a_destination_without_width() {
    assert_eq!(
        letterbox_uniforms(0, 480),
        Some(LetterboxUniforms {
            output_width: 0,
            output_height: 480,
            aspect_ratio: AspectRatio { numer: 0, denom: 480 },
        })
    );
}

#[test]
fn square_source_in_wide_destination_gets_side_bars() {
    let r = content_region(200, 100, 50, 50).unwrap();
    assert_eq!(r, Region { x: 50, y: 0, width: 100, height: 100 });
    assert!((aspect(r.width, r.height) - 1.0).abs() < 1e-6);
}

#[test]
fn wide_source_in_tall_destination_gets_bars_above_and_below() {
    let r = content_region(100, 200, 160, 90).unwrap();
    assert_eq!(r, Region { x: 0, y: 72, width: 100, height: 56 });
    // 56.25 rows would be exact: the error is below one pixel row.
    assert!((aspect(r.width, r.height) - aspect(160, 90)).abs() < aspect(100, 56) - aspect(100, 57));
}

#[test]
fn matching_aspect_fills_the_destination() {
    assert_eq!(
        content_region(1920, 1080, 16, 9),
        Some(Region { x: 0, y: 0, width: 1920, height: 1080 })
    );
    assert_eq!(
        content_region(300, 300, 7, 7),
        Some(Region { x: 0, y: 0, width: 300, height: 300 })
    );
}

#[test]
fn odd_bars_are_centred_to_the_pixel() {
    // Content is 50 wide in 101: 25 left, 26 right.
    assert_eq!(content_region(101, 50, 1, 1), Some(Region { x: 25, y: 0, width: 50, height: 50 }));
}

#[test]
fn aspect_is_kept_within_one_pixel_over_many_shapes() {
    for (dw, dh) in [(1u32, 1u32), (640, 480), (480, 640), (1, 1000), (1000, 1), (4096, 2160)] {
        for (sw, sh) in [(1u32, 1u32), (16, 9), (9, 16), (3, 2), (1, 4000), (4000, 1)] {
            let r = content_region(dw, dh, sw, sh).unwrap();
            assert!(r.x + r.width <= dw && r.y + r.height <= dh);
            assert!(r.width == dw || r.height == dh);
            let lhs = r.width as u64 * sh as u64;
            let rhs = r.height as u64 * sw as u64;
            if r.width == dw && dw as u64 * sh as u64 <= dh as u64 * sw as u64 {
                assert!(rhs <= lhs && lhs - rhs < sw as u64);
            } else {
                assert!(lhs <= rhs && rhs - lhs < sh as u64);
            }
        }
    }
}

#[test]
fn nothing_is_shown_without_destination_height_or_source_size() {
    assert_eq!(content_region(100, 0, 16, 9), None);
    assert_eq!(content_region(100, 100, 0, 9), None);
    assert_eq!(content_region(100, 100, 16, 0), None);
}

#[test]
fn largest_sizes_do_not_overflow() {
    assert_eq!(
        content_region(u32::MAX, u32::MAX, u32::MAX, u32::MAX),
        Some(Region { x: 0, y: 0, width: u32::MAX, height: u32::MAX })
    );
    assert_eq!(
        content_region(u32::MAX, u32::MAX, u32::MAX, 1),
        Some(Region { x: 0, y: 2147483647, width: u32::MAX, height: 1 })
    );
}
