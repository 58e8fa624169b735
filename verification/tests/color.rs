use metro_core::color::{wheel, Rgb8};

#[test]
fn wheel_segment_border_colors() {
    // Inverted-domain borders: 255 - pos lands on 0, 85 and 170.
    assert_eq!(wheel(255), Rgb8 { r: 255, g: 0, b: 0 });
    assert_eq!(wheel(170), Rgb8 { r: 0, g: 0, b: 255 });
    assert_eq!(wheel(85), Rgb8 { r: 0, g: 255, b: 0 });
    assert_eq!(wheel(0), Rgb8 { r: 255, g: 0, b: 0 });
}

#[test]
fn wheel_exact_mid_segment_value() {
    // pos 128 inverts to 127, segment-local offset 42.
    assert_eq!(wheel(128), Rgb8 { r: 0, g: 126, b: 129 });
}

#[test]
fn wheel_total_with_a_dark_channel_everywhere() {
    for pos in 0..=255u8 {
        let c = wheel(pos);
        assert!(c.r == 0 || c.g == 0 || c.b == 0, "phase {pos}");
    }
}

#[test]
fn wheel_continuity_step_at_most_three() {
    for pos in 0..255u8 {
        let a = wheel(pos);
        let b = wheel(pos + 1);
        assert!((i16::from(a.r) - i16::from(b.r)).abs() <= 3, "red at {pos}");
        assert!((i16::from(a.g) - i16::from(b.g)).abs() <= 3, "green at {pos}");
        assert!((i16::from(a.b) - i16::from(b.b)).abs() <= 3, "blue at {pos}");
    }
}

#[test]
fn wheel_wraps_to_the_same_color() {
    assert_eq!(wheel(255), wheel(0));
}

#[test]
fn off_pixel_is_dark() {
    assert_eq!(Rgb8::off(), Rgb8 { r: 0, g: 0, b: 0 });
}
