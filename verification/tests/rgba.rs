use fecc_core::extensions::rgba::{AdjustBrightness, MIN_BRIGHT};
use fecc_core::types::Rgba;

#[test]
fn test_brighter() {
    let c = Rgba::new(82, 29, 255, 255);
    assert_eq!(c.brighter(), Rgba::new(117, 41, 255, 255));
}

#[test]
fn test_brighter_clamping() {
    let c = Rgba::new(200, 200, 200, 255);
    // 200 / 0.7 = ~285, should clamp to 255
    assert_eq!(c.brighter(), Rgba::new(255, 255, 255, 255));
}

#[test]
fn test_brighter_black() {
    let c = Rgba::black();
    // Should return a dark grey, not black
    let brighter = c.brighter();
    assert!(brighter.r > 0);
    assert!(brighter.g > 0);
    assert!(brighter.b > 0);
    assert_eq!(brighter.a, 255);
}

#[test]
fn test_darker() {
    let c = Rgba::new(45, 150, 139, 255);
    assert_eq!(c.darker(), Rgba::new(31, 105, 97, 255));
}

#[test]
fn test_darker_zero() {
    let c = Rgba::new(0, 0, 0, 255);
    assert_eq!(c.darker(), Rgba::new(0, 0, 0, 255));
}

#[test]
fn brighter_of_black_is_the_floor_grey_at_any_alpha() {
    assert_eq!(MIN_BRIGHT, 3);
    for a in [0u8, 1, 77, 128, 254, 255] {
        assert_eq!(Rgba::new(0, 0, 0, a).brighter(), Rgba::new(3, 3, 3, a));
    }
}

#[test]
fn brighter_lifts_faint_channels_to_the_floor_first() {
    // 1 and 2 are raised to 3 and then divided by 0.7; 0 stays 0 beside a lit channel.
    assert_eq!(Rgba::new(1, 2, 0, 9).brighter(), Rgba::new(4, 4, 0, 9));
    assert_eq!(Rgba::new(3, 0, 0, 9).brighter(), Rgba::new(4, 0, 0, 9));
    assert_eq!(Rgba::new(0, 0, 7, 9).brighter(), Rgba::new(0, 0, 10, 9));
}

#[test]
fn brighter_caps_at_white() {
    assert_eq!(Rgba::new(178, 179, 255, 1).brighter(), Rgba::new(254, 255, 255, 1));
}

#[test]
fn darker_is_seven_tenths_rounded_down_on_every_value() {
    for v in 0..=255u8 {
        let d = Rgba::new(v, v, v, v).darker();
        let expected = (v as u32 * 7 / 10) as u8;
        assert_eq!(d, Rgba::new(expected, expected, expected, v));
    }
}

#[test]
fn shades_agree_with_single_precision_arithmetic() {
    let factor: f32 = 0.7;
    let floor = (1.0 / (1.0 - factor)) as u8;
    assert_eq!(floor, MIN_BRIGHT);
    for v in 0..=255u8 {
        let darker = (v as f32 * factor) as u8;
        assert_eq!(Rgba::new(v, 255, 255, 255).darker().r, darker);
        let lifted = if v > 0 && v < floor { floor } else { v };
        let brighter = (lifted as f32 / factor).min(255.0) as u8;
        assert_eq!(Rgba::new(v, 255, 255, 255).brighter().r, brighter);
    }
}
