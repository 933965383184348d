use steam_controller_dsu::devices::util::{
    is_u32_masked_button_pressed, scale_stick_to_byte, scale_trigger_to_byte,
};

#[test]
fn test_is_u32_masked_button_pressed_when_pressed() {
    assert!(is_u32_masked_button_pressed(0b00000001, 0b00000001));
    assert!(is_u32_masked_button_pressed(0b11111111, 0b00000001));
    assert!(is_u32_masked_button_pressed(0xFFFFFFFF, 0x80000000));
}

#[test]
fn test_is_u32_masked_button_pressed_when_not_pressed() {
    assert!(!is_u32_masked_button_pressed(0b00000000, 0b00000001));
    assert!(!is_u32_masked_button_pressed(0b11111110, 0b00000001));
    assert!(!is_u32_masked_button_pressed(0x7FFFFFFF, 0x80000000));
}

#[test]
fn test_scale_stick_to_byte_center() {
    assert_eq!(scale_stick_to_byte(0), 128);
}

#[test]
fn test_scale_stick_to_byte_min() {
    let result = scale_stick_to_byte(-32768);
    assert!(result < 1);
}

#[test]
fn test_scale_stick_to_byte_max() {
    let result = scale_stick_to_byte(32767);
    assert!(result > 254);
}

#[test]
fn test_scale_trigger_to_byte_min() {
    assert_eq!(scale_trigger_to_byte(-32767), 0);
}

#[test]
fn test_scale_trigger_to_byte_max() {
    assert_eq!(scale_trigger_to_byte(32767), 255);
}

/// The float formula the conversions stand for: `(axis / 256 + 128)` clamped and truncated.
fn stick_by_float(axis: i16) -> u8 {
    let normalized = (axis as f32 / 256.0) + 128.0;
    normalized.clamp(0.0, 255.0) as u8
}

/// The float formula of the trigger conversion.
fn trigger_by_float(axis: i16) -> u8 {
    let clamped = axis.max(0) as f32;
    let normalized = (clamped / 32767.0) * 255.0;
    normalized.clamp(0.0, 255.0) as u8
}

#[test]
fn stick_conversion_matches_float_formula_on_every_input() {
    for axis in i16::MIN..=i16::MAX {
        assert_eq!(scale_stick_to_byte(axis), stick_by_float(axis), "axis {axis}");
    }
}

#[test]
fn trigger_conversion_matches_float_formula_on_every_input() {
    for axis in i16::MIN..=i16::MAX {
        assert_eq!(scale_trigger_to_byte(axis), trigger_by_float(axis), "axis {axis}");
    }
}

#[test]
fn stick_conversion_exact_values() {
    assert_eq!(scale_stick_to_byte(-32768), 0);
    assert_eq!(scale_stick_to_byte(-1), 127);
    assert_eq!(scale_stick_to_byte(255), 128);
    assert_eq!(scale_stick_to_byte(256), 129);
    assert_eq!(scale_stick_to_byte(32767), 255);
}

#[test]
fn trigger_conversion_exact_values() {
    assert_eq!(scale_trigger_to_byte(0), 0);
    assert_eq!(scale_trigger_to_byte(-1), 0);
    assert_eq!(scale_trigger_to_byte(129), 1);
    assert_eq!(scale_trigger_to_byte(128), 0);
    assert_eq!(scale_trigger_to_byte(16384), 127);
    assert_eq!(scale_trigger_to_byte(32766), 254);
}

#[test]
fn conversions_are_monotonic() {
    let mut prev_stick = 0u8;
    let mut prev_trigger = 0u8;
    for axis in i16::MIN..=i16::MAX {
        let s = scale_stick_to_byte(axis);
        let t = scale_trigger_to_byte(axis);
        assert!(s >= prev_stick);
        assert!(t >= prev_trigger);
        prev_stick = s;
        prev_trigger = t;
    }
}
