//! Conversions from raw controller readings to DSU values.

use vstd::prelude::*;

verus! {

/// Returns true if a button in `buttons` is pressed according to `mask`.
pub fn is_u32_masked_button_pressed(buttons: u32, mask: u32) -> (pressed: bool)
    ensures
        pressed == (buttons & mask != 0),
{
    buttons & mask != 0
}

/// The DSU byte for a signed 16-bit stick axis: the axis shifted from `-32768..=32767` to
/// `0..=65535` and divided by 256 (rounding down), so that centre is 128.
pub open spec fn stick_byte(axis: i16) -> u8 {
    ((axis + 32768) / 256) as u8
}

/// The DSU byte for a signed 16-bit trigger axis: negative readings count as 0, and
/// `0..=32767` is scaled linearly onto `0..=255`, rounding down.
pub open spec fn trigger_byte(axis: i16) -> u8 {
    if axis < 0 {
        0u8
    } else {
        ((axis * 255) / 32767) as u8
    }
}

/// Convert a signed 16-bit stick axis to an unsigned 8-bit DSU value.
///
/// This is `(axis / 256 + 128)` clamped to `0..=255` and truncated; every step of that is
/// exact for a 16-bit input, so it is computed here in integers.
pub fn scale_stick_to_byte(axis: i16) -> (r: u8)
    ensures
        r == stick_byte(axis),
        r as int == (axis + 32768) / 256,
{
    let shifted: u32 = (axis as i32 + 32768) as u32;
    (shifted / 256) as u8
}

/// Convert a signed 16-bit trigger axis to an unsigned 8-bit DSU value.
///
/// This is `max(axis, 0) / 32767 * 255` clamped to `0..=255` and truncated, computed in
/// integers.
pub fn scale_trigger_to_byte(axis: i16) -> (r: u8)
    ensures
        r == trigger_byte(axis),
        0 <= axis ==> r as int == (axis * 255) / 32767,
        axis <= 0 ==> r == 0,
{
    if axis < 0 {
        0
    } else {
        let clamped: u32 = axis as u32;
        assert(clamped * 255 <= 32767 * 255) by (nonlinear_arith)
            requires
                clamped <= 32767,
        ;
        let scaled: u32 = clamped * 255 / 32767;
        assert(scaled <= 255) by (nonlinear_arith)
            requires
                scaled == clamped * 255 / 32767,
                clamped <= 32767,
        ;
        scaled as u8
    }
}

/// The stick conversion never decreases as the axis grows, maps the centre to 128 and the
/// ends of the range to 0 and 255.
pub proof fn lemma_stick_byte_monotonic(a: i16, b: i16)
    requires
        a <= b,
    ensures
        stick_byte(a) <= stick_byte(b),
        stick_byte(0i16) == 128,
        stick_byte(-32768i16) == 0,
        stick_byte(32767i16) == 255,
{
    assert((a + 32768) / 256 <= (b + 32768) / 256) by (nonlinear_arith)
        requires
            a <= b,
            -32768 <= a,
    ;
}

/// The trigger conversion never decreases as the axis grows, maps every non-positive
/// reading to 0 and full pull to 255.
pub proof fn lemma_trigger_byte_monotonic(a: i16, b: i16)
    requires
        a <= b,
    ensures
        trigger_byte(a) <= trigger_byte(b),
        trigger_byte(0i16) == 0,
        trigger_byte(32767i16) == 255,
{
    if a >= 0 {
        assert((a * 255) / 32767 <= (b * 255) / 32767) by (nonlinear_arith)
            requires
                0 <= a <= b,
        ;
        assert((b * 255) / 32767 <= 255) by (nonlinear_arith)
            requires
                0 <= b <= 32767,
        ;
        assert((a * 255) / 32767 >= 0) by (nonlinear_arith)
            requires
                0 <= a,
        ;
    } else if b >= 0 {
        assert((b * 255) / 32767 >= 0) by (nonlinear_arith)
            requires
                0 <= b,
        ;
        assert((b * 255) / 32767 <= 255) by (nonlinear_arith)
            requires
                0 <= b <= 32767,
        ;
    }
}

} // verus!
