//! Adapter logic for the first-generation Steam Controller family (2015).

use vstd::prelude::*;

use crate::bytes;
use crate::bytes::{read_i16_le, read_u32_le};
use crate::devices::device::{DeviceButton, DeviceConfig, GyroActivationMode};
use crate::devices::hid::{HidDeviceRecord, USAGE_PAGE_VENDOR_MIN, VID};
use crate::devices::util;
use crate::devices::util::{is_u32_masked_button_pressed, scale_stick_to_byte, scale_trigger_to_byte};
use crate::dsu::DSUFrame;
use crate::errors::DeviceError;
use crate::protocol::Motion;

verus! {

/// Product ID of the wired controller.
pub const PID_WIRED: u16 = 0x1102;

/// Product ID of the wireless receiver.
pub const PID_WIRELESS: u16 = 0x1142;

/// Input report ID of the state report.
pub const REPORT_ID_STATE: u8 = 0x01;

/// Length of a state report.
pub const REPORT_LEN: usize = 64;

/// A trigger reading at or above this analog value counts as pressed.
pub const ANALOG_TRIGGER_TO_DIGITAL_THRESHOLD: u8 = 228;

pub const MASK_A: u32 = 0x80;

pub const MASK_B: u32 = 0x20;

pub const MASK_X: u32 = 0x40;

pub const MASK_Y: u32 = 0x10;

pub const MASK_RIGHT_BUMPER: u32 = 0x4;

pub const MASK_LEFT_BUMPER: u32 = 0x8;

pub const MASK_DPAD_UP: u32 = 0x100;

pub const MASK_DPAD_RIGHT: u32 = 0x200;

pub const MASK_DPAD_LEFT: u32 = 0x400;

pub const MASK_DPAD_DOWN: u32 = 0x800;

pub const MASK_SELECT: u32 = 0x1000;

pub const MASK_GUIDE: u32 = 0x2000;

pub const MASK_START: u32 = 0x4000;

pub const MASK_LEFT_GRIP: u32 = 0x8000;

pub const MASK_RIGHT_GRIP: u32 = 0x10000;

pub const MASK_RIGHT_PAD_CLICKED: u32 = 0x40000;

pub const MASK_LEFT_PAD_TOUCH: u32 = 0x80000;

pub const MASK_RIGHT_PAD_TOUCH: u32 = 0x100000;

pub const MASK_LEFT_STICK_CLICK: u32 = 0x400000;

pub const MASK_LEFT_PAD_AND_JOYSTICK: u32 = 0x800000;

/// Parsed state report of the first-generation Steam Controller.
#[derive(Debug, Clone, Copy, PartialEq, Eq, Structural)]
pub struct LegacyFrame {
    pub buttons: u64,
    pub trigger_left: u8,
    pub trigger_right: u8,
    pub left_stick_x: i16,
    pub left_stick_y: i16,
    pub right_pad_x: i16,
    pub right_pad_y: i16,
    pub imu_timestamp: u32,
    pub accel_x: i16,
    pub accel_y: i16,
    pub accel_z: i16,
    pub gyro_x: i16,
    pub gyro_y: i16,
    pub gyro_z: i16,
    pub left_pad_touch: bool,
    pub right_pad_touch: bool,
    pub left_stick_click: bool,
    pub right_pad_click: bool,
    pub left_grip: bool,
    pub right_grip: bool,
}

/// A button mask test.
pub open spec fn pressed(buttons: u32, mask: u32) -> bool {
    buttons & mask != 0
}

/// The button bits of a state report: bytes 8, 9 and 10, little-endian.
pub open spec fn buttons_spec(d: Seq<u8>) -> u64 {
    (d[8] + 256 * d[9] + 65536 * d[10]) as u64
}

/// The frame a report holds: `None` unless it is a 64-byte-or-longer report with ID 0x01.
pub open spec fn parse_spec(d: Seq<u8>) -> Option<LegacyFrame> {
    if d.len() == 0 || d[0] != REPORT_ID_STATE || d.len() < REPORT_LEN {
        None
    } else {
        let b = buttons_spec(d) as u32;
        Some(LegacyFrame {
            buttons: buttons_spec(d),
            trigger_left: d[11],
            trigger_right: d[12],
            left_stick_x: bytes::i16_le(d[54], d[55]),
            left_stick_y: bytes::i16_le(d[56], d[57]),
            right_pad_x: bytes::i16_le(d[20], d[21]),
            right_pad_y: bytes::i16_le(d[22], d[23]),
            imu_timestamp: bytes::u32_le(d[4], d[5], d[6], d[7]),
            accel_x: bytes::i16_le(d[28], d[29]),
            accel_y: bytes::i16_le(d[30], d[31]),
            accel_z: bytes::i16_le(d[32], d[33]),
            gyro_x: bytes::i16_le(d[34], d[35]),
            gyro_y: bytes::i16_le(d[36], d[37]),
            gyro_z: bytes::i16_le(d[38], d[39]),
            left_pad_touch: pressed(b, MASK_LEFT_PAD_TOUCH) || pressed(b, MASK_LEFT_PAD_AND_JOYSTICK),
            right_pad_touch: pressed(b, MASK_RIGHT_PAD_TOUCH),
            left_stick_click: pressed(b, MASK_LEFT_STICK_CLICK),
            right_pad_click: pressed(b, MASK_RIGHT_PAD_CLICKED),
            left_grip: pressed(b, MASK_LEFT_GRIP),
            right_grip: pressed(b, MASK_RIGHT_GRIP),
        })
    }
}

impl LegacyFrame {
    /// Parse a raw HID report. `data` must include the Report ID byte.
    pub fn parse(data: &[u8]) -> (r: Option<Self>)
        ensures
            r == parse_spec(data@),
    {
        if data.len() == 0 {
            return None;
        }
        let report_id = data[0];
        if report_id != REPORT_ID_STATE {
            return None;
        }
        if data.len() < REPORT_LEN {
            return None;
        }
        let buttons: u64 = data[8] as u64 + (data[9] as u64) * 256 + (data[10] as u64) * 65536;
        let b = buttons as u32;
        Some(LegacyFrame {
            buttons,
            trigger_left: data[11],
            trigger_right: data[12],
            left_stick_x: read_i16_le(data[54], data[55]),
            left_stick_y: read_i16_le(data[56], data[57]),
            right_pad_x: read_i16_le(data[20], data[21]),
            right_pad_y: read_i16_le(data[22], data[23]),
            imu_timestamp: read_u32_le(data[4], data[5], data[6], data[7]),
            accel_x: read_i16_le(data[28], data[29]),
            accel_y: read_i16_le(data[30], data[31]),
            accel_z: read_i16_le(data[32], data[33]),
            gyro_x: read_i16_le(data[34], data[35]),
            gyro_y: read_i16_le(data[36], data[37]),
            gyro_z: read_i16_le(data[38], data[39]),
            left_pad_touch: is_u32_masked_button_pressed(b, MASK_LEFT_PAD_TOUCH) || is_u32_masked_button_pressed(b, MASK_LEFT_PAD_AND_JOYSTICK),
            right_pad_touch: is_u32_masked_button_pressed(b, MASK_RIGHT_PAD_TOUCH),
            left_stick_click: is_u32_masked_button_pressed(b, MASK_LEFT_STICK_CLICK),
            right_pad_click: is_u32_masked_button_pressed(b, MASK_RIGHT_PAD_CLICKED),
            left_grip: is_u32_masked_button_pressed(b, MASK_LEFT_GRIP),
            right_grip: is_u32_masked_button_pressed(b, MASK_RIGHT_GRIP),
        })
    }
}

/// A trigger byte widened to the signed 16-bit trigger range: `(t << 7) | t`.
pub open spec fn trigger_raw_spec(t: u8) -> i16 {
    (((t as u16) << 7u16) | (t as u16)) as i16
}

/// The DSU analog value of a trigger byte.
pub open spec fn trigger_byte_spec(t: u8) -> u8 {
    util::trigger_byte(trigger_raw_spec(t))
}

/// Widen a trigger byte to the signed 16-bit trigger range.
pub fn trigger_raw(t: u8) -> (r: i16)
    ensures
        r == trigger_raw_spec(t),
{
    (((t as u16) << 7u16) | (t as u16)) as i16
}

/// Whether `button` is pressed in `frame` (buttons the controller does not have never are).
pub open spec fn button_pressed_spec(button: DeviceButton, frame: LegacyFrame) -> bool {
    match button {
        DeviceButton::DpadLeft => pressed(frame.buttons as u32, MASK_DPAD_LEFT),
        DeviceButton::DpadDown => pressed(frame.buttons as u32, MASK_DPAD_DOWN),
        DeviceButton::DpadRight => pressed(frame.buttons as u32, MASK_DPAD_RIGHT),
        DeviceButton::DpadUp => pressed(frame.buttons as u32, MASK_DPAD_UP),
        DeviceButton::Start => pressed(frame.buttons as u32, MASK_START),
        DeviceButton::Select => pressed(frame.buttons as u32, MASK_SELECT),
        DeviceButton::Guide => pressed(frame.buttons as u32, MASK_GUIDE),
        DeviceButton::Quaternary => false,
        DeviceButton::A => pressed(frame.buttons as u32, MASK_A),
        DeviceButton::B => pressed(frame.buttons as u32, MASK_B),
        DeviceButton::X => pressed(frame.buttons as u32, MASK_X),
        DeviceButton::Y => pressed(frame.buttons as u32, MASK_Y),
        DeviceButton::L1 => pressed(frame.buttons as u32, MASK_LEFT_BUMPER),
        DeviceButton::R1 => pressed(frame.buttons as u32, MASK_RIGHT_BUMPER),
        DeviceButton::L2 => trigger_byte_spec(frame.trigger_left) >= ANALOG_TRIGGER_TO_DIGITAL_THRESHOLD,
        DeviceButton::R2 => trigger_byte_spec(frame.trigger_right) >= ANALOG_TRIGGER_TO_DIGITAL_THRESHOLD,
        DeviceButton::L3 => frame.left_stick_click,
        DeviceButton::R3 => frame.right_pad_click,
        DeviceButton::L4 => false,
        DeviceButton::L5 => false,
        DeviceButton::R4 => false,
        DeviceButton::R5 => false,
        DeviceButton::LeftStickTouch => false,
        DeviceButton::RightStickTouch => false,
        DeviceButton::LeftPadTouch => frame.left_pad_touch,
        DeviceButton::RightPadTouch => frame.right_pad_touch,
        DeviceButton::LeftGrip => frame.left_grip,
        DeviceButton::RightGrip => frame.right_grip,
        DeviceButton::Unknown => false,
    }
}

/// Test if a [`DeviceButton`] is pressed in `frame`.
pub fn is_device_button_pressed(button: &DeviceButton, frame: &LegacyFrame) -> (r: bool)
    ensures
        r == button_pressed_spec(*button, *frame),
{
    match button {
        DeviceButton::DpadLeft => is_u32_masked_button_pressed(frame.buttons as u32, MASK_DPAD_LEFT),
        DeviceButton::DpadDown => is_u32_masked_button_pressed(frame.buttons as u32, MASK_DPAD_DOWN),
        DeviceButton::DpadRight => is_u32_masked_button_pressed(frame.buttons as u32, MASK_DPAD_RIGHT),
        DeviceButton::DpadUp => is_u32_masked_button_pressed(frame.buttons as u32, MASK_DPAD_UP),
        DeviceButton::Start => is_u32_masked_button_pressed(frame.buttons as u32, MASK_START),
        DeviceButton::Select => is_u32_masked_button_pressed(frame.buttons as u32, MASK_SELECT),
        DeviceButton::Guide => is_u32_masked_button_pressed(frame.buttons as u32, MASK_GUIDE),
        DeviceButton::Quaternary => false,
        DeviceButton::A => is_u32_masked_button_pressed(frame.buttons as u32, MASK_A),
        DeviceButton::B => is_u32_masked_button_pressed(frame.buttons as u32, MASK_B),
        DeviceButton::X => is_u32_masked_button_pressed(frame.buttons as u32, MASK_X),
        DeviceButton::Y => is_u32_masked_button_pressed(frame.buttons as u32, MASK_Y),
        DeviceButton::L1 => is_u32_masked_button_pressed(frame.buttons as u32, MASK_LEFT_BUMPER),
        DeviceButton::R1 => is_u32_masked_button_pressed(frame.buttons as u32, MASK_RIGHT_BUMPER),
        DeviceButton::L2 => scale_trigger_to_byte(trigger_raw(frame.trigger_left)) >= ANALOG_TRIGGER_TO_DIGITAL_THRESHOLD,
        DeviceButton::R2 => scale_trigger_to_byte(trigger_raw(frame.trigger_right)) >= ANALOG_TRIGGER_TO_DIGITAL_THRESHOLD,
        DeviceButton::L3 => frame.left_stick_click,
        DeviceButton::R3 => frame.right_pad_click,
        DeviceButton::L4 => false,
        DeviceButton::L5 => false,
        DeviceButton::R4 => false,
        DeviceButton::R5 => false,
        DeviceButton::LeftStickTouch => false,
        DeviceButton::RightStickTouch => false,
        DeviceButton::LeftPadTouch => frame.left_pad_touch,
        DeviceButton::RightPadTouch => frame.right_pad_touch,
        DeviceButton::LeftGrip => frame.left_grip,
        DeviceButton::RightGrip => frame.right_grip,
        DeviceButton::Unknown => false,
    }
}

/// Whether the gyro is on for `frame`: always with no activation inputs; otherwise when any
/// (mode `Any`) or all (mode `All`) of the inputs are pressed.
pub open spec fn gyro_enabled_spec(config: DeviceConfig, frame: LegacyFrame) -> bool {
    let inputs = config.gyro_activation_inputs@;
    if inputs.len() == 0 {
        true
    } else {
        match config.gyro_activation_mode {
            GyroActivationMode::Any => exists|i: int|
                0 <= i < inputs.len() && button_pressed_spec(#[trigger] inputs[i], frame),
            GyroActivationMode::All => forall|i: int|
                0 <= i < inputs.len() ==> button_pressed_spec(#[trigger] inputs[i], frame),
        }
    }
}

/// Decide whether the gyro is on for `frame` under `config`.
pub fn gyro_enabled(config: &DeviceConfig, frame: &LegacyFrame) -> (r: bool)
    ensures
        r == gyro_enabled_spec(*config, *frame),
{
    let inputs = &config.gyro_activation_inputs;
    if inputs.len() == 0 {
        return true;
    }
    match config.gyro_activation_mode {
        GyroActivationMode::Any => {
            let mut i: usize = 0;
            while i < inputs.len()
                invariant
                    i <= inputs@.len(),
                    inputs@ == config.gyro_activation_inputs@,
                    config.gyro_activation_mode == GyroActivationMode::Any,
                    forall|j: int|
                        0 <= j < i ==> !button_pressed_spec(#[trigger] inputs@[j], *frame),
                decreases inputs@.len() - i,
            {
                if is_device_button_pressed(&inputs[i], frame) {
                    assert(button_pressed_spec(inputs@[i as int], *frame));
                    return true;
                }
                i = i + 1;
            }
            false
        },
        GyroActivationMode::All => {
            let mut i: usize = 0;
            while i < inputs.len()
                invariant
                    i <= inputs@.len(),
                    inputs@ == config.gyro_activation_inputs@,
                    inputs@.len() > 0,
                    config.gyro_activation_mode == GyroActivationMode::All,
                    forall|j: int| 0 <= j < i ==> button_pressed_spec(#[trigger] inputs@[j], *frame),
                decreases inputs@.len() - i,
            {
                if !is_device_button_pressed(&inputs[i], frame) {
                    assert(!button_pressed_spec(inputs@[i as int], *frame));
                    return false;
                }
                i = i + 1;
            }
            true
        },
    }
}

/// `v`, or zero when the gyro is disabled.
pub open spec fn gated(v: u32, gyro_disabled: bool) -> u32 {
    if gyro_disabled {
        0u32
    } else {
        v
    }
}

/// The DSU frame for a legacy frame. `motion` holds the motion values already converted to g
/// and degrees per second (with the gyro deadzone and scales applied); all of them are zero
/// when `gyro_disabled`.
pub open spec fn dsu_frame_spec(frame: LegacyFrame, gyro_disabled: bool, motion: Motion) -> DSUFrame {
    let b = frame.buttons as u32;
    let l2 = trigger_byte_spec(frame.trigger_left);
    let r2 = trigger_byte_spec(frame.trigger_right);
    DSUFrame {
        dpad_left: pressed(b, MASK_DPAD_LEFT),
        dpad_down: pressed(b, MASK_DPAD_DOWN),
        dpad_right: pressed(b, MASK_DPAD_RIGHT),
        dpad_up: pressed(b, MASK_DPAD_UP),
        options: pressed(b, MASK_START),
        r3: frame.right_pad_click,
        l3: frame.left_stick_click,
        share: pressed(b, MASK_SELECT),
        y: pressed(b, MASK_Y),
        b: pressed(b, MASK_B),
        a: pressed(b, MASK_A),
        x: pressed(b, MASK_X),
        r1: pressed(b, MASK_RIGHT_BUMPER),
        l1: pressed(b, MASK_LEFT_BUMPER),
        r2: r2 >= ANALOG_TRIGGER_TO_DIGITAL_THRESHOLD,
        l2: l2 >= ANALOG_TRIGGER_TO_DIGITAL_THRESHOLD,
        home: pressed(b, MASK_GUIDE),
        touch: frame.left_pad_touch || frame.right_pad_touch,
        left_stick_x: util::stick_byte(frame.left_stick_x),
        left_stick_y: util::stick_byte(frame.left_stick_y),
        right_stick_x: util::stick_byte(frame.right_pad_x),
        right_stick_y: util::stick_byte(frame.right_pad_y),
        analog_r2: r2,
        analog_l2: l2,
        accel_x: gated(motion.accel_x, gyro_disabled),
        accel_y: gated(motion.accel_y, gyro_disabled),
        accel_z: gated(motion.accel_z, gyro_disabled),
        gyro_x: gated(motion.gyro_x, gyro_disabled),
        gyro_y: gated(motion.gyro_y, gyro_disabled),
        gyro_z: gated(motion.gyro_z, gyro_disabled),
    }
}

/// `v`, or zero when the gyro is disabled.
fn zero_on_gyro_disabled(v: u32, gyro_disabled: bool) -> (r: u32)
    ensures
        r == gated(v, gyro_disabled),
{
    if gyro_disabled {
        0
    } else {
        v
    }
}

/// Convert a legacy frame to a DSU frame.
pub fn to_dsu_frame(frame: &LegacyFrame, gyro_disabled: bool, motion: &Motion) -> (r: DSUFrame)
    ensures
        r == dsu_frame_spec(*frame, gyro_disabled, *motion),
{
    let b = frame.buttons as u32;
    let l2 = scale_trigger_to_byte(trigger_raw(frame.trigger_left));
    let r2 = scale_trigger_to_byte(trigger_raw(frame.trigger_right));
    DSUFrame {
        dpad_left: is_u32_masked_button_pressed(b, MASK_DPAD_LEFT),
        dpad_down: is_u32_masked_button_pressed(b, MASK_DPAD_DOWN),
        dpad_right: is_u32_masked_button_pressed(b, MASK_DPAD_RIGHT),
        dpad_up: is_u32_masked_button_pressed(b, MASK_DPAD_UP),
        options: is_u32_masked_button_pressed(b, MASK_START),
        r3: frame.right_pad_click,
        l3: frame.left_stick_click,
        share: is_u32_masked_button_pressed(b, MASK_SELECT),
        y: is_u32_masked_button_pressed(b, MASK_Y),
        b: is_u32_masked_button_pressed(b, MASK_B),
        a: is_u32_masked_button_pressed(b, MASK_A),
        x: is_u32_masked_button_pressed(b, MASK_X),
        r1: is_u32_masked_button_pressed(b, MASK_RIGHT_BUMPER),
        l1: is_u32_masked_button_pressed(b, MASK_LEFT_BUMPER),
        r2: r2 >= ANALOG_TRIGGER_TO_DIGITAL_THRESHOLD,
        l2: l2 >= ANALOG_TRIGGER_TO_DIGITAL_THRESHOLD,
        home: is_u32_masked_button_pressed(b, MASK_GUIDE),
        touch: frame.left_pad_touch || frame.right_pad_touch,
        left_stick_x: scale_stick_to_byte(frame.left_stick_x),
        left_stick_y: scale_stick_to_byte(frame.left_stick_y),
        right_stick_x: scale_stick_to_byte(frame.right_pad_x),
        right_stick_y: scale_stick_to_byte(frame.right_pad_y),
        analog_r2: r2,
        analog_l2: l2,
        accel_x: zero_on_gyro_disabled(motion.accel_x, gyro_disabled),
        accel_y: zero_on_gyro_disabled(motion.accel_y, gyro_disabled),
        accel_z: zero_on_gyro_disabled(motion.accel_z, gyro_disabled),
        gyro_x: zero_on_gyro_disabled(motion.gyro_x, gyro_disabled),
        gyro_y: zero_on_gyro_disabled(motion.gyro_y, gyro_disabled),
        gyro_z: zero_on_gyro_disabled(motion.gyro_z, gyro_disabled),
    }
}

/// The DSU frame a read produces: the gyro is disabled unless the activation inputs say
/// otherwise.
pub fn frame_for_config(config: &DeviceConfig, frame: &LegacyFrame, motion: &Motion) -> (r:
    DSUFrame)
    ensures
        r == dsu_frame_spec(*frame, !gyro_enabled_spec(*config, *frame), *motion),
{
    let enable_gyro = gyro_enabled(config, frame);
    to_dsu_frame(frame, !enable_gyro, motion)
}

/// How a legacy controller is connected.
#[derive(Debug, Clone, Copy, PartialEq, Eq, Structural)]
pub enum ConnectionMode {
    Usb,
    Wireless,
}

/// The connection mode a product ID stands for (USB for every ID but the wireless one).
pub fn connection_mode_from_pid(pid: u16) -> (r: ConnectionMode)
    ensures
        r == (if pid == PID_WIRELESS {
            ConnectionMode::Wireless
        } else {
            ConnectionMode::Usb
        }),
{
    if pid == PID_WIRELESS {
        ConnectionMode::Wireless
    } else {
        ConnectionMode::Usb
    }
}

/// The HID interface numbers that carry the controller (1 to 4).
pub fn supports_interface(interface_number: i32) -> (r: bool)
    ensures
        r == (1 <= interface_number <= 4),
{
    interface_number == 2 || (1 <= interface_number && interface_number <= 4)
}

/// A HID interface is a legacy candidate: Steam vendor ID, a vendor usage page, the wired or
/// wireless product ID and a supported interface.
pub open spec fn is_candidate_spec(r: HidDeviceRecord) -> bool {
    r.vendor_id == VID && r.usage_page >= USAGE_PAGE_VENDOR_MIN && (r.product_id == PID_WIRED
        || r.product_id == PID_WIRELESS) && 1 <= r.interface_number <= 4
}

/// Test whether a HID interface is a legacy candidate.
pub fn is_candidate(r: &HidDeviceRecord) -> (b: bool)
    ensures
        b == is_candidate_spec(*r),
{
    r.vendor_id == VID && r.usage_page >= USAGE_PAGE_VENDOR_MIN && (r.product_id == PID_WIRED
        || r.product_id == PID_WIRELESS) && supports_interface(r.interface_number)
}

/// The indices of the legacy candidates in the device list, in list order.
pub fn candidates(records: &Vec<HidDeviceRecord>) -> (r: Vec<usize>)
    ensures
        r@ == crate::devices::hid::indices_where(
            records@.len(),
            |i: int| is_candidate_spec(records@[i]),
        ),
{
    let mut out: Vec<usize> = Vec::new();
    let mut i: usize = 0;
    while i < records.len()
        invariant
            i <= records@.len(),
            out@ == crate::devices::hid::indices_where(
                i as nat,
                |j: int| is_candidate_spec(records@[j]),
            ),
        decreases records@.len() - i,
    {
        if is_candidate(&records[i]) {
            out.push(i);
        }
        i = i + 1;
    }
    out
}

/// Decode what a read of `n` bytes into `buf` produced: `ShortRead(0, 1)` for an empty read,
/// `InvalidReport(buf[0])` when the bytes are no state report.
pub fn decode_read(buf: &[u8], n: usize) -> (r: Result<LegacyFrame, DeviceError>)
    requires
        n <= buf@.len(),
        buf@.len() > 0,
    ensures
        n == 0 ==> (r matches Err(DeviceError::ShortRead(a, b)) && a == 0 && b == 1),
        n > 0 ==> match parse_spec(buf@.take(n as int)) {
            Some(f) => r matches Ok(g) && g == f,
            None => r matches Err(DeviceError::InvalidReport(id)) && id == buf@[0],
        },
{
    if n == 0 {
        return Err(DeviceError::ShortRead(0, 1));
    }
    let data = &buf[0..n];
    assert(data@ =~= buf@.take(n as int));
    match LegacyFrame::parse(data) {
        Some(f) => Ok(f),
        None => Err(DeviceError::InvalidReport(buf[0])),
    }
}

/// The three bytes of the button word of a state report (bytes 8, 9 and 10), little-endian.
pub open spec fn button_bytes_spec(b: u64) -> Seq<u8> {
    seq![(b % 256) as u8, ((b / 256) % 256) as u8, ((b / 65536) % 256) as u8]
}

proof fn lemma_button_bytes(b: u64)
    requires
        b < 0x100_0000,
    ensures
        button_bytes_spec(b)[0] + 256 * button_bytes_spec(b)[1] + 65536 * button_bytes_spec(b)[2]
            == b,
{
    assert((b % 256) + 256 * ((b / 256) % 256) + 65536 * ((b / 65536) % 256) == b)
        by (nonlinear_arith)
        requires
            b < 0x100_0000,
    ;
}

/// The 64-byte state report that holds `f`: the ID 0x01, the IMU timestamp at 4..8, the
/// button word at 8..11, the left and right triggers at 11 and 12, the right pad X and Y at
/// 20..24, the accelerometer X, Y, Z at 28..34, the gyroscope X, Y, Z at 34..40 and the left
/// stick X and Y at 54..58, every value little-endian (signed ones in two's complement), and
/// zero everywhere else.
pub open spec fn encode_report_spec(f: LegacyFrame) -> Seq<u8> {
    seq![0x01u8]
        + bytes::zeros(3)
        + bytes::le32(f.imu_timestamp)
        + button_bytes_spec(f.buttons)
        + seq![f.trigger_left]
        + seq![f.trigger_right]
        + bytes::zeros(7)
        + bytes::le16(f.right_pad_x as u16)
        + bytes::le16(f.right_pad_y as u16)
        + bytes::zeros(4)
        + bytes::le16(f.accel_x as u16)
        + bytes::le16(f.accel_y as u16)
        + bytes::le16(f.accel_z as u16)
        + bytes::le16(f.gyro_x as u16)
        + bytes::le16(f.gyro_y as u16)
        + bytes::le16(f.gyro_z as u16)
        + bytes::zeros(14)
        + bytes::le16(f.left_stick_x as u16)
        + bytes::le16(f.left_stick_y as u16)
        + bytes::zeros(6)
}

/// Parsing the state report that holds a frame, followed by any bytes at all, gives the frame
/// back, for every frame whose button word fits the report's 24 bits and whose touch, click
/// and grip flags are the ones its button word gives (left pad touch 0x8_0000 or 0x80_0000,
/// right pad touch 0x10_0000, left stick click 0x40_0000, right pad click 0x4_0000, left grip
/// 0x8000, right grip 0x1_0000).
pub proof fn lemma_parse_encoded(f: LegacyFrame, rest: Seq<u8>)
    requires
        f.buttons < 0x100_0000,
        f.left_pad_touch == ((f.buttons as u32) & 0x8_0000u32 != 0 || (f.buttons as u32)
            & 0x80_0000u32 != 0),
        f.right_pad_touch == ((f.buttons as u32) & 0x10_0000u32 != 0),
        f.left_stick_click == ((f.buttons as u32) & 0x40_0000u32 != 0),
        f.right_pad_click == ((f.buttons as u32) & 0x4_0000u32 != 0),
        f.left_grip == ((f.buttons as u32) & 0x8000u32 != 0),
        f.right_grip == ((f.buttons as u32) & 0x1_0000u32 != 0),
    ensures
        encode_report_spec(f).len() == 64,
        parse_spec(encode_report_spec(f) + rest) == Some(f),
{
    let p0 = seq![0x01u8];
    assert(p0.len() == 1);
    assert(p0[0] == seq![0x01u8][0]);
    let p1 = p0 + bytes::zeros(3);
    assert(p1.len() == 4);
    bytes::lemma_u32_le_of_le32(f.imu_timestamp);
    let p2 = p1 + bytes::le32(f.imu_timestamp);
    assert(p2.len() == 8);
    assert(p2[4] == bytes::le32(f.imu_timestamp)[0]);
    assert(p2[5] == bytes::le32(f.imu_timestamp)[1]);
    assert(p2[6] == bytes::le32(f.imu_timestamp)[2]);
    assert(p2[7] == bytes::le32(f.imu_timestamp)[3]);
    lemma_button_bytes(f.buttons);
    let p3 = p2 + button_bytes_spec(f.buttons);
    assert(p3.len() == 11);
    assert(p3[8] == button_bytes_spec(f.buttons)[0]);
    assert(p3[9] == button_bytes_spec(f.buttons)[1]);
    assert(p3[10] == button_bytes_spec(f.buttons)[2]);
    let p4 = p3 + seq![f.trigger_left];
    assert(p4.len() == 12);
    assert(p4[11] == seq![f.trigger_left][0]);
    let p5 = p4 + seq![f.trigger_right];
    assert(p5.len() == 13);
    assert(p5[12] == seq![f.trigger_right][0]);
    let p6 = p5 + bytes::zeros(7);
    assert(p6.len() == 20);
    bytes::lemma_i16_le_of_le16(f.right_pad_x);
    let p7 = p6 + bytes::le16(f.right_pad_x as u16);
    assert(p7.len() == 22);
    assert(p7[20] == bytes::le16(f.right_pad_x as u16)[0]);
    assert(p7[21] == bytes::le16(f.right_pad_x as u16)[1]);
    bytes::lemma_i16_le_of_le16(f.right_pad_y);
    let p8 = p7 + bytes::le16(f.right_pad_y as u16);
    assert(p8.len() == 24);
    assert(p8[22] == bytes::le16(f.right_pad_y as u16)[0]);
    assert(p8[23] == bytes::le16(f.right_pad_y as u16)[1]);
    let p9 = p8 + bytes::zeros(4);
    assert(p9.len() == 28);
    bytes::lemma_i16_le_of_le16(f.accel_x);
    let p10 = p9 + bytes::le16(f.accel_x as u16);
    assert(p10.len() == 30);
    assert(p10[28] == bytes::le16(f.accel_x as u16)[0]);
    assert(p10[29] == bytes::le16(f.accel_x as u16)[1]);
    bytes::lemma_i16_le_of_le16(f.accel_y);
    let p11 = p10 + bytes::le16(f.accel_y as u16);
    assert(p11.len() == 32);
    assert(p11[30] == bytes::le16(f.accel_y as u16)[0]);
    assert(p11[31] == bytes::le16(f.accel_y as u16)[1]);
    bytes::lemma_i16_le_of_le16(f.accel_z);
    let p12 = p11 + bytes::le16(f.accel_z as u16);
    assert(p12.len() == 34);
    assert(p12[32] == bytes::le16(f.accel_z as u16)[0]);
    assert(p12[33] == bytes::le16(f.accel_z as u16)[1]);
    bytes::lemma_i16_le_of_le16(f.gyro_x);
    let p13 = p12 + bytes::le16(f.gyro_x as u16);
    assert(p13.len() == 36);
    assert(p13[34] == bytes::le16(f.gyro_x as u16)[0]);
    assert(p13[35] == bytes::le16(f.gyro_x as u16)[1]);
    bytes::lemma_i16_le_of_le16(f.gyro_y);
    let p14 = p13 + bytes::le16(f.gyro_y as u16);
    assert(p14.len() == 38);
    assert(p14[36] == bytes::le16(f.gyro_y as u16)[0]);
    assert(p14[37] == bytes::le16(f.gyro_y as u16)[1]);
    bytes::lemma_i16_le_of_le16(f.gyro_z);
    let p15 = p14 + bytes::le16(f.gyro_z as u16);
    assert(p15.len() == 40);
    assert(p15[38] == bytes::le16(f.gyro_z as u16)[0]);
    assert(p15[39] == bytes::le16(f.gyro_z as u16)[1]);
    let p16 = p15 + bytes::zeros(14);
    assert(p16.len() == 54);
    bytes::lemma_i16_le_of_le16(f.left_stick_x);
    let p17 = p16 + bytes::le16(f.left_stick_x as u16);
    assert(p17.len() == 56);
    assert(p17[54] == bytes::le16(f.left_stick_x as u16)[0]);
    assert(p17[55] == bytes::le16(f.left_stick_x as u16)[1]);
    bytes::lemma_i16_le_of_le16(f.left_stick_y);
    let p18 = p17 + bytes::le16(f.left_stick_y as u16);
    assert(p18.len() == 58);
    assert(p18[56] == bytes::le16(f.left_stick_y as u16)[0]);
    assert(p18[57] == bytes::le16(f.left_stick_y as u16)[1]);
    let p19 = p18 + bytes::zeros(6);
    assert(p19.len() == 64);
    assert(p19 == encode_report_spec(f));
    assert forall|i: int| 0 <= i < p18.len() implies #[trigger] p18[i] == p19[i] by { assert(p19[i] == p18[i]); }
    assert forall|i: int| 0 <= i < p17.len() implies #[trigger] p17[i] == p19[i] by { assert(p18[i] == p17[i]); }
    assert forall|i: int| 0 <= i < p16.len() implies #[trigger] p16[i] == p19[i] by { assert(p17[i] == p16[i]); }
    assert forall|i: int| 0 <= i < p15.len() implies #[trigger] p15[i] == p19[i] by { assert(p16[i] == p15[i]); }
    assert forall|i: int| 0 <= i < p14.len() implies #[trigger] p14[i] == p19[i] by { assert(p15[i] == p14[i]); }
    assert forall|i: int| 0 <= i < p13.len() implies #[trigger] p13[i] == p19[i] by { assert(p14[i] == p13[i]); }
    assert forall|i: int| 0 <= i < p12.len() implies #[trigger] p12[i] == p19[i] by { assert(p13[i] == p12[i]); }
    assert forall|i: int| 0 <= i < p11.len() implies #[trigger] p11[i] == p19[i] by { assert(p12[i] == p11[i]); }
    assert forall|i: int| 0 <= i < p10.len() implies #[trigger] p10[i] == p19[i] by { assert(p11[i] == p10[i]); }
    assert forall|i: int| 0 <= i < p9.len() implies #[trigger] p9[i] == p19[i] by { assert(p10[i] == p9[i]); }
    assert forall|i: int| 0 <= i < p8.len() implies #[trigger] p8[i] == p19[i] by { assert(p9[i] == p8[i]); }
    assert forall|i: int| 0 <= i < p7.len() implies #[trigger] p7[i] == p19[i] by { assert(p8[i] == p7[i]); }
    assert forall|i: int| 0 <= i < p6.len() implies #[trigger] p6[i] == p19[i] by { assert(p7[i] == p6[i]); }
    assert forall|i: int| 0 <= i < p5.len() implies #[trigger] p5[i] == p19[i] by { assert(p6[i] == p5[i]); }
    assert forall|i: int| 0 <= i < p4.len() implies #[trigger] p4[i] == p19[i] by { assert(p5[i] == p4[i]); }
    assert forall|i: int| 0 <= i < p3.len() implies #[trigger] p3[i] == p19[i] by { assert(p4[i] == p3[i]); }
    assert forall|i: int| 0 <= i < p2.len() implies #[trigger] p2[i] == p19[i] by { assert(p3[i] == p2[i]); }
    assert forall|i: int| 0 <= i < p1.len() implies #[trigger] p1[i] == p19[i] by { assert(p2[i] == p1[i]); }
    assert forall|i: int| 0 <= i < p0.len() implies #[trigger] p0[i] == p19[i] by { assert(p1[i] == p0[i]); }
    let d = encode_report_spec(f) + rest;
    assert forall|i: int| 0 <= i < 64 implies d[i] == p19[i] by {}
    assert(buttons_spec(d) == f.buttons);
}

/// What the DSU frame of a state report holds: each button is its bit of the button word
/// (R1 0x4, L1 0x8, Y 0x10, B 0x20, X 0x40, A 0x80, D-pad up 0x100, right 0x200, left 0x400,
/// down 0x800, select 0x1000 as share, guide 0x2000 as home, start 0x4000 as options); R3 is
/// the right pad click, L3 the left stick click, touch either pad touch; each stick axis is
/// shifted to `0..=65535` and divided by 256 (the right stick from the right pad); each
/// trigger byte `t` is widened to `(t << 7) | t` and scaled from `0..=32767` onto `0..=255`,
/// counting as pressed from 228 on; the motion values pass through, or are zero when the gyro
/// is disabled.
pub proof fn lemma_dsu_frame_fields(fr: LegacyFrame, gyro_disabled: bool, m: Motion)
    ensures
        dsu_frame_spec(fr, gyro_disabled, m).dpad_left == ((fr.buttons as u32) & 0x400u32 != 0),
        dsu_frame_spec(fr, gyro_disabled, m).dpad_down == ((fr.buttons as u32) & 0x800u32 != 0),
        dsu_frame_spec(fr, gyro_disabled, m).dpad_right == ((fr.buttons as u32) & 0x200u32 != 0),
        dsu_frame_spec(fr, gyro_disabled, m).dpad_up == ((fr.buttons as u32) & 0x100u32 != 0),
        dsu_frame_spec(fr, gyro_disabled, m).options == ((fr.buttons as u32) & 0x4000u32 != 0),
        dsu_frame_spec(fr, gyro_disabled, m).share == ((fr.buttons as u32) & 0x1000u32 != 0),
        dsu_frame_spec(fr, gyro_disabled, m).y == ((fr.buttons as u32) & 0x10u32 != 0),
        dsu_frame_spec(fr, gyro_disabled, m).b == ((fr.buttons as u32) & 0x20u32 != 0),
        dsu_frame_spec(fr, gyro_disabled, m).a == ((fr.buttons as u32) & 0x80u32 != 0),
        dsu_frame_spec(fr, gyro_disabled, m).x == ((fr.buttons as u32) & 0x40u32 != 0),
        dsu_frame_spec(fr, gyro_disabled, m).r1 == ((fr.buttons as u32) & 0x4u32 != 0),
        dsu_frame_spec(fr, gyro_disabled, m).l1 == ((fr.buttons as u32) & 0x8u32 != 0),
        dsu_frame_spec(fr, gyro_disabled, m).home == ((fr.buttons as u32) & 0x2000u32 != 0),
        dsu_frame_spec(fr, gyro_disabled, m).r3 == fr.right_pad_click,
        dsu_frame_spec(fr, gyro_disabled, m).l3 == fr.left_stick_click,
        dsu_frame_spec(fr, gyro_disabled, m).touch == (fr.left_pad_touch || fr.right_pad_touch),
        dsu_frame_spec(fr, gyro_disabled, m).left_stick_x as int == (fr.left_stick_x + 32768) / 256,
        dsu_frame_spec(fr, gyro_disabled, m).left_stick_y as int == (fr.left_stick_y + 32768) / 256,
        dsu_frame_spec(fr, gyro_disabled, m).right_stick_x as int == (fr.right_pad_x + 32768) / 256,
        dsu_frame_spec(fr, gyro_disabled, m).right_stick_y as int == (fr.right_pad_y + 32768) / 256,
        dsu_frame_spec(fr, gyro_disabled, m).analog_l2 as int == ((((fr.trigger_left as u16) << 7u16) | (fr.trigger_left as u16)) as int) * 255 / 32767,
        dsu_frame_spec(fr, gyro_disabled, m).l2 == (dsu_frame_spec(fr, gyro_disabled, m).analog_l2 >= 228),
        dsu_frame_spec(fr, gyro_disabled, m).analog_r2 as int == ((((fr.trigger_right as u16) << 7u16) | (fr.trigger_right as u16)) as int) * 255 / 32767,
        dsu_frame_spec(fr, gyro_disabled, m).r2 == (dsu_frame_spec(fr, gyro_disabled, m).analog_r2 >= 228),
        dsu_frame_spec(fr, gyro_disabled, m).accel_x == (if gyro_disabled { 0u32 } else { m.accel_x }),
        dsu_frame_spec(fr, gyro_disabled, m).accel_y == (if gyro_disabled { 0u32 } else { m.accel_y }),
        dsu_frame_spec(fr, gyro_disabled, m).accel_z == (if gyro_disabled { 0u32 } else { m.accel_z }),
        dsu_frame_spec(fr, gyro_disabled, m).gyro_x == (if gyro_disabled { 0u32 } else { m.gyro_x }),
        dsu_frame_spec(fr, gyro_disabled, m).gyro_y == (if gyro_disabled { 0u32 } else { m.gyro_y }),
        dsu_frame_spec(fr, gyro_disabled, m).gyro_z == (if gyro_disabled { 0u32 } else { m.gyro_z }),
{
    let (tl, tr) = (fr.trigger_left, fr.trigger_right);
    assert((((tl as u16) << 7u16) | (tl as u16)) < 0x8000u16) by (bit_vector);
    assert((((tr as u16) << 7u16) | (tr as u16)) < 0x8000u16) by (bit_vector);
    assert(((((tl as u16) << 7u16) | (tl as u16)) as i16) as int == (((tl as u16) << 7u16) | (tl as u16)) as int);
    assert(((((tr as u16) << 7u16) | (tr as u16)) as i16) as int == (((tr as u16) << 7u16) | (tr as u16)) as int);
}

} // verus!
