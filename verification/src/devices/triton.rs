//! Adapter logic for the 2026 Steam Controller (Triton).

use vstd::prelude::*;

use crate::bytes;
use crate::bytes::{read_i16_le, read_u16_le, read_u32_le};
use crate::devices::hid::{HidDeviceRecord, USAGE_PAGE_VENDOR_MIN, VID};
use crate::devices::util;
use crate::devices::util::{is_u32_masked_button_pressed, scale_stick_to_byte, scale_trigger_to_byte};
use crate::dsu::DSUFrame;
use crate::errors::DeviceError;
use crate::protocol::Motion;

verus! {

/// Product ID of the wired controller.
pub const PID_WIRED: u16 = 0x1302;

/// Product ID of the controller over Bluetooth.
pub const PID_BT: u16 = 0x1303;

/// Product ID of the controller through its USB receiver ("puck").
pub const PID_PUCK: u16 = 0x1304;

/// Input report ID of the state report over USB.
pub const REPORT_ID_STATE_USB: u8 = 0x42;

/// Input report ID of the state report over Bluetooth LE.
pub const REPORT_ID_STATE_BLE: u8 = 0x45;

/// IMU data offset in the input report (after the report ID).
pub const IMU_OFFSET_START: usize = 29;

/// Minimum report length: report ID, 29 bytes up to the IMU, 16 bytes of IMU data.
pub const MIN_REPORT_LEN: usize = 46;

/// A trigger reading at or above this analog value counts as pressed.
pub const ANALOG_TRIGGER_TO_DIGITAL_THRESHOLD: u8 = 228;

pub const MASK_A: u32 = 0x0000_0001;
pub const MASK_B: u32 = 0x0000_0002;
pub const MASK_X: u32 = 0x0000_0004;
pub const MASK_Y: u32 = 0x0000_0008;
pub const MASK_QAM: u32 = 0x0000_0010;
pub const MASK_R3: u32 = 0x0000_0020;
pub const MASK_VIEW: u32 = 0x0000_0040;
pub const MASK_R: u32 = 0x0000_0200;
pub const MASK_DPAD_DOWN: u32 = 0x0000_0400;
pub const MASK_DPAD_RIGHT: u32 = 0x0000_0800;
pub const MASK_DPAD_LEFT: u32 = 0x0000_1000;
pub const MASK_DPAD_UP: u32 = 0x0000_2000;
pub const MASK_MENU: u32 = 0x0000_4000;
pub const MASK_L3: u32 = 0x0000_8000;
pub const MASK_STEAM: u32 = 0x0001_0000;
pub const MASK_L: u32 = 0x0008_0000;

/// Parsed Triton frame.
#[derive(Debug, Clone, Copy, PartialEq, Eq, Structural)]
pub struct TritonFrame {
    pub buttons: u32,
    pub trigger_left: u16,
    pub trigger_right: u16,
    pub left_stick_x: i16,
    pub left_stick_y: i16,
    pub right_stick_x: i16,
    pub right_stick_y: i16,
    pub imu_timestamp: u32,
    pub accel_x: i16,
    pub accel_y: i16,
    pub accel_z: i16,
    pub gyro_x: i16,
    pub gyro_y: i16,
    pub gyro_z: i16,
}

/// The frame a report holds: `None` unless it starts with a state report ID (USB 0x42 or
/// BLE 0x45) and is at least 46 bytes long; fields are read little-endian.
pub open spec fn parse_spec(d: Seq<u8>) -> Option<TritonFrame> {
    if d.len() == 0 || (d[0] != REPORT_ID_STATE_USB && d[0] != REPORT_ID_STATE_BLE) || d.len()
        < MIN_REPORT_LEN {
        None
    } else {
        Some(TritonFrame {
            buttons: bytes::u32_le(d[2], d[3], d[4], d[5]),
            trigger_left: bytes::u16_le(d[6], d[7]),
            trigger_right: bytes::u16_le(d[8], d[9]),
            left_stick_x: bytes::i16_le(d[10], d[11]),
            left_stick_y: bytes::i16_le(d[12], d[13]),
            right_stick_x: bytes::i16_le(d[14], d[15]),
            right_stick_y: bytes::i16_le(d[16], d[17]),
            imu_timestamp: bytes::u32_le(d[30], d[31], d[32], d[33]),
            accel_x: bytes::i16_le(d[34], d[35]),
            accel_y: bytes::i16_le(d[36], d[37]),
            accel_z: bytes::i16_le(d[38], d[39]),
            gyro_x: bytes::i16_le(d[40], d[41]),
            gyro_y: bytes::i16_le(d[42], d[43]),
            gyro_z: bytes::i16_le(d[44], d[45]),
        })
    }
}

impl TritonFrame {
    /// Parse a raw HID report. Works for both USB (0x42) and BLE (0x45) report IDs.
    pub fn parse(data: &[u8]) -> (r: Option<Self>)
        ensures
            r == parse_spec(data@),
    {
        if data.len() == 0 {
            return None;
        }
        let report_id = data[0];
        if report_id != REPORT_ID_STATE_USB && report_id != REPORT_ID_STATE_BLE {
            return None;
        }
        if data.len() < MIN_REPORT_LEN {
            return None;
        }
        Some(TritonFrame {
            buttons: read_u32_le(data[2], data[3], data[4], data[5]),
            trigger_left: read_u16_le(data[6], data[7]),
            trigger_right: read_u16_le(data[8], data[9]),
            left_stick_x: read_i16_le(data[10], data[11]),
            left_stick_y: read_i16_le(data[12], data[13]),
            right_stick_x: read_i16_le(data[14], data[15]),
            right_stick_y: read_i16_le(data[16], data[17]),
            imu_timestamp: read_u32_le(data[30], data[31], data[32], data[33]),
            accel_x: read_i16_le(data[34], data[35]),
            accel_y: read_i16_le(data[36], data[37]),
            accel_z: read_i16_le(data[38], data[39]),
            gyro_x: read_i16_le(data[40], data[41]),
            gyro_y: read_i16_le(data[42], data[43]),
            gyro_z: read_i16_le(data[44], data[45]),
        })
    }
}

/// A button mask test.
pub open spec fn pressed(buttons: u32, mask: u32) -> bool {
    buttons & mask != 0
}

/// The DSU frame for a Triton frame, given the motion values already converted to g and
/// degrees per second (X acceleration from -accel_x, Y from -accel_z, Z from accel_y;
/// pitch from gyro_x, yaw from -gyro_z, roll from gyro_y).
pub open spec fn dsu_frame_spec(v: TritonFrame, motion: Motion) -> DSUFrame {
    let l2 = util::trigger_byte(v.trigger_left as i16);
    let r2 = util::trigger_byte(v.trigger_right as i16);
    DSUFrame {
        dpad_left: pressed(v.buttons, MASK_DPAD_LEFT),
        dpad_down: pressed(v.buttons, MASK_DPAD_DOWN),
        dpad_right: pressed(v.buttons, MASK_DPAD_RIGHT),
        dpad_up: pressed(v.buttons, MASK_DPAD_UP),
        options: pressed(v.buttons, MASK_VIEW),
        r3: pressed(v.buttons, MASK_R3),
        l3: pressed(v.buttons, MASK_L3),
        share: pressed(v.buttons, MASK_MENU),
        y: pressed(v.buttons, MASK_Y),
        b: pressed(v.buttons, MASK_B),
        a: pressed(v.buttons, MASK_A),
        x: pressed(v.buttons, MASK_X),
        r1: pressed(v.buttons, MASK_R),
        l1: pressed(v.buttons, MASK_L),
        r2: r2 >= ANALOG_TRIGGER_TO_DIGITAL_THRESHOLD,
        l2: l2 >= ANALOG_TRIGGER_TO_DIGITAL_THRESHOLD,
        home: pressed(v.buttons, MASK_STEAM),
        touch: pressed(v.buttons, MASK_QAM),
        left_stick_x: util::stick_byte(v.left_stick_x),
        left_stick_y: util::stick_byte(v.left_stick_y),
        right_stick_x: util::stick_byte(v.right_stick_x),
        right_stick_y: util::stick_byte(v.right_stick_y),
        analog_r2: r2,
        analog_l2: l2,
        accel_x: motion.accel_x,
        accel_y: motion.accel_y,
        accel_z: motion.accel_z,
        gyro_x: motion.gyro_x,
        gyro_y: motion.gyro_y,
        gyro_z: motion.gyro_z,
    }
}

/// Convert a Triton frame to a DSU frame. The motion values are converted from the frame's
/// raw IMU readings by the caller.
pub fn to_dsu_frame(value: &TritonFrame, motion: &Motion) -> (r: DSUFrame)
    ensures
        r == dsu_frame_spec(*value, *motion),
{
    let l2 = scale_trigger_to_byte(value.trigger_left as i16);
    let r2 = scale_trigger_to_byte(value.trigger_right as i16);
    DSUFrame {
        dpad_left: is_u32_masked_button_pressed(value.buttons, MASK_DPAD_LEFT),
        dpad_down: is_u32_masked_button_pressed(value.buttons, MASK_DPAD_DOWN),
        dpad_right: is_u32_masked_button_pressed(value.buttons, MASK_DPAD_RIGHT),
        dpad_up: is_u32_masked_button_pressed(value.buttons, MASK_DPAD_UP),
        options: is_u32_masked_button_pressed(value.buttons, MASK_VIEW),
        r3: is_u32_masked_button_pressed(value.buttons, MASK_R3),
        l3: is_u32_masked_button_pressed(value.buttons, MASK_L3),
        share: is_u32_masked_button_pressed(value.buttons, MASK_MENU),
        y: is_u32_masked_button_pressed(value.buttons, MASK_Y),
        b: is_u32_masked_button_pressed(value.buttons, MASK_B),
        a: is_u32_masked_button_pressed(value.buttons, MASK_A),
        x: is_u32_masked_button_pressed(value.buttons, MASK_X),
        r1: is_u32_masked_button_pressed(value.buttons, MASK_R),
        l1: is_u32_masked_button_pressed(value.buttons, MASK_L),
        r2: r2 >= ANALOG_TRIGGER_TO_DIGITAL_THRESHOLD,
        l2: l2 >= ANALOG_TRIGGER_TO_DIGITAL_THRESHOLD,
        home: is_u32_masked_button_pressed(value.buttons, MASK_STEAM),
        touch: is_u32_masked_button_pressed(value.buttons, MASK_QAM),
        left_stick_x: scale_stick_to_byte(value.left_stick_x),
        left_stick_y: scale_stick_to_byte(value.left_stick_y),
        right_stick_x: scale_stick_to_byte(value.right_stick_x),
        right_stick_y: scale_stick_to_byte(value.right_stick_y),
        analog_r2: r2,
        analog_l2: l2,
        accel_x: motion.accel_x,
        accel_y: motion.accel_y,
        accel_z: motion.accel_z,
        gyro_x: motion.gyro_x,
        gyro_y: motion.gyro_y,
        gyro_z: motion.gyro_z,
    }
}

/// How a Triton controller is connected.
#[derive(Debug, Clone, Copy, PartialEq, Eq, Structural)]
pub enum ConnectionMode {
    Usb,
    UsbPuck,
    Bluetooth,
}

/// The connection mode a product ID stands for (USB for unknown IDs).
pub fn connection_mode_from_pid(pid: u16) -> (r: ConnectionMode)
    ensures
        r == (if pid == PID_BT {
            ConnectionMode::Bluetooth
        } else if pid == PID_PUCK {
            ConnectionMode::UsbPuck
        } else {
            ConnectionMode::Usb
        }),
{
    if pid == PID_BT {
        ConnectionMode::Bluetooth
    } else if pid == PID_WIRED {
        ConnectionMode::Usb
    } else if pid == PID_PUCK {
        ConnectionMode::UsbPuck
    } else {
        ConnectionMode::Usb
    }
}

/// A HID interface is a Triton candidate: Steam vendor ID, a vendor usage page, and one of
/// the Triton product IDs.
pub open spec fn is_candidate_spec(r: HidDeviceRecord) -> bool {
    r.vendor_id == VID && r.usage_page >= USAGE_PAGE_VENDOR_MIN && (r.product_id == PID_PUCK
        || r.product_id == PID_WIRED || r.product_id == PID_BT)
}

/// Test whether a HID interface is a Triton candidate.
pub fn is_candidate(r: &HidDeviceRecord) -> (b: bool)
    ensures
        b == is_candidate_spec(*r),
{
    r.vendor_id == VID && r.usage_page >= USAGE_PAGE_VENDOR_MIN && (r.product_id == PID_PUCK
        || r.product_id == PID_WIRED || r.product_id == PID_BT)
}

/// The indices of the Triton candidates in the device list, in list order.
pub fn candidates(records: &Vec<HidDeviceRecord>) -> (r: Vec<usize>)
    ensures
        r@ == crate::devices::hid::indices_where(
            records@.len(),
            |i: int| is_candidate_spec(records@[i]),
        ),
{
    let mut out: Vec<usize> = Vec::new();
    let mut i: usize = 0;
    while i < records.len()
        invariant
            i <= records@.len(),
            out@ == crate::devices::hid::indices_where(
                i as nat,
                |j: int| is_candidate_spec(records@[j]),
            ),
        decreases records@.len() - i,
    {
        if is_candidate(&records[i]) {
            out.push(i);
        }
        i = i + 1;
    }
    out
}

/// Decode what a read of `n` bytes into `buf` produced: `ShortRead(0, 1)` for an empty read,
/// `InvalidReport(buf[0])` when the bytes are no state report.
pub fn decode_read(buf: &[u8], n: usize) -> (r: Result<TritonFrame, DeviceError>)
    requires
        n <= buf@.len(),
        buf@.len() > 0,
    ensures
        n == 0 ==> (r matches Err(DeviceError::ShortRead(a, b)) && a == 0 && b == 1),
        n > 0 ==> match parse_spec(buf@.take(n as int)) {
            Some(f) => r matches Ok(g) && g == f,
            None => r matches Err(DeviceError::InvalidReport(id)) && id == buf@[0],
        },
{
    if n == 0 {
        return Err(DeviceError::ShortRead(0, 1));
    }
    let data = &buf[0..n];
    assert(data@ =~= buf@.take(n as int));
    match TritonFrame::parse(data) {
        Some(f) => Ok(f),
        None => Err(DeviceError::InvalidReport(buf[0])),
    }
}

/// The 46-byte state report that holds `f` under report ID `id`: the ID, one padding byte, the
/// buttons (32 bits), the left and right triggers (16 bits each), the left stick X and Y and
/// the right stick X and Y (16 bits each, two's complement), 12 padding bytes, the IMU
/// timestamp (32 bits), then the accelerometer X, Y, Z and the gyroscope X, Y, Z (16 bits
/// each); every value little-endian.
pub open spec fn encode_report_spec(id: u8, f: TritonFrame) -> Seq<u8> {
    seq![id]
        + seq![0u8]
        + bytes::le32(f.buttons)
        + bytes::le16(f.trigger_left)
        + bytes::le16(f.trigger_right)
        + bytes::le16(f.left_stick_x as u16)
        + bytes::le16(f.left_stick_y as u16)
        + bytes::le16(f.right_stick_x as u16)
        + bytes::le16(f.right_stick_y as u16)
        + bytes::zeros(12)
        + bytes::le32(f.imu_timestamp)
        + bytes::le16(f.accel_x as u16)
        + bytes::le16(f.accel_y as u16)
        + bytes::le16(f.accel_z as u16)
        + bytes::le16(f.gyro_x as u16)
        + bytes::le16(f.gyro_y as u16)
        + bytes::le16(f.gyro_z as u16)
}

/// Parsing the state report that holds a frame (over USB or Bluetooth), followed by any bytes
/// at all, gives the frame back.
pub proof fn lemma_parse_encoded(id: u8, f: TritonFrame, rest: Seq<u8>)
    requires
        id == 0x42 || id == 0x45,
    ensures
        encode_report_spec(id, f).len() == 46,
        parse_spec(encode_report_spec(id, f) + rest) == Some(f),
{
    let p0 = seq![id];
    assert(p0.len() == 1);
    assert(p0[0] == seq![id][0]);
    let p1 = p0 + seq![0u8];
    assert(p1.len() == 2);
    bytes::lemma_u32_le_of_le32(f.buttons);
    let p2 = p1 + bytes::le32(f.buttons);
    assert(p2.len() == 6);
    assert(p2[2] == bytes::le32(f.buttons)[0]);
    assert(p2[3] == bytes::le32(f.buttons)[1]);
    assert(p2[4] == bytes::le32(f.buttons)[2]);
    assert(p2[5] == bytes::le32(f.buttons)[3]);
    bytes::lemma_u16_le_of_le16(f.trigger_left);
    let p3 = p2 + bytes::le16(f.trigger_left);
    assert(p3.len() == 8);
    assert(p3[6] == bytes::le16(f.trigger_left)[0]);
    assert(p3[7] == bytes::le16(f.trigger_left)[1]);
    bytes::lemma_u16_le_of_le16(f.trigger_right);
    let p4 = p3 + bytes::le16(f.trigger_right);
    assert(p4.len() == 10);
    assert(p4[8] == bytes::le16(f.trigger_right)[0]);
    assert(p4[9] == bytes::le16(f.trigger_right)[1]);
    bytes::lemma_i16_le_of_le16(f.left_stick_x);
    let p5 = p4 + bytes::le16(f.left_stick_x as u16);
    assert(p5.len() == 12);
    assert(p5[10] == bytes::le16(f.left_stick_x as u16)[0]);
    assert(p5[11] == bytes::le16(f.left_stick_x as u16)[1]);
    bytes::lemma_i16_le_of_le16(f.left_stick_y);
    let p6 = p5 + bytes::le16(f.left_stick_y as u16);
    assert(p6.len() == 14);
    assert(p6[12] == bytes::le16(f.left_stick_y as u16)[0]);
    assert(p6[13] == bytes::le16(f.left_stick_y as u16)[1]);
    bytes::lemma_i16_le_of_le16(f.right_stick_x);
    let p7 = p6 + bytes::le16(f.right_stick_x as u16);
    assert(p7.len() == 16);
    assert(p7[14] == bytes::le16(f.right_stick_x as u16)[0]);
    assert(p7[15] == bytes::le16(f.right_stick_x as u16)[1]);
    bytes::lemma_i16_le_of_le16(f.right_stick_y);
    let p8 = p7 + bytes::le16(f.right_stick_y as u16);
    assert(p8.len() == 18);
    assert(p8[16] == bytes::le16(f.right_stick_y as u16)[0]);
    assert(p8[17] == bytes::le16(f.right_stick_y as u16)[1]);
    let p9 = p8 + bytes::zeros(12);
    assert(p9.len() == 30);
    bytes::lemma_u32_le_of_le32(f.imu_timestamp);
    let p10 = p9 + bytes::le32(f.imu_timestamp);
    assert(p10.len() == 34);
    assert(p10[30] == bytes::le32(f.imu_timestamp)[0]);
    assert(p10[31] == bytes::le32(f.imu_timestamp)[1]);
    assert(p10[32] == bytes::le32(f.imu_timestamp)[2]);
    assert(p10[33] == bytes::le32(f.imu_timestamp)[3]);
    bytes::lemma_i16_le_of_le16(f.accel_x);
    let p11 = p10 + bytes::le16(f.accel_x as u16);
    assert(p11.len() == 36);
    assert(p11[34] == bytes::le16(f.accel_x as u16)[0]);
    assert(p11[35] == bytes::le16(f.accel_x as u16)[1]);
    bytes::lemma_i16_le_of_le16(f.accel_y);
    let p12 = p11 + bytes::le16(f.accel_y as u16);
    assert(p12.len() == 38);
    assert(p12[36] == bytes::le16(f.accel_y as u16)[0]);
    assert(p12[37] == bytes::le16(f.accel_y as u16)[1]);
    bytes::lemma_i16_le_of_le16(f.accel_z);
    let p13 = p12 + bytes::le16(f.accel_z as u16);
    assert(p13.len() == 40);
    assert(p13[38] == bytes::le16(f.accel_z as u16)[0]);
    assert(p13[39] == bytes::le16(f.accel_z as u16)[1]);
    bytes::lemma_i16_le_of_le16(f.gyro_x);
    let p14 = p13 + bytes::le16(f.gyro_x as u16);
    assert(p14.len() == 42);
    assert(p14[40] == bytes::le16(f.gyro_x as u16)[0]);
    assert(p14[41] == bytes::le16(f.gyro_x as u16)[1]);
    bytes::lemma_i16_le_of_le16(f.gyro_y);
    let p15 = p14 + bytes::le16(f.gyro_y as u16);
    assert(p15.len() == 44);
    assert(p15[42] == bytes::le16(f.gyro_y as u16)[0]);
    assert(p15[43] == bytes::le16(f.gyro_y as u16)[1]);
    bytes::lemma_i16_le_of_le16(f.gyro_z);
    let p16 = p15 + bytes::le16(f.gyro_z as u16);
    assert(p16.len() == 46);
    assert(p16[44] == bytes::le16(f.gyro_z as u16)[0]);
    assert(p16[45] == bytes::le16(f.gyro_z as u16)[1]);
    assert(p16 == encode_report_spec(id, f));
    assert forall|i: int| 0 <= i < p15.len() implies #[trigger] p15[i] == p16[i] by { assert(p16[i] == p15[i]); }
    assert forall|i: int| 0 <= i < p14.len() implies #[trigger] p14[i] == p16[i] by { assert(p15[i] == p14[i]); }
    assert forall|i: int| 0 <= i < p13.len() implies #[trigger] p13[i] == p16[i] by { assert(p14[i] == p13[i]); }
    assert forall|i: int| 0 <= i < p12.len() implies #[trigger] p12[i] == p16[i] by { assert(p13[i] == p12[i]); }
    assert forall|i: int| 0 <= i < p11.len() implies #[trigger] p11[i] == p16[i] by { assert(p12[i] == p11[i]); }
    assert forall|i: int| 0 <= i < p10.len() implies #[trigger] p10[i] == p16[i] by { assert(p11[i] == p10[i]); }
    assert forall|i: int| 0 <= i < p9.len() implies #[trigger] p9[i] == p16[i] by { assert(p10[i] == p9[i]); }
    assert forall|i: int| 0 <= i < p8.len() implies #[trigger] p8[i] == p16[i] by { assert(p9[i] == p8[i]); }
    assert forall|i: int| 0 <= i < p7.len() implies #[trigger] p7[i] == p16[i] by { assert(p8[i] == p7[i]); }
    assert forall|i: int| 0 <= i < p6.len() implies #[trigger] p6[i] == p16[i] by { assert(p7[i] == p6[i]); }
    assert forall|i: int| 0 <= i < p5.len() implies #[trigger] p5[i] == p16[i] by { assert(p6[i] == p5[i]); }
    assert forall|i: int| 0 <= i < p4.len() implies #[trigger] p4[i] == p16[i] by { assert(p5[i] == p4[i]); }
    assert forall|i: int| 0 <= i < p3.len() implies #[trigger] p3[i] == p16[i] by { assert(p4[i] == p3[i]); }
    assert forall|i: int| 0 <= i < p2.len() implies #[trigger] p2[i] == p16[i] by { assert(p3[i] == p2[i]); }
    assert forall|i: int| 0 <= i < p1.len() implies #[trigger] p1[i] == p16[i] by { assert(p2[i] == p1[i]); }
    assert forall|i: int| 0 <= i < p0.len() implies #[trigger] p0[i] == p16[i] by { assert(p1[i] == p0[i]); }
    let d = encode_report_spec(id, f) + rest;
    assert forall|i: int| 0 <= i < 46 implies d[i] == p16[i] by {}
}

/// What the DSU frame of a Triton frame holds: each button is its bit of the button word
/// (A 0x1, B 0x2, X 0x4, Y 0x8, QAM 0x10 as touch, R3 0x20, view 0x40 as options, R 0x200,
/// D-pad down 0x400, right 0x800, left 0x1000, up 0x2000, menu 0x4000 as share, L3 0x8000,
/// Steam 0x1_0000 as home, L 0x8_0000); each stick axis is shifted to `0..=65535` and divided
/// by 256; each trigger is scaled from `0..=32767` onto `0..=255` (negative readings give 0)
/// and counts as pressed from 228 on; the motion values pass through.
pub proof fn lemma_dsu_frame_fields(v: TritonFrame, m: Motion)
    ensures
        dsu_frame_spec(v, m).dpad_left == (v.buttons & 0x0000_1000u32 != 0),
        dsu_frame_spec(v, m).dpad_down == (v.buttons & 0x0000_0400u32 != 0),
        dsu_frame_spec(v, m).dpad_right == (v.buttons & 0x0000_0800u32 != 0),
        dsu_frame_spec(v, m).dpad_up == (v.buttons & 0x0000_2000u32 != 0),
        dsu_frame_spec(v, m).options == (v.buttons & 0x0000_0040u32 != 0),
        dsu_frame_spec(v, m).r3 == (v.buttons & 0x0000_0020u32 != 0),
        dsu_frame_spec(v, m).l3 == (v.buttons & 0x0000_8000u32 != 0),
        dsu_frame_spec(v, m).share == (v.buttons & 0x0000_4000u32 != 0),
        dsu_frame_spec(v, m).y == (v.buttons & 0x0000_0008u32 != 0),
        dsu_frame_spec(v, m).b == (v.buttons & 0x0000_0002u32 != 0),
        dsu_frame_spec(v, m).a == (v.buttons & 0x0000_0001u32 != 0),
        dsu_frame_spec(v, m).x == (v.buttons & 0x0000_0004u32 != 0),
        dsu_frame_spec(v, m).r1 == (v.buttons & 0x0000_0200u32 != 0),
        dsu_frame_spec(v, m).l1 == (v.buttons & 0x0008_0000u32 != 0),
        dsu_frame_spec(v, m).home == (v.buttons & 0x0001_0000u32 != 0),
        dsu_frame_spec(v, m).touch == (v.buttons & 0x0000_0010u32 != 0),
        dsu_frame_spec(v, m).left_stick_x as int == (v.left_stick_x + 32768) / 256,
        dsu_frame_spec(v, m).left_stick_y as int == (v.left_stick_y + 32768) / 256,
        dsu_frame_spec(v, m).right_stick_x as int == (v.right_stick_x + 32768) / 256,
        dsu_frame_spec(v, m).right_stick_y as int == (v.right_stick_y + 32768) / 256,
        dsu_frame_spec(v, m).analog_l2 as int == (if (v.trigger_left as i16) < 0 { 0 } else { (v.trigger_left as i16) * 255 / 32767 }),
        dsu_frame_spec(v, m).l2 == (dsu_frame_spec(v, m).analog_l2 >= 228),
        dsu_frame_spec(v, m).analog_r2 as int == (if (v.trigger_right as i16) < 0 { 0 } else { (v.trigger_right as i16) * 255 / 32767 }),
        dsu_frame_spec(v, m).r2 == (dsu_frame_spec(v, m).analog_r2 >= 228),
        dsu_frame_spec(v, m).accel_x == m.accel_x,
        dsu_frame_spec(v, m).accel_y == m.accel_y,
        dsu_frame_spec(v, m).accel_z == m.accel_z,
        dsu_frame_spec(v, m).gyro_x == m.gyro_x,
        dsu_frame_spec(v, m).gyro_y == m.gyro_y,
        dsu_frame_spec(v, m).gyro_z == m.gyro_z,
{
}

} // verus!
