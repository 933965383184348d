//! The Triton full-state input report (Report ID 0x42, 54 bytes).

use vstd::prelude::*;

use crate::bytes;
use crate::bytes::{read_i16_le, read_u16_le, read_u32_le};

verus! {

/// Input report ID for the Triton full-state packet.
pub const REPORT_ID_TRITON_FULL: u8 = 0x42;

/// Total HID report length (including Report ID).
pub const REPORT_SIZE: usize = 54;

/// Parsed Triton full-state frame (Report ID 0x42).
#[derive(Debug, Clone, Copy, PartialEq, Eq, Structural)]
pub struct TritonFrame {
    pub seq_num: u8,
    pub buttons: u32,
    pub trigger_left: i16,
    pub trigger_right: i16,
    pub left_stick_x: i16,
    pub left_stick_y: i16,
    pub right_stick_x: i16,
    pub right_stick_y: i16,
    pub left_pad_x: i16,
    pub left_pad_y: i16,
    pub pressure_left: u16,
    pub right_pad_x: i16,
    pub right_pad_y: i16,
    pub pressure_right: u16,
    pub imu_timestamp: u32,
    pub accel_x: i16,
    pub accel_y: i16,
    pub accel_z: i16,
    pub gyro_x: i16,
    pub gyro_y: i16,
    pub gyro_z: i16,
    pub quat_w: i16,
    pub quat_x: i16,
    pub quat_y: i16,
    pub quat_z: i16,
}

/// The frame a report holds: `None` unless the report is at least 54 bytes long and starts
/// with the Report ID 0x42; each field is read little-endian at its offset after the ID.
pub open spec fn parse_spec(d: Seq<u8>) -> Option<TritonFrame> {
    if d.len() < REPORT_SIZE || d[0] != REPORT_ID_TRITON_FULL {
        None
    } else {
        Some(TritonFrame {
            seq_num: d[1],
            buttons: bytes::u32_le(d[2], d[3], d[4], d[5]),
            trigger_left: bytes::i16_le(d[6], d[7]),
            trigger_right: bytes::i16_le(d[8], d[9]),
            left_stick_x: bytes::i16_le(d[10], d[11]),
            left_stick_y: bytes::i16_le(d[12], d[13]),
            right_stick_x: bytes::i16_le(d[14], d[15]),
            right_stick_y: bytes::i16_le(d[16], d[17]),
            left_pad_x: bytes::i16_le(d[18], d[19]),
            left_pad_y: bytes::i16_le(d[20], d[21]),
            pressure_left: bytes::u16_le(d[22], d[23]),
            right_pad_x: bytes::i16_le(d[24], d[25]),
            right_pad_y: bytes::i16_le(d[26], d[27]),
            pressure_right: bytes::u16_le(d[28], d[29]),
            imu_timestamp: bytes::u32_le(d[30], d[31], d[32], d[33]),
            accel_x: bytes::i16_le(d[34], d[35]),
            accel_y: bytes::i16_le(d[36], d[37]),
            accel_z: bytes::i16_le(d[38], d[39]),
            gyro_x: bytes::i16_le(d[40], d[41]),
            gyro_y: bytes::i16_le(d[42], d[43]),
            gyro_z: bytes::i16_le(d[44], d[45]),
            quat_w: bytes::i16_le(d[46], d[47]),
            quat_x: bytes::i16_le(d[48], d[49]),
            quat_y: bytes::i16_le(d[50], d[51]),
            quat_z: bytes::i16_le(d[52], d[53]),
        })
    }
}

impl TritonFrame {
    pub const REPORT_ID: u8 = REPORT_ID_TRITON_FULL;

    pub const REPORT_SIZE: usize = REPORT_SIZE;

    /// Parse a raw HID report.  `data` must include the Report ID byte.
    pub fn parse(data: &[u8]) -> (r: Option<Self>)
        ensures
            r == parse_spec(data@),
    {
        if data.len() < REPORT_SIZE || data[0] != REPORT_ID_TRITON_FULL {
            return None;
        }
        Some(TritonFrame {
            seq_num: data[1],
            buttons: read_u32_le(data[2], data[3], data[4], data[5]),
            trigger_left: read_i16_le(data[6], data[7]),
            trigger_right: read_i16_le(data[8], data[9]),
            left_stick_x: read_i16_le(data[10], data[11]),
            left_stick_y: read_i16_le(data[12], data[13]),
            right_stick_x: read_i16_le(data[14], data[15]),
            right_stick_y: read_i16_le(data[16], data[17]),
            left_pad_x: read_i16_le(data[18], data[19]),
            left_pad_y: read_i16_le(data[20], data[21]),
            pressure_left: read_u16_le(data[22], data[23]),
            right_pad_x: read_i16_le(data[24], data[25]),
            right_pad_y: read_i16_le(data[26], data[27]),
            pressure_right: read_u16_le(data[28], data[29]),
            imu_timestamp: read_u32_le(data[30], data[31], data[32], data[33]),
            accel_x: read_i16_le(data[34], data[35]),
            accel_y: read_i16_le(data[36], data[37]),
            accel_z: read_i16_le(data[38], data[39]),
            gyro_x: read_i16_le(data[40], data[41]),
            gyro_y: read_i16_le(data[42], data[43]),
            gyro_z: read_i16_le(data[44], data[45]),
            quat_w: read_i16_le(data[46], data[47]),
            quat_x: read_i16_le(data[48], data[49]),
            quat_y: read_i16_le(data[50], data[51]),
            quat_z: read_i16_le(data[52], data[53]),
        })
    }

    /// Returns true if IMU data (accel + gyro) matches another frame exactly.
    /// Used to detect frozen/stale sensor data.
    pub fn imu_eq(&self, other: &Self) -> (r: bool)
        ensures
            r == (self.accel_x == other.accel_x && self.accel_y == other.accel_y && self.accel_z
                == other.accel_z && self.gyro_x == other.gyro_x && self.gyro_y == other.gyro_y
                && self.gyro_z == other.gyro_z),
    {
        self.accel_x == other.accel_x && self.accel_y == other.accel_y && self.accel_z
            == other.accel_z && self.gyro_x == other.gyro_x && self.gyro_y == other.gyro_y
            && self.gyro_z == other.gyro_z
    }
}

/// The 54-byte report that holds `f`: the Report ID, then each field little-endian, in
/// declaration order (signed fields by their two's-complement bits).
pub open spec fn encode_spec(f: TritonFrame) -> Seq<u8> {
    seq![REPORT_ID_TRITON_FULL]
        + seq![f.seq_num]
        + bytes::le32(f.buttons)
        + bytes::le16(f.trigger_left as u16)
        + bytes::le16(f.trigger_right as u16)
        + bytes::le16(f.left_stick_x as u16)
        + bytes::le16(f.left_stick_y as u16)
        + bytes::le16(f.right_stick_x as u16)
        + bytes::le16(f.right_stick_y as u16)
        + bytes::le16(f.left_pad_x as u16)
        + bytes::le16(f.left_pad_y as u16)
        + bytes::le16(f.pressure_left)
        + bytes::le16(f.right_pad_x as u16)
        + bytes::le16(f.right_pad_y as u16)
        + bytes::le16(f.pressure_right)
        + bytes::le32(f.imu_timestamp)
        + bytes::le16(f.accel_x as u16)
        + bytes::le16(f.accel_y as u16)
        + bytes::le16(f.accel_z as u16)
        + bytes::le16(f.gyro_x as u16)
        + bytes::le16(f.gyro_y as u16)
        + bytes::le16(f.gyro_z as u16)
        + bytes::le16(f.quat_w as u16)
        + bytes::le16(f.quat_x as u16)
        + bytes::le16(f.quat_y as u16)
        + bytes::le16(f.quat_z as u16)
}

/// Parsing the report that holds a frame, followed by any bytes at all, gives the frame back.
pub proof fn lemma_parse_encoded(f: TritonFrame, rest: Seq<u8>)
    ensures
        encode_spec(f).len() == REPORT_SIZE,
        parse_spec(encode_spec(f) + rest) == Some(f),
{
    let p0 = seq![REPORT_ID_TRITON_FULL];
    let p1 = p0 + seq![f.seq_num];
    assert(p1.len() == 2);
    assert(p1[1] == seq![f.seq_num][0]);
    bytes::lemma_u32_le_of_le32(f.buttons);
    let p2 = p1 + bytes::le32(f.buttons);
    assert(p2.len() == 6);
    assert(p2[2] == bytes::le32(f.buttons)[0]);
    assert(p2[3] == bytes::le32(f.buttons)[1]);
    assert(p2[4] == bytes::le32(f.buttons)[2]);
    assert(p2[5] == bytes::le32(f.buttons)[3]);
    bytes::lemma_i16_le_of_le16(f.trigger_left);
    let p3 = p2 + bytes::le16(f.trigger_left as u16);
    assert(p3.len() == 8);
    assert(p3[6] == bytes::le16(f.trigger_left as u16)[0]);
    assert(p3[7] == bytes::le16(f.trigger_left as u16)[1]);
    bytes::lemma_i16_le_of_le16(f.trigger_right);
    let p4 = p3 + bytes::le16(f.trigger_right as u16);
    assert(p4.len() == 10);
    assert(p4[8] == bytes::le16(f.trigger_right as u16)[0]);
    assert(p4[9] == bytes::le16(f.trigger_right as u16)[1]);
    bytes::lemma_i16_le_of_le16(f.left_stick_x);
    let p5 = p4 + bytes::le16(f.left_stick_x as u16);
    assert(p5.len() == 12);
    assert(p5[10] == bytes::le16(f.left_stick_x as u16)[0]);
    assert(p5[11] == bytes::le16(f.left_stick_x as u16)[1]);
    bytes::lemma_i16_le_of_le16(f.left_stick_y);
    let p6 = p5 + bytes::le16(f.left_stick_y as u16);
    assert(p6.len() == 14);
    assert(p6[12] == bytes::le16(f.left_stick_y as u16)[0]);
    assert(p6[13] == bytes::le16(f.left_stick_y as u16)[1]);
    bytes::lemma_i16_le_of_le16(f.right_stick_x);
    let p7 = p6 + bytes::le16(f.right_stick_x as u16);
    assert(p7.len() == 16);
    assert(p7[14] == bytes::le16(f.right_stick_x as u16)[0]);
    assert(p7[15] == bytes::le16(f.right_stick_x as u16)[1]);
    bytes::lemma_i16_le_of_le16(f.right_stick_y);
    let p8 = p7 + bytes::le16(f.right_stick_y as u16);
    assert(p8.len() == 18);
    assert(p8[16] == bytes::le16(f.right_stick_y as u16)[0]);
    assert(p8[17] == bytes::le16(f.right_stick_y as u16)[1]);
    bytes::lemma_i16_le_of_le16(f.left_pad_x);
    let p9 = p8 + bytes::le16(f.left_pad_x as u16);
    assert(p9.len() == 20);
    assert(p9[18] == bytes::le16(f.left_pad_x as u16)[0]);
    assert(p9[19] == bytes::le16(f.left_pad_x as u16)[1]);
    bytes::lemma_i16_le_of_le16(f.left_pad_y);
    let p10 = p9 + bytes::le16(f.left_pad_y as u16);
    assert(p10.len() == 22);
    assert(p10[20] == bytes::le16(f.left_pad_y as u16)[0]);
    assert(p10[21] == bytes::le16(f.left_pad_y as u16)[1]);
    bytes::lemma_u16_le_of_le16(f.pressure_left);
    let p11 = p10 + bytes::le16(f.pressure_left);
    assert(p11.len() == 24);
    assert(p11[22] == bytes::le16(f.pressure_left)[0]);
    assert(p11[23] == bytes::le16(f.pressure_left)[1]);
    bytes::lemma_i16_le_of_le16(f.right_pad_x);
    let p12 = p11 + bytes::le16(f.right_pad_x as u16);
    assert(p12.len() == 26);
    assert(p12[24] == bytes::le16(f.right_pad_x as u16)[0]);
    assert(p12[25] == bytes::le16(f.right_pad_x as u16)[1]);
    bytes::lemma_i16_le_of_le16(f.right_pad_y);
    let p13 = p12 + bytes::le16(f.right_pad_y as u16);
    assert(p13.len() == 28);
    assert(p13[26] == bytes::le16(f.right_pad_y as u16)[0]);
    assert(p13[27] == bytes::le16(f.right_pad_y as u16)[1]);
    bytes::lemma_u16_le_of_le16(f.pressure_right);
    let p14 = p13 + bytes::le16(f.pressure_right);
    assert(p14.len() == 30);
    assert(p14[28] == bytes::le16(f.pressure_right)[0]);
    assert(p14[29] == bytes::le16(f.pressure_right)[1]);
    bytes::lemma_u32_le_of_le32(f.imu_timestamp);
    let p15 = p14 + bytes::le32(f.imu_timestamp);
    assert(p15.len() == 34);
    assert(p15[30] == bytes::le32(f.imu_timestamp)[0]);
    assert(p15[31] == bytes::le32(f.imu_timestamp)[1]);
    assert(p15[32] == bytes::le32(f.imu_timestamp)[2]);
    assert(p15[33] == bytes::le32(f.imu_timestamp)[3]);
    bytes::lemma_i16_le_of_le16(f.accel_x);
    let p16 = p15 + bytes::le16(f.accel_x as u16);
    assert(p16.len() == 36);
    assert(p16[34] == bytes::le16(f.accel_x as u16)[0]);
    assert(p16[35] == bytes::le16(f.accel_x as u16)[1]);
    bytes::lemma_i16_le_of_le16(f.accel_y);
    let p17 = p16 + bytes::le16(f.accel_y as u16);
    assert(p17.len() == 38);
    assert(p17[36] == bytes::le16(f.accel_y as u16)[0]);
    assert(p17[37] == bytes::le16(f.accel_y as u16)[1]);
    bytes::lemma_i16_le_of_le16(f.accel_z);
    let p18 = p17 + bytes::le16(f.accel_z as u16);
    assert(p18.len() == 40);
    assert(p18[38] == bytes::le16(f.accel_z as u16)[0]);
    assert(p18[39] == bytes::le16(f.accel_z as u16)[1]);
    bytes::lemma_i16_le_of_le16(f.gyro_x);
    let p19 = p18 + bytes::le16(f.gyro_x as u16);
    assert(p19.len() == 42);
    assert(p19[40] == bytes::le16(f.gyro_x as u16)[0]);
    assert(p19[41] == bytes::le16(f.gyro_x as u16)[1]);
    bytes::lemma_i16_le_of_le16(f.gyro_y);
    let p20 = p19 + bytes::le16(f.gyro_y as u16);
    assert(p20.len() == 44);
    assert(p20[42] == bytes::le16(f.gyro_y as u16)[0]);
    assert(p20[43] == bytes::le16(f.gyro_y as u16)[1]);
    bytes::lemma_i16_le_of_le16(f.gyro_z);
    let p21 = p20 + bytes::le16(f.gyro_z as u16);
    assert(p21.len() == 46);
    assert(p21[44] == bytes::le16(f.gyro_z as u16)[0]);
    assert(p21[45] == bytes::le16(f.gyro_z as u16)[1]);
    bytes::lemma_i16_le_of_le16(f.quat_w);
    let p22 = p21 + bytes::le16(f.quat_w as u16);
    assert(p22.len() == 48);
    assert(p22[46] == bytes::le16(f.quat_w as u16)[0]);
    assert(p22[47] == bytes::le16(f.quat_w as u16)[1]);
    bytes::lemma_i16_le_of_le16(f.quat_x);
    let p23 = p22 + bytes::le16(f.quat_x as u16);
    assert(p23.len() == 50);
    assert(p23[48] == bytes::le16(f.quat_x as u16)[0]);
    assert(p23[49] == bytes::le16(f.quat_x as u16)[1]);
    bytes::lemma_i16_le_of_le16(f.quat_y);
    let p24 = p23 + bytes::le16(f.quat_y as u16);
    assert(p24.len() == 52);
    assert(p24[50] == bytes::le16(f.quat_y as u16)[0]);
    assert(p24[51] == bytes::le16(f.quat_y as u16)[1]);
    bytes::lemma_i16_le_of_le16(f.quat_z);
    let p25 = p24 + bytes::le16(f.quat_z as u16);
    assert(p25.len() == 54);
    assert(p25[52] == bytes::le16(f.quat_z as u16)[0]);
    assert(p25[53] == bytes::le16(f.quat_z as u16)[1]);
    assert(p25 == encode_spec(f));
    let d = encode_spec(f) + rest;
    assert forall|i: int| 0 <= i < 54 implies d[i] == p25[i] by {}
    assert forall|i: int| 0 <= i < p24.len() implies #[trigger] p24[i] == p25[i] by { assert(p25[i] == p24[i]); }
    assert forall|i: int| 0 <= i < p23.len() implies #[trigger] p23[i] == p25[i] by { assert(p24[i] == p23[i]); }
    assert forall|i: int| 0 <= i < p22.len() implies #[trigger] p22[i] == p25[i] by { assert(p23[i] == p22[i]); }
    assert forall|i: int| 0 <= i < p21.len() implies #[trigger] p21[i] == p25[i] by { assert(p22[i] == p21[i]); }
    assert forall|i: int| 0 <= i < p20.len() implies #[trigger] p20[i] == p25[i] by { assert(p21[i] == p20[i]); }
    assert forall|i: int| 0 <= i < p19.len() implies #[trigger] p19[i] == p25[i] by { assert(p20[i] == p19[i]); }
    assert forall|i: int| 0 <= i < p18.len() implies #[trigger] p18[i] == p25[i] by { assert(p19[i] == p18[i]); }
    assert forall|i: int| 0 <= i < p17.len() implies #[trigger] p17[i] == p25[i] by { assert(p18[i] == p17[i]); }
    assert forall|i: int| 0 <= i < p16.len() implies #[trigger] p16[i] == p25[i] by { assert(p17[i] == p16[i]); }
    assert forall|i: int| 0 <= i < p15.len() implies #[trigger] p15[i] == p25[i] by { assert(p16[i] == p15[i]); }
    assert forall|i: int| 0 <= i < p14.len() implies #[trigger] p14[i] == p25[i] by { assert(p15[i] == p14[i]); }
    assert forall|i: int| 0 <= i < p13.len() implies #[trigger] p13[i] == p25[i] by { assert(p14[i] == p13[i]); }
    assert forall|i: int| 0 <= i < p12.len() implies #[trigger] p12[i] == p25[i] by { assert(p13[i] == p12[i]); }
    assert forall|i: int| 0 <= i < p11.len() implies #[trigger] p11[i] == p25[i] by { assert(p12[i] == p11[i]); }
    assert forall|i: int| 0 <= i < p10.len() implies #[trigger] p10[i] == p25[i] by { assert(p11[i] == p10[i]); }
    assert forall|i: int| 0 <= i < p9.len() implies #[trigger] p9[i] == p25[i] by { assert(p10[i] == p9[i]); }
    assert forall|i: int| 0 <= i < p8.len() implies #[trigger] p8[i] == p25[i] by { assert(p9[i] == p8[i]); }
    assert forall|i: int| 0 <= i < p7.len() implies #[trigger] p7[i] == p25[i] by { assert(p8[i] == p7[i]); }
    assert forall|i: int| 0 <= i < p6.len() implies #[trigger] p6[i] == p25[i] by { assert(p7[i] == p6[i]); }
    assert forall|i: int| 0 <= i < p5.len() implies #[trigger] p5[i] == p25[i] by { assert(p6[i] == p5[i]); }
    assert forall|i: int| 0 <= i < p4.len() implies #[trigger] p4[i] == p25[i] by { assert(p5[i] == p4[i]); }
    assert forall|i: int| 0 <= i < p3.len() implies #[trigger] p3[i] == p25[i] by { assert(p4[i] == p3[i]); }
    assert forall|i: int| 0 <= i < p2.len() implies #[trigger] p2[i] == p25[i] by { assert(p3[i] == p2[i]); }
    assert forall|i: int| 0 <= i < p1.len() implies #[trigger] p1[i] == p25[i] by { assert(p2[i] == p1[i]); }
}

} // verus!
