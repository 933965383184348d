//! Feature reports and report decoding for the Triton receiver driven through `hidraw`.

use vstd::prelude::*;

use crate::bytes;
use crate::devices::hid::HidDeviceRecord;
use crate::errors::DeviceError;
use crate::frame;
use crate::frame::TritonFrame;
use crate::report;
use crate::report::{commands, imu_modes, settings, trackpad_modes};

verus! {

/// The command that clears the digital button mappings ("lizard mode" off).
pub open spec fn clear_digital_mappings_spec() -> Seq<u8> {
    seq![0x01u8, commands::CLEAR_DIGITAL_MAPPINGS] + bytes::zeros(62)
}

/// The command that resets the controller to factory settings.
pub open spec fn load_default_settings_spec() -> Seq<u8> {
    seq![0x01u8, commands::LOAD_DEFAULT_SETTINGS, 0u8] + bytes::zeros(61)
}

/// The command that turns both trackpads' mouse emulation off and raw IMU output on:
/// three settings of three bytes each (register, value low byte, value high byte).
pub open spec fn enable_imu_settings_spec() -> Seq<u8> {
    seq![
        0x01u8,
        commands::SET_SETTINGS_VALUES,
        9u8,
        settings::LEFT_TRACKPAD_MODE,
        0x07u8,
        0x00u8,
        settings::RIGHT_TRACKPAD_MODE,
        0x07u8,
        0x00u8,
        settings::IMU_MODE,
        0x18u8,
        0x00u8,
    ] + bytes::zeros(52)
}

/// Build the command that clears the digital button mappings.
pub fn clear_digital_mappings_command() -> (r: [u8; 64])
    ensures
        r@ == clear_digital_mappings_spec(),
{
    let mut cmd = [0u8; 64];
    cmd[0] = 0x01;
    cmd[1] = commands::CLEAR_DIGITAL_MAPPINGS;
    assert(cmd@ =~= clear_digital_mappings_spec());
    cmd
}

/// Build the command that resets the controller to factory settings.
pub fn load_default_settings_command() -> (r: [u8; 64])
    ensures
        r@ == load_default_settings_spec(),
{
    let mut cmd = [0u8; 64];
    cmd[0] = 0x01;
    cmd[1] = commands::LOAD_DEFAULT_SETTINGS;
    cmd[2] = 0;
    assert(cmd@ =~= load_default_settings_spec());
    cmd
}

/// Build the command that disables trackpad mouse emulation and enables raw IMU data.
pub fn enable_imu_settings_command() -> (r: [u8; 64])
    ensures
        r@ == enable_imu_settings_spec(),
{
    let mut cmd = [0u8; 64];
    cmd[0] = 0x01;
    cmd[1] = commands::SET_SETTINGS_VALUES;
    cmd[2] = 9;  // 3 settings x 3 bytes each

    cmd[3] = settings::LEFT_TRACKPAD_MODE;
    cmd[4] = (trackpad_modes::NONE % 256) as u8;
    cmd[5] = (trackpad_modes::NONE / 256) as u8;

    cmd[6] = settings::RIGHT_TRACKPAD_MODE;
    cmd[7] = (trackpad_modes::NONE % 256) as u8;
    cmd[8] = (trackpad_modes::NONE / 256) as u8;

    let imu_mode: u16 = imu_modes::SEND_RAW_ACCEL | imu_modes::SEND_RAW_GYRO;
    assert(imu_mode == 0x18) by (bit_vector)
        requires
            imu_mode == 0x08u16 | 0x10u16,
    ;
    cmd[9] = settings::IMU_MODE;
    cmd[10] = (imu_mode % 256) as u8;
    cmd[11] = (imu_mode / 256) as u8;
    assert(cmd@ =~= enable_imu_settings_spec());
    cmd
}

/// The HIDIOCSFEATURE ioctl request number for a buffer of `len` bytes:
/// `_IOC(_IOC_WRITE | _IOC_READ, 'H', 0x06, len)`.
pub open spec fn hidiocsfeature_spec(len: usize) -> u32 {
    (3u32 << 30u32) | ((len as u32) << 16u32) | (0x48u32 << 8u32) | 6u32
}

/// Compute the HIDIOCSFEATURE ioctl number for a buffer length `len`.
pub fn hidiocsfeature(len: usize) -> (r: u32)
    ensures
        r == hidiocsfeature_spec(len),
        len < 0x4000 ==> r == 0xC000_4806 + len * 0x1_0000,
{
    let dir: u32 = 3;  // _IOC_WRITE | _IOC_READ
    let l: u32 = len as u32;
    let r = (dir << 30u32) | (l << 16u32) | (0x48u32 << 8u32) | 6u32;
    assert(l < 0x4000 ==> r == 0xC000_4806 + l * 0x1_0000) by (bit_vector)
        requires
            dir == 3,
            r == (dir << 30u32) | (l << 16u32) | (0x48u32 << 8u32) | 6u32,
    ;
    r
}

/// An interface of the Triton receiver: Steam vendor ID, the receiver's product ID and
/// exactly the vendor usage page.
pub open spec fn is_candidate_spec(r: HidDeviceRecord) -> bool {
    r.vendor_id == report::VID && r.product_id == report::PID && r.usage_page
        == report::USAGE_PAGE_VENDOR
}

/// Test whether a HID interface is a receiver interface.
pub fn is_candidate(r: &HidDeviceRecord) -> (b: bool)
    ensures
        b == is_candidate_spec(*r),
{
    r.vendor_id == report::VID && r.product_id == report::PID && r.usage_page
        == report::USAGE_PAGE_VENDOR
}

/// The indices of the receiver interfaces in the device list, in list order.
pub fn candidates(records: &Vec<HidDeviceRecord>) -> (r: Vec<usize>)
    ensures
        r@ == crate::devices::hid::indices_where(
            records@.len(),
            |i: int| is_candidate_spec(records@[i]),
        ),
{
    let mut out: Vec<usize> = Vec::new();
    let mut i: usize = 0;
    while i < records.len()
        invariant
            i <= records@.len(),
            out@ == crate::devices::hid::indices_where(
                i as nat,
                |j: int| is_candidate_spec(records@[j]),
            ),
        decreases records@.len() - i,
    {
        if is_candidate(&records[i]) {
            out.push(i);
        }
        i = i + 1;
    }
    out
}

/// Decode what a read of `n` bytes into `buf` produced: `ShortRead(n, 54)` for fewer than
/// 54 bytes, `InvalidReport(buf[0])` when the bytes are no full-state report.
pub fn decode_read(buf: &[u8], n: usize) -> (r: Result<TritonFrame, DeviceError>)
    requires
        n <= buf@.len(),
        buf@.len() > 0,
    ensures
        n < frame::REPORT_SIZE ==> (r matches Err(DeviceError::ShortRead(a, b)) && a == n && b
            == frame::REPORT_SIZE),
        n >= frame::REPORT_SIZE ==> match frame::parse_spec(buf@.take(n as int)) {
            Some(f) => r matches Ok(g) && g == f,
            None => r matches Err(DeviceError::InvalidReport(id)) && id == buf@[0],
        },
{
    if n < TritonFrame::REPORT_SIZE {
        return Err(DeviceError::ShortRead(n, TritonFrame::REPORT_SIZE));
    }
    let data = &buf[0..n];
    assert(data@ =~= buf@.take(n as int));
    match TritonFrame::parse(data) {
        Some(f) => Ok(f),
        None => Err(DeviceError::InvalidReport(buf[0])),
    }
}

} // verus!
