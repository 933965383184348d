//! What the device adapters read of the HID device list, and the feature reports they send.

use vstd::prelude::*;

use crate::bytes;
use crate::bytes::str_eq;
use crate::errors::DeviceError;

verus! {

/// Feature report ID of the settings commands.
pub const FEATURE_REPORT_ID: u8 = 0x01;

/// Length of a feature report.
pub const FEATURE_REPORT_SIZE: usize = 64;

/// Command ID: set settings values.
pub const CMD_SET_SETTINGS_VALUES: u8 = 0x87;

/// Setting register: lizard mode (keyboard/mouse emulation).
pub const SETTING_LIZARD_MODE: u8 = 9;

/// Setting register: IMU mode.
pub const SETTING_IMU_MODE: u8 = 48;

/// Lizard mode off.
pub const LIZARD_MODE_OFF: u16 = 0;

/// Lizard mode on.
pub const LIZARD_MODE_ON: u16 = 1;

/// IMU mode bit: send raw accelerometer data.
pub const IMU_MODE_SEND_RAW_ACCEL: u16 = 0x08;

/// IMU mode bit: send raw gyroscope data.
pub const IMU_MODE_SEND_RAW_GYRO: u16 = 0x10;

/// IMU mode: send raw accelerometer and gyroscope data.
pub const IMU_MODE_GYRO_ACCEL: u16 = 0x18;

/// Steam vendor ID.
pub const VID: u16 = 0x28de;

/// Lowest usage page of the vendor-defined interfaces.
pub const USAGE_PAGE_VENDOR_MIN: u16 = 0xFF00;

/// What the adapters read of one entry of the HID device list.
#[derive(Debug, Clone)]
pub struct HidDeviceRecord {
    pub vendor_id: u16,
    pub product_id: u16,
    pub usage_page: u16,
    pub interface_number: i32,
    /// The device path, `None` when it is not valid UTF-8.
    pub path: Option<String>,
}

/// The indices `0..n` that satisfy `p`, in increasing order.
pub open spec fn indices_where(n: nat, p: spec_fn(int) -> bool) -> Seq<usize>
    decreases n,
{
    if n == 0 {
        Seq::empty()
    } else {
        indices_where((n - 1) as nat, p) + if p(n - 1) {
            seq![(n - 1) as usize]
        } else {
            Seq::empty()
        }
    }
}

/// The record has a path equal to `target`.
pub open spec fn has_path(r: HidDeviceRecord, target: Seq<char>) -> bool {
    r.path matches Some(p) && p@ == target
}

/// The 64-byte "set one setting" feature report.
pub open spec fn setting_report_spec(setting: u8, value: u16) -> Seq<u8> {
    seq![
        FEATURE_REPORT_ID,
        CMD_SET_SETTINGS_VALUES,
        3u8,
        setting,
        (value % 256) as u8,
        ((value / 256) % 256) as u8,
    ] + bytes::zeros(58)
}

/// Build the feature report that sets `setting` to `value`.
pub fn setting_report(setting: u8, value: u16) -> (r: [u8; 64])
    ensures
        r@ == setting_report_spec(setting, value),
{
    let mut buf = [0u8; 64];
    buf[0] = FEATURE_REPORT_ID;
    buf[1] = CMD_SET_SETTINGS_VALUES;
    buf[2] = 3;
    buf[3] = setting;
    buf[4] = (value % 256) as u8;
    buf[5] = ((value / 256) % 256) as u8;
    assert(buf@ =~= setting_report_spec(setting, value));
    buf
}

/// The feature report that probes a device: it turns lizard mode off.
pub fn probe_report() -> (r: [u8; 64])
    ensures
        r@ == setting_report_spec(SETTING_LIZARD_MODE, 0),
{
    setting_report(SETTING_LIZARD_MODE, 0)
}

/// Among the candidates (indices into `records`), the first whose path is `target`;
/// `NoDeviceFoundAtPath(target)` when there is none.
pub fn select_by_path(records: &Vec<HidDeviceRecord>, candidates: &Vec<usize>, target: &str) -> (r:
    Result<usize, DeviceError>)
    requires
        forall|k: int| 0 <= k < candidates@.len() ==> candidates@[k] < records@.len(),
    ensures
        match r {
            Ok(i) => exists|k: int|
                0 <= k < candidates@.len() && candidates@[k] == i && has_path(
                    records@[i as int],
                    target@,
                ) && forall|j: int|
                    0 <= j < k ==> !has_path(#[trigger] records@[candidates@[j] as int], target@),
            Err(e) => (e matches DeviceError::NoDeviceFoundAtPath(m) && m@ == target@) && forall|
                j: int,
            |
                0 <= j < candidates@.len() ==> !has_path(
                    #[trigger] records@[candidates@[j] as int],
                    target@,
                ),
        },
{
    let mut k: usize = 0;
    while k < candidates.len()
        invariant
            k <= candidates@.len(),
            forall|j: int| 0 <= j < candidates@.len() ==> candidates@[j] < records@.len(),
            forall|j: int|
                0 <= j < k ==> !has_path(#[trigger] records@[candidates@[j] as int], target@),
        decreases candidates@.len() - k,
    {
        let i = candidates[k];
        let found = match &records[i].path {
            Some(p) => str_eq(p.as_str(), target),
            None => false,
        };
        if found {
            return Ok(i);
        }
        k = k + 1;
    }
    Err(DeviceError::NoDeviceFoundAtPath(target.to_owned()))
}

/// The candidates (indices into `records`) that have a path, in order.
pub fn with_paths(records: &Vec<HidDeviceRecord>, candidates: &Vec<usize>) -> (r: Vec<usize>)
    requires
        forall|k: int| 0 <= k < candidates@.len() ==> candidates@[k] < records@.len(),
    ensures
        r@ == candidates@.filter(|i: usize| records@[i as int].path is Some),
{
    let mut out: Vec<usize> = Vec::new();
    let mut k: usize = 0;
    while k < candidates.len()
        invariant
            k <= candidates@.len(),
            forall|j: int| 0 <= j < candidates@.len() ==> candidates@[j] < records@.len(),
            out@ == candidates@.take(k as int).filter(|i: usize| records@[i as int].path is Some),
        decreases candidates@.len() - k,
    {
        let i = candidates[k];
        assert(candidates@.take(k + 1).drop_last() =~= candidates@.take(k as int));
        reveal_with_fuel(Seq::filter, 1);
        if records[i].path.is_some() {
            out.push(i);
        }
        k = k + 1;
    }
    assert(candidates@.take(candidates@.len() as int) =~= candidates@);
    out
}

} // verus!
