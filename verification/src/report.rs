//! Identifiers of the Steam Controller's HID interface and its feature reports.

pub mod commands;
pub mod imu_modes;
pub mod settings;
pub mod trackpad_modes;

use vstd::prelude::*;

verus! {

/// Steam Controller vendor ID.
pub const VID: u16 = 0x28de;

/// Steam Controller product ID (USB receiver).
pub const PID: u16 = 0x1304;

/// HID usage page for the vendor-defined gamepad interface.
pub const USAGE_PAGE_VENDOR: u16 = 0xFF00;

/// Input report ID for the Triton full-state packet.
pub const REPORT_ID_TRITON_FULL: u8 = 0x42;

/// Total HID report length (including Report ID).
pub const REPORT_SIZE: usize = 54;

} // verus!
