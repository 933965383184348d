//! Setting register IDs.

use vstd::prelude::*;

verus! {

pub const LEFT_TRACKPAD_MODE: u8 = 0x07;

pub const RIGHT_TRACKPAD_MODE: u8 = 0x08;

pub const IMU_MODE: u8 = 0x30;

} // verus!
