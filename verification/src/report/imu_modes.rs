//! IMU mode bitflags.

use vstd::prelude::*;

verus! {

pub const SEND_RAW_ACCEL: u16 = 0x08;

pub const SEND_RAW_GYRO: u16 = 0x10;

} // verus!
