//! Trackpad mode values.

use vstd::prelude::*;

verus! {

pub const NONE: u16 = 0x07;

} // verus!
