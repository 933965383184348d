//! Feature report command IDs (shared with Steam Deck / old controller).

use vstd::prelude::*;

verus! {

pub const CLEAR_DIGITAL_MAPPINGS: u8 = 0x81;

pub const LOAD_DEFAULT_SETTINGS: u8 = 0x8E;

pub const SET_SETTINGS_VALUES: u8 = 0x87;

} // verus!
