//! A CemuHook (DSU) server core for Steam controllers: HID report decoding, the DSU wire
//! format, the reader's frozen-IMU state machine and the server's client bookkeeping.

pub mod bytes;
pub mod protocol;
pub mod crc;
pub mod devices;
pub mod errors;
pub mod frame;
pub mod dsu;
pub mod report;
pub mod reader;
pub mod server;
pub mod cli;
pub mod launch;
pub mod debug_dump;
