//! Error types for the library.

use vstd::prelude::*;

verus! {

/// The error of an I/O operation of std.
#[verifier::external_type_specification]
#[verifier::external_body]
pub struct ExIoError(std::io::Error);

/// The error of an operation of the `hidapi` crate.
#[verifier::external_type_specification]
#[verifier::external_body]
pub struct ExHidError(hidapi::HidError);

/// Errors that can occur when running the UDP server.
#[derive(Debug)]
pub enum ServerError {
    /// The HID Api failed to initialize when starting the server.
    HidApi(hidapi::HidError),
    /// The `UdpSocket` could not be cloned.
    UdpSocketCloneFailed(std::io::Error),
    /// There was an error performing a `UdpSocket` operation.
    UdpSocketOperationError(std::io::Error),
}

/// Errors that can occur when opening, initializing, or reading from devices.
#[derive(Debug)]
pub enum DeviceError {
    /// The Device failed to open
    NoDeviceFound,
    /// The device at path failed to open
    NoDeviceFoundAtPath(String),
    /// A device operation resulted in an I/O error
    IO(std::io::Error),
    /// A device operation resulted in a HID error
    Hid(hidapi::HidError),
    /// A device report was not the required length
    ShortRead(usize, usize),
    /// A device report was invalid
    InvalidReport(u8),
    /// Invalid device button string
    InvalidDeviceButton(String),
    /// Invalid gyro activation mode string
    InvalidGyroActivationMode(String),
    /// Invalid device family string
    InvalidDeviceFamily(String),
}

} // verus!
