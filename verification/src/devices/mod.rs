//! Adapters from raw HID data to DSU frames for supported devices.

pub mod util;
pub mod device;

pub use device::{DeviceButton, DeviceConfig, GyroActivationMode};
pub mod hid;
pub mod triton;
pub mod legacy;
pub mod linux_device;
