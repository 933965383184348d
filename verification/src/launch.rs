//! The command line of the `steam-controller-dsu` program: what its arguments ask it to run.

use vstd::prelude::*;

use crate::devices::device::{DeviceButton, DeviceConfig, GyroActivationMode};
use crate::server::ServerConfig;

verus! {

/// The highest CemuHook controller slot (slots 0 to 3 are controllers 1 to 4).
pub const MAX_SLOT: u8 = 3;

/// Command-line arguments.
#[derive(Debug, Clone)]
pub struct Args {
    /// Run in debug mode: open the controller and dump raw IMU frames.
    pub debug: bool,
    /// UDP bind address for the CemuHook server.
    pub bind_addr: String,
    /// UDP port for the CemuHook server.
    pub port: u16,
    /// Invert the motion controls pitch axis.
    pub invert_pitch: bool,
    /// CemuHook controller slot to report on (0-3 for Controllers 1 through 4).
    /// Controller number is slot + 1.
    pub slot: u8,
    /// Optional specific device path to open. Example: /dev/hidraw11
    pub device_path: Option<String>,
    /// Don't enable lizard mode when the device is closed (such as on program exit)
    pub no_enable_lizard_mode_on_close: bool,
    /// Buttons/sensors that activate gyro reporting (none: the gyro is always reported).
    pub gyro_activation_buttons: Vec<DeviceButton>,
    /// Whether any or all of the activation buttons must be pressed.
    pub gyro_activation_mode: GyroActivationMode,
}

/// What the program runs.
#[derive(Debug)]
pub enum Plan {
    /// The slot is out of range; the program exits with status 1.
    InvalidSlot(u8),
    /// Dump frames to stdout; the program then exits with status 1.
    DebugDump { device_path: Option<String>, device_config: DeviceConfig },
    /// Run the server; the program exits with status 0 when it ends without error, 1 otherwise.
    Serve { config: ServerConfig, device_path: Option<String>, device_config: DeviceConfig },
}

/// The device configuration the arguments give: lizard mode, gyro activation buttons and
/// gyro activation mode as asked.
pub open spec fn device_config_ok(d: DeviceConfig, args: Args) -> bool {
    &&& d.no_enable_lizard_mode_on_close == args.no_enable_lizard_mode_on_close
    &&& d.gyro_activation_inputs@ == args.gyro_activation_buttons@
    &&& d.gyro_activation_mode == args.gyro_activation_mode
}

/// The device path the arguments give.
pub open spec fn same_path(p: Option<String>, q: Option<String>) -> bool {
    match (p, q) {
        (Some(a), Some(b)) => a@ == b@,
        (None, None) => true,
        _ => false,
    }
}

/// Decide what the arguments ask for.
pub fn plan(args: Args) -> (p: Plan)
    ensures
        args.slot > MAX_SLOT ==> p == Plan::InvalidSlot(args.slot),
        args.slot <= MAX_SLOT && args.debug ==> (p matches Plan::DebugDump {
            device_path,
            device_config,
        } && same_path(device_path, args.device_path) && device_config_ok(device_config, args)),
        args.slot <= MAX_SLOT && !args.debug ==> (p matches Plan::Serve {
            config,
            device_path,
            device_config,
        } && config.bind_addr@ == args.bind_addr@ && config.port == args.port && config.invert_y
            == args.invert_pitch && same_path(device_path, args.device_path) && device_config_ok(
            device_config,
            args,
        )),
{
    if args.slot > MAX_SLOT {
        return Plan::InvalidSlot(args.slot);
    }
    let device_config = DeviceConfig {
        no_enable_lizard_mode_on_close: args.no_enable_lizard_mode_on_close,
        gyro_activation_inputs: args.gyro_activation_buttons,
        gyro_activation_mode: args.gyro_activation_mode,
    };
    if args.debug {
        return Plan::DebugDump { device_path: args.device_path, device_config };
    }
    Plan::Serve {
        config: ServerConfig { bind_addr: args.bind_addr, port: args.port, invert_y: args.invert_pitch },
        device_path: args.device_path,
        device_config,
    }
}

} // verus!
