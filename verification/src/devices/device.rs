//! Device-independent buttons, gyro activation settings and device configuration.

use vstd::prelude::*;

use crate::bytes::str_eq;
use crate::errors::DeviceError;

verus! {

/// Device buttons not specific to any one device.
#[derive(Debug, Clone, PartialEq, Eq, Structural)]
pub enum DeviceButton {
    /// Directional pad Left
    DpadLeft,
    /// Directional pad Down
    DpadDown,
    /// Directional pad Right
    DpadRight,
    /// Directional pad Up
    DpadUp,
    /// Start, options, etc.
    Start,
    /// Select, share, etc.
    Select,
    /// PS button, steam button, etc.
    Guide,
    /// QAM, Mic, etc.
    Quaternary,
    /// XB layout A
    A,
    /// XB layout B
    B,
    /// XB layout X
    X,
    /// XB layout Y
    Y,
    /// L1, Left Bumper
    L1,
    /// R1, Right Bumper
    R1,
    /// L2, Left Trigger
    L2,
    /// R2, Right Trigger
    R2,
    /// L3, Left stick click
    L3,
    /// R3, Right stick click
    R3,
    /// Triton only
    L4,
    /// Triton only
    L5,
    /// Triton only
    R4,
    /// Triton only
    R5,
    /// Triton only
    LeftStickTouch,
    /// Triton only
    RightStickTouch,
    /// Triton only
    LeftPadTouch,
    /// Triton only
    RightPadTouch,
    /// Triton only
    LeftGrip,
    /// Triton only
    RightGrip,
    /// Unknown button
    Unknown,
}

/// The name of each button, as accepted on the command line (`"unknown"` for
/// [`DeviceButton::Unknown`], which no name selects).
pub open spec fn button_name(b: DeviceButton) -> Seq<char> {
    match b {
        DeviceButton::DpadLeft => "dpad_left"@,
        DeviceButton::DpadDown => "dpad_down"@,
        DeviceButton::DpadRight => "dpad_right"@,
        DeviceButton::DpadUp => "dpad_up"@,
        DeviceButton::Start => "start"@,
        DeviceButton::Select => "select"@,
        DeviceButton::Guide => "guide"@,
        DeviceButton::Quaternary => "quaternary"@,
        DeviceButton::A => "a"@,
        DeviceButton::B => "b"@,
        DeviceButton::X => "x"@,
        DeviceButton::Y => "y"@,
        DeviceButton::L1 => "l1"@,
        DeviceButton::R1 => "r1"@,
        DeviceButton::L2 => "l2"@,
        DeviceButton::R2 => "r2"@,
        DeviceButton::L3 => "l3"@,
        DeviceButton::R3 => "r3"@,
        DeviceButton::L4 => "l4"@,
        DeviceButton::L5 => "l5"@,
        DeviceButton::R4 => "r4"@,
        DeviceButton::R5 => "r5"@,
        DeviceButton::LeftStickTouch => "left_stick_touch"@,
        DeviceButton::RightStickTouch => "right_stick_touch"@,
        DeviceButton::LeftPadTouch => "left_pad_touch"@,
        DeviceButton::RightPadTouch => "right_pad_touch"@,
        DeviceButton::LeftGrip => "left_grip"@,
        DeviceButton::RightGrip => "right_grip"@,
        DeviceButton::Unknown => "unknown"@,
    }
}

/// The button a name selects, if any.
pub open spec fn button_named(name: Seq<char>) -> Option<DeviceButton> {
    if name == "dpad_left"@ {
        Some(DeviceButton::DpadLeft)
    } else if name == "dpad_down"@ {
        Some(DeviceButton::DpadDown)
    } else if name == "dpad_right"@ {
        Some(DeviceButton::DpadRight)
    } else if name == "dpad_up"@ {
        Some(DeviceButton::DpadUp)
    } else if name == "start"@ {
        Some(DeviceButton::Start)
    } else if name == "select"@ {
        Some(DeviceButton::Select)
    } else if name == "guide"@ {
        Some(DeviceButton::Guide)
    } else if name == "quaternary"@ {
        Some(DeviceButton::Quaternary)
    } else if name == "a"@ {
        Some(DeviceButton::A)
    } else if name == "b"@ {
        Some(DeviceButton::B)
    } else if name == "x"@ {
        Some(DeviceButton::X)
    } else if name == "y"@ {
        Some(DeviceButton::Y)
    } else if name == "l1"@ {
        Some(DeviceButton::L1)
    } else if name == "r1"@ {
        Some(DeviceButton::R1)
    } else if name == "l2"@ {
        Some(DeviceButton::L2)
    } else if name == "r2"@ {
        Some(DeviceButton::R2)
    } else if name == "l3"@ {
        Some(DeviceButton::L3)
    } else if name == "r3"@ {
        Some(DeviceButton::R3)
    } else if name == "l4"@ {
        Some(DeviceButton::L4)
    } else if name == "l5"@ {
        Some(DeviceButton::L5)
    } else if name == "r4"@ {
        Some(DeviceButton::R4)
    } else if name == "r5"@ {
        Some(DeviceButton::R5)
    } else if name == "left_stick_touch"@ {
        Some(DeviceButton::LeftStickTouch)
    } else if name == "right_stick_touch"@ {
        Some(DeviceButton::RightStickTouch)
    } else if name == "left_pad_touch"@ {
        Some(DeviceButton::LeftPadTouch)
    } else if name == "right_pad_touch"@ {
        Some(DeviceButton::RightPadTouch)
    } else if name == "left_grip"@ {
        Some(DeviceButton::LeftGrip)
    } else if name == "right_grip"@ {
        Some(DeviceButton::RightGrip)
    } else {
        None
    }
}

impl DeviceButton {
    /// Parse a button from its command-line name.
    pub fn from_name(s: &str) -> (r: Result<DeviceButton, DeviceError>)
        ensures
            match button_named(s@) {
                Some(b) => r == Ok::<DeviceButton, DeviceError>(b),
                None => r matches Err(DeviceError::InvalidDeviceButton(m)) && m@ == s@,
            },
    {
        if str_eq(s, "dpad_left") {
            return Ok(DeviceButton::DpadLeft);
        }
        if str_eq(s, "dpad_down") {
            return Ok(DeviceButton::DpadDown);
        }
        if str_eq(s, "dpad_right") {
            return Ok(DeviceButton::DpadRight);
        }
        if str_eq(s, "dpad_up") {
            return Ok(DeviceButton::DpadUp);
        }
        if str_eq(s, "start") {
            return Ok(DeviceButton::Start);
        }
        if str_eq(s, "select") {
            return Ok(DeviceButton::Select);
        }
        if str_eq(s, "guide") {
            return Ok(DeviceButton::Guide);
        }
        if str_eq(s, "quaternary") {
            return Ok(DeviceButton::Quaternary);
        }
        if str_eq(s, "a") {
            return Ok(DeviceButton::A);
        }
        if str_eq(s, "b") {
            return Ok(DeviceButton::B);
        }
        if str_eq(s, "x") {
            return Ok(DeviceButton::X);
        }
        if str_eq(s, "y") {
            return Ok(DeviceButton::Y);
        }
        if str_eq(s, "l1") {
            return Ok(DeviceButton::L1);
        }
        if str_eq(s, "r1") {
            return Ok(DeviceButton::R1);
        }
        if str_eq(s, "l2") {
            return Ok(DeviceButton::L2);
        }
        if str_eq(s, "r2") {
            return Ok(DeviceButton::R2);
        }
        if str_eq(s, "l3") {
            return Ok(DeviceButton::L3);
        }
        if str_eq(s, "r3") {
            return Ok(DeviceButton::R3);
        }
        if str_eq(s, "l4") {
            return Ok(DeviceButton::L4);
        }
        if str_eq(s, "l5") {
            return Ok(DeviceButton::L5);
        }
        if str_eq(s, "r4") {
            return Ok(DeviceButton::R4);
        }
        if str_eq(s, "r5") {
            return Ok(DeviceButton::R5);
        }
        if str_eq(s, "left_stick_touch") {
            return Ok(DeviceButton::LeftStickTouch);
        }
        if str_eq(s, "right_stick_touch") {
            return Ok(DeviceButton::RightStickTouch);
        }
        if str_eq(s, "left_pad_touch") {
            return Ok(DeviceButton::LeftPadTouch);
        }
        if str_eq(s, "right_pad_touch") {
            return Ok(DeviceButton::RightPadTouch);
        }
        if str_eq(s, "left_grip") {
            return Ok(DeviceButton::LeftGrip);
        }
        if str_eq(s, "right_grip") {
            return Ok(DeviceButton::RightGrip);
        }
        Err(DeviceError::InvalidDeviceButton(s.to_owned()))
    }

    /// The command-line name of the button.
    pub fn as_str(&self) -> (r: &'static str)
        ensures
            r@ == button_name(*self),
    {
        match self {
            DeviceButton::DpadLeft => "dpad_left",
            DeviceButton::DpadDown => "dpad_down",
            DeviceButton::DpadRight => "dpad_right",
            DeviceButton::DpadUp => "dpad_up",
            DeviceButton::Start => "start",
            DeviceButton::Select => "select",
            DeviceButton::Guide => "guide",
            DeviceButton::Quaternary => "quaternary",
            DeviceButton::A => "a",
            DeviceButton::B => "b",
            DeviceButton::X => "x",
            DeviceButton::Y => "y",
            DeviceButton::L1 => "l1",
            DeviceButton::R1 => "r1",
            DeviceButton::L2 => "l2",
            DeviceButton::R2 => "r2",
            DeviceButton::L3 => "l3",
            DeviceButton::R3 => "r3",
            DeviceButton::L4 => "l4",
            DeviceButton::L5 => "l5",
            DeviceButton::R4 => "r4",
            DeviceButton::R5 => "r5",
            DeviceButton::LeftStickTouch => "left_stick_touch",
            DeviceButton::RightStickTouch => "right_stick_touch",
            DeviceButton::LeftPadTouch => "left_pad_touch",
            DeviceButton::RightPadTouch => "right_pad_touch",
            DeviceButton::LeftGrip => "left_grip",
            DeviceButton::RightGrip => "right_grip",
            DeviceButton::Unknown => "unknown",
        }
    }
}

impl core::str::FromStr for DeviceButton {
    type Err = DeviceError;

    fn from_str(s: &str) -> (r: Result<Self, Self::Err>)
        ensures
            match button_named(s@) {
                Some(b) => r == Ok::<DeviceButton, DeviceError>(b),
                None => r matches Err(DeviceError::InvalidDeviceButton(m)) && m@ == s@,
            },
    {
        DeviceButton::from_name(s)
    }
}

/// Gyro activation toggle mode.
///
/// Any => At least one button must be pressed to activate gyro.
///
/// All => All buttons must be pressed to activate gyro.
#[derive(Debug, Clone, PartialEq, Eq, Structural)]
pub enum GyroActivationMode {
    Any,
    All,
}

impl Default for GyroActivationMode {
    fn default() -> (r: Self)
        ensures
            r == GyroActivationMode::Any,
    {
        GyroActivationMode::Any
    }
}

/// The name of each gyro activation mode.
pub open spec fn mode_name(m: GyroActivationMode) -> Seq<char> {
    match m {
        GyroActivationMode::Any => "any"@,
        GyroActivationMode::All => "all"@,
    }
}

/// The gyro activation mode a name selects, if any.
pub open spec fn mode_named(name: Seq<char>) -> Option<GyroActivationMode> {
    if name == "any"@ {
        Some(GyroActivationMode::Any)
    } else if name == "all"@ {
        Some(GyroActivationMode::All)
    } else {
        None
    }
}

impl GyroActivationMode {
    /// Parse a gyro activation mode from its command-line name.
    pub fn from_name(s: &str) -> (r: Result<GyroActivationMode, DeviceError>)
        ensures
            match mode_named(s@) {
                Some(m) => r == Ok::<GyroActivationMode, DeviceError>(m),
                None => r matches Err(DeviceError::InvalidGyroActivationMode(e)) && e@ == s@,
            },
    {
        if str_eq(s, "any") {
            Ok(GyroActivationMode::Any)
        } else if str_eq(s, "all") {
            Ok(GyroActivationMode::All)
        } else {
            Err(DeviceError::InvalidGyroActivationMode(s.to_owned()))
        }
    }

    /// The command-line name of the mode.
    pub fn as_str(&self) -> (r: &'static str)
        ensures
            r@ == mode_name(*self),
    {
        match self {
            GyroActivationMode::Any => "any",
            GyroActivationMode::All => "all",
        }
    }
}

impl core::str::FromStr for GyroActivationMode {
    type Err = DeviceError;

    fn from_str(s: &str) -> (r: Result<Self, Self::Err>)
        ensures
            match mode_named(s@) {
                Some(m) => r == Ok::<GyroActivationMode, DeviceError>(m),
                None => r matches Err(DeviceError::InvalidGyroActivationMode(e)) && e@ == s@,
            },
    {
        GyroActivationMode::from_name(s)
    }
}

/// Device configuration.
///
/// Defines configurable behavior within device adapters themselves.
///
/// For configuration affecting the behavior of the DSU server,
/// see [`ServerConfig`](crate::server::ServerConfig)
#[derive(Debug, Clone)]
pub struct DeviceConfig {
    /// Don't enable lizard mode when the device is dropped (Triton)
    pub no_enable_lizard_mode_on_close: bool,
    /// Inputs that must be pressed to send gyro data through the DSU server.
    pub gyro_activation_inputs: Vec<DeviceButton>,
    /// See [`GyroActivationMode`]
    pub gyro_activation_mode: GyroActivationMode,
}

impl Default for DeviceConfig {
    fn default() -> (r: Self)
        ensures
            !r.no_enable_lizard_mode_on_close,
            r.gyro_activation_inputs@.len() == 0,
            r.gyro_activation_mode == GyroActivationMode::Any,
    {
        DeviceConfig {
            no_enable_lizard_mode_on_close: false,
            gyro_activation_inputs: Vec::new(),
            gyro_activation_mode: GyroActivationMode::Any,
        }
    }
}

/// The length, first and last character of a name: no two button names share all three.
spec fn name_sig(s: Seq<char>) -> (nat, char, char) {
    (s.len(), s[0], s[s.len() - 1])
}

/// Parsing the name of a button gives the button back, for every button but `Unknown`,
/// whose name no parse accepts.
pub proof fn lemma_button_name_round_trip(b: DeviceButton)
    ensures
        button_named(button_name(b)) == (if b == DeviceButton::Unknown {
            None
        } else {
            Some(b)
        }),
{
    reveal_strlit("dpad_left");
    assert(name_sig("dpad_left"@) == (9nat, 'd', 't'));
    reveal_strlit("dpad_down");
    assert(name_sig("dpad_down"@) == (9nat, 'd', 'n'));
    reveal_strlit("dpad_right");
    assert(name_sig("dpad_right"@) == (10nat, 'd', 't'));
    reveal_strlit("dpad_up");
    assert(name_sig("dpad_up"@) == (7nat, 'd', 'p'));
    reveal_strlit("start");
    assert(name_sig("start"@) == (5nat, 's', 't'));
    reveal_strlit("select");
    assert(name_sig("select"@) == (6nat, 's', 't'));
    reveal_strlit("guide");
    assert(name_sig("guide"@) == (5nat, 'g', 'e'));
    reveal_strlit("quaternary");
    assert(name_sig("quaternary"@) == (10nat, 'q', 'y'));
    reveal_strlit("a");
    assert(name_sig("a"@) == (1nat, 'a', 'a'));
    reveal_strlit("b");
    assert(name_sig("b"@) == (1nat, 'b', 'b'));
    reveal_strlit("x");
    assert(name_sig("x"@) == (1nat, 'x', 'x'));
    reveal_strlit("y");
    assert(name_sig("y"@) == (1nat, 'y', 'y'));
    reveal_strlit("l1");
    assert(name_sig("l1"@) == (2nat, 'l', '1'));
    reveal_strlit("r1");
    assert(name_sig("r1"@) == (2nat, 'r', '1'));
    reveal_strlit("l2");
    assert(name_sig("l2"@) == (2nat, 'l', '2'));
    reveal_strlit("r2");
    assert(name_sig("r2"@) == (2nat, 'r', '2'));
    reveal_strlit("l3");
    assert(name_sig("l3"@) == (2nat, 'l', '3'));
    reveal_strlit("r3");
    assert(name_sig("r3"@) == (2nat, 'r', '3'));
    reveal_strlit("l4");
    assert(name_sig("l4"@) == (2nat, 'l', '4'));
    reveal_strlit("l5");
    assert(name_sig("l5"@) == (2nat, 'l', '5'));
    reveal_strlit("r4");
    assert(name_sig("r4"@) == (2nat, 'r', '4'));
    reveal_strlit("r5");
    assert(name_sig("r5"@) == (2nat, 'r', '5'));
    reveal_strlit("left_stick_touch");
    assert(name_sig("left_stick_touch"@) == (16nat, 'l', 'h'));
    reveal_strlit("right_stick_touch");
    assert(name_sig("right_stick_touch"@) == (17nat, 'r', 'h'));
    reveal_strlit("left_pad_touch");
    assert(name_sig("left_pad_touch"@) == (14nat, 'l', 'h'));
    reveal_strlit("right_pad_touch");
    assert(name_sig("right_pad_touch"@) == (15nat, 'r', 'h'));
    reveal_strlit("left_grip");
    assert(name_sig("left_grip"@) == (9nat, 'l', 'p'));
    reveal_strlit("right_grip");
    assert(name_sig("right_grip"@) == (10nat, 'r', 'p'));
    reveal_strlit("unknown");
    assert(name_sig("unknown"@) == (7nat, 'u', 'n'));
}

/// Parsing the name of a gyro activation mode gives the mode back.
pub proof fn lemma_mode_name_round_trip(m: GyroActivationMode)
    ensures
        mode_named(mode_name(m)) == Some(m),
{
    reveal_strlit("any");
    reveal_strlit("all");
    assert("any"@[1] != "all"@[1]);
}

} // verus!
