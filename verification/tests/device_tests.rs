use steam_controller_dsu::devices::{DeviceButton, DeviceConfig, GyroActivationMode};
use steam_controller_dsu::errors::DeviceError;

const ALL_BUTTONS: [DeviceButton; 28] = [
    DeviceButton::DpadLeft,
    DeviceButton::DpadDown,
    DeviceButton::DpadRight,
    DeviceButton::DpadUp,
    DeviceButton::Start,
    DeviceButton::Select,
    DeviceButton::Guide,
    DeviceButton::Quaternary,
    DeviceButton::A,
    DeviceButton::B,
    DeviceButton::X,
    DeviceButton::Y,
    DeviceButton::L1,
    DeviceButton::R1,
    DeviceButton::L2,
    DeviceButton::R2,
    DeviceButton::L3,
    DeviceButton::R3,
    DeviceButton::L4,
    DeviceButton::L5,
    DeviceButton::R4,
    DeviceButton::R5,
    DeviceButton::LeftStickTouch,
    DeviceButton::RightStickTouch,
    DeviceButton::LeftPadTouch,
    DeviceButton::RightPadTouch,
    DeviceButton::LeftGrip,
    DeviceButton::RightGrip,
];

#[test]
fn button_names_round_trip() {
    for b in ALL_BUTTONS.iter() {
        let parsed = DeviceButton::from_name(b.as_str()).expect("known name");
        assert_eq!(&parsed, b);
        let via_trait: DeviceButton = b.as_str().parse().unwrap();
        assert_eq!(&via_trait, b);
    }
    assert_eq!(DeviceButton::Unknown.as_str(), "unknown");
}

#[test]
fn button_names_as_documented() {
    assert_eq!(DeviceButton::from_name("left_grip").unwrap(), DeviceButton::LeftGrip);
    assert_eq!(DeviceButton::from_name("dpad_up").unwrap(), DeviceButton::DpadUp);
    assert_eq!(DeviceButton::RightStickTouch.as_str(), "right_stick_touch");
}

#[test]
fn unknown_button_names_are_rejected() {
    for name in ["unknown", "", "A", "left grip", "l6"] {
        match DeviceButton::from_name(name) {
            Err(DeviceError::InvalidDeviceButton(s)) => assert_eq!(s, name),
            other => panic!("unexpected {other:?}"),
        }
    }
}

#[test]
fn gyro_activation_mode_names() {
    assert_eq!(GyroActivationMode::from_name("any").unwrap(), GyroActivationMode::Any);
    assert_eq!(GyroActivationMode::from_name("all").unwrap(), GyroActivationMode::All);
    let parsed: GyroActivationMode = "all".parse().unwrap();
    assert_eq!(parsed, GyroActivationMode::All);
    assert_eq!(GyroActivationMode::Any.as_str(), "any");
    assert_eq!(GyroActivationMode::All.as_str(), "all");
    match GyroActivationMode::from_name("some") {
        Err(DeviceError::InvalidGyroActivationMode(s)) => assert_eq!(s, "some"),
        other => panic!("unexpected {other:?}"),
    }
    assert_eq!(GyroActivationMode::default(), GyroActivationMode::Any);
}

#[test]
fn device_config_default() {
    let c = DeviceConfig::default();
    assert!(!c.no_enable_lizard_mode_on_close);
    assert!(c.gyro_activation_inputs.is_empty());
    assert_eq!(c.gyro_activation_mode, GyroActivationMode::Any);
}
