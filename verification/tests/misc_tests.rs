use steam_controller_dsu::cli;
use steam_controller_dsu::debug_dump::{pressed_button_names, pressed_dpad_names, summary};
use steam_controller_dsu::devices::hid::HidDeviceRecord;
use steam_controller_dsu::devices::linux_device::{
    self, clear_digital_mappings_command, enable_imu_settings_command, hidiocsfeature,
    load_default_settings_command,
};
use steam_controller_dsu::devices::{DeviceButton, GyroActivationMode};
use steam_controller_dsu::dsu::DSUFrame;
use steam_controller_dsu::errors::DeviceError;
use steam_controller_dsu::frame::TritonFrame;
use steam_controller_dsu::launch;

#[test]
fn ioctl_number_for_64_bytes() {
    assert_eq!(hidiocsfeature(64), 0xC040_4806);
    assert_eq!(hidiocsfeature(0), 0xC000_4806);
}

#[test]
fn imu_enable_commands() {
    let c = clear_digital_mappings_command();
    assert_eq!(&c[..2], &[0x01, 0x81]);
    assert!(c[2..].iter().all(|&b| b == 0));
    let c = load_default_settings_command();
    assert_eq!(&c[..3], &[0x01, 0x8E, 0]);
    assert!(c[3..].iter().all(|&b| b == 0));
    let c = enable_imu_settings_command();
    assert_eq!(&c[..12], &[0x01, 0x87, 9, 0x07, 0x07, 0x00, 0x08, 0x07, 0x00, 0x30, 0x18, 0x00]);
    assert!(c[12..].iter().all(|&b| b == 0));
}

#[test]
fn receiver_candidates_need_exact_usage_page() {
    let rec = |pid: u16, usage: u16| HidDeviceRecord {
        vendor_id: 0x28de,
        product_id: pid,
        usage_page: usage,
        interface_number: 0,
        path: Some("/dev/hidraw0".to_string()),
    };
    let records = vec![rec(0x1304, 0xFF01), rec(0x1304, 0xFF00), rec(0x1302, 0xFF00)];
    assert_eq!(linux_device::candidates(&records), vec![1]);
}

#[test]
fn full_state_report_parse() {
    let mut d = [0u8; 64];
    d[0] = 0x42;
    d[1] = 9;
    d[2..6].copy_from_slice(&0x0102_0304u32.to_le_bytes());
    d[22..24].copy_from_slice(&500u16.to_le_bytes());
    d[34..36].copy_from_slice(&(-2i16).to_le_bytes());
    d[52..54].copy_from_slice(&(-3i16).to_le_bytes());
    let f = TritonFrame::parse(&d[..54]).unwrap();
    assert_eq!(f.seq_num, 9);
    assert_eq!(f.buttons, 0x0102_0304);
    assert_eq!(f.pressure_left, 500);
    assert_eq!(f.accel_x, -2);
    assert_eq!(f.quat_z, -3);
    assert!(TritonFrame::parse(&d[..53]).is_none());
    let mut other = d;
    other[0] = 0x45;
    assert!(TritonFrame::parse(&other).is_none());
    let mut g = f;
    assert!(f.imu_eq(&g));
    g.quat_w = 100;
    g.seq_num = 1;
    assert!(f.imu_eq(&g));
    g.gyro_y = 1;
    assert!(!f.imu_eq(&g));
    assert!(matches!(linux_device::decode_read(&d, 53), Err(DeviceError::ShortRead(53, 54))));
    assert!(matches!(linux_device::decode_read(&other, 54), Err(DeviceError::InvalidReport(0x45))));
    assert!(linux_device::decode_read(&d, 64).is_ok());
}

#[test]
fn cli_plans() {
    let args = cli::Args { debug: false, bind_addr: "0.0.0.0".to_string(), port: 26760, invert_pitch: true };
    match cli::plan(args) {
        cli::Plan::Serve(c) => {
            assert_eq!(c.bind_addr, "0.0.0.0");
            assert_eq!(c.port, 26760);
            assert!(c.invert_y);
        }
        p => panic!("unexpected {p:?}"),
    }
    let args = cli::Args { debug: true, bind_addr: String::new(), port: 1, invert_pitch: false };
    assert!(matches!(cli::plan(args), cli::Plan::DebugDump));
}

fn launch_args(slot: u8, debug: bool) -> launch::Args {
    launch::Args {
        debug,
        bind_addr: "127.0.0.1".to_string(),
        port: 1234,
        invert_pitch: false,
        slot,
        device_path: Some("/dev/hidraw11".to_string()),
        no_enable_lizard_mode_on_close: true,
        gyro_activation_buttons: Vec::new(),
        gyro_activation_mode: GyroActivationMode::Any,
    }
}

#[test]
fn launch_plans() {
    assert!(matches!(launch::plan(launch_args(4, false)), launch::Plan::InvalidSlot(4)));
    match launch::plan(launch_args(3, true)) {
        launch::Plan::DebugDump { device_path, device_config } => {
            assert_eq!(device_path.as_deref(), Some("/dev/hidraw11"));
            assert!(device_config.no_enable_lizard_mode_on_close);
            assert_eq!(device_config.gyro_activation_mode, GyroActivationMode::Any);
        }
        p => panic!("unexpected {p:?}"),
    }
    match launch::plan(launch_args(0, false)) {
        launch::Plan::Serve { config, device_path, device_config } => {
            assert_eq!(config.bind_addr, "127.0.0.1");
            assert_eq!(config.port, 1234);
            assert!(!config.invert_y);
            assert!(device_path.is_some());
            assert!(device_config.gyro_activation_inputs.is_empty());
        }
        p => panic!("unexpected {p:?}"),
    }
}

#[test]
fn launch_carries_gyro_activation_settings() {
    let mut args = launch_args(0, false);
    args.gyro_activation_buttons = vec![DeviceButton::LeftGrip, DeviceButton::RightGrip];
    args.gyro_activation_mode = GyroActivationMode::All;
    match launch::plan(args) {
        launch::Plan::Serve { device_config, .. } => {
            assert_eq!(
                device_config.gyro_activation_inputs,
                vec![DeviceButton::LeftGrip, DeviceButton::RightGrip]
            );
            assert_eq!(device_config.gyro_activation_mode, GyroActivationMode::All);
        }
        p => panic!("unexpected {p:?}"),
    }
    let mut args = launch_args(1, true);
    args.gyro_activation_buttons = vec![DeviceButton::R5];
    match launch::plan(args) {
        launch::Plan::DebugDump { device_config, .. } => {
            assert_eq!(device_config.gyro_activation_inputs, vec![DeviceButton::R5]);
            assert_eq!(device_config.gyro_activation_mode, GyroActivationMode::Any);
        }
        p => panic!("unexpected {p:?}"),
    }
}

#[test]
fn debug_dump_button_names() {
    let f = DSUFrame {
        dpad_left: true,
        dpad_down: false,
        dpad_right: false,
        dpad_up: true,
        options: true,
        r3: false,
        l3: false,
        share: false,
        y: false,
        b: true,
        a: true,
        x: false,
        r1: false,
        l1: false,
        r2: false,
        l2: false,
        home: false,
        touch: true,
        left_stick_x: 0,
        left_stick_y: 0,
        right_stick_x: 0,
        right_stick_y: 0,
        analog_r2: 0,
        analog_l2: 0,
        accel_x: 0,
        accel_y: 0,
        accel_z: 0,
        gyro_x: 0,
        gyro_y: 0,
        gyro_z: 0,
    };
    assert_eq!(pressed_button_names(&f), vec!["A", "B", "Options", "QAM"]);
    assert_eq!(pressed_dpad_names(&f), vec!["Up", "Left"]);
    assert_eq!(summary(&pressed_button_names(&f)), "A B Options QAM");
    assert_eq!(summary(&vec!["Up"]), "Up");
    assert_eq!(summary(&Vec::new()), "none");
}

#[test]
fn full_state_report_round_trip() {
    let f = TritonFrame {
        seq_num: 7,
        buttons: 0xDEAD_BEEF,
        trigger_left: -1,
        trigger_right: 32767,
        left_stick_x: -32768,
        left_stick_y: 12,
        right_stick_x: -300,
        right_stick_y: 300,
        left_pad_x: 1,
        left_pad_y: -2,
        pressure_left: 65535,
        right_pad_x: 3,
        right_pad_y: -4,
        pressure_right: 258,
        imu_timestamp: 0x0102_0304,
        accel_x: -16384,
        accel_y: 16384,
        accel_z: 5,
        gyro_x: -6,
        gyro_y: 7,
        gyro_z: -8,
        quat_w: 9,
        quat_x: -10,
        quat_y: 11,
        quat_z: -12,
    };
    let mut d = vec![0x42u8, f.seq_num];
    d.extend_from_slice(&f.buttons.to_le_bytes());
    for v in [
        f.trigger_left,
        f.trigger_right,
        f.left_stick_x,
        f.left_stick_y,
        f.right_stick_x,
        f.right_stick_y,
        f.left_pad_x,
        f.left_pad_y,
    ] {
        d.extend_from_slice(&v.to_le_bytes());
    }
    d.extend_from_slice(&f.pressure_left.to_le_bytes());
    d.extend_from_slice(&f.right_pad_x.to_le_bytes());
    d.extend_from_slice(&f.right_pad_y.to_le_bytes());
    d.extend_from_slice(&f.pressure_right.to_le_bytes());
    d.extend_from_slice(&f.imu_timestamp.to_le_bytes());
    for v in [
        f.accel_x, f.accel_y, f.accel_z, f.gyro_x, f.gyro_y, f.gyro_z, f.quat_w, f.quat_x,
        f.quat_y, f.quat_z,
    ] {
        d.extend_from_slice(&v.to_le_bytes());
    }
    assert_eq!(d.len(), 54);
    d.extend_from_slice(&[0xAA; 10]);
    assert_eq!(TritonFrame::parse(&d), Some(f));
}
