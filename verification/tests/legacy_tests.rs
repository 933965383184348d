use steam_controller_dsu::devices::legacy::{
    self, connection_mode_from_pid, frame_for_config, gyro_enabled, is_device_button_pressed,
    supports_interface, to_dsu_frame, ConnectionMode, LegacyFrame, REPORT_ID_STATE,
};
use steam_controller_dsu::devices::{DeviceButton, DeviceConfig, GyroActivationMode};
use steam_controller_dsu::errors::DeviceError;
use steam_controller_dsu::protocol::Motion;

#[test]
fn parses_legacy_state_packet() {
    let mut data = [0u8; 64];
    data[0] = REPORT_ID_STATE;
    data[8] = 0x80;
    data[9] = 0x13;
    data[10] = 0x08;
    data[11] = 0x40;
    data[12] = 0x20;
    data[20] = 0x34;
    data[21] = 0x12;
    data[22] = 0x78;
    data[23] = 0x56;
    data[28] = 0x11;
    data[29] = 0x22;
    data[30] = 0x33;
    data[31] = 0x44;
    data[32] = 0x55;
    data[33] = 0x66;
    data[34] = 0x77;
    data[35] = 0x88;
    data[36] = 0x99;
    data[37] = 0xAA;
    data[38] = 0xBB;
    data[39] = 0xCC;
    data[54] = 0x01;
    data[55] = 0x02;
    data[56] = 0x03;
    data[57] = 0x04;

    let frame = LegacyFrame::parse(&data).expect("frame");
    assert_eq!(frame.trigger_left, 0x40);
    assert_eq!(frame.trigger_right, 0x20);
    assert_eq!(frame.left_stick_x, i16::from_le_bytes([0x01, 0x02]));
    assert_eq!(frame.right_pad_x, i16::from_le_bytes([0x34, 0x12]));
    assert!(frame.left_pad_touch);
}

fn state_report() -> [u8; 64] {
    let mut data = [0u8; 64];
    data[0] = REPORT_ID_STATE;
    data
}

#[test]
fn legacy_parse_rejects_other_reports() {
    assert!(LegacyFrame::parse(&[]).is_none());
    let mut data = state_report();
    data[0] = 0x02;
    assert!(LegacyFrame::parse(&data).is_none());
    let data = state_report();
    assert!(LegacyFrame::parse(&data[..63]).is_none());
    assert!(LegacyFrame::parse(&data).is_some());
}

#[test]
fn legacy_parse_reads_all_fields() {
    let mut data = state_report();
    data[4..8].copy_from_slice(&0x0102_0304u32.to_le_bytes());
    data[8] = 0x80; // A
    data[9] = 0x01; // dpad up
    data[10] = 0x41; // right grip + left stick click
    data[30..32].copy_from_slice(&(-2i16).to_le_bytes());
    data[38..40].copy_from_slice(&(-300i16).to_le_bytes());
    let f = LegacyFrame::parse(&data).unwrap();
    assert_eq!(f.imu_timestamp, 0x0102_0304);
    assert_eq!(f.buttons, 0x41_0180);
    assert_eq!(f.accel_y, -2);
    assert_eq!(f.gyro_z, -300);
    assert!(f.right_grip);
    assert!(f.left_stick_click);
    assert!(!f.left_grip);
    assert!(!f.left_pad_touch);
    assert!(!f.right_pad_touch);
    assert!(!f.right_pad_click);
}

fn motion() -> Motion {
    Motion {
        accel_x: 1.0f32.to_bits(),
        accel_y: (-2.0f32).to_bits(),
        accel_z: 0.5f32.to_bits(),
        gyro_x: 3.0f32.to_bits(),
        gyro_y: 4.0f32.to_bits(),
        gyro_z: 5.0f32.to_bits(),
    }
}

fn frame_with(buttons: u64, trigger_left: u8, trigger_right: u8) -> LegacyFrame {
    let mut data = state_report();
    data[8] = (buttons & 0xFF) as u8;
    data[9] = ((buttons >> 8) & 0xFF) as u8;
    data[10] = ((buttons >> 16) & 0xFF) as u8;
    data[11] = trigger_left;
    data[12] = trigger_right;
    LegacyFrame::parse(&data).unwrap()
}

#[test]
fn legacy_dsu_frame_maps_buttons_and_triggers() {
    let f = frame_with(legacy::MASK_A as u64 | legacy::MASK_START as u64 | legacy::MASK_GUIDE as u64, 0xFF, 0x10);
    let d = to_dsu_frame(&f, false, &motion());
    assert!(d.a && d.options && d.home);
    assert!(!d.b && !d.x && !d.y && !d.share && !d.touch);
    assert_eq!(d.analog_l2, 255);
    assert!(d.l2);
    // (0x10 << 7 | 0x10) = 2064 -> 2064 * 255 / 32767 = 16
    assert_eq!(d.analog_r2, 16);
    assert!(!d.r2);
    assert_eq!(d.left_stick_x, 128);
    assert_eq!(d.accel_y, (-2.0f32).to_bits());
    assert_eq!(d.gyro_z, 5.0f32.to_bits());
}

#[test]
fn legacy_dsu_frame_zeroes_motion_when_gyro_disabled() {
    let f = frame_with(0, 0, 0);
    let d = to_dsu_frame(&f, true, &motion());
    assert_eq!(
        [d.accel_x, d.accel_y, d.accel_z, d.gyro_x, d.gyro_y, d.gyro_z],
        [0, 0, 0, 0, 0, 0]
    );
}

#[test]
fn legacy_gyro_activation_any_and_all() {
    let f = frame_with(legacy::MASK_LEFT_GRIP as u64, 0, 0);
    let mut config = DeviceConfig::default();
    assert!(gyro_enabled(&config, &f));
    config.gyro_activation_inputs = vec![DeviceButton::LeftGrip, DeviceButton::RightGrip];
    config.gyro_activation_mode = GyroActivationMode::Any;
    assert!(gyro_enabled(&config, &f));
    config.gyro_activation_mode = GyroActivationMode::All;
    assert!(!gyro_enabled(&config, &f));
    let d = frame_for_config(&config, &f, &motion());
    assert_eq!(d.gyro_x, 0);
    let both = frame_with(legacy::MASK_LEFT_GRIP as u64 | legacy::MASK_RIGHT_GRIP as u64, 0, 0);
    assert!(gyro_enabled(&config, &both));
    let d = frame_for_config(&config, &both, &motion());
    assert_eq!(d.gyro_x, 3.0f32.to_bits());
}

#[test]
fn legacy_buttons_it_lacks_are_never_pressed() {
    let f = frame_with(0xFF_FFFF, 0xFF, 0xFF);
    for b in [DeviceButton::Quaternary, DeviceButton::L4, DeviceButton::R5, DeviceButton::LeftStickTouch, DeviceButton::Unknown] {
        assert!(!is_device_button_pressed(&b, &f));
    }
    assert!(is_device_button_pressed(&DeviceButton::L2, &f));
    assert!(is_device_button_pressed(&DeviceButton::LeftPadTouch, &f));
}

#[test]
fn legacy_connection_and_interfaces() {
    assert_eq!(connection_mode_from_pid(legacy::PID_WIRELESS), ConnectionMode::Wireless);
    assert_eq!(connection_mode_from_pid(legacy::PID_WIRED), ConnectionMode::Usb);
    assert_eq!(connection_mode_from_pid(0), ConnectionMode::Usb);
    assert!(!supports_interface(0));
    assert!(supports_interface(1));
    assert!(supports_interface(2));
    assert!(supports_interface(4));
    assert!(!supports_interface(5));
}

#[test]
fn legacy_decode_read_errors() {
    let buf = state_report();
    assert!(matches!(legacy::decode_read(&buf, 0), Err(DeviceError::ShortRead(0, 1))));
    assert!(matches!(legacy::decode_read(&buf, 10), Err(DeviceError::InvalidReport(1))));
    assert!(legacy::decode_read(&buf, 64).is_ok());
}
