use steam_controller_dsu::devices::hid::{
    probe_report, select_by_path, setting_report, with_paths, HidDeviceRecord,
    SETTING_IMU_MODE, IMU_MODE_GYRO_ACCEL,
};
use steam_controller_dsu::devices::triton::{
    self, candidates, connection_mode_from_pid, to_dsu_frame, ConnectionMode, TritonFrame,
};
use steam_controller_dsu::errors::DeviceError;
use steam_controller_dsu::protocol::Motion;

fn report(id: u8) -> [u8; 64] {
    let mut d = [0u8; 64];
    d[0] = id;
    d
}

#[test]
fn triton_parse_fields() {
    let mut d = report(0x42);
    d[2..6].copy_from_slice(&(triton::MASK_A | triton::MASK_STEAM).to_le_bytes());
    d[6..8].copy_from_slice(&32767u16.to_le_bytes());
    d[8..10].copy_from_slice(&100u16.to_le_bytes());
    d[10..12].copy_from_slice(&(-32768i16).to_le_bytes());
    d[16..18].copy_from_slice(&1234i16.to_le_bytes());
    d[30..34].copy_from_slice(&0xDEADBEEFu32.to_le_bytes());
    d[34..36].copy_from_slice(&(-16384i16).to_le_bytes());
    d[44..46].copy_from_slice(&(-7i16).to_le_bytes());
    let f = TritonFrame::parse(&d[..46]).unwrap();
    assert_eq!(f.buttons, triton::MASK_A | triton::MASK_STEAM);
    assert_eq!(f.trigger_left, 32767);
    assert_eq!(f.trigger_right, 100);
    assert_eq!(f.left_stick_x, -32768);
    assert_eq!(f.right_stick_y, 1234);
    assert_eq!(f.imu_timestamp, 0xDEADBEEF);
    assert_eq!(f.accel_x, -16384);
    assert_eq!(f.gyro_z, -7);
    let ble = {
        let mut b = d;
        b[0] = 0x45;
        b
    };
    assert_eq!(TritonFrame::parse(&ble), Some(f));
}

#[test]
fn triton_parse_rejects() {
    assert_eq!(TritonFrame::parse(&[]), None);
    assert_eq!(TritonFrame::parse(&report(0x01)), None);
    assert_eq!(TritonFrame::parse(&report(0x42)[..45]), None);
}

#[test]
fn triton_dsu_frame() {
    let mut d = report(0x42);
    d[2..6].copy_from_slice(
        &(triton::MASK_DPAD_UP | triton::MASK_VIEW | triton::MASK_L | triton::MASK_QAM).to_le_bytes(),
    );
    d[6..8].copy_from_slice(&32767u16.to_le_bytes());
    d[8..10].copy_from_slice(&0x8000u16.to_le_bytes());
    let f = TritonFrame::parse(&d).unwrap();
    let m = Motion {
        accel_x: 1.0f32.to_bits(),
        accel_y: 2.0f32.to_bits(),
        accel_z: 3.0f32.to_bits(),
        gyro_x: 4.0f32.to_bits(),
        gyro_y: 5.0f32.to_bits(),
        gyro_z: 6.0f32.to_bits(),
    };
    let dsu = to_dsu_frame(&f, &m);
    assert!(dsu.dpad_up && dsu.options && dsu.l1 && dsu.touch);
    assert!(!dsu.a && !dsu.home && !dsu.share && !dsu.r1);
    assert_eq!(dsu.analog_l2, 255);
    assert!(dsu.l2);
    // 0x8000 read as a signed trigger is negative.
    assert_eq!(dsu.analog_r2, 0);
    assert!(!dsu.r2);
    assert_eq!(dsu.left_stick_x, 128);
    assert_eq!(dsu.gyro_y, 5.0f32.to_bits());
}

#[test]
fn triton_connection_modes() {
    assert_eq!(connection_mode_from_pid(triton::PID_BT), ConnectionMode::Bluetooth);
    assert_eq!(connection_mode_from_pid(triton::PID_WIRED), ConnectionMode::Usb);
    assert_eq!(connection_mode_from_pid(triton::PID_PUCK), ConnectionMode::UsbPuck);
    assert_eq!(connection_mode_from_pid(0xFFFF), ConnectionMode::Usb);
}

fn rec(pid: u16, usage: u16, path: Option<&str>) -> HidDeviceRecord {
    HidDeviceRecord {
        vendor_id: 0x28de,
        product_id: pid,
        usage_page: usage,
        interface_number: 2,
        path: path.map(|p| p.to_string()),
    }
}

#[test]
fn triton_candidates_and_path_selection() {
    let records = vec![
        rec(0x1304, 0x0001, Some("/dev/hidraw0")),
        rec(0x1304, 0xFF00, Some("/dev/hidraw1")),
        rec(0x1102, 0xFF00, Some("/dev/hidraw2")),
        rec(0x1303, 0xFF01, None),
        rec(0x1302, 0xFF00, Some("/dev/hidraw4")),
    ];
    let c = candidates(&records);
    assert_eq!(c, vec![1, 3, 4]);
    assert_eq!(with_paths(&records, &c), vec![1, 4]);
    assert_eq!(select_by_path(&records, &c, "/dev/hidraw4").unwrap(), 4);
    match select_by_path(&records, &c, "/dev/hidraw2") {
        Err(DeviceError::NoDeviceFoundAtPath(p)) => assert_eq!(p, "/dev/hidraw2"),
        other => panic!("unexpected {other:?}"),
    }
}

#[test]
fn feature_reports() {
    let r = setting_report(SETTING_IMU_MODE, IMU_MODE_GYRO_ACCEL);
    assert_eq!(&r[..6], &[0x01, 0x87, 3, 48, 0x18, 0x00]);
    assert!(r[6..].iter().all(|&b| b == 0));
    let r = setting_report(9, 0x1234);
    assert_eq!(&r[..6], &[0x01, 0x87, 3, 9, 0x34, 0x12]);
    let p = probe_report();
    assert_eq!(&p[..6], &[0x01, 0x87, 3, 9, 0, 0]);
}

#[test]
fn triton_decode_read() {
    let buf = report(0x42);
    assert!(matches!(triton::decode_read(&buf, 0), Err(DeviceError::ShortRead(0, 1))));
    assert!(matches!(triton::decode_read(&buf, 45), Err(DeviceError::InvalidReport(0x42))));
    assert!(triton::decode_read(&buf, 46).is_ok());
}
