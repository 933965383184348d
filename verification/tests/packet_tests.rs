use steam_controller_dsu::dsu::{self, get_bitmask, DSUFrame};
use steam_controller_dsu::protocol::{self, crc32, negate_bits, Motion};

#[test]
fn crc32_matches_the_standard_check_value() {
    assert_eq!(crc32(b"123456789"), 0xCBF4_3926);
    assert_eq!(crc32(&[]), 0);
    assert_eq!(crc32(b"a"), 0xE8B7_BE43);
}

const VERSION_PACKET: [u8; 22] = [
    68, 83, 85, 83, 233, 3, 2, 0, 213, 125, 80, 207, 120, 86, 52, 18, 0, 0, 16, 0, 233, 3,
];

#[test]
fn version_response_bytes() {
    let mut buf = [0xAAu8; 30];
    protocol::write_version_response(&mut buf, 0x1234_5678);
    assert_eq!(&buf[..22], &VERSION_PACKET);
    assert_eq!(&buf[22..], &[0xAA; 8]);
    let mut buf2 = [0u8; 22];
    dsu::write_version_response(&mut buf2, 0x1234_5678);
    assert_eq!(buf2, VERSION_PACKET);
}

#[test]
fn info_response_bytes() {
    let expected: [u8; 32] = [
        68, 83, 85, 83, 233, 3, 16, 0, 63, 228, 177, 5, 7, 0, 0, 0, 1, 0, 16, 0, 2, 2, 2, 1, 0, 0,
        0, 0, 0, 0, 0, 0,
    ];
    let mut buf = [0xFFu8; 40];
    protocol::write_info_response(&mut buf, 2, 7, true);
    assert_eq!(&buf[..32], &expected);
    assert_eq!(&buf[32..], &[0u8; 8]);
    let mut buf2 = [0u8; 32];
    dsu::write_info_response(&mut buf2, 2, 7, true);
    assert_eq!(buf2, expected);
}

#[test]
fn info_response_disconnected_slot_state() {
    let mut buf = [0u8; 32];
    protocol::write_info_response(&mut buf, 3, 7, false);
    assert_eq!(&buf[20..24], &[3, 0, 0, 0]);
    // The checksum covers the packet with its CRC field zeroed.
    let stored = u32::from_le_bytes([buf[8], buf[9], buf[10], buf[11]]);
    buf[8..12].fill(0);
    assert_eq!(crc32(&buf), stored);
}

fn sample_frame(ax: f32, ay: f32, az: f32, gx: f32, gy: f32, gz: f32) -> DSUFrame {
    DSUFrame {
        dpad_left: false,
        dpad_down: false,
        dpad_right: false,
        dpad_up: true,
        options: false,
        r3: false,
        l3: false,
        share: false,
        y: false,
        b: false,
        a: true,
        x: false,
        r1: false,
        l1: false,
        r2: true,
        l2: false,
        home: true,
        touch: false,
        left_stick_x: 10,
        left_stick_y: 20,
        right_stick_x: 30,
        right_stick_y: 40,
        analog_r2: 250,
        analog_l2: 5,
        accel_x: ax.to_bits(),
        accel_y: ay.to_bits(),
        accel_z: az.to_bits(),
        gyro_x: gx.to_bits(),
        gyro_y: gy.to_bits(),
        gyro_z: gz.to_bits(),
    }
}

const DATA_PACKET: [u8; 100] = [
    68, 83, 85, 83, 233, 3, 84, 0, 60, 228, 183, 132, 9, 0, 0, 0, 2, 0, 16, 0, 1, 2, 2, 1, 0, 0, 0,
    0, 0, 0, 0, 1, 3, 0, 0, 0, 16, 34, 1, 0, 10, 20, 30, 40, 0, 0, 0, 255, 0, 0, 255, 0, 0, 0, 250,
    5, 0, 0, 0, 0, 0, 0, 0, 0, 0, 0, 0, 0, 64, 31, 0, 0, 0, 0, 0, 0, 0, 0, 0, 63, 0, 0, 128, 191, 0,
    0, 128, 62, 0, 0, 32, 65, 0, 0, 160, 193, 0, 0, 240, 65,
];

const DATA_PACKET_INVERTED: [u8; 100] = [
    68, 83, 85, 83, 233, 3, 84, 0, 9, 159, 136, 233, 9, 0, 0, 0, 2, 0, 16, 0, 1, 2, 2, 1, 0, 0, 0,
    0, 0, 0, 0, 1, 3, 0, 0, 0, 16, 34, 1, 0, 10, 20, 30, 40, 0, 0, 0, 255, 0, 0, 255, 0, 0, 0, 250,
    5, 0, 0, 0, 0, 0, 0, 0, 0, 0, 0, 0, 0, 64, 31, 0, 0, 0, 0, 0, 0, 0, 0, 0, 63, 0, 0, 128, 63, 0,
    0, 128, 62, 0, 0, 32, 193, 0, 0, 160, 65, 0, 0, 240, 65,
];

#[test]
fn data_event_bytes() {
    let frame = sample_frame(0.5, -1.0, 0.25, 10.0, -20.0, 30.0);
    let mut buf = [0xEEu8; 100];
    dsu::write_data_event(&mut buf, &frame, 3, 9, 1, 8000, false);
    assert_eq!(buf, DATA_PACKET);
}

#[test]
fn data_event_bytes_with_inverted_pitch() {
    let frame = sample_frame(0.5, -1.0, 0.25, 10.0, -20.0, 30.0);
    let mut buf = [0u8; 100];
    dsu::write_data_event(&mut buf, &frame, 3, 9, 1, 8000, true);
    assert_eq!(buf, DATA_PACKET_INVERTED);
    // Same bytes as the frame with Y acceleration, pitch and yaw negated, not inverted.
    let negated = sample_frame(0.5, 1.0, 0.25, -10.0, 20.0, 30.0);
    let mut buf2 = [0u8; 100];
    dsu::write_data_event(&mut buf2, &negated, 3, 9, 1, 8000, false);
    assert_eq!(buf, buf2);
}

#[test]
fn motion_only_data_event_bytes() {
    let expected: [u8; 100] = [
        68, 83, 85, 83, 233, 3, 84, 0, 102, 199, 89, 196, 9, 0, 0, 0, 2, 0, 16, 0, 1, 2, 2, 1, 0,
        0, 0, 0, 0, 0, 0, 1, 3, 0, 0, 0, 0, 0, 0, 0, 0, 0, 0, 0, 0, 0, 0, 0, 0, 0, 0, 0, 0, 0, 0, 0,
        0, 0, 0, 0, 0, 0, 0, 0, 0, 0, 0, 0, 64, 31, 0, 0, 0, 0, 0, 0, 0, 0, 0, 191, 0, 0, 128, 63,
        0, 0, 128, 62, 0, 0, 32, 65, 0, 0, 160, 65, 0, 0, 240, 65,
    ];
    let motion = Motion {
        accel_x: 0.5f32.to_bits(),
        accel_y: (-1.0f32).to_bits(),
        accel_z: 0.25f32.to_bits(),
        gyro_x: 10.0f32.to_bits(),
        gyro_y: (-20.0f32).to_bits(),
        gyro_z: 30.0f32.to_bits(),
    };
    let mut buf = [0u8; 100];
    protocol::write_data_event(&mut buf, &motion, 3, 9, 1, 8000);
    assert_eq!(buf, expected);
}

#[test]
fn negate_bits_is_float_negation() {
    for v in [0.0f32, -0.0, 1.5, -3.25, f32::INFINITY, f32::MIN_POSITIVE, 123456.0] {
        assert_eq!(negate_bits(v.to_bits()), (-v).to_bits());
        assert_eq!(negate_bits(negate_bits(v.to_bits())), v.to_bits());
    }
}

#[test]
fn bitmask_sets_each_listed_bit() {
    assert_eq!(get_bitmask(&[]), 0);
    assert_eq!(get_bitmask(&[(true, 7), (false, 6), (true, 0)]), 0x81);
    assert_eq!(get_bitmask(&[(true, 3), (true, 3)]), 0x08);
    let all: Vec<(bool, u8)> = (0..8).map(|i| (true, i)).collect();
    assert_eq!(get_bitmask(&all), 0xFF);
}

fn with_own_crc(msg: &[u8]) -> Vec<u8> {
    let mut v = msg.to_vec();
    v.extend_from_slice(&crc32(msg).to_le_bytes());
    v
}

#[test]
fn crc32_residue_is_the_same_for_every_message() {
    let r = crc32(&with_own_crc(b"123456789"));
    assert_eq!(r, 0x2144_DF1C);
    assert_eq!(crc32(&with_own_crc(b"")), r);
    assert_eq!(crc32(&with_own_crc(b"DSUS\xe9\x03")), r);
}

#[test]
fn crc32_is_affine_at_a_fixed_length() {
    let a = b"abcdefgh";
    let b = b"12345678";
    let c = b"\x00\xff\x10\x20\x30\x40\x50\x60";
    let x: Vec<u8> = (0..8).map(|i| a[i] ^ b[i] ^ c[i]).collect();
    assert_eq!(crc32(&x), crc32(a) ^ crc32(b) ^ crc32(c));
}

#[test]
fn crc32_detects_every_single_bit_flip() {
    let a = b"CemuHook data event".to_vec();
    let ca = crc32(&a);
    for k in 0..a.len() {
        for j in 0..8 {
            let mut b = a.clone();
            b[k] ^= 1u8 << j;
            assert_ne!(crc32(&b), ca);
        }
    }
}
