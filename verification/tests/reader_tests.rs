use steam_controller_dsu::dsu::DSUFrame;
use steam_controller_dsu::errors::DeviceError;
use steam_controller_dsu::reader::{
    f32_bits_eq, read_step, FrameState, DISCONNECT_THRESHOLD, FROZEN_DETECT_THRESHOLD,
};

fn frame(gx: f32) -> DSUFrame {
    DSUFrame {
        dpad_left: false,
        dpad_down: false,
        dpad_right: false,
        dpad_up: false,
        options: false,
        r3: false,
        l3: false,
        share: false,
        y: false,
        b: false,
        a: true,
        x: false,
        r1: false,
        l1: false,
        r2: false,
        l2: false,
        home: false,
        touch: false,
        left_stick_x: 128,
        left_stick_y: 128,
        right_stick_x: 128,
        right_stick_y: 128,
        analog_r2: 0,
        analog_l2: 0,
        accel_x: 0.1f32.to_bits(),
        accel_y: (-0.0f32).to_bits(),
        accel_z: 1.0f32.to_bits(),
        gyro_x: gx.to_bits(),
        gyro_y: 0.0f32.to_bits(),
        gyro_z: 0.0f32.to_bits(),
    }
}

#[test]
fn f32_bits_eq_is_float_equality() {
    let values = [0.0f32, -0.0, 1.0, -1.0, f32::NAN, f32::INFINITY, f32::NEG_INFINITY, 1e-40];
    for a in values {
        for b in values {
            assert_eq!(f32_bits_eq(a.to_bits(), b.to_bits()), a == b, "{a} {b}");
        }
    }
}

#[test]
fn fresh_frames_pass_through() {
    let mut s = FrameState::new();
    let a = read_step(&mut s, Ok(frame(1.0)), 0);
    assert!(a.keep_reading && !a.reinitialize);
    assert_eq!(a.send.unwrap().gyro_x, 1.0f32.to_bits());
    let a = read_step(&mut s, Ok(frame(2.0)), 10);
    assert_eq!(a.send.unwrap().gyro_x, 2.0f32.to_bits());
    assert_eq!(s.frozen_count, 0);
    assert_eq!(s.total_frames, 2);
}

#[test]
fn frozen_imu_is_zeroed_and_reinitialized_once_per_second() {
    let mut s = FrameState::new();
    read_step(&mut s, Ok(frame(1.0)), 0);
    let mut reinits = Vec::new();
    for i in 1..=(FROZEN_DETECT_THRESHOLD as u64 + 150) {
        let now = i * 10;
        let a = read_step(&mut s, Ok(frame(1.0)), now);
        let sent = a.send.unwrap();
        assert_eq!(sent.gyro_x, 0);
        assert_eq!(sent.accel_z, 0);
        assert!(sent.a);
        if a.reinitialize {
            reinits.push(now);
        }
    }
    // Frozen from the second frame on; the 100th frozen frame (at 1000 ms) triggers the first
    // re-initialization, the next one is due 1000 ms later.
    assert_eq!(reinits, vec![1000, 2000]);
    assert_eq!(s.frozen_count, FROZEN_DETECT_THRESHOLD + 150);
    // A changed reading clears the frozen state.
    let a = read_step(&mut s, Ok(frame(3.0)), 3000);
    assert_eq!(a.send.unwrap().gyro_x, 3.0f32.to_bits());
    assert_eq!(s.frozen_count, 0);
    assert!(s.last_init_attempt.is_none());
}

#[test]
fn consecutive_failures_stop_the_reader() {
    let mut s = FrameState::new();
    for i in 1..DISCONNECT_THRESHOLD {
        let a = read_step(&mut s, Err(DeviceError::ShortRead(0, 1)), 0);
        assert!(a.keep_reading, "failure {i}");
        assert!(a.send.is_none());
    }
    // An invalid report resets the count.
    let a = read_step(&mut s, Err(DeviceError::InvalidReport(7)), 0);
    assert!(a.keep_reading);
    assert_eq!(s.fail_count, 0);
    for _ in 1..DISCONNECT_THRESHOLD {
        assert!(read_step(&mut s, Err(DeviceError::NoDeviceFound), 0).keep_reading);
    }
    let a = read_step(&mut s, Err(DeviceError::NoDeviceFound), 0);
    assert!(!a.keep_reading);
    assert_eq!(s.fail_count, DISCONNECT_THRESHOLD);
}
