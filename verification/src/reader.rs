//! The reader's decisions: detecting frozen IMU data, when to re-initialize the device, and
//! when the controller counts as disconnected.
//!
//! The caller performs the reads, the re-initializations and the sends; [`read_step`] decides
//! from each read's outcome what to do next.

use vstd::prelude::*;

use crate::dsu::DSUFrame;
use crate::errors::DeviceError;

verus! {

/// Number of identical IMU frames before the IMU counts as frozen.
/// At 100 Hz this is 1 second.
pub const FROZEN_DETECT_THRESHOLD: usize = 100;

/// Retry interval, in milliseconds, for re-initializing the device while the IMU is frozen.
pub const REINIT_RETRY_INTERVAL_MS: u64 = 1000;

/// Number of consecutive failed reads before assuming disconnect.
/// At 100Hz this is ~1 second of no data.
pub const DISCONNECT_THRESHOLD: usize = 100;

/// The single-precision value with bits `b` is a NaN: all exponent bits set, mantissa not zero.
pub open spec fn is_nan_spec(b: u32) -> bool {
    (b / 0x80_0000) % 256 == 255 && b % 0x80_0000 != 0
}

/// IEEE-754 equality of the single-precision values with bits `a` and `b`: no NaN equals
/// anything, +0 equals -0, and otherwise the bits must be equal.
pub open spec fn f32_eq_spec(a: u32, b: u32) -> bool {
    !is_nan_spec(a) && !is_nan_spec(b) && (a == b || (a % 0x8000_0000 == 0 && b % 0x8000_0000
        == 0))
}

/// Test whether a single-precision value, given by its bits, is a NaN.
pub fn is_nan_bits(b: u32) -> (r: bool)
    ensures
        r == is_nan_spec(b),
{
    (b / 0x80_0000) % 256 == 255 && b % 0x80_0000 != 0
}

/// Compare two single-precision values, given by their bits, as `==` on `f32` does.
pub fn f32_bits_eq(a: u32, b: u32) -> (r: bool)
    ensures
        r == f32_eq_spec(a, b),
{
    !is_nan_bits(a) && !is_nan_bits(b) && (a == b || (a % 0x8000_0000 == 0 && b % 0x8000_0000
        == 0))
}

/// The IMU data of `frame` repeats that of the previous frame exactly.
pub open spec fn imu_frozen_spec(prev: Option<DSUFrame>, frame: DSUFrame) -> bool {
    match prev {
        Some(p) => f32_eq_spec(frame.accel_x, p.accel_x) && f32_eq_spec(frame.accel_y, p.accel_y)
            && f32_eq_spec(frame.accel_z, p.accel_z) && f32_eq_spec(frame.gyro_x, p.gyro_x)
            && f32_eq_spec(frame.gyro_y, p.gyro_y) && f32_eq_spec(frame.gyro_z, p.gyro_z),
        None => false,
    }
}

/// `frame` with all motion values set to zero.
pub open spec fn without_motion(frame: DSUFrame) -> DSUFrame {
    DSUFrame {
        accel_x: 0,
        accel_y: 0,
        accel_z: 0,
        gyro_x: 0,
        gyro_y: 0,
        gyro_z: 0,
        ..frame
    }
}

/// A re-initialization is due at `now_ms`: none was tried yet, or the last try is at least the
/// retry interval ago.
pub open spec fn retry_due(last_attempt_ms: Option<u64>, now_ms: u64) -> bool {
    match last_attempt_ms {
        Some(t) => now_ms >= t && now_ms - t >= REINIT_RETRY_INTERVAL_MS,
        None => true,
    }
}

/// What the reader keeps between reads.
#[derive(Debug, Clone, Copy)]
pub struct FrameState {
    /// Consecutive frames whose IMU data repeated the previous frame's.
    pub frozen_count: usize,
    /// Frames read so far.
    pub total_frames: usize,
    /// The last frame read.
    pub prev_frame: Option<DSUFrame>,
    /// Consecutive failed reads.
    pub fail_count: usize,
    /// When (in milliseconds on the caller's monotonic clock) a re-initialization was last
    /// tried while the IMU was frozen.
    pub last_init_attempt: Option<u64>,
}

impl FrameState {
    /// The state before the first read.
    pub fn new() -> (s: Self)
        ensures
            s.frozen_count == 0,
            s.total_frames == 0,
            s.prev_frame is None,
            s.fail_count == 0,
            s.last_init_attempt is None,
    {
        FrameState {
            frozen_count: 0,
            total_frames: 0,
            prev_frame: None,
            fail_count: 0,
            last_init_attempt: None,
        }
    }
}

/// What the caller does after a read.
#[derive(Debug, Clone, Copy)]
pub struct ReaderAction {
    /// Re-initialize the device (before sending).
    pub reinitialize: bool,
    /// The frame to send to the server, if any; the reader stops when the send fails.
    pub send: Option<DSUFrame>,
    /// Whether to read another frame.
    pub keep_reading: bool,
}

/// `frame` with its motion values set to zero.
fn zero_motion(frame: DSUFrame) -> (r: DSUFrame)
    ensures
        r == without_motion(frame),
{
    DSUFrame { accel_x: 0, accel_y: 0, accel_z: 0, gyro_x: 0, gyro_y: 0, gyro_z: 0, ..frame }
}

/// Whether the IMU data of `frame` repeats that of `prev` exactly.
pub fn imu_frozen(prev: &Option<DSUFrame>, frame: &DSUFrame) -> (r: bool)
    ensures
        r == imu_frozen_spec(*prev, *frame),
{
    match prev {
        Some(p) => f32_bits_eq(frame.accel_x, p.accel_x) && f32_bits_eq(frame.accel_y, p.accel_y)
            && f32_bits_eq(frame.accel_z, p.accel_z) && f32_bits_eq(frame.gyro_x, p.gyro_x)
            && f32_bits_eq(frame.gyro_y, p.gyro_y) && f32_bits_eq(frame.gyro_z, p.gyro_z),
        None => false,
    }
}

/// Decide what follows a read whose outcome is `outcome`, at `now_ms` on the caller's
/// monotonic clock, and update the reader's state.
///
/// A frame whose IMU data repeats the previous frame's is sent with its motion zeroed so that
/// clients do not drift on stale values; once the IMU has been frozen for
/// [`FROZEN_DETECT_THRESHOLD`] frames a re-initialization is requested, at most once per
/// [`REINIT_RETRY_INTERVAL_MS`]. A short read or another read error counts as a failure, an
/// invalid report resets the failure count; reading stops after [`DISCONNECT_THRESHOLD`]
/// consecutive failures.
pub fn read_step(state: &mut FrameState, outcome: Result<DSUFrame, DeviceError>, now_ms: u64) -> (a:
    ReaderAction)
    requires
        old(state).total_frames < usize::MAX,
        old(state).frozen_count < usize::MAX,
        old(state).fail_count < usize::MAX,
    ensures
        match outcome {
            Ok(frame) => {
                let frozen = imu_frozen_spec(old(state).prev_frame, frame);
                &&& final(state).fail_count == 0
                &&& final(state).total_frames == old(state).total_frames + 1
                &&& final(state).prev_frame == Some(frame)
                &&& a.keep_reading
                &&& frozen ==> {
                    &&& final(state).frozen_count == old(state).frozen_count + 1
                    &&& a.send == Some(without_motion(frame))
                    &&& a.reinitialize == (final(state).frozen_count >= FROZEN_DETECT_THRESHOLD
                        && retry_due(old(state).last_init_attempt, now_ms))
                    &&& final(state).last_init_attempt == if a.reinitialize {
                        Some(now_ms)
                    } else {
                        old(state).last_init_attempt
                    }
                }
                &&& !frozen ==> {
                    &&& final(state).frozen_count == 0
                    &&& a.send == Some(frame)
                    &&& !a.reinitialize
                    &&& final(state).last_init_attempt is None
                }
            },
            Err(e) => {
                &&& final(state).fail_count == if e is InvalidReport {
                    0
                } else {
                    old(state).fail_count + 1
                }
                &&& final(state).total_frames == old(state).total_frames
                &&& final(state).frozen_count == old(state).frozen_count
                &&& final(state).prev_frame == old(state).prev_frame
                &&& final(state).last_init_attempt == old(state).last_init_attempt
                &&& a.send is None
                &&& !a.reinitialize
                &&& a.keep_reading == (final(state).fail_count < DISCONNECT_THRESHOLD)
            },
        },
{
    match outcome {
        Ok(frame) => {
            state.fail_count = 0;
            state.total_frames = state.total_frames + 1;
            // Steam disables the IMU on its devices by freezing the data.
            let is_imu_frozen = imu_frozen(&state.prev_frame, &frame);
            let mut frame_to_send = frame;
            let mut reinitialize = false;
            if is_imu_frozen {
                state.frozen_count = state.frozen_count + 1;
                if state.frozen_count >= FROZEN_DETECT_THRESHOLD {
                    let should_try = match state.last_init_attempt {
                        Some(t) => now_ms >= t && now_ms - t >= REINIT_RETRY_INTERVAL_MS,
                        None => true,
                    };
                    if should_try {
                        state.last_init_attempt = Some(now_ms);
                        reinitialize = true;
                    }
                }
                // Zero out motion data so clients don't drift on stale values.
                frame_to_send = zero_motion(frame);
            } else {
                state.frozen_count = 0;
                state.last_init_attempt = None;
            }
            state.prev_frame = Some(frame);
            ReaderAction { reinitialize, send: Some(frame_to_send), keep_reading: true }
        },
        Err(e) => {
            match e {
                DeviceError::InvalidReport(_) => {
                    state.fail_count = 0;
                },
                _ => {
                    state.fail_count = state.fail_count + 1;
                },
            }
            ReaderAction {
                reinitialize: false,
                send: None,
                keep_reading: state.fail_count < DISCONNECT_THRESHOLD,
            }
        },
    }
}

} // verus!
