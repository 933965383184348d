//! DSU (CemuHook) frames and the packets the server sends for them.

use vstd::prelude::*;

use crate::bytes;
use crate::bytes::{push_u32_le, push_u64_le, push_zeros};
use crate::protocol;
use crate::protocol::{negate_bits, push_data_prefix, seal_packet};

verus! {

/// DSU frame representing all controller data sent over the CemuHook protocol.
/// The DSU protocol is described at <https://v1993.github.io/cemuhook-protocol/>.
///
/// The motion fields hold IEEE-754 single-precision bit patterns: acceleration in g and
/// angular rate in degrees per second.
#[derive(Debug, Clone, Copy)]
pub struct DSUFrame {
    pub dpad_left: bool,
    pub dpad_down: bool,
    pub dpad_right: bool,
    pub dpad_up: bool,
    pub options: bool,
    pub r3: bool,
    pub l3: bool,
    pub share: bool,
    pub y: bool,
    pub b: bool,
    pub a: bool,
    pub x: bool,
    pub r1: bool,
    pub l1: bool,
    pub r2: bool,
    pub l2: bool,
    pub home: bool,
    pub touch: bool,
    pub left_stick_x: u8,
    pub left_stick_y: u8,
    pub right_stick_x: u8,
    pub right_stick_y: u8,
    pub analog_r2: u8,
    pub analog_l2: u8,
    pub accel_x: u32,
    pub accel_y: u32,
    pub accel_z: u32,
    pub gyro_x: u32,
    pub gyro_y: u32,
    pub gyro_z: u32,
}

/// The mask with bit `pos` set for every `(on, pos)` pair with `on`.
#[verifier::opaque]
pub open spec fn bitmask_spec(bits: Seq<(bool, u8)>) -> u8
    decreases bits.len(),
{
    if bits.len() == 0 {
        0u8
    } else {
        let m = bitmask_spec(bits.drop_last());
        if bits.last().0 {
            m | (1u8 << bits.last().1)
        } else {
            m
        }
    }
}

/// The first DSU button byte: D-pad left/down/right/up, options, R3, L3, share
/// at bits 7 down to 0.
pub open spec fn button_byte_1(f: DSUFrame) -> u8 {
    bitmask_spec(
        seq![
            (f.dpad_left, 7u8),
            (f.dpad_down, 6u8),
            (f.dpad_right, 5u8),
            (f.dpad_up, 4u8),
            (f.options, 3u8),
            (f.r3, 2u8),
            (f.l3, 1u8),
            (f.share, 0u8),
        ],
    )
}

/// The second DSU button byte: Y, B, A, X, R1, L1, R2, L2 at bits 7 down to 0.
pub open spec fn button_byte_2(f: DSUFrame) -> u8 {
    bitmask_spec(
        seq![
            (f.y, 7u8),
            (f.b, 6u8),
            (f.a, 5u8),
            (f.x, 4u8),
            (f.r1, 3u8),
            (f.l1, 2u8),
            (f.r2, 1u8),
            (f.l2, 0u8),
        ],
    )
}

/// 1 for a pressed button, 0 otherwise.
pub open spec fn flag_byte(b: bool) -> u8 {
    if b {
        1u8
    } else {
        0u8
    }
}

/// The analog value of a digital button: 255 when pressed, 0 otherwise.
pub open spec fn analog_byte(b: bool) -> u8 {
    if b {
        255u8
    } else {
        0u8
    }
}

/// Bytes 36..56 of a data event: buttons, sticks and analog buttons.
#[verifier::opaque]
pub open spec fn input_bytes(f: DSUFrame) -> Seq<u8> {
    seq![
        button_byte_1(f),
        button_byte_2(f),
        flag_byte(f.home),
        flag_byte(f.touch),
        f.left_stick_x,
        f.left_stick_y,
        f.right_stick_x,
        f.right_stick_y,
        analog_byte(f.dpad_left),
        analog_byte(f.dpad_down),
        analog_byte(f.dpad_right),
        analog_byte(f.dpad_up),
        analog_byte(f.y),
        analog_byte(f.b),
        analog_byte(f.a),
        analog_byte(f.x),
        analog_byte(f.r1),
        analog_byte(f.l1),
        f.analog_r2,
        f.analog_l2,
    ]
}

/// `b`, negated when `negate` holds.
pub open spec fn maybe_neg(b: u32, negate: bool) -> u32 {
    if negate {
        protocol::neg_bits(b)
    } else {
        b
    }
}

/// The 100-byte data event for `f`: with `invert_pitch`, the Y acceleration, the pitch rate and
/// the yaw rate are negated; touch data is zero.
pub open spec fn data_event_packet(
    f: DSUFrame,
    packet_num: u32,
    client_id: u32,
    slot: u8,
    timestamp_us: u64,
    invert_pitch: bool,
) -> Seq<u8> {
    protocol::seal(
        protocol::data_prefix(packet_num, client_id, slot) + input_bytes(f) + bytes::zeros(12)
            + bytes::le64(timestamp_us) + motion_bytes(f, invert_pitch),
    )
}

/// Build a CemuHook protocol-version response packet into `buf`.
/// `buf` must be at least 22 bytes; bytes after the first 22 are left as they were.
pub fn write_version_response(buf: &mut [u8], client_id: u32)
    requires
        old(buf)@.len() >= 22,
    ensures
        final(buf)@ == protocol::version_packet(client_id) + old(buf)@.skip(22),
{
    protocol::write_version_response(buf, client_id)
}

/// Build a CemuHook controller-info response packet into `buf`.
/// `buf` must be at least 32 bytes; it is zeroed first, so bytes after the first 32 are zero.
pub fn write_info_response(buf: &mut [u8], slot: u8, client_id: u32, connected: bool)
    requires
        old(buf)@.len() >= 32,
    ensures
        final(buf)@ == protocol::info_packet(slot, client_id, connected) + bytes::zeros(
            (old(buf)@.len() - 32) as nat,
        ),
{
    protocol::write_info_response(buf, slot, client_id, connected)
}

/// Get a DSU button bitmask from a slice of bool and bit position pairs.
pub fn get_bitmask(bits: &[(bool, u8)]) -> (mask: u8)
    requires
        forall|i: int| 0 <= i < bits@.len() ==> bits@[i].1 < 8,
    ensures
        mask == bitmask_spec(bits@),
{
    let mut mask: u8 = 0;
    let mut i: usize = 0;
    proof {
        reveal(bitmask_spec);
    }
    while i < bits.len()
        invariant
            i <= bits@.len(),
            forall|j: int| 0 <= j < bits@.len() ==> bits@[j].1 < 8,
            mask == bitmask_spec(bits@.take(i as int)),
        decreases bits@.len() - i,
    {
        let (on, pos) = bits[i];
        assert(bits@.take(i + 1).drop_last() =~= bits@.take(i as int));
        proof {
            reveal(bitmask_spec);
        }
        if on {
            mask = mask | (1u8 << pos);
        }
        i = i + 1;
    }
    assert(bits@.take(bits@.len() as int) =~= bits@);
    mask
}

/// 255 for a pressed button, 0 otherwise.
fn analog(b: bool) -> (r: u8)
    ensures
        r == analog_byte(b),
{
    if b {
        u8::MAX
    } else {
        0
    }
}

/// The two DSU button bytes of a frame.
fn button_bytes(frame: &DSUFrame) -> (r: (u8, u8))
    ensures
        r.0 == button_byte_1(*frame),
        r.1 == button_byte_2(*frame),
{
    let first = [
        (frame.dpad_left, 7u8),
        (frame.dpad_down, 6u8),
        (frame.dpad_right, 5u8),
        (frame.dpad_up, 4u8),
        (frame.options, 3u8),
        (frame.r3, 2u8),
        (frame.l3, 1u8),
        (frame.share, 0u8),
    ];
    assert(first@ =~= seq![
        (frame.dpad_left, 7u8),
        (frame.dpad_down, 6u8),
        (frame.dpad_right, 5u8),
        (frame.dpad_up, 4u8),
        (frame.options, 3u8),
        (frame.r3, 2u8),
        (frame.l3, 1u8),
        (frame.share, 0u8),
    ]);
    let m1 = get_bitmask(&first);
    let second = [
        (frame.y, 7u8),
        (frame.b, 6u8),
        (frame.a, 5u8),
        (frame.x, 4u8),
        (frame.r1, 3u8),
        (frame.l1, 2u8),
        (frame.r2, 1u8),
        (frame.l2, 0u8),
    ];
    assert(second@ =~= seq![
        (frame.y, 7u8),
        (frame.b, 6u8),
        (frame.a, 5u8),
        (frame.x, 4u8),
        (frame.r1, 3u8),
        (frame.l1, 2u8),
        (frame.r2, 1u8),
        (frame.l2, 0u8),
    ]);
    let m2 = get_bitmask(&second);
    (m1, m2)
}

/// Append bytes 36..56 of a data event.
fn push_input_bytes(out: &mut Vec<u8>, frame: &DSUFrame)
    ensures
        final(out)@ == old(out)@ + input_bytes(*frame),
{
    let (m1, m2) = button_bytes(frame);
    let bytes: [u8; 20] = [
        m1,
        m2,
        if frame.home { 1u8 } else { 0u8 },
        if frame.touch { 1u8 } else { 0u8 },
        frame.left_stick_x,
        frame.left_stick_y,
        frame.right_stick_x,
        frame.right_stick_y,
        analog(frame.dpad_left),
        analog(frame.dpad_down),
        analog(frame.dpad_right),
        analog(frame.dpad_up),
        analog(frame.y),
        analog(frame.b),
        analog(frame.a),
        analog(frame.x),
        analog(frame.r1),
        analog(frame.l1),
        frame.analog_r2,
        frame.analog_l2,
    ];
    reveal(input_bytes);
    assert(bytes@ =~= input_bytes(*frame));
    bytes::push_slice(out, &bytes);
}

/// The motion bytes (76..100) of a data event.
#[verifier::opaque]
pub open spec fn motion_bytes(f: DSUFrame, invert_pitch: bool) -> Seq<u8> {
    bytes::le32(f.accel_x) + bytes::le32(maybe_neg(f.accel_y, invert_pitch)) + bytes::le32(
        f.accel_z,
    ) + bytes::le32(maybe_neg(f.gyro_x, invert_pitch)) + bytes::le32(
        maybe_neg(f.gyro_y, invert_pitch),
    ) + bytes::le32(f.gyro_z)
}

/// Append the motion bytes of a data event.
fn push_motion(out: &mut Vec<u8>, frame: &DSUFrame, invert_pitch: bool)
    ensures
        final(out)@ == old(out)@ + motion_bytes(*frame, invert_pitch),
{
    let acc_y = if invert_pitch {
        negate_bits(frame.accel_y)
    } else {
        frame.accel_y
    };
    // When the gravity direction is flipped with invert_pitch, the yaw is flipped too.
    let pitch = if invert_pitch {
        negate_bits(frame.gyro_x)
    } else {
        frame.gyro_x
    };
    let yaw = if invert_pitch {
        negate_bits(frame.gyro_y)
    } else {
        frame.gyro_y
    };
    push_u32_le(out, frame.accel_x);
    push_u32_le(out, acc_y);
    push_u32_le(out, frame.accel_z);
    push_u32_le(out, pitch);
    push_u32_le(out, yaw);
    push_u32_le(out, frame.gyro_z);
    reveal(motion_bytes);
    assert(final(out)@ =~= old(out)@ + motion_bytes(*frame, invert_pitch));
}

/// Build a CemuHook data-event packet (100 bytes) from a `DSUFrame`.
pub fn write_data_event(
    buf: &mut [u8; 100],
    frame: &DSUFrame,
    packet_num: u32,
    client_id: u32,
    slot: u8,
    timestamp_us: u64,
    invert_pitch: bool,
)
    ensures
        final(buf)@ == data_event_packet(
            *frame,
            packet_num,
            client_id,
            slot,
            timestamp_us,
            invert_pitch,
        ),
{
    let mut p: Vec<u8> = Vec::new();
    push_data_prefix(&mut p, packet_num, client_id, slot);
    push_input_bytes(&mut p, frame);
    // Touch data (bytes 56-67) is zero.
    push_zeros(&mut p, 12);
    push_u64_le(&mut p, timestamp_us);
    push_motion(&mut p, frame, invert_pitch);
    let ghost body = p@;
    proof {
        lemma_piece_lengths(*frame, invert_pitch);
    }
    assert(body == protocol::data_prefix(packet_num, client_id, slot) + input_bytes(*frame)
        + bytes::zeros(12) + bytes::le64(timestamp_us) + motion_bytes(*frame, invert_pitch));
    assert(body.len() == 100);
    seal_packet(&mut p);
    let s: &mut [u8] = buf;
    bytes::copy_to_front(s, &p);
    assert(buf@ =~= protocol::seal(body));
}

/// The bytes of a data event: 100 of them, with a verifying CRC field, the client ID at
/// bytes 12..16, the packet number at 32..36 and the timestamp at 68..76.
#[verifier::rlimit(100)]
pub proof fn lemma_data_event_well_formed(
    f: DSUFrame,
    packet_num: u32,
    client_id: u32,
    slot: u8,
    timestamp_us: u64,
    invert_pitch: bool,
)
    ensures
        data_event_packet(f, packet_num, client_id, slot, timestamp_us, invert_pitch).len() == 100,
        protocol::checksum_ok(
            data_event_packet(f, packet_num, client_id, slot, timestamp_us, invert_pitch),
        ),
        data_event_packet(f, packet_num, client_id, slot, timestamp_us, invert_pitch).subrange(
            12,
            16,
        ) == bytes::le32(client_id),
        data_event_packet(f, packet_num, client_id, slot, timestamp_us, invert_pitch).subrange(
            32,
            36,
        ) == bytes::le32(packet_num),
        data_event_packet(f, packet_num, client_id, slot, timestamp_us, invert_pitch).subrange(
            68,
            76,
        ) == bytes::le64(timestamp_us),
{
    lemma_piece_lengths(f, invert_pitch);
    let d = protocol::data_prefix(packet_num, client_id, slot) + input_bytes(f) + bytes::zeros(12)
        + bytes::le64(timestamp_us) + motion_bytes(f, invert_pitch);
    assert(d.subrange(8, 12) =~= bytes::zeros(4));
    protocol::lemma_seal_checksum(d);
    let s = protocol::seal(d);
    assert(s.subrange(12, 16) =~= d.subrange(12, 16));
    assert(d.subrange(12, 16) =~= bytes::le32(client_id));
    assert(s.subrange(32, 36) =~= s.skip(12).subrange(20, 24));
    assert(d.subrange(32, 36) =~= d.skip(12).subrange(20, 24));
    assert(d.subrange(32, 36) =~= bytes::le32(packet_num));
    assert(s.subrange(68, 76) =~= s.skip(12).subrange(56, 64));
    assert(d.subrange(68, 76) =~= d.skip(12).subrange(56, 64));
    assert(d.subrange(68, 76) =~= bytes::le64(timestamp_us));
}

/// The button and motion parts of a data event are 20 and 24 bytes long.
pub proof fn lemma_piece_lengths(f: DSUFrame, invert_pitch: bool)
    ensures
        input_bytes(f).len() == 20,
        motion_bytes(f, invert_pitch).len() == 24,
{
    reveal(input_bytes);
    reveal(motion_bytes);
}

/// The input and motion bytes of a data event, read straight off the packet: byte 36 holds
/// D-pad left, down, right, up, options, R3, L3, share at bits 7 to 0; byte 37 holds Y, B, A,
/// X, R1, L1, R2, L2 at bits 7 to 0; bytes 38 and 39 are 1 for home and touch; 40..44 are the
/// sticks; 44..54 are the analog values (255 pressed, 0 released) of D-pad left, down, right,
/// up, Y, B, A, X, R1, L1; 54 and 55 are analog R2 and L2; the touch data 56..68 is zero; then
/// the X, Y, Z acceleration and the pitch, yaw and roll rates follow, little-endian, with the
/// Y acceleration, pitch and yaw negated when the pitch is inverted.
pub proof fn lemma_data_event_inputs(
    f: DSUFrame,
    packet_num: u32,
    client_id: u32,
    slot: u8,
    timestamp_us: u64,
    invert_pitch: bool,
)
    ensures
        (data_event_packet(f, packet_num, client_id, slot, timestamp_us, invert_pitch)[36] & 0x80u8 != 0) == f.dpad_left,
        (data_event_packet(f, packet_num, client_id, slot, timestamp_us, invert_pitch)[36] & 0x40u8 != 0) == f.dpad_down,
        (data_event_packet(f, packet_num, client_id, slot, timestamp_us, invert_pitch)[36] & 0x20u8 != 0) == f.dpad_right,
        (data_event_packet(f, packet_num, client_id, slot, timestamp_us, invert_pitch)[36] & 0x10u8 != 0) == f.dpad_up,
        (data_event_packet(f, packet_num, client_id, slot, timestamp_us, invert_pitch)[36] & 0x08u8 != 0) == f.options,
        (data_event_packet(f, packet_num, client_id, slot, timestamp_us, invert_pitch)[36] & 0x04u8 != 0) == f.r3,
        (data_event_packet(f, packet_num, client_id, slot, timestamp_us, invert_pitch)[36] & 0x02u8 != 0) == f.l3,
        (data_event_packet(f, packet_num, client_id, slot, timestamp_us, invert_pitch)[36] & 0x01u8 != 0) == f.share,
        (data_event_packet(f, packet_num, client_id, slot, timestamp_us, invert_pitch)[37] & 0x80u8 != 0) == f.y,
        (data_event_packet(f, packet_num, client_id, slot, timestamp_us, invert_pitch)[37] & 0x40u8 != 0) == f.b,
        (data_event_packet(f, packet_num, client_id, slot, timestamp_us, invert_pitch)[37] & 0x20u8 != 0) == f.a,
        (data_event_packet(f, packet_num, client_id, slot, timestamp_us, invert_pitch)[37] & 0x10u8 != 0) == f.x,
        (data_event_packet(f, packet_num, client_id, slot, timestamp_us, invert_pitch)[37] & 0x08u8 != 0) == f.r1,
        (data_event_packet(f, packet_num, client_id, slot, timestamp_us, invert_pitch)[37] & 0x04u8 != 0) == f.l1,
        (data_event_packet(f, packet_num, client_id, slot, timestamp_us, invert_pitch)[37] & 0x02u8 != 0) == f.r2,
        (data_event_packet(f, packet_num, client_id, slot, timestamp_us, invert_pitch)[37] & 0x01u8 != 0) == f.l2,
        data_event_packet(f, packet_num, client_id, slot, timestamp_us, invert_pitch)[38] == (if f.home { 1u8 } else { 0u8 }),
        data_event_packet(f, packet_num, client_id, slot, timestamp_us, invert_pitch)[39] == (if f.touch { 1u8 } else { 0u8 }),
        data_event_packet(f, packet_num, client_id, slot, timestamp_us, invert_pitch)[40] == f.left_stick_x,
        data_event_packet(f, packet_num, client_id, slot, timestamp_us, invert_pitch)[41] == f.left_stick_y,
        data_event_packet(f, packet_num, client_id, slot, timestamp_us, invert_pitch)[42] == f.right_stick_x,
        data_event_packet(f, packet_num, client_id, slot, timestamp_us, invert_pitch)[43] == f.right_stick_y,
        data_event_packet(f, packet_num, client_id, slot, timestamp_us, invert_pitch)[44] == (if f.dpad_left { 255u8 } else { 0u8 }),
        data_event_packet(f, packet_num, client_id, slot, timestamp_us, invert_pitch)[45] == (if f.dpad_down { 255u8 } else { 0u8 }),
        data_event_packet(f, packet_num, client_id, slot, timestamp_us, invert_pitch)[46] == (if f.dpad_right { 255u8 } else { 0u8 }),
        data_event_packet(f, packet_num, client_id, slot, timestamp_us, invert_pitch)[47] == (if f.dpad_up { 255u8 } else { 0u8 }),
        data_event_packet(f, packet_num, client_id, slot, timestamp_us, invert_pitch)[48] == (if f.y { 255u8 } else { 0u8 }),
        data_event_packet(f, packet_num, client_id, slot, timestamp_us, invert_pitch)[49] == (if f.b { 255u8 } else { 0u8 }),
        data_event_packet(f, packet_num, client_id, slot, timestamp_us, invert_pitch)[50] == (if f.a { 255u8 } else { 0u8 }),
        data_event_packet(f, packet_num, client_id, slot, timestamp_us, invert_pitch)[51] == (if f.x { 255u8 } else { 0u8 }),
        data_event_packet(f, packet_num, client_id, slot, timestamp_us, invert_pitch)[52] == (if f.r1 { 255u8 } else { 0u8 }),
        data_event_packet(f, packet_num, client_id, slot, timestamp_us, invert_pitch)[53] == (if f.l1 { 255u8 } else { 0u8 }),
        data_event_packet(f, packet_num, client_id, slot, timestamp_us, invert_pitch)[54] == f.analog_r2,
        data_event_packet(f, packet_num, client_id, slot, timestamp_us, invert_pitch)[55] == f.analog_l2,
        data_event_packet(f, packet_num, client_id, slot, timestamp_us, invert_pitch).subrange(56, 68) == bytes::zeros(12),
        data_event_packet(f, packet_num, client_id, slot, timestamp_us, invert_pitch).subrange(76, 80) == bytes::le32(f.accel_x),
        data_event_packet(f, packet_num, client_id, slot, timestamp_us, invert_pitch).subrange(80, 84) == bytes::le32(if invert_pitch { protocol::neg_bits(f.accel_y) } else { f.accel_y }),
        data_event_packet(f, packet_num, client_id, slot, timestamp_us, invert_pitch).subrange(84, 88) == bytes::le32(f.accel_z),
        data_event_packet(f, packet_num, client_id, slot, timestamp_us, invert_pitch).subrange(88, 92) == bytes::le32(if invert_pitch { protocol::neg_bits(f.gyro_x) } else { f.gyro_x }),
        data_event_packet(f, packet_num, client_id, slot, timestamp_us, invert_pitch).subrange(92, 96) == bytes::le32(if invert_pitch { protocol::neg_bits(f.gyro_y) } else { f.gyro_y }),
        data_event_packet(f, packet_num, client_id, slot, timestamp_us, invert_pitch).subrange(96, 100) == bytes::le32(f.gyro_z),
{
    lemma_button_bits(f);
    lemma_packet_sections(f, packet_num, client_id, slot, timestamp_us, invert_pitch);
    lemma_input_byte_values(f);
    lemma_motion_byte_values(f, invert_pitch);
    let p = data_event_packet(f, packet_num, client_id, slot, timestamp_us, invert_pitch);
    assert(p[36] == p.subrange(36, 56)[0]);
    assert(p[37] == p.subrange(36, 56)[1]);
    assert(p[38] == p.subrange(36, 56)[2]);
    assert(p[39] == p.subrange(36, 56)[3]);
    assert(p[40] == p.subrange(36, 56)[4]);
    assert(p[41] == p.subrange(36, 56)[5]);
    assert(p[42] == p.subrange(36, 56)[6]);
    assert(p[43] == p.subrange(36, 56)[7]);
    assert(p[44] == p.subrange(36, 56)[8]);
    assert(p[45] == p.subrange(36, 56)[9]);
    assert(p[46] == p.subrange(36, 56)[10]);
    assert(p[47] == p.subrange(36, 56)[11]);
    assert(p[48] == p.subrange(36, 56)[12]);
    assert(p[49] == p.subrange(36, 56)[13]);
    assert(p[50] == p.subrange(36, 56)[14]);
    assert(p[51] == p.subrange(36, 56)[15]);
    assert(p[52] == p.subrange(36, 56)[16]);
    assert(p[53] == p.subrange(36, 56)[17]);
    assert(p[54] == p.subrange(36, 56)[18]);
    assert(p[55] == p.subrange(36, 56)[19]);
    assert(p.subrange(76, 80) =~= p.subrange(76, 100).subrange(0, 4));
    assert(p.subrange(80, 84) =~= p.subrange(76, 100).subrange(4, 8));
    assert(p.subrange(84, 88) =~= p.subrange(76, 100).subrange(8, 12));
    assert(p.subrange(88, 92) =~= p.subrange(76, 100).subrange(12, 16));
    assert(p.subrange(92, 96) =~= p.subrange(76, 100).subrange(16, 20));
    assert(p.subrange(96, 100) =~= p.subrange(76, 100).subrange(20, 24));
}

/// Sealing a packet leaves every byte after the CRC field as it was.
proof fn lemma_seal_tail(p: Seq<u8>)
    requires
        p.len() >= 12,
    ensures
        protocol::seal(p).len() == p.len(),
        forall|i: int| 12 <= i < p.len() ==> #[trigger] protocol::seal(p)[i] == p[i],
{
    reveal(protocol::seal);
}

/// The pieces of a concatenation of five sequences, found again by position.
proof fn lemma_five_pieces(a: Seq<u8>, b: Seq<u8>, c: Seq<u8>, e: Seq<u8>, g: Seq<u8>)
    ensures
        (a + b + c + e + g).len() == a.len() + b.len() + c.len() + e.len() + g.len(),
        (a + b + c + e + g).subrange(a.len() as int, (a.len() + b.len()) as int) == b,
        (a + b + c + e + g).subrange((a.len() + b.len()) as int, (a.len() + b.len() + c.len()) as int) == c,
        (a + b + c + e + g).subrange(
            (a.len() + b.len() + c.len() + e.len()) as int,
            (a.len() + b.len() + c.len() + e.len() + g.len()) as int,
        ) == g,
{
    let s = a + b + c + e + g;
    assert(s.subrange(a.len() as int, (a.len() + b.len()) as int) =~= b);
    assert(s.subrange((a.len() + b.len()) as int, (a.len() + b.len() + c.len()) as int) =~= c);
    assert(s.subrange(
        (a.len() + b.len() + c.len() + e.len()) as int,
        (a.len() + b.len() + c.len() + e.len() + g.len()) as int,
    ) =~= g);
}

/// Where the sections of a data event stand in the packet.
proof fn lemma_packet_sections(
    f: DSUFrame,
    packet_num: u32,
    client_id: u32,
    slot: u8,
    timestamp_us: u64,
    invert_pitch: bool,
)
    ensures
        data_event_packet(f, packet_num, client_id, slot, timestamp_us, invert_pitch).len() == 100,
        data_event_packet(f, packet_num, client_id, slot, timestamp_us, invert_pitch).subrange(36, 56) == input_bytes(f),
        data_event_packet(f, packet_num, client_id, slot, timestamp_us, invert_pitch).subrange(56, 68) == bytes::zeros(12),
        data_event_packet(f, packet_num, client_id, slot, timestamp_us, invert_pitch).subrange(76, 100) == motion_bytes(f, invert_pitch),
{
    lemma_piece_lengths(f, invert_pitch);
    let pre = protocol::data_prefix(packet_num, client_id, slot);
    assert(pre.len() == 36);
    let d = pre + input_bytes(f) + bytes::zeros(12) + bytes::le64(timestamp_us) + motion_bytes(
        f,
        invert_pitch,
    );
    lemma_five_pieces(pre, input_bytes(f), bytes::zeros(12), bytes::le64(timestamp_us), motion_bytes(f, invert_pitch));
    lemma_seal_tail(d);
    let p = data_event_packet(f, packet_num, client_id, slot, timestamp_us, invert_pitch);
    assert(p.subrange(36, 56) =~= d.subrange(36, 56));
    assert(p.subrange(56, 68) =~= d.subrange(56, 68));
    assert(p.subrange(76, 100) =~= d.subrange(76, 100));
}

proof fn lemma_input_byte_values(f: DSUFrame)
    ensures
        input_bytes(f)[0] == button_byte_1(f),
        input_bytes(f)[1] == button_byte_2(f),
        input_bytes(f)[2] == (if f.home { 1u8 } else { 0u8 }),
        input_bytes(f)[3] == (if f.touch { 1u8 } else { 0u8 }),
        input_bytes(f)[4] == f.left_stick_x,
        input_bytes(f)[5] == f.left_stick_y,
        input_bytes(f)[6] == f.right_stick_x,
        input_bytes(f)[7] == f.right_stick_y,
        input_bytes(f)[8] == (if f.dpad_left { 255u8 } else { 0u8 }),
        input_bytes(f)[9] == (if f.dpad_down { 255u8 } else { 0u8 }),
        input_bytes(f)[10] == (if f.dpad_right { 255u8 } else { 0u8 }),
        input_bytes(f)[11] == (if f.dpad_up { 255u8 } else { 0u8 }),
        input_bytes(f)[12] == (if f.y { 255u8 } else { 0u8 }),
        input_bytes(f)[13] == (if f.b { 255u8 } else { 0u8 }),
        input_bytes(f)[14] == (if f.a { 255u8 } else { 0u8 }),
        input_bytes(f)[15] == (if f.x { 255u8 } else { 0u8 }),
        input_bytes(f)[16] == (if f.r1 { 255u8 } else { 0u8 }),
        input_bytes(f)[17] == (if f.l1 { 255u8 } else { 0u8 }),
        input_bytes(f)[18] == f.analog_r2,
        input_bytes(f)[19] == f.analog_l2,
{
    reveal(input_bytes);
}

proof fn lemma_motion_byte_values(f: DSUFrame, invert_pitch: bool)
    ensures
        motion_bytes(f, invert_pitch).subrange(0, 4) == bytes::le32(f.accel_x),
        motion_bytes(f, invert_pitch).subrange(4, 8) == bytes::le32(maybe_neg(f.accel_y, invert_pitch)),
        motion_bytes(f, invert_pitch).subrange(8, 12) == bytes::le32(f.accel_z),
        motion_bytes(f, invert_pitch).subrange(12, 16) == bytes::le32(maybe_neg(f.gyro_x, invert_pitch)),
        motion_bytes(f, invert_pitch).subrange(16, 20) == bytes::le32(maybe_neg(f.gyro_y, invert_pitch)),
        motion_bytes(f, invert_pitch).subrange(20, 24) == bytes::le32(f.gyro_z),
{
    reveal(motion_bytes);
    let m = motion_bytes(f, invert_pitch);
    assert(m.subrange(0, 4) =~= bytes::le32(f.accel_x));
    assert(m.subrange(4, 8) =~= bytes::le32(maybe_neg(f.accel_y, invert_pitch)));
    assert(m.subrange(8, 12) =~= bytes::le32(f.accel_z));
    assert(m.subrange(12, 16) =~= bytes::le32(maybe_neg(f.gyro_x, invert_pitch)));
    assert(m.subrange(16, 20) =~= bytes::le32(maybe_neg(f.gyro_y, invert_pitch)));
    assert(m.subrange(20, 24) =~= bytes::le32(f.gyro_z));
}

/// `f` with the Y acceleration, the pitch rate and the yaw rate negated.
pub open spec fn pitch_inverted(f: DSUFrame) -> DSUFrame {
    DSUFrame {
        accel_y: protocol::neg_bits(f.accel_y),
        gyro_x: protocol::neg_bits(f.gyro_x),
        gyro_y: protocol::neg_bits(f.gyro_y),
        ..f
    }
}

/// Inverting the pitch sends exactly what the frame with its Y acceleration, pitch rate and
/// yaw rate negated sends without inversion.
#[verifier::rlimit(100)]
pub proof fn lemma_invert_pitch_negates(
    f: DSUFrame,
    packet_num: u32,
    client_id: u32,
    slot: u8,
    timestamp_us: u64,
)
    ensures
        data_event_packet(f, packet_num, client_id, slot, timestamp_us, true) == data_event_packet(
            pitch_inverted(f),
            packet_num,
            client_id,
            slot,
            timestamp_us,
            false,
        ),
{
    let g = pitch_inverted(f);
    assert(input_bytes(f) == input_bytes(g)) by {
        reveal(input_bytes);
    }
    assert(motion_bytes(f, true) == motion_bytes(g, false)) by {
        reveal(motion_bytes);
    }
    let d1 = protocol::data_prefix(packet_num, client_id, slot) + input_bytes(f) + bytes::zeros(12)
        + bytes::le64(timestamp_us) + motion_bytes(f, true);
    let d2 = protocol::data_prefix(packet_num, client_id, slot) + input_bytes(g) + bytes::zeros(12)
        + bytes::le64(timestamp_us) + motion_bytes(g, false);
    assert(d1 == d2);
}

/// Each button has a bit of its own in the two button bytes: D-pad left, down, right, up,
/// options, R3, L3, share at bits 7 to 0 of the first; Y, B, A, X, R1, L1, R2, L2 at bits
/// 7 to 0 of the second.
#[verifier::rlimit(100)]
pub proof fn lemma_button_bits(f: DSUFrame)
    ensures
        (button_byte_1(f) & 0x80u8 != 0) == f.dpad_left,
        (button_byte_1(f) & 0x40u8 != 0) == f.dpad_down,
        (button_byte_1(f) & 0x20u8 != 0) == f.dpad_right,
        (button_byte_1(f) & 0x10u8 != 0) == f.dpad_up,
        (button_byte_1(f) & 0x08u8 != 0) == f.options,
        (button_byte_1(f) & 0x04u8 != 0) == f.r3,
        (button_byte_1(f) & 0x02u8 != 0) == f.l3,
        (button_byte_1(f) & 0x01u8 != 0) == f.share,
        (button_byte_2(f) & 0x80u8 != 0) == f.y,
        (button_byte_2(f) & 0x40u8 != 0) == f.b,
        (button_byte_2(f) & 0x20u8 != 0) == f.a,
        (button_byte_2(f) & 0x10u8 != 0) == f.x,
        (button_byte_2(f) & 0x08u8 != 0) == f.r1,
        (button_byte_2(f) & 0x04u8 != 0) == f.l1,
        (button_byte_2(f) & 0x02u8 != 0) == f.r2,
        (button_byte_2(f) & 0x01u8 != 0) == f.l2,
{
    let s1 = seq![
        (f.dpad_left, 7u8),
        (f.dpad_down, 6u8),
        (f.dpad_right, 5u8),
        (f.dpad_up, 4u8),
        (f.options, 3u8),
        (f.r3, 2u8),
        (f.l3, 1u8),
        (f.share, 0u8),
    ];
    let s2 = seq![
        (f.y, 7u8),
        (f.b, 6u8),
        (f.a, 5u8),
        (f.x, 4u8),
        (f.r1, 3u8),
        (f.l1, 2u8),
        (f.r2, 1u8),
        (f.l2, 0u8),
    ];
    lemma_eight_bits(s1);
    lemma_eight_bits(s2);
    let (a7, a6, a5, a4, a3, a2, a1, a0) = (f.dpad_left, f.dpad_down, f.dpad_right, f.dpad_up, f.options, f.r3, f.l3, f.share);
    let m = button_byte_1(f);
    assert(m == ((if a7 { 0x80u8 } else { 0u8 }) | (if a6 { 0x40u8 } else { 0u8 }) | (if a5 { 0x20u8 } else { 0u8 }) | (if a4 { 0x10u8 } else { 0u8 }) | (if a3 { 0x08u8 } else { 0u8 }) | (if a2 { 0x04u8 } else { 0u8 }) | (if a1 { 0x02u8 } else { 0u8 }) | (if a0 { 0x01u8 } else { 0u8 })));
    lemma_bits_of_mask(m, a7, a6, a5, a4, a3, a2, a1, a0);
    let (c7, c6, c5, c4, c3, c2, c1, c0) = (f.y, f.b, f.a, f.x, f.r1, f.l1, f.r2, f.l2);
    let n = button_byte_2(f);
    assert(n == ((if c7 { 0x80u8 } else { 0u8 }) | (if c6 { 0x40u8 } else { 0u8 }) | (if c5 { 0x20u8 } else { 0u8 }) | (if c4 { 0x10u8 } else { 0u8 }) | (if c3 { 0x08u8 } else { 0u8 }) | (if c2 { 0x04u8 } else { 0u8 }) | (if c1 { 0x02u8 } else { 0u8 }) | (if c0 { 0x01u8 } else { 0u8 })));
    lemma_bits_of_mask(n, c7, c6, c5, c4, c3, c2, c1, c0);
}

/// The mask of eight flags at bits 7 down to 0.
proof fn lemma_eight_bits(s: Seq<(bool, u8)>)
    requires
        s.len() == 8,
        s[0].1 == 7u8,
        s[1].1 == 6u8,
        s[2].1 == 5u8,
        s[3].1 == 4u8,
        s[4].1 == 3u8,
        s[5].1 == 2u8,
        s[6].1 == 1u8,
        s[7].1 == 0u8,
    ensures
        bitmask_spec(s) == ((if s[0].0 { 0x80u8 } else { 0u8 }) | (if s[1].0 { 0x40u8 } else { 0u8 }) | (if s[2].0 { 0x20u8 } else { 0u8 }) | (if s[3].0 { 0x10u8 } else { 0u8 }) | (if s[4].0 { 0x08u8 } else { 0u8 }) | (if s[5].0 { 0x04u8 } else { 0u8 }) | (if s[6].0 { 0x02u8 } else { 0u8 }) | (if s[7].0 { 0x01u8 } else { 0u8 })),
{
    let b0 = s[0].0;
    let b1 = s[1].0;
    let b2 = s[2].0;
    let b3 = s[3].0;
    let b4 = s[4].0;
    let b5 = s[5].0;
    let b6 = s[6].0;
    let b7 = s[7].0;
    reveal(bitmask_spec);
    let m0 = bitmask_spec(s.take(0));
    assert(m0 == 0);
    assert(s.take(1).drop_last() =~= s.take(0));
    let m1 = bitmask_spec(s.take(1));
    assert(m1 == if b0 { m0 | (1u8 << 7u8) } else { m0 });
    assert(s.take(2).drop_last() =~= s.take(1));
    let m2 = bitmask_spec(s.take(2));
    assert(m2 == if b1 { m1 | (1u8 << 6u8) } else { m1 });
    assert(s.take(3).drop_last() =~= s.take(2));
    let m3 = bitmask_spec(s.take(3));
    assert(m3 == if b2 { m2 | (1u8 << 5u8) } else { m2 });
    assert(s.take(4).drop_last() =~= s.take(3));
    let m4 = bitmask_spec(s.take(4));
    assert(m4 == if b3 { m3 | (1u8 << 4u8) } else { m3 });
    assert(s.take(5).drop_last() =~= s.take(4));
    let m5 = bitmask_spec(s.take(5));
    assert(m5 == if b4 { m4 | (1u8 << 3u8) } else { m4 });
    assert(s.take(6).drop_last() =~= s.take(5));
    let m6 = bitmask_spec(s.take(6));
    assert(m6 == if b5 { m5 | (1u8 << 2u8) } else { m5 });
    assert(s.take(7).drop_last() =~= s.take(6));
    let m7 = bitmask_spec(s.take(7));
    assert(m7 == if b6 { m6 | (1u8 << 1u8) } else { m6 });
    assert(s.take(8).drop_last() =~= s.take(7));
    let m8 = bitmask_spec(s.take(8));
    assert(m8 == if b7 { m7 | (1u8 << 0u8) } else { m7 });
    assert(s.take(8) =~= s);
    assert(m8 == ((if b0 { 0x80u8 } else { 0u8 }) | (if b1 { 0x40u8 } else { 0u8 }) | (if b2 { 0x20u8 } else { 0u8 }) | (if b3 { 0x10u8 } else { 0u8 }) | (if b4 { 0x08u8 } else { 0u8 }) | (if b5 { 0x04u8 } else { 0u8 }) | (if b6 { 0x02u8 } else { 0u8 }) | (if b7 { 0x01u8 } else { 0u8 }))) by (bit_vector)
        requires
            m0 == 0u8,
            m1 == if b0 { m0 | (1u8 << 7u8) } else { m0 },
            m2 == if b1 { m1 | (1u8 << 6u8) } else { m1 },
            m3 == if b2 { m2 | (1u8 << 5u8) } else { m2 },
            m4 == if b3 { m3 | (1u8 << 4u8) } else { m3 },
            m5 == if b4 { m4 | (1u8 << 3u8) } else { m4 },
            m6 == if b5 { m5 | (1u8 << 2u8) } else { m5 },
            m7 == if b6 { m6 | (1u8 << 1u8) } else { m6 },
            m8 == if b7 { m7 | (1u8 << 0u8) } else { m7 },
    ;
}

/// Bit `k` of a mask built from eight flags at bits 7 down to 0 is flag `k`.
proof fn lemma_bits_of_mask(m: u8, a7: bool, a6: bool, a5: bool, a4: bool, a3: bool, a2: bool, a1: bool, a0: bool)
    requires
        m == ((if a7 { 0x80u8 } else { 0u8 }) | (if a6 { 0x40u8 } else { 0u8 }) | (if a5 { 0x20u8 } else { 0u8 }) | (if a4 { 0x10u8 } else { 0u8 }) | (if a3 { 0x08u8 } else { 0u8 }) | (if a2 { 0x04u8 } else { 0u8 }) | (if a1 { 0x02u8 } else { 0u8 }) | (if a0 { 0x01u8 } else { 0u8 })),
    ensures
        (m & 0x80u8 != 0) == a7,
        (m & 0x40u8 != 0) == a6,
        (m & 0x20u8 != 0) == a5,
        (m & 0x10u8 != 0) == a4,
        (m & 0x08u8 != 0) == a3,
        (m & 0x04u8 != 0) == a2,
        (m & 0x02u8 != 0) == a1,
        (m & 0x01u8 != 0) == a0,
{
    assert((m & 0x80u8 != 0) == a7 && (m & 0x40u8 != 0) == a6 && (m & 0x20u8 != 0) == a5 && (m & 0x10u8 != 0) == a4 && (m & 0x08u8 != 0) == a3 && (m & 0x04u8 != 0) == a2 && (m & 0x02u8 != 0) == a1 && (m & 0x01u8 != 0) == a0) by (bit_vector)
        requires
            m == ((if a7 { 0x80u8 } else { 0u8 }) | (if a6 { 0x40u8 } else { 0u8 }) | (if a5 { 0x20u8 } else { 0u8 }) | (if a4 { 0x10u8 } else { 0u8 }) | (if a3 { 0x08u8 } else { 0u8 }) | (if a2 { 0x04u8 } else { 0u8 }) | (if a1 { 0x02u8 } else { 0u8 }) | (if a0 { 0x01u8 } else { 0u8 })),
    ;
}

} // verus!
