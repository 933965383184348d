//! The CemuHook (DSU) wire format: CRC-32, packet headers and the server's response packets.

use vstd::prelude::*;

use crate::bytes;
use crate::bytes::{
    copy_to_front, fill_zero, push_u16_le, push_u32_le, push_u64_le, push_zeros,
};

verus! {

/// One step of the bit-by-bit reflected CRC-32 (polynomial 0xEDB88320).
pub open spec fn crc_shift(crc: u32) -> u32 {
    if crc & 1 != 0 {
        (crc >> 1) ^ 0xEDB8_8320
    } else {
        crc >> 1
    }
}

/// `crc_shift` applied `n` times.
pub open spec fn crc_shift_n(crc: u32, n: nat) -> u32
    decreases n,
{
    if n == 0 {
        crc
    } else {
        crc_shift(crc_shift_n(crc, (n - 1) as nat))
    }
}

/// The CRC register after feeding one byte.
pub open spec fn crc_feed(crc: u32, b: u8) -> u32 {
    crc_shift_n(crc ^ (b as u32), 8)
}

/// The CRC register after feeding all of `data`, starting from all ones.
#[verifier::opaque]
pub open spec fn crc_register(data: Seq<u8>) -> u32
    decreases data.len(),
{
    if data.len() == 0 {
        0xFFFF_FFFFu32
    } else {
        crc_feed(crc_register(data.drop_last()), data.last())
    }
}

/// The CRC-32 (IEEE 802.3, as used by CemuHook) of `data`.
pub open spec fn crc32_spec(data: Seq<u8>) -> u32 {
    !crc_register(data)
}

/// The magic of a server packet, `"DSUS"`.
pub open spec fn magic_server() -> Seq<u8> {
    seq![0x44u8, 0x53u8, 0x55u8, 0x53u8]
}

/// The magic of a client packet, `"DSUC"`.
pub open spec fn magic_client() -> Seq<u8> {
    seq![0x44u8, 0x53u8, 0x55u8, 0x43u8]
}

/// Protocol version carried by every packet.
pub const PROTOCOL_VERSION: u16 = 1001;

/// Message type of a protocol-version message.
pub const VERSION_TYPE: u32 = 0x100000;

/// Message type of a controller-information message.
pub const INFO_TYPE: u32 = 0x100001;

/// Message type of a controller-data message.
pub const DATA_TYPE: u32 = 0x100002;

/// The 16-byte packet header with a zeroed CRC field.
pub open spec fn header(payload_len: u16, client_id: u32) -> Seq<u8> {
    magic_server() + bytes::le16(PROTOCOL_VERSION) + bytes::le16(payload_len) + bytes::zeros(4) + bytes::le32(client_id)
}

/// `p` with its CRC field (bytes 8..12) set to the CRC-32 of `p` itself.
#[verifier::opaque]
pub open spec fn seal(p: Seq<u8>) -> Seq<u8> {
    p.take(8) + bytes::le32(crc32_spec(p)) + p.skip(12)
}

/// A packet whose CRC field holds the CRC-32 of the packet with that field zeroed.
pub open spec fn checksum_ok(p: Seq<u8>) -> bool {
    &&& p.len() >= 12
    &&& p.subrange(8, 12) == bytes::le32(crc32_spec(p.take(8) + bytes::zeros(4) + p.skip(12)))
}

/// The 22-byte protocol-version response.
pub open spec fn version_packet(client_id: u32) -> Seq<u8> {
    seal(header(2, client_id) + bytes::le32(VERSION_TYPE) + bytes::le16(PROTOCOL_VERSION))
}

/// The shared response bytes for `slot`: slot, state, model, connection type.
pub open spec fn slot_state(slot: u8, connected: bool) -> Seq<u8> {
    if connected {
        seq![slot, 2u8, 2u8, 1u8]
    } else {
        seq![slot, 0u8, 0u8, 0u8]
    }
}

/// The 32-byte controller-information response.
pub open spec fn info_packet(slot: u8, client_id: u32, connected: bool) -> Seq<u8> {
    seal(header(16, client_id) + bytes::le32(INFO_TYPE) + slot_state(slot, connected) + bytes::zeros(8))
}

/// The six motion values of a data event, each an IEEE-754 single-precision bit pattern:
/// acceleration in g and angular rate in degrees per second.
#[derive(Debug, Clone, Copy)]
pub struct Motion {
    pub accel_x: u32,
    pub accel_y: u32,
    pub accel_z: u32,
    pub gyro_x: u32,
    pub gyro_y: u32,
    pub gyro_z: u32,
}

/// The bit pattern of the negation of the single-precision value with bits `b`
/// (negation flips the sign bit).
pub open spec fn neg_bits(b: u32) -> u32 {
    if b >= 0x8000_0000 {
        (b - 0x8000_0000) as u32
    } else {
        (b + 0x8000_0000) as u32
    }
}

/// Negate a single-precision value given by its bit pattern.
pub fn negate_bits(b: u32) -> (r: u32)
    ensures
        r == neg_bits(b),
{
    if b >= 0x8000_0000 {
        b - 0x8000_0000
    } else {
        b + 0x8000_0000
    }
}

/// The start of a data event, up to and including the packet number (36 bytes).
pub open spec fn data_prefix(packet_num: u32, client_id: u32, slot: u8) -> Seq<u8> {
    header(84, client_id) + bytes::le32(DATA_TYPE) + slot_state(slot, true) + bytes::zeros(7) + seq![1u8]
        + bytes::le32(packet_num)
}

/// The motion bytes (76..100) of a motion-only data event: the X and Y acceleration and the
/// yaw rate negated.
pub open spec fn motion_bytes(motion: Motion) -> Seq<u8> {
    bytes::le32(neg_bits(motion.accel_x)) + bytes::le32(neg_bits(motion.accel_y)) + bytes::le32(
        motion.accel_z,
    ) + bytes::le32(motion.gyro_x) + bytes::le32(neg_bits(motion.gyro_y)) + bytes::le32(
        motion.gyro_z,
    )
}

/// The 100-byte data event carrying only motion: buttons, sticks and touch are zero.
pub open spec fn motion_data_packet(
    motion: Motion,
    packet_num: u32,
    client_id: u32,
    slot: u8,
    timestamp_us: u64,
) -> Seq<u8> {
    seal(
        data_prefix(packet_num, client_id, slot) + bytes::zeros(32) + bytes::le64(timestamp_us)
            + motion_bytes(motion),
    )
}

/// CRC32 used by the CemuHook protocol (bit-by-bit reflected algorithm).
pub fn crc32(data: &[u8]) -> (c: u32)
    ensures
        c == crc32_spec(data@),
{
    let mut crc: u32 = 0xFFFF_FFFF;
    let mut i: usize = 0;
    proof {
        reveal(crc_register);
        assert(data@.take(0) =~= Seq::<u8>::empty());
    }
    while i < data.len()
        invariant
            i <= data@.len(),
            crc == crc_register(data@.take(i as int)),
        decreases data@.len() - i,
    {
        let ghost start = crc ^ (data@[i as int] as u32);
        crc = crc ^ (data[i] as u32);
        let mut k: usize = 0;
        while k < 8
            invariant
                k <= 8,
                crc == crc_shift_n(start, k as nat),
            decreases 8 - k,
        {
            crc = if crc & 1 != 0 {
                (crc >> 1) ^ 0xEDB8_8320
            } else {
                crc >> 1
            };
            k = k + 1;
        }
        assert(data@.take(i + 1).drop_last() =~= data@.take(i as int));
        proof {
            reveal(crc_register);
        }
        i = i + 1;
    }
    assert(data@.take(data@.len() as int) =~= data@);
    !crc
}

/// Write the CRC-32 of the packet into its CRC field (bytes 8..12).
pub fn seal_packet(p: &mut Vec<u8>)
    requires
        old(p)@.len() >= 12,
    ensures
        final(p)@ == seal(old(p)@),
        final(p)@.len() == old(p)@.len(),
{
    let c = crc32(p.as_slice());
    p.set(8, (c % 256) as u8);
    p.set(9, ((c / 0x100) % 256) as u8);
    p.set(10, ((c / 0x1_0000) % 256) as u8);
    p.set(11, ((c / 0x100_0000) % 256) as u8);
    reveal(seal);
    assert(final(p)@ =~= seal(old(p)@));
}

/// Append the 16-byte header with a zeroed CRC field.
pub fn push_header(out: &mut Vec<u8>, payload_len: u16, client_id: u32)
    ensures
        final(out)@ == old(out)@ + header(payload_len, client_id),
{
    out.push(0x44u8);
    out.push(0x53u8);
    out.push(0x55u8);
    out.push(0x53u8);
    push_u16_le(out, PROTOCOL_VERSION);
    push_u16_le(out, payload_len);
    push_zeros(out, 4);
    push_u32_le(out, client_id);
    assert(final(out)@ =~= old(out)@ + header(payload_len, client_id));
}

/// Append the four shared-response bytes for `slot`.
pub fn push_slot_state(out: &mut Vec<u8>, slot: u8, connected: bool)
    ensures
        final(out)@ == old(out)@ + slot_state(slot, connected),
{
    out.push(slot);
    if connected {
        out.push(2u8);
        out.push(2u8);
        out.push(1u8);
    } else {
        out.push(0u8);
        out.push(0u8);
        out.push(0u8);
    }
    assert(final(out)@ =~= old(out)@ + slot_state(slot, connected));
}

/// Build a CemuHook protocol-version response packet into `buf`.
/// `buf` must be at least 22 bytes; bytes after the first 22 are left as they were.
pub fn write_version_response(buf: &mut [u8], client_id: u32)
    requires
        old(buf)@.len() >= 22,
    ensures
        final(buf)@ == version_packet(client_id) + old(buf)@.skip(22),
{
    let mut p: Vec<u8> = Vec::new();
    push_header(&mut p, 2, client_id);
    push_u32_le(&mut p, VERSION_TYPE);
    push_u16_le(&mut p, PROTOCOL_VERSION);
    seal_packet(&mut p);
    copy_to_front(buf, &p);
}

/// Build a CemuHook controller-info response packet into `buf`.
/// `buf` must be at least 32 bytes; it is zeroed first, so bytes after the first 32 are zero.
pub fn write_info_response(buf: &mut [u8], slot: u8, client_id: u32, connected: bool)
    requires
        old(buf)@.len() >= 32,
    ensures
        final(buf)@ == info_packet(slot, client_id, connected) + bytes::zeros(
            (old(buf)@.len() - 32) as nat,
        ),
{
    fill_zero(buf);
    let mut p: Vec<u8> = Vec::new();
    push_header(&mut p, 16, client_id);
    push_u32_le(&mut p, INFO_TYPE);
    push_slot_state(&mut p, slot, connected);
    push_zeros(&mut p, 8);
    seal_packet(&mut p);
    copy_to_front(buf, &p);
    assert(buf@ =~= info_packet(slot, client_id, connected) + bytes::zeros((old(buf)@.len() - 32) as nat));
}

/// Append the first 36 bytes of a data event.
pub fn push_data_prefix(out: &mut Vec<u8>, packet_num: u32, client_id: u32, slot: u8)
    ensures
        final(out)@ == old(out)@ + data_prefix(packet_num, client_id, slot),
{
    push_header(out, 84, client_id);
    push_u32_le(out, DATA_TYPE);
    push_slot_state(out, slot, true);
    push_zeros(out, 7);
    out.push(1u8);
    push_u32_le(out, packet_num);
    assert(final(out)@ =~= old(out)@ + data_prefix(packet_num, client_id, slot));
}

/// Build a CemuHook data-event packet (100 bytes) carrying only motion data.
/// Buttons / sticks / touch are zeroed; the X and Y acceleration and the yaw rate are negated.
#[verifier::rlimit(50)]
pub fn write_data_event(
    buf: &mut [u8; 100],
    motion: &Motion,
    packet_num: u32,
    client_id: u32,
    slot: u8,
    timestamp_us: u64,
)
    ensures
        final(buf)@ == motion_data_packet(*motion, packet_num, client_id, slot, timestamp_us),
{
    let mut p: Vec<u8> = Vec::new();
    push_data_prefix(&mut p, packet_num, client_id, slot);
    push_zeros(&mut p, 32);
    push_u64_le(&mut p, timestamp_us);
    push_motion(&mut p, motion);
    let ghost body = p@;
    assert(body == data_prefix(packet_num, client_id, slot) + bytes::zeros(32) + bytes::le64(
        timestamp_us,
    ) + motion_bytes(*motion));
    assert(body.len() == 100);
    seal_packet(&mut p);
    let s: &mut [u8] = buf;
    copy_to_front(s, &p);
    assert(buf@ =~= seal(body));
}

/// Append the motion bytes of a motion-only data event.
fn push_motion(out: &mut Vec<u8>, motion: &Motion)
    ensures
        final(out)@ == old(out)@ + motion_bytes(*motion),
{
    push_u32_le(out, negate_bits(motion.accel_x));
    push_u32_le(out, negate_bits(motion.accel_y));
    push_u32_le(out, motion.accel_z);
    push_u32_le(out, motion.gyro_x);
    push_u32_le(out, negate_bits(motion.gyro_y));
    push_u32_le(out, motion.gyro_z);
    assert(final(out)@ =~= old(out)@ + motion_bytes(*motion));
}

/// Sealing a packet whose CRC field is zero makes its checksum verify.
pub proof fn lemma_seal_checksum(p: Seq<u8>)
    requires
        p.len() >= 12,
        p.subrange(8, 12) == bytes::zeros(4),
    ensures
        checksum_ok(seal(p)),
        seal(p).len() == p.len(),
        seal(p).take(8) == p.take(8),
        seal(p).skip(12) == p.skip(12),
{
    reveal(seal);
    let s = seal(p);
    assert(s.take(8) =~= p.take(8));
    assert(s.skip(12) =~= p.skip(12));
    assert(s.take(8) + bytes::zeros(4) + s.skip(12) =~= p);
    assert(s.subrange(8, 12) =~= bytes::le32(crc32_spec(p)));
}

/// Every response and motion-only data event the server builds has the stated length, starts
/// with the `"DSUS"` magic and protocol version 1001, carries the client ID at bytes 12..16
/// and a CRC field that verifies.
pub proof fn lemma_server_packets_well_formed(
    client_id: u32,
    slot: u8,
    connected: bool,
    motion: Motion,
    packet_num: u32,
    timestamp_us: u64,
)
    ensures
        version_packet(client_id).len() == 22,
        info_packet(slot, client_id, connected).len() == 32,
        motion_data_packet(motion, packet_num, client_id, slot, timestamp_us).len() == 100,
        checksum_ok(version_packet(client_id)),
        checksum_ok(info_packet(slot, client_id, connected)),
        checksum_ok(motion_data_packet(motion, packet_num, client_id, slot, timestamp_us)),
        version_packet(client_id).take(6) == magic_server() + bytes::le16(PROTOCOL_VERSION),
        info_packet(slot, client_id, connected).take(6) == magic_server() + bytes::le16(
            PROTOCOL_VERSION,
        ),
        motion_data_packet(motion, packet_num, client_id, slot, timestamp_us).take(6)
            == magic_server() + bytes::le16(PROTOCOL_VERSION),
        version_packet(client_id).subrange(12, 16) == bytes::le32(client_id),
        info_packet(slot, client_id, connected).subrange(12, 16) == bytes::le32(client_id),
        motion_data_packet(motion, packet_num, client_id, slot, timestamp_us).subrange(12, 16)
            == bytes::le32(client_id),
{
    let v = header(2, client_id) + bytes::le32(VERSION_TYPE) + bytes::le16(PROTOCOL_VERSION);
    assert(v.subrange(8, 12) =~= bytes::zeros(4));
    lemma_seal_checksum(v);
    assert(seal(v).take(6) =~= v.take(8).take(6));
    assert(v.take(6) =~= magic_server() + bytes::le16(PROTOCOL_VERSION));
    assert(seal(v).subrange(12, 16) =~= v.skip(12).take(4));
    assert(v.subrange(12, 16) =~= bytes::le32(client_id));
    let i = header(16, client_id) + bytes::le32(INFO_TYPE) + slot_state(slot, connected)
        + bytes::zeros(8);
    assert(i.subrange(8, 12) =~= bytes::zeros(4));
    lemma_seal_checksum(i);
    assert(seal(i).take(6) =~= i.take(8).take(6));
    assert(i.take(6) =~= magic_server() + bytes::le16(PROTOCOL_VERSION));
    assert(seal(i).subrange(12, 16) =~= i.skip(12).take(4));
    assert(i.subrange(12, 16) =~= bytes::le32(client_id));
    let d = data_prefix(packet_num, client_id, slot) + bytes::zeros(32) + bytes::le64(timestamp_us)
        + motion_bytes(motion);
    assert(d.subrange(8, 12) =~= bytes::zeros(4));
    lemma_seal_checksum(d);
    assert(seal(d).take(6) =~= d.take(8).take(6));
    assert(d.take(6) =~= magic_server() + bytes::le16(PROTOCOL_VERSION));
    assert(seal(d).subrange(12, 16) =~= d.skip(12).take(4));
    assert(d.subrange(12, 16) =~= bytes::le32(client_id));
}

/// Negating a single-precision value twice gives it back.
pub proof fn lemma_neg_bits_involution(b: u32)
    ensures
        neg_bits(neg_bits(b)) == b,
        neg_bits(b) != b,
{
}

} // verus!
