//! Little-endian byte encodings shared by the HID reports and the CemuHook wire format.

use vstd::prelude::*;

verus! {

/// The two little-endian bytes of a 16-bit value.
pub open spec fn le16(v: u16) -> Seq<u8> {
    seq![(v % 256) as u8, ((v / 256) % 256) as u8]
}

/// The four little-endian bytes of a 32-bit value.
pub open spec fn le32(v: u32) -> Seq<u8> {
    seq![
        (v % 256) as u8,
        ((v / 0x100) % 256) as u8,
        ((v / 0x1_0000) % 256) as u8,
        ((v / 0x100_0000) % 256) as u8,
    ]
}

/// The eight little-endian bytes of a 64-bit value.
pub open spec fn le64(v: u64) -> Seq<u8> {
    le32((v % 0x1_0000_0000) as u32) + le32((v / 0x1_0000_0000) as u32)
}

/// `n` zero bytes.
pub open spec fn zeros(n: nat) -> Seq<u8> {
    Seq::new(n, |i: int| 0u8)
}

/// The unsigned 16-bit value whose little-endian bytes are `b0, b1`.
pub open spec fn u16_le(b0: u8, b1: u8) -> u16 {
    (b0 + 256 * b1) as u16
}

/// The signed (two's complement) 16-bit value whose little-endian bytes are `b0, b1`.
pub open spec fn i16_le(b0: u8, b1: u8) -> i16 {
    let u = b0 + 256 * b1;
    (if u >= 0x8000 { u - 0x1_0000 } else { u }) as i16
}

/// The unsigned 32-bit value whose little-endian bytes are `b0 .. b3`.
pub open spec fn u32_le(b0: u8, b1: u8, b2: u8, b3: u8) -> u32 {
    (b0 + 0x100 * b1 + 0x1_0000 * b2 + 0x100_0000 * b3) as u32
}

/// Decode an unsigned 16-bit little-endian value.
pub fn read_u16_le(b0: u8, b1: u8) -> (r: u16)
    ensures
        r == u16_le(b0, b1),
{
    b0 as u16 + (b1 as u16) * 256
}

/// Decode a signed 16-bit little-endian value.
pub fn read_i16_le(b0: u8, b1: u8) -> (r: i16)
    ensures
        r == i16_le(b0, b1),
{
    let u = read_u16_le(b0, b1);
    if u >= 0x8000 {
        (u as i32 - 0x1_0000) as i16
    } else {
        u as i16
    }
}

/// Decode an unsigned 32-bit little-endian value.
pub fn read_u32_le(b0: u8, b1: u8, b2: u8, b3: u8) -> (r: u32)
    ensures
        r == u32_le(b0, b1, b2, b3),
{
    b0 as u32 + (b1 as u32) * 0x100 + (b2 as u32) * 0x1_0000 + (b3 as u32) * 0x100_0000
}

/// Append the little-endian bytes of a 16-bit value.
pub fn push_u16_le(out: &mut Vec<u8>, v: u16)
    ensures
        final(out)@ == old(out)@ + le16(v),
{
    out.push((v % 256) as u8);
    out.push(((v / 256) % 256) as u8);
    assert(final(out)@ =~= old(out)@ + le16(v));
}

/// Append the little-endian bytes of a 32-bit value.
pub fn push_u32_le(out: &mut Vec<u8>, v: u32)
    ensures
        final(out)@ == old(out)@ + le32(v),
{
    out.push((v % 256) as u8);
    out.push(((v / 0x100) % 256) as u8);
    out.push(((v / 0x1_0000) % 256) as u8);
    out.push(((v / 0x100_0000) % 256) as u8);
    assert(final(out)@ =~= old(out)@ + le32(v));
}

/// Append the little-endian bytes of a 64-bit value.
pub fn push_u64_le(out: &mut Vec<u8>, v: u64)
    ensures
        final(out)@ == old(out)@ + le64(v),
{
    push_u32_le(out, (v % 0x1_0000_0000) as u32);
    push_u32_le(out, (v / 0x1_0000_0000) as u32);
    assert(final(out)@ =~= old(out)@ + le64(v));
}

/// Append `n` zero bytes.
pub fn push_zeros(out: &mut Vec<u8>, n: usize)
    ensures
        final(out)@ == old(out)@ + zeros(n as nat),
{
    let mut i: usize = 0;
    while i < n
        invariant
            i <= n,
            out@ == old(out)@ + zeros(i as nat),
        decreases n - i,
    {
        out.push(0u8);
        i = i + 1;
        assert(out@ =~= old(out)@ + zeros(i as nat));
    }
}

/// Copy `src` to the front of `buf`, leaving the rest of `buf` as it was.
pub fn copy_to_front(buf: &mut [u8], src: &Vec<u8>)
    requires
        src@.len() <= old(buf)@.len(),
    ensures
        final(buf)@ == src@ + old(buf)@.skip(src@.len() as int),
{
    let n = src.len();
    let mut i: usize = 0;
    while i < n
        invariant
            n == src@.len(),
            n <= buf@.len(),
            i <= n,
            buf@.len() == old(buf)@.len(),
            forall|j: int| 0 <= j < i ==> buf@[j] == src@[j],
            forall|j: int| i <= j < buf@.len() ==> buf@[j] == old(buf)@[j],
        decreases n - i,
    {
        buf[i] = src[i];
        i = i + 1;
    }
    assert(buf@ =~= src@ + old(buf)@.skip(src@.len() as int));
}

/// Set every byte of `buf` to zero.
pub fn fill_zero(buf: &mut [u8])
    ensures
        final(buf)@ == zeros(old(buf)@.len()),
{
    let n = buf.len();
    let mut i: usize = 0;
    while i < n
        invariant
            n == buf@.len(),
            n == old(buf)@.len(),
            i <= n,
            forall|j: int| 0 <= j < i ==> buf@[j] == 0u8,
        decreases n - i,
    {
        buf[i] = 0;
        i = i + 1;
    }
    assert(buf@ =~= zeros(old(buf)@.len()));
}

/// Compare two byte slices.
pub fn bytes_eq(a: &[u8], b: &[u8]) -> (r: bool)
    ensures
        r == (a@ == b@),
{
    if a.len() != b.len() {
        return false;
    }
    let n = a.len();
    let mut i: usize = 0;
    while i < n
        invariant
            n == a@.len(),
            n == b@.len(),
            i <= n,
            forall|j: int| 0 <= j < i ==> a@[j] == b@[j],
        decreases n - i,
    {
        if a[i] != b[i] {
            return false;
        }
        i = i + 1;
    }
    assert(a@ =~= b@);
    true
}

/// Compare two strings by their characters.
pub fn str_eq(a: &str, b: &str) -> (r: bool)
    ensures
        r == (a@ == b@),
{
    let r = bytes_eq(a.as_bytes(), b.as_bytes());
    proof {
        vstd::utf8::encode_utf8_decode_utf8(a@);
        vstd::utf8::encode_utf8_decode_utf8(b@);
    }
    r
}

/// Append all of `s`.
pub fn push_slice(out: &mut Vec<u8>, s: &[u8])
    ensures
        final(out)@ == old(out)@ + s@,
{
    let mut i: usize = 0;
    while i < s.len()
        invariant
            i <= s@.len(),
            out@ == old(out)@ + s@.take(i as int),
        decreases s@.len() - i,
    {
        out.push(s[i]);
        i = i + 1;
        assert(out@ =~= old(out)@ + s@.take(i as int));
    }
    assert(s@.take(s@.len() as int) =~= s@);
}

/// Encoding a decoded 32-bit value gives the bytes back.
pub proof fn lemma_le32_of_u32_le(b0: u8, b1: u8, b2: u8, b3: u8)
    ensures
        le32(u32_le(b0, b1, b2, b3)) == seq![b0, b1, b2, b3],
{
    let v = u32_le(b0, b1, b2, b3);
    assert(v == b0 + 0x100 * b1 + 0x1_0000 * b2 + 0x100_0000 * b3);
    assert(v % 256 == b0);
    assert((v / 0x100) % 256 == b1);
    assert((v / 0x1_0000) % 256 == b2);
    assert((v / 0x100_0000) % 256 == b3);
    assert(le32(v) =~= seq![b0, b1, b2, b3]);
}

/// Decoding the bytes of a 16-bit value gives the value back.
pub proof fn lemma_u16_le_of_le16(v: u16)
    ensures
        u16_le(le16(v)[0], le16(v)[1]) == v,
{
    assert((v % 256) + 256 * ((v / 256) % 256) == v) by (nonlinear_arith)
        requires
            v < 0x1_0000,
    ;
}

/// Decoding the bytes of a signed 16-bit value (its two's-complement bits) gives the value
/// back.
pub proof fn lemma_i16_le_of_le16(v: i16)
    ensures
        i16_le(le16(v as u16)[0], le16(v as u16)[1]) == v,
{
    let u = v as u16;
    assert(v < 0 ==> ((v as u16) as i32) == (v as i32) + 0x1_0000) by (bit_vector);
    assert(v >= 0 ==> ((v as u16) as i32) == (v as i32)) by (bit_vector);
    lemma_u16_le_of_le16(u);
}

/// Decoding the bytes of a 32-bit value gives the value back.
pub proof fn lemma_u32_le_of_le32(v: u32)
    ensures
        u32_le(le32(v)[0], le32(v)[1], le32(v)[2], le32(v)[3]) == v,
{
    assert((v % 256) + 0x100 * ((v / 0x100) % 256) + 0x1_0000 * ((v / 0x1_0000) % 256)
        + 0x100_0000 * ((v / 0x100_0000) % 256) == v) by (bit_vector);
}

} // verus!
