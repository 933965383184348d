//! Laws of the CemuHook CRC-32: it is affine over GF(2) at a fixed length, it detects every
//! single flipped bit, and a message followed by its own CRC always leaves the same residue.

use vstd::prelude::*;

use crate::bytes;
use crate::protocol::{crc32_spec, crc_feed, crc_register, crc_shift, crc_shift_n};

verus! {

/// The CRC register after feeding `data` into a register that holds `init`.
pub open spec fn crc_run(init: u32, data: Seq<u8>) -> u32
    decreases data.len(),
{
    if data.len() == 0 {
        init
    } else {
        crc_feed(crc_run(init, data.drop_last()), data.last())
    }
}

proof fn lemma_register_is_run(data: Seq<u8>)
    ensures
        crc_register(data) == crc_run(0xFFFF_FFFF, data),
    decreases data.len(),
{
    reveal(crc_register);
    if data.len() > 0 {
        lemma_register_is_run(data.drop_last());
    }
}

proof fn lemma_shift_xor(a: u32, b: u32)
    ensures
        crc_shift(a ^ b) == crc_shift(a) ^ crc_shift(b),
{
    assert(crc_shift(a ^ b) == crc_shift(a) ^ crc_shift(b)) by (bit_vector);
}

proof fn lemma_shift_n_xor(a: u32, b: u32, n: nat)
    ensures
        crc_shift_n(a ^ b, n) == crc_shift_n(a, n) ^ crc_shift_n(b, n),
    decreases n,
{
    if n > 0 {
        lemma_shift_n_xor(a, b, (n - 1) as nat);
        lemma_shift_xor(crc_shift_n(a, (n - 1) as nat), crc_shift_n(b, (n - 1) as nat));
    }
}

proof fn lemma_shift_n_add(x: u32, m: nat, n: nat)
    ensures
        crc_shift_n(crc_shift_n(x, m), n) == crc_shift_n(x, m + n),
    decreases n,
{
    if n > 0 {
        lemma_shift_n_add(x, m, (n - 1) as nat);
    }
}

proof fn lemma_feed_xor(r1: u32, b1: u8, r2: u32, b2: u8)
    ensures
        crc_feed(r1 ^ r2, b1 ^ b2) == crc_feed(r1, b1) ^ crc_feed(r2, b2),
{
    assert((r1 ^ r2) ^ ((b1 ^ b2) as u32) == (r1 ^ (b1 as u32)) ^ (r2 ^ (b2 as u32)))
        by (bit_vector);
    lemma_shift_n_xor(r1 ^ (b1 as u32), r2 ^ (b2 as u32), 8);
}

/// Feeding the bytewise XOR of two messages into the XOR of two registers gives the XOR of
/// the two runs.
proof fn lemma_run_xor(i1: u32, i2: u32, y: Seq<u8>, z: Seq<u8>, x: Seq<u8>)
    requires
        y.len() == x.len(),
        z.len() == x.len(),
        forall|k: int| 0 <= k < x.len() ==> x[k] == y[k] ^ z[k],
    ensures
        crc_run(i1 ^ i2, x) == crc_run(i1, y) ^ crc_run(i2, z),
    decreases x.len(),
{
    if x.len() > 0 {
        let (x0, y0, z0) = (x.drop_last(), y.drop_last(), z.drop_last());
        assert forall|k: int| 0 <= k < x0.len() implies x0[k] == y0[k] ^ z0[k] by {
            assert(x[k] == y[k] ^ z[k]);
        }
        lemma_run_xor(i1, i2, y0, z0, x0);
        assert(x.last() == y.last() ^ z.last());
        lemma_feed_xor(crc_run(i1, y0), y.last(), crc_run(i2, z0), z.last());
    }
}

proof fn lemma_run_concat(i: u32, p: Seq<u8>, q: Seq<u8>)
    ensures
        crc_run(i, p + q) == crc_run(crc_run(i, p), q),
    decreases q.len(),
{
    if q.len() == 0 {
        assert(p + q =~= p);
    } else {
        assert((p + q).drop_last() =~= p + q.drop_last());
        lemma_run_concat(i, p, q.drop_last());
    }
}

proof fn lemma_shift_n_zero(x: u32, n: nat)
    ensures
        x == 0 ==> crc_shift_n(x, n) == 0,
        x != 0 ==> crc_shift_n(x, n) != 0,
    decreases n,
{
    if n > 0 {
        lemma_shift_n_zero(x, (n - 1) as nat);
        let y = crc_shift_n(x, (n - 1) as nat);
        assert(y == 0u32 ==> crc_shift(y) == 0u32) by (bit_vector);
        assert(y != 0u32 ==> crc_shift(y) != 0u32) by (bit_vector);
    }
}

/// Zero bytes keep a zero register zero and a nonzero register nonzero.
proof fn lemma_run_zeros(r: u32, n: nat)
    ensures
        r == 0 ==> crc_run(r, bytes::zeros(n)) == 0,
        r != 0 ==> crc_run(r, bytes::zeros(n)) != 0,
    decreases n,
{
    if n > 0 {
        assert(bytes::zeros(n).drop_last() =~= bytes::zeros((n - 1) as nat));
        lemma_run_zeros(r, (n - 1) as nat);
        let s = crc_run(r, bytes::zeros((n - 1) as nat));
        assert(s ^ (0u8 as u32) == s) by (bit_vector);
        lemma_shift_n_zero(s, 8);
    }
}

proof fn lemma_xor_bytes(x: u8, m: u8)
    ensures
        x ^ x == 0,
        x ^ (x ^ m) == m,
{
    assert(x ^ x == 0u8) by (bit_vector);
    assert(x ^ (x ^ m) == m) by (bit_vector);
}

/// The CRC-32 is affine over GF(2) at a fixed length: the CRC-32 of the bytewise XOR of three
/// equally long messages is the XOR of their CRC-32s.
pub proof fn lemma_crc32_affine(a: Seq<u8>, b: Seq<u8>, c: Seq<u8>, x: Seq<u8>)
    requires
        a.len() == x.len(),
        b.len() == x.len(),
        c.len() == x.len(),
        forall|i: int| 0 <= i < x.len() ==> x[i] == a[i] ^ b[i] ^ c[i],
    ensures
        crc32_spec(x) == crc32_spec(a) ^ crc32_spec(b) ^ crc32_spec(c),
{
    let y = Seq::new(x.len(), |i: int| a[i] ^ b[i]);
    lemma_run_xor(0xFFFF_FFFF, 0xFFFF_FFFF, a, b, y);
    lemma_run_xor(0xFFFF_FFFFu32 ^ 0xFFFF_FFFFu32, 0xFFFF_FFFF, y, c, x);
    assert((0xFFFF_FFFFu32 ^ 0xFFFF_FFFFu32) ^ 0xFFFF_FFFFu32 == 0xFFFF_FFFFu32) by (bit_vector);
    lemma_register_is_run(a);
    lemma_register_is_run(b);
    lemma_register_is_run(c);
    lemma_register_is_run(x);
    let (ra, rb, rc) = (crc_register(a), crc_register(b), crc_register(c));
    assert(!(ra ^ rb ^ rc) == !ra ^ !rb ^ !rc) by (bit_vector);
}

/// The CRC-32 tells apart any two equally long messages that differ in exactly one bit.
pub proof fn lemma_crc32_detects_bit_flip(a: Seq<u8>, b: Seq<u8>, k: int, j: u8)
    requires
        a.len() == b.len(),
        0 <= k < a.len(),
        j < 8,
        b[k] == a[k] ^ (1u8 << j),
        forall|i: int| 0 <= i < a.len() && i != k ==> b[i] == a[i],
    ensures
        crc32_spec(a) != crc32_spec(b),
{
    let m = 1u8 << j;
    assert((1u8 << j) != 0u8) by (bit_vector)
        requires
            j < 8,
    ;
    let tail = (a.len() - k - 1) as nat;
    let e = bytes::zeros(k as nat) + seq![m] + bytes::zeros(tail);
    assert forall|i: int| 0 <= i < a.len() implies e[i] == a[i] ^ b[i] by {
        lemma_xor_bytes(a[i], m);
    }
    lemma_run_xor(0xFFFF_FFFF, 0xFFFF_FFFF, a, b, e);
    assert(0xFFFF_FFFFu32 ^ 0xFFFF_FFFFu32 == 0u32) by (bit_vector);
    lemma_run_concat(0, bytes::zeros(k as nat) + seq![m], bytes::zeros(tail));
    lemma_run_concat(0, bytes::zeros(k as nat), seq![m]);
    lemma_run_zeros(0, k as nat);
    assert(seq![m].drop_last() =~= Seq::<u8>::empty());
    assert(0u32 ^ (m as u32) != 0u32) by (bit_vector)
        requires
            m != 0u8,
    ;
    lemma_shift_n_zero(0u32 ^ (m as u32), 8);
    assert(crc_run(0, Seq::<u8>::empty()) == 0);
    assert(crc_run(0, seq![m]) == crc_feed(0, m));
    assert(crc_run(0, bytes::zeros(k as nat) + seq![m]) == crc_feed(0, m));
    lemma_run_zeros(crc_feed(0, m), tail);
    assert(crc_run(0, e) != 0);
    lemma_register_is_run(a);
    lemma_register_is_run(b);
    let (ra, rb) = (crc_register(a), crc_register(b));
    assert(ra ^ rb != 0u32 ==> !ra != !rb) by (bit_vector);
}

/// One byte fed into `s`, where `b` is the low byte of `h`: the register's XOR with the rest
/// of `h` is eight shifts of `s ^ h`.
proof fn lemma_feed_step(s: u32, h: u32, b: u8)
    requires
        b as u32 == h & 0xFF,
    ensures
        crc_feed(s, b) ^ (h >> 8u32) == crc_shift_n(s ^ h, 8),
{
    assert(s ^ h == (s ^ (b as u32)) ^ (h ^ (b as u32))) by (bit_vector);
    lemma_shift_n_xor(s ^ (b as u32), h ^ (b as u32), 8);
    let w = h ^ (b as u32);
    assert(w & 0xFF == 0u32) by (bit_vector)
        requires
            b as u32 == h & 0xFF,
            w == h ^ (b as u32),
    ;
    assert(crc_shift(w) == w >> 1u32) by (bit_vector)
        requires
            w & 0xFF == 0u32,
    ;
    assert(crc_shift(w >> 1u32) == w >> 2u32) by (bit_vector)
        requires
            w & 0xFF == 0u32,
    ;
    assert(crc_shift(w >> 2u32) == w >> 3u32) by (bit_vector)
        requires
            w & 0xFF == 0u32,
    ;
    assert(crc_shift(w >> 3u32) == w >> 4u32) by (bit_vector)
        requires
            w & 0xFF == 0u32,
    ;
    assert(crc_shift(w >> 4u32) == w >> 5u32) by (bit_vector)
        requires
            w & 0xFF == 0u32,
    ;
    assert(crc_shift(w >> 5u32) == w >> 6u32) by (bit_vector)
        requires
            w & 0xFF == 0u32,
    ;
    assert(crc_shift(w >> 6u32) == w >> 7u32) by (bit_vector)
        requires
            w & 0xFF == 0u32,
    ;
    assert(crc_shift(w >> 7u32) == w >> 8u32) by (bit_vector)
        requires
            w & 0xFF == 0u32,
    ;
    assert(w >> 8u32 == h >> 8u32) by (bit_vector)
        requires
            b as u32 == h & 0xFF,
            w == h ^ (b as u32),
    ;
    reveal_with_fuel(crc_shift_n, 9);
}

/// Feeding the four little-endian bytes of `v` into `r` is 32 shifts of `r ^ v`.
proof fn lemma_run_le32(r: u32, v: u32)
    ensures
        crc_run(r, bytes::le32(v)) == crc_shift_n(r ^ v, 32),
{
    let (b0, b1, b2, b3) = (
        (v % 256) as u8,
        ((v / 0x100) % 256) as u8,
        ((v / 0x1_0000) % 256) as u8,
        ((v / 0x100_0000) % 256) as u8,
    );
    assert(((v % 256u32) as u8) as u32 == v & 0xFFu32) by (bit_vector);
    assert((((v / 0x100u32) % 256u32) as u8) as u32 == (v >> 8u32) & 0xFFu32) by (bit_vector);
    assert((((v / 0x1_0000u32) % 256u32) as u8) as u32 == (v >> 16u32) & 0xFFu32) by (bit_vector);
    assert((((v / 0x100_0000u32) % 256u32) as u8) as u32 == (v >> 24u32) & 0xFFu32)
        by (bit_vector);
    assert((v >> 8u32) >> 8u32 == v >> 16u32 && (v >> 16u32) >> 8u32 == v >> 24u32 && (v
        >> 24u32) >> 8u32 == 0u32) by (bit_vector);
    let s1 = crc_feed(r, b0);
    let s2 = crc_feed(s1, b1);
    let s3 = crc_feed(s2, b2);
    let s4 = crc_feed(s3, b3);
    lemma_feed_step(r, v, b0);
    lemma_feed_step(s1, v >> 8u32, b1);
    lemma_feed_step(s2, v >> 16u32, b2);
    lemma_feed_step(s3, v >> 24u32, b3);
    lemma_shift_n_add(r ^ v, 8, 8);
    lemma_shift_n_add(r ^ v, 16, 8);
    lemma_shift_n_add(r ^ v, 24, 8);
    assert(s4 ^ 0u32 == s4) by (bit_vector);
    let q = bytes::le32(v);
    assert(q =~= seq![b0, b1, b2, b3]);
    assert(q.drop_last() =~= seq![b0, b1, b2]);
    assert(q.drop_last().drop_last() =~= seq![b0, b1]);
    assert(q.drop_last().drop_last().drop_last() =~= seq![b0]);
    assert(q.drop_last().drop_last().drop_last().drop_last() =~= Seq::<u8>::empty());
    reveal_with_fuel(crc_run, 5);
}

proof fn lemma_append_own_crc(a: Seq<u8>)
    ensures
        crc_register(a + bytes::le32(crc32_spec(a))) == crc_shift_n(0xFFFF_FFFF, 32),
{
    let r = crc_register(a);
    lemma_register_is_run(a);
    lemma_register_is_run(a + bytes::le32(!r));
    lemma_run_concat(0xFFFF_FFFF, a, bytes::le32(!r));
    lemma_run_le32(r, !r);
    assert(r ^ !r == 0xFFFF_FFFFu32) by (bit_vector);
}

/// Appending a message's own CRC-32, little-endian, always leaves one and the same CRC-32
/// (the residue), whatever the message.
pub proof fn lemma_crc32_residue(a: Seq<u8>, b: Seq<u8>)
    ensures
        crc32_spec(a + bytes::le32(crc32_spec(a))) == crc32_spec(b + bytes::le32(crc32_spec(b))),
{
    lemma_append_own_crc(a);
    lemma_append_own_crc(b);
}

} // verus!
