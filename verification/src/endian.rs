//! Byte-order conversions.
//!
//! The byte-level encodings of fixed-width integers are stated here as
//! functions on sequences of bytes, once for big-endian and once for
//! little-endian order, together with the facts that make them inverse to each
//! other. The conversions themselves are done by the `byteorder` crate, reached
//! through the small trusted wrappers at the end of this file.

use vstd::prelude::*;
use byteorder::ByteOrder;

verus! {

/// `256^n`, the number of values that `n` bytes can hold.
pub open spec fn byte_pow(n: nat) -> nat
    decreases n,
{
    if n == 0 {
        1
    } else {
        256 * byte_pow((n - 1) as nat)
    }
}

/// The number whose big-endian encoding is `s` (most significant byte first).
pub open spec fn be_value(s: Seq<u8>) -> nat
    decreases s.len(),
{
    if s.len() == 0 {
        0
    } else {
        be_value(s.drop_last()) * 256 + s.last() as nat
    }
}

/// The `n`-byte big-endian encoding of `v` (taken modulo `256^n`).
pub open spec fn be_bytes(v: nat, n: nat) -> Seq<u8>
    decreases n,
{
    if n == 0 {
        Seq::empty()
    } else {
        be_bytes(v / 256, (n - 1) as nat).push((v % 256) as u8)
    }
}

/// The number whose little-endian encoding is `s` (least significant byte first).
pub open spec fn le_value(s: Seq<u8>) -> nat
    decreases s.len(),
{
    if s.len() == 0 {
        0
    } else {
        s[0] as nat + 256 * le_value(s.drop_first())
    }
}

/// The `n`-byte little-endian encoding of `v` (taken modulo `256^n`).
pub open spec fn le_bytes(v: nat, n: nat) -> Seq<u8>
    decreases n,
{
    if n == 0 {
        Seq::empty()
    } else {
        seq![(v % 256) as u8] + le_bytes(v / 256, (n - 1) as nat)
    }
}

pub proof fn lemma_byte_pow_values()
    ensures
        byte_pow(1) == 0x100,
        byte_pow(2) == 0x1_0000,
        byte_pow(3) == 0x100_0000,
        byte_pow(4) == 0x1_0000_0000,
        byte_pow(8) == 0x1_0000_0000_0000_0000,
{
    reveal_with_fuel(byte_pow, 9);
}

proof fn lemma_div_mod_256(v: nat)
    ensures
        v == (v / 256) * 256 + v % 256,
        v % 256 < 256,
{
}

proof fn lemma_split_256(a: nat, b: nat)
    requires
        b < 256,
    ensures
        (a * 256 + b) / 256 == a,
        (a * 256 + b) % 256 == b,
{
    assert((a * 256 + b) / 256 == a && (a * 256 + b) % 256 == b) by (nonlinear_arith)
        requires
            b < 256,
    ;
}

proof fn lemma_quotient_bound(v: nat, p: nat)
    requires
        v < 256 * p,
    ensures
        v / 256 < p,
{
    assert(v / 256 < p) by (nonlinear_arith)
        requires
            v < 256 * p,
    ;
}

pub proof fn lemma_be_bytes_len(v: nat, n: nat)
    ensures
        be_bytes(v, n).len() == n,
    decreases n,
{
    if n > 0 {
        lemma_be_bytes_len(v / 256, (n - 1) as nat);
    }
}

pub proof fn lemma_le_bytes_len(v: nat, n: nat)
    ensures
        le_bytes(v, n).len() == n,
    decreases n,
{
    if n > 0 {
        lemma_le_bytes_len(v / 256, (n - 1) as nat);
    }
}

pub proof fn lemma_be_value_bound(s: Seq<u8>)
    ensures
        be_value(s) < byte_pow(s.len()),
    decreases s.len(),
{
    if s.len() > 0 {
        let p = byte_pow((s.len() - 1) as nat);
        lemma_be_value_bound(s.drop_last());
        let a = be_value(s.drop_last());
        let b = s.last() as nat;
        assert(a * 256 + b < 256 * p) by (nonlinear_arith)
            requires
                a < p,
                b < 256,
        ;
    }
}

pub proof fn lemma_le_value_bound(s: Seq<u8>)
    ensures
        le_value(s) < byte_pow(s.len()),
    decreases s.len(),
{
    if s.len() > 0 {
        let p = byte_pow((s.len() - 1) as nat);
        lemma_le_value_bound(s.drop_first());
        let a = le_value(s.drop_first());
        let b = s[0] as nat;
        assert(b + 256 * a < 256 * p) by (nonlinear_arith)
            requires
                a < p,
                b < 256,
        ;
    }
}

/// Decoding a big-endian encoding gives the value back.
pub proof fn lemma_be_value_of_bytes(v: nat, n: nat)
    requires
        v < byte_pow(n),
    ensures
        be_value(be_bytes(v, n)) == v,
    decreases n,
{
    if n > 0 {
        lemma_quotient_bound(v, byte_pow((n - 1) as nat));
        lemma_be_value_of_bytes(v / 256, (n - 1) as nat);
        lemma_div_mod_256(v);
        let s = be_bytes(v, n);
        assert(s.drop_last() =~= be_bytes(v / 256, (n - 1) as nat));
    } else {
        assert(v == 0);
    }
}

/// Encoding the value of a byte sequence gives the sequence back.
pub proof fn lemma_be_bytes_of_value(s: Seq<u8>)
    ensures
        be_bytes(be_value(s), s.len()) =~= s,
    decreases s.len(),
{
    if s.len() > 0 {
        let a = be_value(s.drop_last());
        let b = s.last() as nat;
        lemma_split_256(a, b);
        lemma_be_bytes_of_value(s.drop_last());
        assert(s =~= s.drop_last().push(s.last()));
    }
}

/// Decoding a little-endian encoding gives the value back.
pub proof fn lemma_le_value_of_bytes(v: nat, n: nat)
    requires
        v < byte_pow(n),
    ensures
        le_value(le_bytes(v, n)) == v,
    decreases n,
{
    if n > 0 {
        lemma_quotient_bound(v, byte_pow((n - 1) as nat));
        lemma_le_value_of_bytes(v / 256, (n - 1) as nat);
        lemma_div_mod_256(v);
        let s = le_bytes(v, n);
        assert(s.drop_first() =~= le_bytes(v / 256, (n - 1) as nat));
    } else {
        assert(v == 0);
    }
}

/// Encoding the value of a byte sequence gives the sequence back.
pub proof fn lemma_le_bytes_of_value(s: Seq<u8>)
    ensures
        le_bytes(le_value(s), s.len()) =~= s,
    decreases s.len(),
{
    if s.len() > 0 {
        let a = le_value(s.drop_first());
        let b = s[0] as nat;
        assert((b + 256 * a) / 256 == a && (b + 256 * a) % 256 == b) by (nonlinear_arith)
            requires
                b < 256,
        ;
        lemma_le_bytes_of_value(s.drop_first());
        assert(s =~= seq![s[0]] + s.drop_first());
    }
}

// ----------------------------------------------------------------------------
// Conversions done by the `byteorder` crate.
// ----------------------------------------------------------------------------

/// `byteorder::BigEndian::read_u16`: the first two bytes of `buf` as a
/// big-endian number (`u16::from_be_bytes`). It panics on a shorter buffer.
#[verifier::external_body]
pub(crate) fn be_read_u16(buf: &[u8]) -> (v: u16)
    requires
        buf@.len() >= 2,
    ensures
        v as nat == be_value(buf@.take(2)),
{
    byteorder::BigEndian::read_u16(buf)
}

/// `byteorder::BigEndian::read_u24`: the first three bytes of `buf` as a
/// big-endian number. It panics on a shorter buffer.
#[verifier::external_body]
pub(crate) fn be_read_u24(buf: &[u8]) -> (v: u32)
    requires
        buf@.len() >= 3,
    ensures
        v as nat == be_value(buf@.take(3)),
{
    byteorder::BigEndian::read_u24(buf)
}

/// `byteorder::BigEndian::read_u32`: the first four bytes of `buf` as a
/// big-endian number (`u32::from_be_bytes`). It panics on a shorter buffer.
#[verifier::external_body]
pub(crate) fn be_read_u32(buf: &[u8]) -> (v: u32)
    requires
        buf@.len() >= 4,
    ensures
        v as nat == be_value(buf@.take(4)),
{
    byteorder::BigEndian::read_u32(buf)
}

/// `byteorder::BigEndian::read_u64`: the first eight bytes of `buf` as a
/// big-endian number (`u64::from_be_bytes`). It panics on a shorter buffer.
#[verifier::external_body]
pub(crate) fn be_read_u64(buf: &[u8]) -> (v: u64)
    requires
        buf@.len() >= 8,
    ensures
        v as nat == be_value(buf@.take(8)),
{
    byteorder::BigEndian::read_u64(buf)
}

/// `byteorder::BigEndian::write_u16` into a fresh two-byte array: the bytes of
/// `v.to_be_bytes()`.
#[verifier::external_body]
pub(crate) fn be_write_u16(v: u16) -> (b: [u8; 2])
    ensures
        b@ == be_bytes(v as nat, 2),
{
    let mut b = [0u8; 2];
    byteorder::BigEndian::write_u16(&mut b, v);
    b
}

/// `byteorder::BigEndian::write_u24` into a fresh three-byte array: the low
/// three bytes of `v`, most significant first. It panics when `v` needs more
/// than three bytes.
#[verifier::external_body]
pub(crate) fn be_write_u24(v: u32) -> (b: [u8; 3])
    requires
        v <= 0xff_ffff,
    ensures
        b@ == be_bytes(v as nat, 3),
{
    let mut b = [0u8; 3];
    byteorder::BigEndian::write_u24(&mut b, v);
    b
}

/// `byteorder::BigEndian::write_u32` into a fresh four-byte array: the bytes of
/// `v.to_be_bytes()`.
#[verifier::external_body]
pub(crate) fn be_write_u32(v: u32) -> (b: [u8; 4])
    ensures
        b@ == be_bytes(v as nat, 4),
{
    let mut b = [0u8; 4];
    byteorder::BigEndian::write_u32(&mut b, v);
    b
}

/// `byteorder::BigEndian::write_u64` into a fresh eight-byte array: the bytes
/// of `v.to_be_bytes()`.
#[verifier::external_body]
pub(crate) fn be_write_u64(v: u64) -> (b: [u8; 8])
    ensures
        b@ == be_bytes(v as nat, 8),
{
    let mut b = [0u8; 8];
    byteorder::BigEndian::write_u64(&mut b, v);
    b
}

/// `byteorder::LittleEndian::read_u16`: the first two bytes of `buf` as a
/// little-endian number (`u16::from_le_bytes`). It panics on a shorter buffer.
#[verifier::external_body]
pub(crate) fn le_read_u16(buf: &[u8]) -> (v: u16)
    requires
        buf@.len() >= 2,
    ensures
        v as nat == le_value(buf@.take(2)),
{
    byteorder::LittleEndian::read_u16(buf)
}

/// `byteorder::LittleEndian::read_u32`: the first four bytes of `buf` as a
/// little-endian number (`u32::from_le_bytes`). It panics on a shorter buffer.
#[verifier::external_body]
pub(crate) fn le_read_u32(buf: &[u8]) -> (v: u32)
    requires
        buf@.len() >= 4,
    ensures
        v as nat == le_value(buf@.take(4)),
{
    byteorder::LittleEndian::read_u32(buf)
}

/// `byteorder::LittleEndian::read_u64`: the first eight bytes of `buf` as a
/// little-endian number (`u64::from_le_bytes`). It panics on a shorter buffer.
#[verifier::external_body]
pub(crate) fn le_read_u64(buf: &[u8]) -> (v: u64)
    requires
        buf@.len() >= 8,
    ensures
        v as nat == le_value(buf@.take(8)),
{
    byteorder::LittleEndian::read_u64(buf)
}

/// `byteorder::LittleEndian::write_u16` into a fresh two-byte array: the bytes
/// of `v.to_le_bytes()`.
#[verifier::external_body]
pub(crate) fn le_write_u16(v: u16) -> (b: [u8; 2])
    ensures
        b@ == le_bytes(v as nat, 2),
{
    let mut b = [0u8; 2];
    byteorder::LittleEndian::write_u16(&mut b, v);
    b
}

/// `byteorder::LittleEndian::write_u32` into a fresh four-byte array: the
/// bytes of `v.to_le_bytes()`.
#[verifier::external_body]
pub(crate) fn le_write_u32(v: u32) -> (b: [u8; 4])
    ensures
        b@ == le_bytes(v as nat, 4),
{
    let mut b = [0u8; 4];
    byteorder::LittleEndian::write_u32(&mut b, v);
    b
}

/// `byteorder::LittleEndian::write_u64` into a fresh eight-byte array: the
/// bytes of `v.to_le_bytes()`.
#[verifier::external_body]
pub(crate) fn le_write_u64(v: u64) -> (b: [u8; 8])
    ensures
        b@ == le_bytes(v as nat, 8),
{
    let mut b = [0u8; 8];
    byteorder::LittleEndian::write_u64(&mut b, v);
    b
}


/// The four bytes of `v`, most significant first.
pub open spec fn msb_first4(v: u32) -> Seq<u8> {
    seq![(v / 0x100_0000) as u8, ((v / 0x1_0000) % 0x100) as u8, ((v / 0x100) % 0x100) as u8, (v % 0x100) as u8]
}

/// The two bytes of `v`, most significant first.
pub open spec fn msb_first2(v: u16) -> Seq<u8> {
    seq![(v / 0x100) as u8, (v % 0x100) as u8]
}

/// The four bytes of `v`, least significant first.
pub open spec fn lsb_first4(v: u32) -> Seq<u8> {
    seq![(v % 0x100) as u8, ((v / 0x100) % 0x100) as u8, ((v / 0x1_0000) % 0x100) as u8, (v / 0x100_0000) as u8]
}

/// Big-endian bytes are the most significant byte first: for two and four
/// bytes, digit by digit.
pub proof fn lemma_be_bytes_digits(v4: u32, v2: u16)
    ensures
        be_bytes(v4 as nat, 4) == msb_first4(v4),
        be_bytes(v2 as nat, 2) == msb_first2(v2),
{
    reveal_with_fuel(be_bytes, 5);
    let a = v4 as nat;
    assert(a / 256 / 256 == a / 0x1_0000) by (nonlinear_arith);
    assert(a / 256 / 256 / 256 == a / 0x100_0000) by (nonlinear_arith);
    assert(a / 0x100_0000 < 256) by (nonlinear_arith)
        requires
            a < 0x1_0000_0000,
    ;
    assert(a / 0x100_0000 / 256 == 0) by (nonlinear_arith)
        requires
            a < 0x1_0000_0000,
    ;
    let b = v2 as nat;
    assert(b / 256 < 256) by (nonlinear_arith)
        requires
            b < 0x1_0000,
    ;
    assert(be_bytes(a, 4) =~= msb_first4(v4));
    assert(be_bytes(b, 2) =~= msb_first2(v2));
}

/// Little-endian bytes are the least significant byte first, digit by
/// digit.
pub proof fn lemma_le_bytes_digits(v4: u32)
    ensures
        le_bytes(v4 as nat, 4) == lsb_first4(v4),
{
    reveal_with_fuel(le_bytes, 5);
    let a = v4 as nat;
    assert(a / 256 / 256 == a / 0x1_0000) by (nonlinear_arith);
    assert(a / 256 / 256 / 256 == a / 0x100_0000) by (nonlinear_arith);
    assert(a / 0x100_0000 < 256) by (nonlinear_arith)
        requires
            a < 0x1_0000_0000,
    ;
    assert(le_bytes(a, 4) =~= lsb_first4(v4));
}

/// A big-endian value read from four bytes weighs the first byte most.
pub proof fn lemma_be_value_digits(s: Seq<u8>)
    ensures
        s.len() == 4 ==> be_value(s) == s[0] * 0x100_0000 + s[1] * 0x1_0000 + s[2] * 0x100 + s[3],
        s.len() == 2 ==> be_value(s) == s[0] * 0x100 + s[1],
{
    reveal_with_fuel(be_value, 5);
    if s.len() == 4 {
        assert(s.drop_last().drop_last().drop_last().drop_last() =~= Seq::<u8>::empty());
        assert(s.drop_last().drop_last().drop_last() =~= seq![s[0]]);
        assert(s.drop_last().drop_last() =~= seq![s[0], s[1]]);
        assert(s.drop_last() =~= seq![s[0], s[1], s[2]]);
    }
    if s.len() == 2 {
        assert(s.drop_last().drop_last() =~= Seq::<u8>::empty());
        assert(s.drop_last() =~= seq![s[0]]);
    }
}

/// A little-endian value read from four bytes weighs the last byte most.
pub proof fn lemma_le_value_digits(s: Seq<u8>)
    requires
        s.len() == 4,
    ensures
        le_value(s) == s[0] + s[1] * 0x100 + s[2] * 0x1_0000 + s[3] * 0x100_0000,
{
    reveal_with_fuel(le_value, 5);
    assert(s.drop_first().drop_first().drop_first().drop_first() =~= Seq::<u8>::empty());
    assert(s.drop_first().drop_first().drop_first() =~= seq![s[3]]);
    assert(s.drop_first().drop_first() =~= seq![s[2], s[3]]);
    assert(s.drop_first() =~= seq![s[1], s[2], s[3]]);
}

} // verus!
