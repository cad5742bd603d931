//! I/O interfaces for manipulating byte buffers.
//!
//! [`BitBuf`] treats a byte as a queue of bits; [`Read`] and [`Write`] are
//! the byte-level interfaces that wire formats are read from and written to;
//! [`Cursor`] tracks how much of a mutable buffer has been written.

use vstd::prelude::*;
use crate::endian::{
    be_bytes, be_read_u16, be_read_u24, be_read_u32, be_read_u64, be_value, be_write_u16,
    be_write_u24, be_write_u32, be_write_u64, byte_pow, le_bytes, le_read_u16, le_read_u32,
    le_read_u64, le_value, le_write_u16, le_write_u32, le_write_u64, lemma_be_value_bound,
    lemma_byte_pow_values,
};

verus! {

broadcast use {vstd::slice::group_slice_axioms, vstd::array::group_array_axioms};

/// The smallest byte with the `n` low bits set, the bits above them clear;
/// every bit is set from `n = 8` on.
pub open spec fn low_mask(n: nat) -> u8 {
    if n >= 8 {
        0xff
    } else {
        (((1u16 << (n as u16)) - 1) as u16) as u8
    }
}

/// `bits` has no bit set at or above position `len`.
pub open spec fn fits(bits: u8, len: u8) -> bool {
    (bits as u16) >> (len as u16) == 0
}

/// Represents a byte as a queue of bits, for simplifying parsing bit fields
/// out of a byte.
///
/// Bits are written at the least significant end and read from the most
/// significant end (the length tells where that is), so that a sequence of
/// reads undoes a sequence of writes in the same order.
pub struct BitBuf {
    // The number of least significant bits that belong to the buffer.
    len: u8,
    bits: u8,
}

/// Returns the "inverse popcnt", the smallest byte with `n` bits set:
/// `2^n - 1`, saturating at `0xff` from `n = 8` on.
pub fn inverse_popcnt(n: usize) -> (m: u8)
    requires
        n < 64,
    ensures
        m == low_mask(n as nat),
{
    let shifted: u64 = 1u64 << (n as u64);
    assert(shifted >= 1) by (bit_vector)
        requires
            n < 64,
            shifted == 1u64 << (n as u64),
    ;
    let m = (shifted - 1) as u8;
    assert(m == low_mask(n as nat)) by (bit_vector)
        requires
            n < 64,
            shifted == 1u64 << (n as u64),
            m == (shifted - 1) as u8,
    ;
    m
}

impl BitBuf {
    #[verifier::type_invariant]
    spec fn well_formed(self) -> bool {
        self.len <= 8 && fits(self.bits, self.len)
    }

    /// The number of bits in the queue.
    pub closed spec fn queue_len(&self) -> nat {
        self.len as nat
    }

    /// The queue as a byte: its bits occupy the low `queue_len()` positions,
    /// the oldest one most significant.
    pub closed spec fn queue_bits(&self) -> u8 {
        self.bits
    }

    /// Creates an empty `BitBuf`.
    pub fn new() -> (b: Self)
        ensures
            b.queue_len() == 0,
            b.queue_bits() == 0,
    {
        assert(fits(0, 0)) by (bit_vector);
        Self { len: 0, bits: 0 }
    }

    /// Creates a new eight-bit `BitBuf` with the given bits.
    pub fn from_bits(bits: u8) -> (b: Self)
        ensures
            b.queue_len() == 8,
            b.queue_bits() == bits,
    {
        assert(fits(bits, 8)) by (bit_vector);
        Self { len: 8, bits }
    }

    /// Returns the number of bits currently in the buffer.
    pub fn len(&self) -> (n: usize)
        ensures
            n == self.queue_len(),
            n <= 8,
    {
        proof {
            use_type_invariant(self);
        }
        self.len as usize
    }

    /// Returns the bits currently in the buffer; all bits beyond `len` are
    /// guaranteed to be zero.
    pub fn bits(&self) -> (b: u8)
        ensures
            b == self.queue_bits(),
            fits(b, self.queue_len() as u8),
    {
        proof {
            use_type_invariant(self);
        }
        self.bits
    }

    /// Reads the `n` most significant bits from `self`, returning them as the
    /// least significant bits of a byte.
    pub fn read_bits(&mut self, n: usize) -> (r: Result<u8, Error>)
        ensures
            n > old(self).queue_len() ==> r == Err::<u8, Error>(Error::BufferExhausted)
                && final(self).queue_len() == old(self).queue_len()
                && final(self).queue_bits() == old(self).queue_bits(),
            n <= old(self).queue_len() ==> {
                let rest = (old(self).queue_len() - n) as nat;
                &&& r == Ok::<u8, Error>(old(self).queue_bits() >> (rest as u8))
                &&& final(self).queue_len() == rest
                &&& final(self).queue_bits() == old(self).queue_bits() & low_mask(rest)
            },
    {
        proof {
            use_type_invariant(&*self);
        }
        if self.len() < n {
            return Err(Error::BufferExhausted);
        }
        if n == 0 {
            let ghost b = self.bits;
            let ghost l = self.len;
            assert(b >> l == 0 && b & low_mask(l as nat) == b) by (bit_vector)
                requires
                    fits(b, l),
                    l <= 8,
            ;
            return Ok(0);
        }
        let mask = inverse_popcnt(n);
        let offset = (self.len() - n) as u8;
        let bits = self.bits;
        let len = self.len;
        let val = (bits >> offset) & mask;
        let rest = bits & !(mask << offset);
        let nn = n as u8;
        assert(val == bits >> offset && rest == bits & low_mask(offset as nat) && fits(rest, offset))
            by (bit_vector)
            requires
                len <= 8,
                1 <= nn <= len,
                offset == len - nn,
                fits(bits, len),
                mask == low_mask(nn as nat),
                val == (bits >> offset) & mask,
                rest == bits & !(mask << offset),
        ;
        *self = BitBuf { len: offset, bits: rest };
        Ok(val)
    }

    /// Reads a single bit, and converts it to `bool`.
    pub fn read_bit(&mut self) -> (r: Result<bool, Error>)
        ensures
            old(self).queue_len() == 0 ==> r == Err::<bool, Error>(Error::BufferExhausted)
                && final(self).queue_len() == 0
                && final(self).queue_bits() == old(self).queue_bits(),
            old(self).queue_len() > 0 ==> {
                let rest = (old(self).queue_len() - 1) as nat;
                &&& r == Ok::<bool, Error>(old(self).queue_bits() >> (rest as u8) != 0)
                &&& final(self).queue_len() == rest
                &&& final(self).queue_bits() == old(self).queue_bits() & low_mask(rest)
            },
    {
        match self.read_bits(1) {
            Ok(b) => Ok(b != 0),
            Err(e) => Err(e),
        }
    }

    /// Writes exactly `n` bits to `self`, taken as the least significant bits
    /// of `bits`.
    pub fn write_bits(&mut self, n: usize, bits: u8) -> (r: Result<(), Error>)
        ensures
            old(self).queue_len() + n > 8 ==> r == Err::<(), Error>(Error::BufferExhausted)
                && final(self).queue_len() == old(self).queue_len()
                && final(self).queue_bits() == old(self).queue_bits(),
            old(self).queue_len() + n <= 8 ==> {
                &&& r == Ok::<(), Error>(())
                &&& final(self).queue_len() == old(self).queue_len() + n
                &&& final(self).queue_bits() == ((((old(self).queue_bits() as u16) << (n as u16))
                    as u8) | (bits & low_mask(n as nat)))
            },
    {
        proof {
            use_type_invariant(&*self);
        }
        if n > 8 - self.len() {
            return Err(Error::BufferExhausted);
        }
        let mask = inverse_popcnt(n);
        let old_bits = self.bits;
        let len = self.len;
        let nn = n as u8;
        let shifted = old_bits.wrapping_shl(n as u32);
        let new_bits = shifted | (bits & mask);
        let new_len = len + nn;
        assert(new_bits == ((((old_bits as u16) << (nn as u16)) as u8) | (bits & low_mask(
            nn as nat,
        ))) && fits(new_bits, new_len)) by (bit_vector)
            requires
                len <= 8,
                nn <= 8 - len,
                new_len == len + nn,
                fits(old_bits, len),
                mask == low_mask(nn as nat),
                shifted == old_bits << ((nn as u32) % 8),
                new_bits == shifted | (bits & mask),
        ;
        *self = BitBuf { len: new_len, bits: new_bits };
        Ok(())
    }

    /// Writes a single bit, represented as a `bool`.
    pub fn write_bit(&mut self, bit: bool) -> (r: Result<(), Error>)
        ensures
            old(self).queue_len() == 8 ==> r == Err::<(), Error>(Error::BufferExhausted)
                && final(self).queue_len() == 8
                && final(self).queue_bits() == old(self).queue_bits(),
            old(self).queue_len() < 8 ==> {
                &&& r == Ok::<(), Error>(())
                &&& final(self).queue_len() == old(self).queue_len() + 1
                &&& final(self).queue_bits() == ((((old(self).queue_bits() as u16) << 1u16)
                    as u8) | (if bit { 1u8 } else { 0u8 }))
            },
    {
        let b: u8 = if bit { 1 } else { 0 };
        let r = self.write_bits(1, b);
        proof {
            assert(low_mask(1) == 1u8) by (bit_vector);
            assert(b & 1u8 == b) by (bit_vector)
                requires
                    b == 0 || b == 1,
            ;
        }
        r
    }

    /// Writes `n` zero bits.
    pub fn write_zero_bits(&mut self, n: usize) -> (r: Result<(), Error>)
        ensures
            old(self).queue_len() + n > 8 ==> r == Err::<(), Error>(Error::BufferExhausted)
                && final(self).queue_len() == old(self).queue_len()
                && final(self).queue_bits() == old(self).queue_bits(),
            old(self).queue_len() + n <= 8 ==> {
                &&& r == Ok::<(), Error>(())
                &&& final(self).queue_len() == old(self).queue_len() + n
                &&& final(self).queue_bits() == (((old(self).queue_bits() as u16) << (
                n as u16)) as u8)
            },
    {
        let ghost before = self.queue_bits();
        let r = self.write_bits(n, 0);
        proof {
            let s = ((before as u16) << (n as u16)) as u8;
            let m = low_mask(n as nat);
            assert(s | (0u8 & m) == s) by (bit_vector);
        }
        r
    }
}

/// The queue law of [`BitBuf`]: after `n` bits are written behind a queue of
/// `len` bits, reading `len` bits gives back exactly the old queue, and what
/// remains is exactly the `n` bits written.
pub proof fn lemma_bit_queue(len: u8, bits: u8, n: u8, x: u8)
    requires
        len + n <= 8,
        fits(bits, len),
    ensures
        ({
            let after = ((((bits as u16) << (n as u16)) as u8) | (x & low_mask(n as nat)));
            &&& after >> n == bits
            &&& after & low_mask(n as nat) == x & low_mask(n as nat)
            &&& fits(after, (len + n) as u8)
        }),
{
    let after = ((((bits as u16) << (n as u16)) as u8) | (x & low_mask(n as nat)));
    assert(after >> n == bits && after & low_mask(n as nat) == x & low_mask(n as nat) && fits(
        after,
        (len + n) as u8,
    )) by (bit_vector)
        requires
            len + n <= 8,
            fits(bits, len),
            after == ((((bits as u16) << (n as u16)) as u8) | (x & low_mask(n as nat))),
    ;
}

/// A generic, low-level I/O error.
#[derive(Copy, Clone, Debug, PartialEq, Eq)]
#[non_exhaustive]
pub enum Error {
    /// Indicates that some underlying buffer has been completely used up,
    /// either for reading from or writing to.
    BufferExhausted,
    /// Indicates that an unspecified, internal failure occurred.
    Internal,
}

/// What a byte sink answered to a write of the bytes left.
#[derive(Clone, Copy, PartialEq, Eq, Structural, Debug)]
pub enum WriteAttempt {
    /// It took this many bytes from the front.
    Wrote(usize),
    /// It was interrupted before taking any.
    Interrupted,
    /// It failed otherwise.
    Failed,
}

/// One step of writing a whole buffer to a byte sink that may take part of
/// it: with `remaining` bytes left and the sink's answer `attempt`, the bytes
/// still left (the writing goes on while any are), or the error that ends
/// it. An interrupted write is tried again; any other failure is an
/// `Internal` error.
pub fn write_all_step(remaining: usize, attempt: WriteAttempt) -> (r: Result<usize, Error>)
    requires
        attempt matches WriteAttempt::Wrote(n) ==> n <= remaining,
    ensures
        match attempt {
            WriteAttempt::Wrote(n) => r == Ok::<usize, Error>((remaining - n) as usize),
            WriteAttempt::Interrupted => r == Ok::<usize, Error>(remaining),
            WriteAttempt::Failed => r == Err::<usize, Error>(Error::Internal),
        },
{
    match attempt {
        WriteAttempt::Wrote(n) => Ok(remaining - n),
        WriteAttempt::Interrupted => Ok(remaining),
        WriteAttempt::Failed => Err(Error::Internal),
    }
}

} // verus!

verus! {

/// A big-endian integer, which can be read and written.
///
/// `width()` is the number of bytes it occupies on the wire and `value()` the
/// number it stands for; its encoding is `be_bytes(value(), width())`.
pub trait BeInt: Sized + Copy {
    spec fn width() -> nat;

    spec fn value(self) -> nat;

    /// Reads a value of type `Self`, in big-endian order.
    fn read_from<'a, R: Read<'a>>(r: &mut R) -> (res: Result<Self, Error>)
        ensures
            old(r)@.len() < Self::width() ==> res == Err::<Self, Error>(Error::BufferExhausted)
                && final(r)@ == old(r)@,
            old(r)@.len() >= Self::width() ==> (res matches Ok(v) && v.value() == be_value(
                old(r)@.take(Self::width() as int),
            ) && final(r)@ == old(r)@.skip(Self::width() as int)),
    ;

    /// Writes a value of type `Self`, in big-endian order.
    fn write_to<W: Write>(self, w: &mut W) -> (res: Result<(), Error>)
        requires
            old(w).can_write(),
        ensures
            final(w).can_write(),
            Self::width() <= old(w).room() ==> res == Ok::<(), Error>(()) && final(w).written()
                == old(w).written() + be_bytes(self.value(), Self::width()) && final(w).room()
                == old(w).room() - Self::width(),
            Self::width() > old(w).room() ==> res == Err::<(), Error>(Error::BufferExhausted)
                && final(w).written() == old(w).written() && final(w).room() == old(w).room(),
    ;
}

/// Represents a place that bytes can be read from, such as a `&[u8]`.
///
/// The view of a reader is the sequence of bytes still to be read.
pub trait Read<'a> {
    /// The bytes still to be read.
    spec fn view(&self) -> Seq<u8>;

    /// Reads exactly `n` bytes from `self`; there are no partial reads.
    fn read_bytes(&mut self, n: usize) -> (r: Result<&'a [u8], Error>)
        ensures
            n <= old(self)@.len() ==> (r matches Ok(b) && b@ == old(self)@.take(n as int)
                && final(self)@ == old(self)@.skip(n as int)),
            n > old(self)@.len() ==> (r matches Err(e) && e == Error::BufferExhausted
                && final(self)@ == old(self)@),
    ;

    /// Returns the number of bytes still available to read.
    fn remaining_data(&self) -> (n: usize)
        ensures
            n == self@.len(),
    ;
}

impl<'a> Read<'a> for &'a [u8] {
    open spec fn view(&self) -> Seq<u8> {
        (**self)@
    }

    fn read_bytes(&mut self, n: usize) -> (r: Result<&'a [u8], Error>) {
        if self.len() < n {
            return Err(Error::BufferExhausted);
        }
        let (result, rest) = self.split_at(n);
        *self = rest;
        Ok(result)
    }

    fn remaining_data(&self) -> (n: usize) {
        self.len()
    }
}

/// A mutable buffer read from the front; what was read stays readable
/// through the returned slices.
impl<'a> Read<'a> for &'a mut [u8] {
    open spec fn view(&self) -> Seq<u8> {
        (**self)@
    }

    fn read_bytes(&mut self, n: usize) -> (r: Result<&'a [u8], Error>) {
        if self.len() < n {
            return Err(Error::BufferExhausted);
        }
        let mut whole: &'a mut [u8] = &mut [];
        core::mem::swap(self, &mut whole);
        let (result, rest) = whole.split_at_mut(n);
        *self = rest;
        Ok(result)
    }

    fn remaining_data(&self) -> (n: usize) {
        self.len()
    }
}

/// Represents a place that bytes can be written to.
///
/// `written()` is everything written so far and `room()` how many more bytes
/// fit; a write either fits entirely or fails leaving both unchanged.
pub trait Write {
    /// The writer is in a state that accepts writes.
    spec fn can_write(&self) -> bool;

    spec fn written(&self) -> Seq<u8>;

    spec fn room(&self) -> nat;

    /// Attempt to write `buf` exactly to `self`; there are no partial writes.
    fn write_bytes(&mut self, buf: &[u8]) -> (r: Result<(), Error>)
        requires
            old(self).can_write(),
        ensures
            final(self).can_write(),
            buf@.len() <= old(self).room() ==> r == Ok::<(), Error>(()) && final(self).written()
                == old(self).written() + buf@ && final(self).room() == old(self).room()
                - buf@.len(),
            buf@.len() > old(self).room() ==> r == Err::<(), Error>(Error::BufferExhausted)
                && final(self).written() == old(self).written() && final(self).room() == old(
                self,
            ).room(),
    ;
}

/// Reading of fixed-width integers, available on every [`Read`].
pub trait ReadInt<'a>: Read<'a> + Sized {
    /// Reads a big-endian integer.
    fn read_be<I: BeInt>(&mut self) -> (res: Result<I, Error>)
        ensures
            old(self)@.len() < I::width() ==> res == Err::<I, Error>(Error::BufferExhausted)
                && final(self)@ == old(self)@,
            old(self)@.len() >= I::width() ==> (res matches Ok(v) && v.value() == be_value(
                old(self)@.take(I::width() as int),
            ) && final(self)@ == old(self)@.skip(I::width() as int)),
    ;
}

impl<'a, R: Read<'a>> ReadInt<'a> for R {
    fn read_be<I: BeInt>(&mut self) -> (res: Result<I, Error>) {
        I::read_from(self)
    }
}

/// Writing of fixed-width integers, available on every [`Write`].
pub trait WriteInt: Write + Sized {
    /// Writes a big-endian integer.
    fn write_be<I: BeInt>(&mut self, val: I) -> (res: Result<(), Error>)
        requires
            old(self).can_write(),
        ensures
            final(self).can_write(),
            I::width() <= old(self).room() ==> res == Ok::<(), Error>(()) && final(self).written()
                == old(self).written() + be_bytes(val.value(), I::width()) && final(self).room()
                == old(self).room() - I::width(),
            I::width() > old(self).room() ==> res == Err::<(), Error>(Error::BufferExhausted)
                && final(self).written() == old(self).written() && final(self).room() == old(
                self,
            ).room(),
    ;
}

impl<W: Write> WriteInt for W {
    fn write_be<I: BeInt>(&mut self, val: I) -> (res: Result<(), Error>) {
        val.write_to(self)
    }
}

/// A growable buffer: everything it holds has been written, and it takes
/// bytes as long as its length fits in a `usize`.
impl Write for Vec<u8> {
    open spec fn can_write(&self) -> bool {
        true
    }

    open spec fn written(&self) -> Seq<u8> {
        self@
    }

    open spec fn room(&self) -> nat {
        (usize::MAX - self@.len()) as nat
    }

    fn write_bytes(&mut self, buf: &[u8]) -> (r: Result<(), Error>) {
        if buf.len() > usize::MAX - self.len() {
            return Err(Error::BufferExhausted);
        }
        let mut i: usize = 0;
        let ghost start = self@;
        while i < buf.len()
            invariant
                i <= buf@.len(),
                start.len() + buf@.len() <= usize::MAX,
                self@ == start + buf@.take(i as int),
            decreases buf@.len() - i,
        {
            self.push(buf[i]);
            i = i + 1;
            assert(buf@.take(i as int) == buf@.take((i - 1) as int).push(buf@[i - 1]));
        }
        assert(buf@.take(i as int) == buf@);
        Ok(())
    }
}

} // verus!

verus! {

impl BeInt for u8 {
    open spec fn width() -> nat {
        1
    }

    open spec fn value(self) -> nat {
        self as nat
    }

    fn read_from<'a, R: Read<'a>>(r: &mut R) -> (res: Result<Self, Error>) {
        match r.read_bytes(1) {
            Ok(b) => {
                proof {
                    reveal_with_fuel(be_value, 2);
                    assert(b@.drop_last() =~= Seq::<u8>::empty());
                }
                Ok(b[0])
            },
            Err(e) => Err(e),
        }
    }

    fn write_to<W: Write>(self, w: &mut W) -> (res: Result<(), Error>) {
        let b = [self];
        proof {
            reveal_with_fuel(be_bytes, 2);
            assert(b@ =~= be_bytes(self as nat, 1));
        }
        w.write_bytes(b.as_slice())
    }
}

impl BeInt for u16 {
    open spec fn width() -> nat {
        2
    }

    open spec fn value(self) -> nat {
        self as nat
    }

    fn read_from<'a, R: Read<'a>>(r: &mut R) -> (res: Result<Self, Error>) {
        match r.read_bytes(2) {
            Ok(b) => {
                let v = be_read_u16(b);
                assert(b@.take(2) =~= b@);
                Ok(v)
            },
            Err(e) => Err(e),
        }
    }

    fn write_to<W: Write>(self, w: &mut W) -> (res: Result<(), Error>) {
        let b = be_write_u16(self);
        w.write_bytes(b.as_slice())
    }
}

impl BeInt for u32 {
    open spec fn width() -> nat {
        4
    }

    open spec fn value(self) -> nat {
        self as nat
    }

    fn read_from<'a, R: Read<'a>>(r: &mut R) -> (res: Result<Self, Error>) {
        match r.read_bytes(4) {
            Ok(b) => {
                let v = be_read_u32(b);
                assert(b@.take(4) =~= b@);
                Ok(v)
            },
            Err(e) => Err(e),
        }
    }

    fn write_to<W: Write>(self, w: &mut W) -> (res: Result<(), Error>) {
        let b = be_write_u32(self);
        w.write_bytes(b.as_slice())
    }
}

impl BeInt for u64 {
    open spec fn width() -> nat {
        8
    }

    open spec fn value(self) -> nat {
        self as nat
    }

    fn read_from<'a, R: Read<'a>>(r: &mut R) -> (res: Result<Self, Error>) {
        match r.read_bytes(8) {
            Ok(b) => {
                let v = be_read_u64(b);
                assert(b@.take(8) =~= b@);
                Ok(v)
            },
            Err(e) => Err(e),
        }
    }

    fn write_to<W: Write>(self, w: &mut W) -> (res: Result<(), Error>) {
        let b = be_write_u64(self);
        w.write_bytes(b.as_slice())
    }
}

} // verus!

verus! {

/// `ux::u24::max_value()`, taken to a `u32`: the largest 24-bit value.
#[verifier::external_body]
fn u24_max_value() -> (m: u32)
    ensures
        m == 0xff_ffff,
{
    u32::from(ux::u24::max_value())
}

/// `ux::u24::min_value()`, taken to a `u32`: zero.
#[verifier::external_body]
fn u24_min_value() -> (m: u32)
    ensures
        m == 0,
{
    u32::from(ux::u24::min_value())
}

/// `ux::u24::new(v)` taken back to a `u32`: the same value. `new` panics on a
/// value that needs more than 24 bits.
#[verifier::external_body]
fn u24_from_u32(v: u32) -> (r: u32)
    requires
        v <= 0xff_ffff,
    ensures
        r == v,
{
    u32::from(ux::u24::new(v))
}

/// An unsigned 24-bit integer, as used for three-byte SPI flash addresses.
#[derive(Clone, Copy, Debug)]
pub struct U24 {
    value: u32,
}

impl U24 {
    #[verifier::type_invariant]
    spec fn in_range(self) -> bool {
        self.value <= 0xff_ffff
    }

    /// The number this integer stands for.
    pub closed spec fn spec_value(self) -> u32 {
        if self.value <= 0xff_ffff {
            self.value
        } else {
            0
        }
    }

    /// The number fits in 24 bits.
    pub proof fn lemma_fits(self)
        ensures
            self.spec_value() <= 0xff_ffff,
    {
    }

    /// The smallest value, 0.
    pub fn min_value() -> (m: u32)
        ensures
            m == 0,
    {
        u24_min_value()
    }

    /// The largest value, `2^24 - 1`.
    pub fn max_value() -> (m: u32)
        ensures
            m == 0xff_ffff,
    {
        u24_max_value()
    }

    /// Creates a 24-bit integer; `value` must fit in 24 bits.
    pub fn new(value: u32) -> (r: U24)
        requires
            value <= 0xff_ffff,
        ensures
            r.spec_value() == value,
    {
        U24 { value: u24_from_u32(value) }
    }

    /// Returns the value as a `u32`.
    pub fn get(self) -> (v: u32)
        ensures
            v == self.spec_value(),
            v <= 0xff_ffff,
    {
        proof {
            use_type_invariant(&self);
        }
        self.value
    }
}

impl BeInt for U24 {
    open spec fn width() -> nat {
        3
    }

    open spec fn value(self) -> nat {
        self.spec_value() as nat
    }

    fn read_from<'a, R: Read<'a>>(r: &mut R) -> (res: Result<Self, Error>) {
        match r.read_bytes(3) {
            Ok(b) => {
                let v = be_read_u24(b);
                proof {
                    assert(b@.take(3) =~= b@);
                    lemma_be_value_bound(b@);
                    lemma_byte_pow_values();
                }
                Ok(U24::new(v))
            },
            Err(e) => Err(e),
        }
    }

    fn write_to<W: Write>(self, w: &mut W) -> (res: Result<(), Error>) {
        let b = be_write_u24(self.get());
        w.write_bytes(b.as_slice())
    }
}

/// A little-endian integer, which can be read and written.
///
/// `width()` is the number of bytes it occupies on the wire and `value()` the
/// number it stands for; its encoding is `le_bytes(value(), width())`.
pub trait LeInt: Sized + Copy {
    spec fn width() -> nat;

    spec fn value(self) -> nat;

    /// Reads a value of type `Self`, in little-endian order.
    fn read_from<'a, R: Read<'a>>(r: &mut R) -> (res: Result<Self, Error>)
        ensures
            old(r)@.len() < Self::width() ==> res == Err::<Self, Error>(Error::BufferExhausted)
                && final(r)@ == old(r)@,
            old(r)@.len() >= Self::width() ==> (res matches Ok(v) && v.value() == le_value(
                old(r)@.take(Self::width() as int),
            ) && final(r)@ == old(r)@.skip(Self::width() as int)),
    ;

    /// Writes a value of type `Self`, in little-endian order.
    fn write_to<W: Write>(self, w: &mut W) -> (res: Result<(), Error>)
        requires
            old(w).can_write(),
        ensures
            final(w).can_write(),
            Self::width() <= old(w).room() ==> res == Ok::<(), Error>(()) && final(w).written()
                == old(w).written() + le_bytes(self.value(), Self::width()) && final(w).room()
                == old(w).room() - Self::width(),
            Self::width() > old(w).room() ==> res == Err::<(), Error>(Error::BufferExhausted)
                && final(w).written() == old(w).written() && final(w).room() == old(w).room(),
    ;
}

impl LeInt for u8 {
    open spec fn width() -> nat {
        1
    }

    open spec fn value(self) -> nat {
        self as nat
    }

    fn read_from<'a, R: Read<'a>>(r: &mut R) -> (res: Result<Self, Error>) {
        match r.read_bytes(1) {
            Ok(b) => {
                proof {
                    reveal_with_fuel(le_value, 2);
                    assert(b@.drop_first() =~= Seq::<u8>::empty());
                }
                Ok(b[0])
            },
            Err(e) => Err(e),
        }
    }

    fn write_to<W: Write>(self, w: &mut W) -> (res: Result<(), Error>) {
        let b = [self];
        proof {
            reveal_with_fuel(le_bytes, 2);
            assert(b@ =~= le_bytes(self as nat, 1));
        }
        w.write_bytes(b.as_slice())
    }
}

impl LeInt for u16 {
    open spec fn width() -> nat {
        2
    }

    open spec fn value(self) -> nat {
        self as nat
    }

    fn read_from<'a, R: Read<'a>>(r: &mut R) -> (res: Result<Self, Error>) {
        match r.read_bytes(2) {
            Ok(b) => {
                let v = le_read_u16(b);
                assert(b@.take(2) =~= b@);
                Ok(v)
            },
            Err(e) => Err(e),
        }
    }

    fn write_to<W: Write>(self, w: &mut W) -> (res: Result<(), Error>) {
        let b = le_write_u16(self);
        w.write_bytes(b.as_slice())
    }
}

impl LeInt for u32 {
    open spec fn width() -> nat {
        4
    }

    open spec fn value(self) -> nat {
        self as nat
    }

    fn read_from<'a, R: Read<'a>>(r: &mut R) -> (res: Result<Self, Error>) {
        match r.read_bytes(4) {
            Ok(b) => {
                let v = le_read_u32(b);
                assert(b@.take(4) =~= b@);
                Ok(v)
            },
            Err(e) => Err(e),
        }
    }

    fn write_to<W: Write>(self, w: &mut W) -> (res: Result<(), Error>) {
        let b = le_write_u32(self);
        w.write_bytes(b.as_slice())
    }
}

impl LeInt for u64 {
    open spec fn width() -> nat {
        8
    }

    open spec fn value(self) -> nat {
        self as nat
    }

    fn read_from<'a, R: Read<'a>>(r: &mut R) -> (res: Result<Self, Error>) {
        match r.read_bytes(8) {
            Ok(b) => {
                let v = le_read_u64(b);
                assert(b@.take(8) =~= b@);
                Ok(v)
            },
            Err(e) => Err(e),
        }
    }

    fn write_to<W: Write>(self, w: &mut W) -> (res: Result<(), Error>) {
        let b = le_write_u64(self);
        w.write_bytes(b.as_slice())
    }
}

/// Reading of little-endian integers, available on every [`Read`].
pub trait ReadLe<'a>: Read<'a> + Sized {
    /// Reads a little-endian integer.
    fn read_le<I: LeInt>(&mut self) -> (res: Result<I, Error>)
        ensures
            old(self)@.len() < I::width() ==> res == Err::<I, Error>(Error::BufferExhausted)
                && final(self)@ == old(self)@,
            old(self)@.len() >= I::width() ==> (res matches Ok(v) && v.value() == le_value(
                old(self)@.take(I::width() as int),
            ) && final(self)@ == old(self)@.skip(I::width() as int)),
    ;
}

impl<'a, R: Read<'a>> ReadLe<'a> for R {
    fn read_le<I: LeInt>(&mut self) -> (res: Result<I, Error>) {
        I::read_from(self)
    }
}

/// Writing of little-endian integers, available on every [`Write`].
pub trait WriteLe: Write + Sized {
    /// Writes a little-endian integer.
    fn write_le<I: LeInt>(&mut self, val: I) -> (res: Result<(), Error>)
        requires
            old(self).can_write(),
        ensures
            final(self).can_write(),
            I::width() <= old(self).room() ==> res == Ok::<(), Error>(()) && final(self).written()
                == old(self).written() + le_bytes(val.value(), I::width()) && final(self).room()
                == old(self).room() - I::width(),
            I::width() > old(self).room() ==> res == Err::<(), Error>(Error::BufferExhausted)
                && final(self).written() == old(self).written() && final(self).room() == old(
                self,
            ).room(),
    ;
}

impl<W: Write> WriteLe for W {
    fn write_le<I: LeInt>(&mut self, val: I) -> (res: Result<(), Error>) {
        val.write_to(self)
    }
}

} // verus!

verus! {

/// A "cursor" over a mutable byte buffer.
///
/// `consume()` can be called repeatedly to take portions of the buffer; the
/// cursor tracks how much has been taken. Writing through the cursor fills the
/// buffer from the front.
pub struct Cursor<'a> {
    buf: &'a mut [u8],
    cursor: usize,
}

impl<'a> Cursor<'a> {
    /// The cursor never passes the end of the buffer.
    pub open spec fn well_formed(&self) -> bool {
        self.position() <= self.contents().len()
    }

    /// The current contents of the whole underlying buffer.
    pub closed spec fn contents(&self) -> Seq<u8> {
        self.buf@
    }

    /// How many bytes have been consumed.
    pub closed spec fn position(&self) -> nat {
        self.cursor as nat
    }

    /// Creates a new `Cursor` for the given buffer.
    pub fn new(buf: &'a mut [u8]) -> (c: Self)
        ensures
            c.contents() == old(buf)@,
            c.position() == 0,
            c.well_formed(),
    {
        Self { buf, cursor: 0 }
    }

    /// Consumes `n` bytes from the underlying buffer.
    ///
    /// If `n` bytes are unavailable, `None` is returned.
    pub fn consume(&mut self, n: usize) -> (out: Option<&mut [u8]>)
        requires
            old(self).well_formed(),
        ensures
            old(self).position() + n > old(self).contents().len() ==> out is None
                && final(self).contents() == old(self).contents() && final(self).position()
                == old(self).position() && final(self).well_formed(),
            old(self).position() + n <= old(self).contents().len() ==> (out matches Some(o) && {
                let start = old(self).position() as int;
                let end = start + n;
                &&& o@ == old(self).contents().subrange(start, end)
                &&& final(self).position() == end
                &&& final(self).contents() == old(self).contents().subrange(0, start) + (*final(o))@
                    + old(self).contents().subrange(end, old(self).contents().len() as int)
                &&& (*final(o))@.len() == n ==> final(self).well_formed()
            }),
    {
        proof {
            assert(self.buf@.len() == self.buf.len());
        }
        let end = match self.cursor.checked_add(n) {
            Some(end) => end,
            None => return None,
        };
        if self.buf.len() < end {
            return None;
        }
        let start = self.cursor;
        self.cursor = end;
        let (_, tail) = self.buf.split_at_mut(start);
        let (output, _) = tail.split_at_mut(n);
        Some(output)
    }

    /// Returns the number of bytes consumed thus far.
    pub fn consumed_len(&self) -> (n: usize)
        ensures
            n == self.position(),
            self.well_formed() ==> n == self.written().len(),
    {
        self.cursor
    }

    /// Returns the portion of the buffer which has been consumed thus far.
    pub fn consumed_bytes(&self) -> (b: &[u8])
        requires
            self.well_formed(),
        ensures
            b@ == self.contents().take(self.position() as int),
    {
        let (consumed, _) = self.buf.split_at(self.cursor);
        consumed
    }

    /// Takes the portion of the buffer which has been consumed so far,
    /// resetting the cursor value back to zero.
    ///
    /// This leaves `self` as if it had been newly initialized with the
    /// unconsumed portion of the buffer.
    pub fn take_consumed_bytes(&mut self) -> (out: &'a mut [u8])
        requires
            old(self).well_formed(),
        ensures
            final(self).well_formed(),
            out@ == old(self).contents().take(old(self).position() as int),
            final(self).contents() == old(self).contents().skip(old(self).position() as int),
            final(self).position() == 0,
    {
        let consumed = self.cursor;
        self.cursor = 0;
        let mut whole: &'a mut [u8] = &mut [];
        core::mem::swap(&mut self.buf, &mut whole);
        let (output, rest) = whole.split_at_mut(consumed);
        self.buf = rest;
        output
    }
}

/// A cursor accepts writes while it is well formed; what it has written is
/// the consumed part of the buffer, and what is left of the buffer is its
/// room.
impl Write for Cursor<'_> {
    open spec fn can_write(&self) -> bool {
        self.well_formed()
    }

    open spec fn written(&self) -> Seq<u8> {
        self.contents().take(self.position() as int)
    }

    open spec fn room(&self) -> nat {
        (self.contents().len() - self.position()) as nat
    }

    fn write_bytes(&mut self, buf: &[u8]) -> (r: Result<(), Error>) {
        proof {
            assert(self.buf@.len() == self.buf.len());
        }
        let n = buf.len();
        let end = match self.cursor.checked_add(n) {
            Some(end) => end,
            None => return Err(Error::BufferExhausted),
        };
        if self.buf.len() < end {
            return Err(Error::BufferExhausted);
        }
        let start = self.cursor;
        let ghost before = self.buf@;
        let mut i: usize = 0;
        while i < n
            invariant
                n == buf@.len(),
                start + n <= self.buf@.len(),
                self.buf@.len() == self.buf.len(),
                self.buf@.len() == before.len(),
                self.cursor == start,
                i <= n,
                forall|j: int| 0 <= j < start ==> self.buf@[j] == before[j],
                forall|j: int| 0 <= j < i ==> self.buf@[start + j] == buf@[j],
            decreases n - i,
        {
            self.buf[start + i] = buf[i];
            i = i + 1;
        }
        self.cursor = end;
        assert(self.buf@.take(end as int) =~= before.take(start as int) + buf@);
        Ok(())
    }
}

} // verus!
