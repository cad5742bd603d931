//! Data related to resets.

use vstd::prelude::*;
use crate::endian::{be_bytes, be_value};
use crate::io::{Read, ReadInt, Write, WriteInt};
use crate::wire::{exhausted, lemma_advance, no_room, FromWire, FromWireError, ToWire, ToWireError};

verus! {

/// The source of the last reset.
#[derive(Clone, Copy, PartialEq, Eq, Hash, Debug)]
pub struct ResetSource {
    /// Power on reset
    pub power_on_reset: bool,
    /// Low power exit
    pub low_power_reset: bool,
    /// Watchdog reset
    pub watchdog_reset: bool,
    /// Lockup reset
    pub lockup_reset: bool,
    /// SYSRESET
    pub sysreset: bool,
    /// Software initiated reset through PMU_GLOBAL_RESET
    pub software_reset: bool,
    /// Fast burnout circuit
    pub fast_burnout_circuit: bool,
    /// Security breach reset
    pub security_breach_reset: bool,
}

/// The length of a ResetSource on the wire, in bytes.
pub const RESET_SOURCE_LEN: usize = 8;

/// The byte that encodes a flag.
#[verifier::opaque]
pub open spec fn flag_byte(b: bool) -> u8 {
    if b {
        1
    } else {
        0
    }
}

impl ResetSource {
    /// The reset source's bytes on the wire: one byte per flag, 1 for set and
    /// 0 for clear.
    pub open spec fn wire_bytes(self) -> Seq<u8> {
        seq![flag_byte(self.power_on_reset), flag_byte(self.low_power_reset), flag_byte(self.watchdog_reset), flag_byte(self.lockup_reset), flag_byte(self.sysreset), flag_byte(self.software_reset), flag_byte(self.fast_burnout_circuit), flag_byte(self.security_breach_reset)]
    }

    /// What reading a reset source from `s` gives: any nonzero byte reads as
    /// a set flag.
    pub open spec fn parse(s: Seq<u8>) -> Result<(ResetSource, nat), FromWireError> {
        if s.len() < 8 {
            Err(exhausted())
        } else {
            Ok(
                (
                    ResetSource {
                        power_on_reset: s[0] != 0,
                        low_power_reset: s[1] != 0,
                        watchdog_reset: s[2] != 0,
                        lockup_reset: s[3] != 0,
                        sysreset: s[4] != 0,
                        software_reset: s[5] != 0,
                        fast_burnout_circuit: s[6] != 0,
                        security_breach_reset: s[7] != 0,
                    },
                    8,
                ),
            )
        }
    }
}

impl<'a> FromWire<'a> for ResetSource {
    fn from_wire<R: Read<'a>>(r: &mut R) -> (res: Result<Self, FromWireError>)
        ensures
            match Self::parse(old(r)@) {
                Ok((v, n)) => res == Ok::<ResetSource, FromWireError>(v) && final(r)@ == old(
                    r,
                )@.skip(n as int),
                Err(e) => res == Err::<ResetSource, FromWireError>(e),
            },
    {
        let ghost s = r@;
        proof {
            reveal_with_fuel(be_value, 2);
        }
        let power_on_reset = match r.read_be::<u8>() {
            Ok(v) => v != 0,
            Err(e) => return Err(FromWireError::from_io(e)),
        };
        proof { lemma_advance(s, 0, 1); }
        let low_power_reset = match r.read_be::<u8>() {
            Ok(v) => v != 0,
            Err(e) => return Err(FromWireError::from_io(e)),
        };
        proof { lemma_advance(s, 1, 1); }
        let watchdog_reset = match r.read_be::<u8>() {
            Ok(v) => v != 0,
            Err(e) => return Err(FromWireError::from_io(e)),
        };
        proof { lemma_advance(s, 2, 1); }
        let lockup_reset = match r.read_be::<u8>() {
            Ok(v) => v != 0,
            Err(e) => return Err(FromWireError::from_io(e)),
        };
        proof { lemma_advance(s, 3, 1); }
        let sysreset = match r.read_be::<u8>() {
            Ok(v) => v != 0,
            Err(e) => return Err(FromWireError::from_io(e)),
        };
        proof { lemma_advance(s, 4, 1); }
        let software_reset = match r.read_be::<u8>() {
            Ok(v) => v != 0,
            Err(e) => return Err(FromWireError::from_io(e)),
        };
        proof { lemma_advance(s, 5, 1); }
        let fast_burnout_circuit = match r.read_be::<u8>() {
            Ok(v) => v != 0,
            Err(e) => return Err(FromWireError::from_io(e)),
        };
        proof { lemma_advance(s, 6, 1); }
        let security_breach_reset = match r.read_be::<u8>() {
            Ok(v) => v != 0,
            Err(e) => return Err(FromWireError::from_io(e)),
        };
        proof { lemma_advance(s, 7, 1); }
        Ok(Self {
            power_on_reset,
            low_power_reset,
            watchdog_reset,
            lockup_reset,
            sysreset,
            software_reset,
            fast_burnout_circuit,
            security_breach_reset,
        })
    }
}

/// The one-byte big-endian encoding of a flag is its flag byte.
proof fn lemma_flag_bytes(b: bool)
    ensures
        be_bytes(flag_byte(b) as nat, 1) == seq![flag_byte(b)],
{
    reveal_with_fuel(be_bytes, 2);
    assert(be_bytes(flag_byte(b) as nat, 1) =~= seq![flag_byte(b)]);
}

/// Writes one flag byte.
fn write_flag<W: Write>(w: &mut W, flag: bool) -> (res: Result<(), ToWireError>)
    requires
        old(w).can_write(),
    ensures
        final(w).can_write(),
        1 <= old(w).room() ==> res == Ok::<(), ToWireError>(()) && final(w).written() == old(
            w,
        ).written().push(flag_byte(flag)) && final(w).room() == old(w).room() - 1,
        1 > old(w).room() ==> res == Err::<(), ToWireError>(no_room()),
{
    let b: u8 = if flag {
        1
    } else {
        0
    };
    proof {
        reveal(flag_byte);
        lemma_flag_bytes(flag);
    }
    match w.write_be(b) {
        Ok(()) => {
            assert(seq![flag_byte(flag)] =~= Seq::<u8>::empty().push(flag_byte(flag)));
            Ok(())
        },
        Err(e) => Err(ToWireError::from_io(e)),
    }
}

/// Writes four flag bytes.
fn write_four_flags<W: Write>(w: &mut W, f0: bool, f1: bool, f2: bool, f3: bool) -> (res: Result<
    (),
    ToWireError,
>)
    requires
        old(w).can_write(),
    ensures
        final(w).can_write(),
        4 <= old(w).room() ==> res == Ok::<(), ToWireError>(()) && final(w).written() == old(
            w,
        ).written() + seq![flag_byte(f0), flag_byte(f1), flag_byte(f2), flag_byte(f3)]
            && final(w).room() == old(w).room() - 4,
        4 > old(w).room() ==> res == Err::<(), ToWireError>(no_room()),
{
    let ghost start = w.written();
    if let Err(e) = write_flag(w, f0) {
        return Err(e);
    }
    if let Err(e) = write_flag(w, f1) {
        return Err(e);
    }
    if let Err(e) = write_flag(w, f2) {
        return Err(e);
    }
    if let Err(e) = write_flag(w, f3) {
        return Err(e);
    }
    assert(w.written() =~= start + seq![flag_byte(f0), flag_byte(f1), flag_byte(f2), flag_byte(f3)]);
    Ok(())
}

impl ToWire for ResetSource {
    #[verifier::spinoff_prover]
    fn to_wire<W: Write>(&self, w: &mut W) -> (res: Result<(), ToWireError>)
        ensures
            final(w).can_write(),
            self.wire_bytes().len() <= old(w).room() ==> res == Ok::<(), ToWireError>(())
                && final(w).written() == old(w).written() + self.wire_bytes()
                && final(w).room() == old(w).room() - self.wire_bytes().len(),
            self.wire_bytes().len() > old(w).room() ==> res == Err::<(), ToWireError>(no_room()),
    {
        let ghost start = w.written();
        let ghost first = seq![
            flag_byte(self.power_on_reset),
            flag_byte(self.low_power_reset),
            flag_byte(self.watchdog_reset),
            flag_byte(self.lockup_reset),
        ];
        let ghost second = seq![
            flag_byte(self.sysreset),
            flag_byte(self.software_reset),
            flag_byte(self.fast_burnout_circuit),
            flag_byte(self.security_breach_reset),
        ];
        assert(self.wire_bytes() =~= first + second);
        assert(self.wire_bytes().len() == 8);
        if let Err(e) = write_four_flags(
            w,
            self.power_on_reset,
            self.low_power_reset,
            self.watchdog_reset,
            self.lockup_reset,
        ) {
            return Err(e);
        }
        assert(w.written() == start + first);
        if let Err(e) = write_four_flags(
            w,
            self.sysreset,
            self.software_reset,
            self.fast_burnout_circuit,
            self.security_breach_reset,
        ) {
            return Err(e);
        }
        assert(w.written() == (start + first) + second);
        assert((start + first) + second =~= start + (first + second));
        Ok(())
    }
}

/// A reset source survives a trip over the wire.
pub proof fn lemma_reset_source_roundtrip(v: ResetSource, rest: Seq<u8>)
    ensures
        v.wire_bytes().len() == RESET_SOURCE_LEN,
        ResetSource::parse(v.wire_bytes() + rest) == Ok::<(ResetSource, nat), FromWireError>((v, 8)),
{
    reveal(flag_byte);
    let s = v.wire_bytes() + rest;
    assert(s[0] == flag_byte(v.power_on_reset));
    assert(s[1] == flag_byte(v.low_power_reset));
    assert(s[2] == flag_byte(v.watchdog_reset));
    assert(s[3] == flag_byte(v.lockup_reset));
    assert(s[4] == flag_byte(v.sysreset));
    assert(s[5] == flag_byte(v.software_reset));
    assert(s[6] == flag_byte(v.fast_burnout_circuit));
    assert(s[7] == flag_byte(v.security_breach_reset));
}

/// Reading a reset source is exact on bytes that are each 0 or 1: the bytes it
/// was read from are the bytes it writes. (A byte above 1 also reads as a set
/// flag, and is written back as 1.)
pub proof fn lemma_reset_source_canonical(s: Seq<u8>)
    requires
        forall|i: int| 0 <= i < 8 && i < s.len() ==> s[i] <= 1,
    ensures
        ResetSource::parse(s) matches Ok((v, n)) ==> v.wire_bytes() == s.take(n as int),
{
    reveal(flag_byte);
    if let Ok((v, n)) = ResetSource::parse(s) {
        assert(v.wire_bytes() =~= s.take(8));
    }
}

} // verus!
