//! A core-tagged snapshot of a cycle counter.

use crate::cycles::{fits_i64, Cycles};
use crate::error::Error;
use vstd::prelude::*;

verus! {

/// An immutable snapshot of one core's cumulative cycle counter.
///
/// Snapshots remember the core they were read from, and a delta between two
/// snapshots exists only when both came from the same core: counters of
/// different cores share no origin, so their difference would be
/// meaningless and is rejected rather than computed.
#[derive(Clone, Copy, Debug)]
pub struct CyclesInstant {
    cpu: i32,
    raw: Cycles,
}

impl CyclesInstant {
    /// The identifier of the core this snapshot was read from.
    pub closed spec fn spec_cpu(&self) -> int {
        self.cpu as int
    }

    /// The cumulative count this snapshot holds.
    pub closed spec fn spec_value(&self) -> int {
        self.raw@
    }

    /// Pairs a core identifier with the count read from it; only the reader
    /// constructs snapshots.
    pub(crate) fn new(cpu: i32, raw: Cycles) -> (r: Self)
        ensures
            r.spec_cpu() == cpu as int,
            r.spec_value() == raw@,
    {
        CyclesInstant { cpu, raw }
    }

    /// The cycles elapsed between `other` (earlier) and this snapshot, for
    /// callers that have already made sure both snapshots came from the same
    /// core and the delta is representable.
    pub fn cycles_since(&self, other: Self) -> (r: Cycles)
        requires
            self.spec_cpu() == other.spec_cpu(),
            fits_i64(self.spec_value() - other.spec_value()),
        ensures
            r@ == self.spec_value() - other.spec_value(),
    {
        self.cycles_since_checked(other).unwrap()
    }

    /// The cycles elapsed between `other` (earlier) and this snapshot.
    ///
    /// Fails with [`Error::InconsistentCore`] whenever the two snapshots
    /// carry different core identifiers — such a pair never yields a value —
    /// and with [`Error::Overflow`] when the subtraction leaves the signed
    /// 64-bit range.
    pub fn cycles_since_checked(&self, other: Self) -> (r: Result<Cycles, Error>)
        ensures
            r is Ok <==> self.spec_cpu() == other.spec_cpu() && fits_i64(
                self.spec_value() - other.spec_value(),
            ),
            (r matches Ok(c) ==> c@ == self.spec_value() - other.spec_value()),
            self.spec_cpu() != other.spec_cpu() ==> (r matches Err(e) && e
                == Error::InconsistentCore),
            self.spec_cpu() == other.spec_cpu() && !fits_i64(
                self.spec_value() - other.spec_value(),
            ) ==> (r matches Err(e) && e == Error::Overflow),
    {
        if self.cpu == other.cpu {
            self.raw.checked_sub(other.raw)
        } else {
            Err(Error::InconsistentCore)
        }
    }
}

} // verus!
