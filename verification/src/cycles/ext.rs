//! Deriving utilization and frequency-diff figures from a cycle delta.

use super::{fits_i64, trunc_div, Cycles};
use crate::error::Error;
use vstd::prelude::*;

verus! {

/// The cycle rate, in Hz, that a raw delta accumulated over
/// `micros` microseconds amounts to: `raw * 1_000_000 / micros`,
/// truncated toward zero.
pub open spec fn spec_estimated_hz(raw: int, micros: int) -> int {
    trunc_div(raw * 1_000_000, micros)
}

/// A measured cycle rate next to the nominal rate it is compared against.
///
/// The utilization ratio is `estimated_hz` over `reference_hz`. The division
/// is left to the caller: the two integers carry the exact measurement, and
/// the ratio may well exceed one, because the reference frequency is the
/// requested rate for the core, not the true instantaneous one.
#[derive(Clone, Copy, Debug, PartialEq, Eq, Structural)]
pub struct UsageRatio {
    /// The cycle rate the delta works out to, in Hz.
    pub estimated_hz: i64,
    /// The nominal frequency the rate is normalized by, in Hz.
    pub reference_hz: i64,
}

impl Cycles {
    /// Treats this count as a delta accumulated over `elapsed_micros`
    /// microseconds and relates the cycle rate it works out to against the
    /// nominal frequency `freq`.
    ///
    /// Fails with [`Error::DivideByZero`] when the elapsed duration is zero
    /// and with [`Error::Overflow`] when `self * 1_000_000` leaves the signed
    /// 64-bit range; it never wraps and never divides by zero.
    pub fn as_usage(&self, elapsed_micros: u64, freq: Cycles) -> (r: Result<UsageRatio, Error>)
        ensures
            r is Ok <==> elapsed_micros != 0 && fits_i64(self@ * 1_000_000),
            (r matches Ok(u) ==> u.estimated_hz as int == spec_estimated_hz(
                self@,
                elapsed_micros as int,
            ) && u.reference_hz as int == freq@),
            elapsed_micros == 0 ==> (r matches Err(e) && e == Error::DivideByZero),
            elapsed_micros != 0 && !fits_i64(self@ * 1_000_000) ==> (r matches Err(e) && e
                == Error::Overflow),
    {
        if elapsed_micros == 0 {
            return Err(Error::DivideByZero);
        }
        let prod = match self.raw.checked_mul(1_000_000) {
            Some(p) => p,
            None => {
                return Err(Error::Overflow);
            },
        };
        let est = div_trunc_by_u64(prod, elapsed_micros);
        Ok(UsageRatio { estimated_hz: est, reference_hz: freq.as_hz() })
    }

    /// Treats this count as a delta accumulated over `elapsed_micros`
    /// microseconds and returns how far the nominal frequency `freq` sits
    /// above the cycle rate the delta works out to; the result is negative
    /// when the core outran its nominal frequency.
    ///
    /// Fails with [`Error::DivideByZero`] when the elapsed duration is zero
    /// and with [`Error::Overflow`] when `self * 1_000_000` or the final
    /// subtraction leaves the signed 64-bit range.
    pub fn as_diff(&self, elapsed_micros: u64, freq: Cycles) -> (r: Result<Cycles, Error>)
        ensures
            r is Ok <==> elapsed_micros != 0 && fits_i64(self@ * 1_000_000) && fits_i64(
                freq@ - spec_estimated_hz(self@, elapsed_micros as int),
            ),
            (r matches Ok(c) ==> c@ == freq@ - spec_estimated_hz(self@, elapsed_micros as int)),
            elapsed_micros == 0 ==> (r matches Err(e) && e == Error::DivideByZero),
            elapsed_micros != 0 && !fits_i64(self@ * 1_000_000) ==> (r matches Err(e) && e
                == Error::Overflow),
            elapsed_micros != 0 && fits_i64(self@ * 1_000_000) && !fits_i64(
                freq@ - spec_estimated_hz(self@, elapsed_micros as int),
            ) ==> (r matches Err(e) && e == Error::Overflow),
    {
        if elapsed_micros == 0 {
            return Err(Error::DivideByZero);
        }
        let prod = match self.raw.checked_mul(1_000_000) {
            Some(p) => p,
            None => {
                return Err(Error::Overflow);
            },
        };
        let est = div_trunc_by_u64(prod, elapsed_micros);
        match freq.as_hz().checked_sub(est) {
            Some(d) => Ok(Cycles { raw: d }),
            None => Err(Error::Overflow),
        }
    }
}

/// Divides a signed count by a positive unsigned divisor, truncating toward
/// zero, through 128-bit intermediates so that no range is ever left.
fn div_trunc_by_u64(a: i64, b: u64) -> (r: i64)
    requires
        b != 0,
    ensures
        r as int == trunc_div(a as int, b as int),
{
    proof {
        lemma_trunc_div_bound(a as int, b as int);
    }
    let q = (a as i128).checked_div(b as i128);
    q.unwrap() as i64
}

/// For a positive divisor the truncating quotient never grows in magnitude:
/// it sits between `a` and zero.
proof fn lemma_trunc_div_bound(a: int, b: int)
    requires
        b >= 1,
    ensures
        a >= 0 ==> 0 <= trunc_div(a, b) <= a,
        a < 0 ==> a <= trunc_div(a, b) <= 0,
{
    if a > 0 {
        super::lemma_div_le(a, b);
    } else if a < 0 {
        super::lemma_div_le(-a, b);
    }
}

} // verus!
