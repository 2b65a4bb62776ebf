//! Conversions between a [`Cycles`] count and the frequency units it is
//! quoted in: exact multiplication on the way in, truncating division on the
//! way out, powers of 1000 apart.

use super::{fits_i64, trunc_div, Cycles};
use crate::error::Error;
use vstd::arithmetic::div_mod::lemma_div_multiples_vanish;
use vstd::prelude::*;

verus! {

/// The raw count that `h` Hz stands for.
pub open spec fn spec_from_hz(h: int) -> int {
    h
}

/// The raw count that `k` kHz stands for.
pub open spec fn spec_from_khz(k: int) -> int {
    k * 1000
}

/// The raw count that `m` MHz stands for.
pub open spec fn spec_from_mhz(m: int) -> int {
    m * 1_000_000
}

/// The raw count that `g` GHz stands for.
pub open spec fn spec_from_ghz(g: int) -> int {
    g * 1_000_000_000
}

/// A raw count read in Hz.
pub open spec fn spec_as_hz(v: int) -> int {
    v
}

/// A raw count read in whole kHz, truncated toward zero.
pub open spec fn spec_as_khz(v: int) -> int {
    trunc_div(v, 1000)
}

/// A raw count read in whole MHz, truncated toward zero.
pub open spec fn spec_as_mhz(v: int) -> int {
    trunc_div(v, 1_000_000)
}

/// A raw count read in whole GHz, truncated toward zero.
pub open spec fn spec_as_ghz(v: int) -> int {
    trunc_div(v, 1_000_000_000)
}

impl Cycles {
    /// The count that measures `h` Hz.
    pub fn from_hz(h: i64) -> (r: Self)
        ensures
            r@ == spec_from_hz(h as int),
    {
        Cycles { raw: h }
    }

    /// The count that measures `k` kHz, or [`Error::Overflow`] when
    /// `k * 1000` leaves the signed 64-bit range.
    pub fn from_khz(k: i64) -> (r: Result<Self, Error>)
        ensures
            r is Ok <==> fits_i64(spec_from_khz(k as int)),
            (r matches Ok(c) ==> c@ == spec_from_khz(k as int)),
            (r matches Err(e) ==> e == Error::Overflow),
    {
        match k.checked_mul(1000) {
            Some(v) => Ok(Cycles { raw: v }),
            None => Err(Error::Overflow),
        }
    }

    /// The count that measures `m` MHz, or [`Error::Overflow`] when
    /// `m * 1_000_000` leaves the signed 64-bit range.
    pub fn from_mhz(m: i64) -> (r: Result<Self, Error>)
        ensures
            r is Ok <==> fits_i64(spec_from_mhz(m as int)),
            (r matches Ok(c) ==> c@ == spec_from_mhz(m as int)),
            (r matches Err(e) ==> e == Error::Overflow),
    {
        match m.checked_mul(1_000_000) {
            Some(v) => Ok(Cycles { raw: v }),
            None => Err(Error::Overflow),
        }
    }

    /// The count that measures `g` GHz, or [`Error::Overflow`] when
    /// `g * 1_000_000_000` leaves the signed 64-bit range.
    pub fn from_ghz(g: i64) -> (r: Result<Self, Error>)
        ensures
            r is Ok <==> fits_i64(spec_from_ghz(g as int)),
            (r matches Ok(c) ==> c@ == spec_from_ghz(g as int)),
            (r matches Err(e) ==> e == Error::Overflow),
    {
        match g.checked_mul(1_000_000_000) {
            Some(v) => Ok(Cycles { raw: v }),
            None => Err(Error::Overflow),
        }
    }

    /// The count in Hz.
    pub fn as_hz(&self) -> (r: i64)
        ensures
            r as int == spec_as_hz(self@),
    {
        self.raw
    }

    /// The count in whole kHz, truncated toward zero.
    pub fn as_khz(&self) -> (r: i64)
        ensures
            r as int == spec_as_khz(self@),
    {
        self.raw.checked_div(1000).unwrap()
    }

    /// The count in whole MHz, truncated toward zero.
    pub fn as_mhz(&self) -> (r: i64)
        ensures
            r as int == spec_as_mhz(self@),
    {
        self.raw.checked_div(1_000_000).unwrap()
    }

    /// The count in whole GHz, truncated toward zero.
    pub fn as_ghz(&self) -> (r: i64)
        ensures
            r as int == spec_as_ghz(self@),
    {
        self.raw.checked_div(1_000_000_000).unwrap()
    }
}

/// Law: every representable count read back in Hz is returned unchanged, so
/// `from_hz(x).as_hz() == x`.
pub proof fn lemma_hz_round_trip(x: int)
    requires
        fits_i64(x),
    ensures
        spec_as_hz(spec_from_hz(x)) == x,
{
}

/// Law: whenever `k * 1000` stays in the signed 64-bit range,
/// `from_khz(k).as_khz() == k`.
pub proof fn lemma_khz_round_trip(k: int)
    requires
        fits_i64(spec_from_khz(k)),
    ensures
        spec_as_khz(spec_from_khz(k)) == k,
{
    lemma_unit_round_trip(k, 1000);
}

/// Law: whenever `m * 1_000_000` stays in the signed 64-bit range,
/// `from_mhz(m).as_mhz() == m`.
pub proof fn lemma_mhz_round_trip(m: int)
    requires
        fits_i64(spec_from_mhz(m)),
    ensures
        spec_as_mhz(spec_from_mhz(m)) == m,
{
    lemma_unit_round_trip(m, 1_000_000);
}

/// Law: whenever `g * 1_000_000_000` stays in the signed 64-bit range,
/// `from_ghz(g).as_ghz() == g`.
pub proof fn lemma_ghz_round_trip(g: int)
    requires
        fits_i64(spec_from_ghz(g)),
    ensures
        spec_as_ghz(spec_from_ghz(g)) == g,
{
    lemma_unit_round_trip(g, 1_000_000_000);
}

/// Scaling by a positive unit and dividing back with truncation is the
/// identity: `trunc_div(k * unit, unit) == k`.
proof fn lemma_unit_round_trip(k: int, unit: int)
    requires
        unit > 0,
    ensures
        trunc_div(k * unit, unit) == k,
{
    if k > 0 {
        assert(k * unit > 0) by (nonlinear_arith)
            requires
                k > 0,
                unit > 0,
        ;
        lemma_div_multiples_vanish(k, unit);
        assert(unit * k == k * unit);
    } else if k < 0 {
        assert(k * unit < 0) by (nonlinear_arith)
            requires
                k < 0,
                unit > 0,
        ;
        lemma_div_multiples_vanish(-k, unit);
        assert(unit * -k == -(k * unit)) by (nonlinear_arith);
    }
}

} // verus!
