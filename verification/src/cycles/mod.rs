//! The fixed-point cycle count: a signed 64-bit tally of CPU cycles that is
//! also read as a frequency (cycles per second) in Hz, kHz, MHz or GHz.

mod ext;
mod fmt;
mod trans;

pub use ext::{spec_estimated_hz, UsageRatio};
pub use fmt::{digit_char, spec_decimal_digits, spec_display, spec_signed_decimal, spec_two_decimals};
pub use trans::{
    lemma_ghz_round_trip, lemma_hz_round_trip, lemma_khz_round_trip, lemma_mhz_round_trip,
    spec_as_ghz, spec_as_hz, spec_as_khz, spec_as_mhz, spec_from_ghz, spec_from_hz, spec_from_khz,
    spec_from_mhz,
};

use crate::error::Error;
use vstd::arithmetic::div_mod::{
    lemma_div_is_ordered_by_denominator, lemma_div_pos_is_pos, lemma_fundamental_div_mod,
    lemma_mod_bound,
};
use vstd::prelude::*;

verus! {

/// Truncating (round-toward-zero) integer division: the value the executable
/// `/` computes on signed integers, stated over unbounded integers.
pub open spec fn trunc_div(a: int, b: int) -> int {
    if a == 0 {
        0
    } else if a > 0 && b > 0 {
        a / b
    } else if a < 0 && b < 0 {
        (-a) / (-b)
    } else if a < 0 {
        -((-a) / b)
    } else {
        -(a / (-b))
    }
}

/// Truncating integer remainder: the value the executable `%` computes on
/// signed integers, which carries the sign of the dividend.
pub open spec fn trunc_rem(a: int, b: int) -> int {
    if a == 0 {
        0
    } else if a > 0 && b > 0 {
        a % b
    } else if a < 0 && b < 0 {
        -((-a) % (-b))
    } else if a < 0 {
        -((-a) % b)
    } else {
        a % (-b)
    }
}

/// Whether a mathematical integer is representable as an `i64`.
pub open spec fn fits_i64(v: int) -> bool {
    i64::MIN <= v <= i64::MAX
}

/// A count of CPU cycles, stored as a signed 64-bit integer.
///
/// The same quantity serves as a raw elapsed tally and as a frequency in Hz;
/// conversions and arithmetic never wrap silently — every operation that can
/// leave the 64-bit signed range reports [`Error::Overflow`] instead.
#[derive(Clone, Copy, Debug, PartialEq, Eq, Structural, PartialOrd, Ord)]
pub struct Cycles {
    raw: i64,
}

impl View for Cycles {
    type V = int;

    closed spec fn view(&self) -> int {
        self.raw as int
    }
}

impl Default for Cycles {
    /// The zero count.
    fn default() -> (r: Self)
        ensures
            r@ == 0,
    {
        Cycles { raw: 0 }
    }
}

impl Cycles {
    /// Wraps a raw signed 64-bit cycle count.
    pub fn new(raw: i64) -> (r: Self)
        ensures
            r@ == raw as int,
    {
        Cycles { raw }
    }

    /// The zero count.
    pub fn zero() -> (r: Self)
        ensures
            r@ == 0,
    {
        Cycles { raw: 0 }
    }

    /// The saturated largest representable count.
    pub fn max_value() -> (r: Self)
        ensures
            r@ == i64::MAX,
    {
        Cycles { raw: i64::MAX }
    }

    /// Adds two counts, reporting overflow instead of wrapping.
    pub fn checked_add(self, rhs: Self) -> (r: Result<Self, Error>)
        ensures
            r is Ok <==> fits_i64(self@ + rhs@),
            (r matches Ok(c) ==> c@ == self@ + rhs@),
            (r matches Err(e) ==> e == Error::Overflow),
    {
        match self.raw.checked_add(rhs.raw) {
            Some(v) => Ok(Cycles { raw: v }),
            None => Err(Error::Overflow),
        }
    }

    /// Subtracts a count from this one, reporting overflow instead of wrapping.
    pub fn checked_sub(self, rhs: Self) -> (r: Result<Self, Error>)
        ensures
            r is Ok <==> fits_i64(self@ - rhs@),
            (r matches Ok(c) ==> c@ == self@ - rhs@),
            (r matches Err(e) ==> e == Error::Overflow),
    {
        match self.raw.checked_sub(rhs.raw) {
            Some(v) => Ok(Cycles { raw: v }),
            None => Err(Error::Overflow),
        }
    }

    /// Negates the count, reporting overflow for the one unrepresentable case.
    pub fn checked_neg(self) -> (r: Result<Self, Error>)
        ensures
            r is Ok <==> fits_i64(-self@),
            (r matches Ok(c) ==> c@ == -self@),
            (r matches Err(e) ==> e == Error::Overflow),
    {
        if self.raw == i64::MIN {
            Err(Error::Overflow)
        } else {
            Ok(Cycles { raw: -self.raw })
        }
    }

    /// Scales the count by an integer, reporting overflow instead of wrapping.
    pub fn checked_mul(self, rhs: i64) -> (r: Result<Self, Error>)
        ensures
            r is Ok <==> fits_i64(self@ * rhs),
            (r matches Ok(c) ==> c@ == self@ * rhs),
            (r matches Err(e) ==> e == Error::Overflow),
    {
        match self.raw.checked_mul(rhs) {
            Some(v) => Ok(Cycles { raw: v }),
            None => Err(Error::Overflow),
        }
    }

    /// Divides the count by an integer, truncating toward zero.
    ///
    /// Division by zero and the single overflowing quotient are reported as
    /// errors rather than panicking.
    pub fn checked_div(self, rhs: i64) -> (r: Result<Self, Error>)
        ensures
            r is Ok <==> rhs != 0 && !(self@ == i64::MIN && rhs == -1),
            (r matches Ok(c) ==> c@ == trunc_div(self@, rhs as int)),
            rhs == 0 ==> (r matches Err(e) && e == Error::DivideByZero),
            self@ == i64::MIN && rhs == -1 ==> (r matches Err(e) && e == Error::Overflow),
    {
        if rhs == 0 {
            Err(Error::DivideByZero)
        } else if self.raw == i64::MIN && rhs == -1 {
            Err(Error::Overflow)
        } else {
            proof {
                lemma_trunc_div_fits(self.raw as int, rhs as int);
            }
            let q = self.raw.checked_div(rhs);
            Ok(Cycles { raw: q.unwrap() })
        }
    }

    /// The remainder of dividing the count by an integer, with the sign of
    /// the dividend, as the executable `%` computes it.
    pub fn checked_rem(self, rhs: i64) -> (r: Result<Self, Error>)
        ensures
            r is Ok <==> rhs != 0 && !(self@ == i64::MIN && rhs == -1),
            (r matches Ok(c) ==> c@ == trunc_rem(self@, rhs as int)),
            rhs == 0 ==> (r matches Err(e) && e == Error::DivideByZero),
            self@ == i64::MIN && rhs == -1 ==> (r matches Err(e) && e == Error::Overflow),
    {
        if rhs == 0 {
            Err(Error::DivideByZero)
        } else if self.raw == i64::MIN && rhs == -1 {
            Err(Error::Overflow)
        } else {
            proof {
                lemma_trunc_rem_fits(self.raw as int, rhs as int);
            }
            let q = self.raw.checked_rem(rhs);
            Ok(Cycles { raw: q.unwrap() })
        }
    }
}

/// A nonnegative value divided by a positive one shrinks: `0 <= a / b <= a`.
pub(in crate::cycles) proof fn lemma_div_le(a: int, b: int)
    requires
        a >= 0,
        b >= 1,
    ensures
        0 <= a / b <= a,
{
    lemma_div_pos_is_pos(a, b);
    lemma_fundamental_div_mod(a, b);
    lemma_mod_bound(a, b);
    assert(a / b <= b * (a / b)) by (nonlinear_arith)
        requires
            a / b >= 0,
            b >= 1,
    ;
}

/// Outside the single `i64::MIN / -1` case, a truncating quotient of `i64`
/// values is itself representable as an `i64`.
proof fn lemma_trunc_div_fits(a: int, b: int)
    requires
        fits_i64(a),
        fits_i64(b),
        b != 0,
        !(a == i64::MIN && b == -1),
    ensures
        fits_i64(trunc_div(a, b)),
{
    if a > 0 && b > 0 {
        lemma_div_le(a, b);
    } else if a < 0 && b < 0 {
        if b == -1 {
            lemma_div_le(-a, 1);
        } else {
            lemma_div_le(-a, -b);
            lemma_div_is_ordered_by_denominator(-a, 2, -b);
            lemma_div_le(-a, 2);
        }
    } else if a < 0 {
        lemma_div_le(-a, b);
    } else if a > 0 {
        lemma_div_le(a, -b);
    }
}

/// Outside the single `i64::MIN % -1` case, a truncating remainder of `i64`
/// values is itself representable as an `i64`.
proof fn lemma_trunc_rem_fits(a: int, b: int)
    requires
        fits_i64(a),
        fits_i64(b),
        b != 0,
        !(a == i64::MIN && b == -1),
    ensures
        fits_i64(trunc_rem(a, b)),
{
    if a > 0 && b > 0 {
        lemma_mod_bound(a, b);
    } else if a < 0 && b < 0 {
        lemma_mod_bound(-a, -b);
    } else if a < 0 {
        lemma_mod_bound(-a, b);
    } else if a > 0 {
        lemma_mod_bound(a, -b);
    }
}

} // verus!
