//! Rendering a [`Cycles`] count as text.
//!
//! The magnitude picks the largest unit whose threshold it reaches, with the
//! boundary inclusive toward the larger unit: one billion renders in GHz, one
//! less in MHz. The scaled units carry two fractional digits, rounded to the
//! nearest hundredth; a count below 1000 (negative ones included) renders as
//! a bare integer with an `Hz` suffix.

use super::{lemma_div_le, Cycles};
use vstd::arithmetic::div_mod::{
    lemma_div_is_ordered, lemma_div_is_ordered_by_denominator, lemma_div_pos_is_pos,
    lemma_fundamental_div_mod, lemma_mod_bound,
};
use vstd::prelude::*;

verus! {

/// The character for one decimal digit.
pub open spec fn digit_char(d: nat) -> char {
    if d == 0 {
        '0'
    } else if d == 1 {
        '1'
    } else if d == 2 {
        '2'
    } else if d == 3 {
        '3'
    } else if d == 4 {
        '4'
    } else if d == 5 {
        '5'
    } else if d == 6 {
        '6'
    } else if d == 7 {
        '7'
    } else if d == 8 {
        '8'
    } else {
        '9'
    }
}

/// The decimal digits of a nonnegative number, most significant first.
pub open spec fn spec_decimal_digits(n: nat) -> Seq<char>
    decreases n,
{
    if n < 10 {
        seq![digit_char(n)]
    } else {
        spec_decimal_digits(n / 10) + seq![digit_char(n % 10)]
    }
}

/// The decimal rendering of a signed number: a minus sign, when the number
/// is negative, followed by its digits.
pub open spec fn spec_signed_decimal(v: int) -> Seq<char> {
    if v < 0 {
        seq!['-'] + spec_decimal_digits((-v) as nat)
    } else {
        spec_decimal_digits(v as nat)
    }
}

/// The fraction of `v / unit` scaled to hundredths and rounded to the
/// nearest, a half rounding up.
pub open spec fn spec_hundredths(v: int, unit: int) -> int {
    ((v % unit) * 100 + unit / 2) / unit
}

/// The rendering of `v` in the unit of `unit` raw counts: the whole part, a
/// point, and exactly two fractional digits, rounded to the nearest
/// hundredth; a fraction that rounds all the way up carries into the whole
/// part.
pub open spec fn spec_two_decimals(v: int, unit: int) -> Seq<char> {
    let h = spec_hundredths(v, unit);
    let whole = if h == 100 {
        v / unit + 1
    } else {
        v / unit
    };
    let frac = if h == 100 {
        0int
    } else {
        h
    };
    spec_decimal_digits(whole as nat) + seq!['.'] + seq![
        digit_char((frac / 10) as nat),
        digit_char((frac % 10) as nat),
    ]
}

/// The full rendering of a raw count: the largest unit whose threshold the
/// value reaches (the boundary itself belongs to the larger unit), and its
/// suffix.
pub open spec fn spec_display(v: int) -> Seq<char> {
    if v >= 1_000_000_000 {
        spec_two_decimals(v, 1_000_000_000) + "Ghz"@
    } else if v >= 1_000_000 {
        spec_two_decimals(v, 1_000_000) + "Mhz"@
    } else if v >= 1000 {
        spec_two_decimals(v, 1000) + "Khz"@
    } else {
        spec_signed_decimal(v) + "Hz"@
    }
}

/// Appends the character of one decimal digit.
fn push_digit(s: &mut String, d: u64)
    requires
        d < 10,
    ensures
        final(s)@ == old(s)@ + seq![digit_char(d as nat)],
{
    let t: &str = match d {
        0 => "0",
        1 => "1",
        2 => "2",
        3 => "3",
        4 => "4",
        5 => "5",
        6 => "6",
        7 => "7",
        8 => "8",
        _ => "9",
    };
    proof {
        reveal_strlit("0");
        reveal_strlit("1");
        reveal_strlit("2");
        reveal_strlit("3");
        reveal_strlit("4");
        reveal_strlit("5");
        reveal_strlit("6");
        reveal_strlit("7");
        reveal_strlit("8");
        reveal_strlit("9");
        assert(t@ =~= seq![digit_char(d as nat)]);
    }
    s.append(t);
}

/// Appends the decimal digits of `n`, most significant first.
fn push_decimal(s: &mut String, n: u64)
    ensures
        final(s)@ == old(s)@ + spec_decimal_digits(n as nat),
    decreases n,
{
    if n >= 10 {
        push_decimal(s, n / 10);
        push_digit(s, n % 10);
        proof {
            assert(s@ =~= old(s)@ + spec_decimal_digits(n as nat));
        }
    } else {
        push_digit(s, n);
    }
}

/// Appends the whole part of `v / unit` and two rounded fractional digits.
fn push_two_decimals(s: &mut String, v: u64, unit: u64)
    requires
        1000 <= unit <= 1_000_000_000,
        unit <= v,
    ensures
        final(s)@ == old(s)@ + spec_two_decimals(v as int, unit as int),
{
    let mut whole: u64 = v / unit;
    let mut frac: u64 = ((v % unit) * 100 + unit / 2) / unit;
    proof {
        lemma_frac_bound((v % unit) as int, unit as int);
        lemma_div_is_ordered_by_denominator(v as int, 1000, unit as int);
        lemma_div_is_ordered(v as int, u64::MAX as int, 1000);
    }
    if frac == 100 {
        whole = whole + 1;
        frac = 0;
    }
    push_decimal(s, whole);
    proof {
        reveal_strlit(".");
        assert("."@ =~= seq!['.']);
    }
    s.append(".");
    push_digit(s, frac / 10);
    push_digit(s, frac % 10);
    proof {
        assert(s@ =~= old(s)@ + spec_two_decimals(v as int, unit as int));
    }
}

/// Scaling a remainder below `unit` to rounded hundredths never passes 100.
proof fn lemma_frac_bound(x: int, unit: int)
    requires
        0 <= x < unit,
        100 <= unit,
    ensures
        0 <= (x * 100 + unit / 2) / unit <= 100,
{
    lemma_div_le(unit, 2);
    lemma_div_pos_is_pos(x * 100 + unit / 2, unit);
    lemma_fundamental_div_mod(x * 100 + unit / 2, unit);
    lemma_mod_bound(x * 100 + unit / 2, unit);
    let q = (x * 100 + unit / 2) / unit;
    if q >= 101 {
        assert(unit * q >= unit * 101) by (nonlinear_arith)
            requires
                unit >= 1,
                q >= 101,
        ;
        assert(x * 100 <= unit * 100 - 100) by (nonlinear_arith)
            requires
                x < unit,
        ;
        assert(unit * 101 == unit * 100 + unit) by (nonlinear_arith);
    }
}

impl Cycles {
    /// Renders the count with the largest unit whose threshold its magnitude
    /// reaches, two rounded decimals for the scaled units, and the unit
    /// suffix.
    pub fn display_string(&self) -> (r: String)
        ensures
            r@ == spec_display(self@),
    {
        let mut s = String::new();
        if self.raw >= 1_000_000_000 {
            push_two_decimals(&mut s, self.raw as u64, 1_000_000_000);
            proof {
                reveal_strlit("Ghz");
            }
            s.append("Ghz");
        } else if self.raw >= 1_000_000 {
            push_two_decimals(&mut s, self.raw as u64, 1_000_000);
            proof {
                reveal_strlit("Mhz");
            }
            s.append("Mhz");
        } else if self.raw >= 1000 {
            push_two_decimals(&mut s, self.raw as u64, 1000);
            proof {
                reveal_strlit("Khz");
            }
            s.append("Khz");
        } else {
            if self.raw < 0 {
                proof {
                    reveal_strlit("-");
                    assert("-"@ =~= seq!['-']);
                }
                s.append("-");
                let mag: u64 = if self.raw == i64::MIN {
                    9_223_372_036_854_775_808u64
                } else {
                    (-self.raw) as u64
                };
                assert(mag as nat == (-(self@)) as nat);
                push_decimal(&mut s, mag);
            } else {
                push_decimal(&mut s, self.raw as u64);
            }
            proof {
                reveal_strlit("Hz");
            }
            s.append("Hz");
        }
        proof {
            assert(s@ =~= spec_display(self@));
        }
        s
    }
}

} // verus!
