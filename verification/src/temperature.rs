//! The temperature converter's core.  A temperature is carried as an
//! integer count of hundredths of a degree — the resolution the
//! converter prints — and the two linear conversions round to the
//! nearest hundredth.

use vstd::prelude::*;
use crate::text::seqs_match_ci;
use crate::text::str_eq_ignore_ascii_case;

verus! {

/// Largest magnitude, in hundredths of a degree, a conversion accepts.
pub const MAX_ABS_HUNDREDTHS: i64 = 100_000_000_000;

/// The two units the converter knows.
#[derive(Clone, Copy, PartialEq, Eq, Structural, Debug)]
pub enum Unit {
    Fahrenheit,
    Celsius,
}

/// `a / b` rounded to the nearest integer, ties away from zero.
pub open spec fn round_div(a: int, b: int) -> int
    recommends
        b > 0,
{
    if a >= 0 {
        (2 * a + b) / (2 * b)
    } else {
        -((2 * (-a) + b) / (2 * b))
    }
}

/// Fahrenheit to celsius, in hundredths: `(f - 32) * 5 / 9`, rounded.
pub open spec fn spec_f_to_c(v: int) -> int {
    round_div((v - 3200) * 5, 9)
}

/// Celsius to fahrenheit, in hundredths: `c * 9 / 5 + 32`, rounded.
pub open spec fn spec_c_to_f(v: int) -> int {
    round_div(v * 9, 5) + 3200
}

/// Rounded division of a nonnegative value by 9.
fn div9_round(a: u64) -> (q: u64)
    requires
        a <= 2_000_000_000_000,
    ensures
        q == round_div(a as int, 9),
        q <= a,
{
    (2 * a + 9) / 18
}

/// Rounded division of a nonnegative value by 5.
fn div5_round(a: u64) -> (q: u64)
    requires
        a <= 2_000_000_000_000,
    ensures
        q == round_div(a as int, 5),
        q <= a,
{
    (2 * a + 5) / 10
}

/// Converts a fahrenheit reading, in hundredths of a degree, to celsius.
pub fn fahrenheit_to_celsius(v: i64) -> (r: i64)
    requires
        -MAX_ABS_HUNDREDTHS <= v <= MAX_ABS_HUNDREDTHS,
    ensures
        r == spec_f_to_c(v as int),
{
    let t: i64 = v - 3200;
    if t >= 0 {
        div9_round((t as u64) * 5) as i64
    } else {
        -(div9_round(((-t) as u64) * 5) as i64)
    }
}

/// Converts a celsius reading, in hundredths of a degree, to fahrenheit.
pub fn celsius_to_fahrenheit(v: i64) -> (r: i64)
    requires
        -MAX_ABS_HUNDREDTHS <= v <= MAX_ABS_HUNDREDTHS,
    ensures
        r == spec_c_to_f(v as int),
{
    if v >= 0 {
        (div5_round((v as u64) * 9) as i64) + 3200
    } else {
        -(div5_round(((-v) as u64) * 9) as i64) + 3200
    }
}

/// Rounding to the nearest multiple never strays from the exact quotient
/// by more than half the divisor.
proof fn lemma_round_div_close(a: int, b: int)
    requires
        b == 9 || b == 5,
    ensures
        2 * (round_div(a, b) * b - a) <= b,
        2 * (a - round_div(a, b) * b) <= b,
{
    let m = if a >= 0 {
        a
    } else {
        -a
    };
    if b == 9 {
        let q = (2 * m + 9) / 18;
        let r = (2 * m + 9) % 18;
        assert(2 * m + 9 == 18 * q + r);
        assert(0 <= r < 18);
        assert(round_div(a, 9) == if a >= 0 {
            q
        } else {
            -q
        });
    } else {
        let q = (2 * m + 5) / 10;
        let r = (2 * m + 5) % 10;
        assert(2 * m + 5 == 10 * q + r);
        assert(0 <= r < 10);
        assert(round_div(a, 5) == if a >= 0 {
            q
        } else {
            -q
        });
    }
}

/// Converting fahrenheit to celsius and back lands within one hundredth
/// of a degree of the starting value.
pub proof fn lemma_round_trip(v: int)
    requires
        -MAX_ABS_HUNDREDTHS <= v <= MAX_ABS_HUNDREDTHS,
    ensures
        spec_c_to_f(spec_f_to_c(v)) - v <= 1,
        v - spec_c_to_f(spec_f_to_c(v)) <= 1,
{
    let t = v - 3200;
    let c = round_div(5 * t, 9);
    let f = round_div(9 * c, 5) + 3200;
    lemma_round_div_close(5 * t, 9);
    lemma_round_div_close(9 * c, 5);
    assert(2 * (9 * c - 5 * t) <= 9 && 2 * (5 * t - 9 * c) <= 9);
    assert(9 * c - 5 * t <= 4 && 5 * t - 9 * c <= 4);
    assert(5 * (f - 3200) - 9 * c <= 2 && 9 * c - 5 * (f - 3200) <= 2);
    assert(5 * (f - 3200) - 5 * t <= 6 && 5 * t - 5 * (f - 3200) <= 6);
    assert((v - 3200) * 5 == 5 * t);
}

/// Picks the unit a (case-insensitively matched) token names.
pub fn parse_unit(s: &str) -> (u: Option<Unit>)
    ensures
        u == Some(Unit::Fahrenheit) <==> seqs_match_ci(s@, "fahrenheit"@),
        u == Some(Unit::Celsius) <==> seqs_match_ci(s@, "celsius"@),
        u is None <==> !seqs_match_ci(s@, "fahrenheit"@) && !seqs_match_ci(s@, "celsius"@),
{
    proof {
        reveal_strlit("fahrenheit");
        reveal_strlit("celsius");
        assert("fahrenheit"@.len() == 10);
        assert("celsius"@.len() == 7);
    }
    if str_eq_ignore_ascii_case(s, "fahrenheit") {
        Some(Unit::Fahrenheit)
    } else if str_eq_ignore_ascii_case(s, "celsius") {
        Some(Unit::Celsius)
    } else {
        None
    }
}

/// A converted reading: the unit it now is in, and its value in
/// hundredths of a degree.
#[derive(Clone, Copy, PartialEq, Eq, Structural, Debug)]
pub struct Converted {
    pub unit: Unit,
    pub value: i64,
}

/// One run of the converter's computation: from the unit token and the
/// reading, in hundredths of a degree, to the target unit and the
/// converted reading, or nothing when the unit token names no unit.
pub fn convert(unit: &str, value: i64) -> (r: Option<Converted>)
    requires
        -MAX_ABS_HUNDREDTHS <= value <= MAX_ABS_HUNDREDTHS,
    ensures
        seqs_match_ci(unit@, "fahrenheit"@) ==> r is Some && r->0.unit is Celsius
            && r->0.value == spec_f_to_c(value as int),
        seqs_match_ci(unit@, "celsius"@) ==> r is Some && r->0.unit is Fahrenheit
            && r->0.value == spec_c_to_f(value as int),
        r is None <==> !seqs_match_ci(unit@, "fahrenheit"@) && !seqs_match_ci(
            unit@,
            "celsius"@,
        ),
{
    match parse_unit(unit) {
        Some(Unit::Fahrenheit) => Some(
            Converted { unit: Unit::Celsius, value: fahrenheit_to_celsius(value) },
        ),
        Some(Unit::Celsius) => Some(
            Converted { unit: Unit::Fahrenheit, value: celsius_to_fahrenheit(value) },
        ),
        None => None,
    }
}

} // verus!
