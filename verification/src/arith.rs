//! Integer helpers shared by the combat rules.

use vstd::prelude::*;

verus! {

/// Quotient of `a` by `b` rounded toward zero, as machine division rounds.
pub open spec fn tdiv(a: int, b: int) -> int {
    if b < 0 {
        if a >= 0 {
            -(a / -b)
        } else {
            (-a) / -b
        }
    } else if a >= 0 {
        a / b
    } else {
        -((-a) / b)
    }
}

/// Machine division, with its rounding spelled out.
pub fn divide(a: i32, b: i32) -> (r: i32)
    requires
        b != 0,
        !(a == i32::MIN && b == -1),
    ensures
        r == tdiv(a as int, b as int),
{
    if b > 0 {
        a / b
    } else {
        let d: i64 = -(b as i64);
        let q: i64 = (a as i64) / d;
        proof {
            lemma_tdiv_shrinks(a as int, d as int);
            if a == i32::MIN {
                vstd::arithmetic::div_mod::lemma_div_is_ordered_by_denominator(-a, 2, d as int);
            }
        }
        (-q) as i32
    }
}

/// The larger of two integers.
pub open spec fn max_of(a: int, b: int) -> int {
    if a >= b {
        a
    } else {
        b
    }
}

/// The smaller of two integers.
pub open spec fn min_of(a: int, b: int) -> int {
    if a <= b {
        a
    } else {
        b
    }
}

/// `x` moved to the nearest value of `[lo, hi]`.
pub open spec fn clamp_to(x: int, lo: int, hi: int) -> int {
    if x < lo {
        lo
    } else if x > hi {
        hi
    } else {
        x
    }
}

/// Limit a 32-bit value to `[lo, hi]`.
pub fn clamp_i32(x: i32, lo: i32, hi: i32) -> (r: i32)
    requires
        lo <= hi,
    ensures
        r == clamp_to(x as int, lo as int, hi as int),
{
    if x < lo {
        lo
    } else if x > hi {
        hi
    } else {
        x
    }
}

/// Sum of two 16-bit values, held at the ends of the 16-bit range.
pub fn saturating_add_i16(a: i16, b: i16) -> (r: i16)
    ensures
        r == clamp_to(a + b, i16::MIN as int, i16::MAX as int),
{
    let sum: i32 = a as i32 + b as i32;
    if sum < i16::MIN as i32 {
        i16::MIN
    } else if sum > i16::MAX as i32 {
        i16::MAX
    } else {
        sum as i16
    }
}

/// Distance of `x` from zero.
pub fn magnitude(x: i32) -> (r: u32)
    ensures
        r == (if x >= 0 { x as int } else { -x }),
{
    if x >= 0 {
        x as u32
    } else {
        let wide: i64 = -(x as i64);
        wide as u32
    }
}

/// The low 16 bits of `|x|`, read as a signed number, as a skill's heal amount is read.
pub fn magnitude_i16(x: i32) -> (r: i16)
    ensures
        r == ((if x >= 0 { x as int } else { -x }) as u32) as i16,
{
    magnitude(x) as i16
}

/// The value of an optional table column, or `default` where the column is empty.
pub open spec fn or_i32(x: Option<i32>, default: i32) -> i32 {
    match x {
        Some(v) => v,
        None => default,
    }
}

/// The value of an optional 16-bit table column, or `default` where the column is empty.
pub open spec fn or_i16(x: Option<i16>, default: i16) -> i16 {
    match x {
        Some(v) => v,
        None => default,
    }
}

/// Truncated division keeps the order of the dividends.
pub proof fn lemma_tdiv_monotone(a: int, b: int, d: int)
    requires
        a <= b,
        d > 0,
    ensures
        tdiv(a, d) <= tdiv(b, d),
{
    if a >= 0 {
        vstd::arithmetic::div_mod::lemma_div_is_ordered(a, b, d);
    } else if b >= 0 {
        vstd::arithmetic::div_mod::lemma_div_pos_is_pos(b, d);
        vstd::arithmetic::div_mod::lemma_div_pos_is_pos(-a, d);
    } else {
        vstd::arithmetic::div_mod::lemma_div_is_ordered(-b, -a, d);
    }
}

/// A truncated quotient by a positive divisor lies between zero and the dividend.
pub proof fn lemma_tdiv_shrinks(a: int, d: int)
    requires
        d > 0,
    ensures
        a >= 0 ==> 0 <= tdiv(a, d) <= a,
        a < 0 ==> a <= tdiv(a, d) <= 0,
{
    if a >= 0 {
        vstd::arithmetic::div_mod::lemma_div_pos_is_pos(a, d);
        vstd::arithmetic::div_mod::lemma_div_nonincreasing(a, d);
    } else {
        vstd::arithmetic::div_mod::lemma_div_pos_is_pos(-a, d);
        vstd::arithmetic::div_mod::lemma_div_nonincreasing(-a, d);
    }
}

} // verus!
