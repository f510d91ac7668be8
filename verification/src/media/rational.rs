//! How an EXIF fraction (a shutter speed, an aperture, a focal length) is shown: reduced
//! to lowest terms, then as a whole number, as `p/q` below one, or as a decimal from one
//! on. The decimal itself is written by the caller.

use vstd::prelude::*;

use num_integer::Integer;

verus! {

/// The greatest common divisor of `a` and `b` (`gcd(a, 0) == a`).
pub open spec fn gcd(a: nat, b: nat) -> nat
    decreases b,
{
    if b == 0 {
        a
    } else {
        gcd(b, a % b)
    }
}

pub open spec fn abs(a: int) -> nat {
    if a < 0 {
        (-a) as nat
    } else {
        a as nat
    }
}

/// Integer division rounded toward zero, as Rust's `/` divides.
pub open spec fn div_toward_zero(a: int, b: int) -> int {
    if a >= 0 {
        if b > 0 {
            a / b
        } else {
            -(a / (-b))
        }
    } else {
        if b > 0 {
            -((-a) / b)
        } else {
            (-a) / (-b)
        }
    }
}

/// num-integer's `Integer::gcd` on `i32` (Stein's algorithm): the greatest common
/// divisor of the two numbers' absolute values, never negative. It panics (or, without
/// overflow checks, gives a negative number) when that divisor is 2^31, so that input is
/// left out.
#[verifier::external_body]
fn gcd_i32(a: i32, b: i32) -> (g: i32)
    requires
        gcd(abs(a as int), abs(b as int)) < 0x8000_0000,
    ensures
        g == gcd(abs(a as int), abs(b as int)),
{
    a.gcd(&b)
}

/// How a fraction is shown.
#[derive(Debug, Clone, Copy, PartialEq, Eq)]
pub enum FractionShown {
    /// A whole number.
    Whole(i32),
    /// `p/q`, for a value below one.
    Ratio(i32, i32),
    /// `p / q` written as a decimal, for a value of one or more (a positive number over
    /// zero counts as infinitely large).
    Decimal(i32, i32),
}

/// `n/d` in lowest terms, and how it is shown.
pub open spec fn spec_fraction_shown(n: i32, d: i32) -> FractionShown {
    let g = gcd(abs(n as int), abs(d as int)) as int;
    let p = div_toward_zero(n as int, g);
    let q = div_toward_zero(d as int, g);
    if q == 1 {
        FractionShown::Whole(p as i32)
    } else if (q > 0 && p >= q) || (q < 0 && p <= q) || (q == 0 && p > 0) {
        FractionShown::Decimal(p as i32, q as i32)
    } else {
        FractionShown::Ratio(p as i32, q as i32)
    }
}

proof fn lemma_gcd_zero_only_of_zeros(a: nat, b: nat)
    ensures
        gcd(a, b) == 0 ==> a == 0 && b == 0,
    decreases b,
{
    if b > 0 {
        lemma_gcd_zero_only_of_zeros(b, a % b);
    }
}

/// Reduces the fraction `n/d` and says how it is shown.
pub fn fraction_shown(n: i32, d: i32) -> (r: FractionShown)
    requires
        n != 0 || d != 0,
        gcd(abs(n as int), abs(d as int)) < 0x8000_0000,
    ensures
        r == spec_fraction_shown(n, d),
{
    let g = gcd_i32(n, d);
    proof {
        lemma_gcd_zero_only_of_zeros(abs(n as int), abs(d as int));
    }
    let p = n / g;
    let q = d / g;
    if q == 1 {
        FractionShown::Whole(p)
    } else if (q > 0 && p >= q) || (q < 0 && p <= q) || (q == 0 && p > 0) {
        FractionShown::Decimal(p, q)
    } else {
        FractionShown::Ratio(p, q)
    }
}

} // verus!
