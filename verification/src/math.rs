//! Fixed-point arithmetic shared by the programs: products are formed in a
//! wider integer than their factors, divided once, and rounded down; a result
//! that does not fit is reported, never wrapped.

use vstd::prelude::*;
use vstd::arithmetic::div_mod::lemma_div_is_ordered;
use vstd::arithmetic::div_mod::lemma_div_multiples_vanish;
use vstd::arithmetic::mul::lemma_mul_is_commutative;

verus! {

/// Basis points in one whole.
pub const BASIS_POINTS: u64 = 10_000;

/// `a * b / d`, rounded down, where `d` is not zero and the quotient fits in 64 bits.
pub open spec fn mul_div_floor(a: u64, b: u64, d: u64) -> Option<u64> {
    if d == 0 || (a * b) / (d as int) > u64::MAX {
        None
    } else {
        Some(((a * b) / (d as int)) as u64)
    }
}

/// Computes `a * b / d` rounded down, with the product formed in 128 bits.
pub fn mul_div(a: u64, b: u64, d: u64) -> (q: Option<u64>)
    ensures
        q == mul_div_floor(a, b, d),
{
    if d == 0 {
        return None;
    }
    assert(a * b <= 0xFFFF_FFFF_FFFF_FFFF * 0xFFFF_FFFF_FFFF_FFFF) by (nonlinear_arith)
        requires
            a <= 0xFFFF_FFFF_FFFF_FFFF,
            b <= 0xFFFF_FFFF_FFFF_FFFF,
    ;
    let product: u128 = (a as u128) * (b as u128);
    let quotient: u128 = product / (d as u128);
    if quotient > u64::MAX as u128 {
        None
    } else {
        Some(quotient as u64)
    }
}

/// The part `numerator / denominator` of `amount`, rounded down, for a part
/// that is at most the whole.
pub fn fraction_of(amount: u64, numerator: u64, denominator: u64) -> (part: u64)
    requires
        0 < denominator,
        numerator <= denominator,
    ensures
        part == (amount * numerator) / (denominator as int),
        part <= amount,
{
    proof {
        lemma_mul_div_within(amount, numerator, denominator);
    }
    assert(amount * numerator <= 0xFFFF_FFFF_FFFF_FFFF * 0xFFFF_FFFF_FFFF_FFFF) by (nonlinear_arith)
        requires
            amount <= 0xFFFF_FFFF_FFFF_FFFF,
            numerator <= 0xFFFF_FFFF_FFFF_FFFF,
    ;
    let product: u128 = (amount as u128) * (numerator as u128);
    let part: u128 = product / (denominator as u128);
    part as u64
}

/// Where the multiplier is at most the divisor, `a * b / d` is at most `a`.
pub proof fn lemma_mul_div_within(a: u64, b: u64, d: u64)
    requires
        0 < d,
        b <= d,
    ensures
        (a * b) / (d as int) <= a,
        mul_div_floor(a, b, d) is Some,
        mul_div_floor(a, b, d).unwrap() <= a,
{
    assert(a * b <= a * d) by (nonlinear_arith)
        requires
            b <= d,
            0 <= a,
    ;
    lemma_div_is_ordered(a * b, a * d, d as int);
    lemma_div_multiples_vanish(a as int, d as int);
    lemma_mul_is_commutative(a as int, d as int);
}

/// The product of three factors, where it fits in 128 bits.
pub open spec fn product_of_three(a: u64, b: u64, c: u64) -> Option<u128> {
    if a * b * c <= u128::MAX {
        Some((a * b * c) as u128)
    } else {
        None
    }
}

/// Computes the product of three factors in 128 bits.
pub fn wide_product(a: u64, b: u64, c: u64) -> (product: Option<u128>)
    ensures
        product == product_of_three(a, b, c),
{
    assert(a * b <= 0xFFFF_FFFF_FFFF_FFFF * 0xFFFF_FFFF_FFFF_FFFF) by (nonlinear_arith)
        requires
            a <= 0xFFFF_FFFF_FFFF_FFFF,
            b <= 0xFFFF_FFFF_FFFF_FFFF,
    ;
    let first: u128 = (a as u128) * (b as u128);
    first.checked_mul(c as u128)
}

/// `a * b * c / d`, rounded down, where `d` is not zero and the quotient
/// fits in 64 bits.
pub open spec fn mul_mul_div_floor(a: u64, b: u64, c: u64, d: u64) -> Option<u64> {
    if d == 0 || (a * b * c) / (d as int) > u64::MAX {
        None
    } else {
        Some(((a * b * c) / (d as int)) as u64)
    }
}

/// Computes `a * b * c / d` rounded down, with the product formed in 128
/// bits. A product that does not fit in 128 bits has no quotient that fits
/// in 64.
pub fn mul_mul_div(a: u64, b: u64, c: u64, d: u64) -> (q: Option<u64>)
    ensures
        q == mul_mul_div_floor(a, b, c, d),
{
    if d == 0 {
        return None;
    }
    match wide_product(a, b, c) {
        Some(product) => {
            let quotient: u128 = product / (d as u128);
            if quotient > u64::MAX as u128 {
                None
            } else {
                Some(quotient as u64)
            }
        },
        None => {
            proof {
                let product = a * b * c;
                let floor = 0x1_0000_0000_0000_0000 * d;
                assert(floor <= product);
                lemma_div_is_ordered(floor, product, d as int);
                lemma_div_multiples_vanish(0x1_0000_0000_0000_0000, d as int);
            }
            None
        },
    }
}

/// The seconds from `since` to `now`; none where time would run backwards.
pub open spec fn seconds_between(since: i64, now: i64) -> Option<u64> {
    if since <= now && now - since <= i64::MAX {
        Some((now - since) as u64)
    } else {
        None
    }
}

/// Computes the seconds from `since` to `now`.
pub fn elapsed_seconds(since: i64, now: i64) -> (seconds: Option<u64>)
    ensures
        seconds == seconds_between(since, now),
{
    match now.checked_sub(since) {
        Some(difference) => {
            if difference < 0 {
                None
            } else {
                Some(difference as u64)
            }
        },
        None => None,
    }
}

} // verus!
