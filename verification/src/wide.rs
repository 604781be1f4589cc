//! Multiplication followed by division, through 256 bits.
//!
//! The product of two 128-bit amounts needs up to 256 bits. The intermediate
//! value is held by `primitive_types::U256`, which does the multiplication
//! and the division; this module states what those operations return and
//! proves that `multiply_then_divide` is the floor of the exact quotient.

use primitive_types::U256;
use vstd::arithmetic::div_mod::{lemma_div_by_multiple, lemma_div_is_ordered};
use vstd::arithmetic::mul::{lemma_mul_inequality, lemma_mul_is_commutative};
use vstd::prelude::*;

verus! {

/// A 256-bit unsigned integer as the four 64-bit words of a `U256`, least
/// significant word first.
struct Wide {
    words: [u64; 4],
}

impl View for Wide {
    type V = nat;

    closed spec fn view(&self) -> nat {
        (self.words[0] as nat) + (self.words[1] as nat) * 0x1_0000_0000_0000_0000nat
            + (self.words[2] as nat) * 0x1_0000_0000_0000_0000_0000_0000_0000_0000nat
            + (self.words[3] as nat)
            * 0x1_0000_0000_0000_0000_0000_0000_0000_0000_0000_0000_0000_0000nat
    }
}

/// 2^128.
spec fn two_128() -> nat {
    0x1_0000_0000_0000_0000_0000_0000_0000_0000nat
}

/// 2^256.
spec fn two_256() -> nat {
    0x1_0000_0000_0000_0000_0000_0000_0000_0000_0000_0000_0000_0000_0000_0000_0000_0000nat
}

/// Calls `U256::from(u128)`, which puts the low 64 bits of its argument in
/// word 0 and the high 64 bits in word 1 and leaves the other words zero.
/// Trusted: the result has the value of the argument.
#[verifier::external_body]
fn wide_from_u128(x: u128) -> (r: Wide)
    ensures
        r@ == x,
{
    Wide { words: U256::from(x).0 }
}

/// Calls `U256::checked_mul`, which computes the full 512-bit product and
/// returns its low 256 bits when the high 256 bits are all zero, and `None`
/// otherwise. Trusted: the result is the product where that is below 2^256,
/// and `None` where it is not.
#[verifier::external_body]
fn wide_checked_mul(a: &Wide, b: &Wide) -> (r: Option<Wide>)
    ensures
        a@ * b@ < two_256() ==> r is Some && r->0@ == a@ * b@,
        a@ * b@ >= two_256() ==> r is None,
{
    match U256(a.words).checked_mul(U256(b.words)) {
        Some(p) => Some(Wide { words: p.0 }),
        None => None,
    }
}

/// Calls `U256::checked_div`, which returns `None` for a zero divisor and
/// the quotient otherwise. Trusted: the quotient is rounded down.
#[verifier::external_body]
fn wide_checked_div(a: &Wide, b: &Wide) -> (r: Option<Wide>)
    ensures
        b@ != 0 ==> r is Some && r->0@ == a@ / b@,
        b@ == 0 ==> r is None,
{
    match U256(a.words).checked_div(U256(b.words)) {
        Some(q) => Some(Wide { words: q.0 }),
        None => None,
    }
}

/// Calls `U256::low_u128`, which joins words 0 and 1 into one `u128` and
/// drops words 2 and 3. Trusted: the result is the value modulo 2^128.
#[verifier::external_body]
fn wide_low_u128(a: &Wide) -> (r: u128)
    ensures
        r == a@ % two_128(),
{
    U256(a.words).low_u128()
}

impl Wide {
    /// Whether the value is below 2^128.
    fn fits_u128(&self) -> (r: bool)
        ensures
            r == (self@ < two_128()),
    {
        self.words[2] == 0 && self.words[3] == 0
    }
}

/// `floor(a * b / c)` where that is defined and fits in 128 bits.
pub open spec fn multiply_then_divide_spec(a: u128, b: u128, c: u128) -> Option<u128> {
    if c == 0 {
        None
    } else if (a * b) / (c as int) > u128::MAX {
        None
    } else {
        Some(((a * b) / (c as int)) as u128)
    }
}

/// The product of two 128-bit values is below 2^256.
proof fn lemma_product_fits(a: u128, b: u128)
    ensures
        a * b < two_256(),
{
    assert(a * b <= 0xffff_ffff_ffff_ffff_ffff_ffff_ffff_ffff * 0xffff_ffff_ffff_ffff_ffff_ffff_ffff_ffff)
        by (nonlinear_arith)
        requires
            0 <= a <= 0xffff_ffff_ffff_ffff_ffff_ffff_ffff_ffff,
            0 <= b <= 0xffff_ffff_ffff_ffff_ffff_ffff_ffff_ffff,
    ;
}

/// Computes `floor(a * b / c)` without losing the high half of the product.
///
/// Returns `None` when `c` is zero and when the quotient does not fit in 128
/// bits; never rounds up.
pub fn multiply_then_divide(a: u128, b: u128, c: u128) -> (r: Option<u128>)
    ensures
        r == multiply_then_divide_spec(a, b, c),
{
    let wide_a = wide_from_u128(a);
    let wide_b = wide_from_u128(b);
    proof {
        lemma_product_fits(a, b);
    }
    match wide_checked_mul(&wide_a, &wide_b) {
        None => None,
        Some(product) => {
            let wide_c = wide_from_u128(c);
            match wide_checked_div(&product, &wide_c) {
                None => None,
                Some(quotient) => {
                    if quotient.fits_u128() {
                        Some(wide_low_u128(&quotient))
                    } else {
                        None
                    }
                },
            }
        },
    }
}

/// The quotient grows with the first factor: where it is defined for the
/// larger factor, it is defined for the smaller and is no larger.
pub proof fn lemma_multiply_then_divide_monotone(low: u128, high: u128, b: u128, c: u128)
    requires
        low <= high,
        multiply_then_divide_spec(high, b, c) is Some,
    ensures
        multiply_then_divide_spec(low, b, c) is Some,
        multiply_then_divide_spec(low, b, c)->0 <= multiply_then_divide_spec(high, b, c)->0,
{
    lemma_mul_inequality(low as int, high as int, b as int);
    lemma_div_is_ordered(low * b, high * b, c as int);
    assert((low * b) / (c as int) >= 0) by (nonlinear_arith)
        requires
            low * b >= 0,
            c > 0,
    ;
}

/// The two factors can change places.
pub proof fn lemma_multiply_then_divide_commutes(a: u128, b: u128, c: u128)
    ensures
        multiply_then_divide_spec(a, b, c) == multiply_then_divide_spec(b, a, c),
{
    lemma_mul_is_commutative(a as int, b as int);
}

/// A part is no more than the whole: for `b <= c` the quotient is defined
/// and at most `a`.
pub proof fn lemma_multiply_then_divide_part(a: u128, b: u128, c: u128)
    requires
        b <= c,
        c != 0,
    ensures
        multiply_then_divide_spec(a, b, c) is Some,
        multiply_then_divide_spec(a, b, c)->0 <= a,
{
    lemma_multiply_then_divide_whole(a, c);
    lemma_multiply_then_divide_commutes(a, c, c);
    lemma_multiply_then_divide_monotone(b, c, a, c);
    lemma_multiply_then_divide_commutes(a, b, c);
}

/// Multiplying and dividing by the same number changes nothing.
pub proof fn lemma_multiply_then_divide_whole(a: u128, c: u128)
    requires
        c != 0,
    ensures
        multiply_then_divide_spec(a, c, c) == Some(a),
{
    lemma_div_by_multiple(a as int, c as int);
}

} // verus!
