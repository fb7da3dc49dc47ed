//! 256-bit unsigned integers, as the products of two balances need them.
//!
//! The arithmetic itself is done by `spl_math::uint::U256`; this module holds
//! the words of such a number as plain values, so that their meaning is a
//! natural number that the rest of the library can reason about.

use vstd::prelude::*;

verus! {

/// A 256-bit unsigned integer as four 64-bit words, least significant first.
#[derive(Clone, Copy, Debug)]
pub struct U256 {
    pub words: [u64; 4],
}

/// Two to the power 64: the weight of the second word.
pub open spec fn word_base() -> nat {
    0x1_0000_0000_0000_0000
}

/// Two to the power 256: the first number that no `U256` holds.
pub open spec fn wide_limit() -> nat {
    word_base() * word_base() * word_base() * word_base()
}

impl U256 {
    /// The natural number that the four words stand for.
    pub open spec fn value(&self) -> nat {
        (self.words[0] + self.words[1] * 0x1_0000_0000_0000_0000
            + self.words[2] * 0x1_0000_0000_0000_0000_0000_0000_0000_0000
            + self.words[3] * 0x1_0000_0000_0000_0000_0000_0000_0000_0000_0000_0000_0000_0000) as nat
    }

    /// Whether the number is small enough for a `u64`.
    pub fn fits_u64(&self) -> (fits: bool)
        ensures
            fits == (self.value() <= u64::MAX),
    {
        self.words[1] == 0 && self.words[2] == 0 && self.words[3] == 0
    }
}

/// Calls `U256::from` of `spl_math` on a `u64`. Trusted: the result stands
/// for the same number.
#[verifier::external_body]
pub(crate) fn wide_from_u64(x: u64) -> (w: U256)
    ensures
        w.value() == x,
{
    U256 { words: spl_math::uint::U256::from(x).0 }
}

/// Calls `U256::checked_mul` of `spl_math`. Trusted: the result is the
/// product where that is below two to the power 256, and `None` exactly where
/// it is not.
#[verifier::external_body]
pub(crate) fn wide_checked_mul(a: &U256, b: &U256) -> (product: Option<U256>)
    ensures
        match product {
            Some(p) => p.value() == a.value() * b.value(),
            None => a.value() * b.value() >= wide_limit(),
        },
{
    match spl_math::uint::U256(a.words).checked_mul(spl_math::uint::U256(b.words)) {
        Some(p) => Some(U256 { words: p.0 }),
        None => None,
    }
}

/// Calls `U256::checked_div` of `spl_math`. Trusted: the result is the
/// quotient rounded down, and `None` exactly where the divisor is zero.
#[verifier::external_body]
pub(crate) fn wide_checked_div(a: &U256, b: &U256) -> (quotient: Option<U256>)
    ensures
        match quotient {
            Some(q) => b.value() != 0 && q.value() == a.value() / b.value(),
            None => b.value() == 0,
        },
{
    match spl_math::uint::U256(a.words).checked_div(spl_math::uint::U256(b.words)) {
        Some(q) => Some(U256 { words: q.0 }),
        None => None,
    }
}

/// Calls `U256::as_u64` of `spl_math`, which panics on a number that does not
/// fit. Trusted: on one that fits, the result is that number.
#[verifier::external_body]
pub(crate) fn wide_as_u64(a: &U256) -> (x: u64)
    requires
        a.value() <= u64::MAX,
    ensures
        x == a.value(),
{
    spl_math::uint::U256(a.words).as_u64()
}

/// The product of two 64-bit numbers is below two to the power 256.
pub proof fn lemma_product_is_wide(a: nat, b: nat)
    requires
        a <= u64::MAX,
        b <= u64::MAX,
    ensures
        a * b < wide_limit(),
{
    let base = word_base();
    assert(a * b < base * base) by (nonlinear_arith)
        requires
            a < base,
            b < base,
    ;
    assert(base * base <= base * base * base * base) by (nonlinear_arith)
        requires
            base >= 1,
    ;
}

} // verus!
