//! The two formulas that decide what is paid out, and what holds of them.

use vstd::prelude::*;
use crate::wide::{
    lemma_product_is_wide, wide_as_u64, wide_checked_div, wide_checked_mul, wide_from_u64,
};

verus! {

/// Slots of reward that add up to the whole principal: the reward is one
/// hundredth of the withdrawn principal per slot.
pub const SLOTS_PER_PRINCIPAL: u64 = 100;

/// The reward on `amount` base units withdrawn after `elapsed` slots:
/// `amount * elapsed / 100`, rounded down.
pub open spec fn reward_of(amount: nat, elapsed: nat) -> nat {
    (amount * elapsed) / 100
}

/// Computes the reward on `amount` after `elapsed` slots. The product is
/// taken in 64 bits: where it does not fit there is no reward to pay, and
/// the result is `None`.
pub fn reward(amount: u64, elapsed: u64) -> (paid: Option<u64>)
    ensures
        paid == if amount * elapsed <= u64::MAX {
            Some(reward_of(amount as nat, elapsed as nat) as u64)
        } else {
            None
        },
{
    match amount.checked_mul(elapsed) {
        Some(product) => Some(product / SLOTS_PER_PRINCIPAL),
        None => None,
    }
}

/// The slice of `reserve` that `amount` shares out of a supply of `supply`
/// redeem: `amount * reserve / supply`, rounded down.
pub open spec fn share_of(amount: nat, reserve: nat, supply: nat) -> nat
    recommends
        supply > 0,
{
    (amount * reserve) / supply
}

/// Computes the slice of `reserve` that `amount` shares redeem. The product
/// is taken in 256 bits, so only the quotient can be too large: the result is
/// `None` where `supply` is zero or the slice does not fit in 64 bits.
pub fn share(amount: u64, reserve: u64, supply: u64) -> (out: Option<u64>)
    ensures
        out == if supply > 0 && share_of(amount as nat, reserve as nat, supply as nat)
            <= u64::MAX {
            Some(share_of(amount as nat, reserve as nat, supply as nat) as u64)
        } else {
            None
        },
{
    let shares = wide_from_u64(amount);
    let held = wide_from_u64(reserve);
    let total = wide_from_u64(supply);
    proof {
        lemma_product_is_wide(amount as nat, reserve as nat);
    }
    match wide_checked_mul(&shares, &held) {
        Some(product) => match wide_checked_div(&product, &total) {
            Some(quotient) => {
                if quotient.fits_u64() {
                    Some(wide_as_u64(&quotient))
                } else {
                    None
                }
            },
            None => None,
        },
        None => None,
    }
}

/// The reward does not shrink when the amount or the elapsed slots grow.
pub proof fn lemma_reward_monotone(amount: nat, elapsed: nat, more_amount: nat, more_elapsed: nat)
    requires
        amount <= more_amount,
        elapsed <= more_elapsed,
    ensures
        reward_of(amount, elapsed) <= reward_of(more_amount, more_elapsed),
{
    assert(amount * elapsed <= more_amount * more_elapsed) by (nonlinear_arith)
        requires
            amount <= more_amount,
            elapsed <= more_elapsed,
    ;
    vstd::arithmetic::div_mod::lemma_div_is_ordered(
        (amount * elapsed) as int,
        (more_amount * more_elapsed) as int,
        100,
    );
}

/// A withdrawal never takes more than its proportion of the reserve, and
/// what rounding leaves behind is less than one base unit.
pub proof fn lemma_share_bounds(amount: nat, reserve: nat, supply: nat)
    requires
        supply > 0,
    ensures
        share_of(amount, reserve, supply) * supply <= amount * reserve,
        amount * reserve < (share_of(amount, reserve, supply) + 1) * supply,
        share_of(amount, reserve, supply) * supply <= amount * reserve + supply,
{
    let product = (amount * reserve) as int;
    let d = supply as int;
    vstd::arithmetic::div_mod::lemma_fundamental_div_mod(product, d);
    vstd::arithmetic::div_mod::lemma_mod_bound(product, d);
    let q = product / d;
    assert(d * q == q * d) by (nonlinear_arith);
    assert((q + 1) * d == q * d + d) by (nonlinear_arith);
}

/// Shares that do not exceed the supply never redeem more than the reserve.
pub proof fn lemma_share_within_reserve(amount: nat, reserve: nat, supply: nat)
    requires
        supply > 0,
        amount <= supply,
    ensures
        share_of(amount, reserve, supply) <= reserve,
{
    lemma_share_bounds(amount, reserve, supply);
    let q = share_of(amount, reserve, supply);
    assert(q <= reserve) by (nonlinear_arith)
        requires
            q * supply <= amount * reserve,
            amount <= supply,
            supply > 0,
    ;
}

} // verus!
