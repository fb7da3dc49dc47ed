//! The records that the programs keep.

use vstd::prelude::*;
use crate::identity::Identity;

verus! {

/// What is staked by one staker on one mint, and since when.
#[derive(Clone, Copy, Debug, PartialEq, Eq)]
pub struct StakeInfo {
    /// Who staked.
    pub staker: Identity,
    /// The mint of the staked token.
    pub mint: Identity,
    /// The slot of the last stake or partial withdrawal.
    pub stake_at: u64,
    /// Set by every stake; no operation reads it.
    pub is_staked: bool,
    /// Base units held in the stake vault for this record.
    pub amount: u64,
}

impl StakeInfo {
    /// A record that exists holds a positive amount and is marked staked.
    pub open spec fn active(&self) -> bool {
        self.is_staked && self.amount > 0
    }

    /// Whether the record is that of `staker` on `mint`.
    pub open spec fn of(&self, staker: Identity, mint: Identity) -> bool {
        self.staker == staker && self.mint == mint
    }

    /// The record as it is opened: every field zero or false.
    pub fn empty() -> (record: StakeInfo)
        ensures
            record.staker.is_zero(),
            record.mint.is_zero(),
            record.stake_at == 0,
            !record.is_staked,
            record.amount == 0,
    {
        StakeInfo {
            staker: Identity::zero(),
            mint: Identity::zero(),
            stake_at: 0,
            is_staked: false,
            amount: 0,
        }
    }
}

/// The amount that a record holds, where absence counts as zero.
pub open spec fn staked_amount(record: Option<StakeInfo>) -> nat {
    match record {
        Some(info) => info.amount as nat,
        None => 0,
    }
}

/// A pool of two mints under one market maker.
#[derive(Clone, Copy, Debug, PartialEq, Eq)]
pub struct Pool {
    /// The market maker that the pool belongs to.
    pub amm: Identity,
    /// The first mint.
    pub mint_a: Identity,
    /// The second mint.
    pub mint_b: Identity,
}

impl Pool {
    /// A pool is of two different mints. This is settled when a pool is
    /// created; a withdrawal neither checks nor changes it.
    pub open spec fn distinct(&self) -> bool {
        self.mint_a != self.mint_b
    }
}

} // verus!
