//! One staker's position on one mint, followed through any run of stakes
//! and withdrawals.
//!
//! An operation that fails leaves the position as it was, so a run is the
//! trace of the operations that went through.

use vstd::prelude::*;
use crate::errors::Failure;
use crate::identity::Identity;
use crate::stake::{stake, Stake};
use crate::state::{staked_amount, StakeInfo};
use crate::token::TokenAccount;
use crate::unstake::{derived_bindings, unstake, StakeBindings, Unstake, UnstakeReceipt};

verus! {

/// The identities that stay fixed while a position changes.
#[derive(Clone, Copy, Debug, PartialEq, Eq)]
pub struct Party {
    pub staker: Identity,
    pub mint: Identity,
    pub stake_info_key: Identity,
    pub reward_vault_key: Identity,
}

/// The record and the balances of one staker on one mint.
#[derive(Clone, Copy, Debug, PartialEq, Eq)]
pub struct Position {
    /// The stake record, or `None` while there is none.
    pub record: Option<StakeInfo>,
    /// The stake vault; empty before the first stake.
    pub vault: TokenAccount,
    /// The staker's own balance.
    pub wallet: TokenAccount,
    /// The reward vault of the mint.
    pub reward_vault: TokenAccount,
}

/// One request of the staker.
#[derive(Clone, Copy, Debug, PartialEq, Eq)]
pub enum Move {
    Stake { amount: u64, slot: u64 },
    Unstake { amount: u64, slot: u64 },
}

impl Move {
    /// The slot at which the request is made.
    pub open spec fn slot(self) -> u64 {
        match self {
            Move::Stake { amount, slot } => slot,
            Move::Unstake { amount, slot } => slot,
        }
    }
}

impl Position {
    /// Whether the stake vault holds exactly what the record says is staked.
    pub open spec fn balanced(self) -> bool {
        self.vault.amount == staked_amount(self.record)
    }

    /// Whether the record, if there is one, is that of the party, holds a
    /// positive amount and is marked staked.
    pub open spec fn sound(self, party: Party) -> bool {
        self.record matches Some(info) ==> info.active() && info.of(party.staker, party.mint)
    }

    /// The accounts that a stake on this position presents.
    pub open spec fn stake_accounts(self, party: Party) -> Stake {
        Stake {
            staker: party.staker,
            mint: party.mint,
            stake_info_key: party.stake_info_key,
            stake_info: self.record,
            vault_token_account: Some(self.vault),
            staker_token_account: self.wallet,
        }
    }

    /// The accounts that a withdrawal from this position presents.
    pub open spec fn unstake_accounts(self, party: Party) -> Unstake {
        Unstake {
            staker: party.staker,
            mint: party.mint,
            stake_info_key: party.stake_info_key,
            stake_info: self.record,
            vault_token_account: self.vault,
            reward_vault_key: party.reward_vault_key,
            reward_vault: self.reward_vault,
            staker_token_account: self.wallet,
        }
    }

    /// Whether the request goes through on this position.
    pub open spec fn accepts(self, party: Party, bound: StakeBindings, request: Move) -> bool {
        match request {
            Move::Stake { amount, slot } => self.stake_accounts(party).failure(
                bound.stake_info,
                amount,
            ) is None,
            Move::Unstake { amount, slot } => self.unstake_accounts(party).failure(
                bound,
                amount,
                slot,
            ) is None,
        }
    }

    /// The position after the request: changed as the operation says where
    /// it goes through, untouched where it fails.
    pub open spec fn step(self, party: Party, bound: StakeBindings, request: Move) -> Position {
        if !self.accepts(party, bound, request) {
            self
        } else {
            match request {
                Move::Stake { amount, slot } => {
                    let post = self.stake_accounts(party).after(amount, slot);
                    Position {
                        record: post.stake_info,
                        vault: post.vault(),
                        wallet: post.staker_token_account,
                        reward_vault: self.reward_vault,
                    }
                },
                Move::Unstake { amount, slot } => {
                    let post = self.unstake_accounts(party).after(amount, slot);
                    Position {
                        record: post.stake_info,
                        vault: post.vault_token_account,
                        wallet: post.staker_token_account,
                        reward_vault: post.reward_vault,
                    }
                },
            }
        }
    }

    /// What the request adds to the principal on deposit: the amount of a
    /// stake that goes through, minus that of a withdrawal that goes
    /// through, nothing for a request that fails.
    pub open spec fn deposit(self, party: Party, bound: StakeBindings, request: Move) -> int {
        if !self.accepts(party, bound, request) {
            0
        } else {
            match request {
                Move::Stake { amount, slot } => amount as int,
                Move::Unstake { amount, slot } => -(amount as int),
            }
        }
    }

    /// The position after the requests, taken in order.
    pub open spec fn run(self, party: Party, bound: StakeBindings, requests: Seq<Move>) -> Position
        decreases requests.len(),
    {
        if requests.len() == 0 {
            self
        } else {
            self.run(party, bound, requests.drop_last()).step(party, bound, requests.last())
        }
    }

    /// Deposits minus withdrawals over the requests, taken in order.
    pub open spec fn net_deposits(
        self,
        party: Party,
        bound: StakeBindings,
        requests: Seq<Move>,
    ) -> int
        decreases requests.len(),
    {
        if requests.len() == 0 {
            0
        } else {
            self.net_deposits(party, bound, requests.drop_last()) + self.run(
                party,
                bound,
                requests.drop_last(),
            ).deposit(party, bound, requests.last())
        }
    }
}

impl Party {
    /// Whether the two derived accounts of the party sit where their seeds
    /// derive them under `program`, and with which bumps.
    pub open spec fn bindings(self, program: Identity) -> StakeBindings {
        derived_bindings(
            self.staker,
            self.mint,
            self.stake_info_key,
            self.reward_vault_key,
            program,
        )
    }
}

impl Position {
    /// The position before the first stake: no record, an empty stake
    /// vault, and the two balances as given.
    pub fn open(
        party: &Party,
        wallet: TokenAccount,
        reward_vault: TokenAccount,
    ) -> (position: Position)
        ensures
            position == (Position {
                record: None,
                vault: TokenAccount { mint: party.mint, owner: party.stake_info_key, amount: 0 },
                wallet,
                reward_vault,
            }),
            position.balanced(),
            position.sound(*party),
    {
        Position {
            record: None,
            vault: TokenAccount { mint: party.mint, owner: party.stake_info_key, amount: 0 },
            wallet,
            reward_vault,
        }
    }

    /// Stakes `amount` at `slot` on this position.
    pub fn stake(
        &mut self,
        party: &Party,
        program_id: &Identity,
        amount: u64,
        slot: u64,
    ) -> (outcome: Result<(), Failure>)
        ensures
            *final(self) == old(self).step(
                *party,
                party.bindings(*program_id),
                (Move::Stake { amount, slot }),
            ),
            outcome is Ok == old(self).accepts(
                *party,
                party.bindings(*program_id),
                (Move::Stake { amount, slot }),
            ),
            outcome matches Err(e) ==> old(self).stake_accounts(*party).failure(
                party.bindings(*program_id).stake_info,
                amount,
            ) == Some(e),
    {
        let mut ctx = Stake {
            staker: party.staker,
            mint: party.mint,
            stake_info_key: party.stake_info_key,
            stake_info: self.record,
            vault_token_account: Some(self.vault),
            staker_token_account: self.wallet,
        };
        let outcome = stake(&mut ctx, program_id, amount, slot);
        if outcome.is_ok() {
            self.record = ctx.stake_info;
            self.wallet = ctx.staker_token_account;
            if let Some(vault) = ctx.vault_token_account {
                self.vault = vault;
            }
        }
        outcome
    }

    /// Withdraws `amount` at `slot` from this position.
    pub fn unstake(
        &mut self,
        party: &Party,
        program_id: &Identity,
        amount: u64,
        slot: u64,
    ) -> (outcome: Result<UnstakeReceipt, Failure>)
        ensures
            *final(self) == old(self).step(
                *party,
                party.bindings(*program_id),
                (Move::Unstake { amount, slot }),
            ),
            old(self).unstake_accounts(*party).unstaked(
                party.bindings(*program_id),
                amount,
                slot,
                outcome,
                final(self).unstake_accounts(*party),
            ),
    {
        let mut ctx = Unstake {
            staker: party.staker,
            mint: party.mint,
            stake_info_key: party.stake_info_key,
            stake_info: self.record,
            vault_token_account: self.vault,
            reward_vault_key: party.reward_vault_key,
            reward_vault: self.reward_vault,
            staker_token_account: self.wallet,
        };
        let outcome = unstake(&mut ctx, program_id, amount, slot);
        if outcome.is_ok() {
            self.record = ctx.stake_info;
            self.vault = ctx.vault_token_account;
            self.wallet = ctx.staker_token_account;
            self.reward_vault = ctx.reward_vault;
        }
        outcome
    }
}

/// One request keeps the vault equal to the record, moves the vault by
/// exactly what was deposited or withdrawn, and keeps the record sound. A
/// record that a request leaves behind starts at the slot of the request.
pub proof fn lemma_step_conserves(
    position: Position,
    party: Party,
    bound: StakeBindings,
    request: Move,
)
    requires
        position.balanced(),
    ensures
        position.step(party, bound, request).balanced(),
        position.step(party, bound, request).vault.amount == position.vault.amount
            + position.deposit(party, bound, request),
        position.sound(party) ==> position.step(party, bound, request).sound(party),
        position.accepts(party, bound, request) ==> (position.step(
            party,
            bound,
            request,
        ).record matches Some(info) ==> info.stake_at == request.slot()),
{
}

/// Conservation: over any run of stakes and withdrawals, deposits minus
/// withdrawals is what the stake vault holds, which is what the record says
/// is staked, or zero where there is no record.
pub proof fn lemma_conservation(
    start: Position,
    party: Party,
    bound: StakeBindings,
    requests: Seq<Move>,
)
    requires
        start.balanced(),
    ensures
        start.run(party, bound, requests).balanced(),
        start.run(party, bound, requests).vault.amount == start.vault.amount
            + start.net_deposits(party, bound, requests),
        start.sound(party) ==> start.run(party, bound, requests).sound(party),
    decreases requests.len(),
{
    if requests.len() > 0 {
        lemma_conservation(start, party, bound, requests.drop_last());
        lemma_step_conserves(
            start.run(party, bound, requests.drop_last()),
            party,
            bound,
            requests.last(),
        );
    }
}

/// From a position without record and with an empty vault, the vault and
/// the record hold exactly the deposits minus the withdrawals.
pub proof fn lemma_conservation_from_nothing(
    start: Position,
    party: Party,
    bound: StakeBindings,
    requests: Seq<Move>,
)
    requires
        start.record is None,
        start.vault.amount == 0,
    ensures
        start.net_deposits(party, bound, requests) == start.run(
            party,
            bound,
            requests,
        ).vault.amount,
        start.net_deposits(party, bound, requests) == staked_amount(
            start.run(party, bound, requests).record,
        ),
{
    lemma_conservation(start, party, bound, requests);
}

} // verus!
