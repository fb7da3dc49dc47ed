//! Withdrawing staked tokens together with the reward they earned.

use vstd::prelude::*;
use crate::errors::{AppError, Failure, TokenError};
use crate::formulas::{reward, reward_of};
use crate::identity::Identity;
use crate::seeds::{
    binds, bump_of, found_binds, found_bump, is_derived, lemma_found_is_derived,
    reward_vault_address, reward_vault_seeds, stake_info_address, stake_info_seeds,
    ProgramAddress,
};
use crate::state::{staked_amount, StakeInfo};
use crate::token::{transfer_signed_with, TokenAccount};

verus! {

/// The accounts that a withdrawal from a stake touches.
#[derive(Clone, Copy, Debug, PartialEq, Eq)]
pub struct Unstake {
    /// Who withdraws.
    pub staker: Identity,
    /// The mint of the staked token.
    pub mint: Identity,
    /// Where the stake record lives.
    pub stake_info_key: Identity,
    /// The stake record, or `None` where there is none.
    pub stake_info: Option<StakeInfo>,
    /// The vault that holds the principal.
    pub vault_token_account: TokenAccount,
    /// Where the reward vault lives.
    pub reward_vault_key: Identity,
    /// The vault that rewards are paid from.
    pub reward_vault: TokenAccount,
    /// The staker's own balance.
    pub staker_token_account: TokenAccount,
}

/// What a withdrawal paid out, whether it closed the record, and the bumps
/// with which the two vault authorities sign the payments.
#[derive(Clone, Copy, Debug, PartialEq, Eq)]
pub struct UnstakeReceipt {
    /// The reward paid from the reward vault.
    pub reward: u64,
    /// The principal paid from the stake vault.
    pub principal: u64,
    /// Whether the record was drained and closed; its storage deposit then
    /// goes back to the staker.
    pub closed: bool,
    /// The bump of the reward vault.
    pub reward_vault_bump: u8,
    /// The bump of the stake record.
    pub stake_info_bump: u8,
}

/// Which derived accounts of a withdrawal sit at the identities that their
/// seeds derive, and with which bumps.
#[derive(Clone, Copy, Debug, PartialEq, Eq)]
pub struct StakeBindings {
    pub stake_info: bool,
    pub stake_info_bump: u8,
    pub reward_vault: bool,
    pub reward_vault_bump: u8,
}

impl Unstake {
    /// The first way in which the accounts do not fit together, if any. The
    /// record is looked at first, then the stake vault, the reward vault and
    /// the staker's balance.
    pub open spec fn misfit(self, bound: StakeBindings) -> Option<Failure> {
        if !bound.stake_info {
            Some(Failure::SeedMismatch)
        } else if self.stake_info matches Some(info) && info.staker != self.staker {
            Some(Failure::App(AppError::InvalidStaker))
        } else if self.stake_info matches Some(info) && info.mint != self.mint {
            Some(Failure::App(AppError::InvalidMint))
        } else if let Some(e) = self.vault_token_account.misfit(self.stake_info_key, self.mint) {
            Some(Failure::Token(e))
        } else if !bound.reward_vault {
            Some(Failure::SeedMismatch)
        } else if let Some(e) = self.reward_vault.misfit(self.reward_vault_key, self.mint) {
            Some(Failure::Token(e))
        } else if let Some(e) = self.staker_token_account.misfit(self.staker, self.mint) {
            Some(Failure::Token(e))
        } else {
            None
        }
    }

    /// The slot at which the record last started; zero where there is none.
    pub open spec fn stake_at(self) -> u64 {
        match self.stake_info {
            Some(info) => info.stake_at,
            None => 0,
        }
    }

    /// The reward on `amount` withdrawn at `slot`.
    pub open spec fn reward(self, amount: u64, slot: u64) -> nat {
        reward_of(amount as nat, (slot - self.stake_at()) as nat)
    }

    /// Why a withdrawal of `amount` at `slot` fails, if it does. The
    /// accounts come first, then the amount, then the elapsed slots and the
    /// reward, then the payment of the reward and that of the principal.
    pub open spec fn failure(
        self,
        bound: StakeBindings,
        amount: u64,
        slot: u64,
    ) -> Option<Failure> {
        if let Some(e) = self.misfit(bound) {
            Some(e)
        } else if amount == 0 || amount > staked_amount(self.stake_info) {
            Some(Failure::App(AppError::NoToken))
        } else if slot < self.stake_at() || amount * (slot - self.stake_at()) > u64::MAX {
            Some(Failure::Overflow)
        } else if self.reward_vault.amount < self.reward(amount, slot) {
            Some(Failure::Token(TokenError::InsufficientFunds))
        } else if self.staker_token_account.amount + self.reward(amount, slot) > u64::MAX {
            Some(Failure::Token(TokenError::Overflow))
        } else if self.vault_token_account.amount < amount {
            Some(Failure::Token(TokenError::InsufficientFunds))
        } else if self.staker_token_account.amount + self.reward(amount, slot) + amount
            > u64::MAX {
            Some(Failure::Token(TokenError::Overflow))
        } else {
            None
        }
    }

    /// The record after a withdrawal of `amount` at `slot`: gone where the
    /// whole amount was withdrawn, else holding the rest and starting anew
    /// at `slot`.
    pub open spec fn record_after(self, amount: u64, slot: u64) -> Option<StakeInfo> {
        match self.stake_info {
            Some(info) => if info.amount == amount {
                None
            } else {
                Some(
                    StakeInfo {
                        amount: (info.amount - amount) as u64,
                        stake_at: slot,
                        ..info
                    },
                )
            },
            None => None,
        }
    }

    /// The accounts after a withdrawal of `amount` at `slot` that did not
    /// fail: the reward vault is down by the reward, the stake vault by the
    /// principal, and the staker is up by both.
    pub open spec fn after(self, amount: u64, slot: u64) -> Unstake {
        Unstake {
            stake_info: self.record_after(amount, slot),
            vault_token_account: self.vault_token_account.with_amount(
                (self.vault_token_account.amount - amount) as u64,
            ),
            reward_vault: self.reward_vault.with_amount(
                (self.reward_vault.amount - self.reward(amount, slot)) as u64,
            ),
            staker_token_account: self.staker_token_account.with_amount(
                (self.staker_token_account.amount + self.reward(amount, slot) + amount) as u64,
            ),
            ..self
        }
    }

    /// The receipt of a withdrawal of `amount` at `slot` that did not fail.
    pub open spec fn receipt(self, bound: StakeBindings, amount: u64, slot: u64) -> UnstakeReceipt {
        UnstakeReceipt {
            reward: self.reward(amount, slot) as u64,
            principal: amount,
            closed: staked_amount(self.stake_info) == amount,
            reward_vault_bump: bound.reward_vault_bump,
            stake_info_bump: bound.stake_info_bump,
        }
    }

    /// Whether `outcome` and `post` are what a withdrawal of `amount` at
    /// `slot` from `self` comes to: the failure and nothing changed, or the
    /// receipt and the accounts after it.
    pub open spec fn unstaked(
        self,
        bound: StakeBindings,
        amount: u64,
        slot: u64,
        outcome: Result<UnstakeReceipt, Failure>,
        post: Unstake,
    ) -> bool {
        match self.failure(bound, amount, slot) {
            Some(e) => outcome == Err::<UnstakeReceipt, Failure>(e) && post == self,
            None => outcome == Ok::<UnstakeReceipt, Failure>(self.receipt(bound, amount, slot))
                && post == self.after(amount, slot),
        }
    }

    fn check_accounts(&self, bound: &StakeBindings) -> (r: Result<(), Failure>)
        ensures
            r == match self.misfit(*bound) {
                Some(e) => Err::<(), Failure>(e),
                None => Ok(()),
            },
    {
        if !bound.stake_info {
            return Err(Failure::SeedMismatch);
        }
        if let Some(info) = self.stake_info {
            if info.staker != self.staker {
                return Err(Failure::App(AppError::InvalidStaker));
            }
            if info.mint != self.mint {
                return Err(Failure::App(AppError::InvalidMint));
            }
        }
        if let Err(e) = self.vault_token_account.check(&self.stake_info_key, &self.mint) {
            return Err(Failure::Token(e));
        }
        if !bound.reward_vault {
            return Err(Failure::SeedMismatch);
        }
        if let Err(e) = self.reward_vault.check(&self.reward_vault_key, &self.mint) {
            return Err(Failure::Token(e));
        }
        if let Err(e) = self.staker_token_account.check(&self.staker, &self.mint) {
            return Err(Failure::Token(e));
        }
        Ok(())
    }
}

/// What two derivations found, held against the keys of `ctx`.
pub open spec fn found_bindings(
    ctx: Unstake,
    stake_info: Option<ProgramAddress>,
    reward_vault: Option<ProgramAddress>,
) -> StakeBindings {
    StakeBindings {
        stake_info: binds(stake_info, ctx.stake_info_key),
        stake_info_bump: found_bump(stake_info),
        reward_vault: binds(reward_vault, ctx.reward_vault_key),
        reward_vault_bump: found_bump(reward_vault),
    }
}

/// What the seeds of the stake record of `staker` on `mint` and of the
/// reward vault of `mint` derive under `program`, held against the two keys.
pub open spec fn derived_bindings(
    staker: Identity,
    mint: Identity,
    stake_info_key: Identity,
    reward_vault_key: Identity,
    program: Identity,
) -> StakeBindings {
    StakeBindings {
        stake_info: is_derived(stake_info_key, stake_info_seeds(staker, mint), program),
        stake_info_bump: bump_of(stake_info_seeds(staker, mint), program),
        reward_vault: is_derived(reward_vault_key, reward_vault_seeds(mint), program),
        reward_vault_bump: bump_of(reward_vault_seeds(mint), program),
    }
}

/// What the seeds of the two derived accounts of `ctx` derive under
/// `program`, held against the keys of `ctx`.
pub open spec fn stake_bindings(ctx: Unstake, program: Identity) -> StakeBindings {
    derived_bindings(ctx.staker, ctx.mint, ctx.stake_info_key, ctx.reward_vault_key, program)
}

/// A withdrawal that presents a record or a reward vault at an identity
/// that its seeds do not derive fails and changes nothing; so does one of
/// more than is staked; and one that goes through pays exactly the reward
/// of the formula.
pub proof fn lemma_unstake_is_guarded(
    pre: Unstake,
    bound: StakeBindings,
    amount: u64,
    slot: u64,
    outcome: Result<UnstakeReceipt, Failure>,
    post: Unstake,
)
    requires
        pre.unstaked(bound, amount, slot, outcome, post),
    ensures
        !bound.stake_info || !bound.reward_vault ==> outcome is Err,
        amount > staked_amount(pre.stake_info) ==> outcome is Err,
        outcome is Err ==> post == pre,
        outcome matches Ok(receipt) ==> receipt.reward == reward_of(
            amount as nat,
            (slot - pre.stake_at()) as nat,
        ) && receipt.principal == amount,
{
}

/// Withdraws `amount` at `slot`, given what the seeds of the stake record
/// and of the reward vault derive.
pub fn unstake_with(
    ctx: &mut Unstake,
    stake_info: &Option<ProgramAddress>,
    reward_vault: &Option<ProgramAddress>,
    amount: u64,
    slot: u64,
) -> (outcome: Result<UnstakeReceipt, Failure>)
    ensures
        old(ctx).unstaked(
            found_bindings(*old(ctx), *stake_info, *reward_vault),
            amount,
            slot,
            outcome,
            *final(ctx),
        ),
        !binds(*stake_info, old(ctx).stake_info_key) || !binds(
            *reward_vault,
            old(ctx).reward_vault_key,
        ) ==> outcome is Err,
        amount > staked_amount(old(ctx).stake_info) ==> outcome is Err,
        outcome is Err ==> *final(ctx) == *old(ctx),
        outcome matches Ok(receipt) ==> receipt.reward == reward_of(
            amount as nat,
            (slot - old(ctx).stake_at()) as nat,
        ),
{
    let bound = StakeBindings {
        stake_info: found_binds(stake_info, &ctx.stake_info_key),
        stake_info_bump: match stake_info {
            Some(pa) => pa.bump,
            None => 0,
        },
        reward_vault: found_binds(reward_vault, &ctx.reward_vault_key),
        reward_vault_bump: match reward_vault {
            Some(pa) => pa.bump,
            None => 0,
        },
    };
    if let Err(e) = ctx.check_accounts(&bound) {
        return Err(e);
    }
    let info = match ctx.stake_info {
        Some(info) => info,
        None => { return Err(Failure::App(AppError::NoToken)); },
    };
    if amount == 0 || amount > info.amount {
        return Err(Failure::App(AppError::NoToken));
    }
    let elapsed = match slot.checked_sub(info.stake_at) {
        Some(elapsed) => elapsed,
        None => { return Err(Failure::Overflow); },
    };
    let paid = match reward(amount, elapsed) {
        Some(paid) => paid,
        None => { return Err(Failure::Overflow); },
    };
    let mut rewards = ctx.reward_vault;
    let mut vault = ctx.vault_token_account;
    let mut wallet = ctx.staker_token_account;
    if let Err(e) = transfer_signed_with(&mut rewards, &mut wallet, reward_vault, paid) {
        return Err(Failure::Token(e));
    }
    if let Err(e) = transfer_signed_with(&mut vault, &mut wallet, stake_info, amount) {
        return Err(Failure::Token(e));
    }
    let closed = info.amount == amount;
    if closed {
        ctx.stake_info = None;
    } else {
        ctx.stake_info = Some(
            StakeInfo {
                staker: info.staker,
                mint: info.mint,
                stake_at: slot,
                is_staked: info.is_staked,
                amount: info.amount - amount,
            },
        );
    }
    ctx.reward_vault = rewards;
    ctx.vault_token_account = vault;
    ctx.staker_token_account = wallet;
    Ok(
        UnstakeReceipt {
            reward: paid,
            principal: amount,
            closed,
            reward_vault_bump: bound.reward_vault_bump,
            stake_info_bump: bound.stake_info_bump,
        },
    )
}

/// Withdraws `amount` of the staked tokens at `slot` under the program
/// `program_id`, together with the reward of one hundredth of `amount` per
/// slot since the record last started. Draining the record closes it; a
/// partial withdrawal restarts it at `slot`.
pub fn unstake(
    ctx: &mut Unstake,
    program_id: &Identity,
    amount: u64,
    slot: u64,
) -> (outcome: Result<UnstakeReceipt, Failure>)
    ensures
        old(ctx).unstaked(
            stake_bindings(*old(ctx), *program_id),
            amount,
            slot,
            outcome,
            *final(ctx),
        ),
        !stake_bindings(*old(ctx), *program_id).stake_info || !stake_bindings(
            *old(ctx),
            *program_id,
        ).reward_vault ==> outcome is Err,
        amount > staked_amount(old(ctx).stake_info) ==> outcome is Err,
        outcome is Err ==> *final(ctx) == *old(ctx),
        outcome matches Ok(receipt) ==> receipt.reward == reward_of(
            amount as nat,
            (slot - old(ctx).stake_at()) as nat,
        ),
{
    let stake_info = stake_info_address(&ctx.staker, &ctx.mint, program_id);
    let reward_vault = reward_vault_address(&ctx.mint, program_id);
    proof {
        lemma_found_is_derived(
            stake_info_seeds(ctx.staker, ctx.mint),
            *program_id,
            stake_info,
            ctx.stake_info_key,
        );
        lemma_found_is_derived(
            reward_vault_seeds(ctx.mint),
            *program_id,
            reward_vault,
            ctx.reward_vault_key,
        );
    }
    unstake_with(ctx, &stake_info, &reward_vault, amount, slot)
}

} // verus!
