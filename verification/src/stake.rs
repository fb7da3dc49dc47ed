//! Depositing tokens into a stake.

use vstd::prelude::*;
use crate::errors::{AppError, Failure, TokenError};
use crate::identity::Identity;
use crate::seeds::{
    binds, found_binds, is_derived, lemma_found_is_derived, stake_info_address, stake_info_seeds,
    ProgramAddress,
};
use crate::state::{staked_amount, StakeInfo};
use crate::token::{transfer, TokenAccount};

verus! {

/// The accounts that a stake touches.
#[derive(Clone, Copy, Debug, PartialEq, Eq)]
pub struct Stake {
    /// Who stakes.
    pub staker: Identity,
    /// The mint of the staked token.
    pub mint: Identity,
    /// Where the stake record lives.
    pub stake_info_key: Identity,
    /// The stake record, or `None` while there is none.
    pub stake_info: Option<StakeInfo>,
    /// The vault that holds the principal, or `None` while there is none.
    pub vault_token_account: Option<TokenAccount>,
    /// The staker's own balance.
    pub staker_token_account: TokenAccount,
}

impl Stake {
    /// The vault as it is created on the first stake: empty, of the mint,
    /// and under the authority of the stake record.
    pub open spec fn fresh_vault(self) -> TokenAccount {
        TokenAccount { mint: self.mint, owner: self.stake_info_key, amount: 0 }
    }

    /// The vault that the stake pays into: the one that exists, or a fresh
    /// one.
    pub open spec fn vault(self) -> TokenAccount {
        match self.vault_token_account {
            Some(vault) => vault,
            None => self.fresh_vault(),
        }
    }

    /// The first way in which the accounts do not fit together, if any. The
    /// record is looked at first, then the vault, then the staker's balance.
    pub open spec fn misfit(self, bound: bool) -> Option<Failure> {
        if !bound {
            Some(Failure::SeedMismatch)
        } else if self.vault().mint != self.mint {
            Some(Failure::Token(TokenError::MintMismatch))
        } else if self.vault().owner != self.stake_info_key {
            Some(Failure::Token(TokenError::OwnerMismatch))
        } else if let Some(e) = self.staker_token_account.misfit(self.staker, self.mint) {
            Some(Failure::Token(e))
        } else {
            None
        }
    }

    /// Why a stake of `amount` fails, if it does. The accounts come first,
    /// then the amount, then the new total, then the payment into the vault.
    pub open spec fn failure(self, bound: bool, amount: u64) -> Option<Failure> {
        if let Some(e) = self.misfit(bound) {
            Some(e)
        } else if amount == 0 {
            Some(Failure::App(AppError::NoToken))
        } else if staked_amount(self.stake_info) + amount > u64::MAX {
            Some(Failure::Overflow)
        } else if self.staker_token_account.amount < amount {
            Some(Failure::Token(TokenError::InsufficientFunds))
        } else if self.vault().amount + amount > u64::MAX {
            Some(Failure::Token(TokenError::Overflow))
        } else {
            None
        }
    }

    /// The accounts after a stake of `amount` at `slot` that did not fail:
    /// the record names the staker and the mint, starts at `slot` and holds
    /// `amount` more; the vault holds `amount` more and the staker as much
    /// less.
    pub open spec fn after(self, amount: u64, slot: u64) -> Stake {
        Stake {
            stake_info: Some(
                StakeInfo {
                    staker: self.staker,
                    mint: self.mint,
                    stake_at: slot,
                    is_staked: true,
                    amount: (staked_amount(self.stake_info) + amount) as u64,
                },
            ),
            vault_token_account: Some(
                self.vault().with_amount((self.vault().amount + amount) as u64),
            ),
            staker_token_account: self.staker_token_account.with_amount(
                (self.staker_token_account.amount - amount) as u64,
            ),
            ..self
        }
    }

    /// Whether `outcome` and `post` are what a stake of `amount` at `slot`
    /// on `self` comes to: the failure and nothing changed, or success and
    /// the accounts after it.
    pub open spec fn staked(
        self,
        bound: bool,
        amount: u64,
        slot: u64,
        outcome: Result<(), Failure>,
        post: Stake,
    ) -> bool {
        match self.failure(bound, amount) {
            Some(e) => outcome == Err::<(), Failure>(e) && post == self,
            None => outcome == Ok::<(), Failure>(()) && post == self.after(amount, slot),
        }
    }
}

/// A stake that presents a record at an identity that its seeds do not
/// derive fails and changes nothing; so does any stake that fails.
pub proof fn lemma_stake_is_seed_bound(
    pre: Stake,
    bound: bool,
    amount: u64,
    slot: u64,
    outcome: Result<(), Failure>,
    post: Stake,
)
    requires
        pre.staked(bound, amount, slot, outcome, post),
    ensures
        !bound ==> outcome == Err::<(), Failure>(Failure::SeedMismatch),
        outcome is Err ==> post == pre,
{
}

/// Stakes `amount` at `slot`, given what the seeds of the stake record
/// derive.
pub fn stake_with(
    ctx: &mut Stake,
    stake_info: &Option<ProgramAddress>,
    amount: u64,
    slot: u64,
) -> (outcome: Result<(), Failure>)
    ensures
        old(ctx).staked(
            binds(*stake_info, old(ctx).stake_info_key),
            amount,
            slot,
            outcome,
            *final(ctx),
        ),
        !binds(*stake_info, old(ctx).stake_info_key) ==> outcome is Err,
        outcome is Err ==> *final(ctx) == *old(ctx),
{
    if !found_binds(stake_info, &ctx.stake_info_key) {
        return Err(Failure::SeedMismatch);
    }
    let mut vault = match ctx.vault_token_account {
        Some(vault) => vault,
        None => TokenAccount { mint: ctx.mint, owner: ctx.stake_info_key, amount: 0 },
    };
    if vault.mint != ctx.mint {
        return Err(Failure::Token(TokenError::MintMismatch));
    }
    if vault.owner != ctx.stake_info_key {
        return Err(Failure::Token(TokenError::OwnerMismatch));
    }
    if let Err(e) = ctx.staker_token_account.check(&ctx.staker, &ctx.mint) {
        return Err(Failure::Token(e));
    }
    if amount == 0 {
        return Err(Failure::App(AppError::NoToken));
    }
    let mut record = match ctx.stake_info {
        Some(info) => info,
        None => StakeInfo::empty(),
    };
    record.staker = ctx.staker;
    record.mint = ctx.mint;
    record.stake_at = slot;
    record.is_staked = true;
    record.amount = match record.amount.checked_add(amount) {
        Some(total) => total,
        None => { return Err(Failure::Overflow); },
    };
    let mut wallet = ctx.staker_token_account;
    if let Err(e) = transfer(&mut wallet, &mut vault, &ctx.staker, amount) {
        return Err(Failure::Token(e));
    }
    ctx.stake_info = Some(record);
    ctx.vault_token_account = Some(vault);
    ctx.staker_token_account = wallet;
    Ok(())
}

/// Stakes `amount` of the staker's tokens at `slot` under the program
/// `program_id`. A stake on top of an existing one restarts the clock for
/// the whole balance: what the earlier principal had accrued is forfeited.
pub fn stake(
    ctx: &mut Stake,
    program_id: &Identity,
    amount: u64,
    slot: u64,
) -> (outcome: Result<(), Failure>)
    ensures
        old(ctx).staked(
            is_derived(
                old(ctx).stake_info_key,
                stake_info_seeds(old(ctx).staker, old(ctx).mint),
                *program_id,
            ),
            amount,
            slot,
            outcome,
            *final(ctx),
        ),
        !is_derived(
            old(ctx).stake_info_key,
            stake_info_seeds(old(ctx).staker, old(ctx).mint),
            *program_id,
        ) ==> outcome is Err,
        outcome is Err ==> *final(ctx) == *old(ctx),
{
    let stake_info = stake_info_address(&ctx.staker, &ctx.mint, program_id);
    proof {
        lemma_found_is_derived(
            stake_info_seeds(ctx.staker, ctx.mint),
            *program_id,
            stake_info,
            ctx.stake_info_key,
        );
    }
    stake_with(ctx, &stake_info, amount, slot)
}

} // verus!
