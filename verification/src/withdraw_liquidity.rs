//! Redeeming liquidity shares of a pool for a slice of its two reserves.

use vstd::prelude::*;
use crate::errors::{Failure, TokenError};
use crate::formulas::{lemma_share_bounds, lemma_share_within_reserve, share, share_of};
use crate::identity::Identity;
use crate::seeds::{
    binds, bump_of, found_binds, found_bump, is_derived, lemma_found_is_derived,
    mint_liquidity_address, mint_liquidity_seeds, pool_address, pool_authority_address,
    pool_authority_seeds, pool_seeds, ProgramAddress,
};
use crate::state::Pool;
use crate::token::{burn, transfer_signed_with, Mint, TokenAccount};

verus! {

/// The accounts that a withdrawal of liquidity touches.
#[derive(Clone, Copy, Debug, PartialEq, Eq)]
pub struct WithdrawLiquidity {
    /// Where the pool record lives.
    pub pool_key: Identity,
    /// The pool record.
    pub pool: Pool,
    /// The authority over the two reserves.
    pub pool_authority: Identity,
    /// The first mint, as presented.
    pub mint_a: Identity,
    /// The second mint, as presented.
    pub mint_b: Identity,
    /// Where the liquidity mint lives.
    pub mint_liquidity_key: Identity,
    /// The liquidity mint.
    pub mint_liquidity: Mint,
    /// The reserve of the first mint.
    pub pool_account_a: TokenAccount,
    /// The reserve of the second mint.
    pub pool_account_b: TokenAccount,
    /// The depositor's balance of the first mint.
    pub depositor_account_a: TokenAccount,
    /// The depositor's balance of the second mint.
    pub depositor_account_b: TokenAccount,
    /// The depositor's liquidity shares.
    pub depositor_account_liquidity: TokenAccount,
    /// Who withdraws.
    pub depositor: Identity,
}

/// What a withdrawal paid out, and the bump with which the pool authority
/// signs the two payments.
#[derive(Clone, Copy, Debug, PartialEq, Eq)]
pub struct WithdrawReceipt {
    /// Base units of the first mint paid to the depositor.
    pub amount_a: u64,
    /// Base units of the second mint paid to the depositor.
    pub amount_b: u64,
    /// The bump of the pool authority.
    pub authority_bump: u8,
}

/// Which derived accounts of a withdrawal sit at the identities that their
/// seeds derive.
#[derive(Clone, Copy, Debug, PartialEq, Eq)]
pub struct PoolBindings {
    pub pool: bool,
    pub authority: bool,
    pub mint_liquidity: bool,
}

impl WithdrawLiquidity {
    /// Whether the derived accounts are the pool's own: the pool sits where
    /// its seeds derive it, the mints presented are those of the pool, and
    /// the authority and the liquidity mint sit where the seeds made of
    /// these mints derive them.
    pub open spec fn canonical(self, bound: PoolBindings) -> bool {
        &&& bound.pool
        &&& self.pool.mint_a == self.mint_a
        &&& self.pool.mint_b == self.mint_b
        &&& bound.authority
        &&& bound.mint_liquidity
    }

    /// The first way in which the accounts do not fit together, if any. The
    /// derived accounts are looked at first, then the two reserves and the
    /// depositor's three balances.
    pub open spec fn misfit(self, bound: PoolBindings) -> Option<Failure> {
        if !self.canonical(bound) {
            Some(Failure::SeedMismatch)
        } else if let Some(e) = self.pool_account_a.misfit(self.pool_authority, self.mint_a) {
            Some(Failure::Token(e))
        } else if let Some(e) = self.pool_account_b.misfit(self.pool_authority, self.mint_b) {
            Some(Failure::Token(e))
        } else if let Some(e) = self.depositor_account_a.misfit(self.depositor, self.mint_a) {
            Some(Failure::Token(e))
        } else if let Some(e) = self.depositor_account_b.misfit(self.depositor, self.mint_b) {
            Some(Failure::Token(e))
        } else if let Some(e) = self.depositor_account_liquidity.misfit(
            self.depositor,
            self.mint_liquidity_key,
        ) {
            Some(Failure::Token(e))
        } else {
            None
        }
    }

    /// The slice of the first reserve that `amount` shares redeem.
    pub open spec fn out_a(self, amount: u64) -> nat {
        share_of(
            amount as nat,
            self.pool_account_a.amount as nat,
            self.mint_liquidity.supply as nat,
        )
    }

    /// The slice of the second reserve that `amount` shares redeem.
    pub open spec fn out_b(self, amount: u64) -> nat {
        share_of(
            amount as nat,
            self.pool_account_b.amount as nat,
            self.mint_liquidity.supply as nat,
        )
    }

    /// Why a withdrawal of `amount` shares fails, if it does. The accounts
    /// come first, then the arguments, then the two slices, then the two
    /// payments and the burn, each in this order.
    pub open spec fn failure(self, bound: PoolBindings, amount: u64) -> Option<Failure> {
        if let Some(e) = self.misfit(bound) {
            Some(e)
        } else if amount == 0 || self.mint_liquidity.supply == 0 {
            Some(Failure::InvalidArgument)
        } else if self.out_a(amount) > u64::MAX || self.out_b(amount) > u64::MAX {
            Some(Failure::Overflow)
        } else if self.out_a(amount) > self.pool_account_a.amount {
            Some(Failure::Token(TokenError::InsufficientFunds))
        } else if self.depositor_account_a.amount + self.out_a(amount) > u64::MAX {
            Some(Failure::Token(TokenError::Overflow))
        } else if self.out_b(amount) > self.pool_account_b.amount {
            Some(Failure::Token(TokenError::InsufficientFunds))
        } else if self.depositor_account_b.amount + self.out_b(amount) > u64::MAX {
            Some(Failure::Token(TokenError::Overflow))
        } else if self.depositor_account_liquidity.amount < amount {
            Some(Failure::Token(TokenError::InsufficientFunds))
        } else if self.mint_liquidity.supply < amount {
            Some(Failure::Token(TokenError::Overflow))
        } else {
            None
        }
    }

    /// The accounts after a withdrawal of `amount` shares that did not fail:
    /// each reserve is down by its slice, the depositor is up by it, and
    /// `amount` shares are gone from the depositor and from the supply.
    pub open spec fn after(self, amount: u64) -> WithdrawLiquidity {
        WithdrawLiquidity {
            mint_liquidity: Mint { supply: (self.mint_liquidity.supply - amount) as u64 },
            pool_account_a: self.pool_account_a.with_amount(
                (self.pool_account_a.amount - self.out_a(amount)) as u64,
            ),
            pool_account_b: self.pool_account_b.with_amount(
                (self.pool_account_b.amount - self.out_b(amount)) as u64,
            ),
            depositor_account_a: self.depositor_account_a.with_amount(
                (self.depositor_account_a.amount + self.out_a(amount)) as u64,
            ),
            depositor_account_b: self.depositor_account_b.with_amount(
                (self.depositor_account_b.amount + self.out_b(amount)) as u64,
            ),
            depositor_account_liquidity: self.depositor_account_liquidity.with_amount(
                (self.depositor_account_liquidity.amount - amount) as u64,
            ),
            ..self
        }
    }

    /// Whether `outcome` and `post` are what a withdrawal of `amount` shares
    /// from `self` comes to: the failure and nothing changed, or the receipt
    /// and the accounts after it.
    pub open spec fn withdrawn(
        self,
        bound: PoolBindings,
        authority_bump: u8,
        amount: u64,
        outcome: Result<WithdrawReceipt, Failure>,
        post: WithdrawLiquidity,
    ) -> bool {
        match self.failure(bound, amount) {
            Some(e) => outcome == Err::<WithdrawReceipt, Failure>(e) && post == self,
            None => outcome == Ok::<WithdrawReceipt, Failure>(
                WithdrawReceipt {
                    amount_a: self.out_a(amount) as u64,
                    amount_b: self.out_b(amount) as u64,
                    authority_bump,
                },
            ) && post == self.after(amount),
        }
    }

    /// Whether `receipt` and `post` are a proportional redemption of
    /// `amount` shares from `self`: each reserve is down by exactly the
    /// slice paid, which is `amount * reserve / supply` rounded down and so
    /// never more than the shares' proportion of the reserve, and `amount`
    /// shares are gone from the supply.
    pub open spec fn redeemed(
        self,
        amount: u64,
        receipt: WithdrawReceipt,
        post: WithdrawLiquidity,
    ) -> bool {
        &&& self.mint_liquidity.supply > 0
        &&& receipt.amount_a == self.out_a(amount)
        &&& receipt.amount_b == self.out_b(amount)
        &&& post.pool_account_a.amount == self.pool_account_a.amount - receipt.amount_a
        &&& post.pool_account_b.amount == self.pool_account_b.amount - receipt.amount_b
        &&& post.depositor_account_a.amount == self.depositor_account_a.amount + receipt.amount_a
        &&& post.depositor_account_b.amount == self.depositor_account_b.amount + receipt.amount_b
        &&& post.mint_liquidity.supply == self.mint_liquidity.supply - amount
        &&& post.depositor_account_liquidity.amount == self.depositor_account_liquidity.amount
            - amount
        &&& receipt.amount_a * self.mint_liquidity.supply <= amount * self.pool_account_a.amount
        &&& receipt.amount_b * self.mint_liquidity.supply <= amount * self.pool_account_b.amount
        &&& amount * self.pool_account_a.amount < (receipt.amount_a + 1)
            * self.mint_liquidity.supply
        &&& amount * self.pool_account_b.amount < (receipt.amount_b + 1)
            * self.mint_liquidity.supply
    }

    fn check_accounts(&self, bound: &PoolBindings) -> (r: Result<(), Failure>)
        ensures
            r == match self.misfit(*bound) {
                Some(e) => Err::<(), Failure>(e),
                None => Ok(()),
            },
    {
        if !bound.pool || self.pool.mint_a != self.mint_a || self.pool.mint_b != self.mint_b
            || !bound.authority || !bound.mint_liquidity {
            return Err(Failure::SeedMismatch);
        }
        if let Err(e) = self.pool_account_a.check(&self.pool_authority, &self.mint_a) {
            return Err(Failure::Token(e));
        }
        if let Err(e) = self.pool_account_b.check(&self.pool_authority, &self.mint_b) {
            return Err(Failure::Token(e));
        }
        if let Err(e) = self.depositor_account_a.check(&self.depositor, &self.mint_a) {
            return Err(Failure::Token(e));
        }
        if let Err(e) = self.depositor_account_b.check(&self.depositor, &self.mint_b) {
            return Err(Failure::Token(e));
        }
        if let Err(e) = self.depositor_account_liquidity.check(
            &self.depositor,
            &self.mint_liquidity_key,
        ) {
            return Err(Failure::Token(e));
        }
        Ok(())
    }
}

/// A withdrawal that goes through is a proportional redemption, and one
/// that fails changes nothing.
pub proof fn lemma_withdrawal_is_proportional(
    pre: WithdrawLiquidity,
    bound: PoolBindings,
    authority_bump: u8,
    amount: u64,
    outcome: Result<WithdrawReceipt, Failure>,
    post: WithdrawLiquidity,
)
    requires
        pre.withdrawn(bound, authority_bump, amount, outcome, post),
    ensures
        outcome matches Ok(receipt) ==> pre.redeemed(amount, receipt, post),
        outcome is Err ==> post == pre,
        post.pool == pre.pool,
        pre.pool.distinct() ==> post.pool.distinct(),
{
    if outcome is Ok {
        lemma_share_bounds(
            amount as nat,
            pre.pool_account_a.amount as nat,
            pre.mint_liquidity.supply as nat,
        );
        lemma_share_bounds(
            amount as nat,
            pre.pool_account_b.amount as nat,
            pre.mint_liquidity.supply as nat,
        );
    }
}

/// Shares within the supply redeem slices within the reserves: such a
/// withdrawal never fails for a slice that leaves 64 bits, nor for a reserve
/// that is short.
pub proof fn lemma_within_supply_is_within_reserves(pre: WithdrawLiquidity, amount: u64)
    requires
        0 < amount <= pre.mint_liquidity.supply,
    ensures
        pre.out_a(amount) <= pre.pool_account_a.amount,
        pre.out_b(amount) <= pre.pool_account_b.amount,
        forall|bound: PoolBindings|
            pre.failure(bound, amount) != Some(Failure::Overflow) && (pre.failure(bound, amount)
                == Some(Failure::Token(TokenError::InsufficientFunds))
                ==> pre.depositor_account_liquidity.amount < amount),
{
    lemma_share_within_reserve(
        amount as nat,
        pre.pool_account_a.amount as nat,
        pre.mint_liquidity.supply as nat,
    );
    lemma_share_within_reserve(
        amount as nat,
        pre.pool_account_b.amount as nat,
        pre.mint_liquidity.supply as nat,
    );
}

/// A withdrawal that presents a pool, an authority or a liquidity mint at
/// an identity that its seeds do not derive, or mints that are not the
/// pool's, fails and changes nothing.
pub proof fn lemma_withdrawal_is_seed_bound(
    pre: WithdrawLiquidity,
    bound: PoolBindings,
    authority_bump: u8,
    amount: u64,
    outcome: Result<WithdrawReceipt, Failure>,
    post: WithdrawLiquidity,
)
    requires
        pre.withdrawn(bound, authority_bump, amount, outcome, post),
        !pre.canonical(bound),
    ensures
        outcome == Err::<WithdrawReceipt, Failure>(Failure::SeedMismatch),
        post == pre,
{
}

/// Withdraws `amount` liquidity shares, given what the seeds of the pool, of
/// its authority and of its liquidity mint derive.
pub fn withdraw_liquidity_with(
    ctx: &mut WithdrawLiquidity,
    pool: &Option<ProgramAddress>,
    authority: &Option<ProgramAddress>,
    mint_liquidity: &Option<ProgramAddress>,
    amount: u64,
) -> (outcome: Result<WithdrawReceipt, Failure>)
    ensures
        old(ctx).withdrawn(
            (PoolBindings {
                pool: binds(*pool, old(ctx).pool_key),
                authority: binds(*authority, old(ctx).pool_authority),
                mint_liquidity: binds(*mint_liquidity, old(ctx).mint_liquidity_key),
            }),
            found_bump(*authority),
            amount,
            outcome,
            *final(ctx),
        ),
        outcome matches Ok(receipt) ==> old(ctx).redeemed(amount, receipt, *final(ctx)),
        outcome is Err ==> *final(ctx) == *old(ctx),
        !(binds(*pool, old(ctx).pool_key) && binds(*authority, old(ctx).pool_authority) && binds(
            *mint_liquidity,
            old(ctx).mint_liquidity_key,
        )) ==> outcome is Err,
{
    proof {
        if ctx.mint_liquidity.supply > 0 {
            lemma_share_bounds(
                amount as nat,
                ctx.pool_account_a.amount as nat,
                ctx.mint_liquidity.supply as nat,
            );
            lemma_share_bounds(
                amount as nat,
                ctx.pool_account_b.amount as nat,
                ctx.mint_liquidity.supply as nat,
            );
        }
    }
    let bound = PoolBindings {
        pool: found_binds(pool, &ctx.pool_key),
        authority: found_binds(authority, &ctx.pool_authority),
        mint_liquidity: found_binds(mint_liquidity, &ctx.mint_liquidity_key),
    };
    if let Err(e) = ctx.check_accounts(&bound) {
        return Err(e);
    }
    let supply = ctx.mint_liquidity.supply;
    if amount == 0 || supply == 0 {
        return Err(Failure::InvalidArgument);
    }
    let amount_a = match share(amount, ctx.pool_account_a.amount, supply) {
        Some(out) => out,
        None => { return Err(Failure::Overflow); },
    };
    let amount_b = match share(amount, ctx.pool_account_b.amount, supply) {
        Some(out) => out,
        None => { return Err(Failure::Overflow); },
    };
    let mut pool_a = ctx.pool_account_a;
    let mut pool_b = ctx.pool_account_b;
    let mut depositor_a = ctx.depositor_account_a;
    let mut depositor_b = ctx.depositor_account_b;
    let mut shares = ctx.depositor_account_liquidity;
    let mut mint = ctx.mint_liquidity;
    if let Err(e) = transfer_signed_with(&mut pool_a, &mut depositor_a, authority, amount_a) {
        return Err(Failure::Token(e));
    }
    if let Err(e) = transfer_signed_with(&mut pool_b, &mut depositor_b, authority, amount_b) {
        return Err(Failure::Token(e));
    }
    if let Err(e) = burn(&mut mint, &mut shares, &ctx.depositor, amount) {
        return Err(Failure::Token(e));
    }
    ctx.pool_account_a = pool_a;
    ctx.pool_account_b = pool_b;
    ctx.depositor_account_a = depositor_a;
    ctx.depositor_account_b = depositor_b;
    ctx.depositor_account_liquidity = shares;
    ctx.mint_liquidity = mint;
    let authority_bump = match authority {
        Some(pa) => pa.bump,
        None => 0,
    };
    Ok(WithdrawReceipt { amount_a, amount_b, authority_bump })
}

/// Which derived accounts of `ctx` sit where their seeds derive them under
/// `program`.
pub open spec fn pool_bindings(ctx: WithdrawLiquidity, program: Identity) -> PoolBindings {
    PoolBindings {
        pool: is_derived(
            ctx.pool_key,
            pool_seeds(ctx.pool.amm, ctx.pool.mint_a, ctx.pool.mint_b),
            program,
        ),
        authority: is_derived(
            ctx.pool_authority,
            pool_authority_seeds(ctx.pool.amm, ctx.mint_a, ctx.mint_b),
            program,
        ),
        mint_liquidity: is_derived(
            ctx.mint_liquidity_key,
            mint_liquidity_seeds(ctx.pool.amm, ctx.mint_a, ctx.mint_b),
            program,
        ),
    }
}

/// Withdraws `amount` liquidity shares from the pool of the program
/// `program_id`: pays the depositor the proportional slice of each reserve
/// and burns the shares, or fails and changes nothing.
pub fn withdraw_liquidity(
    ctx: &mut WithdrawLiquidity,
    program_id: &Identity,
    amount: u64,
) -> (outcome: Result<WithdrawReceipt, Failure>)
    ensures
        old(ctx).withdrawn(
            pool_bindings(*old(ctx), *program_id),
            bump_of(
                pool_authority_seeds(old(ctx).pool.amm, old(ctx).mint_a, old(ctx).mint_b),
                *program_id,
            ),
            amount,
            outcome,
            *final(ctx),
        ),
        outcome matches Ok(receipt) ==> old(ctx).redeemed(amount, receipt, *final(ctx)),
        outcome is Err ==> *final(ctx) == *old(ctx),
        !old(ctx).canonical(pool_bindings(*old(ctx), *program_id)) ==> outcome is Err,
{
    let pool = pool_address(&ctx.pool.amm, &ctx.pool.mint_a, &ctx.pool.mint_b, program_id);
    let authority = pool_authority_address(&ctx.pool.amm, &ctx.mint_a, &ctx.mint_b, program_id);
    let mint_liquidity = mint_liquidity_address(
        &ctx.pool.amm,
        &ctx.mint_a,
        &ctx.mint_b,
        program_id,
    );
    proof {
        lemma_found_is_derived(
            pool_seeds(ctx.pool.amm, ctx.pool.mint_a, ctx.pool.mint_b),
            *program_id,
            pool,
            ctx.pool_key,
        );
        lemma_found_is_derived(
            pool_authority_seeds(ctx.pool.amm, ctx.mint_a, ctx.mint_b),
            *program_id,
            authority,
            ctx.pool_authority,
        );
        lemma_found_is_derived(
            mint_liquidity_seeds(ctx.pool.amm, ctx.mint_a, ctx.mint_b),
            *program_id,
            mint_liquidity,
            ctx.mint_liquidity_key,
        );
    }
    withdraw_liquidity_with(ctx, &pool, &authority, &mint_liquidity, amount)
}

} // verus!
