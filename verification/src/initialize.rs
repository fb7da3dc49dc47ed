//! Creating the reward vault of a mint.

use vstd::prelude::*;
use crate::errors::{Failure, TokenError};
use crate::identity::Identity;
use crate::seeds::{
    binds, found_binds, is_derived, lemma_found_is_derived, reward_vault_address,
    reward_vault_seeds, ProgramAddress,
};
use crate::token::TokenAccount;

verus! {

/// The accounts that creating a reward vault touches.
#[derive(Clone, Copy, Debug, PartialEq, Eq)]
pub struct Initialize {
    /// Who pays for the vault.
    pub admin: Identity,
    /// The mint that rewards are paid in.
    pub mint: Identity,
    /// Where the reward vault lives.
    pub reward_vault_key: Identity,
    /// The reward vault, or `None` while it does not exist.
    pub reward_vault: Option<TokenAccount>,
}

impl Initialize {
    /// The vault as it is created: empty, of the mint, and its own authority.
    pub open spec fn fresh_vault(self) -> TokenAccount {
        TokenAccount { mint: self.mint, owner: self.reward_vault_key, amount: 0 }
    }

    /// Why the vault cannot be created or accepted, if it cannot: it is not
    /// where its seeds derive it, or a vault that exists is of another mint
    /// or under another authority.
    pub open spec fn failure(self, bound: bool) -> Option<Failure> {
        if !bound {
            Some(Failure::SeedMismatch)
        } else {
            match self.reward_vault {
                Some(vault) => if vault.mint != self.mint {
                    Some(Failure::Token(TokenError::MintMismatch))
                } else if vault.owner != self.reward_vault_key {
                    Some(Failure::Token(TokenError::OwnerMismatch))
                } else {
                    None
                },
                None => None,
            }
        }
    }

    /// The accounts after an initialization that did not fail: a vault that
    /// existed is as it was, one that did not is there and empty.
    pub open spec fn after(self) -> Initialize {
        Initialize {
            reward_vault: Some(
                match self.reward_vault {
                    Some(vault) => vault,
                    None => self.fresh_vault(),
                },
            ),
            ..self
        }
    }

    /// Whether `outcome` and `post` are what initializing `self` comes to.
    pub open spec fn initialized(
        self,
        bound: bool,
        outcome: Result<(), Failure>,
        post: Initialize,
    ) -> bool {
        match self.failure(bound) {
            Some(e) => outcome == Err::<(), Failure>(e) && post == self,
            None => outcome == Ok::<(), Failure>(()) && post == self.after(),
        }
    }
}

/// Creates the reward vault if it is absent, given what the seeds of the
/// vault derive.
pub fn initialize_with(
    ctx: &mut Initialize,
    reward_vault: &Option<ProgramAddress>,
) -> (outcome: Result<(), Failure>)
    ensures
        old(ctx).initialized(binds(*reward_vault, old(ctx).reward_vault_key), outcome, *final(ctx)),
        !binds(*reward_vault, old(ctx).reward_vault_key) ==> outcome is Err,
        outcome is Err ==> *final(ctx) == *old(ctx),
{
    if !found_binds(reward_vault, &ctx.reward_vault_key) {
        return Err(Failure::SeedMismatch);
    }
    match ctx.reward_vault {
        Some(vault) => {
            if vault.mint != ctx.mint {
                return Err(Failure::Token(TokenError::MintMismatch));
            }
            if vault.owner != ctx.reward_vault_key {
                return Err(Failure::Token(TokenError::OwnerMismatch));
            }
        },
        None => {
            ctx.reward_vault = Some(
                TokenAccount { mint: ctx.mint, owner: ctx.reward_vault_key, amount: 0 },
            );
        },
    }
    Ok(())
}

/// Creates the reward vault of the mint under the program `program_id` if it
/// is absent, and does nothing else.
pub fn initialize(ctx: &mut Initialize, program_id: &Identity) -> (outcome: Result<(), Failure>)
    ensures
        old(ctx).initialized(
            is_derived(old(ctx).reward_vault_key, reward_vault_seeds(old(ctx).mint), *program_id),
            outcome,
            *final(ctx),
        ),
        !is_derived(old(ctx).reward_vault_key, reward_vault_seeds(old(ctx).mint), *program_id)
            ==> outcome is Err,
        outcome is Err ==> *final(ctx) == *old(ctx),
{
    let reward_vault = reward_vault_address(&ctx.mint, program_id);
    proof {
        lemma_found_is_derived(
            reward_vault_seeds(ctx.mint),
            *program_id,
            reward_vault,
            ctx.reward_vault_key,
        );
    }
    initialize_with(ctx, &reward_vault)
}

/// An initialization that presents a vault at an identity that its seeds do
/// not derive fails and changes nothing; so does any that fails.
pub proof fn lemma_initialize_is_seed_bound(
    pre: Initialize,
    bound: bool,
    outcome: Result<(), Failure>,
    post: Initialize,
)
    requires
        pre.initialized(bound, outcome, post),
    ensures
        !bound ==> outcome == Err::<(), Failure>(Failure::SeedMismatch),
        outcome is Err ==> post == pre,
{
}

/// Initializing twice is initializing once: after an initialization that
/// did not fail, another one does not fail and changes nothing.
pub proof fn lemma_initialize_idempotent(ctx: Initialize, bound: bool)
    requires
        ctx.failure(bound) is None,
    ensures
        ctx.after().failure(bound) is None,
        ctx.after().after() == ctx.after(),
        ctx.after().initialized(bound, Ok(()), ctx.after()),
{
}

} // verus!
