//! Token balances as the programs count on them, and the two movements
//! that they ask the token subsystem for.
//!
//! A transfer or a burn either happens in full or leaves both sides as they
//! were. The operations of the programs are stated over these balances, so
//! that what they pay out and what they leave behind can be held against
//! each other.

use vstd::prelude::*;
use crate::errors::TokenError;
use crate::identity::Identity;
use crate::seeds::{
    binds, find_program_address, found_binds, is_derived, lemma_found_is_derived, seed_bytes,
    ProgramAddress,
};

verus! {

/// A balance of one mint under one authority.
#[derive(Clone, Copy, Debug, PartialEq, Eq)]
pub struct TokenAccount {
    /// The mint that the balance is denominated in.
    pub mint: Identity,
    /// The authority that may move the balance.
    pub owner: Identity,
    /// The balance, in base units.
    pub amount: u64,
}

/// The running total of a mint.
#[derive(Clone, Copy, Debug, PartialEq, Eq)]
pub struct Mint {
    /// Base units in existence.
    pub supply: u64,
}

impl TokenAccount {
    /// The same account holding `amount`.
    pub open spec fn with_amount(self, amount: u64) -> TokenAccount {
        TokenAccount { mint: self.mint, owner: self.owner, amount }
    }

    /// Why the account does not belong to `owner`, or is not of `mint`;
    /// the authority is looked at first.
    pub open spec fn misfit(self, owner: Identity, mint: Identity) -> Option<TokenError> {
        if self.owner != owner {
            Some(TokenError::OwnerMismatch)
        } else if self.mint != mint {
            Some(TokenError::MintMismatch)
        } else {
            None
        }
    }

    /// Checks that the account is under `owner` and of `mint`.
    pub fn check(&self, owner: &Identity, mint: &Identity) -> (r: Result<(), TokenError>)
        ensures
            r == match self.misfit(*owner, *mint) {
                Some(e) => Err::<(), TokenError>(e),
                None => Ok(()),
            },
    {
        if self.owner != *owner {
            Err(TokenError::OwnerMismatch)
        } else if self.mint != *mint {
            Err(TokenError::MintMismatch)
        } else {
            Ok(())
        }
    }
}

/// Why moving `amount` from `from` to `to` under `authority` fails, if it
/// does. The first reason that applies is the one reported.
pub open spec fn transfer_failure(
    from: TokenAccount,
    to: TokenAccount,
    authority: Identity,
    amount: u64,
) -> Option<TokenError> {
    if from.amount < amount {
        Some(TokenError::InsufficientFunds)
    } else if from.mint != to.mint {
        Some(TokenError::MintMismatch)
    } else if from.owner != authority {
        Some(TokenError::OwnerMismatch)
    } else if to.amount + amount > u64::MAX {
        Some(TokenError::Overflow)
    } else {
        None
    }
}

/// Moves `amount` base units from `from` to `to` on the word of `authority`.
pub fn transfer(
    from: &mut TokenAccount,
    to: &mut TokenAccount,
    authority: &Identity,
    amount: u64,
) -> (r: Result<(), TokenError>)
    ensures
        transferred(
            transfer_failure(*old(from), *old(to), *authority, amount),
            *old(from),
            *old(to),
            amount,
            r,
            *final(from),
            *final(to),
        ),
{
    if from.amount < amount {
        return Err(TokenError::InsufficientFunds);
    }
    if from.mint != to.mint {
        return Err(TokenError::MintMismatch);
    }
    if from.owner != *authority {
        return Err(TokenError::OwnerMismatch);
    }
    match to.amount.checked_add(amount) {
        Some(credited) => {
            from.amount = from.amount - amount;
            to.amount = credited;
            Ok(())
        },
        None => Err(TokenError::Overflow),
    }
}

/// Why moving `amount` from `from` to `to` fails when a derived authority
/// signs for it, if it does: the seeds presented do not derive the authority
/// that `from` is under, or the transfer itself fails.
pub open spec fn signed_transfer_failure(
    from: TokenAccount,
    to: TokenAccount,
    bound: bool,
    amount: u64,
) -> Option<TokenError> {
    if !bound {
        Some(TokenError::OwnerMismatch)
    } else {
        transfer_failure(from, to, from.owner, amount)
    }
}

/// Whether `outcome` and the two accounts after are what a transfer of
/// `amount` comes to, given why it fails if it does.
pub open spec fn transferred(
    failure: Option<TokenError>,
    from: TokenAccount,
    to: TokenAccount,
    amount: u64,
    outcome: Result<(), TokenError>,
    from_after: TokenAccount,
    to_after: TokenAccount,
) -> bool {
    match failure {
        Some(e) => outcome == Err::<(), TokenError>(e) && from_after == from && to_after == to,
        None => outcome is Ok && from_after == from.with_amount((from.amount - amount) as u64)
            && to_after == to.with_amount((to.amount + amount) as u64),
    }
}

/// Moves `amount` base units out of a vault whose authority is a derived
/// identity, given what the seeds presented for it derive.
pub fn transfer_signed_with(
    from: &mut TokenAccount,
    to: &mut TokenAccount,
    signer: &Option<ProgramAddress>,
    amount: u64,
) -> (r: Result<(), TokenError>)
    ensures
        transferred(
            signed_transfer_failure(*old(from), *old(to), binds(*signer, old(from).owner), amount),
            *old(from),
            *old(to),
            amount,
            r,
            *final(from),
            *final(to),
        ),
{
    if !found_binds(signer, &from.owner) {
        return Err(TokenError::OwnerMismatch);
    }
    let authority = from.owner;
    transfer(from, to, &authority, amount)
}

/// Moves `amount` base units out of a vault whose authority is the identity
/// that `seeds` derive under the program `program_id`.
pub fn transfer_signed(
    from: &mut TokenAccount,
    to: &mut TokenAccount,
    seeds: &Vec<Vec<u8>>,
    program_id: &Identity,
    amount: u64,
) -> (r: Result<(), TokenError>)
    ensures
        transferred(
            signed_transfer_failure(
                *old(from),
                *old(to),
                is_derived(old(from).owner, seed_bytes(seeds@), *program_id),
                amount,
            ),
            *old(from),
            *old(to),
            amount,
            r,
            *final(from),
            *final(to),
        ),
{
    let signer = find_program_address(seeds, program_id);
    proof {
        lemma_found_is_derived(seed_bytes(seeds@), *program_id, signer, from.owner);
    }
    transfer_signed_with(from, to, &signer, amount)
}

/// Why burning `amount` from `from` under `authority` fails, if it does.
pub open spec fn burn_failure(
    mint: Mint,
    from: TokenAccount,
    authority: Identity,
    amount: u64,
) -> Option<TokenError> {
    if from.amount < amount {
        Some(TokenError::InsufficientFunds)
    } else if from.owner != authority {
        Some(TokenError::OwnerMismatch)
    } else if mint.supply < amount {
        Some(TokenError::Overflow)
    } else {
        None
    }
}

/// Takes `amount` base units out of `from` and out of the supply of `mint`,
/// on the word of `authority`.
pub fn burn(
    mint: &mut Mint,
    from: &mut TokenAccount,
    authority: &Identity,
    amount: u64,
) -> (r: Result<(), TokenError>)
    ensures
        match burn_failure(*old(mint), *old(from), *authority, amount) {
            Some(e) => r == Err::<(), TokenError>(e) && *final(mint) == *old(mint) && *final(from)
                == *old(from),
            None => r is Ok && *final(from) == old(from).with_amount(
                (old(from).amount - amount) as u64,
            ) && final(mint).supply == old(mint).supply - amount,
        },
{
    if from.amount < amount {
        return Err(TokenError::InsufficientFunds);
    }
    if from.owner != *authority {
        return Err(TokenError::OwnerMismatch);
    }
    if mint.supply < amount {
        return Err(TokenError::Overflow);
    }
    from.amount = from.amount - amount;
    mint.supply = mint.supply - amount;
    Ok(())
}

} // verus!
