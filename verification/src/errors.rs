//! The kinds of failure that an operation can end in. Any of them aborts the
//! whole operation: no record and no balance is left changed.

use vstd::prelude::*;

verus! {

/// Failures of the staking program that are surfaced to the caller.
#[derive(Clone, Copy, Debug, PartialEq, Eq, Structural)]
pub enum AppError {
    /// Tokens are already staked. Kept for callers; no operation raises it.
    IsStaked,
    /// Tokens are not staked. Kept for callers; no operation raises it.
    NotStaked,
    /// The amount is zero, or more than what is staked.
    NoToken,
    /// The stake record names another staker.
    InvalidStaker,
    /// The stake record names another mint.
    InvalidMint,
}

/// The number of the first failure of a program; the others follow in the
/// order in which they are declared.
pub const ERROR_CODE_OFFSET: u32 = 6000;

impl AppError {
    /// The number under which the failure is known outside the program.
    pub fn code(&self) -> (number: u32)
        ensures
            number == match *self {
                AppError::IsStaked => 6000u32,
                AppError::NotStaked => 6001u32,
                AppError::NoToken => 6002u32,
                AppError::InvalidStaker => 6003u32,
                AppError::InvalidMint => 6004u32,
            },
    {
        match self {
            AppError::IsStaked => ERROR_CODE_OFFSET,
            AppError::NotStaked => ERROR_CODE_OFFSET + 1,
            AppError::NoToken => ERROR_CODE_OFFSET + 2,
            AppError::InvalidStaker => ERROR_CODE_OFFSET + 3,
            AppError::InvalidMint => ERROR_CODE_OFFSET + 4,
        }
    }

    /// The message that goes with the failure.
    pub fn message(&self) -> (text: String)
        ensures
            text@ == match *self {
                AppError::IsStaked => "Tokens are already staked"@,
                AppError::NotStaked => "Tokens are not staked"@,
                AppError::NoToken => "No tokens to stake"@,
                AppError::InvalidStaker => "Invalid staker"@,
                AppError::InvalidMint => "Invalid mint"@,
            },
    {
        match self {
            AppError::IsStaked => "Tokens are already staked".to_owned(),
            AppError::NotStaked => "Tokens are not staked".to_owned(),
            AppError::NoToken => "No tokens to stake".to_owned(),
            AppError::InvalidStaker => "Invalid staker".to_owned(),
            AppError::InvalidMint => "Invalid mint".to_owned(),
        }
    }
}

/// Failures of a movement of tokens.
#[derive(Clone, Copy, Debug, PartialEq, Eq, Structural)]
pub enum TokenError {
    /// The source holds less than the amount.
    InsufficientFunds,
    /// The account is not denominated in the expected mint.
    MintMismatch,
    /// The account is not under the expected authority.
    OwnerMismatch,
    /// The destination balance, or the supply, would leave 64 bits.
    Overflow,
}

/// Every way in which an operation can fail.
#[derive(Clone, Copy, Debug, PartialEq, Eq, Structural)]
pub enum Failure {
    /// A failure of the staking program.
    App(AppError),
    /// An argument of a pool operation is not acceptable.
    InvalidArgument,
    /// A checked arithmetic step left 64 bits.
    Overflow,
    /// An account is not at the identity that its seeds derive.
    SeedMismatch,
    /// A token account does not fit, or a movement of tokens failed.
    Token(TokenError),
}

} // verus!
