//! The rules of a single-sided staking vault and of the withdrawal path of a
//! constant-product market maker, with their proofs.
//!
//! The staking vault takes deposits of one token, remembers since when they
//! are staked and pays one hundredth of the withdrawn principal per elapsed
//! slot as a reward. The market maker redeems liquidity shares for the
//! proportional slice of its two reserves, rounded down in favour of the
//! pool. Every operation works on the plain values of the accounts that are
//! presented to it, and either goes through or leaves them untouched.
//!
//! Identities are derived with `anchor_lang`, and the product of two
//! balances is taken in 256 bits with `spl_math`.

pub mod errors;
pub mod formulas;
pub mod identity;
pub mod initialize;
pub mod layout;
pub mod seeds;
pub mod session;
pub mod stake;
pub mod state;
pub mod token;
pub mod unstake;
pub mod wide;
pub mod withdraw_liquidity;
