//! What an operation reads from the token accounts and mints handed to it.

use crate::state::Pubkey;
use vstd::prelude::*;

verus! {

/// A token account, as far as the pool looks at it.
#[derive(Clone, Copy, Debug)]
pub struct TokenAccount {
    /// The address of the account.
    pub key: Pubkey,
    /// The mint associated with this account
    pub mint: Pubkey,
    /// The amount of tokens this account holds.
    pub amount: u64,
    /// If `delegate` is `Some` then `delegated_amount` represents
    /// the amount authorized by the delegate
    pub delegate: Option<Pubkey>,
    /// Optional authority to close the account.
    pub close_authority: Option<Pubkey>,
}

/// A mint, as far as the pool looks at it.
#[derive(Clone, Copy, Debug)]
pub struct Mint {
    /// The address of the mint.
    pub key: Pubkey,
    /// Optional authority used to mint new tokens.
    pub mint_authority: Option<Pubkey>,
    /// Total supply of tokens.
    pub supply: u64,
    /// Number of base 10 digits to the right of the decimal place.
    pub decimals: u8,
    /// Optional authority to freeze token accounts.
    pub freeze_authority: Option<Pubkey>,
}

/// `amount` as a 64-bit amount, where it fits.
pub open spec fn to_u64_spec(amount: u128) -> Option<u64> {
    if amount <= u64::MAX {
        Some(amount as u64)
    } else {
        None
    }
}

/// Narrows an amount to the 64 bits of a token amount.
pub fn to_u64(amount: u128) -> (narrow: Option<u64>)
    ensures
        narrow == to_u64_spec(amount),
{
    if amount <= u64::MAX as u128 {
        Some(amount as u64)
    } else {
        None
    }
}

} // verus!
