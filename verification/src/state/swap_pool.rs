//! The record of a pool and the checks of the accounts handed to it.

use crate::curve::calculator::CurveCalculator;
use crate::errors::TokenSwapError;
use crate::state::pubkey::Pubkey;
use crate::types::{Fees, SwapCurve, SwapCurveType};
use vstd::prelude::*;

verus! {

/// A token swap pool.
#[derive(Clone, Copy, Debug)]
pub struct SwapPool {
    pub version: u8,
    pub bump: u8,
    /// Bump seed used in program address.
    /// The program address is created deterministically with the bump seed,
    /// swap program id, and swap account pubkey.  This program address has
    /// authority over the swap's token A account, token B account, and pool
    /// token mint.
    pub authority_bump: [u8; 1],
    pub vault_a_bump: u8,
    pub vault_b_bump: u8,
    pub lpmint_bump: u8,
    pub swap_pool: Pubkey,
    pub authority: Pubkey,
    /// Mint information for token A
    pub mint_a: Pubkey,
    /// Mint information for token B
    pub mint_b: Pubkey,
    /// Pool tokens are issued when A or B tokens are deposited.
    /// Pool tokens can be withdrawn back to token A or token B.
    pub lpmint: Pubkey,
    /// Token A
    pub vault_a: Pubkey,
    /// Token B
    pub vault_b: Pubkey,
    /// Pool token account to receive trading and / or withdrawal fees
    pub fee_receiver: Pubkey,
    /// Program ID of the tokens being exchanged.
    pub token_program: Pubkey,
    /// All fee information
    pub fees: Fees,
    /// Swap curve parameters, to be unpacked and used by the SwapCurve, which
    /// calculates swaps, deposits, and withdrawals
    pub swap_curve_type: SwapCurveType,
    pub token_b_price_or_offset: u64,
    /// What the token A vault held when the pool last looked.
    pub vault_a_balance: u64,
    /// What the token B vault held when the pool last looked.
    pub vault_b_balance: u64,
    /// The supply of pool tokens when the pool last looked.
    pub lpmint_supply: u64,
}

impl SwapPool {
    /// The first fault among the accounts handed to an operation, in
    /// the order in which they are looked at: the two vaults, the pool
    /// mint, the token program, the user's accounts (which must not be
    /// the vaults themselves) and the fee receiver.
    pub open spec fn check_accounts_spec(
        &self,
        vault_a: Pubkey,
        vault_b: Pubkey,
        pool_mint: Pubkey,
        token_program: Pubkey,
        token_a: Option<Pubkey>,
        token_b: Option<Pubkey>,
        fee_receiver: Option<Pubkey>,
    ) -> Result<(), TokenSwapError> {
        if vault_a@ != self.vault_a@ {
            Err(TokenSwapError::IncorrectSwapAccount)
        } else if vault_b@ != self.vault_b@ {
            Err(TokenSwapError::IncorrectSwapAccount)
        } else if pool_mint@ != self.lpmint@ {
            Err(TokenSwapError::IncorrectPoolMint)
        } else if token_program@ != self.token_program@ {
            Err(TokenSwapError::InvalidTokenProgram)
        } else if token_a is Some && vault_a@ == token_a->0@ {
            Err(TokenSwapError::InvalidInput)
        } else if token_b is Some && vault_b@ == token_b->0@ {
            Err(TokenSwapError::InvalidInput)
        } else if fee_receiver is Some && fee_receiver->0@ != self.fee_receiver@ {
            Err(TokenSwapError::InvalidFeeReceiver)
        } else {
            Ok(())
        }
    }

    /// The curve that the record describes.
    pub open spec fn swap_curve_spec(&self) -> SwapCurve {
        self.swap_curve_type.with_parameter(self.token_b_price_or_offset)
    }

    /// Checks the accounts handed to an operation against the record.
    pub fn check_accounts(
        &self,
        vault_a: &Pubkey,
        vault_b: &Pubkey,
        pool_mint: &Pubkey,
        token_program: &Pubkey,
        token_a: Option<Pubkey>,
        token_b: Option<Pubkey>,
        fee_receiver: Option<Pubkey>,
    ) -> (outcome: Result<(), TokenSwapError>)
        ensures
            outcome == self.check_accounts_spec(
                *vault_a,
                *vault_b,
                *pool_mint,
                *token_program,
                token_a,
                token_b,
                fee_receiver,
            ),
    {
        if !vault_a.same_as(&self.vault_a) {
            return Err(TokenSwapError::IncorrectSwapAccount);
        }
        if !vault_b.same_as(&self.vault_b) {
            return Err(TokenSwapError::IncorrectSwapAccount);
        }
        if !pool_mint.same_as(&self.lpmint) {
            return Err(TokenSwapError::IncorrectPoolMint);
        }
        if !token_program.same_as(&self.token_program) {
            return Err(TokenSwapError::InvalidTokenProgram);
        }
        if let Some(token_account_a) = token_a {
            if vault_a.same_as(&token_account_a) {
                return Err(TokenSwapError::InvalidInput);
            }
        }
        if let Some(token_account_b) = token_b {
            if vault_b.same_as(&token_account_b) {
                return Err(TokenSwapError::InvalidInput);
            }
        }
        if let Some(fee_receiver) = fee_receiver {
            if !fee_receiver.same_as(&self.fee_receiver) {
                return Err(TokenSwapError::InvalidFeeReceiver);
            }
        }
        Ok(())
    }

    /// The seeds that the pool authority signs with: the address of the
    /// pool and the bump of the authority.
    pub fn signer_seeds(&self) -> (seeds: [&[u8]; 2])
        ensures
            seeds[0]@ == self.swap_pool@,
            seeds[1]@ == self.authority_bump@,
    {
        [&self.swap_pool.bytes, &self.authority_bump]
    }

    /// The curve of the pool, rebuilt from its shape and parameter.
    pub fn swap_curve(&self) -> (outcome: Result<SwapCurve, TokenSwapError>)
        ensures
            outcome is Ok <==> self.swap_curve_spec().valid(),
            outcome is Ok ==> outcome->Ok_0 == self.swap_curve_spec(),
            outcome is Err ==> outcome->Err_0 == TokenSwapError::InvalidCurve,
    {
        self.swap_curve_type.try_into_swap_curve(self.token_b_price_or_offset)
    }
}

} // verus!
