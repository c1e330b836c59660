//! Depositing both pool tokens at the pool's ratio.

use crate::curve::calculator::{
    pool_tokens_to_trading_tokens_spec, CurveCalculator, INITIAL_SWAP_POOL_AMOUNT,
};
use crate::errors::TokenSwapError;
use crate::instructions::accounts::{to_u64, to_u64_spec, Mint, TokenAccount};
use crate::state::{Pubkey, SwapPool};
use crate::types::RoundDirection;
use vstd::prelude::*;

verus! {

/// What a deposit of both tokens is handed.
#[derive(Clone, Copy, Debug)]
pub struct DepositAllTokenTypes {
    /// The record of the pool.
    pub swap_pool: SwapPool,
    /// The user's account of token A.
    pub token_a: TokenAccount,
    /// The user's account of token B.
    pub token_b: TokenAccount,
    /// The pool's reserve of token A.
    pub vault_a: TokenAccount,
    /// The pool's reserve of token B.
    pub vault_b: TokenAccount,
    /// The mint of the pool token.
    pub lpmint: Mint,
    /// The token program.
    pub token_program: Pubkey,
}

/// What a deposit of both tokens moves.
#[derive(Clone, Copy, Debug, PartialEq, Eq, Structural)]
pub struct DepositAllTransfers {
    /// Token A that goes from the user into the reserve.
    pub token_a_amount: u64,
    /// Token B that goes from the user into the reserve.
    pub token_b_amount: u64,
    /// Pool tokens minted to the user.
    pub pool_token_amount: u64,
}

impl DepositAllTokenTypes {
    /// The pool tokens to issue and the supply they are a share of: what
    /// was asked for against the current supply, or the whole initial
    /// supply of a pool that has none yet.
    pub open spec fn issue_spec(&self, pool_token_amount: u64) -> (u128, u128) {
        if self.lpmint.supply > 0 {
            (pool_token_amount as u128, self.lpmint.supply as u128)
        } else {
            (INITIAL_SWAP_POOL_AMOUNT, INITIAL_SWAP_POOL_AMOUNT)
        }
    }

    /// One side of the deposit: the share of a reserve as a 64-bit
    /// amount, which must be neither more than `maximum` nor nothing.
    pub open spec fn side_spec(amount: u128, maximum: u64) -> Result<u64, TokenSwapError> {
        match to_u64_spec(amount) {
            None => Err(TokenSwapError::CalculationFailure),
            Some(amount) => if amount > maximum {
                Err(TokenSwapError::ExceededSlippage)
            } else if amount == 0 {
                Err(TokenSwapError::ZeroTradingTokens)
            } else {
                Ok(amount)
            },
        }
    }

    /// What the deposit moves, or the first reason why it is refused: a
    /// curve that cannot be built or takes no deposits, a wrong account,
    /// shares that cannot be computed, or a side that costs more than its
    /// maximum or nothing at all. The user pays the pro-rata share of
    /// each reserve, rounded up.
    pub open spec fn execute_spec(
        &self,
        pool_token_amount: u64,
        maximum_token_a_amount: u64,
        maximum_token_b_amount: u64,
    ) -> Result<DepositAllTransfers, TokenSwapError> {
        let (issued, supply) = self.issue_spec(pool_token_amount);
        if !self.swap_pool.swap_curve_spec().valid() {
            Err(TokenSwapError::InvalidCurve)
        } else if !self.swap_pool.swap_curve_spec().deposits_allowed() {
            Err(TokenSwapError::UnsupportedCurveOperation)
        } else {
            match self.swap_pool.check_accounts_spec(
                self.vault_a.key,
                self.vault_b.key,
                self.lpmint.key,
                self.token_program,
                Some(self.token_a.key),
                Some(self.token_b.key),
                None,
            ) {
                Err(e) => Err(e),
                Ok(()) => match pool_tokens_to_trading_tokens_spec(
                    issued,
                    supply,
                    self.vault_a.amount as u128,
                    self.vault_b.amount as u128,
                    RoundDirection::Ceiling,
                ) {
                    None => Err(TokenSwapError::ZeroTradingTokens),
                    Some(results) => match Self::side_spec(
                        results.token_a_amount,
                        maximum_token_a_amount,
                    ) {
                        Err(e) => Err(e),
                        Ok(token_a_amount) => match Self::side_spec(
                            results.token_b_amount,
                            maximum_token_b_amount,
                        ) {
                            Err(e) => Err(e),
                            Ok(token_b_amount) => Ok(
                                DepositAllTransfers {
                                    token_a_amount,
                                    token_b_amount,
                                    pool_token_amount: issued as u64,
                                },
                            ),
                        },
                    },
                },
            }
        }
    }

    /// Narrows one side of the deposit and holds it against its maximum.
    pub fn side(amount: u128, maximum: u64) -> (outcome: Result<u64, TokenSwapError>)
        ensures
            outcome == Self::side_spec(amount, maximum),
    {
        let amount = match to_u64(amount) {
            Some(amount) => amount,
            None => { return Err(TokenSwapError::CalculationFailure); },
        };
        if amount > maximum {
            return Err(TokenSwapError::ExceededSlippage);
        }
        if amount == 0 {
            return Err(TokenSwapError::ZeroTradingTokens);
        }
        Ok(amount)
    }
}

/// Decides a deposit of both tokens for `pool_token_amount` pool
/// tokens that may cost at most the two maxima.
pub fn execute(
    accounts: &DepositAllTokenTypes,
    pool_token_amount: u64,
    maximum_token_a_amount: u64,
    maximum_token_b_amount: u64,
) -> (outcome: Result<DepositAllTransfers, TokenSwapError>)
    ensures
        outcome == accounts.execute_spec(
            pool_token_amount,
            maximum_token_a_amount,
            maximum_token_b_amount,
        ),
        outcome is Ok ==> 0 < outcome->Ok_0.token_a_amount <= maximum_token_a_amount,
        outcome is Ok ==> 0 < outcome->Ok_0.token_b_amount <= maximum_token_b_amount,
{
    let calculator = accounts.swap_pool.swap_curve()?;
    if !calculator.allows_deposits() {
        return Err(TokenSwapError::UnsupportedCurveOperation);
    }
    accounts.swap_pool.check_accounts(
        &accounts.vault_a.key,
        &accounts.vault_b.key,
        &accounts.lpmint.key,
        &accounts.token_program,
        Some(accounts.token_a.key),
        Some(accounts.token_b.key),
        None,
    )?;

    let current_pool_mint_supply = accounts.lpmint.supply as u128;
    let (pool_token_amount, pool_mint_supply) = if current_pool_mint_supply > 0 {
        (pool_token_amount as u128, current_pool_mint_supply)
    } else {
        (calculator.new_pool_supply(), calculator.new_pool_supply())
    };

    let results = match calculator.pool_tokens_to_trading_tokens(
        pool_token_amount,
        pool_mint_supply,
        accounts.vault_a.amount as u128,
        accounts.vault_b.amount as u128,
        RoundDirection::Ceiling,
    ) {
        Some(results) => results,
        None => { return Err(TokenSwapError::ZeroTradingTokens); },
    };
    let token_a_amount = DepositAllTokenTypes::side(
        results.token_a_amount,
        maximum_token_a_amount,
    )?;
    let token_b_amount = DepositAllTokenTypes::side(
        results.token_b_amount,
        maximum_token_b_amount,
    )?;
    let pool_token_amount = match to_u64(pool_token_amount) {
        Some(amount) => amount,
        None => { return Err(TokenSwapError::CalculationFailure); },
    };
    Ok(DepositAllTransfers { token_a_amount, token_b_amount, pool_token_amount })
}

} // verus!
