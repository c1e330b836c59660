//! Depositing one pool token for pool tokens.

use crate::curve::calculator::{CurveCalculator, INITIAL_SWAP_POOL_AMOUNT};
use crate::errors::TokenSwapError;
use crate::instructions::accounts::{to_u64, to_u64_spec, Mint, TokenAccount};
use crate::instructions::one_sided::{chosen_side, user_a_spec, user_b_spec};
use crate::state::{Pubkey, SwapPool};
use crate::types::TradeDirection;
use vstd::prelude::*;

verus! {

/// What a one-sided deposit is handed.
#[derive(Clone, Copy, Debug)]
pub struct DepositSingleTokenTypeExactAmountIn {
    /// The record of the pool.
    pub swap_pool: SwapPool,
    /// The user's account of token A, where token A is deposited.
    pub token_a: Option<TokenAccount>,
    /// The user's account of token B, where token B is deposited.
    pub token_b: Option<TokenAccount>,
    /// The pool's reserve of token A.
    pub vault_a: TokenAccount,
    /// The pool's reserve of token B.
    pub vault_b: TokenAccount,
    /// The mint of the pool token.
    pub lpmint: Mint,
    /// The token program.
    pub token_program: Pubkey,
}

/// What a one-sided deposit moves.
#[derive(Clone, Copy, Debug, PartialEq, Eq, Structural)]
pub struct DepositSingleTransfers {
    /// Which token is deposited: `AtoB` for token A, `BtoA` for token B.
    pub trade_direction: TradeDirection,
    /// Tokens that go from the user into the reserve.
    pub source_token_amount: u64,
    /// Pool tokens minted to the user.
    pub pool_token_amount: u64,
}

impl DepositSingleTokenTypeExactAmountIn {
    /// The pool tokens that the deposit is worth: the curve's conversion
    /// with fees, or the whole initial supply of a pool that has none
    /// yet.
    pub open spec fn pool_tokens_spec(
        &self,
        source_token_amount: u64,
        trade_direction: TradeDirection,
    ) -> Option<u128> {
        if self.lpmint.supply > 0 {
            self.swap_pool.swap_curve_spec().deposit_spec(
                source_token_amount as u128,
                self.vault_a.amount as u128,
                self.vault_b.amount as u128,
                self.lpmint.supply as u128,
                trade_direction,
                self.swap_pool.fees,
            )
        } else {
            Some(INITIAL_SWAP_POOL_AMOUNT)
        }
    }

    /// What the deposit moves, or the first reason why it is refused: a
    /// curve that cannot be built or takes no deposits, no account of
    /// either token, a wrong account, a conversion that cannot be
    /// computed, or pool tokens below `minimum_pool_token_amount` or none
    /// at all.
    pub open spec fn execute_spec(
        &self,
        source_token_amount: u64,
        minimum_pool_token_amount: u64,
    ) -> Result<DepositSingleTransfers, TokenSwapError> {
        if !self.swap_pool.swap_curve_spec().valid() {
            Err(TokenSwapError::InvalidCurve)
        } else if !self.swap_pool.swap_curve_spec().deposits_allowed() {
            Err(TokenSwapError::UnsupportedCurveOperation)
        } else {
            match chosen_side(self.token_a is Some, self.token_b is Some) {
                None => Err(TokenSwapError::InvalidTradeDirection),
                Some(trade_direction) => match self.swap_pool.check_accounts_spec(
                    self.vault_a.key,
                    self.vault_b.key,
                    self.lpmint.key,
                    self.token_program,
                    user_a_spec(trade_direction, self.token_a),
                    user_b_spec(trade_direction, self.token_b),
                    None,
                ) {
                    Err(e) => Err(e),
                    Ok(()) => match self.pool_tokens_spec(source_token_amount, trade_direction) {
                        None => Err(TokenSwapError::ZeroTradingTokens),
                        Some(pool_token_amount) => match to_u64_spec(pool_token_amount) {
                            None => Err(TokenSwapError::CalculationFailure),
                            Some(pool_token_amount) => if pool_token_amount
                                < minimum_pool_token_amount {
                                Err(TokenSwapError::ExceededSlippage)
                            } else if pool_token_amount == 0 {
                                Err(TokenSwapError::ZeroTradingTokens)
                            } else {
                                Ok(
                                    DepositSingleTransfers {
                                        trade_direction,
                                        source_token_amount,
                                        pool_token_amount,
                                    },
                                )
                            },
                        },
                    },
                },
            }
        }
    }
}

/// Decides a deposit of `source_token_amount` of one token that must
/// give at least `minimum_pool_token_amount` pool tokens.
pub fn execute(
    accounts: &DepositSingleTokenTypeExactAmountIn,
    source_token_amount: u64,
    minimum_pool_token_amount: u64,
) -> (outcome: Result<DepositSingleTransfers, TokenSwapError>)
    ensures
        outcome == accounts.execute_spec(source_token_amount, minimum_pool_token_amount),
        outcome is Ok ==> outcome->Ok_0.source_token_amount == source_token_amount,
        outcome is Ok ==> outcome->Ok_0.pool_token_amount >= minimum_pool_token_amount
            && outcome->Ok_0.pool_token_amount > 0,
{
    let swap_curve = accounts.swap_pool.swap_curve()?;
    if !swap_curve.allows_deposits() {
        return Err(TokenSwapError::UnsupportedCurveOperation);
    }
    let (trade_direction, user_token_account_a, user_token_account_b) = match (
        accounts.token_a,
        accounts.token_b,
    ) {
        (Some(token_a), _) => (TradeDirection::AtoB, Some(token_a.key), None),
        (None, Some(token_b)) => (TradeDirection::BtoA, None, Some(token_b.key)),
        (None, None) => { return Err(TokenSwapError::InvalidTradeDirection); },
    };

    accounts.swap_pool.check_accounts(
        &accounts.vault_a.key,
        &accounts.vault_b.key,
        &accounts.lpmint.key,
        &accounts.token_program,
        user_token_account_a,
        user_token_account_b,
        None,
    )?;

    let pool_mint_supply = accounts.lpmint.supply as u128;
    let pool_token_amount = if pool_mint_supply > 0 {
        match swap_curve.deposit_single_token_type(
            source_token_amount as u128,
            accounts.vault_a.amount as u128,
            accounts.vault_b.amount as u128,
            pool_mint_supply,
            trade_direction,
            &accounts.swap_pool.fees,
        ) {
            Some(amount) => amount,
            None => { return Err(TokenSwapError::ZeroTradingTokens); },
        }
    } else {
        swap_curve.new_pool_supply()
    };

    let pool_token_amount = match to_u64(pool_token_amount) {
        Some(amount) => amount,
        None => { return Err(TokenSwapError::CalculationFailure); },
    };
    if pool_token_amount < minimum_pool_token_amount {
        return Err(TokenSwapError::ExceededSlippage);
    }
    if pool_token_amount == 0 {
        return Err(TokenSwapError::ZeroTradingTokens);
    }
    Ok(DepositSingleTransfers { trade_direction, source_token_amount, pool_token_amount })
}

} // verus!
