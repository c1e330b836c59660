//! Redeeming pool tokens for both pool tokens at the pool's ratio.

use crate::curve::calculator::{pool_tokens_to_trading_tokens_spec, CurveCalculator};
use crate::errors::TokenSwapError;
use crate::instructions::accounts::{Mint, TokenAccount};
use crate::state::{Pubkey, SwapPool};
use crate::types::RoundDirection;
use vstd::prelude::*;

verus! {

/// What a withdrawal of both tokens is handed.
#[derive(Clone, Copy, Debug)]
pub struct WithdrawAllTokenTypes {
    /// The record of the pool.
    pub swap_pool: SwapPool,
    /// The mint of the pool token.
    pub lpmint: Mint,
    /// The user's account of pool tokens.
    pub lptoken: TokenAccount,
    /// The pool's reserve of token A.
    pub vault_a: TokenAccount,
    /// The pool's reserve of token B.
    pub vault_b: TokenAccount,
    /// The user's account of token A.
    pub token_a: TokenAccount,
    /// The user's account of token B.
    pub token_b: TokenAccount,
    /// The pool token account that receives the owner's fees.
    pub fee_receiver: TokenAccount,
    /// The token program.
    pub token_program: Pubkey,
}

/// What a withdrawal of both tokens moves.
#[derive(Clone, Copy, Debug, PartialEq, Eq, Structural)]
pub struct WithdrawAllTransfers {
    /// Pool tokens that go from the user to the fee receiver.
    pub withdraw_fee: u64,
    /// Pool tokens burned from the user's account.
    pub pool_token_amount: u64,
    /// Token A that goes from the reserve to the user; zero for none.
    pub token_a_amount: u64,
    /// Token B that goes from the reserve to the user; zero for none.
    pub token_b_amount: u64,
}

impl WithdrawAllTokenTypes {
    /// The owner's fee on redeeming `pool_token_amount`: none where the
    /// fee receiver itself redeems.
    pub open spec fn withdraw_fee_spec(&self, pool_token_amount: u128) -> Option<u128> {
        if self.fee_receiver.key@ == self.lptoken.key@ {
            Some(0u128)
        } else {
            self.swap_pool.fees.owner_withdraw_fee_spec(pool_token_amount)
        }
    }

    /// One side of the withdrawal: the share of a reserve, at most the
    /// whole reserve, which must not be below `minimum`, nor nothing
    /// while the reserve holds tokens.
    pub open spec fn side_spec(
        amount: u128,
        vault_amount: u64,
        minimum: u64,
    ) -> Result<u64, TokenSwapError> {
        let token_amount = if amount < vault_amount {
            amount as u64
        } else {
            vault_amount
        };
        if token_amount < minimum {
            Err(TokenSwapError::ExceededSlippage)
        } else if token_amount == 0 && vault_amount != 0 {
            Err(TokenSwapError::ZeroTradingTokens)
        } else {
            Ok(token_amount)
        }
    }

    /// What the withdrawal moves, or the first reason why it is refused:
    /// a curve that cannot be built or allows no withdrawals, a wrong
    /// account, a fee that cannot be computed or is more than the pool
    /// tokens given, shares that cannot be computed, or a side that
    /// pays less than its minimum. The user is paid the pro-rata share
    /// of each reserve, rounded down, for the pool tokens left after
    /// the fee.
    pub open spec fn execute_spec(
        &self,
        pool_token_amount: u64,
        minimum_token_a_amount: u64,
        minimum_token_b_amount: u64,
    ) -> Result<WithdrawAllTransfers, TokenSwapError> {
        if !self.swap_pool.swap_curve_spec().valid() {
            Err(TokenSwapError::InvalidCurve)
        } else if !self.swap_pool.swap_curve_spec().withdrawals_allowed() {
            Err(TokenSwapError::UnsupportedCurveOperation)
        } else {
            match self.swap_pool.check_accounts_spec(
                self.vault_a.key,
                self.vault_b.key,
                self.lpmint.key,
                self.token_program,
                Some(self.token_a.key),
                Some(self.token_b.key),
                Some(self.fee_receiver.key),
            ) {
                Err(e) => Err(e),
                Ok(()) => match self.withdraw_fee_spec(pool_token_amount as u128) {
                    None => Err(TokenSwapError::FeeCalculationFailure),
                    Some(withdraw_fee) => if withdraw_fee > pool_token_amount {
                        Err(TokenSwapError::CalculationFailure)
                    } else {
                        match pool_tokens_to_trading_tokens_spec(
                            (pool_token_amount - withdraw_fee) as u128,
                            self.lpmint.supply as u128,
                            self.vault_a.amount as u128,
                            self.vault_b.amount as u128,
                            RoundDirection::Floor,
                        ) {
                            None => Err(TokenSwapError::ZeroTradingTokens),
                            Some(results) => match Self::side_spec(
                                results.token_a_amount,
                                self.vault_a.amount,
                                minimum_token_a_amount,
                            ) {
                                Err(e) => Err(e),
                                Ok(token_a_amount) => match Self::side_spec(
                                    results.token_b_amount,
                                    self.vault_b.amount,
                                    minimum_token_b_amount,
                                ) {
                                    Err(e) => Err(e),
                                    Ok(token_b_amount) => Ok(
                                        WithdrawAllTransfers {
                                            withdraw_fee: withdraw_fee as u64,
                                            pool_token_amount: (pool_token_amount
                                                - withdraw_fee) as u64,
                                            token_a_amount,
                                            token_b_amount,
                                        },
                                    ),
                                },
                            },
                        }
                    },
                },
            }
        }
    }

    /// Caps one side of the withdrawal at its reserve and holds it
    /// against its minimum.
    pub fn side(
        amount: u128,
        vault_amount: u64,
        minimum: u64,
    ) -> (outcome: Result<u64, TokenSwapError>)
        ensures
            outcome == Self::side_spec(amount, vault_amount, minimum),
    {
        let token_amount = if amount < vault_amount as u128 {
            amount as u64
        } else {
            vault_amount
        };
        if token_amount < minimum {
            return Err(TokenSwapError::ExceededSlippage);
        }
        if token_amount == 0 && vault_amount != 0 {
            return Err(TokenSwapError::ZeroTradingTokens);
        }
        Ok(token_amount)
    }
}

/// Decides a withdrawal of both tokens for `pool_token_amount` pool
/// tokens that must pay at least the two minima.
pub fn execute(
    accounts: &WithdrawAllTokenTypes,
    pool_token_amount: u64,
    minimum_token_a_amount: u64,
    minimum_token_b_amount: u64,
) -> (outcome: Result<WithdrawAllTransfers, TokenSwapError>)
    ensures
        outcome == accounts.execute_spec(
            pool_token_amount,
            minimum_token_a_amount,
            minimum_token_b_amount,
        ),
        outcome is Ok ==> outcome->Ok_0.withdraw_fee + outcome->Ok_0.pool_token_amount
            == pool_token_amount,
        outcome is Ok ==> minimum_token_a_amount <= outcome->Ok_0.token_a_amount
            <= accounts.vault_a.amount,
        outcome is Ok ==> minimum_token_b_amount <= outcome->Ok_0.token_b_amount
            <= accounts.vault_b.amount,
{
    let swap_curve = accounts.swap_pool.swap_curve()?;
    if !swap_curve.allows_withdrawals() {
        return Err(TokenSwapError::UnsupportedCurveOperation);
    }
    accounts.swap_pool.check_accounts(
        &accounts.vault_a.key,
        &accounts.vault_b.key,
        &accounts.lpmint.key,
        &accounts.token_program,
        Some(accounts.token_a.key),
        Some(accounts.token_b.key),
        Some(accounts.fee_receiver.key),
    )?;

    let withdraw_fee: u128 = if accounts.fee_receiver.key.same_as(&accounts.lptoken.key) {
        // withdrawing from the fee account, don't assess withdraw fee
        0
    } else {
        match accounts.swap_pool.fees.owner_withdraw_fee(pool_token_amount as u128) {
            Some(fee) => fee,
            None => { return Err(TokenSwapError::FeeCalculationFailure); },
        }
    };

    let pool_token_amount = match (pool_token_amount as u128).checked_sub(withdraw_fee) {
        Some(rest) => rest,
        None => { return Err(TokenSwapError::CalculationFailure); },
    };

    let results = match swap_curve.pool_tokens_to_trading_tokens(
        pool_token_amount,
        accounts.lpmint.supply as u128,
        accounts.vault_a.amount as u128,
        accounts.vault_b.amount as u128,
        RoundDirection::Floor,
    ) {
        Some(results) => results,
        None => { return Err(TokenSwapError::ZeroTradingTokens); },
    };
    let token_a_amount = WithdrawAllTokenTypes::side(
        results.token_a_amount,
        accounts.vault_a.amount,
        minimum_token_a_amount,
    )?;
    let token_b_amount = WithdrawAllTokenTypes::side(
        results.token_b_amount,
        accounts.vault_b.amount,
        minimum_token_b_amount,
    )?;
    Ok(
        WithdrawAllTransfers {
            withdraw_fee: withdraw_fee as u64,
            pool_token_amount: pool_token_amount as u64,
            token_a_amount,
            token_b_amount,
        },
    )
}

} // verus!
