//! Redeeming pool tokens for an exact amount of one pool token.

use crate::curve::calculator::CurveCalculator;
use crate::errors::TokenSwapError;
use crate::instructions::accounts::{to_u64, to_u64_spec, Mint, TokenAccount};
use crate::instructions::one_sided::{chosen_side, user_a_spec, user_b_spec};
use crate::state::{Pubkey, SwapPool};
use crate::types::TradeDirection;
use vstd::prelude::*;

verus! {

/// What a one-sided withdrawal is handed.
#[derive(Clone, Copy, Debug)]
pub struct WithdrawSingleTokenTypeExactAmountOut {
    /// The record of the pool.
    pub swap_pool: SwapPool,
    /// The mint of the pool token.
    pub lpmint: Mint,
    /// The user's account of pool tokens.
    pub lptoken: TokenAccount,
    /// The pool's reserve of token A.
    pub vault_a: TokenAccount,
    /// The pool's reserve of token B.
    pub vault_b: TokenAccount,
    /// The user's account of token A, where token A is withdrawn.
    pub token_a: Option<TokenAccount>,
    /// The user's account of token B, where token B is withdrawn.
    pub token_b: Option<TokenAccount>,
    /// The pool token account that receives the owner's fees.
    pub fee_receiver: TokenAccount,
    /// The token program.
    pub token_program: Pubkey,
}

/// What a one-sided withdrawal moves.
#[derive(Clone, Copy, Debug, PartialEq, Eq, Structural)]
pub struct WithdrawSingleTransfers {
    /// Which token is withdrawn: `AtoB` for token A, `BtoA` for token B.
    pub trade_direction: TradeDirection,
    /// Pool tokens that go from the user to the fee receiver.
    pub withdraw_fee: u64,
    /// Pool tokens burned from the user's account.
    pub pool_token_amount: u64,
    /// Tokens that go from the reserve to the user.
    pub destination_token_amount: u64,
}

impl WithdrawSingleTokenTypeExactAmountOut {
    /// The owner's fee on burning `burn_pool_token_amount`: none where
    /// the fee receiver itself redeems.
    pub open spec fn withdraw_fee_spec(&self, burn_pool_token_amount: u128) -> Option<u128> {
        if self.fee_receiver.key@ == self.lptoken.key@ {
            Some(0u128)
        } else {
            self.swap_pool.fees.owner_withdraw_fee_spec(burn_pool_token_amount)
        }
    }

    /// What the withdrawal moves, or the first reason why it is refused:
    /// a curve that cannot be built or allows no withdrawals, no account
    /// of either token, a wrong account, a conversion or a fee that
    /// cannot be computed, or a cost in pool tokens above
    /// `maximum_pool_token_amount` or of nothing at all. The cost is what
    /// the curve asks for with fees, rounded up, plus the owner's
    /// withdraw fee on it; the fee is moved and the whole cost is burned.
    pub open spec fn execute_spec(
        &self,
        destination_token_amount: u64,
        maximum_pool_token_amount: u64,
    ) -> Result<WithdrawSingleTransfers, TokenSwapError> {
        if !self.swap_pool.swap_curve_spec().valid() {
            Err(TokenSwapError::InvalidCurve)
        } else if !self.swap_pool.swap_curve_spec().withdrawals_allowed() {
            Err(TokenSwapError::UnsupportedCurveOperation)
        } else {
            match chosen_side(self.token_a is Some, self.token_b is Some) {
                None => Err(TokenSwapError::IncorrectSwapAccount),
                Some(trade_direction) => match self.swap_pool.check_accounts_spec(
                    self.vault_a.key,
                    self.vault_b.key,
                    self.lpmint.key,
                    self.token_program,
                    user_a_spec(trade_direction, self.token_a),
                    user_b_spec(trade_direction, self.token_b),
                    Some(self.fee_receiver.key),
                ) {
                    Err(e) => Err(e),
                    Ok(()) => match self.swap_pool.swap_curve_spec().withdraw_spec(
                        destination_token_amount as u128,
                        self.vault_a.amount as u128,
                        self.vault_b.amount as u128,
                        self.lpmint.supply as u128,
                        trade_direction,
                        self.swap_pool.fees,
                    ) {
                        None => Err(TokenSwapError::ZeroTradingTokens),
                        Some(burn_pool_token_amount) => match self.withdraw_fee_spec(
                            burn_pool_token_amount,
                        ) {
                            None => Err(TokenSwapError::FeeCalculationFailure),
                            Some(withdraw_fee) => if burn_pool_token_amount + withdraw_fee
                                > u64::MAX {
                                Err(TokenSwapError::CalculationFailure)
                            } else if burn_pool_token_amount + withdraw_fee
                                > maximum_pool_token_amount {
                                Err(TokenSwapError::ExceededSlippage)
                            } else if burn_pool_token_amount + withdraw_fee == 0 {
                                Err(TokenSwapError::ZeroTradingTokens)
                            } else {
                                Ok(
                                    WithdrawSingleTransfers {
                                        trade_direction,
                                        withdraw_fee: withdraw_fee as u64,
                                        pool_token_amount: (burn_pool_token_amount
                                            + withdraw_fee) as u64,
                                        destination_token_amount,
                                    },
                                )
                            },
                        },
                    },
                },
            }
        }
    }
}

/// Decides a withdrawal of exactly `destination_token_amount` of one
/// token that may cost at most `maximum_pool_token_amount` pool
/// tokens.
pub fn execute(
    accounts: &WithdrawSingleTokenTypeExactAmountOut,
    destination_token_amount: u64,
    maximum_pool_token_amount: u64,
) -> (outcome: Result<WithdrawSingleTransfers, TokenSwapError>)
    ensures
        outcome == accounts.execute_spec(destination_token_amount, maximum_pool_token_amount),
        outcome is Ok ==> outcome->Ok_0.destination_token_amount == destination_token_amount,
        outcome is Ok ==> 0 < outcome->Ok_0.pool_token_amount <= maximum_pool_token_amount,
        outcome is Ok ==> outcome->Ok_0.withdraw_fee <= outcome->Ok_0.pool_token_amount,
{
    let swap_curve = accounts.swap_pool.swap_curve()?;
    if !swap_curve.allows_withdrawals() {
        return Err(TokenSwapError::UnsupportedCurveOperation);
    }
    let (trade_direction, user_token_account_a, user_token_account_b) = match (
        accounts.token_a,
        accounts.token_b,
    ) {
        (Some(token_a), _) => (TradeDirection::AtoB, Some(token_a.key), None),
        (None, Some(token_b)) => (TradeDirection::BtoA, None, Some(token_b.key)),
        (None, None) => { return Err(TokenSwapError::IncorrectSwapAccount); },
    };

    accounts.swap_pool.check_accounts(
        &accounts.vault_a.key,
        &accounts.vault_b.key,
        &accounts.lpmint.key,
        &accounts.token_program,
        user_token_account_a,
        user_token_account_b,
        Some(accounts.fee_receiver.key),
    )?;

    let burn_pool_token_amount = match swap_curve.withdraw_single_token_type_exact_out(
        destination_token_amount as u128,
        accounts.vault_a.amount as u128,
        accounts.vault_b.amount as u128,
        accounts.lpmint.supply as u128,
        trade_direction,
        &accounts.swap_pool.fees,
    ) {
        Some(amount) => amount,
        None => { return Err(TokenSwapError::ZeroTradingTokens); },
    };

    let withdraw_fee: u128 = if accounts.fee_receiver.key.same_as(&accounts.lptoken.key) {
        // withdrawing from the fee account, don't assess withdraw fee
        0
    } else {
        match accounts.swap_pool.fees.owner_withdraw_fee(burn_pool_token_amount) {
            Some(fee) => fee,
            None => { return Err(TokenSwapError::FeeCalculationFailure); },
        }
    };

    let pool_token_amount = match burn_pool_token_amount.checked_add(withdraw_fee) {
        Some(sum) => sum,
        None => { return Err(TokenSwapError::CalculationFailure); },
    };
    let pool_token_amount = match to_u64(pool_token_amount) {
        Some(amount) => amount,
        None => { return Err(TokenSwapError::CalculationFailure); },
    };
    if pool_token_amount > maximum_pool_token_amount {
        return Err(TokenSwapError::ExceededSlippage);
    }
    if pool_token_amount == 0 {
        return Err(TokenSwapError::ZeroTradingTokens);
    }
    Ok(
        WithdrawSingleTransfers {
            trade_direction,
            withdraw_fee: withdraw_fee as u64,
            pool_token_amount,
            destination_token_amount,
        },
    )
}

} // verus!
