//! Swapping one pool token for the other.

use crate::curve::calculator::CurveCalculator;
use crate::errors::TokenSwapError;
use crate::instructions::accounts::{to_u64, to_u64_spec, Mint, TokenAccount};
use crate::state::{Pubkey, SwapPool};
use crate::types::{Fees, SwapCurve, SwapResult, TradeDirection};
use vstd::prelude::*;

verus! {

/// What a swap is handed.
#[derive(Clone, Copy, Debug)]
pub struct Swap {
    /// The record of the pool.
    pub swap_pool: SwapPool,
    /// The user's account of the token sold.
    pub source_token: TokenAccount,
    /// The pool's reserve of the token sold.
    pub source_vault: TokenAccount,
    /// The pool's reserve of the token bought.
    pub dest_vault: TokenAccount,
    /// The user's account of the token bought.
    pub dest_token: TokenAccount,
    /// The mint of the pool token.
    pub lpmint: Mint,
    /// The pool token account that receives the owner's fees.
    pub fee_receiver: TokenAccount,
    /// The token program.
    pub token_program: Pubkey,
    /// Host fee account to receive additional trading fees
    pub host_fee_receiver: Option<TokenAccount>,
}

/// What a swap moves.
#[derive(Clone, Copy, Debug, PartialEq, Eq, Structural)]
pub struct SwapTransfers {
    /// Which token is sold.
    pub trade_direction: TradeDirection,
    /// Tokens that go from the user into the source reserve.
    pub source_amount: u64,
    /// Pool tokens minted to the host fee account; zero for none.
    pub host_fee: u64,
    /// Pool tokens minted to the fee receiver; zero for none.
    pub owner_fee: u64,
    /// Tokens that go from the destination reserve to the user.
    pub destination_amount: u64,
}

/// Pool tokens minted for the owner's fee: to the host, and to the fee
/// receiver.
#[derive(Clone, Copy, Debug, PartialEq, Eq, Structural)]
pub struct OwnerFeeMints {
    /// Pool tokens for the host fee account.
    pub host_fee: u64,
    /// Pool tokens for the fee receiver.
    pub owner_fee: u64,
}

impl Swap {
    /// The token sold is the one that the user's source account holds: A
    /// sells into B, B into A; an account of any other mint is refused.
    pub open spec fn trade_direction_spec(&self) -> Result<TradeDirection, TokenSwapError> {
        if self.source_token.mint@ == self.swap_pool.mint_a@ {
            Ok(TradeDirection::AtoB)
        } else if self.source_token.mint@ == self.swap_pool.mint_b@ {
            Ok(TradeDirection::BtoA)
        } else {
            Err(TokenSwapError::IncorrectSwapAccount)
        }
    }

    /// The check of the accounts, with the vaults and the user's accounts
    /// sorted into token A and token B.
    pub open spec fn check_accounts_spec(
        &self,
        trade_direction: TradeDirection,
    ) -> Result<(), TokenSwapError> {
        match trade_direction {
            TradeDirection::AtoB => self.swap_pool.check_accounts_spec(
                self.source_vault.key,
                self.dest_vault.key,
                self.lpmint.key,
                self.token_program,
                Some(self.source_token.key),
                Some(self.dest_token.key),
                Some(self.fee_receiver.key),
            ),
            TradeDirection::BtoA => self.swap_pool.check_accounts_spec(
                self.dest_vault.key,
                self.source_vault.key,
                self.lpmint.key,
                self.token_program,
                Some(self.dest_token.key),
                Some(self.source_token.key),
                Some(self.fee_receiver.key),
            ),
        }
    }

    /// The pool tokens that pay the owner's fee of a swap.
    ///
    /// Without an owner fee nothing is minted. Otherwise the fee is
    /// worth the pool tokens that withdrawing it from the new reserves
    /// would burn. With a host fee account, which must hold pool tokens,
    /// the host's share goes there and the rest to the fee receiver.
    pub open spec fn owner_fee_mints_spec(
        &self,
        swap_curve: SwapCurve,
        result: SwapResult,
        trade_direction: TradeDirection,
    ) -> Result<OwnerFeeMints, TokenSwapError> {
        let (swap_token_a_amount, swap_token_b_amount) = match trade_direction {
            TradeDirection::AtoB => (
                result.new_swap_source_amount,
                result.new_swap_destination_amount,
            ),
            TradeDirection::BtoA => (
                result.new_swap_destination_amount,
                result.new_swap_source_amount,
            ),
        };
        if result.owner_fee == 0 {
            Ok(OwnerFeeMints { host_fee: 0, owner_fee: 0 })
        } else {
            match swap_curve.withdraw_spec(
                result.owner_fee,
                swap_token_a_amount,
                swap_token_b_amount,
                self.lpmint.supply as u128,
                trade_direction,
                self.swap_pool.fees,
            ) {
                None => Err(TokenSwapError::FeeCalculationFailure),
                Some(pool_token_amount) => if pool_token_amount == 0 {
                    Ok(OwnerFeeMints { host_fee: 0, owner_fee: 0 })
                } else {
                    match self.host_fee_receiver {
                        None => match to_u64_spec(pool_token_amount) {
                            None => Err(TokenSwapError::FeeCalculationFailure),
                            Some(owner_fee) => Ok(OwnerFeeMints { host_fee: 0, owner_fee }),
                        },
                        Some(host) => if self.lpmint.key@ != host.mint@ {
                            Err(TokenSwapError::IncorrectPoolMint)
                        } else {
                            match self.swap_pool.fees.host_fee_spec(pool_token_amount) {
                                None => Err(TokenSwapError::FeeCalculationFailure),
                                Some(host_fee) => if host_fee > pool_token_amount {
                                    Err(TokenSwapError::FeeCalculationFailure)
                                } else {
                                    match (
                                        to_u64_spec(host_fee),
                                        to_u64_spec((pool_token_amount - host_fee) as u128),
                                    ) {
                                        (Some(host_fee), Some(owner_fee)) => Ok(
                                            OwnerFeeMints { host_fee, owner_fee },
                                        ),
                                        _ => Err(TokenSwapError::FeeCalculationFailure),
                                    }
                                },
                            }
                        },
                    }
                },
            }
        }
    }

    /// What the swap of `amount_in` moves, or the first reason why it is
    /// refused: a source account of a foreign mint, a wrong account, a
    /// curve that cannot be built, nothing to trade, less out than
    /// `minimum_amount_out`, or a fee that cannot be computed.
    pub open spec fn execute_spec(
        &self,
        amount_in: u64,
        minimum_amount_out: u64,
    ) -> Result<SwapTransfers, TokenSwapError> {
        match self.trade_direction_spec() {
            Err(e) => Err(e),
            Ok(trade_direction) => match self.check_accounts_spec(trade_direction) {
                Err(e) => Err(e),
                Ok(()) => if !self.swap_pool.swap_curve_spec().valid() {
                    Err(TokenSwapError::InvalidCurve)
                } else {
                    match self.swap_pool.swap_curve_spec().swap_spec(
                        amount_in as u128,
                        self.source_vault.amount as u128,
                        self.dest_vault.amount as u128,
                        trade_direction,
                        self.swap_pool.fees,
                    ) {
                        None => Err(TokenSwapError::ZeroTradingTokens),
                        Some(result) => if result.destination_amount_swapped < minimum_amount_out {
                            Err(TokenSwapError::ExceededSlippage)
                        } else {
                            match self.owner_fee_mints_spec(
                                self.swap_pool.swap_curve_spec(),
                                result,
                                trade_direction,
                            ) {
                                Err(e) => Err(e),
                                Ok(mints) => Ok(
                                    SwapTransfers {
                                        trade_direction,
                                        source_amount: amount_in,
                                        host_fee: mints.host_fee,
                                        owner_fee: mints.owner_fee,
                                        destination_amount: result.destination_amount_swapped as u64,
                                    },
                                ),
                            }
                        },
                    }
                },
            },
        }
    }

    /// Which token the swap sells.
    pub fn trade_direction(&self) -> (outcome: Result<TradeDirection, TokenSwapError>)
        ensures
            outcome == self.trade_direction_spec(),
    {
        if self.source_token.mint.same_as(&self.swap_pool.mint_a) {
            Ok(TradeDirection::AtoB)
        } else if self.source_token.mint.same_as(&self.swap_pool.mint_b) {
            Ok(TradeDirection::BtoA)
        } else {
            Err(TokenSwapError::IncorrectSwapAccount)
        }
    }

    /// The pool tokens to mint for the owner's fee of a swap.
    pub fn owner_fee_mints(
        &self,
        swap_curve: &SwapCurve,
        result: &SwapResult,
        trade_direction: TradeDirection,
    ) -> (outcome: Result<OwnerFeeMints, TokenSwapError>)
        ensures
            outcome == self.owner_fee_mints_spec(*swap_curve, *result, trade_direction),
    {
        let (swap_token_a_amount, swap_token_b_amount) = match trade_direction {
            TradeDirection::AtoB => (
                result.new_swap_source_amount,
                result.new_swap_destination_amount,
            ),
            TradeDirection::BtoA => (
                result.new_swap_destination_amount,
                result.new_swap_source_amount,
            ),
        };
        if result.owner_fee == 0 {
            return Ok(OwnerFeeMints { host_fee: 0, owner_fee: 0 });
        }
        let pool_token_amount = match swap_curve.withdraw_single_token_type_exact_out(
            result.owner_fee,
            swap_token_a_amount,
            swap_token_b_amount,
            self.lpmint.supply as u128,
            trade_direction,
            &self.swap_pool.fees,
        ) {
            Some(amount) => amount,
            None => { return Err(TokenSwapError::FeeCalculationFailure); },
        };
        if pool_token_amount == 0 {
            return Ok(OwnerFeeMints { host_fee: 0, owner_fee: 0 });
        }
        let mut host_fee: u128 = 0;
        if let Some(host) = self.host_fee_receiver {
            if !self.lpmint.key.same_as(&host.mint) {
                return Err(TokenSwapError::IncorrectPoolMint);
            }
            host_fee =
            match self.swap_pool.fees.host_fee(pool_token_amount) {
                Some(fee) => fee,
                None => { return Err(TokenSwapError::FeeCalculationFailure); },
            };
        }
        let owner_fee = match pool_token_amount.checked_sub(host_fee) {
            Some(rest) => rest,
            None => { return Err(TokenSwapError::FeeCalculationFailure); },
        };
        match (to_u64(host_fee), to_u64(owner_fee)) {
            (Some(host_fee), Some(owner_fee)) => Ok(OwnerFeeMints { host_fee, owner_fee }),
            _ => Err(TokenSwapError::FeeCalculationFailure),
        }
    }
}

/// Decides a swap of `amount_in` that must give at least
/// `minimum_amount_out`.
pub fn execute(
    accounts: &Swap,
    amount_in: u64,
    minimum_amount_out: u64,
) -> (outcome: Result<SwapTransfers, TokenSwapError>)
    ensures
        outcome == accounts.execute_spec(amount_in, minimum_amount_out),
        outcome is Ok ==> outcome->Ok_0.source_amount == amount_in,
        outcome is Ok ==> minimum_amount_out <= outcome->Ok_0.destination_amount
            <= accounts.dest_vault.amount,
        outcome is Ok ==> outcome->Ok_0.destination_amount > 0,
{
    let trade_direction = accounts.trade_direction()?;

    match trade_direction {
        TradeDirection::AtoB => accounts.swap_pool.check_accounts(
            &accounts.source_vault.key,
            &accounts.dest_vault.key,
            &accounts.lpmint.key,
            &accounts.token_program,
            Some(accounts.source_token.key),
            Some(accounts.dest_token.key),
            Some(accounts.fee_receiver.key),
        )?,
        TradeDirection::BtoA => accounts.swap_pool.check_accounts(
            &accounts.dest_vault.key,
            &accounts.source_vault.key,
            &accounts.lpmint.key,
            &accounts.token_program,
            Some(accounts.dest_token.key),
            Some(accounts.source_token.key),
            Some(accounts.fee_receiver.key),
        )?,
    };

    // Calculate the trade amounts
    let swap_curve = accounts.swap_pool.swap_curve()?;
    let result = match swap_curve.swap(
        amount_in as u128,
        accounts.source_vault.amount as u128,
        accounts.dest_vault.amount as u128,
        trade_direction,
        &accounts.swap_pool.fees,
    ) {
        Some(result) => result,
        None => { return Err(TokenSwapError::ZeroTradingTokens); },
    };

    if result.destination_amount_swapped < minimum_amount_out as u128 {
        return Err(TokenSwapError::ExceededSlippage);
    }
    let source_amount = match to_u64(result.source_amount_swapped) {
        Some(amount) => amount,
        None => { return Err(TokenSwapError::CalculationFailure); },
    };
    let mints = accounts.owner_fee_mints(&swap_curve, &result, trade_direction)?;
    let destination_amount = match to_u64(result.destination_amount_swapped) {
        Some(amount) => amount,
        None => { return Err(TokenSwapError::CalculationFailure); },
    };
    Ok(
        SwapTransfers {
            trade_direction,
            source_amount,
            host_fee: mints.host_fee,
            owner_fee: mints.owner_fee,
            destination_amount,
        },
    )
}

} // verus!
