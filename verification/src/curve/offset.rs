//! The constant product curve with a virtual amount added to the token B
//! reserve when prices are set.

use crate::curve::calculator::{
    map_zero_to_none, pool_tokens_to_trading_tokens, CurveCalculator, INITIAL_SWAP_POOL_AMOUNT,
};
use crate::curve::constant_product;
use crate::errors::TokenSwapError;
use crate::types::{RoundDirection, SwapWithoutFeesResult, TradeDirection, TradingTokenResult};
use vstd::prelude::*;

verus! {

/// Offset curve, uses ConstantProduct under the hood, but adds an offset to
/// one side on swap calculations
#[derive(Clone, Copy, Debug, PartialEq, Eq, Structural)]
pub struct OffsetCurve {
    /// Amount to offset the token B liquidity account
    pub token_b_offset: u64,
}

/// The source reserve that sets the price: the real one, plus the offset
/// where token B is sold.
pub open spec fn priced_source_spec(
    token_b_offset: u64,
    swap_source_amount: u128,
    trade_direction: TradeDirection,
) -> int {
    match trade_direction {
        TradeDirection::AtoB => swap_source_amount as int,
        TradeDirection::BtoA => swap_source_amount + token_b_offset,
    }
}

/// The destination reserve that sets the price: the real one, plus the
/// offset where token B is bought.
pub open spec fn priced_destination_spec(
    token_b_offset: u64,
    swap_destination_amount: u128,
    trade_direction: TradeDirection,
) -> int {
    match trade_direction {
        TradeDirection::AtoB => swap_destination_amount + token_b_offset,
        TradeDirection::BtoA => swap_destination_amount as int,
    }
}

/// A constant product swap on the reserves with the offset added to token
/// B. The whole `source_amount` goes in; what comes out is capped at the
/// real destination reserve. There is no swap where a priced reserve leaves
/// 128 bits or where nothing would come out.
pub open spec fn swap_without_fees_spec(
    token_b_offset: u64,
    source_amount: u128,
    swap_source_amount: u128,
    swap_destination_amount: u128,
    trade_direction: TradeDirection,
) -> Option<SwapWithoutFeesResult> {
    let priced_source = priced_source_spec(token_b_offset, swap_source_amount, trade_direction);
    let priced_destination = priced_destination_spec(
        token_b_offset,
        swap_destination_amount,
        trade_direction,
    );
    if priced_source > u128::MAX || priced_destination > u128::MAX {
        None
    } else {
        match constant_product::swap_spec(
            source_amount,
            priced_source as u128,
            priced_destination as u128,
        ) {
            Some(priced) => {
                let destination_amount_swapped = if priced.destination_amount_swapped
                    <= swap_destination_amount {
                    priced.destination_amount_swapped
                } else {
                    swap_destination_amount
                };
                if destination_amount_swapped == 0 {
                    None
                } else {
                    Some(
                        SwapWithoutFeesResult {
                            source_amount_swapped: source_amount,
                            destination_amount_swapped,
                        },
                    )
                }
            },
            None => None,
        }
    }
}

/// Pool tokens burned for withdrawing exactly `source_amount` of one
/// token: the constant product amount on the reserves with the offset
/// added to token B.
pub open spec fn withdraw_single_token_type_exact_out_spec(
    token_b_offset: u64,
    source_amount: u128,
    swap_token_a_amount: u128,
    swap_token_b_amount: u128,
    pool_supply: u128,
    trade_direction: TradeDirection,
    round_direction: RoundDirection,
) -> Option<u128> {
    if swap_token_b_amount + token_b_offset > u128::MAX {
        None
    } else {
        constant_product::withdraw_single_token_type_exact_out_spec(
            source_amount,
            swap_token_a_amount,
            (swap_token_b_amount + token_b_offset) as u128,
            pool_supply,
            trade_direction,
            round_direction,
        )
    }
}

impl CurveCalculator for OffsetCurve {
    open spec fn swap_without_fees_spec(
        &self,
        source_amount: u128,
        swap_source_amount: u128,
        swap_destination_amount: u128,
        trade_direction: TradeDirection,
    ) -> Option<SwapWithoutFeesResult> {
        swap_without_fees_spec(
            self.token_b_offset,
            source_amount,
            swap_source_amount,
            swap_destination_amount,
            trade_direction,
        )
    }

    /// The offset curve takes no deposits: there is never an amount of
    /// pool tokens to issue.
    open spec fn deposit_single_token_type_spec(
        &self,
        source_amount: u128,
        swap_token_a_amount: u128,
        swap_token_b_amount: u128,
        pool_supply: u128,
        trade_direction: TradeDirection,
    ) -> Option<u128> {
        None
    }

    open spec fn withdraw_single_token_type_exact_out_spec(
        &self,
        source_amount: u128,
        swap_token_a_amount: u128,
        swap_token_b_amount: u128,
        pool_supply: u128,
        trade_direction: TradeDirection,
        round_direction: RoundDirection,
    ) -> Option<u128> {
        withdraw_single_token_type_exact_out_spec(
            self.token_b_offset,
            source_amount,
            swap_token_a_amount,
            swap_token_b_amount,
            pool_supply,
            trade_direction,
            round_direction,
        )
    }

    /// The offset must not be zero.
    open spec fn valid(&self) -> bool {
        self.token_b_offset != 0
    }

    /// A new pool must hold token A; the offset stands in for token B, so
    /// that reserve may start empty.
    open spec fn valid_supply(&self, token_a_amount: u64, token_b_amount: u64) -> bool {
        token_a_amount != 0
    }

    /// With outside deposits, whoever set up the pool could redeem pool
    /// tokens for token B that the offset only pretended was there.
    open spec fn deposits_allowed(&self) -> bool {
        false
    }

    open spec fn withdrawals_allowed(&self) -> bool {
        true
    }

    /// Constant product swap ensures token a * (token b + offset) = constant
    fn swap_without_fees(
        &self,
        source_amount: u128,
        swap_source_amount: u128,
        swap_destination_amount: u128,
        trade_direction: TradeDirection,
    ) -> (result: Option<SwapWithoutFeesResult>) {
        let token_b_offset = self.token_b_offset as u128;
        let priced_source = match trade_direction {
            TradeDirection::AtoB => swap_source_amount,
            TradeDirection::BtoA => swap_source_amount.checked_add(token_b_offset)?,
        };
        let priced_destination = match trade_direction {
            TradeDirection::AtoB => swap_destination_amount.checked_add(token_b_offset)?,
            TradeDirection::BtoA => swap_destination_amount,
        };
        let priced = constant_product::swap(source_amount, priced_source, priced_destination)?;
        let available = if priced.destination_amount_swapped <= swap_destination_amount {
            priced.destination_amount_swapped
        } else {
            swap_destination_amount
        };
        let destination_amount_swapped = map_zero_to_none(available)?;
        Some(
            SwapWithoutFeesResult {
                source_amount_swapped: source_amount,
                destination_amount_swapped,
            },
        )
    }

    fn new_pool_supply(&self) -> (supply: u128) {
        INITIAL_SWAP_POOL_AMOUNT
    }

    fn pool_tokens_to_trading_tokens(
        &self,
        pool_tokens: u128,
        pool_token_supply: u128,
        swap_token_a_amount: u128,
        swap_token_b_amount: u128,
        round_direction: RoundDirection,
    ) -> (amounts: Option<TradingTokenResult>) {
        pool_tokens_to_trading_tokens(
            pool_tokens,
            pool_token_supply,
            swap_token_a_amount,
            swap_token_b_amount,
            round_direction,
        )
    }

    fn deposit_single_token_type(
        &self,
        source_amount: u128,
        swap_token_a_amount: u128,
        swap_token_b_amount: u128,
        pool_supply: u128,
        trade_direction: TradeDirection,
    ) -> (tokens: Option<u128>) {
        None
    }

    fn withdraw_single_token_type_exact_out(
        &self,
        source_amount: u128,
        swap_token_a_amount: u128,
        swap_token_b_amount: u128,
        pool_supply: u128,
        trade_direction: TradeDirection,
        round_direction: RoundDirection,
    ) -> (tokens: Option<u128>) {
        let token_b_offset = self.token_b_offset as u128;
        constant_product::withdraw_single_token_type_exact_out(
            source_amount,
            swap_token_a_amount,
            swap_token_b_amount.checked_add(token_b_offset)?,
            pool_supply,
            trade_direction,
            round_direction,
        )
    }

    fn validate(&self) -> (outcome: Result<(), TokenSwapError>) {
        if self.token_b_offset == 0 {
            Err(TokenSwapError::InvalidCurve)
        } else {
            Ok(())
        }
    }

    fn validate_supply(
        &self,
        token_a_amount: u64,
        token_b_amount: u64,
    ) -> (outcome: Result<(), TokenSwapError>) {
        if token_a_amount == 0 {
            return Err(TokenSwapError::EmptySupply);
        }
        Ok(())
    }

    fn allows_deposits(&self) -> (allowed: bool) {
        false
    }

    fn allows_withdrawals(&self) -> (allowed: bool) {
        true
    }
}

} // verus!
