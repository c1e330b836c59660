//! A flat curve: token B always trades at a fixed price in token A.

use crate::curve::calculator::{
    div_ceil, div_round, div_round_spec, lemma_div_ceil, map_zero_to_none,
    pool_tokens_to_trading_tokens, CurveCalculator, INITIAL_SWAP_POOL_AMOUNT,
};
use crate::errors::TokenSwapError;
use crate::types::{RoundDirection, SwapWithoutFeesResult, TradeDirection, TradingTokenResult};
use vstd::prelude::*;

verus! {

/// ConstantPriceCurve struct implementing CurveCalculator
#[derive(Clone, Copy, Debug, PartialEq, Eq, Structural)]
pub struct ConstantPriceCurve {
    /// Amount of token A required to get 1 token B
    pub token_b_price: u64,
}

/// `source_amount` at the fixed rate: token A buys `source_amount /
/// token_b_price` of token B, token B buys `source_amount * token_b_price`
/// of token A. Absent for a zero price when buying B, or where the product
/// leaves 128 bits.
pub open spec fn convert_spec(
    token_b_price: u64,
    source_amount: u128,
    trade_direction: TradeDirection,
) -> Option<u128> {
    match trade_direction {
        TradeDirection::AtoB => if token_b_price == 0 {
            None
        } else {
            Some((source_amount as int / token_b_price as int) as u128)
        },
        TradeDirection::BtoA => if source_amount * token_b_price > u128::MAX {
            None
        } else {
            Some((source_amount * token_b_price) as u128)
        },
    }
}

/// A swap at the fixed rate. The whole `source_amount` goes in; what
/// comes out is the converted amount, capped at the destination reserve.
/// There is no swap where nothing would come out.
pub open spec fn swap_without_fees_spec(
    token_b_price: u64,
    source_amount: u128,
    swap_destination_amount: u128,
    trade_direction: TradeDirection,
) -> Option<SwapWithoutFeesResult> {
    match convert_spec(token_b_price, source_amount, trade_direction) {
        Some(converted) => {
            let destination_amount_swapped = if converted <= swap_destination_amount {
                converted
            } else {
                swap_destination_amount
            };
            if destination_amount_swapped == 0 {
                None
            } else {
                Some(
                    SwapWithoutFeesResult {
                        source_amount_swapped: source_amount,
                        destination_amount_swapped,
                    },
                )
            }
        },
        None => None,
    }
}

/// The value of an amount of one token, counted in token A.
pub open spec fn value_in_a_spec(
    token_b_price: u64,
    amount: u128,
    trade_direction: TradeDirection,
) -> Option<u128> {
    match trade_direction {
        TradeDirection::AtoB => Some(amount),
        TradeDirection::BtoA => if amount * token_b_price > u128::MAX {
            None
        } else {
            Some((amount * token_b_price) as u128)
        },
    }
}

/// The value of both reserves together, counted in token A.
pub open spec fn total_value_spec(
    token_b_price: u64,
    swap_token_a_amount: u128,
    swap_token_b_amount: u128,
) -> Option<u128> {
    if swap_token_b_amount * token_b_price + swap_token_a_amount > u128::MAX {
        None
    } else {
        Some((swap_token_b_amount * token_b_price + swap_token_a_amount) as u128)
    }
}

/// The pool tokens that an amount of one token is worth: the pool supply
/// times the amount's share of the pool's total value, rounded in the
/// given direction.
pub open spec fn trading_tokens_to_pool_tokens_spec(
    token_b_price: u64,
    source_amount: u128,
    swap_token_a_amount: u128,
    swap_token_b_amount: u128,
    pool_supply: u128,
    trade_direction: TradeDirection,
    round_direction: RoundDirection,
) -> Option<u128> {
    match (
        value_in_a_spec(token_b_price, source_amount, trade_direction),
        total_value_spec(token_b_price, swap_token_a_amount, swap_token_b_amount),
    ) {
        (Some(given_value), Some(total_value)) => if pool_supply * given_value > u128::MAX {
            None
        } else {
            div_round_spec((pool_supply * given_value) as u128, total_value, round_direction)
        },
        _ => None,
    }
}

/// Get the amount of pool tokens for the given amount of token A or B.
///
/// The constant price curve values the pool at the sum of its token A
/// and the price of its token B.
pub fn trading_tokens_to_pool_tokens(
    token_b_price: u64,
    source_amount: u128,
    swap_token_a_amount: u128,
    swap_token_b_amount: u128,
    pool_supply: u128,
    trade_direction: TradeDirection,
    round_direction: RoundDirection,
) -> (tokens: Option<u128>)
    ensures
        tokens == trading_tokens_to_pool_tokens_spec(
            token_b_price,
            source_amount,
            swap_token_a_amount,
            swap_token_b_amount,
            pool_supply,
            trade_direction,
            round_direction,
        ),
{
    let token_b_price = token_b_price as u128;
    let given_value = match trade_direction {
        TradeDirection::AtoB => source_amount,
        TradeDirection::BtoA => source_amount.checked_mul(token_b_price)?,
    };
    let total_value = swap_token_b_amount.checked_mul(token_b_price)?.checked_add(
        swap_token_a_amount,
    )?;
    div_round(pool_supply.checked_mul(given_value)?, total_value, round_direction)
}

/// The reserves after `amount` of one token has been put in.
pub open spec fn reserves_after_deposit(
    amount: u128,
    swap_token_a_amount: u128,
    swap_token_b_amount: u128,
    trade_direction: TradeDirection,
) -> (int, int) {
    match trade_direction {
        TradeDirection::AtoB => (swap_token_a_amount + amount, swap_token_b_amount as int),
        TradeDirection::BtoA => (swap_token_a_amount as int, swap_token_b_amount + amount),
    }
}

/// At a fixed price nobody gains pool tokens by going in and out: taking
/// out of the grown pool what was just put in, rounded up, costs at least
/// the pool tokens that putting it in gave, rounded down.
pub proof fn lemma_round_trip_gains_nothing(
    token_b_price: u64,
    amount: u128,
    swap_token_a_amount: u128,
    swap_token_b_amount: u128,
    pool_supply: u128,
    trade_direction: TradeDirection,
)
    requires
        trading_tokens_to_pool_tokens_spec(
            token_b_price,
            amount,
            swap_token_a_amount,
            swap_token_b_amount,
            pool_supply,
            trade_direction,
            RoundDirection::Floor,
        ) is Some,
        ({
            let minted = trading_tokens_to_pool_tokens_spec(
                token_b_price,
                amount,
                swap_token_a_amount,
                swap_token_b_amount,
                pool_supply,
                trade_direction,
                RoundDirection::Floor,
            )->0;
            let (token_a_after, token_b_after) = reserves_after_deposit(
                amount,
                swap_token_a_amount,
                swap_token_b_amount,
                trade_direction,
            );
            &&& token_a_after <= u128::MAX
            &&& token_b_after <= u128::MAX
            &&& pool_supply + minted <= u128::MAX
            &&& trading_tokens_to_pool_tokens_spec(
                token_b_price,
                amount,
                token_a_after as u128,
                token_b_after as u128,
                (pool_supply + minted) as u128,
                trade_direction,
                RoundDirection::Ceiling,
            ) is Some
        }),
    ensures
        ({
            let minted = trading_tokens_to_pool_tokens_spec(
                token_b_price,
                amount,
                swap_token_a_amount,
                swap_token_b_amount,
                pool_supply,
                trade_direction,
                RoundDirection::Floor,
            )->0;
            let (token_a_after, token_b_after) = reserves_after_deposit(
                amount,
                swap_token_a_amount,
                swap_token_b_amount,
                trade_direction,
            );
            trading_tokens_to_pool_tokens_spec(
                token_b_price,
                amount,
                token_a_after as u128,
                token_b_after as u128,
                (pool_supply + minted) as u128,
                trade_direction,
                RoundDirection::Ceiling,
            )->0 >= minted
        }),
{
    let minted = trading_tokens_to_pool_tokens_spec(
        token_b_price,
        amount,
        swap_token_a_amount,
        swap_token_b_amount,
        pool_supply,
        trade_direction,
        RoundDirection::Floor,
    )->0 as int;
    let (token_a_after, token_b_after) = reserves_after_deposit(
        amount,
        swap_token_a_amount,
        swap_token_b_amount,
        trade_direction,
    );
    let burned = trading_tokens_to_pool_tokens_spec(
        token_b_price,
        amount,
        token_a_after as u128,
        token_b_after as u128,
        (pool_supply + minted) as u128,
        trade_direction,
        RoundDirection::Ceiling,
    )->0 as int;
    let price = token_b_price as int;
    let value = value_in_a_spec(token_b_price, amount, trade_direction)->0 as int;
    let total = total_value_spec(token_b_price, swap_token_a_amount, swap_token_b_amount)->0 as int;
    let total_after = total_value_spec(
        token_b_price,
        token_a_after as u128,
        token_b_after as u128,
    )->0 as int;
    let supply = pool_supply as int;
    // the pool grows by the value put in
    assert(total_after == total + value) by (nonlinear_arith)
        requires
            total == swap_token_b_amount * price + swap_token_a_amount,
            total_after == token_b_after * price + token_a_after,
            (token_a_after == swap_token_a_amount + amount && token_b_after == swap_token_b_amount
                && value == amount) || (token_a_after == swap_token_a_amount && token_b_after
                == swap_token_b_amount + amount && value == amount * price),
    ;
    assert(supply * value >= 0 && (supply + minted) * value >= 0) by (nonlinear_arith)
        requires
            supply >= 0,
            value >= 0,
            minted >= 0,
    ;
    // minted is a floor, burned is a ceiling
    vstd::arithmetic::div_mod::lemma_fundamental_div_mod(supply * value, total);
    assert(0 <= (supply * value) % total) by (nonlinear_arith)
        requires
            total > 0,
    ;
    assert(minted == supply * value / total);
    assert(total * minted <= supply * value);
    lemma_div_ceil((supply + minted) * value, total_after);
    assert(burned == div_ceil((supply + minted) * value, total_after));
    assert(burned >= minted) by (nonlinear_arith)
        requires
            (supply + minted) * value <= burned * total_after,
            total * minted <= supply * value,
            total_after == total + value,
            total > 0,
            value >= 0,
            minted >= 0,
    ;
}

impl CurveCalculator for ConstantPriceCurve {
    open spec fn swap_without_fees_spec(
        &self,
        source_amount: u128,
        swap_source_amount: u128,
        swap_destination_amount: u128,
        trade_direction: TradeDirection,
    ) -> Option<SwapWithoutFeesResult> {
        swap_without_fees_spec(
            self.token_b_price,
            source_amount,
            swap_destination_amount,
            trade_direction,
        )
    }

    /// One-sided deposits round down.
    open spec fn deposit_single_token_type_spec(
        &self,
        source_amount: u128,
        swap_token_a_amount: u128,
        swap_token_b_amount: u128,
        pool_supply: u128,
        trade_direction: TradeDirection,
    ) -> Option<u128> {
        trading_tokens_to_pool_tokens_spec(
            self.token_b_price,
            source_amount,
            swap_token_a_amount,
            swap_token_b_amount,
            pool_supply,
            trade_direction,
            RoundDirection::Floor,
        )
    }

    open spec fn withdraw_single_token_type_exact_out_spec(
        &self,
        source_amount: u128,
        swap_token_a_amount: u128,
        swap_token_b_amount: u128,
        pool_supply: u128,
        trade_direction: TradeDirection,
        round_direction: RoundDirection,
    ) -> Option<u128> {
        trading_tokens_to_pool_tokens_spec(
            self.token_b_price,
            source_amount,
            swap_token_a_amount,
            swap_token_b_amount,
            pool_supply,
            trade_direction,
            round_direction,
        )
    }

    /// The price must not be zero.
    open spec fn valid(&self) -> bool {
        self.token_b_price != 0
    }

    /// A new pool must hold token A; it may start without token B.
    open spec fn valid_supply(&self, token_a_amount: u64, token_b_amount: u64) -> bool {
        token_a_amount != 0
    }

    open spec fn deposits_allowed(&self) -> bool {
        true
    }

    open spec fn withdrawals_allowed(&self) -> bool {
        true
    }

    /// Constant price curve always trades at the fixed rate
    fn swap_without_fees(
        &self,
        source_amount: u128,
        swap_source_amount: u128,
        swap_destination_amount: u128,
        trade_direction: TradeDirection,
    ) -> (result: Option<SwapWithoutFeesResult>) {
        let token_b_price = self.token_b_price as u128;
        let converted = match trade_direction {
            TradeDirection::BtoA => source_amount.checked_mul(token_b_price)?,
            TradeDirection::AtoB => source_amount.checked_div(token_b_price)?,
        };
        let available = if converted <= swap_destination_amount {
            converted
        } else {
            swap_destination_amount
        };
        let destination_amount_swapped = map_zero_to_none(available)?;
        Some(
            SwapWithoutFeesResult {
                source_amount_swapped: source_amount,
                destination_amount_swapped,
            },
        )
    }

    fn new_pool_supply(&self) -> (supply: u128) {
        INITIAL_SWAP_POOL_AMOUNT
    }

    fn pool_tokens_to_trading_tokens(
        &self,
        pool_tokens: u128,
        pool_token_supply: u128,
        swap_token_a_amount: u128,
        swap_token_b_amount: u128,
        round_direction: RoundDirection,
    ) -> (amounts: Option<TradingTokenResult>) {
        pool_tokens_to_trading_tokens(
            pool_tokens,
            pool_token_supply,
            swap_token_a_amount,
            swap_token_b_amount,
            round_direction,
        )
    }

    fn deposit_single_token_type(
        &self,
        source_amount: u128,
        swap_token_a_amount: u128,
        swap_token_b_amount: u128,
        pool_supply: u128,
        trade_direction: TradeDirection,
    ) -> (tokens: Option<u128>) {
        trading_tokens_to_pool_tokens(
            self.token_b_price,
            source_amount,
            swap_token_a_amount,
            swap_token_b_amount,
            pool_supply,
            trade_direction,
            RoundDirection::Floor,
        )
    }

    fn withdraw_single_token_type_exact_out(
        &self,
        source_amount: u128,
        swap_token_a_amount: u128,
        swap_token_b_amount: u128,
        pool_supply: u128,
        trade_direction: TradeDirection,
        round_direction: RoundDirection,
    ) -> (tokens: Option<u128>) {
        trading_tokens_to_pool_tokens(
            self.token_b_price,
            source_amount,
            swap_token_a_amount,
            swap_token_b_amount,
            pool_supply,
            trade_direction,
            round_direction,
        )
    }

    fn validate(&self) -> (outcome: Result<(), TokenSwapError>) {
        if self.token_b_price == 0 {
            Err(TokenSwapError::InvalidCurve)
        } else {
            Ok(())
        }
    }

    fn validate_supply(
        &self,
        token_a_amount: u64,
        token_b_amount: u64,
    ) -> (outcome: Result<(), TokenSwapError>) {
        if token_a_amount == 0 {
            return Err(TokenSwapError::EmptySupply);
        }
        Ok(())
    }

    fn allows_deposits(&self) -> (allowed: bool) {
        true
    }

    fn allows_withdrawals(&self) -> (allowed: bool) {
        true
    }
}

} // verus!
