//! What every pricing curve shares: the initial pool supply, rounding
//! division and the pro-rata split of pool tokens into trading tokens.

use crate::errors::TokenSwapError;
use crate::types::{RoundDirection, SwapWithoutFeesResult, TradeDirection, TradingTokenResult};
use vstd::arithmetic::div_mod::{lemma_fundamental_div_mod, lemma_fundamental_div_mod_converse};
use vstd::prelude::*;

verus! {

/// Initial amount of pool tokens for swap contract, hard-coded to something
/// "sensible" given a maximum of u128.
pub const INITIAL_SWAP_POOL_AMOUNT: u128 = 1_000_000_000;

/// An amount of zero stands for "nothing to trade".
pub open spec fn map_zero_to_none_spec(x: u128) -> Option<u128> {
    if x == 0 {
        None
    } else {
        Some(x)
    }
}

/// `dividend / divisor` rounded up, as a mathematical integer.
pub open spec fn div_ceil(dividend: int, divisor: int) -> int {
    (dividend + divisor - 1) / divisor
}

/// `dividend / divisor` rounded in the given direction; absent for a zero
/// divisor.
pub open spec fn div_round_spec(
    dividend: u128,
    divisor: u128,
    round_direction: RoundDirection,
) -> Option<u128> {
    if divisor == 0 {
        None
    } else {
        match round_direction {
            RoundDirection::Floor => Some((dividend as int / divisor as int) as u128),
            RoundDirection::Ceiling => Some(div_ceil(dividend as int, divisor as int) as u128),
        }
    }
}

/// `pool_tokens * swap_token_amount / pool_token_supply`, rounded in the
/// given direction: the share of one reserve that `pool_tokens` stand for.
/// Absent where the product leaves 128 bits or the supply is zero.
pub open spec fn pro_rata_spec(
    pool_tokens: u128,
    pool_token_supply: u128,
    swap_token_amount: u128,
    round_direction: RoundDirection,
) -> Option<u128> {
    if pool_tokens * swap_token_amount > u128::MAX {
        None
    } else {
        div_round_spec(
            (pool_tokens * swap_token_amount) as u128,
            pool_token_supply,
            round_direction,
        )
    }
}

/// The amounts of token A and token B that `pool_tokens` stand for, each
/// the pro-rata share of its reserve.
pub open spec fn pool_tokens_to_trading_tokens_spec(
    pool_tokens: u128,
    pool_token_supply: u128,
    swap_token_a_amount: u128,
    swap_token_b_amount: u128,
    round_direction: RoundDirection,
) -> Option<TradingTokenResult> {
    match (
        pro_rata_spec(pool_tokens, pool_token_supply, swap_token_a_amount, round_direction),
        pro_rata_spec(pool_tokens, pool_token_supply, swap_token_b_amount, round_direction),
    ) {
        (Some(token_a_amount), Some(token_b_amount)) => Some(
            TradingTokenResult { token_a_amount, token_b_amount },
        ),
        _ => None,
    }
}

/// What every pricing curve computes.
///
/// Each curve says in its spec functions what its swap and its one-sided
/// conversions return; the rest of the contract is the same for all of
/// them: a swap takes in the whole source amount and never hands out more
/// than the destination reserve, pool tokens stand for a pro-rata share of
/// both reserves, and a new pool starts with the same supply.
pub trait CurveCalculator {
    /// What `swap_without_fees` returns.
    spec fn swap_without_fees_spec(
        &self,
        source_amount: u128,
        swap_source_amount: u128,
        swap_destination_amount: u128,
        trade_direction: TradeDirection,
    ) -> Option<SwapWithoutFeesResult>;

    /// What `deposit_single_token_type` returns.
    spec fn deposit_single_token_type_spec(
        &self,
        source_amount: u128,
        swap_token_a_amount: u128,
        swap_token_b_amount: u128,
        pool_supply: u128,
        trade_direction: TradeDirection,
    ) -> Option<u128>;

    /// What `withdraw_single_token_type_exact_out` returns.
    spec fn withdraw_single_token_type_exact_out_spec(
        &self,
        source_amount: u128,
        swap_token_a_amount: u128,
        swap_token_b_amount: u128,
        pool_supply: u128,
        trade_direction: TradeDirection,
        round_direction: RoundDirection,
    ) -> Option<u128>;

    /// The curve's parameters make sense.
    spec fn valid(&self) -> bool;

    /// A new pool may start with these reserves.
    spec fn valid_supply(&self, token_a_amount: u64, token_b_amount: u64) -> bool;

    /// Outside users may deposit into a pool on this curve.
    spec fn deposits_allowed(&self) -> bool;

    /// Outside users may withdraw from a pool on this curve.
    spec fn withdrawals_allowed(&self) -> bool;

    /// Calculate how much destination token will be provided given an amount
    /// of source token.
    fn swap_without_fees(
        &self,
        source_amount: u128,
        swap_source_amount: u128,
        swap_destination_amount: u128,
        trade_direction: TradeDirection,
    ) -> (result: Option<SwapWithoutFeesResult>)
        ensures
            result == self.swap_without_fees_spec(
                source_amount,
                swap_source_amount,
                swap_destination_amount,
                trade_direction,
            ),
            result is Some ==> result->0.source_amount_swapped == source_amount,
            result is Some ==> 0 < result->0.destination_amount_swapped <= swap_destination_amount,
    ;

    /// Get the supply for a new pool
    /// The default implementation is a Balancer-style fixed initial supply
    fn new_pool_supply(&self) -> (supply: u128)
        ensures
            supply == INITIAL_SWAP_POOL_AMOUNT,
    ;

    /// Get the amount of trading tokens for the given amount of pool tokens,
    /// provided the total trading tokens and supply of pool tokens.
    fn pool_tokens_to_trading_tokens(
        &self,
        pool_tokens: u128,
        pool_token_supply: u128,
        swap_token_a_amount: u128,
        swap_token_b_amount: u128,
        round_direction: RoundDirection,
    ) -> (amounts: Option<TradingTokenResult>)
        ensures
            amounts == pool_tokens_to_trading_tokens_spec(
                pool_tokens,
                pool_token_supply,
                swap_token_a_amount,
                swap_token_b_amount,
                round_direction,
            ),
    ;

    /// Get the amount of pool tokens for the deposited amount of token A or B.
    ///
    /// This is used for single-sided deposits.  It essentially performs a swap
    /// followed by a deposit.  Because a swap is implicitly performed, this will
    /// change the spot price of the pool.
    fn deposit_single_token_type(
        &self,
        source_amount: u128,
        swap_token_a_amount: u128,
        swap_token_b_amount: u128,
        pool_supply: u128,
        trade_direction: TradeDirection,
    ) -> (tokens: Option<u128>)
        ensures
            tokens == self.deposit_single_token_type_spec(
                source_amount,
                swap_token_a_amount,
                swap_token_b_amount,
                pool_supply,
                trade_direction,
            ),
    ;

    /// Get the amount of pool tokens for the withdrawn amount of token A or B.
    ///
    /// This is used for single-sided withdrawals and owner trade fee
    /// calculation. It essentially performs a withdrawal followed by a swap.
    fn withdraw_single_token_type_exact_out(
        &self,
        source_amount: u128,
        swap_token_a_amount: u128,
        swap_token_b_amount: u128,
        pool_supply: u128,
        trade_direction: TradeDirection,
        round_direction: RoundDirection,
    ) -> (tokens: Option<u128>)
        ensures
            tokens == self.withdraw_single_token_type_exact_out_spec(
                source_amount,
                swap_token_a_amount,
                swap_token_b_amount,
                pool_supply,
                trade_direction,
                round_direction,
            ),
    ;

    /// Validate that the given curve has no invalid parameters
    fn validate(&self) -> (outcome: Result<(), TokenSwapError>)
        ensures
            outcome is Ok <==> self.valid(),
            outcome is Err ==> outcome == Err::<(), TokenSwapError>(TokenSwapError::InvalidCurve),
    ;

    /// Validate the given supply on initialization. This is useful for curves
    /// that allow zero supply on one or both sides, since the standard constant
    /// product curve must have a non-zero supply on both sides.
    fn validate_supply(
        &self,
        token_a_amount: u64,
        token_b_amount: u64,
    ) -> (outcome: Result<(), TokenSwapError>)
        ensures
            outcome is Ok <==> self.valid_supply(token_a_amount, token_b_amount),
            outcome is Err ==> outcome == Err::<(), TokenSwapError>(TokenSwapError::EmptySupply),
    ;

    /// Some curves function best and prevent attacks if we prevent deposits
    /// after initialization.
    fn allows_deposits(&self) -> (allowed: bool)
        ensures
            allowed == self.deposits_allowed(),
    ;

    /// Whether pool tokens may be redeemed on this curve.
    fn allows_withdrawals(&self) -> (allowed: bool)
        ensures
            allowed == self.withdrawals_allowed(),
    ;
}

/// The ceiling of a quotient is the floor, plus one where a remainder is
/// left; it lies between the quotient and the dividend.
pub proof fn lemma_div_ceil(dividend: int, divisor: int)
    requires
        0 <= dividend,
        0 < divisor,
    ensures
        div_ceil(dividend, divisor) == dividend / divisor + if dividend % divisor > 0 {
            1int
        } else {
            0int
        },
        dividend / divisor <= div_ceil(dividend, divisor) <= dividend,
        dividend <= div_ceil(dividend, divisor) * divisor < dividend + divisor,
{
    let q = dividend / divisor;
    let r = dividend % divisor;
    lemma_fundamental_div_mod(dividend, divisor);
    assert(0 <= r < divisor) by (nonlinear_arith)
        requires
            r == dividend % divisor,
            0 < divisor,
    ;
    assert(0 <= q) by (nonlinear_arith)
        requires
            q == dividend / divisor,
            0 <= dividend,
            0 < divisor,
    ;
    assert(q * divisor == divisor * q) by (nonlinear_arith);
    assert((q + 1) * divisor == q * divisor + divisor) by (nonlinear_arith);
    assert(q <= q * divisor) by (nonlinear_arith)
        requires
            0 <= q,
            1 <= divisor,
    ;
    if r > 0 {
        lemma_fundamental_div_mod_converse(dividend + divisor - 1, divisor, q + 1, r - 1);
    } else {
        lemma_fundamental_div_mod_converse(dividend + divisor - 1, divisor, q, divisor - 1);
    }
}

/// Rounding up never gives less than rounding down, and at most one more:
/// a share that is rounded up favours the pool by less than one token.
pub proof fn lemma_ceiling_is_floor_or_one_more(
    pool_tokens: u128,
    pool_token_supply: u128,
    swap_token_amount: u128,
)
    requires
        pro_rata_spec(pool_tokens, pool_token_supply, swap_token_amount, RoundDirection::Floor)
            is Some,
    ensures
        pro_rata_spec(pool_tokens, pool_token_supply, swap_token_amount, RoundDirection::Ceiling)
            is Some,
        ({
            let floor = pro_rata_spec(
                pool_tokens,
                pool_token_supply,
                swap_token_amount,
                RoundDirection::Floor,
            )->0;
            let ceiling = pro_rata_spec(
                pool_tokens,
                pool_token_supply,
                swap_token_amount,
                RoundDirection::Ceiling,
            )->0;
            floor <= ceiling <= floor + 1
        }),
{
    assert(pool_tokens * swap_token_amount >= 0) by (nonlinear_arith);
    lemma_div_ceil(pool_tokens * swap_token_amount, pool_token_supply as int);
}

/// Helper function for mapping to "nothing to trade"
pub fn map_zero_to_none(x: u128) -> (amount: Option<u128>)
    ensures
        amount == map_zero_to_none_spec(x),
{
    if x == 0 {
        None
    } else {
        Some(x)
    }
}

/// Divides, rounding down or up as asked.
pub fn div_round(
    dividend: u128,
    divisor: u128,
    round_direction: RoundDirection,
) -> (quotient: Option<u128>)
    ensures
        quotient == div_round_spec(dividend, divisor, round_direction),
{
    if divisor == 0 {
        return None;
    }
    let quotient = dividend / divisor;
    proof {
        lemma_div_ceil(dividend as int, divisor as int);
    }
    match round_direction {
        RoundDirection::Floor => Some(quotient),
        RoundDirection::Ceiling => {
            if dividend % divisor > 0 {
                Some(quotient + 1)
            } else {
                Some(quotient)
            }
        },
    }
}

/// Get the amount of trading tokens for the given amount of pool tokens,
/// provided the total trading tokens and supply of pool tokens.
pub fn pool_tokens_to_trading_tokens(
    pool_tokens: u128,
    pool_token_supply: u128,
    swap_token_a_amount: u128,
    swap_token_b_amount: u128,
    round_direction: RoundDirection,
) -> (amounts: Option<TradingTokenResult>)
    ensures
        amounts == pool_tokens_to_trading_tokens_spec(
            pool_tokens,
            pool_token_supply,
            swap_token_a_amount,
            swap_token_b_amount,
            round_direction,
        ),
{
    let token_a_amount = div_round(
        pool_tokens.checked_mul(swap_token_a_amount)?,
        pool_token_supply,
        round_direction,
    )?;
    let token_b_amount = div_round(
        pool_tokens.checked_mul(swap_token_b_amount)?,
        pool_token_supply,
        round_direction,
    )?;
    Some(TradingTokenResult { token_a_amount, token_b_amount })
}

} // verus!
