//! The curve of a pool, and the pool operations with fees applied.

use crate::curve::calculator::{
    pool_tokens_to_trading_tokens, CurveCalculator, INITIAL_SWAP_POOL_AMOUNT,
};
use crate::curve::constant_price::ConstantPriceCurve;
use crate::curve::calculator::div_ceil;
use crate::curve::constant_product::{lemma_swap_leaves_reserve, swap_spec, ConstantProductCurve};
use crate::curve::offset::OffsetCurve;
use crate::errors::TokenSwapError;
use crate::types::{
    Fees, RoundDirection, SwapResult, SwapWithoutFeesResult, TradeDirection, TradingTokenResult,
};
use vstd::prelude::*;

verus! {

/// The shape of a pool's pricing curve, without its parameter.
#[derive(Clone, Copy, Debug, PartialEq, Eq, Structural)]
pub enum SwapCurveType {
    /// Uniswap-style constant product curve, invariant = token_a_amount * token_b_amount
    ConstantProductCurve,
    /// Flat line, always providing 1:1 from one token to another
    ConstantPriceCurve,
    /// Offset curve, like Uniswap, but the token B side has a faked offset
    OffsetCurve,
}

/// The pricing curve of a pool: one of three shapes, each with its
/// parameter.
#[derive(Clone, Copy, Debug, PartialEq, Eq, Structural)]
pub enum SwapCurve {
    /// Uniswap-style constant product curve, invariant = token_a_amount * token_b_amount
    ConstantProductCurve(ConstantProductCurve),
    /// Flat line, always providing 1:1 from one token to another
    ConstantPriceCurve(ConstantPriceCurve),
    /// Offset curve, like Uniswap, but the token B side has a faked offset
    OffsetCurve(OffsetCurve),
}

impl Default for SwapCurve {
    fn default() -> (curve: SwapCurve)
        ensures
            curve == SwapCurve::ConstantProductCurve(ConstantProductCurve { unused: 0 }),
            curve.valid(),
    {
        SwapCurve::ConstantProductCurve(ConstantProductCurve::new())
    }
}

impl SwapCurveType {
    /// The curve of this shape with the parameter `token_b_price_or_offset`:
    /// the price of a constant price curve, the offset of an offset
    /// curve, nothing for a constant product curve.
    pub open spec fn with_parameter(&self, token_b_price_or_offset: u64) -> SwapCurve {
        match self {
            SwapCurveType::ConstantProductCurve => SwapCurve::ConstantProductCurve(
                ConstantProductCurve { unused: 0 },
            ),
            SwapCurveType::ConstantPriceCurve => SwapCurve::ConstantPriceCurve(
                ConstantPriceCurve { token_b_price: token_b_price_or_offset },
            ),
            SwapCurveType::OffsetCurve => SwapCurve::OffsetCurve(
                OffsetCurve { token_b_offset: token_b_price_or_offset },
            ),
        }
    }

    /// Builds the curve of this shape with the given parameter, and
    /// rejects a parameter that the shape cannot work with.
    pub fn try_into_swap_curve(
        &self,
        token_b_price_or_offset: u64,
    ) -> (outcome: Result<SwapCurve, TokenSwapError>)
        ensures
            outcome is Ok <==> self.with_parameter(token_b_price_or_offset).valid(),
            outcome is Ok ==> outcome->Ok_0 == self.with_parameter(token_b_price_or_offset),
            outcome is Err ==> outcome->Err_0 == TokenSwapError::InvalidCurve,
    {
        let curve = match self {
            SwapCurveType::ConstantProductCurve => SwapCurve::ConstantProductCurve(
                ConstantProductCurve::new(),
            ),
            SwapCurveType::ConstantPriceCurve => SwapCurve::ConstantPriceCurve(
                ConstantPriceCurve { token_b_price: token_b_price_or_offset },
            ),
            SwapCurveType::OffsetCurve => SwapCurve::OffsetCurve(
                OffsetCurve { token_b_offset: token_b_price_or_offset },
            ),
        };
        match curve.validate() {
            Ok(()) => Ok(curve),
            Err(e) => Err(e),
        }
    }
}

impl CurveCalculator for SwapCurve {
    open spec fn swap_without_fees_spec(
        &self,
        source_amount: u128,
        swap_source_amount: u128,
        swap_destination_amount: u128,
        trade_direction: TradeDirection,
    ) -> Option<SwapWithoutFeesResult> {
        match self {
            SwapCurve::ConstantProductCurve(curve) => curve.swap_without_fees_spec(
                source_amount,
                swap_source_amount,
                swap_destination_amount,
                trade_direction,
            ),
            SwapCurve::ConstantPriceCurve(curve) => curve.swap_without_fees_spec(
                source_amount,
                swap_source_amount,
                swap_destination_amount,
                trade_direction,
            ),
            SwapCurve::OffsetCurve(curve) => curve.swap_without_fees_spec(
                source_amount,
                swap_source_amount,
                swap_destination_amount,
                trade_direction,
            ),
        }
    }

    open spec fn deposit_single_token_type_spec(
        &self,
        source_amount: u128,
        swap_token_a_amount: u128,
        swap_token_b_amount: u128,
        pool_supply: u128,
        trade_direction: TradeDirection,
    ) -> Option<u128> {
        match self {
            SwapCurve::ConstantProductCurve(curve) => curve.deposit_single_token_type_spec(
                source_amount,
                swap_token_a_amount,
                swap_token_b_amount,
                pool_supply,
                trade_direction,
            ),
            SwapCurve::ConstantPriceCurve(curve) => curve.deposit_single_token_type_spec(
                source_amount,
                swap_token_a_amount,
                swap_token_b_amount,
                pool_supply,
                trade_direction,
            ),
            SwapCurve::OffsetCurve(curve) => curve.deposit_single_token_type_spec(
                source_amount,
                swap_token_a_amount,
                swap_token_b_amount,
                pool_supply,
                trade_direction,
            ),
        }
    }

    open spec fn withdraw_single_token_type_exact_out_spec(
        &self,
        source_amount: u128,
        swap_token_a_amount: u128,
        swap_token_b_amount: u128,
        pool_supply: u128,
        trade_direction: TradeDirection,
        round_direction: RoundDirection,
    ) -> Option<u128> {
        match self {
            SwapCurve::ConstantProductCurve(curve) => curve.withdraw_single_token_type_exact_out_spec(
                source_amount,
                swap_token_a_amount,
                swap_token_b_amount,
                pool_supply,
                trade_direction,
                round_direction,
            ),
            SwapCurve::ConstantPriceCurve(curve) => curve.withdraw_single_token_type_exact_out_spec(
                source_amount,
                swap_token_a_amount,
                swap_token_b_amount,
                pool_supply,
                trade_direction,
                round_direction,
            ),
            SwapCurve::OffsetCurve(curve) => curve.withdraw_single_token_type_exact_out_spec(
                source_amount,
                swap_token_a_amount,
                swap_token_b_amount,
                pool_supply,
                trade_direction,
                round_direction,
            ),
        }
    }

    open spec fn valid(&self) -> bool {
        match self {
            SwapCurve::ConstantProductCurve(curve) => curve.valid(),
            SwapCurve::ConstantPriceCurve(curve) => curve.valid(),
            SwapCurve::OffsetCurve(curve) => curve.valid(),
        }
    }

    open spec fn valid_supply(&self, token_a_amount: u64, token_b_amount: u64) -> bool {
        match self {
            SwapCurve::ConstantProductCurve(curve) => curve.valid_supply(
                token_a_amount,
                token_b_amount,
            ),
            SwapCurve::ConstantPriceCurve(curve) => curve.valid_supply(
                token_a_amount,
                token_b_amount,
            ),
            SwapCurve::OffsetCurve(curve) => curve.valid_supply(token_a_amount, token_b_amount),
        }
    }

    open spec fn deposits_allowed(&self) -> bool {
        match self {
            SwapCurve::ConstantProductCurve(curve) => curve.deposits_allowed(),
            SwapCurve::ConstantPriceCurve(curve) => curve.deposits_allowed(),
            SwapCurve::OffsetCurve(curve) => curve.deposits_allowed(),
        }
    }

    open spec fn withdrawals_allowed(&self) -> bool {
        match self {
            SwapCurve::ConstantProductCurve(curve) => curve.withdrawals_allowed(),
            SwapCurve::ConstantPriceCurve(curve) => curve.withdrawals_allowed(),
            SwapCurve::OffsetCurve(curve) => curve.withdrawals_allowed(),
        }
    }

    fn swap_without_fees(
        &self,
        source_amount: u128,
        swap_source_amount: u128,
        swap_destination_amount: u128,
        trade_direction: TradeDirection,
    ) -> (result: Option<SwapWithoutFeesResult>) {
        match self {
            SwapCurve::ConstantProductCurve(curve) => curve.swap_without_fees(
                source_amount,
                swap_source_amount,
                swap_destination_amount,
                trade_direction,
            ),
            SwapCurve::ConstantPriceCurve(curve) => curve.swap_without_fees(
                source_amount,
                swap_source_amount,
                swap_destination_amount,
                trade_direction,
            ),
            SwapCurve::OffsetCurve(curve) => curve.swap_without_fees(
                source_amount,
                swap_source_amount,
                swap_destination_amount,
                trade_direction,
            ),
        }
    }

    fn new_pool_supply(&self) -> (supply: u128) {
        INITIAL_SWAP_POOL_AMOUNT
    }

    fn pool_tokens_to_trading_tokens(
        &self,
        pool_tokens: u128,
        pool_token_supply: u128,
        swap_token_a_amount: u128,
        swap_token_b_amount: u128,
        round_direction: RoundDirection,
    ) -> (amounts: Option<TradingTokenResult>) {
        pool_tokens_to_trading_tokens(
            pool_tokens,
            pool_token_supply,
            swap_token_a_amount,
            swap_token_b_amount,
            round_direction,
        )
    }

    fn deposit_single_token_type(
        &self,
        source_amount: u128,
        swap_token_a_amount: u128,
        swap_token_b_amount: u128,
        pool_supply: u128,
        trade_direction: TradeDirection,
    ) -> (tokens: Option<u128>) {
        match self {
            SwapCurve::ConstantProductCurve(curve) => curve.deposit_single_token_type(
                source_amount,
                swap_token_a_amount,
                swap_token_b_amount,
                pool_supply,
                trade_direction,
            ),
            SwapCurve::ConstantPriceCurve(curve) => curve.deposit_single_token_type(
                source_amount,
                swap_token_a_amount,
                swap_token_b_amount,
                pool_supply,
                trade_direction,
            ),
            SwapCurve::OffsetCurve(curve) => curve.deposit_single_token_type(
                source_amount,
                swap_token_a_amount,
                swap_token_b_amount,
                pool_supply,
                trade_direction,
            ),
        }
    }

    fn withdraw_single_token_type_exact_out(
        &self,
        source_amount: u128,
        swap_token_a_amount: u128,
        swap_token_b_amount: u128,
        pool_supply: u128,
        trade_direction: TradeDirection,
        round_direction: RoundDirection,
    ) -> (tokens: Option<u128>) {
        match self {
            SwapCurve::ConstantProductCurve(curve) => curve.withdraw_single_token_type_exact_out(
                source_amount,
                swap_token_a_amount,
                swap_token_b_amount,
                pool_supply,
                trade_direction,
                round_direction,
            ),
            SwapCurve::ConstantPriceCurve(curve) => curve.withdraw_single_token_type_exact_out(
                source_amount,
                swap_token_a_amount,
                swap_token_b_amount,
                pool_supply,
                trade_direction,
                round_direction,
            ),
            SwapCurve::OffsetCurve(curve) => curve.withdraw_single_token_type_exact_out(
                source_amount,
                swap_token_a_amount,
                swap_token_b_amount,
                pool_supply,
                trade_direction,
                round_direction,
            ),
        }
    }

    fn validate(&self) -> (outcome: Result<(), TokenSwapError>) {
        match self {
            SwapCurve::ConstantProductCurve(curve) => curve.validate(),
            SwapCurve::ConstantPriceCurve(curve) => curve.validate(),
            SwapCurve::OffsetCurve(curve) => curve.validate(),
        }
    }

    fn validate_supply(
        &self,
        token_a_amount: u64,
        token_b_amount: u64,
    ) -> (outcome: Result<(), TokenSwapError>) {
        match self {
            SwapCurve::ConstantProductCurve(curve) => curve.validate_supply(
                token_a_amount,
                token_b_amount,
            ),
            SwapCurve::ConstantPriceCurve(curve) => curve.validate_supply(
                token_a_amount,
                token_b_amount,
            ),
            SwapCurve::OffsetCurve(curve) => curve.validate_supply(token_a_amount, token_b_amount),
        }
    }

    fn allows_deposits(&self) -> (allowed: bool) {
        match self {
            SwapCurve::ConstantProductCurve(curve) => curve.allows_deposits(),
            SwapCurve::ConstantPriceCurve(curve) => curve.allows_deposits(),
            SwapCurve::OffsetCurve(curve) => curve.allows_deposits(),
        }
    }

    fn allows_withdrawals(&self) -> (allowed: bool) {
        match self {
            SwapCurve::ConstantProductCurve(curve) => curve.allows_withdrawals(),
            SwapCurve::ConstantPriceCurve(curve) => curve.allows_withdrawals(),
            SwapCurve::OffsetCurve(curve) => curve.allows_withdrawals(),
        }
    }
}

/// Half of `source_amount`, but at least one: the part of a one-sided
/// deposit that counts as swapped.
pub open spec fn half_for_deposit(source_amount: u128) -> u128 {
    if source_amount / 2 >= 1 {
        source_amount / 2
    } else {
        1u128
    }
}

impl SwapCurve {
    /// A swap with fees.
    ///
    /// The trading fee and the owner trading fee are both taken on the
    /// whole `source_amount`; the curve swaps what is left. What the curve
    /// took in, plus the fees, goes into the source reserve, and what the
    /// curve hands out leaves the destination reserve. There is no swap
    /// where a fee cannot be computed, where the fees are more than
    /// `source_amount`, where the curve has nothing to give, or where the
    /// new source reserve leaves 128 bits.
    pub open spec fn swap_spec(
        &self,
        source_amount: u128,
        swap_source_amount: u128,
        swap_destination_amount: u128,
        trade_direction: TradeDirection,
        fees: Fees,
    ) -> Option<SwapResult> {
        match (fees.trading_fee_spec(source_amount), fees.owner_trading_fee_spec(source_amount)) {
            (Some(trade_fee), Some(owner_fee)) => if trade_fee + owner_fee > source_amount {
                None
            } else {
                match self.swap_without_fees_spec(
                    (source_amount - (trade_fee + owner_fee)) as u128,
                    swap_source_amount,
                    swap_destination_amount,
                    trade_direction,
                ) {
                    Some(swapped) => {
                        let source_amount_swapped = swapped.source_amount_swapped + trade_fee
                            + owner_fee;
                        if swap_source_amount + source_amount_swapped > u128::MAX
                            || swapped.destination_amount_swapped > swap_destination_amount {
                            None
                        } else {
                            Some(
                                SwapResult {
                                    new_swap_source_amount: (swap_source_amount
                                        + source_amount_swapped) as u128,
                                    new_swap_destination_amount: (swap_destination_amount
                                        - swapped.destination_amount_swapped) as u128,
                                    source_amount_swapped: source_amount_swapped as u128,
                                    destination_amount_swapped: swapped.destination_amount_swapped,
                                    trade_fee,
                                    owner_fee,
                                },
                            )
                        }
                    },
                    None => None,
                }
            },
            _ => None,
        }
    }

    /// A one-sided deposit with fees.
    ///
    /// Nothing deposited gives no pool tokens. Otherwise the trading fees
    /// on half of `source_amount` (at least on one token) are taken off,
    /// and the curve converts the rest.
    pub open spec fn deposit_spec(
        &self,
        source_amount: u128,
        swap_token_a_amount: u128,
        swap_token_b_amount: u128,
        pool_supply: u128,
        trade_direction: TradeDirection,
        fees: Fees,
    ) -> Option<u128> {
        if source_amount == 0 {
            Some(0u128)
        } else {
            match fees.total_trading_fee_spec(half_for_deposit(source_amount)) {
                Some(total_fees) => if total_fees > source_amount {
                    None
                } else {
                    self.deposit_single_token_type_spec(
                        (source_amount - total_fees) as u128,
                        swap_token_a_amount,
                        swap_token_b_amount,
                        pool_supply,
                        trade_direction,
                    )
                },
                None => None,
            }
        }
    }

    /// A one-sided withdrawal of an exact amount, with fees.
    ///
    /// Nothing withdrawn burns no pool tokens. Otherwise half of
    /// `source_amount`, rounded up, is raised to what it was before the
    /// trading fees, the other half is added, and the curve converts the
    /// sum, rounding up.
    pub open spec fn withdraw_spec(
        &self,
        source_amount: u128,
        swap_token_a_amount: u128,
        swap_token_b_amount: u128,
        pool_supply: u128,
        trade_direction: TradeDirection,
        fees: Fees,
    ) -> Option<u128> {
        if source_amount == 0 {
            Some(0u128)
        } else if source_amount + 1 > u128::MAX {
            None
        } else {
            let half_source_amount = ((source_amount + 1) / 2) as u128;
            match fees.pre_trading_fee_amount_spec(half_source_amount) {
                Some(pre_fee_source_amount) => if source_amount - half_source_amount
                    + pre_fee_source_amount > u128::MAX {
                    None
                } else {
                    self.withdraw_single_token_type_exact_out_spec(
                        (source_amount - half_source_amount + pre_fee_source_amount) as u128,
                        swap_token_a_amount,
                        swap_token_b_amount,
                        pool_supply,
                        trade_direction,
                        RoundDirection::Ceiling,
                    )
                },
                None => None,
            }
        }
    }

    /// Subtract fees and calculate how much destination token will be provided
    /// given an amount of source token.
    pub fn swap(
        &self,
        source_amount: u128,
        swap_source_amount: u128,
        swap_destination_amount: u128,
        trade_direction: TradeDirection,
        fees: &Fees,
    ) -> (result: Option<SwapResult>)
        ensures
            result == self.swap_spec(
                source_amount,
                swap_source_amount,
                swap_destination_amount,
                trade_direction,
                *fees,
            ),
            result is Some ==> result->0.trade_fee + result->0.owner_fee <= source_amount,
            result is Some ==> result->0.source_amount_swapped == source_amount,
            result is Some ==> 0 < result->0.destination_amount_swapped <= swap_destination_amount,
            result is Some ==> result->0.new_swap_source_amount == swap_source_amount
                + source_amount,
            result is Some ==> result->0.new_swap_destination_amount == swap_destination_amount
                - result->0.destination_amount_swapped,
    {
        // debit the fee to calculate the amount swapped
        let trade_fee = fees.trading_fee(source_amount)?;
        let owner_fee = fees.owner_trading_fee(source_amount)?;

        let total_fees = trade_fee.checked_add(owner_fee)?;
        let source_amount_less_fees = source_amount.checked_sub(total_fees)?;

        let swapped = self.swap_without_fees(
            source_amount_less_fees,
            swap_source_amount,
            swap_destination_amount,
            trade_direction,
        )?;
        let destination_amount_swapped = swapped.destination_amount_swapped;

        let source_amount_swapped = swapped.source_amount_swapped.checked_add(total_fees)?;
        Some(
            SwapResult {
                new_swap_source_amount: swap_source_amount.checked_add(source_amount_swapped)?,
                new_swap_destination_amount: swap_destination_amount.checked_sub(
                    destination_amount_swapped,
                )?,
                source_amount_swapped,
                destination_amount_swapped,
                trade_fee,
                owner_fee,
            },
        )
    }

    /// Get the amount of pool tokens for the deposited amount of token A or B
    pub fn deposit_single_token_type(
        &self,
        source_amount: u128,
        swap_token_a_amount: u128,
        swap_token_b_amount: u128,
        pool_supply: u128,
        trade_direction: TradeDirection,
        fees: &Fees,
    ) -> (tokens: Option<u128>)
        ensures
            tokens == self.deposit_spec(
                source_amount,
                swap_token_a_amount,
                swap_token_b_amount,
                pool_supply,
                trade_direction,
                *fees,
            ),
            source_amount == 0 ==> tokens == Some(0u128),
    {
        if source_amount == 0 {
            return Some(0);
        }
        // Get the trading fee incurred if *half* the source amount is swapped
        // for the other side.
        let half = source_amount / 2;
        let half_source_amount = if half >= 1 {
            half
        } else {
            1
        };
        let trade_fee = fees.trading_fee(half_source_amount)?;
        let owner_fee = fees.owner_trading_fee(half_source_amount)?;
        let total_fees = trade_fee.checked_add(owner_fee)?;
        let source_amount = source_amount.checked_sub(total_fees)?;
        CurveCalculator::deposit_single_token_type(
            self,
            source_amount,
            swap_token_a_amount,
            swap_token_b_amount,
            pool_supply,
            trade_direction,
        )
    }

    /// Get the amount of pool tokens for the withdrawn amount of token A or B
    pub fn withdraw_single_token_type_exact_out(
        &self,
        source_amount: u128,
        swap_token_a_amount: u128,
        swap_token_b_amount: u128,
        pool_supply: u128,
        trade_direction: TradeDirection,
        fees: &Fees,
    ) -> (tokens: Option<u128>)
        ensures
            tokens == self.withdraw_spec(
                source_amount,
                swap_token_a_amount,
                swap_token_b_amount,
                pool_supply,
                trade_direction,
                *fees,
            ),
            source_amount == 0 ==> tokens == Some(0u128),
    {
        if source_amount == 0 {
            return Some(0);
        }
        // Since we want to get the amount required to get the exact amount out,
        // we need the inverse trading fee incurred if *half* the source amount
        // is swapped for the other side.
        let half_source_amount = source_amount.checked_add(1)?.checked_div(2)?;  // round up
        let pre_fee_source_amount = fees.pre_trading_fee_amount(half_source_amount)?;
        let source_amount = source_amount.checked_sub(half_source_amount)?.checked_add(
            pre_fee_source_amount,
        )?;
        CurveCalculator::withdraw_single_token_type_exact_out(
            self,
            source_amount,
            swap_token_a_amount,
            swap_token_b_amount,
            pool_supply,
            trade_direction,
            RoundDirection::Ceiling,
        )
    }
}

/// The trading fee and the owner trading fee of a swap never come to more
/// than the amount swapped, on any curve: they are taken out of it. The
/// whole amount, fees included, goes into the source reserve, and what
/// comes out is no more than the destination reserve held.
pub proof fn lemma_swap_takes_fees_out_of_source_amount(
    curve: SwapCurve,
    source_amount: u128,
    swap_source_amount: u128,
    swap_destination_amount: u128,
    trade_direction: TradeDirection,
    fees: Fees,
)
    requires
        curve.swap_spec(
            source_amount,
            swap_source_amount,
            swap_destination_amount,
            trade_direction,
            fees,
        ) is Some,
    ensures
        ({
            let result = curve.swap_spec(
                source_amount,
                swap_source_amount,
                swap_destination_amount,
                trade_direction,
                fees,
            )->0;
            &&& result.trade_fee + result.owner_fee <= source_amount
            &&& fees.trading_fee_spec(source_amount) == Some(result.trade_fee)
            &&& fees.owner_trading_fee_spec(source_amount) == Some(result.owner_fee)
            &&& result.source_amount_swapped == source_amount
            &&& result.new_swap_source_amount == swap_source_amount + source_amount
            &&& result.destination_amount_swapped <= swap_destination_amount
            &&& result.new_swap_destination_amount == swap_destination_amount
                - result.destination_amount_swapped
        }),
{
}

/// On a constant product curve a swap never lowers the product of the two
/// reserves, whatever the fees: the destination reserve that is left is
/// rounded up, and the fees stay in the source reserve.
pub proof fn lemma_constant_product_swap_keeps_product(
    curve: ConstantProductCurve,
    source_amount: u128,
    swap_source_amount: u128,
    swap_destination_amount: u128,
    trade_direction: TradeDirection,
    fees: Fees,
)
    requires
        SwapCurve::ConstantProductCurve(curve).swap_spec(
            source_amount,
            swap_source_amount,
            swap_destination_amount,
            trade_direction,
            fees,
        ) is Some,
    ensures
        ({
            let result = SwapCurve::ConstantProductCurve(curve).swap_spec(
                source_amount,
                swap_source_amount,
                swap_destination_amount,
                trade_direction,
                fees,
            )->0;
            result.new_swap_source_amount * result.new_swap_destination_amount
                >= swap_source_amount * swap_destination_amount
        }),
{
    let curve = SwapCurve::ConstantProductCurve(curve);
    let result = curve.swap_spec(
        source_amount,
        swap_source_amount,
        swap_destination_amount,
        trade_direction,
        fees,
    )->0;
    let total_fees = result.trade_fee + result.owner_fee;
    let less_fees = (source_amount - total_fees) as u128;
    let new_source = swap_source_amount + less_fees;
    let new_destination = div_ceil(swap_source_amount * swap_destination_amount, new_source);
    assert(curve.swap_without_fees_spec(
        less_fees,
        swap_source_amount,
        swap_destination_amount,
        trade_direction,
    ) == swap_spec(less_fees, swap_source_amount, swap_destination_amount));
    lemma_swap_leaves_reserve(less_fees, swap_source_amount, swap_destination_amount);
    assert(result.new_swap_destination_amount == new_destination);
    assert(result.new_swap_source_amount == new_source + total_fees);
    assert((new_source + total_fees) * new_destination >= new_source * new_destination)
        by (nonlinear_arith)
        requires
            total_fees >= 0,
            new_destination >= 0,
    ;
}

} // verus!
