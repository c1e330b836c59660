//! The Uniswap invariant: the product of the two reserves is constant.

use crate::curve::calculator::{
    div_ceil, div_round, lemma_div_ceil, map_zero_to_none, pool_tokens_to_trading_tokens,
    CurveCalculator, INITIAL_SWAP_POOL_AMOUNT,
};
use crate::curve::precise::{
    precise_add_spec, precise_ceiling, precise_ceiling_spec, precise_checked_add,
    precise_checked_div, precise_checked_mul, precise_checked_sub, precise_div_spec,
    precise_floor, precise_floor_spec, precise_mul_spec, precise_new, precise_sqrt,
    precise_sqrt_spec, precise_sub_spec, to_imprecise_spec, Precise, ONE,
};
use crate::errors::TokenSwapError;
use crate::types::{RoundDirection, SwapWithoutFeesResult, TradeDirection, TradingTokenResult};
use vstd::prelude::*;

verus! {

/// ConstantProductCurve struct implementing CurveCalculator
#[derive(Clone, Copy, Debug, PartialEq, Eq, Structural)]
pub struct ConstantProductCurve {
    pub unused: u8,
}

/// A swap on the invariant `swap_source_amount * swap_destination_amount`.
///
/// The whole `source_amount` goes in. The destination reserve that remains
/// is the invariant divided by the new source reserve, rounded up, so what
/// comes out is rounded down. There is no swap where the invariant or the
/// new source reserve leaves 128 bits, where the new source reserve is zero,
/// or where nothing would come out.
pub open spec fn swap_spec(
    source_amount: u128,
    swap_source_amount: u128,
    swap_destination_amount: u128,
) -> Option<SwapWithoutFeesResult> {
    let product = swap_source_amount * swap_destination_amount;
    let new_swap_source_amount = swap_source_amount + source_amount;
    if product > u128::MAX || new_swap_source_amount > u128::MAX || new_swap_source_amount == 0 {
        None
    } else {
        let new_swap_destination_amount = div_ceil(product, new_swap_source_amount);
        if new_swap_destination_amount >= swap_destination_amount {
            None
        } else {
            Some(
                SwapWithoutFeesResult {
                    source_amount_swapped: source_amount,
                    destination_amount_swapped: (swap_destination_amount
                        - new_swap_destination_amount) as u128,
                },
            )
        }
    }
}

/// The reserve of the token that a one-sided operation moves.
pub open spec fn reserve_of(
    swap_token_a_amount: u128,
    swap_token_b_amount: u128,
    trade_direction: TradeDirection,
) -> u128 {
    match trade_direction {
        TradeDirection::AtoB => swap_token_a_amount,
        TradeDirection::BtoA => swap_token_b_amount,
    }
}

/// `amount / reserve` as a fixed-point number.
pub open spec fn ratio_spec(amount: u128, reserve: u128) -> Option<nat> {
    precise_div_spec((amount * ONE) as nat, (reserve * ONE) as nat)
}

/// `1 + source_amount / reserve`, the number whose square root gives the
/// growth of the pool under a one-sided deposit.
pub open spec fn deposit_base_spec(source_amount: u128, reserve: u128) -> Option<nat> {
    match ratio_spec(source_amount, reserve) {
        Some(ratio) => precise_add_spec(ONE as nat, ratio),
        None => None,
    }
}

/// `1 - source_amount / reserve`, or zero where the ratio is above one: the
/// number whose square root gives what is left of the pool after a
/// one-sided withdrawal.
pub open spec fn withdraw_base_spec(source_amount: u128, reserve: u128) -> Option<nat> {
    match ratio_spec(source_amount, reserve) {
        Some(ratio) => match precise_sub_spec(ONE as nat, ratio) {
            Some(base) => Some(base),
            None => Some(0nat),
        },
        None => None,
    }
}

/// A fixed-point amount of pool tokens as a whole number of tokens,
/// rounded in the given direction.
pub open spec fn round_to_tokens_spec(
    pool_tokens: nat,
    round_direction: RoundDirection,
) -> Option<u128> {
    match round_direction {
        RoundDirection::Floor => to_imprecise_spec(precise_floor_spec(pool_tokens)),
        RoundDirection::Ceiling => match precise_ceiling_spec(pool_tokens) {
            Some(whole) => to_imprecise_spec(whole),
            None => None,
        },
    }
}

/// `pool_supply * share` in whole pool tokens.
pub open spec fn share_of_supply_spec(
    pool_supply: u128,
    share: nat,
    round_direction: RoundDirection,
) -> Option<u128> {
    match precise_mul_spec((pool_supply * ONE) as nat, share) {
        Some(pool_tokens) => round_to_tokens_spec(pool_tokens, round_direction),
        None => None,
    }
}

/// Pool tokens for a one-sided deposit, given the square root `root` of
/// the deposit base: `pool_supply * (root - 1)`.
pub open spec fn deposit_from_root_spec(
    root: nat,
    pool_supply: u128,
    round_direction: RoundDirection,
) -> Option<u128> {
    match precise_sub_spec(root, ONE as nat) {
        Some(share) => share_of_supply_spec(pool_supply, share, round_direction),
        None => None,
    }
}

/// Pool tokens for a one-sided withdrawal, given the square root `root`
/// of the withdrawal base: `pool_supply * (1 - root)`.
pub open spec fn withdraw_from_root_spec(
    root: nat,
    pool_supply: u128,
    round_direction: RoundDirection,
) -> Option<u128> {
    match precise_sub_spec(ONE as nat, root) {
        Some(share) => share_of_supply_spec(pool_supply, share, round_direction),
        None => None,
    }
}

/// Pool tokens issued for depositing `source_amount` of one token:
/// `pool_supply * (sqrt(1 + source_amount / reserve) - 1)`, in fixed-point
/// arithmetic, with the square root as `spl_math` computes it.
pub open spec fn deposit_single_token_type_spec(
    source_amount: u128,
    swap_token_a_amount: u128,
    swap_token_b_amount: u128,
    pool_supply: u128,
    trade_direction: TradeDirection,
    round_direction: RoundDirection,
) -> Option<u128> {
    match deposit_base_spec(
        source_amount,
        reserve_of(swap_token_a_amount, swap_token_b_amount, trade_direction),
    ) {
        Some(base) => match precise_sqrt_spec(base) {
            Some(root) => deposit_from_root_spec(root, pool_supply, round_direction),
            None => None,
        },
        None => None,
    }
}

/// Pool tokens burned for withdrawing exactly `source_amount` of one token:
/// `pool_supply * (1 - sqrt(1 - source_amount / reserve))`, in fixed-point
/// arithmetic, with the square root as `spl_math` computes it.
pub open spec fn withdraw_single_token_type_exact_out_spec(
    source_amount: u128,
    swap_token_a_amount: u128,
    swap_token_b_amount: u128,
    pool_supply: u128,
    trade_direction: TradeDirection,
    round_direction: RoundDirection,
) -> Option<u128> {
    match withdraw_base_spec(
        source_amount,
        reserve_of(swap_token_a_amount, swap_token_b_amount, trade_direction),
    ) {
        Some(base) => match precise_sqrt_spec(base) {
            Some(root) => withdraw_from_root_spec(root, pool_supply, round_direction),
            None => None,
        },
        None => None,
    }
}

/// The constant product swap calculation, factored out of its class for reuse.
///
/// This is guaranteed to work for all values such that:
///  - 1 <= swap_source_amount * swap_destination_amount <= u128::MAX
///  - 1 <= source_amount <= u64::MAX
pub fn swap(
    source_amount: u128,
    swap_source_amount: u128,
    swap_destination_amount: u128,
) -> (result: Option<SwapWithoutFeesResult>)
    ensures
        result == swap_spec(source_amount, swap_source_amount, swap_destination_amount),
        result is Some ==> result->0.source_amount_swapped == source_amount && 0
            < result->0.destination_amount_swapped <= swap_destination_amount,
{
    let product = swap_source_amount.checked_mul(swap_destination_amount)?;
    let new_swap_source_amount = swap_source_amount.checked_add(source_amount)?;
    let new_swap_destination_amount = div_round(
        product,
        new_swap_source_amount,
        RoundDirection::Ceiling,
    )?;
    proof {
        lemma_swap_leaves_reserve(source_amount, swap_source_amount, swap_destination_amount);
    }
    let destination_amount_swapped = map_zero_to_none(
        swap_destination_amount.checked_sub(new_swap_destination_amount)?,
    )?;
    Some(SwapWithoutFeesResult { source_amount_swapped: source_amount, destination_amount_swapped })
}

/// After a swap the destination reserve is at least one and at most what
/// it was, and the product of the reserves has not gone down.
pub proof fn lemma_swap_leaves_reserve(
    source_amount: u128,
    swap_source_amount: u128,
    swap_destination_amount: u128,
)
    requires
        swap_source_amount + source_amount > 0,
    ensures
        div_ceil(
            swap_source_amount * swap_destination_amount,
            swap_source_amount + source_amount,
        ) <= swap_destination_amount,
        swap_source_amount * swap_destination_amount > 0 ==> div_ceil(
            swap_source_amount * swap_destination_amount,
            swap_source_amount + source_amount,
        ) > 0,
        (swap_source_amount + source_amount) * div_ceil(
            swap_source_amount * swap_destination_amount,
            swap_source_amount + source_amount,
        ) >= swap_source_amount * swap_destination_amount,
{
    let product = swap_source_amount * swap_destination_amount;
    let new_source = swap_source_amount + source_amount;
    let new_destination = div_ceil(product, new_source);
    assert(product >= 0) by (nonlinear_arith)
        requires
            product == swap_source_amount * swap_destination_amount,
    ;
    lemma_div_ceil(product, new_source);
    assert(new_destination * new_source == new_source * new_destination) by (nonlinear_arith);
    // new_destination * new_source < product + new_source <= new_source * (destination + 1)
    assert(product <= new_source * swap_destination_amount) by (nonlinear_arith)
        requires
            product == swap_source_amount * swap_destination_amount,
            new_source == swap_source_amount + source_amount,
    ;
    assert(new_destination <= swap_destination_amount) by (nonlinear_arith)
        requires
            new_destination * new_source < product + new_source,
            product <= new_source * swap_destination_amount,
            new_source > 0,
    ;
    if product > 0 {
        assert(new_destination > 0) by (nonlinear_arith)
            requires
                product <= new_destination * new_source,
                product > 0,
                new_source > 0,
        ;
    }
}

/// `1 + source_amount / reserve` in fixed-point arithmetic.
pub fn deposit_base(source_amount: u128, reserve: u128) -> (base: Option<Precise>)
    ensures
        crate::curve::precise::value_of(base) == deposit_base_spec(source_amount, reserve),
{
    let reserve = precise_new(reserve)?;
    let source_amount = precise_new(source_amount)?;
    let ratio = precise_checked_div(&source_amount, &reserve)?;
    let one = precise_new(1)?;
    precise_checked_add(&one, &ratio)
}

/// `1 - source_amount / reserve` in fixed-point arithmetic, zero where
/// the ratio is above one.
pub fn withdraw_base(source_amount: u128, reserve: u128) -> (base: Option<Precise>)
    ensures
        crate::curve::precise::value_of(base) == withdraw_base_spec(source_amount, reserve),
{
    let reserve = precise_new(reserve)?;
    let source_amount = precise_new(source_amount)?;
    let ratio = precise_checked_div(&source_amount, &reserve)?;
    let one = precise_new(1)?;
    match precise_checked_sub(&one, &ratio) {
        Some(base) => Some(base),
        None => precise_new(0),
    }
}

/// A fixed-point amount of pool tokens as a whole number of tokens.
pub fn round_to_tokens(
    pool_tokens: &Precise,
    round_direction: RoundDirection,
) -> (tokens: Option<u128>)
    ensures
        tokens == round_to_tokens_spec(pool_tokens@, round_direction),
{
    match round_direction {
        RoundDirection::Floor => precise_floor(pool_tokens)?.to_imprecise(),
        RoundDirection::Ceiling => precise_ceiling(pool_tokens)?.to_imprecise(),
    }
}

/// `pool_supply * share` in whole pool tokens.
pub fn share_of_supply(
    pool_supply: u128,
    share: &Precise,
    round_direction: RoundDirection,
) -> (tokens: Option<u128>)
    ensures
        tokens == share_of_supply_spec(pool_supply, share@, round_direction),
{
    let pool_supply = precise_new(pool_supply)?;
    let pool_tokens = precise_checked_mul(&pool_supply, share)?;
    round_to_tokens(&pool_tokens, round_direction)
}

/// Pool tokens for a one-sided deposit, from the square root of the
/// deposit base.
pub fn deposit_from_root(
    root: &Precise,
    pool_supply: u128,
    round_direction: RoundDirection,
) -> (tokens: Option<u128>)
    ensures
        tokens == deposit_from_root_spec(root@, pool_supply, round_direction),
{
    let one = precise_new(1)?;
    let share = precise_checked_sub(root, &one)?;
    share_of_supply(pool_supply, &share, round_direction)
}

/// Pool tokens for a one-sided withdrawal, from the square root of the
/// withdrawal base.
pub fn withdraw_from_root(
    root: &Precise,
    pool_supply: u128,
    round_direction: RoundDirection,
) -> (tokens: Option<u128>)
    ensures
        tokens == withdraw_from_root_spec(root@, pool_supply, round_direction),
{
    let one = precise_new(1)?;
    let share = precise_checked_sub(&one, root)?;
    share_of_supply(pool_supply, &share, round_direction)
}

/// Get the amount of pool tokens for the deposited amount of token A or B.
///
/// The constant product implementation uses the Balancer formulas found at
/// <https://balancer.finance/whitepaper/#single-asset-deposit>, specifically
/// in the case for 2 tokens, each weighted at 1/2.
pub fn deposit_single_token_type(
    source_amount: u128,
    swap_token_a_amount: u128,
    swap_token_b_amount: u128,
    pool_supply: u128,
    trade_direction: TradeDirection,
    round_direction: RoundDirection,
) -> (tokens: Option<u128>)
    ensures
        tokens == deposit_single_token_type_spec(
            source_amount,
            swap_token_a_amount,
            swap_token_b_amount,
            pool_supply,
            trade_direction,
            round_direction,
        ),
{
    let swap_source_amount = match trade_direction {
        TradeDirection::AtoB => swap_token_a_amount,
        TradeDirection::BtoA => swap_token_b_amount,
    };
    let base = deposit_base(source_amount, swap_source_amount)?;
    let root = precise_sqrt(&base)?;
    deposit_from_root(&root, pool_supply, round_direction)
}

/// Get the amount of pool tokens for the withdrawn amount of token A or B.
///
/// The constant product implementation uses the Balancer formulas found at
/// <https://balancer.finance/whitepaper/#single-asset-withdrawal>, specifically
/// in the case for 2 tokens, each weighted at 1/2.
pub fn withdraw_single_token_type_exact_out(
    source_amount: u128,
    swap_token_a_amount: u128,
    swap_token_b_amount: u128,
    pool_supply: u128,
    trade_direction: TradeDirection,
    round_direction: RoundDirection,
) -> (tokens: Option<u128>)
    ensures
        tokens == withdraw_single_token_type_exact_out_spec(
            source_amount,
            swap_token_a_amount,
            swap_token_b_amount,
            pool_supply,
            trade_direction,
            round_direction,
        ),
{
    let swap_source_amount = match trade_direction {
        TradeDirection::AtoB => swap_token_a_amount,
        TradeDirection::BtoA => swap_token_b_amount,
    };
    let base = withdraw_base(source_amount, swap_source_amount)?;
    let root = precise_sqrt(&base)?;
    withdraw_from_root(&root, pool_supply, round_direction)
}

impl ConstantProductCurve {
    /// The curve; it has no parameters.
    pub fn new() -> (curve: ConstantProductCurve)
        ensures
            curve == (ConstantProductCurve { unused: 0 }),
    {
        ConstantProductCurve { unused: 0 }
    }
}

impl Default for ConstantProductCurve {
    fn default() -> (curve: ConstantProductCurve)
        ensures
            curve == (ConstantProductCurve { unused: 0 }),
    {
        ConstantProductCurve { unused: 0 }
    }
}

impl CurveCalculator for ConstantProductCurve {
    open spec fn swap_without_fees_spec(
        &self,
        source_amount: u128,
        swap_source_amount: u128,
        swap_destination_amount: u128,
        trade_direction: TradeDirection,
    ) -> Option<SwapWithoutFeesResult> {
        swap_spec(source_amount, swap_source_amount, swap_destination_amount)
    }

    /// One-sided deposits round down.
    open spec fn deposit_single_token_type_spec(
        &self,
        source_amount: u128,
        swap_token_a_amount: u128,
        swap_token_b_amount: u128,
        pool_supply: u128,
        trade_direction: TradeDirection,
    ) -> Option<u128> {
        deposit_single_token_type_spec(
            source_amount,
            swap_token_a_amount,
            swap_token_b_amount,
            pool_supply,
            trade_direction,
            RoundDirection::Floor,
        )
    }

    open spec fn withdraw_single_token_type_exact_out_spec(
        &self,
        source_amount: u128,
        swap_token_a_amount: u128,
        swap_token_b_amount: u128,
        pool_supply: u128,
        trade_direction: TradeDirection,
        round_direction: RoundDirection,
    ) -> Option<u128> {
        withdraw_single_token_type_exact_out_spec(
            source_amount,
            swap_token_a_amount,
            swap_token_b_amount,
            pool_supply,
            trade_direction,
            round_direction,
        )
    }

    /// The curve has no parameters to get wrong.
    open spec fn valid(&self) -> bool {
        true
    }

    /// Both reserves of a new pool must hold tokens.
    open spec fn valid_supply(&self, token_a_amount: u64, token_b_amount: u64) -> bool {
        token_a_amount != 0 && token_b_amount != 0
    }

    open spec fn deposits_allowed(&self) -> bool {
        true
    }

    open spec fn withdrawals_allowed(&self) -> bool {
        true
    }

    /// Constant product swap ensures x * y = constant
    fn swap_without_fees(
        &self,
        source_amount: u128,
        swap_source_amount: u128,
        swap_destination_amount: u128,
        trade_direction: TradeDirection,
    ) -> (result: Option<SwapWithoutFeesResult>) {
        swap(source_amount, swap_source_amount, swap_destination_amount)
    }

    fn new_pool_supply(&self) -> (supply: u128) {
        INITIAL_SWAP_POOL_AMOUNT
    }

    fn pool_tokens_to_trading_tokens(
        &self,
        pool_tokens: u128,
        pool_token_supply: u128,
        swap_token_a_amount: u128,
        swap_token_b_amount: u128,
        round_direction: RoundDirection,
    ) -> (amounts: Option<TradingTokenResult>) {
        pool_tokens_to_trading_tokens(
            pool_tokens,
            pool_token_supply,
            swap_token_a_amount,
            swap_token_b_amount,
            round_direction,
        )
    }

    fn deposit_single_token_type(
        &self,
        source_amount: u128,
        swap_token_a_amount: u128,
        swap_token_b_amount: u128,
        pool_supply: u128,
        trade_direction: TradeDirection,
    ) -> (tokens: Option<u128>) {
        deposit_single_token_type(
            source_amount,
            swap_token_a_amount,
            swap_token_b_amount,
            pool_supply,
            trade_direction,
            RoundDirection::Floor,
        )
    }

    fn withdraw_single_token_type_exact_out(
        &self,
        source_amount: u128,
        swap_token_a_amount: u128,
        swap_token_b_amount: u128,
        pool_supply: u128,
        trade_direction: TradeDirection,
        round_direction: RoundDirection,
    ) -> (tokens: Option<u128>) {
        withdraw_single_token_type_exact_out(
            source_amount,
            swap_token_a_amount,
            swap_token_b_amount,
            pool_supply,
            trade_direction,
            round_direction,
        )
    }

    fn validate(&self) -> (outcome: Result<(), TokenSwapError>) {
        Ok(())
    }

    fn validate_supply(
        &self,
        token_a_amount: u64,
        token_b_amount: u64,
    ) -> (outcome: Result<(), TokenSwapError>) {
        if token_a_amount == 0 {
            return Err(TokenSwapError::EmptySupply);
        }
        if token_b_amount == 0 {
            return Err(TokenSwapError::EmptySupply);
        }
        Ok(())
    }

    fn allows_deposits(&self) -> (allowed: bool) {
        true
    }

    fn allows_withdrawals(&self) -> (allowed: bool) {
        true
    }
}

} // verus!
