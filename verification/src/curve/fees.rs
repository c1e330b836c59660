//! Fraction arithmetic shared by every fee of a pool.

use crate::errors::TokenSwapError;
use vstd::arithmetic::div_mod::lemma_fundamental_div_mod;
use vstd::prelude::*;

verus! {

/// The fee on `token_amount` at the rate `fee_numerator / fee_denominator`.
///
/// A zero rate or a zero amount costs nothing. Any other amount costs the
/// floor of its share, and never less than one token. There is no fee where
/// the product leaves 128 bits or the denominator is zero.
pub open spec fn calculate_fee_spec(
    token_amount: u128,
    fee_numerator: u128,
    fee_denominator: u128,
) -> Option<u128> {
    if fee_numerator == 0 || token_amount == 0 {
        Some(0u128)
    } else if token_amount * fee_numerator > u128::MAX || fee_denominator == 0 {
        None
    } else if (token_amount * fee_numerator) / (fee_denominator as int) == 0 {
        Some(1u128)
    } else {
        Some(((token_amount * fee_numerator) / (fee_denominator as int)) as u128)
    }
}

/// `dividend / divisor` rounded up, where `dividend + divisor` stays within
/// 128 bits and the divisor is not zero.
pub open spec fn ceil_div_spec(dividend: u128, divisor: u128) -> Option<u128> {
    if divisor == 0 || dividend + divisor > u128::MAX {
        None
    } else {
        Some(((dividend + divisor - 1) / (divisor as int)) as u128)
    }
}

/// The amount that leaves `post_fee_amount` once the fee
/// `fee_numerator / fee_denominator` has been taken from it:
/// `post_fee_amount * fee_denominator / (fee_denominator - fee_numerator)`,
/// rounded up.
///
/// A fee that is switched off changes nothing. Under a fee of the whole
/// amount nothing can be left, and the answer is zero, as it is for an
/// amount of zero. There is no answer for a fee of more than the whole, nor
/// where an intermediate value leaves 128 bits.
pub open spec fn pre_fee_amount_spec(
    post_fee_amount: u128,
    fee_numerator: u128,
    fee_denominator: u128,
) -> Option<u128> {
    if fee_numerator == 0 || fee_denominator == 0 {
        Some(post_fee_amount)
    } else if fee_numerator == fee_denominator || post_fee_amount == 0 {
        Some(0u128)
    } else if post_fee_amount * fee_denominator > u128::MAX || fee_numerator > fee_denominator {
        None
    } else {
        ceil_div_spec(
            (post_fee_amount * fee_denominator) as u128,
            (fee_denominator - fee_numerator) as u128,
        )
    }
}

/// A fee fraction is acceptable when it is switched off (`0 / 0`) or
/// strictly less than one.
pub open spec fn valid_fraction(numerator: u64, denominator: u64) -> bool {
    (numerator == 0 && denominator == 0) || numerator < denominator
}

/// Helper function for calculating swap fee
pub fn calculate_fee(
    token_amount: u128,
    fee_numerator: u128,
    fee_denominator: u128,
) -> (fee: Option<u128>)
    ensures
        fee == calculate_fee_spec(token_amount, fee_numerator, fee_denominator),
        fee_numerator == 0 || token_amount == 0 ==> fee == Some(0u128),
        fee_numerator != 0 && token_amount != 0 ==> (fee is Some <==> token_amount * fee_numerator
            <= u128::MAX && fee_denominator != 0),
        fee_numerator != 0 && token_amount != 0 && fee is Some ==> fee->0 == vstd::math::max(
            (token_amount * fee_numerator) / (fee_denominator as int),
            1,
        ),
{
    if fee_numerator == 0 || token_amount == 0 {
        Some(0)
    } else {
        let fee = token_amount.checked_mul(fee_numerator)?.checked_div(fee_denominator)?;
        if fee == 0 {
            Some(1)  // minimum fee of one token
        } else {
            Some(fee)
        }
    }
}

/// Division that rounds up: `(dividend + divisor - 1) / divisor`.
pub fn ceil_div(dividend: u128, divisor: u128) -> (quotient: Option<u128>)
    ensures
        quotient == ceil_div_spec(dividend, divisor),
{
    dividend.checked_add(divisor)?.checked_sub(1)?.checked_div(divisor)
}

/// The inverse of a fee: how much must be put in so that
/// `post_fee_amount` is left after the fee.
pub fn pre_fee_amount(
    post_fee_amount: u128,
    fee_numerator: u128,
    fee_denominator: u128,
) -> (amount: Option<u128>)
    ensures
        amount == pre_fee_amount_spec(post_fee_amount, fee_numerator, fee_denominator),
{
    if fee_numerator == 0 || fee_denominator == 0 {
        Some(post_fee_amount)
    } else if fee_numerator == fee_denominator || post_fee_amount == 0 {
        Some(0)
    } else {
        let numerator = post_fee_amount.checked_mul(fee_denominator)?;
        let denominator = fee_denominator.checked_sub(fee_numerator)?;
        ceil_div(numerator, denominator)
    }
}

/// Accepts a fee fraction that is switched off or strictly less than one.
pub fn validate_fraction(numerator: u64, denominator: u64) -> (outcome: Result<(), TokenSwapError>)
    ensures
        outcome is Ok <==> valid_fraction(numerator, denominator),
        outcome is Err ==> outcome == Err::<(), TokenSwapError>(TokenSwapError::InvalidFee),
        numerator >= denominator && !(numerator == 0 && denominator == 0) ==> outcome is Err,
{
    if denominator == 0 && numerator == 0 {
        Ok(())
    } else if numerator >= denominator {
        Err(TokenSwapError::InvalidFee)
    } else {
        Ok(())
    }
}

/// What `pre_fee_amount` returns is enough: where a fee of less than one
/// is taken from it, at least `post_fee_amount` is left.
pub proof fn lemma_pre_fee_amount_covers_fee(
    post_fee_amount: u128,
    fee_numerator: u128,
    fee_denominator: u128,
)
    requires
        0 < fee_numerator < fee_denominator,
        pre_fee_amount_spec(post_fee_amount, fee_numerator, fee_denominator) is Some,
        calculate_fee_spec(
            pre_fee_amount_spec(post_fee_amount, fee_numerator, fee_denominator)->0,
            fee_numerator,
            fee_denominator,
        ) is Some,
    ensures
        ({
            let pre_fee_amount = pre_fee_amount_spec(
                post_fee_amount,
                fee_numerator,
                fee_denominator,
            )->0;
            pre_fee_amount - calculate_fee_spec(
                pre_fee_amount,
                fee_numerator,
                fee_denominator,
            )->0 >= post_fee_amount
        }),
{
    let pre = pre_fee_amount_spec(post_fee_amount, fee_numerator, fee_denominator)->0 as int;
    let post = post_fee_amount as int;
    let n = fee_numerator as int;
    let d = fee_denominator as int;
    if post > 0 {
        let rest = d - n;
        let scaled = post * d;
        assert(scaled >= 0) by (nonlinear_arith)
            requires
                scaled == post * d,
                post > 0,
                d > 0,
        ;
        // pre is the least number with pre * (d - n) >= post * d
        assert(pre == (scaled + rest - 1) / rest);
        lemma_fundamental_div_mod(scaled + rest - 1, rest);
        assert(0 <= (scaled + rest - 1) % rest < rest) by (nonlinear_arith)
            requires
                rest > 0,
        ;
        assert(rest * pre >= scaled);
        assert(pre * d - pre * n >= post * d) by (nonlinear_arith)
            requires
                rest * pre >= scaled,
                rest == d - n,
                scaled == post * d,
        ;
        assert(pre > post) by (nonlinear_arith)
            requires
                pre * d - pre * n >= post * d,
                0 < n < d,
                post > 0,
        ;
        let share = (pre * n) / d;
        lemma_fundamental_div_mod(pre * n, d);
        assert(0 <= (pre * n) % d < d) by (nonlinear_arith)
            requires
                d > 0,
        ;
        assert(d * share <= pre * n);
        assert(pre - share >= post) by (nonlinear_arith)
            requires
                d * share <= pre * n,
                pre * d - pre * n >= post * d,
                d > 0,
        ;
    }
}

} // verus!
