//! The fee schedule of a pool.

use crate::curve::fees::{
    calculate_fee, calculate_fee_spec, pre_fee_amount, pre_fee_amount_spec, valid_fraction,
    validate_fraction,
};
use crate::errors::TokenSwapError;
use vstd::prelude::*;

verus! {

/// Encapsulates all fee information and calculations for swap operations
#[derive(Clone, Copy, Debug, PartialEq, Eq, Structural)]
pub struct Fees {
    /// Trade fees are extra token amounts that are held inside the token
    /// accounts during a trade, making the value of liquidity tokens rise.
    /// Trade fee numerator
    pub trade_fee_numerator: u64,
    /// Trade fee denominator
    pub trade_fee_denominator: u64,
    /// Owner trading fees are extra token amounts that are held inside the token
    /// accounts during a trade, with the equivalent in pool tokens minted to
    /// the owner of the program.
    /// Owner trade fee numerator
    pub owner_trade_fee_numerator: u64,
    /// Owner trade fee denominator
    pub owner_trade_fee_denominator: u64,
    /// Owner withdraw fees are extra liquidity pool token amounts that are
    /// sent to the owner on every withdrawal.
    /// Owner withdraw fee numerator
    pub owner_withdraw_fee_numerator: u64,
    /// Owner withdraw fee denominator
    pub owner_withdraw_fee_denominator: u64,
    /// Host fees are a proportion of the owner trading fees, sent to an
    /// extra account provided during the trade.
    /// Host trading fee numerator
    pub host_fee_numerator: u64,
    /// Host trading fee denominator
    pub host_fee_denominator: u64,
}

impl Default for Fees {
    /// The schedule with every fee switched off.
    fn default() -> (fees: Fees)
        ensures
            fees == Fees::zero(),
            fees.valid(),
    {
        Fees {
            trade_fee_numerator: 0,
            trade_fee_denominator: 0,
            owner_trade_fee_numerator: 0,
            owner_trade_fee_denominator: 0,
            owner_withdraw_fee_numerator: 0,
            owner_withdraw_fee_denominator: 0,
            host_fee_numerator: 0,
            host_fee_denominator: 0,
        }
    }
}

impl Fees {
    /// The schedule with every fee switched off.
    pub open spec fn zero() -> Fees {
        Fees {
            trade_fee_numerator: 0,
            trade_fee_denominator: 0,
            owner_trade_fee_numerator: 0,
            owner_trade_fee_denominator: 0,
            owner_withdraw_fee_numerator: 0,
            owner_withdraw_fee_denominator: 0,
            host_fee_numerator: 0,
            host_fee_denominator: 0,
        }
    }

    /// Each of the four fractions is switched off or strictly less than one.
    pub open spec fn valid(&self) -> bool {
        &&& valid_fraction(self.trade_fee_numerator, self.trade_fee_denominator)
        &&& valid_fraction(self.owner_trade_fee_numerator, self.owner_trade_fee_denominator)
        &&& valid_fraction(self.owner_withdraw_fee_numerator, self.owner_withdraw_fee_denominator)
        &&& valid_fraction(self.host_fee_numerator, self.host_fee_denominator)
    }

    /// The withdraw fee on `pool_tokens`.
    pub open spec fn owner_withdraw_fee_spec(&self, pool_tokens: u128) -> Option<u128> {
        calculate_fee_spec(
            pool_tokens,
            self.owner_withdraw_fee_numerator as u128,
            self.owner_withdraw_fee_denominator as u128,
        )
    }

    /// The trading fee on `trading_tokens`.
    pub open spec fn trading_fee_spec(&self, trading_tokens: u128) -> Option<u128> {
        calculate_fee_spec(
            trading_tokens,
            self.trade_fee_numerator as u128,
            self.trade_fee_denominator as u128,
        )
    }

    /// The owner trading fee on `trading_tokens`.
    pub open spec fn owner_trading_fee_spec(&self, trading_tokens: u128) -> Option<u128> {
        calculate_fee_spec(
            trading_tokens,
            self.owner_trade_fee_numerator as u128,
            self.owner_trade_fee_denominator as u128,
        )
    }

    /// The host's share of `owner_fee`.
    pub open spec fn host_fee_spec(&self, owner_fee: u128) -> Option<u128> {
        calculate_fee_spec(
            owner_fee,
            self.host_fee_numerator as u128,
            self.host_fee_denominator as u128,
        )
    }

    /// Trading fee and owner trading fee on `trading_tokens` together, where
    /// both exist and their sum stays within 128 bits.
    pub open spec fn total_trading_fee_spec(&self, trading_tokens: u128) -> Option<u128> {
        match (self.trading_fee_spec(trading_tokens), self.owner_trading_fee_spec(trading_tokens)) {
            (Some(trade_fee), Some(owner_fee)) => if trade_fee + owner_fee <= u128::MAX {
                Some((trade_fee + owner_fee) as u128)
            } else {
                None
            },
            _ => None,
        }
    }

    /// The amount that leaves `post_fee_amount` after the trading fee and
    /// the owner trading fee. Where one of the two is switched off the other
    /// is inverted alone; otherwise the two fractions are added,
    /// `(n1 * d2 + n2 * d1) / (d1 * d2)`, and the sum is inverted.
    pub open spec fn pre_trading_fee_amount_spec(&self, post_fee_amount: u128) -> Option<u128> {
        if self.trade_fee_numerator == 0 || self.trade_fee_denominator == 0 {
            pre_fee_amount_spec(
                post_fee_amount,
                self.owner_trade_fee_numerator as u128,
                self.owner_trade_fee_denominator as u128,
            )
        } else if self.owner_trade_fee_numerator == 0 || self.owner_trade_fee_denominator == 0 {
            pre_fee_amount_spec(
                post_fee_amount,
                self.trade_fee_numerator as u128,
                self.trade_fee_denominator as u128,
            )
        } else {
            let numerator = self.trade_fee_numerator * self.owner_trade_fee_denominator
                + self.owner_trade_fee_numerator * self.trade_fee_denominator;
            let denominator = self.trade_fee_denominator * self.owner_trade_fee_denominator;
            if numerator > u128::MAX {
                None
            } else {
                pre_fee_amount_spec(post_fee_amount, numerator as u128, denominator as u128)
            }
        }
    }

    /// Calculate the withdraw fee in pool tokens
    pub fn owner_withdraw_fee(&self, pool_tokens: u128) -> (fee: Option<u128>)
        ensures
            fee == self.owner_withdraw_fee_spec(pool_tokens),
    {
        calculate_fee(
            pool_tokens,
            self.owner_withdraw_fee_numerator as u128,
            self.owner_withdraw_fee_denominator as u128,
        )
    }

    /// Calculate the trading fee in trading tokens
    pub fn trading_fee(&self, trading_tokens: u128) -> (fee: Option<u128>)
        ensures
            fee == self.trading_fee_spec(trading_tokens),
    {
        calculate_fee(
            trading_tokens,
            self.trade_fee_numerator as u128,
            self.trade_fee_denominator as u128,
        )
    }

    /// Calculate the owner trading fee in trading tokens
    pub fn owner_trading_fee(&self, trading_tokens: u128) -> (fee: Option<u128>)
        ensures
            fee == self.owner_trading_fee_spec(trading_tokens),
    {
        calculate_fee(
            trading_tokens,
            self.owner_trade_fee_numerator as u128,
            self.owner_trade_fee_denominator as u128,
        )
    }

    /// Calculate the inverse trading amount, how much input is needed to give the
    /// provided output
    pub fn pre_trading_fee_amount(&self, post_fee_amount: u128) -> (amount: Option<u128>)
        ensures
            amount == self.pre_trading_fee_amount_spec(post_fee_amount),
    {
        if self.trade_fee_numerator == 0 || self.trade_fee_denominator == 0 {
            pre_fee_amount(
                post_fee_amount,
                self.owner_trade_fee_numerator as u128,
                self.owner_trade_fee_denominator as u128,
            )
        } else if self.owner_trade_fee_numerator == 0 || self.owner_trade_fee_denominator == 0 {
            pre_fee_amount(
                post_fee_amount,
                self.trade_fee_numerator as u128,
                self.trade_fee_denominator as u128,
            )
        } else {
            proof {
                lemma_u64_product_fits(self.trade_fee_numerator, self.owner_trade_fee_denominator);
                lemma_u64_product_fits(self.owner_trade_fee_numerator, self.trade_fee_denominator);
                lemma_u64_product_fits(
                    self.trade_fee_denominator,
                    self.owner_trade_fee_denominator,
                );
            }
            pre_fee_amount(
                post_fee_amount,
                (self.trade_fee_numerator as u128).checked_mul(
                    self.owner_trade_fee_denominator as u128,
                )?.checked_add(
                    (self.owner_trade_fee_numerator as u128).checked_mul(
                        self.trade_fee_denominator as u128,
                    )?,
                )?,
                (self.trade_fee_denominator as u128).checked_mul(
                    self.owner_trade_fee_denominator as u128,
                )?,
            )
        }
    }

    /// Calculate the host fee based on the owner fee, only used in production
    /// situations where a program is hosted by multiple frontends
    pub fn host_fee(&self, owner_fee: u128) -> (fee: Option<u128>)
        ensures
            fee == self.host_fee_spec(owner_fee),
    {
        calculate_fee(owner_fee, self.host_fee_numerator as u128, self.host_fee_denominator as u128)
    }

    /// Validate that the fees are reasonable
    pub fn validate(&self) -> (outcome: Result<(), TokenSwapError>)
        ensures
            outcome is Ok <==> self.valid(),
            outcome is Err ==> outcome == Err::<(), TokenSwapError>(TokenSwapError::InvalidFee),
    {
        validate_fraction(self.trade_fee_numerator, self.trade_fee_denominator)?;
        validate_fraction(self.owner_trade_fee_numerator, self.owner_trade_fee_denominator)?;
        validate_fraction(self.owner_withdraw_fee_numerator, self.owner_withdraw_fee_denominator)?;
        validate_fraction(self.host_fee_numerator, self.host_fee_denominator)?;
        Ok(())
    }
}

/// The product of two 64-bit numbers fits in 128 bits.
pub proof fn lemma_u64_product_fits(a: u64, b: u64)
    ensures
        a * b <= u128::MAX,
{
    assert(a * b <= 0xFFFF_FFFF_FFFF_FFFFu64 * 0xFFFF_FFFF_FFFF_FFFFu64) by (nonlinear_arith)
        requires
            a <= 0xFFFF_FFFF_FFFF_FFFFu64,
            b <= 0xFFFF_FFFF_FFFF_FFFFu64,
    ;
}

} // verus!
