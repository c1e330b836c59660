//! A margin account and its health.

use crate::resynth::errors::Errors;
use crate::state::Pubkey;
use vstd::prelude::*;

verus! {

/// The numerator of value of one lamport of collateral
pub const COLLATERAL_VALUE_NUMERATOR: u64 = 1;

/// The denominator of value of one lamport of collateral
/// Collateral mint is hardcoded to 6 decimals, for now.
pub const COLLATERAL_VALUE_DENOMINATOR: u64 = 1_000_000;

/// The numerator of the ratio of collateral to debt that a healthy
/// account keeps: one and a half.
pub const COLLATERAL_RATIO_NUMERATOR: u64 = 15;

/// The denominator of the ratio of collateral to debt that a healthy
/// account keeps.
pub const COLLATERAL_RATIO_DENOMINATOR: u64 = 10;

/// The decimals that a collateral mint must have, since one unit of
/// collateral is taken to be worth one dollar.
pub const COLLATERAL_DECIMALS: u8 = 6;

/// A price with a degree of uncertainty at a certain time, represented as a
/// price +- a confidence interval, both scaled by `10^expo`.
#[derive(Clone, Copy, Debug, PartialEq, Eq, Structural)]
pub struct Price {
    /// Price.
    pub price: i64,
    /// Confidence interval.
    pub conf: u64,
    /// Exponent.
    pub expo: i32,
    /// Publish time.
    pub publish_time: i64,
}

/// What an owner has put up and borrowed against one synthetic asset.
#[derive(Clone, Copy, Debug)]
pub struct MarginAccount {
    pub owner: Pubkey,
    pub synthetic_asset: Pubkey,
    pub collateral_deposited: u64,
    pub synthetic_asset_borrowed: u64,
}

/// `10^exponent`.
pub open spec fn power_of_ten(exponent: nat) -> nat
    decreases exponent,
{
    if exponent == 0 {
        1
    } else {
        10 * power_of_ten((exponent - 1) as nat)
    }
}

/// Powers of ten grow with the exponent.
pub proof fn lemma_power_of_ten_grows(low: nat, high: nat)
    requires
        low <= high,
    ensures
        1 <= power_of_ten(low) <= power_of_ten(high),
    decreases high,
{
    if low == 0 {
        if high > 0 {
            lemma_power_of_ten_grows(0, (high - 1) as nat);
        }
    } else {
        lemma_power_of_ten_grows((low - 1) as nat, (high - 1) as nat);
    }
}

/// `10^exponent` where it fits in 64 bits.
pub fn ten_to_the(exponent: u32) -> (power: u64)
    requires
        power_of_ten(exponent as nat) <= u64::MAX,
    ensures
        power == power_of_ten(exponent as nat),
{
    let mut power: u64 = 1;
    let mut i: u32 = 0;
    while i < exponent
        invariant
            i <= exponent,
            power == power_of_ten(i as nat),
            power_of_ten(exponent as nat) <= u64::MAX,
        decreases exponent - i,
    {
        proof {
            lemma_power_of_ten_grows((i + 1) as nat, exponent as nat);
        }
        power = power * 10;
        i = i + 1;
    }
    power
}

/// Accepts a collateral mint with six decimals and no other.
pub fn validate_collateral_decimals(decimals: u8) -> (outcome: Result<(), Errors>)
    ensures
        outcome is Ok <==> decimals == COLLATERAL_DECIMALS,
        outcome is Err ==> outcome == Err::<(), Errors>(Errors::InvalidCollateralMintDecimals),
{
    if decimals == COLLATERAL_DECIMALS {
        Ok(())
    } else {
        Err(Errors::InvalidCollateralMintDecimals)
    }
}

impl MarginAccount {
    /// The collateral, at one dollar per million lamports, covers one and
    /// a half times the debt at `price * 10^-exponent` dollars per unit:
    /// with the divisions multiplied out,
    /// `collateral * 10 * 10^exponent >= price * debt * 1000000 * 15`.
    pub open spec fn healthy_spec(&self, price: nat, exponent: nat) -> bool {
        self.collateral_deposited * COLLATERAL_VALUE_NUMERATOR * COLLATERAL_RATIO_DENOMINATOR
            * power_of_ten(exponent) >= price * self.synthetic_asset_borrowed
            * COLLATERAL_VALUE_DENOMINATOR * COLLATERAL_RATIO_NUMERATOR
    }

    /// The health of the account can be computed at `oracle_price` within
    /// the machine's integers: the exponent is not positive and, for a price
    /// that is not negative, neither side of the comparison overflows.
    pub open spec fn in_range(&self, oracle_price: Price) -> bool {
        &&& oracle_price.expo <= 0
        &&& oracle_price.price >= 0 ==> {
            &&& power_of_ten((-oracle_price.expo) as nat) <= u64::MAX
            &&& self.collateral_deposited * COLLATERAL_VALUE_NUMERATOR
                * COLLATERAL_RATIO_DENOMINATOR <= u64::MAX
            &&& oracle_price.price * self.synthetic_asset_borrowed * COLLATERAL_VALUE_DENOMINATOR
                * COLLATERAL_RATIO_NUMERATOR <= u128::MAX
        }
    }

    /// Books collateral put up and synthetic asset borrowed.
    pub fn mint_synthetic_asset(&mut self, collateral_amount: u64, mint_amount: u64)
        requires
            old(self).collateral_deposited + collateral_amount <= u64::MAX,
            old(self).synthetic_asset_borrowed + mint_amount <= u64::MAX,
        ensures
            final(self).collateral_deposited == old(self).collateral_deposited + collateral_amount,
            final(self).synthetic_asset_borrowed == old(self).synthetic_asset_borrowed
                + mint_amount,
            final(self).owner == old(self).owner,
            final(self).synthetic_asset == old(self).synthetic_asset,
    {
        self.collateral_deposited = self.collateral_deposited + collateral_amount;
        self.synthetic_asset_borrowed = self.synthetic_asset_borrowed + mint_amount;
    }

    /// Books collateral taken back and synthetic asset repaid.
    pub fn burn_synthetic_asset(&mut self, collateral_amount: u64, burn_amount: u64)
        requires
            old(self).collateral_deposited >= collateral_amount,
            old(self).synthetic_asset_borrowed >= burn_amount,
        ensures
            final(self).collateral_deposited == old(self).collateral_deposited - collateral_amount,
            final(self).synthetic_asset_borrowed == old(self).synthetic_asset_borrowed
                - burn_amount,
            final(self).owner == old(self).owner,
            final(self).synthetic_asset == old(self).synthetic_asset,
    {
        self.collateral_deposited = self.collateral_deposited - collateral_amount;
        self.synthetic_asset_borrowed = self.synthetic_asset_borrowed - burn_amount;
    }

    /// Whether the collateral covers one and a half times the debt at the
    /// oracle's price. A negative price counts as no cover at all.
    pub fn verify_healthy(&self, oracle_price: Price) -> (outcome: Result<bool, Errors>)
        requires
            self.in_range(oracle_price),
        ensures
            oracle_price.price < 0 ==> outcome == Err::<bool, Errors>(Errors::Undercollateralized),
            oracle_price.price >= 0 ==> outcome == Ok::<bool, Errors>(
                self.healthy_spec(oracle_price.price as nat, (-oracle_price.expo) as nat),
            ),
    {
        if oracle_price.price < 0 {
            return Err(Errors::Undercollateralized);
        }
        let price = oracle_price.price as u64;
        let price_expo = (0 - oracle_price.expo as i64) as u32;

        let collateral: u64 = self.collateral_deposited * COLLATERAL_VALUE_NUMERATOR
            * COLLATERAL_RATIO_DENOMINATOR;
        let scale: u64 = ten_to_the(price_expo);
        assert(collateral as u128 * scale as u128 <= u128::MAX) by (nonlinear_arith)
            requires
                collateral <= u64::MAX,
                scale <= u64::MAX,
        ;
        let debt = self.synthetic_asset_borrowed;
        assert(price * debt <= price * debt * COLLATERAL_VALUE_DENOMINATOR
            * COLLATERAL_RATIO_NUMERATOR && price * debt * COLLATERAL_VALUE_DENOMINATOR <= price
            * debt * COLLATERAL_VALUE_DENOMINATOR * COLLATERAL_RATIO_NUMERATOR)
            by (nonlinear_arith);
        let healthy = collateral as u128 * scale as u128 >= price as u128 * debt as u128
            * COLLATERAL_VALUE_DENOMINATOR as u128 * COLLATERAL_RATIO_NUMERATOR as u128;
        Ok(healthy)
    }

    /// Whether `verify_healthy` can work at `oracle_price` without leaving
    /// the machine's integers.
    pub fn can_verify(&self, oracle_price: Price) -> (possible: bool)
        ensures
            possible == self.in_range(oracle_price),
    {
        if oracle_price.expo > 0 {
            return false;
        }
        if oracle_price.price < 0 {
            return true;
        }
        // 10^19 is the last power of ten below 2^64
        if oracle_price.expo < -19 {
            proof {
                lemma_power_of_ten_twenty();
                lemma_power_of_ten_grows(20, (-oracle_price.expo) as nat);
            }
            return false;
        }
        proof {
            lemma_power_of_ten_twenty();
            lemma_power_of_ten_grows((-oracle_price.expo) as nat, 19);
        }
        if self.collateral_deposited > u64::MAX / COLLATERAL_RATIO_DENOMINATOR {
            return false;
        }
        let price = oracle_price.price as u128;
        let debt = self.synthetic_asset_borrowed as u128;
        assert(price * debt <= 0x7FFF_FFFF_FFFF_FFFF * 0xFFFF_FFFF_FFFF_FFFF) by (nonlinear_arith)
            requires
                price <= 0x7FFF_FFFF_FFFF_FFFF,
                debt <= 0xFFFF_FFFF_FFFF_FFFF,
        ;
        let owed = price * debt;
        let factor = COLLATERAL_VALUE_DENOMINATOR as u128 * COLLATERAL_RATIO_NUMERATOR as u128;
        assert(owed * COLLATERAL_VALUE_DENOMINATOR * COLLATERAL_RATIO_NUMERATOR == owed
            * factor) by (nonlinear_arith)
            requires
                factor == COLLATERAL_VALUE_DENOMINATOR * COLLATERAL_RATIO_NUMERATOR,
        ;
        owed.checked_mul(factor).is_some()
    }
}

/// `10^19` fits in 64 bits and `10^20` does not.
pub proof fn lemma_power_of_ten_twenty()
    ensures
        power_of_ten(19) == 10_000_000_000_000_000_000,
        power_of_ten(20) == 100_000_000_000_000_000_000,
{
    reveal_with_fuel(power_of_ten, 21);
}

} // verus!
