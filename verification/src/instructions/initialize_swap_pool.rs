//! Setting up a new pool.

use crate::curve::calculator::{CurveCalculator, INITIAL_SWAP_POOL_AMOUNT};
use crate::errors::TokenSwapError;
use crate::instructions::accounts::{to_u64, Mint, TokenAccount};
use crate::state::pubkey::precedes;
use crate::state::{Pubkey, SwapPool};
use crate::types::{Fees, SwapCurveType};
use vstd::prelude::*;

verus! {

/// The bump seeds of the addresses that a pool derives.
#[derive(Clone, Copy, Debug, PartialEq, Eq, Structural)]
pub struct PoolBumps {
    /// Bump of the pool record.
    pub swap_pool: u8,
    /// Bump of the pool authority.
    pub authority: u8,
    /// Bump of the token A vault.
    pub vault_a: u8,
    /// Bump of the token B vault.
    pub vault_b: u8,
    /// Bump of the pool token mint.
    pub lpmint: u8,
}

/// What the set-up of a pool is handed.
#[derive(Clone, Copy, Debug)]
pub struct InitializeSwapPool {
    /// The address of the new pool record.
    pub swap_pool: Pubkey,
    /// The authority of the pool over its vaults and its mint.
    pub authority: Pubkey,
    /// The bump seeds of the derived addresses.
    pub bumps: PoolBumps,
    /// The pool's reserve of token A.
    pub vault_a: TokenAccount,
    /// The pool's reserve of token B.
    pub vault_b: TokenAccount,
    /// Pool Token Mint. Must be empty, owned by swap authority.
    pub lpmint: Mint,
    /// Pool Token Account to deposit trading and withdraw fees.
    pub fee_receiver: TokenAccount,
    /// The mint of token A.
    pub mint_a: Mint,
    /// The mint of token B.
    pub mint_b: Mint,
    /// The account that pays in the first token A.
    pub source_a: TokenAccount,
    /// The account that pays in the first token B.
    pub source_b: TokenAccount,
    /// The token program.
    pub token_program: Pubkey,
}

/// What the set-up of a pool writes and moves.
#[derive(Clone, Copy, Debug)]
pub struct InitializeTransfers {
    /// The record of the new pool.
    pub swap_pool: SwapPool,
    /// Token A that goes from the first depositor into the reserve.
    pub initial_token_a_amount: u64,
    /// Token B that goes from the first depositor into the reserve.
    pub initial_token_b_amount: u64,
    /// Pool tokens minted to the first depositor.
    pub initial_lpmint_supply: u64,
}

/// The version written into a new pool record.
pub const SWAP_POOL_VERSION: u8 = 2;

/// The mint of USDC, which a pool always holds as token B.
pub open spec fn usdc_mint_spec() -> Pubkey {
    Pubkey {
        bytes: [
            198u8,
            250u8,
            122u8,
            243u8,
            190u8,
            219u8,
            173u8,
            58u8,
            61u8,
            101u8,
            243u8,
            106u8,
            171u8,
            201u8,
            116u8,
            49u8,
            177u8,
            187u8,
            228u8,
            194u8,
            210u8,
            246u8,
            224u8,
            228u8,
            124u8,
            166u8,
            2u8,
            3u8,
            69u8,
            47u8,
            93u8,
            97u8,
        ],
    }
}

/// The fees that every new pool starts with: 0.25% for the pool, 0.05%
/// for the owner, a fifth of the owner's fee for a host, nothing on
/// withdrawals.
pub open spec fn initial_fees_spec() -> Fees {
    Fees {
        trade_fee_numerator: 25,
        trade_fee_denominator: 10_000,
        owner_trade_fee_numerator: 5,
        owner_trade_fee_denominator: 10_000,
        owner_withdraw_fee_numerator: 0,
        owner_withdraw_fee_denominator: 0,
        host_fee_numerator: 20,
        host_fee_denominator: 100,
    }
}

/// The mint of USDC.
pub fn usdc_mint() -> (key: Pubkey)
    ensures
        key == usdc_mint_spec(),
{
    Pubkey {
        bytes: [
            198u8,
            250u8,
            122u8,
            243u8,
            190u8,
            219u8,
            173u8,
            58u8,
            61u8,
            101u8,
            243u8,
            106u8,
            171u8,
            201u8,
            116u8,
            49u8,
            177u8,
            187u8,
            228u8,
            194u8,
            210u8,
            246u8,
            224u8,
            228u8,
            124u8,
            166u8,
            2u8,
            3u8,
            69u8,
            47u8,
            93u8,
            97u8,
        ],
    }
}

/// The fees that every new pool starts with.
pub fn initial_fees() -> (fees: Fees)
    ensures
        fees == initial_fees_spec(),
        fees.valid(),
{
    Fees {
        trade_fee_numerator: 25,
        trade_fee_denominator: 10_000,
        owner_trade_fee_numerator: 5,
        owner_trade_fee_denominator: 10_000,
        owner_withdraw_fee_numerator: 0,
        owner_withdraw_fee_denominator: 0,
        host_fee_numerator: 20,
        host_fee_denominator: 100,
    }
}

impl InitializeSwapPool {
    /// The two mints are distinct and in order: USDC is always token B;
    /// without USDC, the mint of token A comes before that of token B.
    pub open spec fn mint_order_spec(&self) -> Result<(), TokenSwapError> {
        if self.mint_a.key@ == self.mint_b.key@ {
            Err(TokenSwapError::RepeatedMint)
        } else if self.mint_a.key@ == usdc_mint_spec()@ {
            Err(TokenSwapError::IncorrectMintOrder)
        } else if self.mint_b.key@ != usdc_mint_spec()@ && !precedes(
            self.mint_a.key@,
            self.mint_b.key@,
        ) {
            Err(TokenSwapError::IncorrectMintOrder)
        } else {
            Ok(())
        }
    }

    /// The first fault among the accounts of a new pool: a pool mint that
    /// the authority does not control, mints that repeat or are out of
    /// order, a vault with a delegate or a close authority, a pool mint
    /// with tokens issued or with a freeze authority.
    pub open spec fn check_accounts_spec(&self) -> Result<(), TokenSwapError> {
        if self.lpmint.mint_authority is None || self.authority@
            != self.lpmint.mint_authority->0@ {
            Err(TokenSwapError::InvalidOwner)
        } else if self.mint_order_spec() is Err {
            self.mint_order_spec()
        } else if self.vault_a.delegate is Some {
            Err(TokenSwapError::InvalidDelegate)
        } else if self.vault_b.delegate is Some {
            Err(TokenSwapError::InvalidDelegate)
        } else if self.vault_a.close_authority is Some {
            Err(TokenSwapError::InvalidCloseAuthority)
        } else if self.vault_b.close_authority is Some {
            Err(TokenSwapError::InvalidCloseAuthority)
        } else if self.lpmint.supply != 0 {
            Err(TokenSwapError::InvalidSupply)
        } else if self.lpmint.freeze_authority is Some {
            Err(TokenSwapError::InvalidFreezeAuthority)
        } else {
            Ok(())
        }
    }

    /// The record of the new pool: a constant product curve with the
    /// initial fees, over the accounts handed in, with empty vaults and the
    /// initial supply of pool tokens.
    pub open spec fn record_spec(&self) -> SwapPool {
        SwapPool {
            version: SWAP_POOL_VERSION,
            bump: self.bumps.swap_pool,
            authority_bump: [self.bumps.authority],
            vault_a_bump: self.bumps.vault_a,
            vault_b_bump: self.bumps.vault_b,
            lpmint_bump: self.bumps.lpmint,
            swap_pool: self.swap_pool,
            authority: self.authority,
            mint_a: self.mint_a.key,
            mint_b: self.mint_b.key,
            lpmint: self.lpmint.key,
            vault_a: self.vault_a.key,
            vault_b: self.vault_b.key,
            fee_receiver: self.fee_receiver.key,
            token_program: self.token_program,
            fees: initial_fees_spec(),
            swap_curve_type: SwapCurveType::ConstantProductCurve,
            token_b_price_or_offset: 0,
            vault_a_balance: 0,
            vault_b_balance: 0,
            lpmint_supply: INITIAL_SWAP_POOL_AMOUNT as u64,
        }
    }

    /// What the set-up writes and moves, or the first reason why it is
    /// refused: a fault among the accounts, or a source account that
    /// holds nothing. The first depositor receives the whole initial
    /// supply of pool tokens.
    pub open spec fn execute_spec(
        &self,
        initial_token_a_amount: u64,
        initial_token_b_amount: u64,
    ) -> Result<InitializeTransfers, TokenSwapError> {
        match self.check_accounts_spec() {
            Err(e) => Err(e),
            Ok(()) => if self.source_a.amount == 0 || self.source_b.amount == 0 {
                Err(TokenSwapError::EmptySupply)
            } else {
                Ok(
                    InitializeTransfers {
                        swap_pool: self.record_spec(),
                        initial_token_a_amount,
                        initial_token_b_amount,
                        initial_lpmint_supply: INITIAL_SWAP_POOL_AMOUNT as u64,
                    },
                )
            },
        }
    }

    /// Checks that the two mints are distinct and in order.
    pub fn mint_order(&self) -> (outcome: Result<(), TokenSwapError>)
        ensures
            outcome == self.mint_order_spec(),
    {
        let usdc = usdc_mint();
        if self.mint_a.key.same_as(&self.mint_b.key) {
            return Err(TokenSwapError::RepeatedMint);
        }
        // USDC is always mint B. If USDC is not present, mints are in sorted order
        if self.mint_a.key.same_as(&usdc) {
            return Err(TokenSwapError::IncorrectMintOrder);
        }
        if !self.mint_b.key.same_as(&usdc) && !self.mint_a.key.is_before(&self.mint_b.key) {
            return Err(TokenSwapError::IncorrectMintOrder);
        }
        Ok(())
    }

    /// Checks the accounts of a new pool.
    pub fn check_accounts(&self) -> (outcome: Result<(), TokenSwapError>)
        ensures
            outcome == self.check_accounts_spec(),
    {
        match self.lpmint.mint_authority {
            None => { return Err(TokenSwapError::InvalidOwner); },
            Some(mint_authority) => {
                if !self.authority.same_as(&mint_authority) {
                    return Err(TokenSwapError::InvalidOwner);
                }
            },
        }
        self.mint_order()?;
        if self.vault_a.delegate.is_some() {
            return Err(TokenSwapError::InvalidDelegate);
        }
        if self.vault_b.delegate.is_some() {
            return Err(TokenSwapError::InvalidDelegate);
        }
        if self.vault_a.close_authority.is_some() {
            return Err(TokenSwapError::InvalidCloseAuthority);
        }
        if self.vault_b.close_authority.is_some() {
            return Err(TokenSwapError::InvalidCloseAuthority);
        }
        if self.lpmint.supply != 0 {
            return Err(TokenSwapError::InvalidSupply);
        }
        if self.lpmint.freeze_authority.is_some() {
            return Err(TokenSwapError::InvalidFreezeAuthority);
        }
        Ok(())
    }
}

/// Decides the set-up of a pool that starts with the two given
/// amounts.
pub fn execute(
    accounts: &InitializeSwapPool,
    initial_token_a_amount: u64,
    initial_token_b_amount: u64,
) -> (outcome: Result<InitializeTransfers, TokenSwapError>)
    ensures
        outcome == accounts.execute_spec(initial_token_a_amount, initial_token_b_amount),
        outcome is Ok ==> outcome->Ok_0.swap_pool.fees.valid()
            && outcome->Ok_0.swap_pool.swap_curve_spec().valid(),
{
    accounts.check_accounts()?;

    let fees = initial_fees();
    let swap_curve_type = SwapCurveType::ConstantProductCurve;
    let token_b_price_or_offset: u64 = 0;

    let swap_curve = swap_curve_type.try_into_swap_curve(token_b_price_or_offset)?;

    swap_curve.validate_supply(accounts.source_a.amount, accounts.source_b.amount)?;
    fees.validate()?;
    swap_curve.validate()?;

    let initial_lpmint_supply = match to_u64(swap_curve.new_pool_supply()) {
        Some(supply) => supply,
        None => { return Err(TokenSwapError::CalculationFailure); },
    };

    let swap_pool = SwapPool {
        version: SWAP_POOL_VERSION,
        bump: accounts.bumps.swap_pool,
        authority_bump: [accounts.bumps.authority],
        vault_a_bump: accounts.bumps.vault_a,
        vault_b_bump: accounts.bumps.vault_b,
        lpmint_bump: accounts.bumps.lpmint,
        swap_pool: accounts.swap_pool,
        authority: accounts.authority,
        mint_a: accounts.mint_a.key,
        mint_b: accounts.mint_b.key,
        lpmint: accounts.lpmint.key,
        vault_a: accounts.vault_a.key,
        vault_b: accounts.vault_b.key,
        fee_receiver: accounts.fee_receiver.key,
        token_program: accounts.token_program,
        fees,
        swap_curve_type,
        token_b_price_or_offset,
        vault_a_balance: 0,
        vault_b_balance: 0,
        lpmint_supply: initial_lpmint_supply,
    };
    Ok(
        InitializeTransfers {
            swap_pool,
            initial_token_a_amount,
            initial_token_b_amount,
            initial_lpmint_supply,
        },
    )
}

} // verus!
