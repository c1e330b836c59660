//! The failures a pool operation can end in.

use vstd::prelude::*;

verus! {

/// Every way in which an operation on a swap pool is rejected.
#[derive(Clone, Copy, Debug, PartialEq, Eq, Structural)]
pub enum TokenSwapError {
    /// Swap pool is already initialized
    AlreadyInitialized,
    /// General calculation failure due to overflow or underflow
    CalculationFailure,
    /// Input token account empty
    EmptySupply,
    /// Swap instruction exceeds desired slippage limit
    ExceededSlippage,
    /// Fee calculation failed due to overflow, underflow, or unexpected 0
    FeeCalculationFailure,
    /// Address of the provided pool token mint is incorrect
    IncorrectPoolMint,
    /// Address of the provided swap token account is incorrect
    IncorrectSwapAccount,
    /// Invalid authority provided
    InvalidAuthority,
    /// Token account has a close authority
    InvalidCloseAuthority,
    /// The provided curve parameters are invalid
    InvalidCurve,
    /// Token account has a delegate
    InvalidDelegate,
    /// The provided fee does not match the program owner's constraints
    InvalidFee,
    /// The pool fee receiver is invalid
    InvalidFeeReceiver,
    /// Pool token mint has a freeze authority
    InvalidFreezeAuthority,
    /// InvalidInput
    InvalidInput,
    /// Input account owner is not the program address
    InvalidOwner,
    /// Pool token mint has a non-zero supply
    InvalidSupply,
    /// Invalid token program
    InvalidTokenProgram,
    /// Invalid trade direction
    InvalidTradeDirection,
    /// Swap account in not initialized
    NotInitialized,
    /// Swap input token accounts have the same mint
    RepeatedMint,
    /// The operation cannot be performed on the given curve
    UnsupportedCurveOperation,
    /// Given pool token amount results in zero trading tokens
    ZeroTradingTokens,
    /// Mint B and A must switch places, because A must have lower
    /// lexicographical order than B (A < B)
    IncorrectMintOrder,
}

} // verus!
