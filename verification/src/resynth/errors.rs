//! The failures of a margin operation.

use vstd::prelude::*;

verus! {

/// Every way in which an operation on a margin account is rejected.
#[derive(Clone, Copy, Debug, PartialEq, Eq, Structural)]
pub enum Errors {
    /// The oracle account provided is invalid
    InvalidOracle,
    /// The oracle is stale
    StaleOracle,
    /// The margin account is undercollateralized
    Undercollateralized,
    /// Collateral decimals is required to be 6 because its value is hardcoded to $1
    InvalidCollateralMintDecimals,
}

} // verus!
