//! Pricing and fee engine of a two-token liquidity pool.
//!
//! Given the pool's reserves, its fee schedule and its pricing curve, the
//! engine computes swap outputs, single-sided deposit and withdrawal
//! conversions and pool-token amounts (`curve`, `types`). On top of that
//! stand the decisions of each pool operation, from what the accounts hold
//! to what is moved (`instructions`, `state`), and the books of a margin
//! account for synthetic assets (`resynth`). Every function is a pure
//! function of its arguments and is verified against the contract it
//! carries.

pub mod curve;
pub mod errors;
pub mod instructions;
pub mod resynth;
pub mod state;
pub mod types;
