//! Margin accounts of synthetic assets: collateral against debt at an
//! oracle price.

pub mod errors;
pub mod margin_account;

pub use errors::Errors;
pub use margin_account::{MarginAccount, Price};
