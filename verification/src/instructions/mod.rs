//! The decisions of each pool operation: which accounts are acceptable,
//! which amounts move, and which failure is reported first.
//!
//! Every operation is a function from what its accounts hold to the
//! transfers, mints and burns to carry out. Nothing here touches an
//! account; carrying out the result is left to the caller.

pub mod accounts;
pub mod deposit_all_token_types;
pub mod deposit_single_token_type_exact_amount_in;
pub mod initialize_swap_pool;
pub mod one_sided;
pub mod swap;
pub mod withdraw_all_token_types;
pub mod withdraw_single_token_type_exact_amount_out;

pub use accounts::{Mint, TokenAccount};
pub use deposit_all_token_types::DepositAllTokenTypes;
pub use deposit_single_token_type_exact_amount_in::DepositSingleTokenTypeExactAmountIn;
pub use initialize_swap_pool::InitializeSwapPool;
pub use swap::Swap;
pub use withdraw_all_token_types::WithdrawAllTokenTypes;
pub use withdraw_single_token_type_exact_amount_out::WithdrawSingleTokenTypeExactAmountOut;
