//! What a pool keeps between operations.

pub mod pubkey;
pub mod swap_pool;

pub use pubkey::Pubkey;
pub use swap_pool::SwapPool;
