//! What the two one-sided operations share: the user hands over an
//! account of token A or of token B, and that choice names the token.

use crate::instructions::accounts::TokenAccount;
use crate::state::Pubkey;
use crate::types::TradeDirection;
use vstd::prelude::*;

verus! {

/// The key of an account that may be absent.
pub open spec fn key_of(account: Option<TokenAccount>) -> Option<Pubkey> {
    match account {
        Some(account) => Some(account.key),
        None => None,
    }
}

/// The token that a one-sided operation moves: token A where an account
/// of token A is given, else token B where an account of token B is given.
pub open spec fn chosen_side(has_token_a: bool, has_token_b: bool) -> Option<TradeDirection> {
    if has_token_a {
        Some(TradeDirection::AtoB)
    } else if has_token_b {
        Some(TradeDirection::BtoA)
    } else {
        None
    }
}

/// The user's account of token A as far as the account check sees it:
/// present only where token A is the side chosen.
pub open spec fn user_a_spec(
    trade_direction: TradeDirection,
    token_a: Option<TokenAccount>,
) -> Option<Pubkey> {
    match trade_direction {
        TradeDirection::AtoB => key_of(token_a),
        TradeDirection::BtoA => None,
    }
}

/// The user's account of token B as far as the account check sees it:
/// present only where token B is the side chosen.
pub open spec fn user_b_spec(
    trade_direction: TradeDirection,
    token_b: Option<TokenAccount>,
) -> Option<Pubkey> {
    match trade_direction {
        TradeDirection::AtoB => None,
        TradeDirection::BtoA => key_of(token_b),
    }
}

} // verus!
