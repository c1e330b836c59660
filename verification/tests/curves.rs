use token_swap::curve::calculator::{
    div_round, map_zero_to_none, pool_tokens_to_trading_tokens, CurveCalculator,
    INITIAL_SWAP_POOL_AMOUNT,
};
use token_swap::curve::constant_price::{trading_tokens_to_pool_tokens, ConstantPriceCurve};
use token_swap::curve::constant_product::{
    deposit_single_token_type, swap, withdraw_single_token_type_exact_out, ConstantProductCurve,
};
use token_swap::curve::offset::OffsetCurve;
use token_swap::errors::TokenSwapError;
use token_swap::types::{
    Fees, RoundDirection, SwapCurve, SwapCurveType, SwapWithoutFeesResult, TradeDirection,
    TradingTokenResult,
};

#[test]
fn map_zero_to_none_keeps_what_is_not_zero() {
    assert_eq!(map_zero_to_none(0), None);
    assert_eq!(map_zero_to_none(1), Some(1));
    assert_eq!(map_zero_to_none(u128::MAX), Some(u128::MAX));
}

#[test]
fn div_round_in_both_directions() {
    assert_eq!(div_round(7, 2, RoundDirection::Floor), Some(3));
    assert_eq!(div_round(7, 2, RoundDirection::Ceiling), Some(4));
    assert_eq!(div_round(8, 2, RoundDirection::Floor), Some(4));
    assert_eq!(div_round(8, 2, RoundDirection::Ceiling), Some(4));
    assert_eq!(div_round(0, 2, RoundDirection::Ceiling), Some(0));
    assert_eq!(div_round(u128::MAX, 2, RoundDirection::Ceiling), Some(u128::MAX / 2 + 1));
    assert_eq!(div_round(u128::MAX, 1, RoundDirection::Ceiling), Some(u128::MAX));
    assert_eq!(div_round(7, 0, RoundDirection::Floor), None);
    assert_eq!(div_round(7, 0, RoundDirection::Ceiling), None);
}

#[test]
fn pool_tokens_are_a_pro_rata_share() {
    assert_eq!(
        pool_tokens_to_trading_tokens(10, 100, 1000, 55, RoundDirection::Floor),
        Some(TradingTokenResult { token_a_amount: 100, token_b_amount: 5 })
    );
    assert_eq!(
        pool_tokens_to_trading_tokens(10, 100, 1000, 55, RoundDirection::Ceiling),
        Some(TradingTokenResult { token_a_amount: 100, token_b_amount: 6 })
    );
    assert_eq!(
        pool_tokens_to_trading_tokens(1, 1000, 10, 10, RoundDirection::Ceiling),
        Some(TradingTokenResult { token_a_amount: 1, token_b_amount: 1 })
    );
    assert_eq!(
        pool_tokens_to_trading_tokens(1, 1000, 10, 10, RoundDirection::Floor),
        Some(TradingTokenResult { token_a_amount: 0, token_b_amount: 0 })
    );
    assert_eq!(pool_tokens_to_trading_tokens(10, 0, 1000, 55, RoundDirection::Floor), None);
    assert_eq!(pool_tokens_to_trading_tokens(u128::MAX, 5, 2, 1, RoundDirection::Floor), None);
    assert_eq!(pool_tokens_to_trading_tokens(u128::MAX, 5, 1, 2, RoundDirection::Floor), None);
}

#[test]
fn every_curve_starts_with_the_same_supply() {
    assert_eq!(INITIAL_SWAP_POOL_AMOUNT, 1_000_000_000);
    assert_eq!(ConstantProductCurve::new().new_pool_supply(), 1_000_000_000);
    assert_eq!(ConstantPriceCurve { token_b_price: 3 }.new_pool_supply(), 1_000_000_000);
    assert_eq!(OffsetCurve { token_b_offset: 3 }.new_pool_supply(), 1_000_000_000);
    assert_eq!(SwapCurve::default().new_pool_supply(), 1_000_000_000);
}

#[test]
fn constant_product_swap_rounds_what_is_left_up() {
    // 50000 - ceil(1000 * 50000 / 1100)
    assert_eq!(
        swap(100, 1000, 50000),
        Some(SwapWithoutFeesResult { source_amount_swapped: 100, destination_amount_swapped: 4545 })
    );
    // 50000 - ceil(1000 * 50000 / 1099)
    assert_eq!(
        swap(99, 1000, 50000),
        Some(SwapWithoutFeesResult { source_amount_swapped: 99, destination_amount_swapped: 4504 })
    );
    // an exact quotient: 100 - 1000 * 100 / 2000
    assert_eq!(
        swap(1000, 1000, 100),
        Some(SwapWithoutFeesResult { source_amount_swapped: 1000, destination_amount_swapped: 50 })
    );
}

#[test]
fn constant_product_swap_takes_in_the_whole_amount() {
    // 10 * 10 / 1010 rounds up to a reserve of 1
    assert_eq!(
        swap(1000, 10, 10),
        Some(SwapWithoutFeesResult { source_amount_swapped: 1000, destination_amount_swapped: 9 })
    );
}

#[test]
fn constant_product_swap_without_output_is_absent() {
    assert_eq!(swap(0, 1000, 50000), None);
    assert_eq!(swap(1, 50000, 10), None);
    assert_eq!(swap(1, 0, 0), None);
    assert_eq!(swap(0, 0, 0), None);
}

#[test]
fn constant_product_swap_is_absent_on_overflow() {
    assert_eq!(swap(1, u128::MAX, 2), None);
    assert_eq!(swap(u128::MAX, 1, 1), None);
}

#[test]
fn constant_product_swap_never_lowers_the_product() {
    let cases: [(u128, u128, u128); 6] = [
        (100, 1000, 50000),
        (1, 1000, 50000),
        (7, 3, 1_000_000),
        (1_000_000, 3, 7),
        (u64::MAX as u128, u64::MAX as u128, u64::MAX as u128),
        (12345, 67890, 13579),
    ];
    for (source_amount, source, destination) in cases {
        let result = swap(source_amount, source, destination).unwrap();
        let new_source = source + result.source_amount_swapped;
        let new_destination = destination - result.destination_amount_swapped;
        assert!(new_source.checked_mul(new_destination).unwrap() >= source * destination);
    }
}

#[test]
fn swap_with_fees_never_lowers_the_product() {
    let fees = Fees {
        trade_fee_numerator: 25,
        trade_fee_denominator: 10_000,
        owner_trade_fee_numerator: 5,
        owner_trade_fee_denominator: 10_000,
        ..Fees::default()
    };
    let curve = SwapCurve::ConstantProductCurve(ConstantProductCurve::new());
    for fees in [fees, Fees::default()] {
        let result = curve.swap(12_345, 1_000_000, 50_000_000, TradeDirection::BtoA, &fees).unwrap();
        assert!(
            result.new_swap_source_amount * result.new_swap_destination_amount
                >= 1_000_000 * 50_000_000
        );
        assert_eq!(result.new_swap_source_amount, 1_000_000 + 12_345);
        assert_eq!(result.source_amount_swapped, 12_345);
        assert_eq!(
            result.new_swap_destination_amount,
            50_000_000 - result.destination_amount_swapped
        );
    }
}

#[test]
fn fees_of_a_swap_never_exceed_the_source_amount() {
    let curve = SwapCurve::ConstantProductCurve(ConstantProductCurve::new());
    let fees = Fees {
        trade_fee_numerator: 1,
        trade_fee_denominator: 3,
        owner_trade_fee_numerator: 1,
        owner_trade_fee_denominator: 3,
        ..Fees::default()
    };
    for source_amount in [3u128, 4, 10, 1000, 999_999] {
        let result = curve.swap(source_amount, 1000, 50_000, TradeDirection::AtoB, &fees).unwrap();
        assert!(result.trade_fee + result.owner_fee <= source_amount);
    }
    // each fee is at least one token, so two tokens cannot pay both and still trade
    assert_eq!(curve.swap(1, 1000, 50_000, TradeDirection::AtoB, &fees), None);
    // fees of more than the whole amount: no swap
    let greedy = Fees {
        trade_fee_numerator: 2,
        trade_fee_denominator: 3,
        owner_trade_fee_numerator: 2,
        owner_trade_fee_denominator: 3,
        ..Fees::default()
    };
    assert_eq!(curve.swap(1000, 1000, 50_000, TradeDirection::AtoB, &greedy), None);
}

#[test]
fn swap_is_absent_where_a_fee_cannot_be_computed() {
    let curve = SwapCurve::ConstantProductCurve(ConstantProductCurve::new());
    let broken = Fees { trade_fee_numerator: 1, trade_fee_denominator: 0, ..Fees::default() };
    assert_eq!(curve.swap(100, 1000, 50_000, TradeDirection::AtoB, &broken), None);
    let broken = Fees { owner_trade_fee_numerator: 1, owner_trade_fee_denominator: 0, ..Fees::default() };
    assert_eq!(curve.swap(100, 1000, 50_000, TradeDirection::AtoB, &broken), None);
}

#[test]
fn constant_product_deposit_follows_the_square_root() {
    // sqrt(1 + 3000 / 1000) - 1 = 1: the supply doubles
    assert_eq!(
        deposit_single_token_type(3000, 1000, 5, 1000, TradeDirection::AtoB, RoundDirection::Floor),
        Some(1000)
    );
    assert_eq!(
        deposit_single_token_type(3000, 5, 1000, 1000, TradeDirection::BtoA, RoundDirection::Floor),
        Some(1000)
    );
    // sqrt(2) - 1 = 0.414213562373
    assert_eq!(
        deposit_single_token_type(1000, 1000, 5, 1_000_000, TradeDirection::AtoB, RoundDirection::Floor),
        Some(414_213)
    );
    assert_eq!(
        deposit_single_token_type(1000, 1000, 5, 1_000_000, TradeDirection::AtoB, RoundDirection::Ceiling),
        Some(414_214)
    );
    assert_eq!(
        deposit_single_token_type(0, 1000, 5, 1_000_000, TradeDirection::AtoB, RoundDirection::Floor),
        Some(0)
    );
}

#[test]
fn constant_product_deposit_is_absent_for_an_empty_reserve() {
    assert_eq!(
        deposit_single_token_type(10, 0, 5, 1000, TradeDirection::AtoB, RoundDirection::Floor),
        None
    );
    assert_eq!(
        deposit_single_token_type(10, 5, 0, 1000, TradeDirection::BtoA, RoundDirection::Floor),
        None
    );
}

#[test]
fn constant_product_deposit_beyond_128_bits_is_absent() {
    assert_eq!(
        deposit_single_token_type(
            1 << 127,
            1,
            1,
            u128::MAX,
            TradeDirection::AtoB,
            RoundDirection::Floor
        ),
        None
    );
    assert_eq!(
        deposit_single_token_type(
            u64::MAX as u128,
            1,
            1,
            u64::MAX as u128,
            TradeDirection::AtoB,
            RoundDirection::Floor
        ),
        Some(79228162495817593515539431425)
    );
}

#[test]
fn constant_product_withdraw_follows_the_square_root() {
    // 1 - sqrt(1 - 750 / 1000) = 1 / 2
    assert_eq!(
        withdraw_single_token_type_exact_out(750, 1000, 5, 1000, TradeDirection::AtoB, RoundDirection::Ceiling),
        Some(500)
    );
    // 1 - sqrt(1 / 2) = 0.292893218813
    assert_eq!(
        withdraw_single_token_type_exact_out(500, 1000, 5, 1_000_000, TradeDirection::AtoB, RoundDirection::Ceiling),
        Some(292_894)
    );
    assert_eq!(
        withdraw_single_token_type_exact_out(500, 5, 1000, 1_000_000, TradeDirection::BtoA, RoundDirection::Floor),
        Some(292_893)
    );
    // more than the reserve costs the whole supply
    assert_eq!(
        withdraw_single_token_type_exact_out(2000, 1000, 5, 1000, TradeDirection::AtoB, RoundDirection::Ceiling),
        Some(1000)
    );
    assert_eq!(
        withdraw_single_token_type_exact_out(1, 0, 5, 1000, TradeDirection::AtoB, RoundDirection::Ceiling),
        None
    );
}

#[test]
fn constant_product_curve_rules() {
    let curve = ConstantProductCurve::new();
    assert_eq!(curve, ConstantProductCurve { unused: 0 });
    assert_eq!(ConstantProductCurve::default(), curve);
    assert_eq!(curve.validate(), Ok(()));
    assert_eq!(curve.validate_supply(1, 1), Ok(()));
    assert_eq!(curve.validate_supply(0, 1), Err(TokenSwapError::EmptySupply));
    assert_eq!(curve.validate_supply(1, 0), Err(TokenSwapError::EmptySupply));
    assert_eq!(curve.validate_supply(0, 0), Err(TokenSwapError::EmptySupply));
    assert!(curve.allows_deposits());
    assert!(curve.allows_withdrawals());
    assert_eq!(
        curve.swap_without_fees(100, 1000, 50000, TradeDirection::BtoA),
        Some(SwapWithoutFeesResult { source_amount_swapped: 100, destination_amount_swapped: 4545 })
    );
    assert_eq!(
        CurveCalculator::deposit_single_token_type(&curve, 1000, 1000, 5, 1_000_000, TradeDirection::AtoB),
        Some(414_213)
    );
    assert_eq!(
        CurveCalculator::withdraw_single_token_type_exact_out(
            &curve,
            500,
            1000,
            5,
            1_000_000,
            TradeDirection::AtoB,
            RoundDirection::Ceiling
        ),
        Some(292_894)
    );
    assert_eq!(
        curve.pool_tokens_to_trading_tokens(10, 100, 1000, 55, RoundDirection::Ceiling),
        Some(TradingTokenResult { token_a_amount: 100, token_b_amount: 6 })
    );
}

#[test]
fn constant_price_swap_uses_the_fixed_rate() {
    let curve = ConstantPriceCurve { token_b_price: 3 };
    assert_eq!(
        curve.swap_without_fees(10, 100, 100, TradeDirection::AtoB),
        Some(SwapWithoutFeesResult { source_amount_swapped: 10, destination_amount_swapped: 3 })
    );
    assert_eq!(
        curve.swap_without_fees(10, 100, 100, TradeDirection::BtoA),
        Some(SwapWithoutFeesResult { source_amount_swapped: 10, destination_amount_swapped: 30 })
    );
}

#[test]
fn constant_price_swap_is_capped_at_the_reserve() {
    let curve = ConstantPriceCurve { token_b_price: 3 };
    assert_eq!(
        curve.swap_without_fees(10, 100, 2, TradeDirection::AtoB),
        Some(SwapWithoutFeesResult { source_amount_swapped: 10, destination_amount_swapped: 2 })
    );
    assert_eq!(
        curve.swap_without_fees(10, 100, 29, TradeDirection::BtoA),
        Some(SwapWithoutFeesResult { source_amount_swapped: 10, destination_amount_swapped: 29 })
    );
    assert_eq!(curve.swap_without_fees(10, 100, 0, TradeDirection::BtoA), None);
}

#[test]
fn constant_price_swap_without_output_is_absent() {
    let curve = ConstantPriceCurve { token_b_price: 3 };
    assert_eq!(curve.swap_without_fees(2, 100, 100, TradeDirection::AtoB), None);
    assert_eq!(curve.swap_without_fees(0, 100, 100, TradeDirection::BtoA), None);
    assert_eq!(curve.swap_without_fees(u128::MAX, 100, 100, TradeDirection::BtoA), None);
    let free = ConstantPriceCurve { token_b_price: 0 };
    assert_eq!(free.swap_without_fees(10, 100, 100, TradeDirection::AtoB), None);
    assert_eq!(free.swap_without_fees(10, 100, 100, TradeDirection::BtoA), None);
}

#[test]
fn constant_price_pool_tokens_by_value() {
    // the pool is worth 100 + 100 * 3 = 400 in token A
    assert_eq!(
        trading_tokens_to_pool_tokens(3, 30, 100, 100, 1000, TradeDirection::AtoB, RoundDirection::Floor),
        Some(75)
    );
    assert_eq!(
        trading_tokens_to_pool_tokens(3, 30, 100, 100, 1000, TradeDirection::BtoA, RoundDirection::Floor),
        Some(225)
    );
    assert_eq!(
        trading_tokens_to_pool_tokens(3, 31, 100, 100, 1000, TradeDirection::AtoB, RoundDirection::Floor),
        Some(77)
    );
    assert_eq!(
        trading_tokens_to_pool_tokens(3, 31, 100, 100, 1000, TradeDirection::AtoB, RoundDirection::Ceiling),
        Some(78)
    );
    assert_eq!(
        trading_tokens_to_pool_tokens(3, 31, 0, 0, 1000, TradeDirection::AtoB, RoundDirection::Ceiling),
        None
    );
    assert_eq!(
        trading_tokens_to_pool_tokens(3, u128::MAX, 1, 1, 1, TradeDirection::BtoA, RoundDirection::Floor),
        None
    );
    assert_eq!(
        trading_tokens_to_pool_tokens(3, 1, 1, u128::MAX, 1, TradeDirection::AtoB, RoundDirection::Floor),
        None
    );
    assert_eq!(
        trading_tokens_to_pool_tokens(3, u128::MAX, 1, 1, 2, TradeDirection::AtoB, RoundDirection::Floor),
        None
    );
}

#[test]
fn constant_price_curve_rules() {
    let curve = ConstantPriceCurve { token_b_price: 3 };
    assert_eq!(curve.validate(), Ok(()));
    assert_eq!(ConstantPriceCurve { token_b_price: 0 }.validate(), Err(TokenSwapError::InvalidCurve));
    assert_eq!(curve.validate_supply(1, 0), Ok(()));
    assert_eq!(curve.validate_supply(0, 1), Err(TokenSwapError::EmptySupply));
    assert!(curve.allows_deposits());
    assert!(curve.allows_withdrawals());
    assert_eq!(
        curve.deposit_single_token_type(31, 100, 100, 1000, TradeDirection::AtoB),
        Some(77)
    );
    assert_eq!(
        curve.withdraw_single_token_type_exact_out(
            31,
            100,
            100,
            1000,
            TradeDirection::AtoB,
            RoundDirection::Ceiling
        ),
        Some(78)
    );
    assert_eq!(
        curve.pool_tokens_to_trading_tokens(10, 100, 1000, 55, RoundDirection::Floor),
        Some(TradingTokenResult { token_a_amount: 100, token_b_amount: 5 })
    );
}

#[test]
fn offset_swap_prices_with_the_offset() {
    let curve = OffsetCurve { token_b_offset: 100 };
    // buying B: 150 - ceil(1000 * 150 / 1100) = 13
    assert_eq!(
        curve.swap_without_fees(100, 1000, 50, TradeDirection::AtoB),
        Some(SwapWithoutFeesResult { source_amount_swapped: 100, destination_amount_swapped: 13 })
    );
    // selling B: 1000 - ceil(150 * 1000 / 250) = 400
    assert_eq!(
        curve.swap_without_fees(100, 50, 1000, TradeDirection::BtoA),
        Some(SwapWithoutFeesResult { source_amount_swapped: 100, destination_amount_swapped: 400 })
    );
}

#[test]
fn offset_swap_is_capped_at_the_real_reserve() {
    let curve = OffsetCurve { token_b_offset: 100 };
    // the price gives 105 - ceil(1000 * 105 / 1100) = 9, the reserve holds 5
    assert_eq!(
        curve.swap_without_fees(100, 1000, 5, TradeDirection::AtoB),
        Some(SwapWithoutFeesResult { source_amount_swapped: 100, destination_amount_swapped: 5 })
    );
    assert_eq!(curve.swap_without_fees(100, 1000, 0, TradeDirection::AtoB), None);
}

#[test]
fn offset_swap_is_absent_on_overflow() {
    let curve = OffsetCurve { token_b_offset: 100 };
    assert_eq!(curve.swap_without_fees(100, 1000, u128::MAX, TradeDirection::AtoB), None);
    assert_eq!(curve.swap_without_fees(100, u128::MAX, 1000, TradeDirection::BtoA), None);
}

#[test]
fn offset_curve_rules() {
    let curve = OffsetCurve { token_b_offset: 100 };
    assert_eq!(curve.validate(), Ok(()));
    assert_eq!(OffsetCurve { token_b_offset: 0 }.validate(), Err(TokenSwapError::InvalidCurve));
    assert_eq!(curve.validate_supply(1, 0), Ok(()));
    assert_eq!(curve.validate_supply(0, 5), Err(TokenSwapError::EmptySupply));
    assert!(!curve.allows_deposits());
    assert!(curve.allows_withdrawals());
    assert_eq!(curve.deposit_single_token_type(3000, 1000, 900, 1000, TradeDirection::AtoB), None);
    // token B is priced at 900 + 100
    assert_eq!(
        curve.withdraw_single_token_type_exact_out(
            750,
            5,
            900,
            1000,
            TradeDirection::BtoA,
            RoundDirection::Ceiling
        ),
        Some(500)
    );
    assert_eq!(
        curve.withdraw_single_token_type_exact_out(
            750,
            5,
            u128::MAX,
            1000,
            TradeDirection::BtoA,
            RoundDirection::Ceiling
        ),
        None
    );
    // shares are of the real reserves
    assert_eq!(
        curve.pool_tokens_to_trading_tokens(10, 100, 1000, 55, RoundDirection::Floor),
        Some(TradingTokenResult { token_a_amount: 100, token_b_amount: 5 })
    );
}

#[test]
fn swap_curve_type_builds_the_curve() {
    assert_eq!(
        SwapCurveType::ConstantProductCurve.try_into_swap_curve(77),
        Ok(SwapCurve::ConstantProductCurve(ConstantProductCurve { unused: 0 }))
    );
    assert_eq!(
        SwapCurveType::ConstantPriceCurve.try_into_swap_curve(77),
        Ok(SwapCurve::ConstantPriceCurve(ConstantPriceCurve { token_b_price: 77 }))
    );
    assert_eq!(
        SwapCurveType::OffsetCurve.try_into_swap_curve(77),
        Ok(SwapCurve::OffsetCurve(OffsetCurve { token_b_offset: 77 }))
    );
    assert_eq!(
        SwapCurveType::ConstantPriceCurve.try_into_swap_curve(0),
        Err(TokenSwapError::InvalidCurve)
    );
    assert_eq!(SwapCurveType::OffsetCurve.try_into_swap_curve(0), Err(TokenSwapError::InvalidCurve));
    assert_eq!(
        SwapCurve::default(),
        SwapCurve::ConstantProductCurve(ConstantProductCurve { unused: 0 })
    );
}

#[test]
fn swap_curve_hands_on_to_its_curve() {
    let price = SwapCurve::ConstantPriceCurve(ConstantPriceCurve { token_b_price: 3 });
    let offset = SwapCurve::OffsetCurve(OffsetCurve { token_b_offset: 100 });
    let product = SwapCurve::default();
    assert_eq!(
        price.swap_without_fees(10, 100, 100, TradeDirection::BtoA),
        Some(SwapWithoutFeesResult { source_amount_swapped: 10, destination_amount_swapped: 30 })
    );
    assert_eq!(
        offset.swap_without_fees(100, 1000, 50, TradeDirection::AtoB),
        Some(SwapWithoutFeesResult { source_amount_swapped: 100, destination_amount_swapped: 13 })
    );
    assert_eq!(
        product.swap_without_fees(100, 1000, 50000, TradeDirection::AtoB),
        Some(SwapWithoutFeesResult { source_amount_swapped: 100, destination_amount_swapped: 4545 })
    );
    assert!(product.allows_deposits() && price.allows_deposits() && !offset.allows_deposits());
    assert!(product.allows_withdrawals() && price.allows_withdrawals() && offset.allows_withdrawals());
    assert_eq!(product.validate(), Ok(()));
    assert_eq!(price.validate(), Ok(()));
    assert_eq!(offset.validate(), Ok(()));
    assert_eq!(product.validate_supply(1, 0), Err(TokenSwapError::EmptySupply));
    assert_eq!(price.validate_supply(1, 0), Ok(()));
    assert_eq!(offset.validate_supply(1, 0), Ok(()));
    assert_eq!(
        SwapCurve::OffsetCurve(OffsetCurve { token_b_offset: 0 }).validate(),
        Err(TokenSwapError::InvalidCurve)
    );
    assert_eq!(
        CurveCalculator::deposit_single_token_type(&price, 31, 100, 100, 1000, TradeDirection::AtoB),
        Some(77)
    );
    assert_eq!(
        CurveCalculator::deposit_single_token_type(&offset, 31, 100, 100, 1000, TradeDirection::AtoB),
        None
    );
    assert_eq!(
        CurveCalculator::withdraw_single_token_type_exact_out(
            &price,
            31,
            100,
            100,
            1000,
            TradeDirection::AtoB,
            RoundDirection::Floor
        ),
        Some(77)
    );
    assert_eq!(
        offset.pool_tokens_to_trading_tokens(10, 100, 1000, 55, RoundDirection::Ceiling),
        Some(TradingTokenResult { token_a_amount: 100, token_b_amount: 6 })
    );
}

#[test]
fn swap_with_fees_on_a_constant_price_curve() {
    let curve = SwapCurve::ConstantPriceCurve(ConstantPriceCurve { token_b_price: 3 });
    let fees = Fees {
        trade_fee_numerator: 1,
        trade_fee_denominator: 10,
        owner_trade_fee_numerator: 1,
        owner_trade_fee_denominator: 20,
        ..Fees::default()
    };
    // fees of 10 and 5 leave 85, which buys 28 of token B
    let result = curve.swap(100, 1000, 1000, TradeDirection::AtoB, &fees).unwrap();
    assert_eq!(result.trade_fee, 10);
    assert_eq!(result.owner_fee, 5);
    assert_eq!(result.source_amount_swapped, 100);
    assert_eq!(result.destination_amount_swapped, 28);
    assert_eq!(result.new_swap_source_amount, 1100);
    assert_eq!(result.new_swap_destination_amount, 972);
    assert_eq!(curve.swap(100, u128::MAX, 1000, TradeDirection::AtoB, &fees), None);
}

#[test]
fn one_sided_deposit_takes_fees_on_half() {
    let curve = SwapCurve::ConstantProductCurve(ConstantProductCurve::new());
    let fees = Fees {
        trade_fee_numerator: 25,
        trade_fee_denominator: 1_000,
        owner_trade_fee_numerator: 5,
        owner_trade_fee_denominator: 1_000,
        ..Fees::default()
    };
    assert_eq!(
        curve.deposit_single_token_type(0, 1_000_000, 50_000_000, 1_000_000, TradeDirection::AtoB, &fees),
        Some(0)
    );
    assert_eq!(
        curve.deposit_single_token_type(10_000, 1_000_000, 50_000_000, 1_000_000, TradeDirection::AtoB, &fees),
        Some(4912)
    );
    // half of one token still counts as one, and each fee is at least one
    assert_eq!(
        curve.deposit_single_token_type(1, 1000, 1000, 1000, TradeDirection::AtoB, &fees),
        None
    );
    // without fees the whole amount is converted
    assert_eq!(
        curve.deposit_single_token_type(3000, 1000, 5, 1000, TradeDirection::AtoB, &Fees::default()),
        Some(1000)
    );
    let price = SwapCurve::ConstantPriceCurve(ConstantPriceCurve { token_b_price: 3 });
    // fees of 25 and 5 per thousand on 500 are 12 and 2: 986 of 4000 in value
    assert_eq!(
        price.deposit_single_token_type(1000, 1000, 1000, 1000, TradeDirection::AtoB, &fees),
        Some(246)
    );
    let offset = SwapCurve::OffsetCurve(OffsetCurve { token_b_offset: 100 });
    assert_eq!(
        offset.deposit_single_token_type(1000, 1000, 1000, 1000, TradeDirection::AtoB, &fees),
        None
    );
}

#[test]
fn one_sided_withdrawal_raises_half_by_the_fees() {
    let curve = SwapCurve::ConstantProductCurve(ConstantProductCurve::new());
    let fees = Fees {
        trade_fee_numerator: 25,
        trade_fee_denominator: 1_000,
        owner_trade_fee_numerator: 5,
        owner_trade_fee_denominator: 1_000,
        ..Fees::default()
    };
    assert_eq!(
        curve.withdraw_single_token_type_exact_out(0, 1_010_000, 50_000_000, 1_004_912, TradeDirection::BtoA, &fees),
        Some(0)
    );
    assert_eq!(
        curve.withdraw_single_token_type_exact_out(
            480_340,
            1_010_000,
            50_000_000,
            1_004_912,
            TradeDirection::BtoA,
            &fees
        ),
        Some(4914)
    );
    assert_eq!(
        curve.withdraw_single_token_type_exact_out(750, 1000, 5, 1000, TradeDirection::AtoB, &Fees::default()),
        Some(500)
    );
    assert_eq!(
        curve.withdraw_single_token_type_exact_out(u128::MAX, 1000, 5, 1000, TradeDirection::AtoB, &fees),
        None
    );
    let price = SwapCurve::ConstantPriceCurve(ConstantPriceCurve { token_b_price: 3 });
    // half of 1000 is raised to ceil(500 * 100 / 97) = 516: 1016 of 4000 in value
    assert_eq!(
        price.withdraw_single_token_type_exact_out(1000, 1000, 1000, 1000, TradeDirection::AtoB, &fees),
        Some(254)
    );
}

#[test]
fn constant_price_round_trip_gains_nothing() {
    // 31 of token A into a pool worth 400: floor(1000 * 31 / 400) pool tokens
    let minted =
        trading_tokens_to_pool_tokens(3, 31, 100, 100, 1000, TradeDirection::AtoB, RoundDirection::Floor)
            .unwrap();
    assert_eq!(minted, 77);
    // and out of the pool worth 431: ceil(1077 * 31 / 431)
    let burned = trading_tokens_to_pool_tokens(
        3,
        31,
        131,
        100,
        1000 + minted,
        TradeDirection::AtoB,
        RoundDirection::Ceiling,
    )
    .unwrap();
    assert_eq!(burned, 78);
    assert!(burned >= minted);
    for (amount, a, b, supply) in [(1u128, 1u128, 1u128, 1u128), (7, 0, 3, 10), (1000, 3, 0, 1), (5, 9, 9, 1_000_000)] {
        for direction in [TradeDirection::AtoB, TradeDirection::BtoA] {
            let minted =
                trading_tokens_to_pool_tokens(3, amount, a, b, supply, direction, RoundDirection::Floor)
                    .unwrap();
            let (a_after, b_after) = match direction {
                TradeDirection::AtoB => (a + amount, b),
                TradeDirection::BtoA => (a, b + amount),
            };
            let burned = trading_tokens_to_pool_tokens(
                3,
                amount,
                a_after,
                b_after,
                supply + minted,
                direction,
                RoundDirection::Ceiling,
            )
            .unwrap();
            assert!(burned >= minted);
        }
    }
}
