use rust_decimal::Decimal;
use std::str::FromStr;
use stillwater::decimal::Dec;
use stillwater::models::{Int256, Position, Swap, Uint256};
use stillwater::pnl::{
    calculate_fees_earned, calculate_impermanent_loss, calculate_net_pnl, calculate_position_pnl,
};
use stillwater::ticks::tick_to_price;

fn to_decimal(d: Dec) -> Decimal {
    Decimal::from_i128_with_scale(d.mantissa, d.scale)
}

fn from_str(s: &str) -> Dec {
    let d = Decimal::from_str(s).unwrap();
    Dec::new(d.mantissa(), d.scale())
}

fn whole(n: i128) -> Dec {
    Dec::new(n, 0)
}

fn create_test_position() -> Position {
    Position {
        id: 1,
        nft_id: "1".to_string(),
        owner: "0xtest".to_string(),
        pool_id: "0xpool".to_string(),
        tick_lower: -1000,
        tick_upper: 1000,
        liquidity: Uint256::from_u128(1000000),
        created_at: chrono::Utc::now().timestamp_micros(),
    }
}

fn create_test_swap(amount0: i64, amount1: i64) -> Swap {
    Swap {
        id: 1,
        tx_hash: "0xtx".to_string(),
        pool_id: "0xpool".to_string(),
        amount0: Int256::from_i64(amount0),
        amount1: Int256::from_i64(amount1),
        timestamp: chrono::Utc::now().timestamp_micros(),
    }
}

#[test]
fn test_calculate_fees_earned() {
    let position = create_test_position();
    let swaps = vec![create_test_swap(1000, 1000), create_test_swap(2000, 2000)];
    let fees = calculate_fees_earned(&position, &swaps);
    assert!(to_decimal(fees) > Decimal::ZERO);
}

#[test]
fn test_calculate_impermanent_loss_no_price_change() {
    let position = create_test_position();
    let price = whole(100);
    let il = calculate_impermanent_loss(&position, price, price);
    assert_eq!(to_decimal(il), Decimal::ZERO);
}

#[test]
fn test_calculate_impermanent_loss_price_increase() {
    let position = create_test_position();
    let il = calculate_impermanent_loss(&position, from_str("1.0"), from_str("1.1"));
    assert!(to_decimal(il) > Decimal::ZERO);
    assert!(to_decimal(il) < Decimal::from_str("0.1").unwrap());
}

#[test]
fn test_calculate_impermanent_loss_price_decrease() {
    let position = create_test_position();
    let il = calculate_impermanent_loss(&position, from_str("1.0"), from_str("0.9"));
    assert!(to_decimal(il) > Decimal::ZERO);
    assert!(to_decimal(il) < Decimal::from_str("0.1").unwrap());
}

#[test]
fn test_calculate_impermanent_loss_price_below_range() {
    let mut position = create_test_position();
    position.tick_lower = 10000;
    position.tick_upper = 20000;
    let initial_price = tick_to_price(15000);
    let current_price = tick_to_price(5000);
    let il = calculate_impermanent_loss(&position, initial_price, current_price);
    assert!(to_decimal(il) >= Decimal::ZERO);
}

#[test]
fn test_calculate_impermanent_loss_price_above_range() {
    let mut position = create_test_position();
    position.tick_lower = -20000;
    position.tick_upper = -10000;
    let initial_price = tick_to_price(-15000);
    let current_price = tick_to_price(-5000);
    let il = calculate_impermanent_loss(&position, initial_price, current_price);
    assert!(to_decimal(il) >= Decimal::ZERO);
}

#[test]
fn test_calculate_impermanent_loss_narrow_range() {
    let mut position = create_test_position();
    position.tick_lower = -100;
    position.tick_upper = 100;
    let il = calculate_impermanent_loss(&position, from_str("1.0"), from_str("1.05"));
    assert!(to_decimal(il) > Decimal::ZERO);
}

#[test]
fn test_calculate_impermanent_loss_wide_range() {
    let mut position = create_test_position();
    position.tick_lower = -10000;
    position.tick_upper = 10000;
    let il = calculate_impermanent_loss(&position, from_str("1.0"), from_str("1.05"));
    assert!(to_decimal(il) >= Decimal::ZERO);
}

#[test]
fn test_calculate_impermanent_loss_zero_liquidity() {
    let mut position = create_test_position();
    position.liquidity = Uint256::from_u128(0);
    let il = calculate_impermanent_loss(&position, whole(100), whole(110));
    assert_eq!(to_decimal(il), Decimal::ZERO);
}

#[test]
fn test_calculate_impermanent_loss_zero_price() {
    let position = create_test_position();
    let il = calculate_impermanent_loss(&position, Dec::zero(), whole(110));
    assert_eq!(to_decimal(il), Decimal::ZERO);
}

#[test]
fn test_calculate_impermanent_loss_large_price_increase() {
    let position = create_test_position();
    let il = calculate_impermanent_loss(&position, from_str("1.0"), from_str("2.0"));
    assert!(to_decimal(il) > Decimal::ZERO);
    assert!(to_decimal(il) < Decimal::from_str("1.0").unwrap());
}

#[test]
fn test_calculate_impermanent_loss_large_price_decrease() {
    let position = create_test_position();
    let il = calculate_impermanent_loss(&position, from_str("2.0"), from_str("1.0"));
    assert!(to_decimal(il) > Decimal::ZERO);
    assert!(to_decimal(il) < Decimal::from_str("1.0").unwrap());
}

#[test]
fn test_calculate_impermanent_loss_symmetry() {
    let position = create_test_position();
    let base_price = from_str("1.0");
    let il_up = to_decimal(calculate_impermanent_loss(&position, base_price, from_str("1.2")));
    let il_down = to_decimal(calculate_impermanent_loss(&position, base_price, from_str("0.8333")));
    assert!(il_up > Decimal::ZERO);
    assert!(il_down > Decimal::ZERO);
    let ratio = if il_up > il_down { il_up / il_down } else { il_down / il_up };
    assert!(ratio < Decimal::from_str("2.0").unwrap());
}

#[test]
fn test_calculate_impermanent_loss_initial_price_at_boundary() {
    let position = create_test_position();
    let initial_price = tick_to_price(position.tick_lower);
    let current_price = tick_to_price(0);
    let il = calculate_impermanent_loss(&position, initial_price, current_price);
    assert!(to_decimal(il) >= Decimal::ZERO);
}

#[test]
fn test_calculate_net_pnl() {
    let net = calculate_net_pnl(whole(100), whole(20), whole(10));
    assert_eq!(to_decimal(net), Decimal::from(70));
}

#[test]
fn test_calculate_position_pnl() {
    let position = create_test_position();
    let swaps = vec![create_test_swap(1000, 1000)];
    let gas_spent = whole(5);
    let pnl = calculate_position_pnl(&position, &swaps, whole(100), whole(105), gas_spent);
    assert!(to_decimal(pnl.fees_earned) >= Decimal::ZERO);
    assert!(to_decimal(pnl.impermanent_loss) >= Decimal::ZERO);
    assert_eq!(to_decimal(pnl.gas_spent), to_decimal(gas_spent));
}

#[test]
fn fees_of_two_swaps_are_exact() {
    let position = create_test_position();
    let swaps = vec![create_test_swap(1000, 1000), create_test_swap(2000, 2000)];
    let fees = calculate_fees_earned(&position, &swaps);
    assert_eq!(to_decimal(fees), Decimal::from_str("0.18").unwrap());
}

#[test]
fn fees_use_absolute_amounts() {
    let position = create_test_position();
    let swaps = vec![create_test_swap(-1000, 1000), create_test_swap(2000, -2000)];
    let fees = calculate_fees_earned(&position, &swaps);
    assert_eq!(to_decimal(fees), Decimal::from_str("0.18").unwrap());
}

#[test]
fn fees_of_no_swaps_are_zero() {
    let position = create_test_position();
    let fees = calculate_fees_earned(&position, &[]);
    assert_eq!(to_decimal(fees), Decimal::ZERO);
}

#[test]
fn fees_skip_amounts_beyond_decimal_range() {
    let position = create_test_position();
    let huge = Int256 { negative: false, magnitude: Uint256 { high: 1, low: 0 } };
    let swap = Swap { amount0: huge, ..create_test_swap(0, 1000) };
    let fees = calculate_fees_earned(&position, &[swap]);
    assert_eq!(to_decimal(fees), Decimal::from_str("0.03").unwrap());
}

#[test]
fn loss_for_ten_percent_rise_is_positive_and_below_a_tenth() {
    let position = create_test_position();
    let il = to_decimal(calculate_impermanent_loss(&position, from_str("1.0"), from_str("1.1")));
    assert!(il > Decimal::ZERO && il < Decimal::from_str("0.1").unwrap());
}

#[test]
fn equal_prices_of_different_scale_give_no_loss() {
    let position = create_test_position();
    let il = calculate_impermanent_loss(&position, from_str("1.50"), from_str("1.5"));
    assert_eq!(to_decimal(il), Decimal::ZERO);
}

#[test]
fn move_below_tolerance_gives_no_loss() {
    let position = create_test_position();
    let il = calculate_impermanent_loss(&position, from_str("1.0"), from_str("1.0000009"));
    assert_eq!(to_decimal(il), Decimal::ZERO);
}

#[test]
fn negative_price_gives_no_loss() {
    let position = create_test_position();
    let il = calculate_impermanent_loss(&position, from_str("-1.0"), from_str("1.1"));
    assert_eq!(to_decimal(il), Decimal::ZERO);
}

#[test]
fn liquidity_beyond_decimal_range_gives_no_loss() {
    let mut position = create_test_position();
    position.liquidity = Uint256 { high: 0, low: 1u128 << 100 };
    let il = calculate_impermanent_loss(&position, from_str("1.0"), from_str("1.1"));
    assert_eq!(to_decimal(il), Decimal::ZERO);
}

#[test]
fn narrower_range_loses_at_least_as_much() {
    let mut narrow = create_test_position();
    narrow.tick_lower = -100;
    narrow.tick_upper = 100;
    let mut wide = create_test_position();
    wide.tick_lower = -10000;
    wide.tick_upper = 10000;
    for (from_price, to_price) in [("1.0", "1.005"), ("1.0", "0.995"), ("1.0", "1.05"), ("1.0", "0.95")] {
        let il_narrow = to_decimal(calculate_impermanent_loss(&narrow, from_str(from_price), from_str(to_price)));
        let il_wide = to_decimal(calculate_impermanent_loss(&wide, from_str(from_price), from_str(to_price)));
        assert!(il_narrow >= il_wide, "{} -> {}: {} < {}", from_price, to_price, il_narrow, il_wide);
    }
}

#[test]
fn net_pnl_can_be_negative() {
    let net = calculate_net_pnl(from_str("0.18"), from_str("0.5"), whole(1));
    assert_eq!(to_decimal(net), Decimal::from_str("-1.32").unwrap());
}

#[test]
fn position_pnl_composes_its_parts() {
    let position = create_test_position();
    let swaps = vec![create_test_swap(1000, 1000), create_test_swap(2000, 2000)];
    let pnl = calculate_position_pnl(&position, &swaps, from_str("1.0"), from_str("1.1"), whole(0));
    assert_eq!(to_decimal(pnl.fees_earned), Decimal::from_str("0.18").unwrap());
    let il = to_decimal(calculate_impermanent_loss(&position, from_str("1.0"), from_str("1.1")));
    assert_eq!(to_decimal(pnl.impermanent_loss), il);
    assert_eq!(to_decimal(pnl.net_pnl), Decimal::from_str("0.18").unwrap() - il);
}
