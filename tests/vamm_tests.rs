use margined_engine::error::EngineError;
use margined_engine::math::{mul_div, mul_div_signed};
use margined_engine::position::{
    calc_remain_margin_with_funding_payment, direction_to_side, side_to_direction, Position, Side,
};
use margined_engine::vamm::{calculate_premium, Direction, LongShort, PremiumResponse, Vamm, VammConfig, VammState};

const D: u128 = 1_000_000_000;

fn curve() -> Vamm {
    Vamm {
        config: VammConfig {
            owner: 0,
            decimals: D,
            toll_ratio: 0,
            spread_ratio: 0,
            funding_period: 3_600,
            funding_buffer_period: 1_800,
        },
        state: VammState {
            quote_asset_reserve: 1_000 * D,
            base_asset_reserve: 100 * D,
            total_position_size: 0,
            funding_rate: 0,
            next_funding_time: 0,
        },
        reserve_snapshots: Vec::new(),
    }
}

#[test]
fn input_price_rounds_against_trader() {
    let v = curve();
    assert_eq!(v.get_input_price(Direction::AddToAmm, 600 * D), Ok(37_500_000_000));
    assert_eq!(v.get_input_price(Direction::RemoveFromAmm, 100 * D), Ok(11_111_111_112));
    assert_eq!(v.get_input_price(Direction::RemoveFromAmm, 1_000 * D), Err(EngineError::Arithmetic));
}

#[test]
fn output_price_rounds_against_trader() {
    let v = curve();
    assert_eq!(v.get_output_price(Direction::AddToAmm, 25 * D), Ok(200 * D));
    assert_eq!(v.get_output_price(Direction::RemoveFromAmm, 20 * D), Ok(250 * D));
    assert_eq!(v.get_output_price(Direction::AddToAmm, 50 * D), Ok(333_333_333_333));
    assert_eq!(v.get_output_price(Direction::RemoveFromAmm, 40 * D), Ok(666_666_666_667));
}

#[test]
fn swaps_move_reserves_and_snapshots() {
    let mut v = curve();
    assert_eq!(v.swap_input(Direction::AddToAmm, 600 * D, 0, 10, 1), Ok(37_500_000_000));
    assert_eq!(v.state.quote_asset_reserve, 1_600 * D);
    assert_eq!(v.state.base_asset_reserve, 62_500_000_000);
    assert_eq!(v.state.total_position_size, 37_500_000_000);
    assert_eq!(v.swap_output(Direction::AddToAmm, 37_500_000_000, 0, 11, 1), Ok(600 * D));
    assert_eq!(v.state.quote_asset_reserve, 1_000 * D);
    assert_eq!(v.state.total_position_size, 0);
    assert_eq!(v.reserve_snapshots.len(), 1);
    assert_eq!(v.reserve_snapshots[0].timestamp, 10);
    v.swap_input(Direction::AddToAmm, D, 0, 20, 2).unwrap();
    assert_eq!(v.reserve_snapshots.len(), 2);
    assert_eq!(v.swap_output(Direction::AddToAmm, D, 10_000 * D, 21, 3), Err(EngineError::SlippageExceeded));
}

#[test]
fn premium_and_settlement() {
    assert_eq!(calculate_premium(10, 12), PremiumResponse { value: 2, payer: LongShort::Long });
    assert_eq!(calculate_premium(12, 10), PremiumResponse { value: 2, payer: LongShort::Short });
    assert_eq!(PremiumResponse::default(), PremiumResponse { value: 0, payer: LongShort::Long });
    let mut v = curve();
    assert_eq!(v.settle_funding(0, 1_590_000_000, 1_830_000_000, 7_200), Ok(10_000_000));
    assert_eq!(v.state.next_funding_time, 10_800);
    assert_eq!(v.settle_funding(0, 1_830_000_000, 1_590_000_000, 10_700), Err(EngineError::FundingTooEarly));
    assert_eq!(v.settle_funding(0, 1_830_000_000, 1_590_000_000, 10_800), Ok(-10_000_000));
    assert_eq!(v.state.next_funding_time, 14_400);
    assert_eq!(v.settle_funding(0, 0, 1, 20_000), Err(EngineError::Arithmetic));
    assert_eq!(v.settle_funding(5, 1, 1, 20_000), Err(EngineError::Unauthorized));
    assert_eq!(v.settle_funding(0, 1, 1, 15_001), Ok(0));
    assert_eq!(v.state.next_funding_time, 21_600);
}

#[test]
fn side_direction_round_trip() {
    for side in [Side::Buy, Side::Sell] {
        assert_eq!(direction_to_side(side_to_direction(side)), side);
    }
    assert_eq!(side_to_direction(Side::Buy), Direction::AddToAmm);
}

#[test]
fn fixed_point_helpers() {
    assert_eq!(mul_div(60 * D, 10 * D, D), Ok(600 * D));
    assert_eq!(mul_div(1, 1, 0), Err(EngineError::Arithmetic));
    assert_eq!(mul_div(u128::MAX, 2, 1), Err(EngineError::Arithmetic));
    assert_eq!(mul_div_signed(-7, 3, 2), Ok(-10));
    assert_eq!(mul_div_signed(7, -3, -2), Ok(10));
}

#[test]
fn remaining_margin_with_funding() {
    let mut p = Position::new(1);
    p.size = 37_500_000_000;
    p.margin = 300 * D;
    let r = calc_remain_margin_with_funding_payment(&p, 0, 10_000_000, D).unwrap();
    assert_eq!(r.funding_payment, 375_000_000);
    assert_eq!(r.margin, 299_625_000_000);
    assert_eq!(r.bad_debt, 0);
    let r = calc_remain_margin_with_funding_payment(&p, -(400 * D as i128), 0, D).unwrap();
    assert_eq!(r.margin, 0);
    assert_eq!(r.bad_debt, 100 * D);
}
