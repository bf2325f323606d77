//! Positions and the margin, funding and PnL arithmetic on them.
use vstd::prelude::*;

use crate::error::EngineError;
use crate::math::{
    abs, abs_i, add_i, fits_i, mul_div_signed, mul_div_signed_spec, res_i, signed, sub_i,
};
use crate::vamm::Direction;

verus! {

/// The side of a trade: buying base (long) or selling it (short).
#[derive(Clone, Copy, Debug, PartialEq, Eq, Structural)]
pub enum Side {
    Buy,
    Sell,
}

/// Which price values a position for PnL.
#[derive(Clone, Copy, Debug, PartialEq, Eq, Structural)]
pub enum PnlCalcOption {
    SpotPrice,
    Twap,
}

/// A trader's position on one price curve. `size` is signed: positive is
/// long, negative short.
#[derive(Clone, Copy, Debug, PartialEq, Eq, Structural)]
pub struct Position {
    pub trader: u64,
    pub size: i128,
    /// Collateral backing the position.
    pub margin: u128,
    /// Quote value at cost basis.
    pub notional: u128,
    /// The cumulative premium fraction at the last settlement.
    pub last_updated_premium_fraction: i128,
    pub liquidity_history_index: u128,
    pub block_number: u64,
}

/// The margin left after a margin change and the funding owed since the
/// last settlement.
#[derive(Clone, Copy, Debug, PartialEq, Eq, Structural)]
pub struct RemainMarginResponse {
    /// Funding owed by the position (negative: owed to it).
    pub funding_payment: i128,
    pub margin: u128,
    /// The shortfall where the margin would have gone negative.
    pub bad_debt: u128,
    pub latest_premium_fraction: i128,
}

/// A position's current quote value and its unrealized PnL.
#[derive(Clone, Copy, Debug, PartialEq, Eq, Structural)]
pub struct PositionUnrealizedPnlResponse {
    pub position_notional: u128,
    pub unrealized_pnl: i128,
}

pub open spec fn direction_of_side(side: Side) -> Direction {
    if side == Side::Buy {
        Direction::AddToAmm
    } else {
        Direction::RemoveFromAmm
    }
}

pub open spec fn side_of_direction(dir: Direction) -> Side {
    if dir == Direction::AddToAmm {
        Side::Buy
    } else {
        Side::Sell
    }
}

/// Buying adds quote to the curve; selling removes it.
pub fn side_to_direction(side: Side) -> (r: Direction)
    ensures
        r == direction_of_side(side),
{
    match side {
        Side::Buy => Direction::AddToAmm,
        Side::Sell => Direction::RemoveFromAmm,
    }
}

/// The inverse of `side_to_direction`.
pub fn direction_to_side(direction: Direction) -> (r: Side)
    ensures
        r == side_of_direction(direction),
        direction_of_side(r) == direction,
{
    match direction {
        Direction::AddToAmm => Side::Buy,
        Direction::RemoveFromAmm => Side::Sell,
    }
}

impl Position {
    /// A position that holds nothing.
    pub open spec fn is_clear(self) -> bool {
        self.size == 0 && self.margin == 0 && self.notional == 0
    }

    /// The direction in which the position's base entered the curve: a long
    /// (or empty) position took quote in, a short one took it out.
    pub open spec fn direction(self) -> Direction {
        if self.size >= 0 {
            Direction::AddToAmm
        } else {
            Direction::RemoveFromAmm
        }
    }

    /// A fresh, empty position for `trader`.
    pub fn new(trader: u64) -> (r: Position)
        ensures
            r.trader == trader,
            r.is_clear(),
            r.last_updated_premium_fraction == 0,
            r.liquidity_history_index == 0,
            r.block_number == 0,
    {
        Position {
            trader,
            size: 0,
            margin: 0,
            notional: 0,
            last_updated_premium_fraction: 0,
            liquidity_history_index: 0,
            block_number: 0,
        }
    }

    /// See `direction`.
    pub fn get_direction(&self) -> (r: Direction)
        ensures
            r == self.direction(),
    {
        if self.size >= 0 {
            Direction::AddToAmm
        } else {
            Direction::RemoveFromAmm
        }
    }
}

/// The funding a position owes since its last settlement, given the latest
/// cumulative premium fraction: `(latest - last) * size / decimals`.
pub open spec fn funding_payment_of(p: Position, latest: int, decimals: int) -> Option<int> {
    let diff = latest - p.last_updated_premium_fraction;
    if fits_i(diff) && fits_i(decimals) {
        mul_div_signed_spec(diff, p.size as int, decimals)
    } else {
        None
    }
}

/// `margin - funding + delta`, `None` where a step leaves `i128`.
pub open spec fn net_margin_of(p: Position, delta: int, latest: int, decimals: int) -> Option<int> {
    match funding_payment_of(p, latest, decimals) {
        Some(fp) => if fits_i(fp) && fits_i(p.margin as int) && fits_i(p.margin - fp) && fits_i(
            p.margin - fp + delta,
        ) {
            Some(p.margin - fp + delta)
        } else {
            None
        },
        None => None,
    }
}

/// The remaining margin for a net amount: the net where it is not
/// negative, else zero with the shortfall as bad debt.
pub open spec fn remain_of(net: int, fp: int, latest: int) -> RemainMarginResponse {
    RemainMarginResponse {
        funding_payment: fp as i128,
        margin: if net >= 0 {
            net as u128
        } else {
            0
        },
        bad_debt: if net >= 0 {
            0
        } else {
            (-net) as u128
        },
        latest_premium_fraction: latest as i128,
    }
}

/// The funding a position owes since its last settlement.
pub fn calc_funding_payment(position: &Position, latest_premium_fraction: i128, decimals: u128) -> (r:
    Result<i128, EngineError>)
    ensures
        r == res_i(funding_payment_of(*position, latest_premium_fraction as int, decimals as int)),
{
    let diff = sub_i(latest_premium_fraction, position.last_updated_premium_fraction)?;
    let d = signed(false, decimals)?;
    mul_div_signed(diff, position.size, d)
}

/// The position's margin less the funding owed, plus `margin_delta`.
pub fn net_margin(
    position: &Position,
    margin_delta: i128,
    latest_premium_fraction: i128,
    decimals: u128,
) -> (r: Result<i128, EngineError>)
    ensures
        r == res_i(
            net_margin_of(
                *position,
                margin_delta as int,
                latest_premium_fraction as int,
                decimals as int,
            ),
        ),
{
    let fp = calc_funding_payment(position, latest_premium_fraction, decimals)?;
    let m = signed(false, position.margin)?;
    add_i(sub_i(m, fp)?, margin_delta)
}

/// Applies `margin_delta` and the funding owed to the position's margin.
/// A negative result leaves zero margin and its magnitude as bad debt.
pub fn calc_remain_margin_with_funding_payment(
    position: &Position,
    margin_delta: i128,
    latest_premium_fraction: i128,
    decimals: u128,
) -> (r: Result<RemainMarginResponse, EngineError>)
    ensures
        match r {
            Ok(rm) => {
                &&& net_margin_of(
                    *position,
                    margin_delta as int,
                    latest_premium_fraction as int,
                    decimals as int,
                ) is Some
                &&& rm == remain_of(
                    net_margin_of(
                        *position,
                        margin_delta as int,
                        latest_premium_fraction as int,
                        decimals as int,
                    ).unwrap(),
                    funding_payment_of(
                        *position,
                        latest_premium_fraction as int,
                        decimals as int,
                    ).unwrap(),
                    latest_premium_fraction as int,
                )
            },
            Err(e) => e == EngineError::Arithmetic && (net_margin_of(
                *position,
                margin_delta as int,
                latest_premium_fraction as int,
                decimals as int,
            ) is None),
        },
{
    let fp = calc_funding_payment(position, latest_premium_fraction, decimals)?;
    let net = net_margin(position, margin_delta, latest_premium_fraction, decimals)?;
    if net < 0 {
        Ok(
            RemainMarginResponse {
                funding_payment: fp,
                margin: 0,
                bad_debt: abs_i(net),
                latest_premium_fraction,
            },
        )
    } else {
        Ok(
            RemainMarginResponse {
                funding_payment: fp,
                margin: net as u128,
                bad_debt: 0,
                latest_premium_fraction,
            },
        )
    }
}

/// The unrealized PnL of a position valued at `value`: value minus cost for
/// a long, cost minus value for a short.
pub open spec fn pnl_of(p: Position, value: int) -> int {
    if p.size > 0 {
        value - p.notional
    } else {
        p.notional - value
    }
}

/// A position's unrealized PnL when it is worth `position_notional`. An
/// empty position is worth nothing and has no PnL.
pub fn unrealized_pnl(position: &Position, position_notional: u128) -> (r: Result<
    PositionUnrealizedPnlResponse,
    EngineError,
>)
    ensures
        match r {
            Ok(resp) => position.size != 0 && fits_i(position_notional as int) && fits_i(
                position.notional as int,
            ) && resp == (PositionUnrealizedPnlResponse {
                position_notional,
                unrealized_pnl: pnl_of(*position, position_notional as int) as i128,
            }) || position.size == 0 && resp == (PositionUnrealizedPnlResponse {
                position_notional: 0,
                unrealized_pnl: 0,
            }),
            Err(e) => e == EngineError::Arithmetic && position.size != 0 && !(fits_i(
                position_notional as int,
            ) && fits_i(position.notional as int)),
        },
{
    if position.size == 0 {
        return Ok(PositionUnrealizedPnlResponse { position_notional: 0, unrealized_pnl: 0 });
    }
    let value = signed(false, position_notional)?;
    let cost = signed(false, position.notional)?;
    let pnl = if position.size > 0 {
        sub_i(value, cost)?
    } else {
        sub_i(cost, value)?
    };
    Ok(PositionUnrealizedPnlResponse { position_notional, unrealized_pnl: pnl })
}

/// Of a spot and a time-weighted valuation, the one whose PnL has the larger
/// magnitude; the spot one on a tie.
pub open spec fn chosen_valuation(
    spot: PositionUnrealizedPnlResponse,
    twap: PositionUnrealizedPnlResponse,
) -> PositionUnrealizedPnlResponse {
    if abs(twap.unrealized_pnl as int) > abs(spot.unrealized_pnl as int) {
        twap
    } else {
        spot
    }
}

/// The margin ratio of a position from its spot and time-weighted
/// valuations: the valuation with the larger PnL magnitude is used, funding
/// is applied, and the net margin times the decimal base over the value is
/// taken, truncated toward zero. An empty position has ratio zero.
pub open spec fn margin_ratio_of(
    p: Position,
    spot: PositionUnrealizedPnlResponse,
    twap: PositionUnrealizedPnlResponse,
    latest: int,
    decimals: int,
) -> Option<int> {
    if p.size == 0 {
        Some(0)
    } else {
        let c = chosen_valuation(spot, twap);
        match net_margin_of(p, c.unrealized_pnl as int, latest, decimals) {
            Some(net) => if fits_i(decimals) && fits_i(c.position_notional as int)
                && c.position_notional != 0 {
                mul_div_signed_spec(net, decimals, c.position_notional as int)
            } else {
                None
            },
            None => None,
        }
    }
}

/// See `margin_ratio_of`.
pub fn margin_ratio(
    position: &Position,
    spot: PositionUnrealizedPnlResponse,
    twap: PositionUnrealizedPnlResponse,
    latest_premium_fraction: i128,
    decimals: u128,
) -> (r: Result<i128, EngineError>)
    ensures
        r == res_i(
            margin_ratio_of(
                *position,
                spot,
                twap,
                latest_premium_fraction as int,
                decimals as int,
            ),
        ),
{
    if position.size == 0 {
        return Ok(0);
    }
    let d = signed(false, decimals)?;
    let chosen = if abs_i(twap.unrealized_pnl) > abs_i(spot.unrealized_pnl) {
        twap
    } else {
        spot
    };
    let net = net_margin(position, chosen.unrealized_pnl, latest_premium_fraction, decimals)?;
    let value = signed(false, chosen.position_notional)?;
    if value == 0 {
        return Err(EngineError::Arithmetic);
    }
    mul_div_signed(net, d, value)
}

} // verus!
