//! The virtual constant-product price curve: pricing, swaps, reserve
//! snapshots and the premium used for funding.
use vstd::prelude::*;

use crate::error::EngineError;
use crate::math::{add_i, add_u, fits_u, mul_div, res_u, signed, sub_i, sub_u};

verus! {

pub const ONE_HOUR_IN_SECONDS: u64 = 3600;

pub const ONE_DAY_IN_SECONDS: u64 = 86400;

/// Which side of the curve's reserves the named asset enters.
#[derive(Clone, Copy, Debug, PartialEq, Eq, Structural)]
pub enum Direction {
    AddToAmm,
    RemoveFromAmm,
}

/// Which side pays funding.
#[derive(Clone, Copy, Debug, PartialEq, Eq, Structural)]
pub enum LongShort {
    Long,
    Short,
}

/// The magnitude of the premium and the side that pays it.
#[derive(Clone, Copy, Debug, PartialEq, Eq, Structural)]
pub struct PremiumResponse {
    pub value: u128,
    pub payer: LongShort,
}

impl Default for PremiumResponse {
    fn default() -> (r: Self)
        ensures
            r == (PremiumResponse { value: 0, payer: LongShort::Long }),
    {
        PremiumResponse { value: 0, payer: LongShort::Long }
    }
}

/// The reserves as they stood at the end of a block.
#[derive(Clone, Copy, Debug, PartialEq, Eq, Structural)]
pub struct ReserveSnapshot {
    pub quote_asset_reserve: u128,
    pub base_asset_reserve: u128,
    pub timestamp: u64,
    pub block_height: u64,
}

/// The fixed parameters of a price curve.
#[derive(Clone, Copy, Debug, PartialEq, Eq, Structural)]
pub struct VammConfig {
    pub owner: u64,
    pub decimals: u128,
    /// Fee ratio paid to the fee pool on each trade.
    pub toll_ratio: u128,
    /// Fee ratio paid to the insurance fund on each trade.
    pub spread_ratio: u128,
    pub funding_period: u64,
    pub funding_buffer_period: u64,
}

/// The moving state of a price curve.
#[derive(Clone, Copy, Debug, PartialEq, Eq, Structural)]
pub struct VammState {
    pub quote_asset_reserve: u128,
    pub base_asset_reserve: u128,
    /// Aggregate signed position size that traders hold against the curve.
    pub total_position_size: i128,
    pub funding_rate: u128,
    pub next_funding_time: u64,
}

/// One price curve: its parameters, its reserves and their history.
#[derive(Clone, Debug)]
pub struct Vamm {
    pub config: VammConfig,
    pub state: VammState,
    pub reserve_snapshots: Vec<ReserveSnapshot>,
}

/// The base amount that a swap of `amount` quote in direction `dir` moves,
/// given reserves `q` and `b`. The exact division result is rounded against
/// the trader: one unit less when quote enters, one more when it leaves.
pub open spec fn input_price(dir: Direction, amount: int, q: int, b: int, d: int) -> Option<int> {
    let q_after = if dir == Direction::AddToAmm {
        q + amount
    } else {
        q - amount
    };
    if !fits_u(q * b) || d == 0 || !fits_u(q_after) {
        None
    } else {
        let k = q * b / d;
        if !fits_u(k * d) || q_after == 0 {
            None
        } else {
            let b_after = k * d / q_after;
            let moved = if b_after > b {
                b_after - b
            } else {
                b - b_after
            };
            if (k * d) % q_after == 0 {
                Some(moved)
            } else if dir == Direction::AddToAmm {
                if moved >= 1 {
                    Some(moved - 1)
                } else {
                    None
                }
            } else {
                Some(moved + 1)
            }
        }
    }
}

/// The quote amount that a swap of `amount` base in direction `dir` moves,
/// given reserves `q` and `b`, rounded as `input_price` rounds.
pub open spec fn output_price(dir: Direction, amount: int, q: int, b: int, d: int) -> Option<int> {
    let b_after = if dir == Direction::AddToAmm {
        b + amount
    } else {
        b - amount
    };
    if !fits_u(q * b) || d == 0 || !fits_u(b_after) {
        None
    } else {
        let k = q * b / d;
        if !fits_u(k * d) || b_after == 0 {
            None
        } else {
            let q_after = k * d / b_after;
            let moved = if q_after > q {
                q_after - q
            } else {
                q - q_after
            };
            if (k * d) % b_after == 0 {
                Some(moved)
            } else if dir == Direction::AddToAmm {
                if moved >= 1 {
                    Some(moved - 1)
                } else {
                    None
                }
            } else {
                Some(moved + 1)
            }
        }
    }
}

/// The premium between the oracle's price and the curve's price.
pub open spec fn premium_of(underlying: u128, index: u128) -> PremiumResponse {
    if index > underlying {
        PremiumResponse { value: (index - underlying) as u128, payer: LongShort::Long }
    } else {
        PremiumResponse { value: (underlying - index) as u128, payer: LongShort::Short }
    }
}

/// The next funding time after a settlement at `now`: the later of the
/// buffer's end and the first hour boundary at or after `now + period`.
pub open spec fn next_funding_time_of(now: int, period: int, buffer: int) -> int {
    let x = now + period;
    let on_hour = (x / 3600 + (if x % 3600 == 0 {
        0int
    } else {
        1int
    })) * 3600;
    if on_hour > now + buffer {
        on_hour
    } else {
        now + buffer
    }
}

/// The reserves and aggregate size after `quote` and `base` move in direction
/// `dir` of the quote asset, `None` where a value leaves its type (the base
/// amount is a position size and so must fit a signed value).
pub open spec fn reserves_after(
    dir: Direction,
    quote: int,
    base: int,
    q: int,
    b: int,
    total: int,
) -> Option<(int, int, int)> {
    let r = if dir == Direction::AddToAmm {
        (q + quote, b - base, total + base)
    } else {
        (q - quote, b + base, total - base)
    };
    if base <= i128::MAX && fits_u(r.0) && fits_u(r.1) && i128::MIN <= r.2 <= i128::MAX {
        Some(r)
    } else {
        None
    }
}

/// Reverses a direction.
pub open spec fn flip(dir: Direction) -> Direction {
    if dir == Direction::AddToAmm {
        Direction::RemoveFromAmm
    } else {
        Direction::AddToAmm
    }
}

/// The snapshot history after the reserves became `q` and `b` at `height`:
/// the last snapshot is overwritten when it belongs to the same block.
pub open spec fn snapshots_after(
    s: Seq<ReserveSnapshot>,
    q: u128,
    b: u128,
    time: u64,
    height: u64,
) -> Seq<ReserveSnapshot> {
    if s.len() > 0 && s.last().block_height == height {
        s.drop_last().push(
            ReserveSnapshot {
                quote_asset_reserve: q,
                base_asset_reserve: b,
                timestamp: s.last().timestamp,
                block_height: height,
            },
        )
    } else {
        s.push(
            ReserveSnapshot {
                quote_asset_reserve: q,
                base_asset_reserve: b,
                timestamp: time,
                block_height: height,
            },
        )
    }
}

/// A swap that moved `base` base for quote in direction `dir` respects a
/// non-zero limit: at least the limit when quote enters, at most when it leaves.
pub open spec fn input_within_limit(dir: Direction, base: u128, limit: u128) -> bool {
    limit == 0 || (if dir == Direction::AddToAmm {
        base >= limit
    } else {
        base <= limit
    })
}

/// A swap that moved `quote` quote for base in direction `dir` respects a
/// non-zero limit: at least the limit when base enters, at most when it leaves.
pub open spec fn output_within_limit(dir: Direction, quote: u128, limit: u128) -> bool {
    limit == 0 || (if dir == Direction::AddToAmm {
        quote >= limit
    } else {
        quote <= limit
    })
}

impl VammConfig {
    /// The configuration with the given owner and fee ratios replaced.
    pub open spec fn updated(self, owner: Option<u64>, toll: Option<u128>, spread: Option<u128>) -> VammConfig {
        VammConfig {
            owner: if owner is Some {
                owner.unwrap()
            } else {
                self.owner
            },
            toll_ratio: if toll is Some {
                toll.unwrap()
            } else {
                self.toll_ratio
            },
            spread_ratio: if spread is Some {
                spread.unwrap()
            } else {
                self.spread_ratio
            },
            ..self
        }
    }
}

impl Vamm {
    /// The signed premium fraction a settlement at these prices returns:
    /// the premium over a day, scaled to the funding period, positive when
    /// longs pay.
    pub open spec fn premium_fraction_of(self, underlying: u128, index: u128) -> int {
        let p = premium_of(underlying, index);
        let fraction = p.value * self.config.funding_period / 86400;
        if p.payer == LongShort::Long {
            fraction
        } else {
            -fraction
        }
    }

    /// `new` is this curve after a funding settlement at `now` that returned
    /// the signed premium fraction `f`.
    pub open spec fn settled_to(self, new: Vamm, underlying: u128, index: u128, now: u64, f: i128) -> bool {
        let p = premium_of(underlying, index);
        let fraction = p.value * self.config.funding_period / 86400;
        &&& now >= self.state.next_funding_time
        &&& f == self.premium_fraction_of(underlying, index)
        &&& underlying > 0
        &&& new.state.funding_rate == fraction / underlying as int
        &&& new.state.next_funding_time == next_funding_time_of(
            now as int,
            self.config.funding_period as int,
            self.config.funding_buffer_period as int,
        )
        &&& new.state.quote_asset_reserve == self.state.quote_asset_reserve
        &&& new.state.base_asset_reserve == self.state.base_asset_reserve
        &&& new.state.total_position_size == self.state.total_position_size
        &&& new.config == self.config
        &&& new.reserve_snapshots@ == self.reserve_snapshots@
    }

    /// The base amount moved by a swap of `quote_asset_amount` quote against the given reserves.
    pub fn get_input_price_with_reserves(
        &self,
        direction: Direction,
        quote_asset_amount: u128,
        quote_asset_reserve: u128,
        base_asset_reserve: u128,
    ) -> (r: Result<u128, EngineError>)
        ensures
            r == res_u(
                input_price(
                    direction,
                    quote_asset_amount as int,
                    quote_asset_reserve as int,
                    base_asset_reserve as int,
                    self.config.decimals as int,
                ),
            ),
    {
        let d = self.config.decimals;
        let qb = match quote_asset_reserve.checked_mul(base_asset_reserve) {
            Some(v) => v,
            None => {
                return Err(EngineError::Arithmetic);
            },
        };
        if d == 0 {
            return Err(EngineError::Arithmetic);
        }
        let quote_after = match direction {
            Direction::AddToAmm => add_u(quote_asset_reserve, quote_asset_amount)?,
            Direction::RemoveFromAmm => sub_u(quote_asset_reserve, quote_asset_amount)?,
        };
        let k = qb / d;
        proof {
            assert(0 <= qb / d <= qb) by (nonlinear_arith)
                requires
                    d > 0,
                    qb >= 0,
            ;
        }
        let kd = match k.checked_mul(d) {
            Some(v) => v,
            None => {
                return Err(EngineError::Arithmetic);
            },
        };
        if quote_after == 0 {
            return Err(EngineError::Arithmetic);
        }
        let base_after = kd / quote_after;
        let moved = if base_after > base_asset_reserve {
            base_after - base_asset_reserve
        } else {
            base_asset_reserve - base_after
        };
        if kd % quote_after == 0 {
            Ok(moved)
        } else if direction == Direction::AddToAmm {
            sub_u(moved, 1)
        } else {
            add_u(moved, 1)
        }
    }

    /// The quote amount moved by a swap of `base_asset_amount` base against the given reserves.
    pub fn get_output_price_with_reserves(
        &self,
        direction: Direction,
        base_asset_amount: u128,
        quote_asset_reserve: u128,
        base_asset_reserve: u128,
    ) -> (r: Result<u128, EngineError>)
        ensures
            r == res_u(
                output_price(
                    direction,
                    base_asset_amount as int,
                    quote_asset_reserve as int,
                    base_asset_reserve as int,
                    self.config.decimals as int,
                ),
            ),
    {
        let d = self.config.decimals;
        let qb = match quote_asset_reserve.checked_mul(base_asset_reserve) {
            Some(v) => v,
            None => {
                return Err(EngineError::Arithmetic);
            },
        };
        if d == 0 {
            return Err(EngineError::Arithmetic);
        }
        let base_after = match direction {
            Direction::AddToAmm => add_u(base_asset_reserve, base_asset_amount)?,
            Direction::RemoveFromAmm => sub_u(base_asset_reserve, base_asset_amount)?,
        };
        let k = qb / d;
        proof {
            assert(0 <= qb / d <= qb) by (nonlinear_arith)
                requires
                    d > 0,
                    qb >= 0,
            ;
        }
        let kd = match k.checked_mul(d) {
            Some(v) => v,
            None => {
                return Err(EngineError::Arithmetic);
            },
        };
        if base_after == 0 {
            return Err(EngineError::Arithmetic);
        }
        let quote_after = kd / base_after;
        let moved = if quote_after > quote_asset_reserve {
            quote_after - quote_asset_reserve
        } else {
            quote_asset_reserve - quote_after
        };
        if kd % base_after == 0 {
            Ok(moved)
        } else if direction == Direction::AddToAmm {
            sub_u(moved, 1)
        } else {
            add_u(moved, 1)
        }
    }

    /// `new` is this curve after quote and base moved in direction `dir` of
    /// the quote asset at `time` and `height`.
    pub open spec fn moved_to(
        self,
        new: Vamm,
        dir: Direction,
        quote: u128,
        base: u128,
        time: u64,
        height: u64,
    ) -> bool {
        let after = reserves_after(
            dir,
            quote as int,
            base as int,
            self.state.quote_asset_reserve as int,
            self.state.base_asset_reserve as int,
            self.state.total_position_size as int,
        );
        &&& after is Some
        &&& new.state.quote_asset_reserve == after.unwrap().0
        &&& new.state.base_asset_reserve == after.unwrap().1
        &&& new.state.total_position_size == after.unwrap().2
        &&& new.state.funding_rate == self.state.funding_rate
        &&& new.state.next_funding_time == self.state.next_funding_time
        &&& new.config == self.config
        &&& new.reserve_snapshots@ == snapshots_after(
            self.reserve_snapshots@,
            new.state.quote_asset_reserve,
            new.state.base_asset_reserve,
            time,
            height,
        )
    }

    /// The base amount that `quote_asset_amount` quote would move at the current reserves.
    pub fn get_input_price(&self, direction: Direction, quote_asset_amount: u128) -> (r: Result<
        u128,
        EngineError,
    >)
        ensures
            r == res_u(
                input_price(
                    direction,
                    quote_asset_amount as int,
                    self.state.quote_asset_reserve as int,
                    self.state.base_asset_reserve as int,
                    self.config.decimals as int,
                ),
            ),
    {
        self.get_input_price_with_reserves(
            direction,
            quote_asset_amount,
            self.state.quote_asset_reserve,
            self.state.base_asset_reserve,
        )
    }

    /// The quote amount that `base_asset_amount` base would move at the current reserves.
    pub fn get_output_price(&self, direction: Direction, base_asset_amount: u128) -> (r: Result<
        u128,
        EngineError,
    >)
        ensures
            r == res_u(
                output_price(
                    direction,
                    base_asset_amount as int,
                    self.state.quote_asset_reserve as int,
                    self.state.base_asset_reserve as int,
                    self.config.decimals as int,
                ),
            ),
    {
        self.get_output_price_with_reserves(
            direction,
            base_asset_amount,
            self.state.quote_asset_reserve,
            self.state.base_asset_reserve,
        )
    }

    /// Records the reserves for the block at `height`.
    pub fn add_reserve_snapshot(
        &mut self,
        quote_asset_reserve: u128,
        base_asset_reserve: u128,
        time: u64,
        height: u64,
    )
        ensures
            final(self).reserve_snapshots@ == snapshots_after(
                old(self).reserve_snapshots@,
                quote_asset_reserve,
                base_asset_reserve,
                time,
                height,
            ),
            final(self).config == old(self).config,
            final(self).state == old(self).state,
    {
        let n = self.reserve_snapshots.len();
        if n > 0 && self.reserve_snapshots[n - 1].block_height == height {
            let last = self.reserve_snapshots.pop().unwrap();
            self.reserve_snapshots.push(
                ReserveSnapshot {
                    quote_asset_reserve,
                    base_asset_reserve,
                    timestamp: last.timestamp,
                    block_height: height,
                },
            );
        } else {
            self.reserve_snapshots.push(
                ReserveSnapshot { quote_asset_reserve, base_asset_reserve, timestamp: time, block_height: height },
            );
        }
    }

    /// Moves `quote_asset_amount` quote and `base_asset_amount` base in
    /// direction `direction` of the quote asset and records a snapshot.
    pub fn update_reserve(
        &mut self,
        direction: Direction,
        quote_asset_amount: u128,
        base_asset_amount: u128,
        time: u64,
        height: u64,
    ) -> (r: Result<(), EngineError>)
        ensures
            r is Ok <==> reserves_after(
                direction,
                quote_asset_amount as int,
                base_asset_amount as int,
                old(self).state.quote_asset_reserve as int,
                old(self).state.base_asset_reserve as int,
                old(self).state.total_position_size as int,
            ) is Some,
            r is Ok ==> old(self).moved_to(
                *final(self),
                direction,
                quote_asset_amount,
                base_asset_amount,
                time,
                height,
            ),
            r is Err ==> r == Err::<(), EngineError>(EngineError::Arithmetic) && *final(self)
                == *old(self),
    {
        let st = self.state;
        let base_i: i128 = if base_asset_amount <= i128::MAX as u128 {
            base_asset_amount as i128
        } else {
            return Err(EngineError::Arithmetic);
        };
        let (q, b, total) = match direction {
            Direction::AddToAmm => (
                add_u(st.quote_asset_reserve, quote_asset_amount)?,
                sub_u(st.base_asset_reserve, base_asset_amount)?,
                add_i(st.total_position_size, base_i)?,
            ),
            Direction::RemoveFromAmm => (
                sub_u(st.quote_asset_reserve, quote_asset_amount)?,
                add_u(st.base_asset_reserve, base_asset_amount)?,
                sub_i(st.total_position_size, base_i)?,
            ),
        };
        self.state = VammState {
            quote_asset_reserve: q,
            base_asset_reserve: b,
            total_position_size: total,
            ..st
        };
        self.add_reserve_snapshot(q, b, time, height);
        Ok(())
    }

    /// Swaps `quote_asset_amount` quote into (or out of) the curve and returns
    /// the base amount moved, which must respect `base_asset_limit`.
    pub fn swap_input(
        &mut self,
        direction: Direction,
        quote_asset_amount: u128,
        base_asset_limit: u128,
        time: u64,
        height: u64,
    ) -> (r: Result<u128, EngineError>)
        ensures
            match r {
                Ok(base) => {
                    &&& res_u(
                        input_price(
                            direction,
                            quote_asset_amount as int,
                            old(self).state.quote_asset_reserve as int,
                            old(self).state.base_asset_reserve as int,
                            old(self).config.decimals as int,
                        ),
                    ) == Ok::<u128, EngineError>(base)
                    &&& input_within_limit(direction, base, base_asset_limit)
                    &&& old(self).moved_to(
                        *final(self),
                        direction,
                        quote_asset_amount,
                        base,
                        time,
                        height,
                    )
                },
                Err(e) => *final(self) == *old(self) && (e == EngineError::SlippageExceeded
                    <==> exists|base: u128|
                    res_u(
                        input_price(
                            direction,
                            quote_asset_amount as int,
                            old(self).state.quote_asset_reserve as int,
                            old(self).state.base_asset_reserve as int,
                            old(self).config.decimals as int,
                        ),
                    ) == Ok::<u128, EngineError>(base) && !input_within_limit(
                        direction,
                        base,
                        base_asset_limit,
                    )),
            },
            res_u(
                input_price(
                    direction,
                    quote_asset_amount as int,
                    old(self).state.quote_asset_reserve as int,
                    old(self).state.base_asset_reserve as int,
                    old(self).config.decimals as int,
                ),
            ) matches Ok(base) && input_within_limit(direction, base, base_asset_limit)
                && reserves_after(
                direction,
                quote_asset_amount as int,
                base as int,
                old(self).state.quote_asset_reserve as int,
                old(self).state.base_asset_reserve as int,
                old(self).state.total_position_size as int,
            ) is Some ==> r is Ok,
            r is Err ==> r == Err::<u128, EngineError>(EngineError::Arithmetic) || r == Err::<
                u128,
                EngineError,
            >(EngineError::SlippageExceeded),
    {
        let base = self.get_input_price(direction, quote_asset_amount)?;
        if base_asset_limit != 0 {
            let ok = match direction {
                Direction::AddToAmm => base >= base_asset_limit,
                Direction::RemoveFromAmm => base <= base_asset_limit,
            };
            if !ok {
                assert(!input_within_limit(direction, base, base_asset_limit));
                return Err(EngineError::SlippageExceeded);
            }
        }
        self.update_reserve(direction, quote_asset_amount, base, time, height)?;
        Ok(base)
    }

    /// Swaps `base_asset_amount` base into (or out of) the curve and returns
    /// the quote amount moved, which must respect `quote_asset_limit`. Base
    /// entering the curve means quote leaves it, and the reverse.
    pub fn swap_output(
        &mut self,
        direction: Direction,
        base_asset_amount: u128,
        quote_asset_limit: u128,
        time: u64,
        height: u64,
    ) -> (r: Result<u128, EngineError>)
        ensures
            match r {
                Ok(quote) => {
                    &&& res_u(
                        output_price(
                            direction,
                            base_asset_amount as int,
                            old(self).state.quote_asset_reserve as int,
                            old(self).state.base_asset_reserve as int,
                            old(self).config.decimals as int,
                        ),
                    ) == Ok::<u128, EngineError>(quote)
                    &&& output_within_limit(direction, quote, quote_asset_limit)
                    &&& old(self).moved_to(
                        *final(self),
                        flip(direction),
                        quote,
                        base_asset_amount,
                        time,
                        height,
                    )
                },
                Err(e) => *final(self) == *old(self) && (e == EngineError::SlippageExceeded
                    <==> exists|quote: u128|
                    res_u(
                        output_price(
                            direction,
                            base_asset_amount as int,
                            old(self).state.quote_asset_reserve as int,
                            old(self).state.base_asset_reserve as int,
                            old(self).config.decimals as int,
                        ),
                    ) == Ok::<u128, EngineError>(quote) && !output_within_limit(
                        direction,
                        quote,
                        quote_asset_limit,
                    )),
            },
            res_u(
                output_price(
                    direction,
                    base_asset_amount as int,
                    old(self).state.quote_asset_reserve as int,
                    old(self).state.base_asset_reserve as int,
                    old(self).config.decimals as int,
                ),
            ) matches Ok(quote) && output_within_limit(direction, quote, quote_asset_limit)
                && reserves_after(
                flip(direction),
                quote as int,
                base_asset_amount as int,
                old(self).state.quote_asset_reserve as int,
                old(self).state.base_asset_reserve as int,
                old(self).state.total_position_size as int,
            ) is Some ==> r is Ok,
            r is Err ==> r == Err::<u128, EngineError>(EngineError::Arithmetic) || r == Err::<
                u128,
                EngineError,
            >(EngineError::SlippageExceeded),
    {
        let quote = self.get_output_price(direction, base_asset_amount)?;
        if quote_asset_limit != 0 {
            let ok = match direction {
                Direction::AddToAmm => quote >= quote_asset_limit,
                Direction::RemoveFromAmm => quote <= quote_asset_limit,
            };
            if !ok {
                assert(!output_within_limit(direction, quote, quote_asset_limit));
                return Err(EngineError::SlippageExceeded);
            }
        }
        let update_direction = match direction {
            Direction::AddToAmm => Direction::RemoveFromAmm,
            Direction::RemoveFromAmm => Direction::AddToAmm,
        };
        self.update_reserve(update_direction, quote, base_asset_amount, time, height)?;
        Ok(quote)
    }
    /// Changes the owner and fee ratios given; only the owner may.
    pub fn update_config(
        &mut self,
        sender: u64,
        owner: Option<u64>,
        toll_ratio: Option<u128>,
        spread_ratio: Option<u128>,
    ) -> (r: Result<(), EngineError>)
        ensures
            r is Err <==> sender != old(self).config.owner,
            r is Err ==> r == Err::<(), EngineError>(EngineError::Unauthorized) && *final(self)
                == *old(self),
            r is Ok ==> final(self).config == old(self).config.updated(owner, toll_ratio, spread_ratio)
                && final(self).state == old(self).state && final(self).reserve_snapshots@ == old(
                self,
            ).reserve_snapshots@,
    {
        if sender != self.config.owner {
            return Err(EngineError::Unauthorized);
        }
        if let Some(o) = owner {
            self.config.owner = o;
        }
        if let Some(t) = toll_ratio {
            self.config.toll_ratio = t;
        }
        if let Some(sp) = spread_ratio {
            self.config.spread_ratio = sp;
        }
        Ok(())
    }

    /// Settles funding at time `now` from the oracle's price `underlying_price`
    /// and the curve's own price `index_price` over the funding interval; only
    /// the owner may. Returns the premium fraction of this period, positive
    /// when longs pay.
    pub fn settle_funding(
        &mut self,
        sender: u64,
        underlying_price: u128,
        index_price: u128,
        now: u64,
    ) -> (r: Result<i128, EngineError>)
        ensures
            sender != old(self).config.owner ==> r == Err::<i128, EngineError>(
                EngineError::Unauthorized,
            ),
            sender == old(self).config.owner && now < old(self).state.next_funding_time ==> r
                == Err::<i128, EngineError>(EngineError::FundingTooEarly),
            r is Err ==> *final(self) == *old(self),
            r matches Ok(f) ==> sender == old(self).config.owner && old(self).settled_to(
                *final(self),
                underlying_price,
                index_price,
                now,
                f,
            ),
            sender == old(self).config.owner && now >= old(self).state.next_funding_time
                && underlying_price > 0 && fits_u(
                premium_of(underlying_price, index_price).value * old(self).config.funding_period,
            ) && now as int + old(self).config.funding_period + 3600 <= u64::MAX && now as int
                + old(self).config.funding_buffer_period <= u64::MAX ==> r is Ok,
    {
        if sender != self.config.owner {
            return Err(EngineError::Unauthorized);
        }
        if now < self.state.next_funding_time {
            return Err(EngineError::FundingTooEarly);
        }
        let premium = calculate_premium(underlying_price, index_price);
        let fraction = mul_div(premium.value, self.config.funding_period as u128, ONE_DAY_IN_SECONDS as u128)?;
        if underlying_price == 0 {
            return Err(EngineError::Arithmetic);
        }
        let rate = fraction / underlying_price;
        if self.config.funding_period > u64::MAX - ONE_HOUR_IN_SECONDS || now > u64::MAX
            - ONE_HOUR_IN_SECONDS - self.config.funding_period || now > u64::MAX
            - self.config.funding_buffer_period {
            return Err(EngineError::Arithmetic);
        }
        let min_next = now + self.config.funding_buffer_period;
        let x = now + self.config.funding_period;
        let hours = if x % ONE_HOUR_IN_SECONDS == 0 {
            x / ONE_HOUR_IN_SECONDS
        } else {
            x / ONE_HOUR_IN_SECONDS + 1
        };
        proof {
            assert(hours * 3600 <= x + 3600) by (nonlinear_arith)
                requires
                    x >= 0,
                    hours == x / 3600 + (if x % 3600 == 0 {
                        0int
                    } else {
                        1int
                    }),
            ;
        }
        let on_hour = hours * ONE_HOUR_IN_SECONDS;
        let signed_fraction = signed(premium.payer == LongShort::Short, fraction)?;
        self.state.funding_rate = rate;
        self.state.next_funding_time = if on_hour > min_next {
            on_hour
        } else {
            min_next
        };
        Ok(signed_fraction)
    }
}

/// The premium between the oracle's price `underlying` and the curve's price
/// `index`: longs pay when the curve trades above the oracle.
pub fn calculate_premium(underlying: u128, index: u128) -> (r: PremiumResponse)
    ensures
        r == premium_of(underlying, index),
{
    if index > underlying {
        PremiumResponse { value: index - underlying, payer: LongShort::Long }
    } else {
        PremiumResponse { value: underlying - index, payer: LongShort::Short }
    }
}

} // verus!
