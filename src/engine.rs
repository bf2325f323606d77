//! The margin engine for one price curve: position actions, their
//! completions, liquidation, funding settlement and queries.
use vstd::prelude::*;

use crate::error::EngineError;
use crate::math::{abs_i, add_i, add_u, mul_div, mul_div_signed, res_u, signed, sub_i, sub_u};
use crate::position::{
    calc_remain_margin_with_funding_payment, direction_of_side, direction_to_side, margin_ratio,
    side_to_direction, unrealized_pnl, PnlCalcOption, Position, PositionUnrealizedPnlResponse,
    RemainMarginResponse, Side,
};
use crate::vamm::{Direction, Vamm};

verus! {

/// The engine's risk parameters. Ratios are fixed-point over `decimals`.
#[derive(Clone, Copy, Debug, PartialEq, Eq, Structural)]
pub struct Config {
    pub owner: u64,
    pub decimals: u128,
    pub initial_margin_ratio: u128,
    pub maintenance_margin_ratio: u128,
    /// The fraction of a position a partial liquidation closes; zero turns
    /// partial liquidation off.
    pub partial_liquidation_ratio: u128,
    pub liquidation_fee: u128,
}

/// The engine's aggregate state.
#[derive(Clone, Copy, Debug, PartialEq, Eq, Structural)]
pub struct State {
    pub pause: bool,
    pub open_interest_notional: u128,
    /// Shortfall the insurance fund advanced to the vault and that later
    /// bad debt consumes first.
    pub bad_debt: u128,
}

/// A holder of collateral.
#[derive(Clone, Copy, Debug, PartialEq, Eq, Hash, Structural)]
pub enum Account {
    Trader(u64),
    /// The engine's own balance.
    Vault,
    InsuranceFund,
    FeePool,
}

/// A movement of collateral that the engine instructs.
#[derive(Clone, Copy, Debug, PartialEq, Eq, Structural)]
pub struct Transfer {
    pub from: Account,
    pub to: Account,
    pub amount: u128,
}

/// The block an action runs in.
#[derive(Clone, Copy, Debug, PartialEq, Eq, Structural)]
pub struct Block {
    pub height: u64,
    pub time: u64,
}

/// The context of a swap in flight, read by its completion.
#[derive(Clone, Copy, Debug, PartialEq, Eq, Structural)]
pub struct TmpSwapInfo {
    pub trader: u64,
    pub side: Side,
    pub quote_asset_amount: u128,
    pub leverage: u128,
    pub open_notional: u128,
    /// The position's spot value before the trade.
    pub position_notional: u128,
    /// The position's spot PnL before the trade.
    pub unrealized_pnl: i128,
    /// Collateral still to move from the trader to the vault (negative: back).
    pub margin_to_vault: i128,
    /// Trading fees were already charged by an earlier leg.
    pub fees_paid: bool,
}

/// The engine for one price curve.
#[derive(Clone, Debug)]
pub struct Engine {
    /// The engine's own identity, under which it calls the curve.
    pub address: u64,
    pub config: Config,
    pub state: State,
    pub vamm: Vamm,
    /// Cumulative premium fraction after each funding settlement.
    pub cumulative_premium_fractions: Vec<i128>,
    /// The block of the latest liquidation on this curve.
    pub restriction_height: u64,
    /// Every trader liquidated on this curve in that block.
    pub restricted_traders: Vec<u64>,
    pub tmp_swap: Option<TmpSwapInfo>,
    pub tmp_liquidator: Option<u64>,
    /// Collateral the engine holds.
    pub vault_balance: u128,
}

/// The last entry of the premium history, zero while it is empty.
pub open spec fn latest_of(s: Seq<i128>) -> i128 {
    if s.len() == 0 {
        0
    } else {
        s.last()
    }
}

/// `vault` after the transfer `t`.
pub open spec fn vault_after(vault: int, t: Transfer) -> int {
    let inflow = if t.to == Account::Vault {
        t.amount as int
    } else {
        0
    };
    let outflow = if t.from == Account::Vault {
        t.amount as int
    } else {
        0
    };
    vault + inflow - outflow
}

/// `s` with `t` appended, unless `t` moves nothing.
pub open spec fn pushed(s: Seq<Transfer>, t: Transfer) -> Seq<Transfer> {
    if t.amount > 0 {
        s.push(t)
    } else {
        s
    }
}

/// `s` after paying `amount` from a vault holding `vault` to `receiver`, the
/// insurance fund first advancing any shortage.
pub open spec fn withdraw_pushed(vault: int, s: Seq<Transfer>, receiver: Account, amount: int) -> Seq<
    Transfer,
> {
    let short = if vault < amount {
        amount - vault
    } else {
        0
    };
    pushed(
        pushed(s, Transfer { from: Account::InsuranceFund, to: Account::Vault, amount: short as u128 }),
        Transfer { from: Account::Vault, to: receiver, amount: amount as u128 },
    )
}

/// The vault's balance after such a payment.
pub open spec fn vault_after_withdraw(vault: int, amount: int) -> int {
    if vault < amount {
        0
    } else {
        vault - amount
    }
}

/// `s` after realizing bad debt `bad` against `prepaid` advanced before:
/// the insurance fund pays what the advance does not cover.
pub open spec fn realize_pushed(prepaid: int, s: Seq<Transfer>, bad: int) -> Seq<Transfer> {
    if prepaid > bad {
        s
    } else {
        pushed(
            s,
            Transfer {
                from: Account::InsuranceFund,
                to: Account::Vault,
                amount: (bad - prepaid) as u128,
            },
        )
    }
}

/// `s` after moving margin `m` from `trader` into a vault holding `vault`,
/// or, where `m` is negative, its magnitude back to the trader.
pub open spec fn margin_pushed(vault: int, s: Seq<Transfer>, trader: u64, m: int) -> Seq<Transfer> {
    if m < 0 {
        withdraw_pushed(vault, s, Account::Trader(trader), -m)
    } else {
        pushed(s, Transfer { from: Account::Trader(trader), to: Account::Vault, amount: m as u128 })
    }
}

/// The vault's balance after such a movement.
pub open spec fn vault_after_margin(vault: int, m: int) -> int {
    if m < 0 {
        vault_after_withdraw(vault, -m)
    } else {
        vault + m
    }
}

/// Open interest `oi` after adding `amount`, stopping at zero.
pub open spec fn oi_after(oi: int, amount: int) -> int {
    if oi + amount < 0 {
        0
    } else {
        oi + amount
    }
}

/// The errors that can arise after an action's checks passed: arithmetic,
/// slippage, funds, or a staged swap that does not match.
pub open spec fn late_error(e: EngineError) -> bool {
    e == EngineError::Arithmetic || e == EngineError::SlippageExceeded || e
        == EngineError::InsufficientFunds || e == EngineError::InvalidState
}

impl Engine {
    /// The engine's parameters are consistent with its curve's.
    pub open spec fn valid(&self) -> bool {
        &&& self.config.decimals > 0
        &&& self.vamm.config.decimals == self.config.decimals
    }

    /// The engine is at rest: parameters consistent, no action in flight.
    pub open spec fn wf(&self) -> bool {
        &&& self.valid()
        &&& self.tmp_swap is None
        &&& self.tmp_liquidator is None
    }

    /// The checks every trader action makes first, in order, and the error
    /// of the first that fails.
    pub open spec fn action_check(&self, paused_matters: bool, registered: bool, trader: u64, height: u64) -> Option<EngineError> {
        if self.tmp_swap is Some || self.tmp_liquidator is Some {
            Some(EngineError::InvalidState)
        } else if paused_matters && self.state.pause {
            Some(EngineError::Paused)
        } else if !registered {
            Some(EngineError::UnknownCurve)
        } else if self.restricted(trader, height) {
            Some(EngineError::RestrictedAction)
        } else {
            None
        }
    }

    /// Everything a completed action keeps: parameters, premium history, pause.
    pub open spec fn action_kept(self, new: Engine) -> bool {
        &&& new.config == self.config
        &&& new.vamm.config == self.vamm.config
        &&& new.cumulative_premium_fractions == self.cumulative_premium_fractions
        &&& new.state.pause == self.state.pause
    }

    /// The engine is at rest afterwards, and a position's size moved exactly
    /// as the curve's aggregate size did.
    pub open spec fn action_completed(self, new: Engine, p: Position, new_p: Position) -> bool {
        &&& new.wf()
        &&& self.action_kept(new)
        &&& new_p.trader == p.trader
        &&& new_p.size - p.size == new.vamm.state.total_position_size
            - self.vamm.state.total_position_size
    }

    pub open spec fn latest(&self) -> i128 {
        latest_of(self.cumulative_premium_fractions@)
    }

    /// The trader may not act on this curve in this block.
    pub open spec fn restricted(&self, trader: u64, height: u64) -> bool {
        self.restriction_height == height && self.restricted_traders@.contains(trader)
    }

    /// See `restricted`.
    pub fn is_restricted(&self, trader: u64, height: u64) -> (r: bool)
        ensures
            r == self.restricted(trader, height),
    {
        if self.restriction_height != height {
            return false;
        }
        let mut i: usize = 0;
        while i < self.restricted_traders.len()
            invariant
                self.restriction_height == height,
                i <= self.restricted_traders@.len(),
                forall|j: int| 0 <= j < i ==> self.restricted_traders@[j] != trader,
            decreases self.restricted_traders@.len() - i,
        {
            if self.restricted_traders[i] == trader {
                assert(self.restricted_traders@[i as int] == trader);
                return true;
            }
            i = i + 1;
        }
        false
    }

    /// Restricts `trader` for the block at `height`: a liquidation at a new
    /// height starts a fresh list, one at the same height adds to it.
    fn enter_restriction_mode(&mut self, trader: u64, height: u64)
        ensures
            final(self).restricted(trader, height),
            forall|t: u64| old(self).restricted(t, height) ==> final(self).restricted(t, height),
            forall|t: u64, h: u64| final(self).restricted(t, h) ==> h == height && (t == trader || old(
                self,
            ).restricted(t, h)),
            final(self).address == old(self).address,
            final(self).config == old(self).config,
            final(self).state == old(self).state,
            final(self).vamm == old(self).vamm,
            final(self).cumulative_premium_fractions == old(self).cumulative_premium_fractions,
            final(self).tmp_swap == old(self).tmp_swap,
            final(self).tmp_liquidator == old(self).tmp_liquidator,
            final(self).vault_balance == old(self).vault_balance,
    {
        if self.restriction_height != height {
            self.restriction_height = height;
            self.restricted_traders = Vec::new();
        }
        let ghost before = self.restricted_traders@;
        self.restricted_traders.push(trader);
        assert(self.restricted_traders@[self.restricted_traders@.len() - 1] == trader);
        assert forall|t: u64| before.contains(t) implies self.restricted_traders@.contains(t) by {
            let j = choose|j: int| 0 <= j < before.len() && before[j] == t;
            assert(self.restricted_traders@[j] == t);
        }
        assert forall|t: u64| self.restricted_traders@.contains(t) implies t == trader || before.contains(t) by {
            let j = choose|j: int| 0 <= j < self.restricted_traders@.len() && self.restricted_traders@[j] == t;
            if j < before.len() {
                assert(before[j] == t);
            }
        }
    }

    /// An engine over `vamm` with the given parameters, at rest.
    pub fn new(address: u64, config: Config, vamm: Vamm) -> (r: Engine)
        requires
            config.decimals > 0,
            vamm.config.decimals == config.decimals,
        ensures
            r.wf(),
            r.address == address,
            r.config == config,
            r.vamm == vamm,
            r.state == (State { pause: false, open_interest_notional: 0, bad_debt: 0 }),
            r.cumulative_premium_fractions@ == Seq::<i128>::empty(),
            r.restricted_traders@ == Seq::<u64>::empty(),
            r.vault_balance == 0,
    {
        Engine {
            address,
            config,
            state: State { pause: false, open_interest_notional: 0, bad_debt: 0 },
            vamm,
            cumulative_premium_fractions: Vec::new(),
            restriction_height: 0,
            restricted_traders: Vec::new(),
            tmp_swap: None,
            tmp_liquidator: None,
            vault_balance: 0,
        }
    }

    /// The latest cumulative premium fraction, zero before any settlement.
    pub fn query_cumulative_premium_fraction(&self) -> (r: i128)
        ensures
            r == self.latest(),
    {
        let n = self.cumulative_premium_fractions.len();
        if n == 0 {
            0
        } else {
            self.cumulative_premium_fractions[n - 1]
        }
    }

    /// Appends a settlement's premium fraction to the cumulative history.
    pub fn append_cumulative_premium_fraction(&mut self, premium_fraction: i128) -> (r: Result<
        (),
        EngineError,
    >)
        ensures
            r is Ok <==> i128::MIN <= old(self).latest() + premium_fraction <= i128::MAX,
            r is Ok ==> final(self).cumulative_premium_fractions@ == old(
                self,
            ).cumulative_premium_fractions@.push(
                (old(self).latest() + premium_fraction) as i128,
            ),
            r is Err ==> final(self).cumulative_premium_fractions@ == old(
                self,
            ).cumulative_premium_fractions@,
            final(self).config == old(self).config,
            final(self).state == old(self).state,
            final(self).vamm == old(self).vamm,
            final(self).restriction_height == old(self).restriction_height
                && final(self).restricted_traders@ == old(self).restricted_traders@,
            final(self).tmp_swap == old(self).tmp_swap,
            final(self).tmp_liquidator == old(self).tmp_liquidator,
            final(self).vault_balance == old(self).vault_balance,
    {
        let last = self.query_cumulative_premium_fraction();
        let next = add_i(last, premium_fraction)?;
        self.cumulative_premium_fractions.push(next);
        Ok(())
    }

    /// Records `t` in `out` and applies it to the vault's balance. A zero
    /// amount moves nothing and is not recorded.
    fn transfer(&mut self, out: &mut Vec<Transfer>, from: Account, to: Account, amount: u128) -> (r:
        Result<(), EngineError>)
        ensures
            final(self).config == old(self).config,
            final(self).state == old(self).state,
            final(self).vamm == old(self).vamm,
            final(self).cumulative_premium_fractions == old(self).cumulative_premium_fractions,
            final(self).restriction_height == old(self).restriction_height
                && final(self).restricted_traders@ == old(self).restricted_traders@,
            final(self).tmp_swap == old(self).tmp_swap,
            final(self).tmp_liquidator == old(self).tmp_liquidator,
            r is Ok ==> final(out)@ == pushed(old(out)@, Transfer { from, to, amount })
                && final(self).vault_balance == vault_after(
                old(self).vault_balance as int,
                Transfer { from, to, amount },
            ),
            r is Err ==> r == Err::<(), EngineError>(EngineError::InsufficientFunds),
            (to == Account::Vault ==> old(self).vault_balance + amount <= u128::MAX) && (from
                == Account::Vault ==> vault_after(
                old(self).vault_balance as int,
                Transfer { from, to, amount },
            ) >= 0) ==> r is Ok,
    {
        if amount == 0 {
            return Ok(());
        }
        let mut vault = self.vault_balance;
        if to == Account::Vault {
            vault = match add_u(vault, amount) {
                Ok(v) => v,
                Err(_) => {
                    return Err(EngineError::InsufficientFunds);
                },
            };
        }
        if from == Account::Vault {
            if vault < amount {
                return Err(EngineError::InsufficientFunds);
            }
            vault = vault - amount;
        }
        self.vault_balance = vault;
        out.push(Transfer { from, to, amount });
        Ok(())
    }

    /// `s` after charging `trader` the toll (to the fee pool) and spread (to
    /// the insurance fund) on `notional`.
    pub open spec fn fees_pushed(self, s: Seq<Transfer>, trader: u64, notional: u128) -> Seq<Transfer> {
        pushed(
            pushed(
                s,
                Transfer {
                    from: Account::Trader(trader),
                    to: Account::FeePool,
                    amount: res_u(
                        crate::math::mul_div_spec(
                            notional as int,
                            self.vamm.config.toll_ratio as int,
                            self.config.decimals as int,
                        ),
                    )->Ok_0,
                },
            ),
            Transfer {
                from: Account::Trader(trader),
                to: Account::InsuranceFund,
                amount: res_u(
                    crate::math::mul_div_spec(
                        notional as int,
                        self.vamm.config.spread_ratio as int,
                        self.config.decimals as int,
                    ),
                )->Ok_0,
            },
        )
    }

    /// Everything but the vault balance and the advanced bad debt is as in `self`.
    pub open spec fn books_kept(self, new: Engine) -> bool {
        &&& new.config == self.config
        &&& new.vamm == self.vamm
        &&& new.cumulative_premium_fractions == self.cumulative_premium_fractions
        &&& new.restriction_height == self.restriction_height
        &&& new.restricted_traders@ == self.restricted_traders@
        &&& new.tmp_swap == self.tmp_swap
        &&& new.tmp_liquidator == self.tmp_liquidator
        &&& new.state.pause == self.state.pause
        &&& new.state.open_interest_notional == self.state.open_interest_notional
    }

    /// Pays `amount` from the vault to `receiver`. Where the vault holds less,
    /// the insurance fund advances the shortage first and it is recorded as
    /// bad debt.
    fn withdraw(&mut self, out: &mut Vec<Transfer>, receiver: Account, amount: u128) -> (r: Result<
        (),
        EngineError,
    >)
        ensures
            old(self).books_kept(*final(self)),
            r is Ok ==> {
                let short = if old(self).vault_balance < amount {
                    amount - old(self).vault_balance
                } else {
                    0
                };
                &&& final(self).state.bad_debt == old(self).state.bad_debt + short
                &&& final(out)@ == pushed(
                    pushed(
                        old(out)@,
                        Transfer {
                            from: Account::InsuranceFund,
                            to: Account::Vault,
                            amount: short as u128,
                        },
                    ),
                    Transfer { from: Account::Vault, to: receiver, amount },
                )
            },
            receiver != Account::Vault && old(self).vault_balance < amount ==> old(
                self,
            ).state.bad_debt + (amount - old(self).vault_balance) <= u128::MAX ==> r is Ok,
            receiver != Account::Vault && old(self).vault_balance >= amount ==> r is Ok,
            r is Ok && receiver != Account::Vault ==> final(self).vault_balance
                == vault_after_withdraw(old(self).vault_balance as int, amount as int),
            r is Err ==> late_error(r->Err_0),
    {
        if self.vault_balance < amount {
            let short = amount - self.vault_balance;
            self.state.bad_debt = add_u(self.state.bad_debt, short)?;
            self.transfer(out, Account::InsuranceFund, Account::Vault, short)?;
        } else {
            self.transfer(out, Account::InsuranceFund, Account::Vault, 0)?;
        }
        self.transfer(out, Account::Vault, receiver, amount)
    }

    /// Covers `bad_debt` from what the insurance fund advanced before, and
    /// pulls what that does not cover from the insurance fund.
    fn realize_bad_debt(&mut self, out: &mut Vec<Transfer>, bad_debt: u128) -> (r: Result<
        (),
        EngineError,
    >)
        ensures
            old(self).books_kept(*final(self)),
            r is Ok ==> if old(self).state.bad_debt > bad_debt {
                &&& final(self).state.bad_debt == old(self).state.bad_debt - bad_debt
                &&& final(out)@ == old(out)@
            } else {
                &&& final(self).state.bad_debt == 0
                &&& final(out)@ == pushed(
                    old(out)@,
                    Transfer {
                        from: Account::InsuranceFund,
                        to: Account::Vault,
                        amount: (bad_debt - old(self).state.bad_debt) as u128,
                    },
                )
            },
            old(self).state.bad_debt <= bad_debt ==> old(self).vault_balance + (bad_debt - old(
                self,
            ).state.bad_debt) <= u128::MAX ==> r is Ok,
            old(self).state.bad_debt > bad_debt ==> r is Ok,
            r is Err ==> late_error(r->Err_0),
            r is Ok ==> final(self).vault_balance == (if old(self).state.bad_debt > bad_debt {
                old(self).vault_balance as int
            } else {
                old(self).vault_balance + (bad_debt - old(self).state.bad_debt)
            }),
    {
        if self.state.bad_debt > bad_debt {
            self.state.bad_debt = self.state.bad_debt - bad_debt;
            Ok(())
        } else {
            let pull = bad_debt - self.state.bad_debt;
            self.state.bad_debt = 0;
            self.transfer(out, Account::InsuranceFund, Account::Vault, pull)
        }
    }

    /// Charges the curve's toll (to the fee pool) and spread (to the
    /// insurance fund) on `notional` to `trader`.
    fn transfer_fees(&mut self, out: &mut Vec<Transfer>, trader: u64, notional: u128) -> (r: Result<
        (),
        EngineError,
    >)
        ensures
            old(self).books_kept(*final(self)),
            final(self).state == old(self).state,
            r is Ok ==> final(out)@ == old(self).fees_pushed(old(out)@, trader, notional),
            final(self).vault_balance == old(self).vault_balance,
            crate::math::fits_u(notional * old(self).vamm.config.toll_ratio)
                && crate::math::fits_u(notional * old(self).vamm.config.spread_ratio)
                && old(self).config.decimals > 0 ==> r is Ok,
            r is Err ==> late_error(r->Err_0),
    {
        let d = self.config.decimals;
        let toll = mul_div(notional, self.vamm.config.toll_ratio, d)?;
        let spread = mul_div(notional, self.vamm.config.spread_ratio, d)?;
        self.transfer(out, Account::Trader(trader), Account::FeePool, toll)?;
        self.transfer(out, Account::Trader(trader), Account::InsuranceFund, spread)
    }

    /// Adds `amount` to the open interest, or takes its magnitude off and
    /// stops at zero.
    fn update_open_interest_notional(&mut self, amount: i128) -> (r: Result<(), EngineError>)
        ensures
            final(self).config == old(self).config,
            final(self).vamm == old(self).vamm,
            final(self).cumulative_premium_fractions == old(self).cumulative_premium_fractions,
            final(self).restriction_height == old(self).restriction_height
                && final(self).restricted_traders@ == old(self).restricted_traders@,
            final(self).tmp_swap == old(self).tmp_swap,
            final(self).tmp_liquidator == old(self).tmp_liquidator,
            final(self).vault_balance == old(self).vault_balance,
            final(self).state.pause == old(self).state.pause,
            final(self).state.bad_debt == old(self).state.bad_debt,
            r is Ok ==> final(self).state.open_interest_notional == (if amount >= 0 {
                old(self).state.open_interest_notional + amount
            } else if old(self).state.open_interest_notional + amount < 0 {
                0
            } else {
                old(self).state.open_interest_notional + amount
            }),
            amount < 0 || old(self).state.open_interest_notional + amount <= u128::MAX ==> r is Ok,
            r is Err ==> late_error(r->Err_0),
    {
        let m = abs_i(amount);
        if amount >= 0 {
            self.state.open_interest_notional = add_u(self.state.open_interest_notional, m)?;
        } else if self.state.open_interest_notional < m {
            self.state.open_interest_notional = 0;
        } else {
            self.state.open_interest_notional = self.state.open_interest_notional - m;
        }
        Ok(())
    }

    /// A position's value and PnL when it is worth `value`.
    pub open spec fn valued(p: Position, value: int) -> Option<PositionUnrealizedPnlResponse> {
        if p.size == 0 {
            Some(PositionUnrealizedPnlResponse { position_notional: 0, unrealized_pnl: 0 })
        } else if crate::math::fits_i(value) && crate::math::fits_i(p.notional as int) && value >= 0 {
            Some(
                PositionUnrealizedPnlResponse {
                    position_notional: value as u128,
                    unrealized_pnl: crate::position::pnl_of(p, value) as i128,
                },
            )
        } else {
            None
        }
    }

    /// What the curve would pay for closing `p` at its spot reserves.
    pub open spec fn spot_value(self, p: Position) -> Option<int> {
        crate::vamm::output_price(
            p.direction(),
            crate::math::abs(p.size as int),
            self.vamm.state.quote_asset_reserve as int,
            self.vamm.state.base_asset_reserve as int,
            self.config.decimals as int,
        )
    }

    /// A position's value and PnL at the curve's spot price.
    pub open spec fn spot_of(self, p: Position) -> Option<PositionUnrealizedPnlResponse> {
        if p.size == 0 {
            Self::valued(p, 0)
        } else {
            match self.spot_value(p) {
                Some(v) => if crate::math::fits_u(v) {
                    Self::valued(p, v)
                } else {
                    None
                },
                None => None,
            }
        }
    }

    /// The margin ratio of `p` (see `margin_ratio_of`) from its spot value
    /// and the time-weighted value `twap_value`.
    pub open spec fn margin_ratio_spec(self, p: Position, twap_value: u128) -> Option<int> {
        match (self.spot_of(p), Self::valued(p, twap_value as int)) {
            (Some(spot), Some(twap)) => crate::position::margin_ratio_of(
                p,
                spot,
                twap,
                self.latest() as int,
                self.config.decimals as int,
            ),
            _ => None,
        }
    }

    /// The position's value and PnL at the curve's spot price.
    pub fn spot_notional_unrealized_pnl(&self, position: &Position) -> (r: Result<
        PositionUnrealizedPnlResponse,
        EngineError,
    >)
        requires
            self.valid(),
        ensures
            r is Ok <==> self.spot_of(*position) is Some,
            r is Ok ==> r == Ok::<PositionUnrealizedPnlResponse, EngineError>(
                self.spot_of(*position).unwrap(),
            ),
            r is Err ==> r == Err::<PositionUnrealizedPnlResponse, EngineError>(
                EngineError::Arithmetic,
            ),
    {
        if position.size == 0 {
            return Ok(PositionUnrealizedPnlResponse { position_notional: 0, unrealized_pnl: 0 });
        }
        let value = self.vamm.get_output_price(position.get_direction(), abs_i(position.size))?;
        unrealized_pnl(position, value)
    }

    /// Empties `position`, settling its funding index at `latest`.
    fn clear_position(position: &mut Position, latest: i128)
        ensures
            final(position).is_clear(),
            final(position).trader == old(position).trader,
            final(position).last_updated_premium_fraction == latest,
            final(position).liquidity_history_index == old(position).liquidity_history_index,
            final(position).block_number == old(position).block_number,
    {
        position.size = 0;
        position.margin = 0;
        position.notional = 0;
        position.last_updated_premium_fraction = latest;
    }

    /// The parts of the engine that no swap completion touches.
    pub open spec fn settled_parts_kept(self, new: Engine) -> bool {
        &&& new.config == self.config
        &&& new.cumulative_premium_fractions == self.cumulative_premium_fractions
        &&& new.state.pause == self.state.pause
    }

    /// Reads the swap in flight, which must belong to `trader`.
    fn pending_swap(&self, trader: u64) -> (r: Result<TmpSwapInfo, EngineError>)
        ensures
            r is Ok <==> self.tmp_swap is Some && self.tmp_swap.unwrap().trader == trader,
            r is Ok ==> r == Ok::<TmpSwapInfo, EngineError>(self.tmp_swap.unwrap()),
            r is Err ==> r == Err::<TmpSwapInfo, EngineError>(EngineError::InvalidState),
    {
        match self.tmp_swap {
            Some(sw) => if sw.trader == trader {
                Ok(sw)
            } else {
                Err(EngineError::InvalidState)
            },
            None => Err(EngineError::InvalidState),
        }
    }

    /// The amounts of completing an increase fit their types: the swap
    /// staged for `p`'s trader moved `output` base for `input` quote.
    pub open spec fn increase_ok(self, p: Position, input: u128, output: u128) -> bool {
        let sw = self.tmp_swap.unwrap();
        let d = self.config.decimals as int;
        let sm = sw.open_notional * d / sw.leverage as int;
        let m = sw.margin_to_vault + sm;
        &&& self.tmp_swap is Some
        &&& sw.trader == p.trader
        &&& d > 0
        &&& output <= i128::MAX
        &&& input <= i128::MAX
        &&& self.state.open_interest_notional + input <= u128::MAX
        &&& sw.leverage > 0
        &&& crate::math::fits_u(sw.open_notional * d)
        &&& sm <= i128::MAX
        &&& crate::position::net_margin_of(p, sm, self.latest() as int, d) is Some
        &&& crate::math::fits_i(
            p.size + (if sw.side == Side::Buy {
                output as int
            } else {
                -output
            }),
        )
        &&& p.notional + sw.open_notional <= u128::MAX
        &&& crate::math::fits_i(m)
        &&& m >= 0 ==> self.vault_balance + m <= u128::MAX
        &&& m < 0 && self.vault_balance < -m ==> self.state.bad_debt + (-m - self.vault_balance)
            <= u128::MAX
        &&& !sw.fees_paid ==> crate::math::fits_u(sw.open_notional * self.vamm.config.toll_ratio)
            && crate::math::fits_u(sw.open_notional * self.vamm.config.spread_ratio)
    }

    /// Completes a swap that opened or grew a position: `input` quote moved
    /// `output` base. The position grows by `output` on the swap's side, its
    /// cost by the swap's notional, and its margin by the notional over the
    /// leverage (after funding); that margin is pulled from the trader.
    pub fn increase_position_reply(
        &mut self,
        position: &mut Position,
        input: u128,
        output: u128,
        out: &mut Vec<Transfer>,
    ) -> (r: Result<(), EngineError>)
        ensures
            final(position).liquidity_history_index == old(position).liquidity_history_index,
            final(position).block_number == old(position).block_number,
            !(old(self).tmp_swap matches Some(sw) && sw.trader == old(position).trader) ==> r
                == Err::<(), EngineError>(EngineError::InvalidState),
            !(old(self).tmp_swap matches Some(sw) && sw.trader == old(position).trader) ==> *final(self) == *old(self) && *final(position) == *old(position) && final(out)@ == old(out)@,
            r is Err ==> late_error(r->Err_0),
            r is Ok ==> ({
                let sw = old(self).tmp_swap.unwrap();
                let sm = sw.open_notional * (old(self).config.decimals as int) / sw.leverage as int;
                let m = sw.margin_to_vault + sm;
                let s1 = margin_pushed(old(self).vault_balance as int, old(out)@, sw.trader, m);
                &&& final(out)@ == (if sw.fees_paid {
                    s1
                } else {
                    old(self).fees_pushed(s1, sw.trader, sw.open_notional)
                })
                &&& final(self).vault_balance == vault_after_margin(old(self).vault_balance as int, m)
                &&& final(self).state.open_interest_notional == old(
                    self,
                ).state.open_interest_notional + input
            }),
            old(self).increase_ok(*old(position), input, output) ==> r is Ok,
            old(self).settled_parts_kept(*final(self)),
            final(self).vamm == old(self).vamm,
            final(self).restriction_height == old(self).restriction_height
                && final(self).restricted_traders@ == old(self).restricted_traders@,
            final(self).tmp_liquidator == old(self).tmp_liquidator,
            r is Ok ==> {
                let sw = old(self).tmp_swap.unwrap();
                let d = old(self).config.decimals as int;
                let swap_margin = sw.open_notional * d / sw.leverage as int;
                &&& sw.leverage > 0
                &&& final(position).size == old(position).size + (if sw.side == Side::Buy {
                    output as int
                } else {
                    -output
                })
                &&& final(position).notional == old(position).notional + sw.open_notional
                &&& final(position).margin == crate::position::remain_of(
                    crate::position::net_margin_of(
                        *old(position),
                        swap_margin,
                        old(self).latest() as int,
                        d,
                    ).unwrap(),
                    0,
                    0,
                ).margin
                &&& final(position).last_updated_premium_fraction == old(self).latest()
                &&& final(position).trader == old(position).trader
                &&& final(self).tmp_swap is None
            },
    {
        let swap = self.pending_swap(position.trader)?;
        let latest = self.query_cumulative_premium_fraction();
        let d = self.config.decimals;
        let signed_output = signed(swap.side == Side::Sell, output)?;
        self.update_open_interest_notional(signed(false, input)?)?;
        let swap_margin = mul_div(swap.open_notional, d, swap.leverage)?;
        let signed_margin = signed(false, swap_margin)?;
        let rm = calc_remain_margin_with_funding_payment(position, signed_margin, latest, d)?;
        position.size = add_i(position.size, signed_output)?;
        position.notional = add_u(position.notional, swap.open_notional)?;
        position.margin = rm.margin;
        position.last_updated_premium_fraction = latest;
        let margin_to_vault = add_i(swap.margin_to_vault, signed_margin)?;
        if margin_to_vault < 0 {
            self.withdraw(out, Account::Trader(swap.trader), abs_i(margin_to_vault))?;
        } else {
            self.transfer(out, Account::Trader(swap.trader), Account::Vault, margin_to_vault as u128)?;
        }
        if !swap.fees_paid {
            self.transfer_fees(out, swap.trader, swap.open_notional)?;
        }
        self.tmp_swap = None;
        Ok(())
    }

    /// The amounts of reducing `p` by `output` base for `input` quote, staged
    /// with pre-trade value `position_notional`, notional `open_notional`,
    /// PnL `pnl` and `side`, fit their types.
    pub open spec fn decrease_ok(
        self,
        p: Position,
        position_notional: u128,
        open_notional: u128,
        pnl: i128,
        side: Side,
        input: u128,
        output: u128,
    ) -> bool {
        let realized = if p.size != 0 {
            crate::math::div_tz(pnl * output, crate::math::abs(p.size as int))
        } else {
            0
        };
        let left = pnl - realized;
        &&& self.config.decimals > 0
        &&& input <= i128::MAX
        &&& output <= i128::MAX
        &&& p.size != i128::MIN
        &&& p.size != 0 ==> crate::math::fits_i(pnl * output)
        &&& crate::position::net_margin_of(
            p,
            realized,
            self.latest() as int,
            self.config.decimals as int,
        ) is Some
        &&& crate::math::fits_i(left)
        &&& position_notional <= i128::MAX
        &&& open_notional <= i128::MAX
        &&& p.size > 0 ==> crate::math::fits_i(position_notional - open_notional)
            && crate::math::fits_i(position_notional - open_notional - left)
        &&& p.size <= 0 ==> crate::math::fits_i(left + position_notional)
            && crate::math::fits_i(left + position_notional - open_notional)
        &&& crate::math::fits_i(
            p.size + (if side == Side::Buy {
                output as int
            } else {
                -output
            }),
        )
    }

    /// `np` is `p` after a reduction staged as `sw` moved `output` base: the
    /// share `output / |size|` of the staged PnL is realized into the margin
    /// after funding, and the cost basis is the staged value less the
    /// notional, less (long) or plus (short) the PnL left.
    pub open spec fn decreased(self, sw: TmpSwapInfo, p: Position, output: u128, np: Position) -> bool {
        let realized = if p.size != 0 {
            crate::math::div_tz(sw.unrealized_pnl * output, crate::math::abs(p.size as int))
        } else {
            0
        };
        let left = sw.unrealized_pnl - realized;
        let remaining = if p.size > 0 {
            sw.position_notional - sw.open_notional - left
        } else {
            left + sw.position_notional - sw.open_notional
        };
        &&& np.size == p.size + (if sw.side == Side::Buy {
            output as int
        } else {
            -output
        })
        &&& np.notional == crate::math::abs(remaining)
        &&& np.margin == crate::position::remain_of(
            crate::position::net_margin_of(
                p,
                realized,
                self.latest() as int,
                self.config.decimals as int,
            ).unwrap(),
            0,
            0,
        ).margin
        &&& np.last_updated_premium_fraction == self.latest()
        &&& np.trader == p.trader
        &&& np.liquidity_history_index == p.liquidity_history_index
        &&& np.block_number == p.block_number
    }

    /// `new`, `np` and the transfers `fs` (appended to `s`) are what
    /// flattening `p` and reversing it as staged in `sw` leave: the position
    /// sold back at the spot reserves; then, where the leftover notional over
    /// the leverage rounds to zero, the old margin refunded and the position
    /// empty, and otherwise the leftover opened on the new side from the
    /// reserves the flattening left, with fees charged once on the request.
    pub open spec fn reversed(
        self,
        sw: TmpSwapInfo,
        p: Position,
        new: Engine,
        np: Position,
        s: Seq<Transfer>,
        fs: Seq<Transfer>,
    ) -> bool {
        let d = self.config.decimals as int;
        let st = self.vamm.state;
        let size = crate::math::abs(p.size as int);
        let quote = crate::vamm::output_price(
            p.direction(),
            size,
            st.quote_asset_reserve as int,
            st.base_asset_reserve as int,
            d,
        ).unwrap();
        let ra = crate::vamm::reserves_after(
            crate::vamm::flip(p.direction()),
            quote,
            size,
            st.quote_asset_reserve as int,
            st.base_asset_reserve as int,
            st.total_position_size as int,
        ).unwrap();
        let leftover = crate::math::abs(sw.open_notional - quote);
        let oi = oi_after(self.state.open_interest_notional as int, -quote);
        let cleared = Position {
            size: 0,
            margin: 0,
            notional: 0,
            last_updated_premium_fraction: self.latest(),
            ..p
        };
        let base = crate::vamm::input_price(direction_of_side(sw.side), leftover, ra.0, ra.1, d).unwrap();
        let rb = crate::vamm::reserves_after(
            direction_of_side(sw.side),
            leftover,
            base,
            ra.0,
            ra.1,
            ra.2,
        ).unwrap();
        let m = -p.margin - sw.unrealized_pnl + leftover * d / sw.leverage as int;
        &&& sw.leverage > 0
        &&& np.trader == p.trader
        &&& np.last_updated_premium_fraction == self.latest()
        &&& np.liquidity_history_index == p.liquidity_history_index
        &&& np.block_number == p.block_number
        &&& if leftover / sw.leverage as int == 0 {
            &&& np.is_clear()
            &&& new.vamm.state.quote_asset_reserve == ra.0
            &&& new.vamm.state.base_asset_reserve == ra.1
            &&& new.vamm.state.total_position_size == ra.2
            &&& fs == self.fees_pushed(
                pushed(
                    s,
                    Transfer { from: Account::Vault, to: Account::Trader(sw.trader), amount: p.margin },
                ),
                sw.trader,
                sw.open_notional,
            )
            &&& new.vault_balance == self.vault_balance - p.margin
            &&& new.state.open_interest_notional == oi
        } else {
            &&& np.size == (if sw.side == Side::Buy {
                base
            } else {
                -base
            })
            &&& np.notional == leftover
            &&& np.margin == crate::position::remain_of(
                crate::position::net_margin_of(
                    cleared,
                    leftover * d / sw.leverage as int,
                    self.latest() as int,
                    d,
                ).unwrap(),
                0,
                0,
            ).margin
            &&& new.vamm.state.quote_asset_reserve == rb.0
            &&& new.vamm.state.base_asset_reserve == rb.1
            &&& new.vamm.state.total_position_size == rb.2
            &&& fs == self.fees_pushed(
                margin_pushed(self.vault_balance as int, s, sw.trader, m),
                sw.trader,
                sw.open_notional,
            )
            &&& new.vault_balance == vault_after_margin(self.vault_balance as int, m)
            &&& new.state.open_interest_notional == oi + leftover
        }
    }

    /// Completes a swap that shrank a position without flattening it:
    /// `input` quote moved `output` base. The share `output / |size|` of the
    /// pre-trade PnL is realized into the margin (after funding), the size
    /// moves by `output` on the swap's side, and the cost basis becomes the
    /// pre-trade value less the swap's notional, less (long) or plus (short)
    /// the PnL left unrealized.
    pub fn decrease_position_reply(
        &mut self,
        position: &mut Position,
        input: u128,
        output: u128,
    ) -> (r: Result<(), EngineError>)
        ensures
            final(position).liquidity_history_index == old(position).liquidity_history_index,
            final(position).block_number == old(position).block_number,
            !(old(self).tmp_swap matches Some(sw) && sw.trader == old(position).trader) ==> r
                == Err::<(), EngineError>(EngineError::InvalidState),
            old(self).tmp_swap matches Some(sw) && sw.trader == old(position).trader && old(
                self,
            ).decrease_ok(
                *old(position),
                sw.position_notional,
                sw.open_notional,
                sw.unrealized_pnl,
                sw.side,
                input,
                output,
            ) ==> r is Ok,
            !(old(self).tmp_swap matches Some(sw) && sw.trader == old(position).trader) ==> *final(self)
                == *old(self) && *final(position) == *old(position),
            r is Err ==> late_error(r->Err_0),
            r is Ok ==> final(self).state.open_interest_notional == oi_after(
                old(self).state.open_interest_notional as int,
                -input,
            ),
            old(self).settled_parts_kept(*final(self)),
            final(self).vamm == old(self).vamm,
            final(self).restriction_height == old(self).restriction_height
                && final(self).restricted_traders@ == old(self).restricted_traders@,
            final(self).tmp_liquidator == old(self).tmp_liquidator,
            final(self).vault_balance == old(self).vault_balance,
            r is Ok ==> old(self).decreased(
                old(self).tmp_swap.unwrap(),
                *old(position),
                output,
                *final(position),
            ) && final(self).tmp_swap is None,
    {
        let swap = self.pending_swap(position.trader)?;
        let latest = self.query_cumulative_premium_fraction();
        let d = self.config.decimals;
        self.update_open_interest_notional(signed(true, input)?)?;
        let signed_output = signed(swap.side == Side::Sell, output)?;
        let realized_pnl = if position.size != 0 {
            let out_i = signed(false, output)?;
            let size_abs = signed(false, abs_i(position.size))?;
            mul_div_signed(swap.unrealized_pnl, out_i, size_abs)?
        } else {
            0
        };
        let rm = calc_remain_margin_with_funding_payment(position, realized_pnl, latest, d)?;
        let left = sub_i(swap.unrealized_pnl, realized_pnl)?;
        let pn = signed(false, swap.position_notional)?;
        let on = signed(false, swap.open_notional)?;
        let remaining = if position.size > 0 {
            sub_i(sub_i(pn, on)?, left)?
        } else {
            sub_i(add_i(left, pn)?, on)?
        };
        position.size = add_i(position.size, signed_output)?;
        position.notional = abs_i(remaining);
        position.margin = rm.margin;
        position.last_updated_premium_fraction = rm.latest_premium_fraction;
        self.tmp_swap = None;
        Ok(())
    }

    /// Grows the position by swapping `open_notional` quote on `side` into the
    /// curve, then completes the swap staged for it.
    fn internal_increase_position(
        &mut self,
        position: &mut Position,
        side: Side,
        open_notional: u128,
        base_asset_limit: u128,
        block: Block,
        out: &mut Vec<Transfer>,
    ) -> (r: Result<(), EngineError>)
        requires
            old(self).valid(),
            old(self).tmp_swap matches Some(sw) && sw.trader == old(position).trader
                && sw.open_notional == open_notional && sw.side == side,
        ensures
            final(position).liquidity_history_index == old(position).liquidity_history_index,
            final(position).block_number == old(position).block_number,
            res_u(
                crate::vamm::input_price(
                    direction_of_side(side),
                    open_notional as int,
                    old(self).vamm.state.quote_asset_reserve as int,
                    old(self).vamm.state.base_asset_reserve as int,
                    old(self).config.decimals as int,
                ),
            ) matches Ok(base) && crate::vamm::input_within_limit(
                direction_of_side(side),
                base,
                base_asset_limit,
            ) && crate::vamm::reserves_after(
                direction_of_side(side),
                open_notional as int,
                base as int,
                old(self).vamm.state.quote_asset_reserve as int,
                old(self).vamm.state.base_asset_reserve as int,
                old(self).vamm.state.total_position_size as int,
            ) is Some && old(self).increase_ok(*old(position), open_notional, base) ==> r is Ok,
            r is Err ==> late_error(r->Err_0),
            r is Ok ==> ({
                let sw = old(self).tmp_swap.unwrap();
                let d = old(self).config.decimals as int;
                let sm = open_notional * d / sw.leverage as int;
                let m = sw.margin_to_vault + sm;
                let s1 = margin_pushed(old(self).vault_balance as int, old(out)@, sw.trader, m);
                let base = crate::vamm::input_price(
                    direction_of_side(side),
                    open_notional as int,
                    old(self).vamm.state.quote_asset_reserve as int,
                    old(self).vamm.state.base_asset_reserve as int,
                    d,
                );
                &&& old(self).vamm.moved_to(
                    final(self).vamm,
                    direction_of_side(side),
                    open_notional,
                    base.unwrap() as u128,
                    block.time,
                    block.height,
                )
                &&& final(position).margin == crate::position::remain_of(
                    crate::position::net_margin_of(*old(position), sm, old(self).latest() as int, d).unwrap(),
                    0,
                    0,
                ).margin
                &&& final(position).last_updated_premium_fraction == old(self).latest()
                &&& final(out)@ == (if sw.fees_paid {
                    s1
                } else {
                    old(self).fees_pushed(s1, sw.trader, sw.open_notional)
                })
                &&& final(self).vault_balance == vault_after_margin(old(self).vault_balance as int, m)
                &&& final(self).state.open_interest_notional == old(
                    self,
                ).state.open_interest_notional + open_notional
            }),
            old(self).settled_parts_kept(*final(self)),
            final(self).vamm.config == old(self).vamm.config,
            final(self).restriction_height == old(self).restriction_height
                && final(self).restricted_traders@ == old(self).restricted_traders@,
            final(self).tmp_liquidator == old(self).tmp_liquidator,
            r is Ok ==> {
                let base = crate::vamm::input_price(
                    direction_of_side(side),
                    open_notional as int,
                    old(self).vamm.state.quote_asset_reserve as int,
                    old(self).vamm.state.base_asset_reserve as int,
                    old(self).config.decimals as int,
                );
                &&& base is Some
                &&& final(position).size == old(position).size + (if side == Side::Buy {
                    base.unwrap()
                } else {
                    -base.unwrap()
                })
                &&& final(position).notional == old(position).notional + open_notional
                &&& final(position).size - old(position).size
                    == final(self).vamm.state.total_position_size
                    - old(self).vamm.state.total_position_size
                &&& final(position).trader == old(position).trader
                &&& final(self).tmp_swap is None
            },
    {
        let base = self.vamm.swap_input(
            side_to_direction(side),
            open_notional,
            base_asset_limit,
            block.time,
            block.height,
        )?;
        self.increase_position_reply(position, open_notional, base, out)
    }

    /// Trades against the existing position: where its spot value
    /// `position_notional` exceeds `open_notional`, swaps that much quote to
    /// reduce it; otherwise swaps its whole size back to flatten it and opens
    /// what is left of the request on the other side.
    fn open_reverse_position(
        &mut self,
        position: &mut Position,
        side: Side,
        open_notional: u128,
        position_notional: u128,
        base_asset_limit: u128,
        block: Block,
        out: &mut Vec<Transfer>,
    ) -> (r: Result<(), EngineError>)
        requires
            old(self).valid(),
            old(self).tmp_swap matches Some(sw) && sw.trader == old(position).trader
                && sw.open_notional == open_notional && sw.side == side
                && sw.position_notional == position_notional,
        ensures
            final(position).liquidity_history_index == old(position).liquidity_history_index,
            final(position).block_number == old(position).block_number,
            position_notional > open_notional ==> res_u(
                crate::vamm::input_price(
                    direction_of_side(side),
                    open_notional as int,
                    old(self).vamm.state.quote_asset_reserve as int,
                    old(self).vamm.state.base_asset_reserve as int,
                    old(self).config.decimals as int,
                ),
            ) matches Ok(base) && crate::vamm::input_within_limit(
                direction_of_side(side),
                base,
                base_asset_limit,
            ) && crate::vamm::reserves_after(
                direction_of_side(side),
                open_notional as int,
                base as int,
                old(self).vamm.state.quote_asset_reserve as int,
                old(self).vamm.state.base_asset_reserve as int,
                old(self).vamm.state.total_position_size as int,
            ) is Some && old(self).decrease_ok(
                *old(position),
                position_notional,
                open_notional,
                old(self).tmp_swap.unwrap().unrealized_pnl,
                side,
                open_notional,
                base,
            ) ==> r is Ok,
            position_notional <= open_notional ==> res_u(old(self).spot_value(*old(position)))
                matches Ok(quote) && crate::vamm::reserves_after(
                crate::vamm::flip(old(position).direction()),
                quote as int,
                crate::math::abs(old(position).size as int),
                old(self).vamm.state.quote_asset_reserve as int,
                old(self).vamm.state.base_asset_reserve as int,
                old(self).vamm.state.total_position_size as int,
            ) matches Some(ra) && old(self).reverse_ok(
                *old(position),
                old(self).tmp_swap.unwrap(),
                quote,
                ra.0,
                ra.1,
                ra.2,
            ) ==> r is Ok,
            r is Err ==> late_error(r->Err_0),
            r is Ok && position_notional <= open_notional ==> old(self).reversed(
                old(self).tmp_swap.unwrap(),
                *old(position),
                *final(self),
                *final(position),
                old(out)@,
                final(out)@,
            ),
            r is Ok && position_notional > open_notional ==> ({
                let base = crate::vamm::input_price(
                    direction_of_side(side),
                    open_notional as int,
                    old(self).vamm.state.quote_asset_reserve as int,
                    old(self).vamm.state.base_asset_reserve as int,
                    old(self).config.decimals as int,
                ).unwrap();
                &&& old(self).decreased(
                    old(self).tmp_swap.unwrap(),
                    *old(position),
                    base as u128,
                    *final(position),
                )
                &&& old(self).vamm.moved_to(
                    final(self).vamm,
                    direction_of_side(side),
                    open_notional,
                    base as u128,
                    block.time,
                    block.height,
                )
                &&& final(out)@ == old(out)@
                &&& final(self).vault_balance == old(self).vault_balance
                &&& final(self).state.open_interest_notional == oi_after(
                    old(self).state.open_interest_notional as int,
                    -open_notional,
                )
            }),
            old(self).settled_parts_kept(*final(self)),
            final(self).vamm.config == old(self).vamm.config,
            final(self).restriction_height == old(self).restriction_height
                && final(self).restricted_traders@ == old(self).restricted_traders@,
            final(self).tmp_liquidator == old(self).tmp_liquidator,
            r is Ok && position_notional > open_notional ==> {
                let base = crate::vamm::input_price(
                    direction_of_side(side),
                    open_notional as int,
                    old(self).vamm.state.quote_asset_reserve as int,
                    old(self).vamm.state.base_asset_reserve as int,
                    old(self).config.decimals as int,
                );
                &&& base is Some
                &&& final(position).size == old(position).size + (if side == Side::Buy {
                    base.unwrap()
                } else {
                    -base.unwrap()
                })
            },
            r is Ok ==> final(position).size - old(position).size
                == final(self).vamm.state.total_position_size
                - old(self).vamm.state.total_position_size && final(position).trader == old(
                position,
            ).trader && final(self).tmp_swap is None,
    {
        if position_notional > open_notional {
            let base = self.vamm.swap_input(
                side_to_direction(side),
                open_notional,
                base_asset_limit,
                block.time,
                block.height,
            )?;
            self.decrease_position_reply(position, open_notional, base)
        } else {
            let size = abs_i(position.size);
            let quote = self.vamm.swap_output(
                position.get_direction(),
                size,
                0,
                block.time,
                block.height,
            )?;
            self.reverse_position_reply(position, quote, block, out)
        }
    }

    /// The amounts of completing the flattening of `p` staged as `sw`, with
    /// `output` quote back and the curve then at reserves `q`, `b` and
    /// aggregate size `total`, fit their types; the vault can refund the
    /// margin, and any leftover can be opened on the new side.
    pub open spec fn reverse_ok(
        self,
        p: Position,
        sw: TmpSwapInfo,
        output: u128,
        q: int,
        b: int,
        total: int,
    ) -> bool {
        let leftover = crate::math::abs(sw.open_notional - output);
        let oi = self.state.open_interest_notional - output;
        let cleared = Position {
            size: 0,
            margin: 0,
            notional: 0,
            last_updated_premium_fraction: self.latest(),
            ..p
        };
        let next = TmpSwapInfo {
            open_notional: leftover as u128,
            margin_to_vault: (-p.margin - sw.unrealized_pnl) as i128,
            unrealized_pnl: 0,
            fees_paid: true,
            ..sw
        };
        let base = crate::vamm::input_price(
            direction_of_side(sw.side),
            leftover,
            q,
            b,
            self.config.decimals as int,
        );
        let after = Engine {
            state: State {
                open_interest_notional: if oi < 0 {
                    0
                } else {
                    oi as u128
                },
                ..self.state
            },
            tmp_swap: Some(next),
            ..self
        };
        &&& output <= i128::MAX
        &&& sw.leverage > 0
        &&& crate::math::fits_u(sw.open_notional * self.vamm.config.toll_ratio)
        &&& crate::math::fits_u(sw.open_notional * self.vamm.config.spread_ratio)
        &&& if leftover / sw.leverage as int == 0 {
            p.margin > 0 ==> self.vault_balance >= p.margin
        } else {
            &&& p.margin <= i128::MAX
            &&& crate::math::fits_i(-p.margin - sw.unrealized_pnl)
            &&& base is Some
            &&& crate::math::fits_u(base.unwrap())
            &&& crate::vamm::reserves_after(
                direction_of_side(sw.side),
                leftover,
                base.unwrap(),
                q,
                b,
                total,
            ) is Some
            &&& after.increase_ok(cleared, leftover as u128, base.unwrap() as u128)
        }
    }

    /// Completes the swap that flattened a position before reversing it:
    /// `output` quote came back. The position is cleared. Where the notional
    /// left over from the request, over the leverage, rounds to zero, the old
    /// margin is refunded and nothing more is swapped; otherwise the leftover
    /// is opened on the new side at once, with fees already charged.
    pub fn reverse_position_reply(
        &mut self,
        position: &mut Position,
        output: u128,
        block: Block,
        out: &mut Vec<Transfer>,
    ) -> (r: Result<(), EngineError>)
        requires
            old(self).valid(),
        ensures
            final(position).liquidity_history_index == old(position).liquidity_history_index,
            final(position).block_number == old(position).block_number,
            r is Ok ==> final(position).last_updated_premium_fraction == old(self).latest(),
            !(old(self).tmp_swap matches Some(sw) && sw.trader == old(position).trader) ==> r
                == Err::<(), EngineError>(EngineError::InvalidState),
            old(self).tmp_swap matches Some(sw) && sw.trader == old(position).trader && old(
                self,
            ).reverse_ok(
                *old(position),
                sw,
                output,
                old(self).vamm.state.quote_asset_reserve as int,
                old(self).vamm.state.base_asset_reserve as int,
                old(self).vamm.state.total_position_size as int,
            ) ==> r is Ok,
            !(old(self).tmp_swap matches Some(sw) && sw.trader == old(position).trader) ==> *final(self)
                == *old(self) && *final(position) == *old(position) && final(out)@ == old(out)@,
            r is Err ==> late_error(r->Err_0),
            r is Ok ==> ({
                let sw = old(self).tmp_swap.unwrap();
                let d = old(self).config.decimals as int;
                let leftover = crate::math::abs(sw.open_notional - output);
                let oi = oi_after(old(self).state.open_interest_notional as int, -output);
                let cleared = Position {
                    size: 0,
                    margin: 0,
                    notional: 0,
                    last_updated_premium_fraction: old(self).latest(),
                    ..*old(position)
                };
                let base = crate::vamm::input_price(
                    direction_of_side(sw.side),
                    leftover,
                    old(self).vamm.state.quote_asset_reserve as int,
                    old(self).vamm.state.base_asset_reserve as int,
                    d,
                );
                let m = -old(position).margin - sw.unrealized_pnl + leftover * d / sw.leverage as int;
                if leftover / sw.leverage as int == 0 {
                    &&& final(out)@ == old(self).fees_pushed(
                        pushed(
                            old(out)@,
                            Transfer {
                                from: Account::Vault,
                                to: Account::Trader(sw.trader),
                                amount: old(position).margin,
                            },
                        ),
                        sw.trader,
                        sw.open_notional,
                    )
                    &&& final(self).vault_balance == old(self).vault_balance - old(position).margin
                    &&& final(self).state.open_interest_notional == oi
                } else {
                    &&& base is Some
                    &&& final(position).size == (if sw.side == Side::Buy {
                        base.unwrap()
                    } else {
                        -base.unwrap()
                    })
                    &&& final(position).notional == leftover
                    &&& final(position).margin == crate::position::remain_of(
                        crate::position::net_margin_of(
                            cleared,
                            leftover * d / sw.leverage as int,
                            old(self).latest() as int,
                            d,
                        ).unwrap(),
                        0,
                        0,
                    ).margin
                    &&& final(position).last_updated_premium_fraction == old(self).latest()
                    &&& old(self).vamm.moved_to(
                        final(self).vamm,
                        direction_of_side(sw.side),
                        leftover as u128,
                        base.unwrap() as u128,
                        block.time,
                        block.height,
                    )
                    &&& final(out)@ == old(self).fees_pushed(
                        margin_pushed(old(self).vault_balance as int, old(out)@, sw.trader, m),
                        sw.trader,
                        sw.open_notional,
                    )
                    &&& final(self).vault_balance == vault_after_margin(
                        old(self).vault_balance as int,
                        m,
                    )
                    &&& final(self).state.open_interest_notional == oi + leftover
                }
            }),
            old(self).settled_parts_kept(*final(self)),
            final(self).vamm.config == old(self).vamm.config,
            final(self).restriction_height == old(self).restriction_height
                && final(self).restricted_traders@ == old(self).restricted_traders@,
            final(self).tmp_liquidator == old(self).tmp_liquidator,
            r is Ok ==> final(self).tmp_swap is None && final(position).trader == old(
                position,
            ).trader,
            r is Ok ==> {
                let sw = old(self).tmp_swap.unwrap();
                let leftover = crate::math::abs(sw.open_notional - output);
                &&& sw.leverage > 0
                &&& leftover / sw.leverage as int == 0 ==> {
                    &&& final(position).is_clear()
                    &&& final(self).vamm == old(self).vamm
                    &&& old(position).margin > 0 ==> final(out)@.len() > old(out)@.len()
                        && final(out)@[old(out)@.len() as int] == (Transfer {
                        from: Account::Vault,
                        to: Account::Trader(sw.trader),
                        amount: old(position).margin,
                    })
                }
                &&& leftover / sw.leverage as int != 0 ==> final(position).size == (
                    final(self).vamm.state.total_position_size
                        - old(self).vamm.state.total_position_size)
            },
    {
        let swap = self.pending_swap(position.trader)?;
        let latest = self.query_cumulative_premium_fraction();
        self.update_open_interest_notional(signed(true, output)?)?;
        let margin_amount = position.margin;
        Self::clear_position(position, latest);
        let leftover = if swap.open_notional > output {
            swap.open_notional - output
        } else {
            output - swap.open_notional
        };
        if swap.leverage == 0 {
            return Err(EngineError::Arithmetic);
        }
        if leftover / swap.leverage == 0 {
            self.transfer(out, Account::Vault, Account::Trader(swap.trader), margin_amount)?;
            self.tmp_swap = None;
        } else {
            let margin_to_vault = sub_i(signed(true, margin_amount)?, swap.unrealized_pnl)?;
            self.tmp_swap = Some(
                TmpSwapInfo {
                    open_notional: leftover,
                    margin_to_vault,
                    unrealized_pnl: 0,
                    fees_paid: true,
                    ..swap
                },
            );
            self.internal_increase_position(position, swap.side, leftover, 0, block, out)?;
        }
        self.transfer_fees(out, swap.trader, swap.open_notional)?;
        Ok(())
    }

    /// The PnL realized by closing a position whose base sold (or bought
    /// back) for `output` quote against a cost of `open_notional`.
    pub open spec fn close_delta(p: Position, open_notional: int, output: int) -> int {
        if p.size >= 0 {
            output - open_notional
        } else {
            open_notional - output
        }
    }

    fn margin_delta(position: &Position, open_notional: u128, output: u128) -> (r: Result<
        i128,
        EngineError,
    >)
        ensures
            r is Ok ==> r == Ok::<i128, EngineError>(
                Self::close_delta(*position, open_notional as int, output as int) as i128,
            ) && crate::math::fits_i(Self::close_delta(*position, open_notional as int, output as int)),
            r is Err ==> r == Err::<i128, EngineError>(EngineError::Arithmetic),
            open_notional <= i128::MAX && output <= i128::MAX && crate::math::fits_i(
                Self::close_delta(*position, open_notional as int, output as int),
            ) ==> r is Ok,
    {
        let on = signed(false, open_notional)?;
        let o = signed(false, output)?;
        if position.size >= 0 {
            sub_i(o, on)
        } else {
            sub_i(on, o)
        }
    }

    /// The amounts of closing `p`, which cost `open_notional`, for `output`
    /// quote fit their types, as do the bad debt and payouts that follow.
    pub open spec fn close_ok(self, p: Position, open_notional: u128, output: u128) -> bool {
        let delta = Self::close_delta(p, open_notional as int, output as int);
        let net = crate::position::net_margin_of(
            p,
            delta,
            self.latest() as int,
            self.config.decimals as int,
        );
        let n = net.unwrap();
        let bad = if n < 0 {
            -n
        } else {
            0
        };
        let margin = if n >= 0 {
            n
        } else {
            0
        };
        let prepaid = self.state.bad_debt as int;
        let vault1 = if bad > 0 && prepaid <= bad {
            self.vault_balance + (bad - prepaid)
        } else {
            self.vault_balance as int
        };
        let prepaid1 = if bad > 0 {
            if prepaid > bad {
                prepaid - bad
            } else {
                0
            }
        } else {
            prepaid
        };
        &&& output <= i128::MAX
        &&& open_notional <= i128::MAX
        &&& p.notional <= i128::MAX
        &&& crate::math::fits_i(delta)
        &&& net is Some
        &&& bad <= i128::MAX
        &&& vault1 <= u128::MAX
        &&& margin > 0 && vault1 < margin ==> prepaid1 + (margin - vault1) <= u128::MAX
        &&& crate::math::fits_u(p.notional * self.vamm.config.toll_ratio)
        &&& crate::math::fits_u(p.notional * self.vamm.config.spread_ratio)
        &&& crate::math::fits_i(delta + bad + p.notional)
        &&& crate::math::fits_i(-(delta + bad + p.notional))
        &&& delta + bad + p.notional < 0 ==> self.state.open_interest_notional - (delta + bad
            + p.notional) <= u128::MAX
        &&& self.config.decimals > 0
    }

    /// `s` after closing `p`, which cost `open_notional`, for `output` quote:
    /// bad debt pulled through the insurance fund, the margin left paid back
    /// to the trader, and the fees on the cost basis charged.
    pub open spec fn close_pushed(self, p: Position, open_notional: u128, output: u128, s: Seq<
        Transfer,
    >) -> Seq<Transfer> {
        let net = crate::position::net_margin_of(
            p,
            Self::close_delta(p, open_notional as int, output as int),
            self.latest() as int,
            self.config.decimals as int,
        ).unwrap();
        let bad = if net < 0 {
            -net
        } else {
            0
        };
        let margin = if net >= 0 {
            net
        } else {
            0
        };
        let prepaid = self.state.bad_debt as int;
        let vault1 = if bad > 0 && prepaid <= bad {
            self.vault_balance + (bad - prepaid)
        } else {
            self.vault_balance as int
        };
        let s1 = if bad > 0 {
            realize_pushed(prepaid, s, bad)
        } else {
            s
        };
        let s2 = if margin > 0 {
            withdraw_pushed(vault1, s1, Account::Trader(p.trader), margin)
        } else {
            s1
        };
        self.fees_pushed(s2, p.trader, p.notional)
    }

    /// Completes the swap that closed a position for `output` quote. The
    /// realized PnL and funding are applied to the margin; a shortfall is
    /// bad debt covered through the insurance fund, a remainder is paid back
    /// to the trader; fees are charged on the cost basis and the position is
    /// cleared.
    pub fn close_position_reply(
        &mut self,
        position: &mut Position,
        output: u128,
        out: &mut Vec<Transfer>,
    ) -> (r: Result<(), EngineError>)
        ensures
            final(position).liquidity_history_index == old(position).liquidity_history_index,
            final(position).block_number == old(position).block_number,
            !(old(self).tmp_swap matches Some(sw) && sw.trader == old(position).trader) ==> r
                == Err::<(), EngineError>(EngineError::InvalidState),
            old(self).tmp_swap matches Some(sw) && sw.trader == old(position).trader && old(
                self,
            ).close_ok(*old(position), sw.open_notional, output) ==> r is Ok,
            !(old(self).tmp_swap matches Some(sw) && sw.trader == old(position).trader) ==> *final(self)
                == *old(self) && *final(position) == *old(position) && final(out)@ == old(out)@,
            r is Err ==> late_error(r->Err_0),
            r is Ok ==> ({
                let sw = old(self).tmp_swap.unwrap();
                let net = crate::position::net_margin_of(
                    *old(position),
                    Self::close_delta(*old(position), sw.open_notional as int, output as int),
                    old(self).latest() as int,
                    old(self).config.decimals as int,
                ).unwrap();
                let bad = if net < 0 {
                    -net
                } else {
                    0
                };
                &&& final(out)@ == old(self).close_pushed(
                    *old(position),
                    sw.open_notional,
                    output,
                    old(out)@,
                )
                &&& final(self).state.open_interest_notional == oi_after(
                    old(self).state.open_interest_notional as int,
                    -(Self::close_delta(*old(position), sw.open_notional as int, output as int)
                        + bad + old(position).notional),
                )
            }),
            old(self).settled_parts_kept(*final(self)),
            final(self).vamm == old(self).vamm,
            final(self).restriction_height == old(self).restriction_height
                && final(self).restricted_traders@ == old(self).restricted_traders@,
            final(self).tmp_liquidator == old(self).tmp_liquidator,
            r is Ok ==> final(self).tmp_swap is None && final(position).is_clear()
                && final(position).trader == old(position).trader
                && final(position).last_updated_premium_fraction == old(self).latest(),
            r is Ok ==> {
                let sw = old(self).tmp_swap.unwrap();
                let net = crate::position::net_margin_of(
                    *old(position),
                    Self::close_delta(*old(position), sw.open_notional as int, output as int),
                    old(self).latest() as int,
                    old(self).config.decimals as int,
                );
                &&& net is Some
                &&& net.unwrap() > 0 ==> final(out)@.contains(
                    Transfer {
                        from: Account::Vault,
                        to: Account::Trader(sw.trader),
                        amount: net.unwrap() as u128,
                    },
                )
            },
    {
        let swap = self.pending_swap(position.trader)?;
        let latest = self.query_cumulative_premium_fraction();
        let d = self.config.decimals;
        let margin_delta = Self::margin_delta(position, swap.open_notional, output)?;
        let rm = calc_remain_margin_with_funding_payment(position, margin_delta, latest, d)?;
        if rm.bad_debt != 0 {
            self.realize_bad_debt(out, rm.bad_debt)?;
        }
        if rm.margin != 0 {
            self.withdraw(out, Account::Trader(swap.trader), rm.margin)?;
            assert(out@.contains(
                Transfer { from: Account::Vault, to: Account::Trader(swap.trader), amount: rm.margin },
            )) by {
                assert(out@[out@.len() - 1] == Transfer {
                    from: Account::Vault,
                    to: Account::Trader(swap.trader),
                    amount: rm.margin,
                });
            }
        }
        let ghost before = out@;
        self.transfer_fees(out, swap.trader, position.notional)?;
        assert(forall|t: Transfer| before.contains(t) ==> out@.contains(t)) by {
            assert forall|t: Transfer| before.contains(t) implies out@.contains(t) by {
                let j = choose|j: int| 0 <= j < before.len() && before[j] == t;
                assert(out@[j] == t);
            }
        }
        let value = add_i(
            add_i(margin_delta, signed(false, rm.bad_debt)?)?,
            signed(false, position.notional)?,
        )?;
        let neg = sub_i(0, value)?;
        self.update_open_interest_notional(neg)?;
        Self::clear_position(position, latest);
        self.tmp_swap = None;
        Ok(())
    }

    /// Reads the liquidator of the liquidation in flight.
    fn pending_liquidator(&self) -> (r: Result<u64, EngineError>)
        ensures
            r is Ok <==> self.tmp_liquidator is Some,
            r is Ok ==> r == Ok::<u64, EngineError>(self.tmp_liquidator.unwrap()),
            r is Err ==> r == Err::<u64, EngineError>(EngineError::InvalidState),
    {
        match self.tmp_liquidator {
            Some(l) => Ok(l),
            None => Err(EngineError::InvalidState),
        }
    }

    /// The amounts of fully liquidating `p`, which cost `open_notional`, for
    /// `output` quote fit their types, and the vault can pay out what it must.
    pub open spec fn liquidation_ok(self, p: Position, open_notional: u128, output: u128) -> bool {
        let d = self.config.decimals as int;
        let delta = Self::close_delta(p, open_notional as int, output as int);
        let net = crate::position::net_margin_of(p, delta, self.latest() as int, d).unwrap();
        let bad0 = if net < 0 {
            -net
        } else {
            0
        };
        let m0 = if net >= 0 {
            net
        } else {
            0
        };
        let fee = output * self.config.liquidation_fee / d / 2;
        let m1 = if fee > m0 {
            m0
        } else {
            m0 - fee
        };
        let bad1 = if fee > m0 {
            bad0 + fee - m0
        } else {
            bad0
        };
        let prepaid = self.state.bad_debt as int;
        let vault1 = if bad1 > 0 && prepaid <= bad1 {
            self.vault_balance + (bad1 - prepaid)
        } else {
            self.vault_balance as int
        };
        let prepaid1 = if bad1 > 0 {
            if prepaid > bad1 {
                prepaid - bad1
            } else {
                0
            }
        } else {
            prepaid
        };
        let vault2 = if m1 > 0 {
            vault1 - m1
        } else {
            vault1
        };
        &&& d > 0
        &&& output <= i128::MAX
        &&& open_notional <= i128::MAX
        &&& crate::math::fits_i(delta)
        &&& crate::position::net_margin_of(p, delta, self.latest() as int, d) is Some
        &&& crate::math::fits_u(output * self.config.liquidation_fee)
        &&& bad1 <= u128::MAX
        &&& vault1 <= u128::MAX
        &&& m1 > 0 ==> vault1 >= m1
        &&& vault2 < fee ==> prepaid1 + (fee - vault2) <= u128::MAX
    }

    /// `s` after fully liquidating `p`, which cost `open_notional`, for
    /// `output` quote on behalf of `liquidator`: bad debt pulled through the
    /// insurance fund, what margin is left paid to the insurance fund, and the
    /// liquidator's fee paid out.
    pub open spec fn liquidation_pushed(
        self,
        p: Position,
        open_notional: u128,
        output: u128,
        liquidator: u64,
        s: Seq<Transfer>,
    ) -> Seq<Transfer> {
        let d = self.config.decimals as int;
        let delta = Self::close_delta(p, open_notional as int, output as int);
        let net = crate::position::net_margin_of(p, delta, self.latest() as int, d).unwrap();
        let bad0 = if net < 0 {
            -net
        } else {
            0
        };
        let m0 = if net >= 0 {
            net
        } else {
            0
        };
        let fee = output * self.config.liquidation_fee / d / 2;
        let m1 = if fee > m0 {
            m0
        } else {
            m0 - fee
        };
        let bad1 = if fee > m0 {
            bad0 + fee - m0
        } else {
            bad0
        };
        let prepaid = self.state.bad_debt as int;
        let vault1 = if bad1 > 0 && prepaid <= bad1 {
            self.vault_balance + (bad1 - prepaid)
        } else {
            self.vault_balance as int
        };
        let vault2 = if m1 > 0 {
            vault1 - m1
        } else {
            vault1
        };
        let s1 = if bad1 > 0 {
            realize_pushed(prepaid, s, bad1)
        } else {
            s
        };
        let s2 = if m1 > 0 {
            pushed(
                s1,
                Transfer { from: Account::Vault, to: Account::InsuranceFund, amount: m1 as u128 },
            )
        } else {
            s1
        };
        withdraw_pushed(vault2, s2, Account::Trader(liquidator), fee)
    }

    /// Completes the swap of a full liquidation, which closed the position
    /// for `output` quote. The penalty is `output * liquidation_fee /
    /// decimals` and the liquidator's fee half of it. The fee comes out of
    /// the remaining margin, or where that is short, the shortfall is bad
    /// debt; what margin is left goes to the insurance fund. The position is
    /// cleared and the trader restricted for this block.
    pub fn liquidate_reply(
        &mut self,
        position: &mut Position,
        output: u128,
        block: Block,
        out: &mut Vec<Transfer>,
    ) -> (r: Result<(), EngineError>)
        ensures
            final(position).liquidity_history_index == old(position).liquidity_history_index,
            final(position).block_number == old(position).block_number,
            r is Ok ==> final(position).last_updated_premium_fraction == old(self).latest(),
            !(old(self).tmp_swap matches Some(sw) && sw.trader == old(position).trader) ==> r
                == Err::<(), EngineError>(EngineError::InvalidState),
            old(self).tmp_liquidator is None ==> r == Err::<(), EngineError>(
                EngineError::InvalidState,
            ),
            old(self).tmp_swap matches Some(sw) && sw.trader == old(position).trader && old(
                self,
            ).tmp_liquidator is Some && old(self).liquidation_ok(
                *old(position),
                sw.open_notional,
                output,
            ) ==> r is Ok,
            !(old(self).tmp_swap matches Some(sw) && sw.trader == old(position).trader && old(
                self,
            ).tmp_liquidator is Some) ==> *final(self) == *old(self) && *final(position) == *old(
                position,
            ) && final(out)@ == old(out)@,
            r is Err ==> late_error(r->Err_0),
            r is Ok ==> final(out)@ == old(self).liquidation_pushed(
                *old(position),
                old(self).tmp_swap.unwrap().open_notional,
                output,
                old(self).tmp_liquidator.unwrap(),
                old(out)@,
            ),
            old(self).settled_parts_kept(*final(self)),
            final(self).vamm == old(self).vamm,
            r is Ok ==> final(self).tmp_swap is None && final(self).tmp_liquidator is None
                && final(position).is_clear() && final(position).trader == old(position).trader
                && final(self).restricted(old(position).trader, block.height) && forall|t: u64|
                old(self).restricted(t, block.height) ==> final(self).restricted(t, block.height),
            r is Ok ==> {
                let fee = output * old(self).config.liquidation_fee / old(
                    self,
                ).config.decimals as int / 2;
                fee > 0 ==> final(out)@.contains(
                    Transfer {
                        from: Account::Vault,
                        to: Account::Trader(old(self).tmp_liquidator.unwrap()),
                        amount: fee as u128,
                    },
                )
            },
    {
        let swap = self.pending_swap(position.trader)?;
        let liquidator = self.pending_liquidator()?;
        let latest = self.query_cumulative_premium_fraction();
        let d = self.config.decimals;
        let margin_delta = Self::margin_delta(position, swap.open_notional, output)?;
        let rm = calc_remain_margin_with_funding_payment(position, margin_delta, latest, d)?;
        let penalty = mul_div(output, self.config.liquidation_fee, d)?;
        let fee = penalty / 2;
        let mut margin = rm.margin;
        let mut bad_debt = rm.bad_debt;
        if fee > margin {
            bad_debt = add_u(bad_debt, fee - margin)?;
        } else {
            margin = margin - fee;
        }
        if bad_debt != 0 {
            self.realize_bad_debt(out, bad_debt)?;
        }
        if margin != 0 {
            self.transfer(out, Account::Vault, Account::InsuranceFund, margin)?;
        }
        self.withdraw(out, Account::Trader(liquidator), fee)?;
        assert(fee > 0 ==> out@.contains(
            Transfer { from: Account::Vault, to: Account::Trader(liquidator), amount: fee },
        )) by {
            if fee > 0 {
                assert(out@[out@.len() - 1] == Transfer {
                    from: Account::Vault,
                    to: Account::Trader(liquidator),
                    amount: fee,
                });
            }
        }
        Self::clear_position(position, latest);
        self.tmp_swap = None;
        self.tmp_liquidator = None;
        self.enter_restriction_mode(swap.trader, block.height);
        Ok(())
    }

    /// The amounts of a partial liquidation of `p` that moved `input` base
    /// for `output` quote, staged with notional `open_notional` and PnL
    /// `pnl`, fit their types; the margin covers the realized loss and the
    /// penalty, and the vault can pay the insurance fund its share.
    pub open spec fn partial_ok(
        self,
        p: Position,
        open_notional: u128,
        pnl: i128,
        input: u128,
        output: u128,
    ) -> bool {
        let d = self.config.decimals as int;
        let ratio = self.config.partial_liquidation_ratio as int;
        let realized = crate::math::abs(crate::math::div_tz(pnl * ratio, d));
        let penalty = output * self.config.liquidation_fee / d;
        let fee = penalty / 2;
        let new_size = if p.size < 0 {
            p.size + input
        } else {
            p.size - input
        };
        let vault1 = self.vault_balance - (penalty - fee);
        &&& d > 0
        &&& d <= i128::MAX
        &&& ratio <= i128::MAX
        &&& crate::math::fits_i(pnl * ratio)
        &&& crate::math::fits_u(output * self.config.liquidation_fee)
        &&& input <= i128::MAX
        &&& crate::math::fits_i(new_size)
        &&& p.margin - realized - penalty >= 0
        &&& new_size > 0 ==> p.notional - open_notional - realized >= 0
        &&& new_size <= 0 ==> realized + p.notional <= u128::MAX && realized + p.notional
            - open_notional >= 0
        &&& self.vault_balance >= penalty - fee
        &&& vault1 < fee ==> self.state.bad_debt + (fee - vault1) <= u128::MAX
    }

    /// Completes the swap of a partial liquidation: `input` base left the
    /// position for `output` quote. The magnitude of the pre-trade PnL times
    /// the partial ratio is realized and, with the penalty `output *
    /// liquidation_fee / decimals`, taken off the margin; for a position left
    /// long the cost basis drops by the swap's notional and that amount, for
    /// one left short it drops by the notional and rises by that amount. Half
    /// the penalty goes to the insurance fund and half to the liquidator, and
    /// the trader is restricted for this block.
    pub fn partial_liquidation_reply(
        &mut self,
        position: &mut Position,
        input: u128,
        output: u128,
        block: Block,
        out: &mut Vec<Transfer>,
    ) -> (r: Result<(), EngineError>)
        ensures
            final(position).liquidity_history_index == old(position).liquidity_history_index,
            final(position).block_number == old(position).block_number,
            final(position).last_updated_premium_fraction == old(position).last_updated_premium_fraction,
            !(old(self).tmp_swap matches Some(sw) && sw.trader == old(position).trader) ==> r
                == Err::<(), EngineError>(EngineError::InvalidState),
            old(self).tmp_liquidator is None ==> r == Err::<(), EngineError>(
                EngineError::InvalidState,
            ),
            old(self).tmp_swap matches Some(sw) && sw.trader == old(position).trader && old(
                self,
            ).tmp_liquidator is Some && old(self).partial_ok(
                *old(position),
                sw.open_notional,
                sw.unrealized_pnl,
                input,
                output,
            ) ==> r is Ok,
            !(old(self).tmp_swap matches Some(sw) && sw.trader == old(position).trader && old(
                self,
            ).tmp_liquidator is Some) ==> *final(self) == *old(self) && *final(position) == *old(
                position,
            ) && final(out)@ == old(out)@,
            r is Err ==> late_error(r->Err_0),
            r is Ok ==> ({
                let penalty = output * old(self).config.liquidation_fee / old(
                    self,
                ).config.decimals as int;
                let fee = penalty / 2;
                final(out)@ == withdraw_pushed(
                    old(self).vault_balance - (penalty - fee),
                    pushed(
                        old(out)@,
                        Transfer {
                            from: Account::Vault,
                            to: Account::InsuranceFund,
                            amount: (penalty - fee) as u128,
                        },
                    ),
                    Account::Trader(old(self).tmp_liquidator.unwrap()),
                    fee,
                )
            }),
            old(self).settled_parts_kept(*final(self)),
            final(self).vamm == old(self).vamm,
            r is Ok ==> final(self).tmp_swap is None && final(self).tmp_liquidator is None
                && final(position).trader == old(position).trader
                && final(self).restricted(old(position).trader, block.height) && forall|t: u64|
                old(self).restricted(t, block.height) ==> final(self).restricted(t, block.height),
            r is Ok ==> {
                let sw = old(self).tmp_swap.unwrap();
                let c = old(self).config;
                let realized = crate::math::abs(
                    crate::math::div_tz(
                        sw.unrealized_pnl * c.partial_liquidation_ratio,
                        c.decimals as int,
                    ),
                );
                let penalty = output * c.liquidation_fee / c.decimals as int;
                &&& final(position).size == (if old(position).size < 0 {
                    old(position).size + input
                } else {
                    old(position).size - input
                })
                &&& final(position).margin == old(position).margin - realized - penalty
                &&& final(position).notional == (if final(position).size > 0 {
                    old(position).notional - sw.open_notional - realized
                } else {
                    realized + old(position).notional - sw.open_notional
                })
            },
    {
        let swap = self.pending_swap(position.trader)?;
        let liquidator = self.pending_liquidator()?;
        let d = self.config.decimals;
        let ratio = signed(false, self.config.partial_liquidation_ratio)?;
        let di = signed(false, d)?;
        let realized = abs_i(mul_div_signed(swap.unrealized_pnl, ratio, di)?);
        let penalty = mul_div(output, self.config.liquidation_fee, d)?;
        let fee = penalty / 2;
        let signed_input = signed(position.size >= 0, input)?;
        let size = add_i(position.size, signed_input)?;
        let margin = sub_u(sub_u(position.margin, realized)?, penalty)?;
        let notional = if size > 0 {
            sub_u(sub_u(position.notional, swap.open_notional)?, realized)?
        } else {
            sub_u(add_u(realized, position.notional)?, swap.open_notional)?
        };
        position.size = size;
        position.margin = margin;
        position.notional = notional;
        let to_insurance = penalty - fee;
        if to_insurance != 0 {
            self.transfer(out, Account::Vault, Account::InsuranceFund, to_insurance)?;
        }
        self.withdraw(out, Account::Trader(liquidator), fee)?;
        self.tmp_swap = None;
        self.tmp_liquidator = None;
        self.enter_restriction_mode(swap.trader, block.height);
        Ok(())
    }

    /// Whether trading on `side` grows the position (or opens it) rather
    /// than reducing or reversing it.
    pub open spec fn increases(p: Position, side: Side) -> bool {
        p.size == 0 || (p.size > 0 && side == Side::Buy) || (p.size < 0 && side == Side::Sell)
    }

    /// Every amount of opening or growing `p` on `side` fits its type, the
    /// leverage is within the initial margin ratio and the curve's output
    /// respects `base_asset_limit`.
    pub open spec fn open_increase_ok(
        self,
        p: Position,
        side: Side,
        quote_asset_amount: u128,
        leverage: u128,
        base_asset_limit: u128,
    ) -> bool {
        let d = self.config.decimals as int;
        let n = quote_asset_amount * leverage / d;
        let dir = direction_of_side(side);
        let base = crate::vamm::input_price(
            dir,
            n,
            self.vamm.state.quote_asset_reserve as int,
            self.vamm.state.base_asset_reserve as int,
            d,
        );
        let sm = n * d / leverage as int;
        &&& leverage > 0
        &&& crate::math::fits_u(d * d)
        &&& (d * d / (leverage as int)) >= self.config.initial_margin_ratio
        &&& crate::math::fits_u(quote_asset_amount * leverage)
        &&& self.spot_of(p) is Some
        &&& base is Some
        &&& crate::math::fits_u(base.unwrap())
        &&& crate::vamm::input_within_limit(dir, base.unwrap() as u128, base_asset_limit)
        &&& crate::vamm::reserves_after(
            dir,
            n,
            base.unwrap(),
            self.vamm.state.quote_asset_reserve as int,
            self.vamm.state.base_asset_reserve as int,
            self.vamm.state.total_position_size as int,
        ) is Some
        &&& n <= i128::MAX
        &&& self.state.open_interest_notional + n <= u128::MAX
        &&& crate::math::fits_u(n * d)
        &&& sm <= i128::MAX
        &&& crate::position::net_margin_of(p, sm, self.latest() as int, d) is Some
        &&& crate::math::fits_i(
            p.size + (if side == Side::Buy {
                base.unwrap()
            } else {
                -base.unwrap()
            }),
        )
        &&& p.notional + n <= u128::MAX
        &&& self.vault_balance + sm <= u128::MAX
        &&& crate::math::fits_u(n * self.vamm.config.toll_ratio)
        &&& crate::math::fits_u(n * self.vamm.config.spread_ratio)
    }

    /// Reducing `p` by trading `quote_asset_amount` at `leverage` on `side`
    /// is allowed by the initial margin ratio, swaps less than the position
    /// is worth, respects `base_asset_limit`, and every amount fits.
    pub open spec fn open_decrease_ok(
        self,
        p: Position,
        side: Side,
        quote_asset_amount: u128,
        leverage: u128,
        base_asset_limit: u128,
    ) -> bool {
        let d = self.config.decimals as int;
        let n = quote_asset_amount * leverage / d;
        let dir = direction_of_side(side);
        let base = crate::vamm::input_price(
            dir,
            n,
            self.vamm.state.quote_asset_reserve as int,
            self.vamm.state.base_asset_reserve as int,
            d,
        );
        let spot = self.spot_of(p).unwrap();
        &&& leverage > 0
        &&& crate::math::fits_u(d * d)
        &&& (d * d / (leverage as int)) >= self.config.initial_margin_ratio
        &&& crate::math::fits_u(quote_asset_amount * leverage)
        &&& self.spot_of(p) is Some
        &&& spot.position_notional > n
        &&& base is Some
        &&& crate::math::fits_u(base.unwrap())
        &&& crate::vamm::input_within_limit(dir, base.unwrap() as u128, base_asset_limit)
        &&& crate::vamm::reserves_after(
            dir,
            n,
            base.unwrap(),
            self.vamm.state.quote_asset_reserve as int,
            self.vamm.state.base_asset_reserve as int,
            self.vamm.state.total_position_size as int,
        ) is Some
        &&& self.decrease_ok(
            p,
            spot.position_notional,
            n as u128,
            spot.unrealized_pnl,
            side,
            n as u128,
            base.unwrap() as u128,
        )
    }

    /// Reversing `p` by trading `quote_asset_amount` at `leverage` on
    /// `side` is allowed by the initial margin ratio, the request is worth
    /// at least the position, and flattening it and opening the rest fits
    /// every type (see `reverse_ok`).
    pub open spec fn open_reverse_ok(
        self,
        p: Position,
        side: Side,
        quote_asset_amount: u128,
        leverage: u128,
    ) -> bool {
        let d = self.config.decimals as int;
        let n = quote_asset_amount * leverage / d;
        let spot = self.spot_of(p).unwrap();
        let quote = res_u(self.spot_value(p));
        let ra = crate::vamm::reserves_after(
            crate::vamm::flip(p.direction()),
            quote->Ok_0 as int,
            crate::math::abs(p.size as int),
            self.vamm.state.quote_asset_reserve as int,
            self.vamm.state.base_asset_reserve as int,
            self.vamm.state.total_position_size as int,
        );
        let sw = TmpSwapInfo {
            trader: p.trader,
            side,
            quote_asset_amount,
            leverage,
            open_notional: n as u128,
            position_notional: spot.position_notional,
            unrealized_pnl: spot.unrealized_pnl,
            margin_to_vault: 0,
            fees_paid: false,
        };
        &&& leverage > 0
        &&& crate::math::fits_u(d * d)
        &&& (d * d / (leverage as int)) >= self.config.initial_margin_ratio
        &&& crate::math::fits_u(quote_asset_amount * leverage)
        &&& self.spot_of(p) is Some
        &&& spot.position_notional <= n
        &&& quote is Ok
        &&& ra is Some
        &&& self.reverse_ok(p, sw, quote->Ok_0, ra.unwrap().0, ra.unwrap().1, ra.unwrap().2)
    }

    /// The swap that trading `p` with `quote_asset_amount` at `leverage` on
    /// `side` stages: its notional, and the position's spot value and PnL.
    pub open spec fn staged(
        self,
        p: Position,
        side: Side,
        quote_asset_amount: u128,
        leverage: u128,
    ) -> TmpSwapInfo {
        let spot = self.spot_of(p).unwrap();
        TmpSwapInfo {
            trader: p.trader,
            side,
            quote_asset_amount,
            leverage,
            open_notional: (quote_asset_amount * leverage / self.config.decimals as int) as u128,
            position_notional: spot.position_notional,
            unrealized_pnl: spot.unrealized_pnl,
            margin_to_vault: 0,
            fees_paid: false,
        }
    }

    /// Opens a position of `quote_asset_amount` margin at `leverage` on
    /// `side`, or trades the existing position that way. The notional is
    /// `quote_asset_amount * leverage / decimals`. The same side grows the
    /// position; the other side reduces it where its spot value exceeds the
    /// notional, and otherwise flattens it and opens the rest on the new
    /// side. `base_asset_limit` bounds the base the curve hands out;
    /// `registered` is whether the insurance fund registers the curve. On an
    /// error the caller discards every change.
    pub fn open_position(
        &mut self,
        position: &mut Position,
        side: Side,
        quote_asset_amount: u128,
        leverage: u128,
        base_asset_limit: u128,
        registered: bool,
        block: Block,
    ) -> (r: Result<Vec<Transfer>, EngineError>)
        requires
            old(self).valid(),
        ensures
            final(position).liquidity_history_index == old(position).liquidity_history_index,
            final(position).block_number == old(position).block_number,
            old(self).action_check(true, registered, old(position).trader, block.height) matches Some(e) ==> r
                == Err::<Vec<Transfer>, EngineError>(e) && *final(self) == *old(self) && *final(position)
                == *old(position),
            old(self).action_check(true, registered, old(position).trader, block.height) is None && leverage == 0
                ==> r == Err::<Vec<Transfer>, EngineError>(EngineError::Arithmetic) && *final(self)
                == *old(self) && *final(position) == *old(position),
            old(self).action_check(true, registered, old(position).trader, block.height) is None && leverage > 0
                && crate::math::fits_u(old(self).config.decimals * old(self).config.decimals) && (old(
                self,
            ).config.decimals * old(self).config.decimals / (leverage as int)) < old(
                self,
            ).config.initial_margin_ratio ==> r == Err::<Vec<Transfer>, EngineError>(
                EngineError::Undercollateralized,
            ) && *final(self) == *old(self) && *final(position) == *old(position),
            r == Err::<Vec<Transfer>, EngineError>(EngineError::Undercollateralized) ==> old(self).action_check(true, registered, old(position).trader, block.height) is None
                && leverage > 0 && crate::math::fits_u(
                old(self).config.decimals * old(self).config.decimals,
            ) && (old(self).config.decimals * old(self).config.decimals / (leverage as int)) < old(
                self,
            ).config.initial_margin_ratio,
            r == Err::<Vec<Transfer>, EngineError>(EngineError::RestrictedAction) ==> old(
                self,
            ).restricted(old(position).trader, block.height),
            old(self).action_check(true, registered, old(position).trader, block.height) is None && Self::increases(*old(position), side)
                && old(self).open_increase_ok(
                *old(position),
                side,
                quote_asset_amount,
                leverage,
                base_asset_limit,
            ) ==> r is Ok,
            old(self).action_check(true, registered, old(position).trader, block.height) is None && !Self::increases(*old(position), side)
                && old(self).open_decrease_ok(
                *old(position),
                side,
                quote_asset_amount,
                leverage,
                base_asset_limit,
            ) ==> r is Ok,
            old(self).action_check(true, registered, old(position).trader, block.height) is None && !Self::increases(*old(position), side)
                && old(self).open_reverse_ok(*old(position), side, quote_asset_amount, leverage)
                ==> r is Ok,
            r is Ok ==> old(self).action_completed(*final(self), *old(position), *final(position))
                && final(self).restriction_height == old(self).restriction_height
                && final(self).restricted_traders@ == old(self).restricted_traders@,
            r is Ok && Self::increases(*old(position), side) ==> ({
                let d = old(self).config.decimals as int;
                let n = quote_asset_amount * leverage / d;
                let base = crate::vamm::input_price(
                    direction_of_side(side),
                    n,
                    old(self).vamm.state.quote_asset_reserve as int,
                    old(self).vamm.state.base_asset_reserve as int,
                    d,
                ).unwrap();
                let sm = n * d / leverage as int;
                &&& final(position).size == old(position).size + (if side == Side::Buy {
                    base
                } else {
                    -base
                })
                &&& final(position).notional == old(position).notional + n
                &&& final(position).margin == crate::position::remain_of(
                    crate::position::net_margin_of(*old(position), sm, old(self).latest() as int, d).unwrap(),
                    0,
                    0,
                ).margin
                &&& final(position).last_updated_premium_fraction == old(self).latest()
                &&& old(self).vamm.moved_to(
                    final(self).vamm,
                    direction_of_side(side),
                    n as u128,
                    base as u128,
                    block.time,
                    block.height,
                )
                &&& r->Ok_0@ == old(self).fees_pushed(
                    margin_pushed(
                        old(self).vault_balance as int,
                        Seq::empty(),
                        old(position).trader,
                        sm,
                    ),
                    old(position).trader,
                    n as u128,
                )
                &&& final(self).vault_balance == old(self).vault_balance + sm
                &&& final(self).state.open_interest_notional == old(
                    self,
                ).state.open_interest_notional + n
            }),
            r is Ok && !Self::increases(*old(position), side) ==> ({
                let d = old(self).config.decimals as int;
                let n = quote_asset_amount * leverage / d;
                let spot = old(self).spot_of(*old(position)).unwrap();
                let sw = old(self).staged(*old(position), side, quote_asset_amount, leverage);
                let base = crate::vamm::input_price(
                    direction_of_side(side),
                    n,
                    old(self).vamm.state.quote_asset_reserve as int,
                    old(self).vamm.state.base_asset_reserve as int,
                    d,
                ).unwrap();
                if spot.position_notional > n {
                    &&& old(self).decreased(sw, *old(position), base as u128, *final(position))
                    &&& old(self).vamm.moved_to(
                        final(self).vamm,
                        direction_of_side(side),
                        n as u128,
                        base as u128,
                        block.time,
                        block.height,
                    )
                    &&& r->Ok_0@ == Seq::<Transfer>::empty()
                    &&& final(self).vault_balance == old(self).vault_balance
                    &&& final(self).state.open_interest_notional == oi_after(
                        old(self).state.open_interest_notional as int,
                        -n,
                    )
                } else {
                    old(self).reversed(
                        sw,
                        *old(position),
                        *final(self),
                        *final(position),
                        Seq::empty(),
                        r->Ok_0@,
                    )
                }
            }),
            r is Err ==> old(self).action_check(true, registered, old(position).trader, block.height) matches Some(e) && r->Err_0 == e || late_error(r->Err_0)
                || r->Err_0 == EngineError::Undercollateralized,
    {
        if self.tmp_swap.is_some() || self.tmp_liquidator.is_some() {
            return Err(EngineError::InvalidState);
        }
        if self.state.pause {
            return Err(EngineError::Paused);
        }
        if !registered {
            return Err(EngineError::UnknownCurve);
        }
        if self.is_restricted(position.trader, block.height) {
            return Err(EngineError::RestrictedAction);
        }
        if leverage == 0 {
            return Err(EngineError::Arithmetic);
        }
        let d = self.config.decimals;
        let ratio = mul_div(d, d, leverage)?;
        if ratio < self.config.initial_margin_ratio {
            return Err(EngineError::Undercollateralized);
        }
        let open_notional = mul_div(quote_asset_amount, leverage, d)?;
        let is_increase = position.size == 0 || (position.size > 0 && side == Side::Buy) || (
        position.size < 0 && side == Side::Sell);
        let spot = self.spot_notional_unrealized_pnl(position)?;
        self.tmp_swap = Some(
            TmpSwapInfo {
                trader: position.trader,
                side,
                quote_asset_amount,
                leverage,
                open_notional,
                position_notional: spot.position_notional,
                unrealized_pnl: spot.unrealized_pnl,
                margin_to_vault: 0,
                fees_paid: false,
            },
        );
        let mut out: Vec<Transfer> = Vec::new();
        if is_increase {
            self.internal_increase_position(position, side, open_notional, base_asset_limit, block, &mut out)?;
        } else {
            self.open_reverse_position(
                position,
                side,
                open_notional,
                spot.position_notional,
                base_asset_limit,
                block,
                &mut out,
            )?;
        }
        Ok(out)
    }

    /// A position's value and PnL when it is worth `position_notional`.
    pub fn valued_at(position: &Position, position_notional: u128) -> (r: Result<
        PositionUnrealizedPnlResponse,
        EngineError,
    >)
        ensures
            r is Ok <==> Self::valued(*position, position_notional as int) is Some,
            r is Ok ==> r == Ok::<PositionUnrealizedPnlResponse, EngineError>(
                Self::valued(*position, position_notional as int).unwrap(),
            ),
            r is Err ==> r == Err::<PositionUnrealizedPnlResponse, EngineError>(
                EngineError::Arithmetic,
            ),
    {
        unrealized_pnl(position, position_notional)
    }

    /// The margin ratio of a position, valued both at the spot price and at
    /// the curve's time-weighted price, which values it at `twap_notional`.
    pub fn query_margin_ratio(&self, position: &Position, twap_notional: u128) -> (r: Result<
        i128,
        EngineError,
    >)
        requires
            self.valid(),
        ensures
            r == crate::math::res_i(self.margin_ratio_spec(*position, twap_notional)),
    {
        let spot = self.spot_notional_unrealized_pnl(position)?;
        let twap = Self::valued_at(position, twap_notional)?;
        let latest = self.query_cumulative_premium_fraction();
        margin_ratio(position, spot, twap, latest, self.config.decimals)
    }

    /// A liquidation at margin ratio `ratio` is partial: the ratio is above
    /// the liquidation fee ratio and partial liquidation is on.
    pub fn is_partial_liquidation(config: &Config, ratio: i128) -> (r: bool)
        ensures
            r == (ratio > config.liquidation_fee && config.partial_liquidation_ratio != 0),
    {
        ratio >= 0 && ratio as u128 > config.liquidation_fee && config.partial_liquidation_ratio != 0
    }

    /// Stages the close of the whole position and swaps its base back to the
    /// curve; returns the quote the curve paid.
    fn internal_close_position(&mut self, position: &Position, quote_asset_limit: u128, block: Block) -> (r:
        Result<u128, EngineError>)
        requires
            old(self).valid(),
        ensures
            r is Ok ==> {
                &&& final(self).tmp_swap == Some(
                    TmpSwapInfo {
                        trader: position.trader,
                        side: crate::position::side_of_direction(position.direction()),
                        quote_asset_amount: crate::math::abs(position.size as int) as u128,
                        leverage: 0,
                        open_notional: position.notional,
                        position_notional: 0,
                        unrealized_pnl: 0,
                        margin_to_vault: 0,
                        fees_paid: false,
                    },
                )
                &&& crate::vamm::output_price(
                    position.direction(),
                    crate::math::abs(position.size as int),
                    old(self).vamm.state.quote_asset_reserve as int,
                    old(self).vamm.state.base_asset_reserve as int,
                    old(self).config.decimals as int,
                ) == Some(r->Ok_0 as int)
                &&& old(self).vamm.moved_to(
                    final(self).vamm,
                    crate::vamm::flip(position.direction()),
                    r->Ok_0,
                    crate::math::abs(position.size as int) as u128,
                    block.time,
                    block.height,
                )
            },
            res_u(old(self).spot_value(*position)) matches Ok(quote)
                && crate::vamm::output_within_limit(
                position.direction(),
                quote,
                quote_asset_limit,
            ) && crate::vamm::reserves_after(
                crate::vamm::flip(position.direction()),
                quote as int,
                crate::math::abs(position.size as int),
                old(self).vamm.state.quote_asset_reserve as int,
                old(self).vamm.state.base_asset_reserve as int,
                old(self).vamm.state.total_position_size as int,
            ) is Some ==> r is Ok,
            r is Err ==> late_error(r->Err_0),
            old(self).settled_parts_kept(*final(self)),
            final(self).restriction_height == old(self).restriction_height
                && final(self).restricted_traders@ == old(self).restricted_traders@,
            final(self).tmp_liquidator == old(self).tmp_liquidator,
            final(self).vault_balance == old(self).vault_balance,
            final(self).state == old(self).state,
    {
        let size = abs_i(position.size);
        let direction = position.get_direction();
        self.tmp_swap = Some(
            TmpSwapInfo {
                trader: position.trader,
                side: direction_to_side(direction),
                quote_asset_amount: size,
                leverage: 0,
                open_notional: position.notional,
                position_notional: 0,
                unrealized_pnl: 0,
                margin_to_vault: 0,
                fees_paid: false,
            },
        );
        self.vamm.swap_output(direction, size, quote_asset_limit, block.time, block.height)
    }

    /// Swapping all of `p` back to the curve respects `quote_asset_limit`
    /// and every amount of the close fits its type.
    pub open spec fn close_swap_ok(self, p: Position, quote_asset_limit: u128) -> bool {
        let quote = res_u(self.spot_value(p));
        &&& quote is Ok
        &&& crate::vamm::output_within_limit(p.direction(), quote->Ok_0, quote_asset_limit)
        &&& crate::vamm::reserves_after(
            crate::vamm::flip(p.direction()),
            quote->Ok_0 as int,
            crate::math::abs(p.size as int),
            self.vamm.state.quote_asset_reserve as int,
            self.vamm.state.base_asset_reserve as int,
            self.vamm.state.total_position_size as int,
        ) is Some
        &&& self.close_ok(p, p.notional, quote->Ok_0)
    }

    /// Closes the trader's whole position; `quote_amount_limit` bounds the
    /// quote the curve pays for it. Realized PnL and funding settle into the
    /// margin, which is paid back; a shortfall is covered through the
    /// insurance fund. On an error the caller discards every change.
    pub fn close_position(&mut self, position: &mut Position, quote_amount_limit: u128, block: Block) -> (r:
        Result<Vec<Transfer>, EngineError>)
        requires
            old(self).valid(),
        ensures
            final(position).liquidity_history_index == old(position).liquidity_history_index,
            final(position).block_number == old(position).block_number,
            r is Ok ==> final(position).last_updated_premium_fraction == old(self).latest(),
            old(self).tmp_swap is Some || old(self).tmp_liquidator is Some ==> r == Err::<
                Vec<Transfer>,
                EngineError,
            >(EngineError::InvalidState),
            old(self).wf() && old(self).state.pause ==> r == Err::<Vec<Transfer>, EngineError>(
                EngineError::Paused,
            ),
            old(self).wf() && !old(self).state.pause && old(position).size == 0 ==> r == Err::<
                Vec<Transfer>,
                EngineError,
            >(EngineError::ZeroPosition),
            old(self).wf() && !old(self).state.pause && old(position).size != 0 && old(
                self,
            ).restricted(old(position).trader, block.height) ==> r == Err::<
                Vec<Transfer>,
                EngineError,
            >(EngineError::RestrictedAction),
            old(self).wf() && !old(self).state.pause && old(position).size != 0 && !old(
                self,
            ).restricted(old(position).trader, block.height) && old(self).close_swap_ok(
                *old(position),
                quote_amount_limit,
            ) ==> r is Ok,
            !old(self).wf() || old(self).state.pause || old(position).size == 0 || old(
                self,
            ).restricted(old(position).trader, block.height) ==> r is Err && *final(self) == *old(
                self,
            ) && *final(position) == *old(position),
            r == Err::<Vec<Transfer>, EngineError>(EngineError::RestrictedAction) ==> old(
                self,
            ).restricted(old(position).trader, block.height),
            r is Ok ==> ({
                let quote = old(self).spot_value(*old(position)).unwrap();
                let net = crate::position::net_margin_of(
                    *old(position),
                    Self::close_delta(*old(position), old(position).notional as int, quote),
                    old(self).latest() as int,
                    old(self).config.decimals as int,
                ).unwrap();
                let bad = if net < 0 {
                    -net
                } else {
                    0
                };
                &&& old(self).vamm.moved_to(
                    final(self).vamm,
                    crate::vamm::flip(old(position).direction()),
                    quote as u128,
                    crate::math::abs(old(position).size as int) as u128,
                    block.time,
                    block.height,
                )
                &&& r->Ok_0@ == old(self).close_pushed(
                    *old(position),
                    old(position).notional,
                    quote as u128,
                    Seq::empty(),
                )
                &&& final(self).state.open_interest_notional == oi_after(
                    old(self).state.open_interest_notional as int,
                    -(Self::close_delta(*old(position), old(position).notional as int, quote) + bad
                        + old(position).notional),
                )
            }),
            r is Ok ==> old(self).action_completed(*final(self), *old(position), *final(position))
                && final(self).restriction_height == old(self).restriction_height
                && final(self).restricted_traders@ == old(self).restricted_traders@ && final(position).is_clear(),
            r is Ok ==> {
                let value = old(self).spot_value(*old(position));
                let net = crate::position::net_margin_of(
                    *old(position),
                    Self::close_delta(*old(position), old(position).notional as int, value.unwrap()),
                    old(self).latest() as int,
                    old(self).config.decimals as int,
                );
                &&& value is Some
                &&& net is Some
                &&& net.unwrap() > 0 ==> r->Ok_0@.contains(
                    Transfer {
                        from: Account::Vault,
                        to: Account::Trader(old(position).trader),
                        amount: net.unwrap() as u128,
                    },
                )
            },
    {
        if self.tmp_swap.is_some() || self.tmp_liquidator.is_some() {
            return Err(EngineError::InvalidState);
        }
        if self.state.pause {
            return Err(EngineError::Paused);
        }
        if position.size == 0 {
            return Err(EngineError::ZeroPosition);
        }
        if self.is_restricted(position.trader, block.height) {
            return Err(EngineError::RestrictedAction);
        }
        let quote = self.internal_close_position(position, quote_amount_limit, block)?;
        let mut out: Vec<Transfer> = Vec::new();
        self.close_position_reply(position, quote, &mut out)?;
        Ok(out)
    }

    /// A partial liquidation of `p` with quote bound `quote_asset_limit`
    /// respects the bound and every amount of it fits (see `partial_ok`).
    pub open spec fn partial_liquidation_ok(self, p: Position, quote_asset_limit: u128) -> bool {
        let d = self.config.decimals as int;
        let ratio = self.config.partial_liquidation_ratio as int;
        let ps = crate::math::abs(p.size as int) * ratio / d;
        let pl = quote_asset_limit * ratio / d;
        let dir = p.direction();
        let cur = res_u(
            crate::vamm::output_price(
                dir,
                ps,
                self.vamm.state.quote_asset_reserve as int,
                self.vamm.state.base_asset_reserve as int,
                d,
            ),
        );
        &&& d > 0
        &&& crate::math::fits_u(crate::math::abs(p.size as int) * ratio)
        &&& crate::math::fits_u(quote_asset_limit * ratio)
        &&& cur is Ok
        &&& self.spot_of(p) is Some
        &&& crate::vamm::output_within_limit(dir, cur->Ok_0, pl as u128)
        &&& crate::vamm::reserves_after(
            crate::vamm::flip(dir),
            cur->Ok_0 as int,
            ps,
            self.vamm.state.quote_asset_reserve as int,
            self.vamm.state.base_asset_reserve as int,
            self.vamm.state.total_position_size as int,
        ) is Some
        &&& self.partial_ok(
            p,
            cur->Ok_0,
            self.spot_of(p).unwrap().unrealized_pnl,
            ps as u128,
            cur->Ok_0,
        )
    }

    /// A full liquidation of `p` with quote bound `quote_asset_limit`
    /// respects the bound and every amount of it fits (see `liquidation_ok`).
    pub open spec fn full_liquidation_ok(self, p: Position, quote_asset_limit: u128) -> bool {
        let quote = res_u(self.spot_value(p));
        &&& quote is Ok
        &&& crate::vamm::output_within_limit(p.direction(), quote->Ok_0, quote_asset_limit)
        &&& crate::vamm::reserves_after(
            crate::vamm::flip(p.direction()),
            quote->Ok_0 as int,
            crate::math::abs(p.size as int),
            self.vamm.state.quote_asset_reserve as int,
            self.vamm.state.base_asset_reserve as int,
            self.vamm.state.total_position_size as int,
        ) is Some
        &&& self.liquidation_ok(p, p.notional, quote->Ok_0)
    }

    /// `new`, `np` and the transfers `fs` (appended to `s`) are what a
    /// partial liquidation of `p` on behalf of `liquidator` leaves: the
    /// partial ratio of the size sold back to the curve, the magnitude of
    /// that share of the spot PnL and the penalty taken off the margin, the
    /// cost basis reduced, `penalty - fee` paid to the insurance fund and the
    /// fee, half the penalty, to the liquidator.
    pub open spec fn partially_liquidated(
        self,
        p: Position,
        liquidator: u64,
        new: Engine,
        np: Position,
        s: Seq<Transfer>,
        fs: Seq<Transfer>,
        block: Block,
    ) -> bool {
        let d = self.config.decimals as int;
        let ratio = self.config.partial_liquidation_ratio as int;
        let ps = crate::math::abs(p.size as int) * ratio / d;
        let dir = p.direction();
        let quote = crate::vamm::output_price(
            dir,
            ps,
            self.vamm.state.quote_asset_reserve as int,
            self.vamm.state.base_asset_reserve as int,
            d,
        ).unwrap();
        let pnl = self.spot_of(p).unwrap().unrealized_pnl;
        let realized = crate::math::abs(crate::math::div_tz(pnl * ratio, d));
        let penalty = quote * self.config.liquidation_fee / d;
        let fee = penalty / 2;
        &&& np.size == (if p.size < 0 {
            p.size + ps
        } else {
            p.size - ps
        })
        &&& np.margin == p.margin - realized - penalty
        &&& np.last_updated_premium_fraction == p.last_updated_premium_fraction
        &&& np.liquidity_history_index == p.liquidity_history_index
        &&& np.block_number == p.block_number
        &&& np.notional == (if np.size > 0 {
            p.notional - quote - realized
        } else {
            realized + p.notional - quote
        })
        &&& self.vamm.moved_to(
            new.vamm,
            crate::vamm::flip(dir),
            quote as u128,
            ps as u128,
            block.time,
            block.height,
        )
        &&& fs == withdraw_pushed(
            self.vault_balance - (penalty - fee),
            pushed(
                s,
                Transfer {
                    from: Account::Vault,
                    to: Account::InsuranceFund,
                    amount: (penalty - fee) as u128,
                },
            ),
            Account::Trader(liquidator),
            fee,
        )
    }

    /// `new`, `np` and the transfers `fs` (appended to `s`) are what a full
    /// liquidation of `p` on behalf of `liquidator` leaves: the whole size
    /// sold back to the curve, the position empty, and the transfers of
    /// `liquidation_pushed`.
    pub open spec fn fully_liquidated(
        self,
        p: Position,
        liquidator: u64,
        new: Engine,
        np: Position,
        s: Seq<Transfer>,
        fs: Seq<Transfer>,
        block: Block,
    ) -> bool {
        let quote = self.spot_value(p).unwrap();
        &&& np.is_clear()
        &&& np.last_updated_premium_fraction == self.latest()
        &&& np.liquidity_history_index == p.liquidity_history_index
        &&& np.block_number == p.block_number
        &&& self.vamm.moved_to(
            new.vamm,
            crate::vamm::flip(p.direction()),
            quote as u128,
            crate::math::abs(p.size as int) as u128,
            block.time,
            block.height,
        )
        &&& fs == self.liquidation_pushed(p, p.notional, quote as u128, liquidator, s)
    }

    /// Stages and performs the forced reduction of the position by the
    /// partial liquidation ratio, then completes it.
    fn partial_liquidation(
        &mut self,
        position: &mut Position,
        quote_asset_limit: u128,
        block: Block,
        out: &mut Vec<Transfer>,
    ) -> (r: Result<(), EngineError>)
        requires
            old(self).valid(),
            old(self).tmp_swap is None,
            old(self).tmp_liquidator is Some,
        ensures
            final(position).liquidity_history_index == old(position).liquidity_history_index,
            final(position).block_number == old(position).block_number,
            old(self).partial_liquidation_ok(*old(position), quote_asset_limit) ==> r is Ok,
            r is Ok ==> old(self).action_completed(*final(self), *old(position), *final(position))
                && final(self).restricted(old(position).trader, block.height) && forall|t: u64|
                old(self).restricted(t, block.height) ==> final(self).restricted(t, block.height),
            r is Ok ==> old(self).partially_liquidated(
                *old(position),
                old(self).tmp_liquidator.unwrap(),
                *final(self),
                *final(position),
                old(out)@,
                final(out)@,
                block,
            ),
            r is Err ==> late_error(r->Err_0),
    {
        let d = self.config.decimals;
        let ratio = self.config.partial_liquidation_ratio;
        let partial_size = mul_div(abs_i(position.size), ratio, d)?;
        let partial_limit = mul_div(quote_asset_limit, ratio, d)?;
        let direction = position.get_direction();
        let current_notional = self.vamm.get_output_price(direction, partial_size)?;
        let spot = self.spot_notional_unrealized_pnl(position)?;
        let side = if position.size > 0 {
            Side::Sell
        } else {
            Side::Buy
        };
        self.tmp_swap = Some(
            TmpSwapInfo {
                trader: position.trader,
                side,
                quote_asset_amount: partial_size,
                leverage: 0,
                open_notional: current_notional,
                position_notional: 0,
                unrealized_pnl: spot.unrealized_pnl,
                margin_to_vault: 0,
                fees_paid: false,
            },
        );
        let quote = self.vamm.swap_output(direction, partial_size, partial_limit, block.time, block.height)?;
        self.partial_liquidation_reply(position, partial_size, quote, block, out)
    }

    /// Liquidates `position` on behalf of `liquidator`. The margin ratio
    /// (see `query_margin_ratio`, with `twap_notional` the position's
    /// time-weighted value) must not exceed the maintenance ratio. Above the
    /// liquidation fee ratio, and with partial liquidation on, a share of the
    /// position is closed; otherwise all of it. `quote_asset_limit` bounds
    /// the quote the curve pays; `registered` is whether the insurance fund
    /// registers the curve. On an error the caller discards every change.
    pub fn liquidate(
        &mut self,
        position: &mut Position,
        liquidator: u64,
        quote_asset_limit: u128,
        twap_notional: u128,
        registered: bool,
        block: Block,
    ) -> (r: Result<Vec<Transfer>, EngineError>)
        requires
            old(self).valid(),
        ensures
            final(position).liquidity_history_index == old(position).liquidity_history_index,
            final(position).block_number == old(position).block_number,
            old(self).tmp_swap is Some || old(self).tmp_liquidator is Some ==> r == Err::<
                Vec<Transfer>,
                EngineError,
            >(EngineError::InvalidState),
            old(self).wf() && !registered ==> r == Err::<Vec<Transfer>, EngineError>(
                EngineError::UnknownCurve,
            ),
            old(self).wf() && registered && old(self).margin_ratio_spec(*old(position), twap_notional) is None ==> r is Err,
            old(self).wf() && registered && old(self).margin_ratio_spec(*old(position), twap_notional) is Some && old(self).margin_ratio_spec(*old(position), twap_notional).unwrap() > old(
                self,
            ).config.maintenance_margin_ratio ==> r
                == Err::<Vec<Transfer>, EngineError>(EngineError::Overcollateralized),
            r == Err::<Vec<Transfer>, EngineError>(EngineError::Overcollateralized) ==> old(self).margin_ratio_spec(*old(position), twap_notional) is Some
                && old(self).margin_ratio_spec(*old(position), twap_notional).unwrap() > old(self).config.maintenance_margin_ratio,
            old(self).wf() && registered && old(self).margin_ratio_spec(*old(position), twap_notional) is Some && old(position).size == 0 ==> r == Err::<
                Vec<Transfer>,
                EngineError,
            >(EngineError::ZeroPosition),
            r is Err && (!old(self).wf() || !registered || old(self).margin_ratio_spec(
                *old(position),
                twap_notional,
            ) is None || r->Err_0 == EngineError::Overcollateralized || r->Err_0
                == EngineError::ZeroPosition)
                ==> *final(self) == *old(self) && *final(position) == *old(position),
            ({
                let ratio = old(self).margin_ratio_spec(*old(position), twap_notional);
                old(self).wf() && registered && old(position).size != 0 && ratio is Some
                    && crate::math::fits_i(ratio.unwrap()) && ratio.unwrap() <= old(
                    self,
                ).config.maintenance_margin_ratio && (if ratio.unwrap() > old(
                    self,
                ).config.liquidation_fee && old(self).config.partial_liquidation_ratio != 0 {
                    old(self).partial_liquidation_ok(*old(position), quote_asset_limit)
                } else {
                    old(self).full_liquidation_ok(*old(position), quote_asset_limit)
                }) ==> r is Ok
            }),
            r is Ok ==> old(self).action_completed(*final(self), *old(position), *final(position))
                && final(self).restricted(old(position).trader, block.height) && forall|t: u64|
                old(self).restricted(t, block.height) ==> final(self).restricted(t, block.height),
            r is Ok ==> {
                let ratio = old(self).margin_ratio_spec(*old(position), twap_notional);
                &&& ratio is Some
                &&& ratio.unwrap() <= old(self).config.maintenance_margin_ratio
                &&& !(ratio.unwrap() > old(self).config.liquidation_fee
                    && old(self).config.partial_liquidation_ratio != 0)
                    ==> final(position).is_clear()
                &&& if ratio.unwrap() > old(self).config.liquidation_fee
                    && old(self).config.partial_liquidation_ratio != 0 {
                    old(self).partially_liquidated(
                        *old(position),
                        liquidator,
                        *final(self),
                        *final(position),
                        Seq::empty(),
                        r->Ok_0@,
                        block,
                    )
                } else {
                    old(self).fully_liquidated(
                        *old(position),
                        liquidator,
                        *final(self),
                        *final(position),
                        Seq::empty(),
                        r->Ok_0@,
                        block,
                    )
                }
            },
    {
        if self.tmp_swap.is_some() || self.tmp_liquidator.is_some() {
            return Err(EngineError::InvalidState);
        }
        if !registered {
            return Err(EngineError::UnknownCurve);
        }
        let ratio = self.query_margin_ratio(position, twap_notional)?;
        if ratio > 0 && ratio as u128 > self.config.maintenance_margin_ratio {
            return Err(EngineError::Overcollateralized);
        }
        if position.size == 0 {
            return Err(EngineError::ZeroPosition);
        }
        self.tmp_liquidator = Some(liquidator);
        let mut out: Vec<Transfer> = Vec::new();
        if Self::is_partial_liquidation(&self.config, ratio) {
            self.partial_liquidation(position, quote_asset_limit, block, &mut out)?;
        } else {
            let quote = self.internal_close_position(position, quote_asset_limit, block)?;
            self.liquidate_reply(position, quote, block, &mut out)?;
        }
        Ok(out)
    }

    /// The funding the curve's traders owe in aggregate for a premium
    /// fraction `f`: `total_position_size * f / decimals`.
    pub open spec fn aggregate_funding(self, f: int) -> Option<int> {
        crate::math::mul_div_signed_spec(
            self.vamm.state.total_position_size as int,
            f,
            self.config.decimals as int,
        )
    }

    /// The transfer that nets the traders' aggregate funding for premium
    /// fraction `f` against the insurance fund.
    pub open spec fn funding_transfers(self, f: int) -> Seq<Transfer> {
        let fp = self.aggregate_funding(f).unwrap();
        if fp < 0 {
            pushed(
                Seq::empty(),
                Transfer { from: Account::InsuranceFund, to: Account::Vault, amount: (-fp) as u128 },
            )
        } else {
            pushed(
                Seq::empty(),
                Transfer { from: Account::Vault, to: Account::InsuranceFund, amount: fp as u128 },
            )
        }
    }

    /// Recording premium fraction `f` and netting the aggregate funding
    /// fits every type, and the vault can pay what traders owe.
    pub open spec fn funding_ok(self, f: int) -> bool {
        let fp = self.aggregate_funding(f);
        &&& crate::math::fits_i(self.latest() + f)
        &&& crate::math::fits_i(self.config.decimals as int)
        &&& fp is Some
        &&& crate::math::fits_i(fp.unwrap())
        &&& fp.unwrap() < 0 ==> self.vault_balance - fp.unwrap() <= u128::MAX
        &&& fp.unwrap() >= 0 ==> self.vault_balance >= fp.unwrap()
    }

    /// Records a settlement's premium fraction and nets the traders'
    /// aggregate funding against the insurance fund: when traders are owed,
    /// the insurance fund pays the vault; when they owe, the vault pays it.
    pub fn pay_funding_reply(&mut self, premium_fraction: i128) -> (r: Result<
        Vec<Transfer>,
        EngineError,
    >)
        requires
            old(self).valid(),
        ensures
            old(self).funding_ok(premium_fraction as int) ==> r is Ok,
            r is Ok ==> {
                let fp = old(self).aggregate_funding(premium_fraction as int);
                &&& final(self).cumulative_premium_fractions@ == old(
                    self,
                ).cumulative_premium_fractions@.push(
                    (old(self).latest() + premium_fraction) as i128,
                )
                &&& final(self).latest() == old(self).latest() + premium_fraction
                &&& fp is Some
                &&& r->Ok_0@ == old(self).funding_transfers(premium_fraction as int)
            },
            final(self).config == old(self).config,
            final(self).vamm == old(self).vamm,
            final(self).tmp_swap == old(self).tmp_swap,
            final(self).tmp_liquidator == old(self).tmp_liquidator,
            final(self).restriction_height == old(self).restriction_height
                && final(self).restricted_traders@ == old(self).restricted_traders@,
    {
        self.append_cumulative_premium_fraction(premium_fraction)?;
        let d = signed(false, self.config.decimals)?;
        let funding_payment = mul_div_signed(self.vamm.state.total_position_size, premium_fraction, d)?;
        let mut out: Vec<Transfer> = Vec::new();
        if funding_payment < 0 {
            self.transfer(&mut out, Account::InsuranceFund, Account::Vault, abs_i(funding_payment))?;
        } else {
            self.transfer(&mut out, Account::Vault, Account::InsuranceFund, funding_payment as u128)?;
        }
        Ok(out)
    }

    /// Settles funding on the curve at the block's time, from the oracle's
    /// time-weighted price `underlying_twap` and the curve's own
    /// `index_twap`, and records it (see `pay_funding_reply`). `registered`
    /// is whether the insurance fund registers the curve.
    pub fn pay_funding(
        &mut self,
        underlying_twap: u128,
        index_twap: u128,
        registered: bool,
        block: Block,
    ) -> (r: Result<Vec<Transfer>, EngineError>)
        requires
            old(self).valid(),
        ensures
            !registered ==> r == Err::<Vec<Transfer>, EngineError>(EngineError::UnknownCurve),
            registered && old(self).address != old(self).vamm.config.owner ==> r == Err::<
                Vec<Transfer>,
                EngineError,
            >(EngineError::Unauthorized),
            registered && old(self).address == old(self).vamm.config.owner && block.time < old(
                self,
            ).vamm.state.next_funding_time ==> r == Err::<Vec<Transfer>, EngineError>(
                EngineError::FundingTooEarly,
            ),
            registered && old(self).address == old(self).vamm.config.owner && block.time >= old(
                self,
            ).vamm.state.next_funding_time && underlying_twap > 0 && crate::math::fits_u(
                crate::vamm::premium_of(underlying_twap, index_twap).value * old(
                    self,
                ).vamm.config.funding_period,
            ) && block.time as int + old(self).vamm.config.funding_period + 3600 <= u64::MAX
                && block.time as int + old(self).vamm.config.funding_buffer_period <= u64::MAX
                && old(self).funding_ok(
                old(self).vamm.premium_fraction_of(underlying_twap, index_twap),
            ) ==> r is Ok,
            r is Ok ==> ({
                let f = old(self).vamm.premium_fraction_of(underlying_twap, index_twap);
                &&& old(self).vamm.settled_to(
                    final(self).vamm,
                    underlying_twap,
                    index_twap,
                    block.time,
                    f as i128,
                )
                &&& final(self).cumulative_premium_fractions@ == old(
                    self,
                ).cumulative_premium_fractions@.push((old(self).latest() + f) as i128)
                &&& final(self).latest() == old(self).latest() + f
                &&& r->Ok_0@ == old(self).funding_transfers(f)
            }),
            r is Ok ==> final(self).wf() == old(self).wf() && final(self).config == old(
                self,
            ).config,
    {
        if !registered {
            return Err(EngineError::UnknownCurve);
        }
        let fraction = self.vamm.settle_funding(self.address, underlying_twap, index_twap, block.time)?;
        self.pay_funding_reply(fraction)
    }

    /// Adds `amount` of the trader's collateral to the position's margin.
    pub fn deposit_margin(&mut self, position: &mut Position, amount: u128) -> (r: Result<
        Vec<Transfer>,
        EngineError,
    >)
        ensures
            final(position).liquidity_history_index == old(position).liquidity_history_index,
            final(position).block_number == old(position).block_number,
            old(self).state.pause ==> r == Err::<Vec<Transfer>, EngineError>(EngineError::Paused),
            !old(self).state.pause && amount == 0 ==> r == Err::<Vec<Transfer>, EngineError>(
                EngineError::ZeroInput,
            ),
            !old(self).state.pause && amount > 0 && old(position).margin + amount <= u128::MAX
                && old(self).vault_balance + amount <= u128::MAX ==> r is Ok,
            r is Ok ==> {
                &&& *final(position) == (Position {
                    margin: (old(position).margin + amount) as u128,
                    ..*old(position)
                })
                &&& final(self).vault_balance == old(self).vault_balance + amount
                &&& r->Ok_0@ == seq![
                    Transfer {
                        from: Account::Trader(old(position).trader),
                        to: Account::Vault,
                        amount,
                    },
                ]
                &&& old(self).books_kept(*final(self))
                &&& final(self).state == old(self).state
            },
    {
        if self.state.pause {
            return Err(EngineError::Paused);
        }
        if amount == 0 {
            return Err(EngineError::ZeroInput);
        }
        let margin = add_u(position.margin, amount)?;
        let mut out: Vec<Transfer> = Vec::new();
        self.transfer(&mut out, Account::Trader(position.trader), Account::Vault, amount)?;
        position.margin = margin;
        Ok(out)
    }

    /// The margin a position must keep: its cost basis times the initial
    /// margin ratio.
    pub open spec fn required_margin(self, p: Position) -> int {
        p.notional * self.config.initial_margin_ratio / self.config.decimals as int
    }

    /// Withdraws `amount` of margin to the trader. Funding is settled first;
    /// what remains must cover the amount with no bad debt and keep the
    /// position at the initial margin ratio of its cost basis. That last
    /// rule is this library's measure of free collateral: it holds a
    /// withdrawal to the same ratio that bounds the leverage of a new
    /// position, so margin can leave only while the position stays as
    /// collateralized as it could have been opened. `registered`
    /// is whether the insurance fund registers the curve.
    pub fn withdraw_margin(
        &mut self,
        position: &mut Position,
        amount: u128,
        registered: bool,
    ) -> (r: Result<Vec<Transfer>, EngineError>)
        requires
            old(self).valid(),
        ensures
            final(position).liquidity_history_index == old(position).liquidity_history_index,
            final(position).block_number == old(position).block_number,
            !registered ==> r == Err::<Vec<Transfer>, EngineError>(EngineError::UnknownCurve),
            registered && old(self).state.pause ==> r == Err::<Vec<Transfer>, EngineError>(
                EngineError::Paused,
            ),
            registered && !old(self).state.pause && amount == 0 ==> r == Err::<
                Vec<Transfer>,
                EngineError,
            >(EngineError::ZeroInput),
            ({
                let net = crate::position::net_margin_of(
                    *old(position),
                    -amount,
                    old(self).latest() as int,
                    old(self).config.decimals as int,
                );
                &&& registered && !old(self).state.pause && amount > 0 && amount <= i128::MAX
                    && net is Some && net.unwrap() < 0 ==> r == Err::<Vec<Transfer>, EngineError>(
                    EngineError::InsufficientFunds,
                )
                &&& registered && !old(self).state.pause && amount > 0 && amount <= i128::MAX
                    && net is Some && crate::math::fits_u(
                    old(position).notional * old(self).config.initial_margin_ratio,
                ) ==> (net.unwrap() < old(self).required_margin(
                    *old(position),
                ) ==> r == Err::<Vec<Transfer>, EngineError>(EngineError::InsufficientFunds))
                    && (net.unwrap() >= 0 && net.unwrap() >= old(self).required_margin(
                    *old(position),
                ) && (old(self).vault_balance < amount ==> old(self).state.bad_debt + (amount
                    - old(self).vault_balance) <= u128::MAX) ==> r is Ok)
            }),
            ({
                let net = crate::position::net_margin_of(
                    *old(position),
                    -amount,
                    old(self).latest() as int,
                    old(self).config.decimals as int,
                );
                r is Err && (!registered || old(self).state.pause || amount == 0 || net is Some && (
                net.unwrap() < 0 || net.unwrap() < old(self).required_margin(*old(position))))
                    ==> *final(self) == *old(self) && *final(position) == *old(position)
            }),
            r is Ok ==> {
                let net = crate::position::net_margin_of(
                    *old(position),
                    -amount,
                    old(self).latest() as int,
                    old(self).config.decimals as int,
                );
                &&& net is Some
                &&& net.unwrap() >= old(self).required_margin(*old(position))
                &&& net.unwrap() >= 0
                &&& *final(position) == (Position {
                    margin: net.unwrap() as u128,
                    last_updated_premium_fraction: old(self).latest(),
                    ..*old(position)
                })
                &&& old(self).books_kept(*final(self))
                &&& r->Ok_0@.len() > 0
                &&& r->Ok_0@.last() == (Transfer {
                    from: Account::Vault,
                    to: Account::Trader(old(position).trader),
                    amount,
                })
            },
    {
        if !registered {
            return Err(EngineError::UnknownCurve);
        }
        if self.state.pause {
            return Err(EngineError::Paused);
        }
        if amount == 0 {
            return Err(EngineError::ZeroInput);
        }
        let latest = self.query_cumulative_premium_fraction();
        let d = self.config.decimals;
        let delta = signed(true, amount)?;
        let rm = calc_remain_margin_with_funding_payment(position, delta, latest, d)?;
        if rm.bad_debt != 0 {
            return Err(EngineError::InsufficientFunds);
        }
        let required = mul_div(position.notional, self.config.initial_margin_ratio, d)?;
        if rm.margin < required {
            return Err(EngineError::InsufficientFunds);
        }
        position.margin = rm.margin;
        position.last_updated_premium_fraction = latest;
        let mut out: Vec<Transfer> = Vec::new();
        self.withdraw(&mut out, Account::Trader(position.trader), amount)?;
        Ok(out)
    }

    /// A ratio is valid when it is at most one, that is the decimal base.
    pub fn validate_ratio(ratio: u128, decimals: u128) -> (r: Result<(), EngineError>)
        ensures
            r is Ok <==> ratio <= decimals,
            r is Err ==> r == Err::<(), EngineError>(EngineError::InvalidRatio),
    {
        if ratio > decimals {
            Err(EngineError::InvalidRatio)
        } else {
            Ok(())
        }
    }

    /// Changes the owner and the risk ratios given; only the owner may, and
    /// each new ratio must be at most one.
    pub fn update_config(
        &mut self,
        sender: u64,
        owner: Option<u64>,
        initial_margin_ratio: Option<u128>,
        maintenance_margin_ratio: Option<u128>,
        partial_liquidation_ratio: Option<u128>,
        liquidation_fee: Option<u128>,
    ) -> (r: Result<(), EngineError>)
        ensures
            sender != old(self).config.owner ==> r == Err::<(), EngineError>(
                EngineError::Unauthorized,
            ),
            r is Ok <==> sender == old(self).config.owner && (initial_margin_ratio matches Some(
                x,
            ) ==> x <= old(self).config.decimals) && (maintenance_margin_ratio matches Some(x)
                ==> x <= old(self).config.decimals) && (partial_liquidation_ratio matches Some(x)
                ==> x <= old(self).config.decimals) && (liquidation_fee matches Some(x) ==> x <= old(
                self,
            ).config.decimals),
            r is Err ==> final(self).config == old(self).config,
            r is Ok ==> final(self).config == (Config {
                owner: if owner is Some {
                    owner.unwrap()
                } else {
                    old(self).config.owner
                },
                decimals: old(self).config.decimals,
                initial_margin_ratio: if initial_margin_ratio is Some {
                    initial_margin_ratio.unwrap()
                } else {
                    old(self).config.initial_margin_ratio
                },
                maintenance_margin_ratio: if maintenance_margin_ratio is Some {
                    maintenance_margin_ratio.unwrap()
                } else {
                    old(self).config.maintenance_margin_ratio
                },
                partial_liquidation_ratio: if partial_liquidation_ratio is Some {
                    partial_liquidation_ratio.unwrap()
                } else {
                    old(self).config.partial_liquidation_ratio
                },
                liquidation_fee: if liquidation_fee is Some {
                    liquidation_fee.unwrap()
                } else {
                    old(self).config.liquidation_fee
                },
            }),
            final(self).state == old(self).state,
            final(self).vamm == old(self).vamm,
            final(self).tmp_swap == old(self).tmp_swap,
            final(self).tmp_liquidator == old(self).tmp_liquidator,
    {
        if sender != self.config.owner {
            return Err(EngineError::Unauthorized);
        }
        let d = self.config.decimals;
        let mut config = self.config;
        if let Some(o) = owner {
            config.owner = o;
        }
        if let Some(x) = initial_margin_ratio {
            Self::validate_ratio(x, d)?;
            config.initial_margin_ratio = x;
        }
        if let Some(x) = maintenance_margin_ratio {
            Self::validate_ratio(x, d)?;
            config.maintenance_margin_ratio = x;
        }
        if let Some(x) = partial_liquidation_ratio {
            Self::validate_ratio(x, d)?;
            config.partial_liquidation_ratio = x;
        }
        if let Some(x) = liquidation_fee {
            Self::validate_ratio(x, d)?;
            config.liquidation_fee = x;
        }
        self.config = config;
        Ok(())
    }

    /// Pauses or resumes trading; only the owner may, and only as a change.
    pub fn set_pause(&mut self, sender: u64, pause: bool) -> (r: Result<(), EngineError>)
        ensures
            r is Ok <==> sender == old(self).config.owner && old(self).state.pause != pause,
            r is Err ==> r == Err::<(), EngineError>(EngineError::Unauthorized) && final(self).state
                == old(self).state,
            r is Ok ==> final(self).state == (State { pause, ..old(self).state }),
            final(self).config == old(self).config,
            final(self).vamm == old(self).vamm,
            final(self).tmp_swap == old(self).tmp_swap,
            final(self).tmp_liquidator == old(self).tmp_liquidator,
    {
        if sender != self.config.owner || self.state.pause == pause {
            return Err(EngineError::Unauthorized);
        }
        self.state.pause = pause;
        Ok(())
    }

    /// The engine's parameters.
    pub fn query_config(&self) -> (r: Config)
        ensures
            r == self.config,
    {
        self.config
    }

    /// The engine's aggregate state.
    pub fn query_state(&self) -> (r: State)
        ensures
            r == self.state,
    {
        self.state
    }

    /// A position's value and PnL, at the spot price or, for the
    /// time-weighted option, at `twap_notional`.
    pub fn query_unrealized_pnl(
        &self,
        position: &Position,
        calc_option: PnlCalcOption,
        twap_notional: u128,
    ) -> (r: Result<PositionUnrealizedPnlResponse, EngineError>)
        requires
            self.valid(),
        ensures
            r is Ok <==> (if calc_option == PnlCalcOption::SpotPrice {
                self.spot_of(*position)
            } else {
                Self::valued(*position, twap_notional as int)
            }) is Some,
            r is Ok ==> r->Ok_0 == (if calc_option == PnlCalcOption::SpotPrice {
                self.spot_of(*position)
            } else {
                Self::valued(*position, twap_notional as int)
            }).unwrap(),
    {
        match calc_option {
            PnlCalcOption::SpotPrice => self.spot_notional_unrealized_pnl(position),
            PnlCalcOption::Twap => Self::valued_at(position, twap_notional),
        }
    }

    /// The margin a position would have with the funding owed since its
    /// last settlement applied: `margin - funding`, or zero where that is
    /// negative.
    pub open spec fn margin_with_funding(self, p: Position) -> Option<int> {
        match crate::position::net_margin_of(p, 0, self.latest() as int, self.config.decimals as int) {
            Some(net) => Some(
                if net > 0 {
                    net
                } else {
                    0
                },
            ),
            None => None,
        }
    }

    /// The position with the funding owed since its last settlement applied
    /// to its margin (see `margin_with_funding`).
    pub fn query_trader_position_with_funding_payment(&self, position: &Position) -> (r: Result<
        Position,
        EngineError,
    >)
        ensures
            r is Ok <==> self.margin_with_funding(*position) is Some,
            r is Ok ==> r->Ok_0 == (Position {
                margin: self.margin_with_funding(*position).unwrap() as u128,
                ..*position
            }),
    {
        let latest = self.query_cumulative_premium_fraction();
        let net = crate::position::net_margin(position, 0, latest, self.config.decimals)?;
        let margin: u128 = if net > 0 {
            net as u128
        } else {
            0
        };
        Ok(Position { margin, ..*position })
    }

    /// The trader's margin on this curve with funding applied (see
    /// `margin_with_funding`).
    pub fn query_trader_balance_with_funding_payment(&self, position: &Position) -> (r: Result<
        u128,
        EngineError,
    >)
        ensures
            r is Ok <==> self.margin_with_funding(*position) is Some,
            r is Ok ==> r->Ok_0 == self.margin_with_funding(*position).unwrap(),
    {
        let p = self.query_trader_position_with_funding_payment(position)?;
        Ok(p.margin)
    }
}

} // verus!
