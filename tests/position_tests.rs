use margined_engine::engine::{Account, Block, Config, Engine, Transfer};
use margined_engine::error::EngineError;
use margined_engine::position::{PnlCalcOption, Position, Side};
use margined_engine::vamm::{Vamm, VammConfig, VammState};
use std::collections::HashMap;

const DECIMALS: u128 = 1_000_000_000;
const OWNER: u64 = 0;
const ALICE: u64 = 1;
const BOB: u64 = 2;
const CAROL: u64 = 3;
const ENGINE: u64 = 100;

fn to_decimals(x: u128) -> u128 {
    x * DECIMALS
}

struct Scenario {
    engine: Engine,
    positions: HashMap<u64, Position>,
    balances: HashMap<Account, u128>,
    block: Block,
}

impl Scenario {
    fn new() -> Scenario {
        let vamm = Vamm {
            config: VammConfig {
                owner: ENGINE,
                decimals: DECIMALS,
                toll_ratio: 0,
                spread_ratio: 0,
                funding_period: 3_600,
                funding_buffer_period: 1_800,
            },
            state: VammState {
                quote_asset_reserve: to_decimals(1_000),
                base_asset_reserve: to_decimals(100),
                total_position_size: 0,
                funding_rate: 0,
                next_funding_time: 0,
            },
            reserve_snapshots: Vec::new(),
        };
        let config = Config {
            owner: OWNER,
            decimals: DECIMALS,
            initial_margin_ratio: 50_000_000,
            maintenance_margin_ratio: 50_000_000,
            partial_liquidation_ratio: 0,
            liquidation_fee: 50_000_000,
        };
        let mut balances = HashMap::new();
        for a in [
            Account::Trader(ALICE),
            Account::Trader(BOB),
            Account::Trader(CAROL),
            Account::InsuranceFund,
        ] {
            balances.insert(a, to_decimals(5_000));
        }
        Scenario {
            engine: Engine::new(ENGINE, config, vamm),
            positions: HashMap::new(),
            balances,
            block: Block { height: 1, time: 1_000_000 },
        }
    }

    /// Runs an engine action as one transaction: on an error every change
    /// to the engine is rolled back.
    fn atomic<T>(&mut self, f: impl FnOnce(&mut Engine) -> Result<T, EngineError>) -> Result<T, EngineError> {
        let saved = self.engine.clone();
        let r = f(&mut self.engine);
        if r.is_err() {
            self.engine = saved;
        }
        r
    }

    fn apply(&mut self, transfers: Vec<Transfer>) {
        for t in transfers {
            if t.from != Account::Vault {
                let b = self.balances.entry(t.from).or_insert(0);
                assert!(*b >= t.amount, "balance too low for {:?}", t);
                *b -= t.amount;
            }
            if t.to != Account::Vault {
                *self.balances.entry(t.to).or_insert(0) += t.amount;
            }
        }
    }

    fn balance(&self, a: Account) -> u128 {
        if a == Account::Vault {
            self.engine.vault_balance
        } else {
            *self.balances.get(&a).unwrap_or(&0)
        }
    }

    fn position(&self, trader: u64) -> Position {
        *self.positions.get(&trader).unwrap_or(&Position::new(trader))
    }

    fn open(&mut self, trader: u64, side: Side, quote: u128, leverage: u128) -> Result<(), EngineError> {
        let mut p = self.position(trader);
        let block = self.block;
        let out = self.atomic(|e| e.open_position(&mut p, side, quote, leverage, 0, true, block))?;
        self.positions.insert(trader, p);
        self.apply(out);
        Ok(())
    }

    fn spot_value(&self, trader: u64) -> u128 {
        let p = self.position(trader);
        self.engine
            .query_unrealized_pnl(&p, PnlCalcOption::SpotPrice, 0)
            .unwrap()
            .position_notional
    }

    fn liquidate(&mut self, trader: u64, liquidator: u64, quote_limit: u128) -> Result<(), EngineError> {
        let mut p = self.position(trader);
        let twap = self.spot_value(trader);
        let block = self.block;
        let out = self.atomic(|e| e.liquidate(&mut p, liquidator, quote_limit, twap, true, block))?;
        self.positions.insert(trader, p);
        self.apply(out);
        Ok(())
    }

    fn liquidate_at_twap(&mut self, trader: u64, liquidator: u64, twap: u128) -> Result<(), EngineError> {
        let mut p = self.position(trader);
        let block = self.block;
        let out = self.atomic(|e| e.liquidate(&mut p, liquidator, 0, twap, true, block))?;
        self.positions.insert(trader, p);
        self.apply(out);
        Ok(())
    }

    fn margin_ratio(&self, trader: u64) -> i128 {
        let p = self.position(trader);
        self.engine.query_margin_ratio(&p, self.spot_value(trader)).unwrap()
    }

    fn pay_funding(&mut self, underlying: u128, index: u128) -> Result<(), EngineError> {
        let block = self.block;
        let out = self.atomic(|e| e.pay_funding(underlying, index, true, block))?;
        self.apply(out);
        Ok(())
    }

    fn next_block(&mut self, seconds: u64) {
        self.block = Block { height: self.block.height + 1, time: self.block.time + seconds };
    }

    fn close(&mut self, trader: u64) -> Result<(), EngineError> {
        let mut p = self.position(trader);
        let block = self.block;
        let out = self.atomic(|e| e.close_position(&mut p, 0, block))?;
        self.positions.insert(trader, p);
        self.apply(out);
        Ok(())
    }
}

fn case_initialization() {
    let s = Scenario::new();
    assert_eq!(s.balance(Account::Trader(OWNER)), 0);
    assert_eq!(s.balance(Account::Trader(ALICE)), 5_000_000_000_000);
    assert_eq!(s.balance(Account::Trader(BOB)), 5_000_000_000_000);
    assert_eq!(s.balance(Account::Vault), 0);
}

fn case_open_position_long() {
    let mut s = Scenario::new();
    s.open(ALICE, Side::Buy, to_decimals(60), to_decimals(10)).unwrap();
    let p = s.position(ALICE);
    assert_eq!(s.engine.query_trader_balance_with_funding_payment(&p).unwrap(), to_decimals(60));
    assert_eq!(p.size, 37_500_000_000);
    assert_eq!(p.margin, to_decimals(60));
    assert_eq!(s.balance(Account::Vault), to_decimals(60));
}

fn case_open_position_two_longs() {
    let mut s = Scenario::new();
    s.open(ALICE, Side::Buy, to_decimals(60), to_decimals(10)).unwrap();
    s.open(ALICE, Side::Buy, to_decimals(60), to_decimals(10)).unwrap();
    let p = s.position(ALICE);
    assert_eq!(s.engine.query_trader_balance_with_funding_payment(&p).unwrap(), to_decimals(120));
    assert_eq!(p.size, 54_545_454_545);
    assert_eq!(p.margin, to_decimals(120));
}

fn case_open_position_two_shorts() {
    let mut s = Scenario::new();
    s.open(ALICE, Side::Sell, to_decimals(40), to_decimals(5)).unwrap();
    s.open(ALICE, Side::Sell, to_decimals(40), to_decimals(5)).unwrap();
    let p = s.position(ALICE);
    assert_eq!(s.engine.query_trader_balance_with_funding_payment(&p).unwrap(), to_decimals(80));
    assert_eq!(p.size, -66_666_666_667);
    assert_eq!(p.margin, to_decimals(80));
}

fn case_open_position_equal_size_opposite_side() {
    let mut s = Scenario::new();
    s.open(ALICE, Side::Buy, to_decimals(60), to_decimals(10)).unwrap();
    s.open(ALICE, Side::Sell, to_decimals(300), to_decimals(2)).unwrap();
    let p = s.position(ALICE);
    assert_eq!(s.engine.query_trader_balance_with_funding_payment(&p).unwrap(), 0);
    assert_eq!(p.size, 0);
    assert_eq!(p.margin, 0);
}

fn case_close_safe_position() {
    let mut s = Scenario::new();
    s.open(ALICE, Side::Sell, to_decimals(50), to_decimals(2)).unwrap();
    assert_eq!(s.position(ALICE).size, -11_111_111_112);
    s.open(BOB, Side::Buy, to_decimals(10), to_decimals(6)).unwrap();
    assert_eq!(s.engine.vamm.state.quote_asset_reserve, to_decimals(960));
    assert_eq!(s.engine.vamm.state.base_asset_reserve, 104_166_666_668);
    s.close(ALICE).unwrap();
    let p = s.position(ALICE);
    assert_eq!(p.size, 0);
    assert_eq!(p.margin, 0);
    assert_eq!(s.engine.vamm.state.quote_asset_reserve, 1_074_626_865_681);
    assert_eq!(s.engine.vamm.state.base_asset_reserve, 93_055_555_556);
    assert_eq!(s.balance(Account::Trader(ALICE)), 4_985_373_134_319);
}

fn case_open_position_one_long_two_shorts() {
    let mut s = Scenario::new();
    s.open(ALICE, Side::Buy, to_decimals(60), to_decimals(10)).unwrap();
    s.open(ALICE, Side::Sell, to_decimals(20), to_decimals(5)).unwrap();
    let p = s.position(ALICE);
    assert_eq!(p.size, 33_333_333_333);
    assert_eq!(p.margin, to_decimals(60));
    s.open(ALICE, Side::Sell, to_decimals(50), to_decimals(10)).unwrap();
    let p = s.position(ALICE);
    assert_eq!(s.engine.query_trader_balance_with_funding_payment(&p).unwrap(), 0);
    assert_eq!(p.size, 0);
    assert_eq!(p.margin, 0);
}

fn case_open_position_short_long_short() {
    let mut s = Scenario::new();
    s.open(ALICE, Side::Sell, to_decimals(20), to_decimals(10)).unwrap();
    s.open(ALICE, Side::Buy, to_decimals(150), to_decimals(3)).unwrap();
    let p = s.position(ALICE);
    assert_eq!(p.size, to_decimals(20) as i128);
    assert_eq!(p.margin, 83_333_333_333);
    s.open(ALICE, Side::Sell, to_decimals(25), to_decimals(10)).unwrap();
    let p = s.position(ALICE);
    assert_eq!(p.size, 0);
    assert_eq!(p.margin, 0);
}

fn case_open_position_long_short_long() {
    let mut s = Scenario::new();
    s.open(ALICE, Side::Buy, to_decimals(25), to_decimals(10)).unwrap();
    s.open(ALICE, Side::Sell, to_decimals(150), to_decimals(3)).unwrap();
    let p = s.position(ALICE);
    assert_eq!(p.size, -(to_decimals(25) as i128));
    assert_eq!(p.margin, 66_666_666_666);
    s.open(ALICE, Side::Buy, to_decimals(20), to_decimals(10)).unwrap();
    let p = s.position(ALICE);
    assert_eq!(p.size, 0);
    assert_eq!(p.margin, 0);
}

fn case_pnl_zero_no_others_trading() {
    let mut s = Scenario::new();
    s.open(ALICE, Side::Buy, to_decimals(250), to_decimals(1)).unwrap();
    s.open(ALICE, Side::Buy, to_decimals(750), to_decimals(1)).unwrap();
    let p = s.position(ALICE);
    let pnl = s.engine.query_unrealized_pnl(&p, PnlCalcOption::SpotPrice, 0).unwrap();
    assert_eq!(pnl.unrealized_pnl, 0);
}

#[test]
fn test_close_position_over_maintenance_margin_ration() {
    let mut s = Scenario::new();
    s.open(ALICE, Side::Buy, to_decimals(25), to_decimals(10)).unwrap();
    assert_eq!(s.position(ALICE).size, to_decimals(20) as i128);
    s.open(BOB, Side::Sell, 35_080_000_000, to_decimals(1)).unwrap();
    s.close(ALICE).unwrap();
    assert_eq!(s.position(ALICE).size, 0);
    assert_eq!(s.engine.vamm.state.quote_asset_reserve, 977_422_074_621);
    assert_eq!(s.engine.vamm.state.base_asset_reserve, 102_309_946_334);
}

#[test]
fn test_close_under_collateral_position() {
    let mut s = Scenario::new();
    s.open(ALICE, Side::Buy, to_decimals(25), to_decimals(10)).unwrap();
    assert_eq!(s.position(ALICE).size, to_decimals(20) as i128);
    s.open(BOB, Side::Sell, to_decimals(250), to_decimals(1)).unwrap();
    s.close(ALICE).unwrap();
    assert_eq!(s.position(ALICE).size, 0);
    assert_eq!(s.balance(Account::Trader(ALICE)), 4_975_000_000_000);
    assert_eq!(s.balance(Account::InsuranceFund), 4_941_666_666_666);
    assert_eq!(s.balance(Account::Vault), 333_333_333_334);
}

#[test]
fn test_openclose_position_to_check_fee_is_charged() {
    let mut s = Scenario::new();
    s.engine.vamm.update_config(ENGINE, None, Some(10_000_000), Some(20_000_000)).unwrap();
    s.open(ALICE, Side::Buy, to_decimals(60), to_decimals(10)).unwrap();
    assert_eq!(s.balance(Account::Vault), to_decimals(60));
    s.close(ALICE).unwrap();
    assert_eq!(s.balance(Account::Vault), 0);
    assert_eq!(s.balance(Account::InsuranceFund), to_decimals(5_024));
    assert_eq!(s.balance(Account::FeePool), to_decimals(12));
}

#[test]
fn test_pnl_unrealized() {
    let mut s = Scenario::new();
    s.open(ALICE, Side::Buy, to_decimals(25), to_decimals(10)).unwrap();
    s.open(BOB, Side::Sell, to_decimals(100), to_decimals(10)).unwrap();
    let p = s.position(ALICE);
    assert_eq!(p.size, to_decimals(20) as i128);
    let pnl = s.engine.query_unrealized_pnl(&p, PnlCalcOption::SpotPrice, 0).unwrap();
    assert_eq!(pnl.unrealized_pnl, -238_095_238_096);
}

#[test]
fn test_error_open_position_exceed_margin_ratio() {
    let mut s = Scenario::new();
    let r = s.open(ALICE, Side::Buy, to_decimals(60), to_decimals(21));
    assert_eq!(r, Err(EngineError::Undercollateralized));
}

fn liquidation_scenario() -> Scenario {
    let mut s = Scenario::new();
    s.next_block(900);
    s.engine
        .update_config(OWNER, None, None, Some(100_000_000), Some(250_000_000), Some(25_000_000))
        .unwrap();
    s
}

#[test]
fn test_partially_liquidate_long_position() {
    let mut s = liquidation_scenario();
    s.open(ALICE, Side::Buy, to_decimals(25), to_decimals(10)).unwrap();
    s.next_block(15);
    s.open(BOB, Side::Sell, 45_180_722_890, to_decimals(1)).unwrap();
    s.liquidate(ALICE, CAROL, 0).unwrap();
    let p = s.position(ALICE);
    assert_eq!(p.margin, 19_274_981_657);
    assert_eq!(p.size, 15_000_000_000);
    assert_eq!(s.balance(Account::Trader(CAROL)) - to_decimals(5_000), 855_695_509);
    assert_eq!(s.balance(Account::InsuranceFund), 5_000_855_695_509);
}

#[test]
fn test_partially_liquidate_short_position() {
    let mut s = liquidation_scenario();
    s.open(ALICE, Side::Sell, to_decimals(20), to_decimals(10)).unwrap();
    s.next_block(15);
    s.open(BOB, Side::Buy, 19_672_131_150, to_decimals(1)).unwrap();
    s.liquidate(ALICE, CAROL, 0).unwrap();
    let p = s.position(ALICE);
    assert_eq!(p.margin, 16_079_605_165);
    assert_eq!(p.size, -18_750_000_000);
    assert_eq!(s.balance(Account::Trader(CAROL)) - to_decimals(5_000), 553_234_429);
    assert_eq!(s.balance(Account::InsuranceFund), 5_000_553_234_430);
}

#[test]
fn test_force_error_empty_position() {
    let mut s = liquidation_scenario();
    assert_eq!(s.liquidate(ALICE, CAROL, 0), Err(EngineError::ZeroPosition));
}

#[test]
fn test_generate_loss_for_amm_when_funding_rate_is_positive_and_amm_is_long() {
    let mut s = Scenario::new();
    s.open(ALICE, Side::Buy, to_decimals(300), to_decimals(2)).unwrap();
    s.open(BOB, Side::Sell, to_decimals(1_200), to_decimals(1)).unwrap();
    assert_eq!(s.balance(Account::Vault), 1_500_000_000_000);
    s.next_block(86_400);
    s.pay_funding(1_590_000_000, 1_830_000_000).unwrap();
    let alice = s.engine.query_trader_position_with_funding_payment(&s.position(ALICE)).unwrap();
    assert_eq!(alice.size, 37_500_000_000);
    assert_eq!(alice.margin, 299_625_000_000);
    let bob = s.engine.query_trader_position_with_funding_payment(&s.position(BOB)).unwrap();
    assert_eq!(bob.size, -187_500_000_000);
    assert_eq!(bob.margin, 1_201_875_000_000);
    assert_eq!(s.balance(Account::Vault), 1_501_500_000_000);
    assert_eq!(s.balance(Account::InsuranceFund), 4_998_500_000_000);
}

#[test]
fn test_will_keep_generating_same_loss_when_funding_rate_is_positive() {
    let mut s = Scenario::new();
    s.open(ALICE, Side::Buy, to_decimals(300), to_decimals(2)).unwrap();
    s.open(BOB, Side::Sell, to_decimals(1_200), to_decimals(1)).unwrap();
    s.next_block(86_400);
    s.pay_funding(1_590_000_000, 1_830_000_000).unwrap();
    s.next_block(86_400);
    s.pay_funding(1_590_000_000, 1_830_000_000).unwrap();
    assert_eq!(s.balance(Account::Vault), 1_503_000_000_000);
    assert_eq!(s.balance(Account::InsuranceFund), 4_997_000_000_000);
}

#[test]
fn scenario_open_long_sixty_at_ten_times() {
    let mut s = Scenario::new();
    s.open(ALICE, Side::Buy, to_decimals(60), to_decimals(10)).unwrap();
    assert_eq!(s.position(ALICE).size, 37_500_000_000);
    assert_eq!(s.position(ALICE).margin, 60_000_000_000);
    assert_eq!(s.balance(Account::Vault), 60_000_000_000);
}

#[test]
fn aggregate_size_matches_positions() {
    let mut s = Scenario::new();
    s.open(ALICE, Side::Buy, to_decimals(60), to_decimals(10)).unwrap();
    s.open(BOB, Side::Sell, to_decimals(20), to_decimals(5)).unwrap();
    s.open(ALICE, Side::Sell, to_decimals(10), to_decimals(2)).unwrap();
    s.open(BOB, Side::Buy, to_decimals(300), to_decimals(2)).unwrap();
    let total: i128 = s.positions.values().map(|p| p.size).sum();
    assert_eq!(total, s.engine.vamm.state.total_position_size);
    s.close(ALICE).unwrap();
    let total: i128 = s.positions.values().map(|p| p.size).sum();
    assert_eq!(total, s.engine.vamm.state.total_position_size);
}

#[test]
fn occupied_slot_is_rejected_and_slots_end_empty() {
    let mut s = Scenario::new();
    s.open(ALICE, Side::Buy, to_decimals(60), to_decimals(10)).unwrap();
    assert!(s.engine.tmp_swap.is_none());
    assert!(s.engine.tmp_liquidator.is_none());
    s.engine.tmp_liquidator = Some(CAROL);
    assert_eq!(s.open(BOB, Side::Buy, to_decimals(1), to_decimals(1)), Err(EngineError::InvalidState));
    assert_eq!(s.close(ALICE), Err(EngineError::InvalidState));
}

#[test]
fn margin_ratio_falls_as_price_moves_against_long() {
    let mut s = Scenario::new();
    s.open(ALICE, Side::Buy, to_decimals(25), to_decimals(10)).unwrap();
    let before = s.margin_ratio(ALICE);
    s.open(BOB, Side::Sell, to_decimals(10), to_decimals(1)).unwrap();
    let after_one = s.margin_ratio(ALICE);
    s.open(BOB, Side::Sell, to_decimals(10), to_decimals(1)).unwrap();
    let after_two = s.margin_ratio(ALICE);
    assert!(after_one <= before);
    assert!(after_two <= after_one);
    assert_eq!(before, 100_000_000);
}

#[test]
fn open_then_close_returns_margin() {
    let mut s = Scenario::new();
    s.open(ALICE, Side::Buy, to_decimals(60), to_decimals(10)).unwrap();
    s.close(ALICE).unwrap();
    let back = s.balance(Account::Trader(ALICE));
    assert!(back <= to_decimals(5_000));
    assert!(to_decimals(5_000) - back <= 20);
}

#[test]
fn cumulative_premium_fraction_is_last_appended() {
    let mut s = Scenario::new();
    assert_eq!(s.engine.query_cumulative_premium_fraction(), 0);
    s.engine.append_cumulative_premium_fraction(10_000_000).unwrap();
    assert_eq!(s.engine.query_cumulative_premium_fraction(), 10_000_000);
    s.engine.append_cumulative_premium_fraction(-4_000_000).unwrap();
    assert_eq!(s.engine.query_cumulative_premium_fraction(), 6_000_000);
    assert_eq!(s.engine.cumulative_premium_fractions, vec![10_000_000, 6_000_000]);
}

#[test]
fn zero_leverage_fails_without_change() {
    let mut s = Scenario::new();
    let reserves = s.engine.vamm.state;
    assert_eq!(s.open(ALICE, Side::Buy, to_decimals(60), 0), Err(EngineError::Arithmetic));
    assert_eq!(s.engine.vamm.state, reserves);
    assert!(s.engine.tmp_swap.is_none());
    assert_eq!(s.position(ALICE), Position::new(ALICE));
}

#[test]
fn zero_partial_ratio_liquidates_fully() {
    let mut s = Scenario::new();
    s.engine.update_config(OWNER, None, None, Some(100_000_000), Some(0), Some(25_000_000)).unwrap();
    s.open(ALICE, Side::Buy, to_decimals(25), to_decimals(10)).unwrap();
    s.open(BOB, Side::Sell, 45_180_722_890, to_decimals(1)).unwrap();
    let ratio = s.margin_ratio(ALICE);
    assert!(ratio > 25_000_000 && ratio <= 100_000_000);
    s.liquidate(ALICE, CAROL, 0).unwrap();
    let p = s.position(ALICE);
    assert_eq!((p.size, p.margin, p.notional), (0, 0, 0));
}

#[test]
fn small_reversal_refunds_without_follow_up_swap() {
    let mut s = Scenario::new();
    s.open(ALICE, Side::Buy, to_decimals(60), to_decimals(10)).unwrap();
    let p = s.position(ALICE);
    let value = s.spot_value(ALICE);
    assert_eq!(value, to_decimals(600));
    s.open(ALICE, Side::Sell, 300_500_000_000, to_decimals(2)).unwrap();
    let after = s.position(ALICE);
    assert_eq!((after.size, after.margin, after.notional), (0, 0, 0));
    assert_eq!(s.engine.vamm.state.total_position_size, 0);
    assert_eq!(s.engine.vamm.state.quote_asset_reserve, to_decimals(1_000));
    assert_eq!(s.balance(Account::Trader(ALICE)), to_decimals(5_000));
    assert_eq!(p.margin, to_decimals(60));
}

#[test]
fn large_reversal_opens_the_other_side() {
    let mut s = Scenario::new();
    s.open(ALICE, Side::Buy, to_decimals(60), to_decimals(10)).unwrap();
    s.open(ALICE, Side::Sell, to_decimals(400), to_decimals(2)).unwrap();
    let p = s.position(ALICE);
    assert!(p.size < 0);
    assert_eq!(p.notional, to_decimals(200));
    assert_eq!(p.margin, to_decimals(100));
    assert_eq!(p.size, s.engine.vamm.state.total_position_size);
}

#[test]
fn restriction_blocks_same_block_actions() {
    let mut s = liquidation_scenario();
    s.open(ALICE, Side::Buy, to_decimals(25), to_decimals(10)).unwrap();
    s.open(BOB, Side::Sell, 45_180_722_890, to_decimals(1)).unwrap();
    s.liquidate(ALICE, CAROL, 0).unwrap();
    assert_eq!(s.close(ALICE), Err(EngineError::RestrictedAction));
    assert_eq!(s.open(ALICE, Side::Buy, to_decimals(1), to_decimals(1)), Err(EngineError::RestrictedAction));
    s.next_block(5);
    s.close(ALICE).unwrap();
}

#[test]
fn liquidation_of_healthy_position_is_refused() {
    let mut s = liquidation_scenario();
    s.open(ALICE, Side::Buy, to_decimals(25), to_decimals(5)).unwrap();
    assert_eq!(s.liquidate(ALICE, CAROL, 0), Err(EngineError::Overcollateralized));
}

#[test]
fn paused_engine_refuses_trades() {
    let mut s = Scenario::new();
    assert_eq!(s.engine.set_pause(ALICE, true), Err(EngineError::Unauthorized));
    s.engine.set_pause(OWNER, true).unwrap();
    assert_eq!(s.engine.set_pause(OWNER, true), Err(EngineError::Unauthorized));
    assert_eq!(s.open(ALICE, Side::Buy, to_decimals(1), to_decimals(1)), Err(EngineError::Paused));
    s.engine.set_pause(OWNER, false).unwrap();
    s.open(ALICE, Side::Buy, to_decimals(1), to_decimals(1)).unwrap();
}

#[test]
fn unregistered_curve_and_zero_close_are_refused() {
    let mut s = Scenario::new();
    let mut p = Position::new(ALICE);
    let r = s.engine.open_position(&mut p, Side::Buy, 1, 1, 0, false, s.block);
    assert_eq!(r, Err(EngineError::UnknownCurve));
    assert_eq!(s.close(ALICE), Err(EngineError::ZeroPosition));
}

#[test]
fn slippage_limit_is_enforced() {
    let mut s = Scenario::new();
    let mut p = Position::new(ALICE);
    let r = s.engine.open_position(&mut p, Side::Buy, to_decimals(60), to_decimals(10), 37_500_000_001, true, s.block);
    assert_eq!(r, Err(EngineError::SlippageExceeded));
}

#[test]
fn deposit_and_withdraw_margin() {
    let mut s = Scenario::new();
    s.open(ALICE, Side::Buy, to_decimals(60), to_decimals(10)).unwrap();
    let mut p = s.position(ALICE);
    assert_eq!(s.engine.deposit_margin(&mut p, 0), Err(EngineError::ZeroInput));
    let out = s.engine.deposit_margin(&mut p, to_decimals(10)).unwrap();
    s.apply(out);
    assert_eq!(p.margin, to_decimals(70));
    assert_eq!(s.balance(Account::Vault), to_decimals(70));
    assert_eq!(s.engine.withdraw_margin(&mut p, to_decimals(50), true), Err(EngineError::InsufficientFunds));
    let out = s.engine.withdraw_margin(&mut p, to_decimals(40), true).unwrap();
    s.apply(out);
    assert_eq!(p.margin, to_decimals(30));
    assert_eq!(s.balance(Account::Trader(ALICE)), to_decimals(4_970));
}

#[test]
fn update_config_validates_ratios() {
    let mut s = Scenario::new();
    assert_eq!(s.engine.update_config(ALICE, None, None, None, None, None), Err(EngineError::Unauthorized));
    assert_eq!(
        s.engine.update_config(OWNER, None, Some(DECIMALS + 1), None, None, None),
        Err(EngineError::InvalidRatio)
    );
    s.engine.update_config(OWNER, Some(BOB), Some(DECIMALS), None, None, None).unwrap();
    assert_eq!(s.engine.query_config().owner, BOB);
    assert_eq!(s.engine.query_config().initial_margin_ratio, DECIMALS);
}

#[test]
fn funding_too_early_is_refused() {
    let mut s = Scenario::new();
    s.pay_funding(1_000_000_000, 1_000_000_000).unwrap();
    assert_eq!(s.engine.query_cumulative_premium_fraction(), 0);
    assert_eq!(s.pay_funding(1_000_000_000, 1_000_000_000), Err(EngineError::FundingTooEarly));
    assert_eq!(s.engine.vamm.state.next_funding_time, 1_004_400);
}

#[test]
fn position_tests_test_initialization() {
    case_initialization();
}

#[test]
fn integration_tests_test_initialization() {
    case_initialization();
}

#[test]
fn position_tests_test_open_position_long() {
    case_open_position_long();
}

#[test]
fn integration_tests_test_open_position_long() {
    case_open_position_long();
}

#[test]
fn position_tests_test_open_position_two_longs() {
    case_open_position_two_longs();
}

#[test]
fn integration_tests_test_open_position_two_longs() {
    case_open_position_two_longs();
}

#[test]
fn position_tests_test_open_position_two_shorts() {
    case_open_position_two_shorts();
}

#[test]
fn integration_tests_test_open_position_two_shorts() {
    case_open_position_two_shorts();
}

#[test]
fn position_tests_test_open_position_equal_size_opposite_side() {
    case_open_position_equal_size_opposite_side();
}

#[test]
fn integration_tests_test_open_position_equal_size_opposite_side() {
    case_open_position_equal_size_opposite_side();
}

#[test]
fn position_tests_test_open_position_one_long_two_shorts() {
    case_open_position_one_long_two_shorts();
}

#[test]
fn integration_tests_test_open_position_one_long_two_shorts() {
    case_open_position_one_long_two_shorts();
}

#[test]
fn position_tests_test_open_position_short_long_short() {
    case_open_position_short_long_short();
}

#[test]
fn integration_tests_test_open_position_short_long_short() {
    case_open_position_short_long_short();
}

#[test]
fn position_tests_test_open_position_long_short_long() {
    case_open_position_long_short_long();
}

#[test]
fn integration_tests_test_open_position_long_short_long() {
    case_open_position_long_short_long();
}

#[test]
fn position_tests_test_pnl_zero_no_others_trading() {
    case_pnl_zero_no_others_trading();
}

#[test]
fn integration_tests_test_pnl_zero_no_others_trading() {
    case_pnl_zero_no_others_trading();
}

#[test]
fn position_tests_test_close_safe_position() {
    case_close_safe_position();
}

#[test]
fn integration_tests_test_close_safe_position() {
    case_close_safe_position();
}

fn engine_for_config_tests() -> Engine {
    let mut s = Scenario::new();
    s.engine.config.liquidation_fee = 100;
    s.engine
}

#[test]
fn tests_test_instantiation() {
    let e = engine_for_config_tests();
    let c = e.query_config();
    assert_eq!(c.owner, OWNER);
    assert_eq!(c.initial_margin_ratio, 50_000_000);
    assert_eq!(c.maintenance_margin_ratio, 50_000_000);
    assert_eq!(c.liquidation_fee, 100);
}

#[test]
fn tests_test_update_config() {
    let mut e = engine_for_config_tests();
    let new_owner = 1;
    e.update_config(OWNER, Some(new_owner), None, None, None, None).unwrap();
    assert_eq!(e.query_config().owner, new_owner);
    assert!(e.update_config(OWNER, Some(OWNER), None, None, None, None).is_err());
    assert!(e.update_config(new_owner, None, Some(u128::MAX), None, None, None).is_err());
}

#[test]
fn test_partially_liquidate_long_position_with_quote_asset_limit() {
    let mut s = liquidation_scenario();
    s.open(ALICE, Side::Buy, to_decimals(25), to_decimals(10)).unwrap();
    s.next_block(15);
    s.open(BOB, Side::Sell, 45_180_722_890, to_decimals(1)).unwrap();
    assert_eq!(s.liquidate(ALICE, CAROL, 273_850_000_000), Err(EngineError::SlippageExceeded));
    s.liquidate(ALICE, CAROL, 273_800_000_000).unwrap();
}

#[test]
fn test_partially_liquidate_short_position_with_quote_asset_limit() {
    let mut s = liquidation_scenario();
    s.open(ALICE, Side::Sell, to_decimals(20), to_decimals(10)).unwrap();
    s.next_block(15);
    s.open(BOB, Side::Buy, 19_672_131_150, to_decimals(1)).unwrap();
    assert_eq!(s.liquidate(ALICE, CAROL, 177_000_000_000), Err(EngineError::SlippageExceeded));
    s.liquidate(ALICE, CAROL, 177_100_000_000).unwrap();
}

#[test]
fn test_long_position_complete_liquidation() {
    let mut s = liquidation_scenario();
    s.open(ALICE, Side::Buy, to_decimals(25), to_decimals(10)).unwrap();
    s.next_block(15);
    s.open(BOB, Side::Sell, 73_529_411_760, to_decimals(1)).unwrap();
    s.liquidate(ALICE, CAROL, 0).unwrap();
    assert_eq!(s.position(ALICE).size, 0);
    assert_eq!(s.balance(Account::Trader(CAROL)) - to_decimals(5_000), 2_801_120_448);
    assert_eq!(s.balance(Account::InsuranceFund), 4_996_288_515_407);
}

#[test]
fn test_long_position_complete_liquidation_with_slippage_limit() {
    let mut s = liquidation_scenario();
    s.open(ALICE, Side::Buy, to_decimals(25), to_decimals(10)).unwrap();
    s.next_block(15);
    s.open(BOB, Side::Sell, 73_529_411_760, to_decimals(1)).unwrap();
    assert_eq!(s.liquidate(ALICE, CAROL, 224_100_000_000), Err(EngineError::SlippageExceeded));
    s.liquidate(ALICE, CAROL, to_decimals(224)).unwrap();
}

#[test]
fn test_short_position_complete_liquidation() {
    let mut s = liquidation_scenario();
    s.open(ALICE, Side::Sell, to_decimals(20), to_decimals(10)).unwrap();
    s.next_block(15);
    s.open(BOB, Side::Buy, 40_336_134_450, to_decimals(1)).unwrap();
    s.liquidate(ALICE, CAROL, 0).unwrap();
    assert_eq!(s.position(ALICE).size, 0);
    assert_eq!(s.balance(Account::Trader(CAROL)) - to_decimals(5_000), 2_793_670_659);
    assert_eq!(s.balance(Account::InsuranceFund), 4_993_712_676_564);
}

// The margin ratio values a position at whichever of the spot and
// time-weighted prices gives the PnL of larger magnitude, so these positions,
// underwater at that valuation, can be liquidated.
#[test]
fn test_force_error_position_not_liquidation_twap_over_maintenance_margin() {
    let mut s = liquidation_scenario();
    s.open(BOB, Side::Buy, to_decimals(20), to_decimals(5)).unwrap();
    s.next_block(15);
    s.open(ALICE, Side::Buy, to_decimals(20), to_decimals(5)).unwrap();
    s.next_block(600);
    s.open(BOB, Side::Sell, to_decimals(20), to_decimals(5)).unwrap();
    s.next_block(15);
    let p = s.position(ALICE);
    assert_eq!(p.notional, to_decimals(100));
    let spot = s.engine.query_unrealized_pnl(&p, PnlCalcOption::SpotPrice, 0).unwrap();
    assert_eq!(spot.unrealized_pnl, -15_384_615_395);
    let twap_value = 90_613_940_040;
    let twap = s.engine.query_unrealized_pnl(&p, PnlCalcOption::Twap, twap_value).unwrap();
    assert_eq!(twap.unrealized_pnl, -9_386_059_960);
    assert_eq!(s.liquidate_at_twap(ALICE, CAROL, twap_value), Ok(()));
}

#[test]
fn test_force_error_position_not_liquidation_spot_over_maintenance_margin() {
    let mut s = liquidation_scenario();
    s.open(ALICE, Side::Buy, to_decimals(20), to_decimals(5)).unwrap();
    s.next_block(15);
    let p = s.position(ALICE);
    assert_eq!(p.notional, to_decimals(100));
    let spot = s.engine.query_unrealized_pnl(&p, PnlCalcOption::SpotPrice, 0).unwrap();
    assert_eq!(spot.unrealized_pnl, -10);
    let twap_value = 83_611_111_102;
    let twap = s.engine.query_unrealized_pnl(&p, PnlCalcOption::Twap, twap_value).unwrap();
    assert_eq!(twap.unrealized_pnl, -16_388_888_898);
    assert_eq!(s.liquidate_at_twap(ALICE, CAROL, twap_value), Ok(()));
}

// The third trade reduces a short whose spot value (100.000000008) exceeds
// the notional by 8 units; the share of that loss the trade realizes,
// -8 * 11_111_111_111 / 11_111_111_112 truncated, is 7 units, so the margin
// ends 7 units under 40.
fn case_open_position_short_and_two_longs() {
    let mut s = Scenario::new();
    s.open(ALICE, Side::Sell, to_decimals(40), to_decimals(5)).unwrap();
    let p = s.position(ALICE);
    assert_eq!(p.size, -25_000_000_000);
    assert_eq!(p.margin, to_decimals(40));
    s.open(ALICE, Side::Buy, to_decimals(20), to_decimals(5)).unwrap();
    let p = s.position(ALICE);
    assert_eq!(p.size, -11_111_111_112);
    assert_eq!(p.margin, to_decimals(40));
    s.open(ALICE, Side::Buy, to_decimals(10), to_decimals(10)).unwrap();
    let p = s.position(ALICE);
    assert_eq!(p.size, -1);
    assert_eq!(p.margin, to_decimals(40) - 7);
}

#[test]
fn position_tests_test_open_position_short_and_two_longs() {
    case_open_position_short_and_two_longs();
}

#[test]
fn integration_tests_test_open_position_short_and_two_longs() {
    case_open_position_short_and_two_longs();
}

// Bob's shortfall when he closes (or is liquidated) is covered first by what
// the insurance fund advanced when Alice took her profit; the few units by
// which it exceeds that advance are pulled from the insurance fund and stay
// in the vault.
#[test]
fn test_alice_take_profit_from_bob_unrealized_undercollateralized_position_bob_closes() {
    let mut s = Scenario::new();
    s.open(ALICE, Side::Sell, to_decimals(20), to_decimals(10)).unwrap();
    s.open(BOB, Side::Sell, to_decimals(20), to_decimals(10)).unwrap();
    s.close(ALICE).unwrap();
    assert_eq!(s.balance(Account::Trader(ALICE)), 5_094_117_647_059);
    s.close(BOB).unwrap();
    assert_eq!(s.balance(Account::Trader(BOB)), 4_980_000_000_000);
    assert_eq!(s.balance(Account::Vault), 3);
    assert_eq!(s.balance(Account::InsuranceFund), 4_925_882_352_938);
}

#[test]
fn test_alice_take_profit_from_bob_unrealized_undercollateralized_position_bob_liquidated() {
    let mut s = Scenario::new();
    s.open(ALICE, Side::Sell, to_decimals(20), to_decimals(10)).unwrap();
    s.open(BOB, Side::Sell, to_decimals(20), to_decimals(10)).unwrap();
    s.close(ALICE).unwrap();
    assert_eq!(s.balance(Account::Trader(ALICE)), 5_094_117_647_059);
    assert_eq!(s.margin_ratio(BOB), -252_000_000);
    s.liquidate(BOB, CAROL, 0).unwrap();
    assert_eq!(s.balance(Account::Trader(CAROL)), 5_007_352_941_176);
    assert_eq!(s.balance(Account::Vault), 3);
}

#[test]
fn every_trader_liquidated_in_a_block_is_restricted() {
    let mut s = liquidation_scenario();
    s.open(ALICE, Side::Buy, to_decimals(25), to_decimals(10)).unwrap();
    s.open(CAROL, Side::Buy, to_decimals(25), to_decimals(10)).unwrap();
    s.open(BOB, Side::Sell, to_decimals(300), to_decimals(1)).unwrap();
    s.liquidate(ALICE, OWNER, 0).unwrap();
    s.liquidate(CAROL, OWNER, 0).unwrap();
    assert_eq!(s.open(ALICE, Side::Buy, to_decimals(1), to_decimals(1)), Err(EngineError::RestrictedAction));
    assert_eq!(s.open(CAROL, Side::Buy, to_decimals(1), to_decimals(1)), Err(EngineError::RestrictedAction));
    s.open(BOB, Side::Sell, to_decimals(1), to_decimals(1)).unwrap();
    s.next_block(5);
    s.open(ALICE, Side::Buy, to_decimals(1), to_decimals(1)).unwrap();
    s.open(CAROL, Side::Buy, to_decimals(1), to_decimals(1)).unwrap();
}
