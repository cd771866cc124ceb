use polygo_engine::binary64::Binary64;
use polygo_engine::config::{RiskConfig, StrategyConfig};
use polygo_engine::engine::decision::{Decision, DecisionEngine};
use polygo_engine::engine::state::{round_5, taker_fee, EngineState};
use polygo_engine::engine::strategy::{BtcPriceHistory, MomentumStrategy, Strategy};
use polygo_engine::executor::types::{OrderSide, OrderSignal};
use polygo_engine::health::HealthState;
use polygo_engine::market::{ActiveMarket, MarketClock};
use polygo_engine::runtime_config::{JavaStrategyConfig, StrategySnapshot, StrategyStore};
use polygo_engine::ws::binance::PriceTick;
use polygo_engine::ws::polymarket::{BookSnapshot, OutcomeBook};

fn b(x: f64) -> Binary64 {
    Binary64 { bits: x.to_bits() }
}

fn v(x: Binary64) -> f64 {
    f64::from_bits(x.bits)
}

const DAY: u64 = 86_400_000;

#[test]
fn fee_and_close_use_five_decimal_rounding() {
    assert_eq!(v(taker_fee(100, b(0.50))), 1.75);
    let mut state = EngineState::new(1, b(100.0));
    state.try_reserve().unwrap();
    state.open_reserved();
    let closed = state.close(b(0.50), b(0.55), 100);
    assert_eq!(v(closed.entry_fee), 1.75);
    assert_eq!(v(closed.exit_fee), 1.7325);
    assert_eq!(v(closed.net_pnl), 1.5175);
}

#[test]
fn atomic_reservations_enforce_single_active_position() {
    let mut state = EngineState::new(5, b(100.0));
    assert!(state.try_reserve().is_ok());
    assert_eq!(state.try_reserve(), Err("position_active"));
}

#[test]
fn updated_daily_loss_limit_applies_to_accumulated_loss() {
    let mut state = EngineState::new(1, b(5.0));
    state.try_reserve().unwrap();
    state.open_reserved();
    state.close(b(0.50), b(0.40), 100);
    assert_eq!(state.try_reserve(), Err("daily_loss_limit"));
    state.set_daily_loss_limit_usd(b(20.0));
    assert!(state.try_reserve().is_ok());
}

#[test]
fn daily_limit_uses_net_realized_pnl() {
    let mut state = EngineState::new(1, b(5.0));
    state.try_reserve().unwrap();
    state.open_reserved();
    state.close(b(0.30), b(0.40), 100);

    state.try_reserve().unwrap();
    state.open_reserved();
    state.close(b(0.50), b(0.45), 100);

    assert!(state.try_reserve().is_ok());
}

#[test]
fn a_new_day_begins_without_loss() {
    let mut state = EngineState::new_at(1, b(5.0), 3 * DAY);
    assert!(state.try_reserve_at(3 * DAY + 1, 3 * DAY + 1).is_ok());
    assert_eq!(state.open_reserved(), 1);
    let closed = state.close_at(b(0.50), b(0.40), 100, 3 * DAY + 2);
    assert_eq!(v(closed.net_pnl), -13.43);
    assert_eq!(state.daily_pnl_microusd, -13_430_000);
    assert_eq!(state.try_reserve_at(3 * DAY + 3, 0), Err("daily_loss_limit"));
    assert_eq!(state.try_reserve_at(4 * DAY, 4 * DAY), Ok(()));
    assert_eq!(state.daily_pnl_microusd, 0);
    assert_eq!(state.total_pnl_microusd, -13_430_000);
    assert_eq!(state.reserved_at_ms, 4 * DAY);
}

#[test]
fn reservations_are_given_back() {
    let mut state = EngineState::new_at(1, b(5.0), 0);
    assert!(state.try_reserve_at(10, 10).is_ok());
    let active = state.active_snapshot_at(35);
    assert!(active.active && !active.opened);
    assert_eq!(active.age_ms, 25);
    state.release_reservation();
    assert!(!state.active_snapshot_at(35).active);
    assert!(state.try_reserve_at(40, 40).is_ok());
    assert_eq!(state.open_reserved(), 1);
    assert_eq!(state.active_snapshot_at(41).position_id, 1);
    assert!(!state.active_snapshot().age_ms.eq(&0));
    let live = state.close_live_at(b(0.5), b(0.6), b(12.345678), 50);
    assert_eq!(v(live.shares), 12.34568);
    assert_eq!(v(live.gross_pnl), 1.23457);
    assert_eq!(state.total_trades, 1);
    assert_eq!(state.open_or_reserved, 0);
    state.try_reserve().unwrap();
    state.open_reserved();
    let live = state.close_live(b(0.5), b(0.55), b(100.0));
    assert_eq!(v(live.net_pnl), 1.5175);
    assert_eq!(state.total_trades, 2);
}

#[test]
fn whole_shares_close_alike_live_and_simulated() {
    for n in [0, 1, 7, 500, 123_456_789, 1_000_000_000] {
        let mut one = EngineState::new_at(1, b(5.0), 0);
        let mut other = EngineState::new_at(1, b(5.0), 0);
        for state in [&mut one, &mut other] {
            state.try_reserve_at(1, 1).unwrap();
            state.open_reserved();
        }
        let live = one.close_live_at(b(0.37), b(0.41), b(n as f64), 2);
        let simulated = other.close_at(b(0.37), b(0.41), n, 2);
        assert_eq!(v(live.shares), simulated.shares as f64);
        assert_eq!(
            (live.gross_pnl, live.entry_fee, live.exit_fee, live.net_pnl),
            (simulated.gross_pnl, simulated.entry_fee, simulated.exit_fee, simulated.net_pnl)
        );
        assert_eq!(
            (one.daily_pnl_microusd, one.total_pnl_microusd, one.open_or_reserved),
            (other.daily_pnl_microusd, other.total_pnl_microusd, other.open_or_reserved)
        );
    }
}

#[test]
fn no_position_is_reserved_where_none_is_allowed() {
    let mut state = EngineState::new_at(0, b(5.0), 0);
    assert_eq!(state.try_reserve_at(0, 0), Err("position_active"));
    let mut state = EngineState::new_at(1, b(0.0), 0);
    assert_eq!(state.try_reserve_at(0, 0), Err("daily_loss_limit"));
}

#[test]
fn five_places() {
    assert_eq!(v(round_5(b(0.123456))), 0.12346);
    assert_eq!(v(round_5(b(-0.123454))), -0.12345);
    assert_eq!(v(round_5(b(2.0))), 2.0);
}

fn config() -> StrategyConfig {
    StrategyConfig {
        momentum_window_ms: 100,
        momentum_threshold_usd: b(8.0),
        buy_yes_momentum_threshold_usd: b(12.0),
        buy_no_momentum_threshold_usd: b(8.0),
        execution_latency_ms: 100,
        hold_ms: 5_000,
        exit_max_hold_ms: 15_000,
        exit_min_hold_ms: 2_000,
        exit_check_interval_ms: 250,
        exit_reversal_window_ms: 100,
        exit_reversal_threshold_usd: b(2.0),
        exit_take_profit_net_usd: b(0.0),
        exit_stop_loss_pct: b(-15.0),
        min_expected_price_move: b(0.05),
        entry_slippage: b(0.02),
        min_market_progress: b(0.05),
        max_market_progress: b(0.90),
        max_book_age_ms: 300,
    }
}

#[test]
fn signals_from_signed_window_move() {
    let mut strategy = MomentumStrategy::new(&config());
    assert_eq!(strategy.on_binance_tick(PriceTick::new(b(100.0), 1_000), 1_001), None);
    assert_eq!(
        strategy.on_binance_tick(PriceTick::new(b(113.0), 1_100), 1_101).unwrap().side,
        OrderSide::BuyYes
    );

    let mut strategy = MomentumStrategy::new(&config());
    strategy.on_binance_tick(PriceTick::new(b(100.0), 1_000), 1_001);
    assert_eq!(
        strategy.on_binance_tick(PriceTick::new(b(91.0), 1_100), 1_101).unwrap().side,
        OrderSide::BuyNo
    );
}

#[test]
fn does_not_compare_ticks_shorter_than_window() {
    let mut strategy = MomentumStrategy::new(&config());
    strategy.on_binance_tick(PriceTick::new(b(100.0), 1_000), 1_001);
    assert_eq!(strategy.on_binance_tick(PriceTick::new(b(120.0), 1_099), 1_100), None);
}

#[test]
fn price_history_uses_recent_window_direction() {
    let mut history = BtcPriceHistory::new(1_000);
    let mut first = PriceTick::new(b(100.0), 1_000);
    first.received_at_ms = 1_000;
    let mut second = PriceTick::new(b(97.5), 1_100);
    second.received_at_ms = 1_100;
    history.record(first);
    history.record(second);
    assert_eq!(history.recent_momentum(100), Some(b(-2.5)));
}

#[test]
fn thresholds_differ_by_direction() {
    let mut strategy = MomentumStrategy::new(&config());
    strategy.on_binance_tick(PriceTick::new(b(100.0), 1_000), 1_001);
    assert_eq!(strategy.on_binance_tick(PriceTick::new(b(111.0), 1_100), 1_101), None);
    let signal = strategy.on_binance_tick(PriceTick::new(b(123.0), 1_200), 1_201).unwrap();
    assert_eq!(v(signal.momentum_usd), 12.0);
    assert_eq!(v(signal.binance_price), 123.0);
    assert_eq!(signal.signal_ts_ms, 1_201);
}

#[test]
fn the_last_price_a_window_old_tells_the_move() {
    let mut strategy = MomentumStrategy::new(&config());
    let ticks = [(100.0, 1_000), (130.0, 1_040), (110.0, 1_050), (109.0, 1_050), (111.0, 1_120)];
    for (price, at) in ticks {
        strategy.on_binance_tick(PriceTick::new(b(price), at), at);
    }
    let signal = strategy.on_binance_tick(PriceTick::new(b(122.0), 1_150), 1_150).unwrap();
    assert_eq!(v(signal.momentum_usd), 13.0);

    let mut strategy = MomentumStrategy::new(&config());
    for (price, at) in [(100.0, 1_051), (160.0, 1_100), (40.0, 1_150)] {
        let signal = strategy.on_binance_tick(PriceTick::new(b(price), at), at);
        assert_eq!(signal, None);
    }
}

#[test]
fn history_keeps_what_the_window_needs() {
    let mut history = BtcPriceHistory::new(150);
    assert_eq!(history.recent_momentum(100), None);
    for (price, at) in [(1.0, 1_000), (2.0, 1_100), (4.0, 1_200), (8.0, 1_300)] {
        history.record(PriceTick::new(b(price), at));
    }
    assert_eq!(history.prices.len(), 3);
    assert_eq!(history.recent_momentum(100), Some(b(4.0)));
    assert_eq!(history.recent_momentum(150), None);
}

fn java() -> JavaStrategyConfig {
    JavaStrategyConfig {
        config_version: "momentum-v1".into(),
        momentum_window_ms: 100,
        momentum_threshold_usd: b(8.0),
        buy_yes_momentum_threshold_usd: b(12.0),
        buy_no_momentum_threshold_usd: b(8.0),
        execution_latency_ms: 100,
        hold_ms: 5_000,
        min_expected_price_move: b(0.05),
        entry_slippage: b(0.02),
        entry_confirmation_ms: 1_000,
        min_entry_bid_improvement: b(0.01),
        min_exchange_shares: 5,
        min_progress: b(0.05),
        max_progress: b(0.9),
        max_spread: b(0.02),
        min_price: b(0.05),
        max_price: b(0.95),
        max_notional_usd: b(100.0),
        max_shares: 500,
        daily_loss_limit_usd: b(500.0),
        up_outcome: "YES".into(),
        down_outcome: "NO".into(),
    }
}

fn settings() -> StrategySnapshot {
    let risk = RiskConfig {
        max_spread: b(0.02),
        max_notional_usd: b(100.0),
        max_shares: 500,
        max_open_positions: 5,
        daily_loss_limit_usd: b(500.0),
    };
    let mut store = StrategyStore::new(&config(), &risk);
    store.update(&java()).unwrap();
    store.load().unwrap()
}

fn clock() -> MarketClock {
    let mut clock = MarketClock::default();
    clock.update(&ActiveMarket {
        slug: "m".into(),
        yes_asset_id: "1".into(),
        no_asset_id: "2".into(),
        open_ts_ms: 1_000,
        close_ts_ms: 101_000,
    });
    clock
}

fn book(at: u64) -> BookSnapshot {
    BookSnapshot {
        yes: OutcomeBook { bid: Some(b(0.50)), ask: Some(b(0.52)) },
        no: OutcomeBook { bid: Some(b(0.46)), ask: Some(b(0.48)) },
        received_at_ms: at,
        source_ts_ms: at,
    }
}

fn running() -> HealthState {
    let mut health = HealthState::new();
    health.set_market_ready(true);
    health.start().unwrap();
    health
}

struct Rig {
    engine: DecisionEngine,
    state: EngineState,
    health: HealthState,
    settings: StrategySnapshot,
    clock: MarketClock,
}

impl Rig {
    fn new() -> Self {
        Rig {
            engine: DecisionEngine::new(),
            state: EngineState::new_at(1, b(500.0), 0),
            health: running(),
            settings: settings(),
            clock: clock(),
        }
    }

    fn tick(&mut self, price: f64, at: u64, book: BookSnapshot) -> Decision {
        self.engine.on_tick(
            PriceTick::new(b(price), at),
            Some(self.settings),
            at,
            &self.health,
            &self.clock,
            book,
            &mut self.state,
            at,
            at,
        )
    }

    fn reason(&mut self, book: BookSnapshot) -> &'static str {
        self.tick(100.0, 20_000, book);
        match self.tick(113.0, 20_100, book) {
            Decision::Rejected { reason, .. } => reason,
            Decision::Accepted { .. } => "accepted",
            Decision::Nothing => "nothing",
        }
    }
}

#[test]
fn a_clear_signal_is_accepted_and_reserves_the_position() {
    let mut rig = Rig::new();
    assert!(matches!(rig.tick(100.0, 20_000, book(20_000)), Decision::Nothing));
    let signal = match rig.tick(113.0, 20_100, book(20_000)) {
        Decision::Accepted { signal, bid, ask } => {
            assert_eq!((v(bid), v(ask)), (0.50, 0.52));
            signal
        }
        other => panic!("{other:?}"),
    };
    assert_eq!(
        signal,
        OrderSignal::new(OrderSide::BuyYes, b(13.0), 20_100, b(113.0), 100, 1, 5_000)
    );
    assert_eq!(rig.state.open_or_reserved, 1);
    assert!(rig.engine.sent(signal, true, &mut rig.state, &mut rig.health));

    // Within the holding time the next signal has to wait.
    match rig.tick(200.0, 20_200, book(20_200)) {
        Decision::Rejected { reason, logged, .. } => {
            assert_eq!(reason, "cooldown");
            assert!(logged);
        }
        other => panic!("{other:?}"),
    }
    match rig.tick(300.0, 20_300, book(20_300)) {
        Decision::Rejected { reason, logged, .. } => {
            assert_eq!(reason, "cooldown");
            assert!(!logged);
        }
        other => panic!("{other:?}"),
    }
    // Afterwards the position is still held.
    match rig.tick(400.0, 25_200, book(25_200)) {
        Decision::Rejected { reason, .. } => assert_eq!(reason, "position_reserved"),
        other => panic!("{other:?}"),
    }
}

#[test]
fn each_obstacle_is_named() {
    let mut rig = Rig::new();
    rig.health.stop();
    assert_eq!(rig.reason(book(20_000)), "engine_stopped");

    let mut rig = Rig::new();
    rig.health.set_market_ready(false);
    assert_eq!(rig.reason(book(20_000)), "market_not_ready");

    let mut rig = Rig::new();
    rig.clock = MarketClock::default();
    assert_eq!(rig.reason(book(20_000)), "market_progress");

    let mut rig = Rig::new();
    assert_eq!(rig.reason(book(19_000)), "stale_book");

    let mut missing = book(20_000);
    missing.yes.ask = None;
    assert_eq!(Rig::new().reason(missing), "missing_book");

    let mut crossed = book(20_000);
    crossed.yes.bid = Some(b(0.52));
    assert_eq!(Rig::new().reason(crossed), "crossed_book");

    let mut wide = book(20_000);
    wide.yes.bid = Some(b(0.49));
    assert_eq!(Rig::new().reason(wide), "spread");

    let mut dear = book(20_000);
    dear.yes = OutcomeBook { bid: Some(b(0.95)), ask: Some(b(0.96)) };
    assert_eq!(Rig::new().reason(dear), "price_range");

    assert_eq!(Rig::new().reason(book(20_000)), "accepted");
}

#[test]
fn old_prices_and_missing_settings_are_passed_over() {
    let mut rig = Rig::new();
    let late = rig.engine.on_tick(
        PriceTick::new(b(1.0), 1_000),
        Some(rig.settings),
        1_301,
        &rig.health,
        &rig.clock,
        book(1_000),
        &mut rig.state,
        0,
        0,
    );
    assert!(matches!(late, Decision::Nothing));
    let none = rig.engine.on_tick(
        PriceTick::new(b(1.0), 1_000),
        None,
        1_000,
        &rig.health,
        &rig.clock,
        book(1_000),
        &mut rig.state,
        0,
        0,
    );
    assert!(matches!(none, Decision::Nothing));
    assert_eq!(rig.engine.strategy.as_ref().unwrap().prices.len(), 0);
}

#[test]
fn a_signal_that_cannot_be_sent_faults_the_engine() {
    let mut rig = Rig::new();
    rig.tick(100.0, 20_000, book(20_000));
    let signal = match rig.tick(113.0, 20_100, book(20_000)) {
        Decision::Accepted { signal, .. } => signal,
        other => panic!("{other:?}"),
    };
    assert!(!rig.engine.sent(signal, false, &mut rig.state, &mut rig.health));
    assert_eq!(rig.state.open_or_reserved, 0);
    assert_eq!(rig.health.snapshot().fault, "execution_backpressure");
}

#[test]
fn new_settings_begin_a_new_strategy() {
    let mut rig = Rig::new();
    rig.tick(100.0, 20_000, book(20_000));
    rig.settings.generation = 2;
    assert!(matches!(rig.tick(113.0, 20_100, book(20_000)), Decision::Nothing));
    assert_eq!(rig.engine.strategy_generation, 2);
}
