use polygo_engine::binary64::Binary64;
use polygo_engine::config::{RiskConfig, StrategyConfig};
use polygo_engine::emitter::audit::{
    dispatched, emitted, engine_session_id, envelope, AuditBookContext, AuditEvent,
};
use polygo_engine::engine::state::EngineState;
use polygo_engine::executor::dry_run::{DryRunStage, DryRunTask, DryRunWork};
use polygo_engine::executor::errors::OrderFault;
use polygo_engine::executor::exit_decision::{
    adverse_reversal, exit_decision, exit_mark, ExitDecision,
};
use polygo_engine::executor::gtc_entry::{
    EntryPhase, GtcEntry, OrderStatus, PostedOrder, TimedPost,
};
use polygo_engine::executor::gtc_exit::{ExitPhase, GtcExit};
use polygo_engine::executor::live_exit::LiveExit;
use polygo_engine::executor::live_task::{LiveStage, LiveTask, LiveWork};
use polygo_engine::executor::math::{
    elapsed_ms, elapsed_to_now_ms, expected_move_covers_fees, floor_to_2_decimals, order_size,
    sell_price, Amounts,
};
use polygo_engine::executor::order::{
    dry_run_close, dry_run_entry, revalidate_entry, shadow_request, signal_event, Account,
    DryRunEnd, DryRunPosition, DryRunStart,
};
use polygo_engine::executor::revalidation::executable_ask_shares;
use polygo_engine::executor::types::{OrderSide, OrderSignal};
use polygo_engine::health::HealthState;
use polygo_engine::market::{ActiveMarket, MarketClock};
use polygo_engine::runtime_config::{JavaStrategyConfig, StrategySnapshot, StrategyStore};
use polygo_engine::ws::polymarket::{BookSnapshot, DepthLevel, DepthSnapshot, OutcomeBook};

fn b(x: f64) -> Binary64 {
    Binary64 { bits: x.to_bits() }
}

fn v(x: Binary64) -> f64 {
    f64::from_bits(x.bits)
}

#[test]
fn sizes_with_notional_and_share_caps() {
    assert_eq!(order_size(b(0.50), b(100.0), 500), 200);
    assert_eq!(order_size(b(0.10), b(100.0), 500), 500);
    assert_eq!(order_size(b(0.0), b(100.0), 500), 0);
}

#[test]
fn sizes_outside_the_price_range() {
    assert_eq!(order_size(b(-0.1), b(100.0), 500), 0);
    assert_eq!(order_size(b(1.5), b(100.0), 500), 0);
    assert_eq!(order_size(b(f64::NAN), b(100.0), 500), 0);
    assert_eq!(order_size(b(1.0), b(-3.0), 500), 0);
}

#[test]
fn small_sums() {
    assert_eq!(v(floor_to_2_decimals(b(12.349))), 12.34);
    assert_eq!(v(floor_to_2_decimals(b(-0.001))), -0.01);
    assert!(expected_move_covers_fees(b(0.5), 10, b(0.05)));
    assert!(!expected_move_covers_fees(b(0.5), 10, b(0.03)));
    assert!(!expected_move_covers_fees(b(0.5), 0, b(0.05)));
    assert!(expected_move_covers_fees(b(0.5), 10, b(0.0)));
    let amounts = |making, taking| Amounts { making, taking };
    assert_eq!(sell_price(amounts(Some(b(8.0)), Some(b(4.0)))), Some(b(0.5)));
    assert_eq!(sell_price(amounts(Some(b(0.0)), Some(b(4.0)))), None);
    assert_eq!(sell_price(amounts(None, Some(b(4.0)))), None);
    assert_eq!(elapsed_ms(10, 35), 25);
    assert_eq!(elapsed_ms(35, 10), 0);
    assert_eq!(elapsed_to_now_ms(u64::MAX), 0);
    assert!(elapsed_to_now_ms(0) > 1_000_000);
}

fn store(max_shares: u64) -> StrategyStore {
    let strategy = StrategyConfig {
        momentum_window_ms: 100,
        momentum_threshold_usd: b(8.0),
        buy_yes_momentum_threshold_usd: b(8.0),
        buy_no_momentum_threshold_usd: b(8.0),
        execution_latency_ms: 100,
        hold_ms: 5_000,
        exit_max_hold_ms: 15_000,
        exit_min_hold_ms: 2_000,
        exit_check_interval_ms: 250,
        exit_reversal_window_ms: 100,
        exit_reversal_threshold_usd: b(2.0),
        exit_take_profit_net_usd: b(0.0),
        exit_stop_loss_pct: b(-15.0),
        min_expected_price_move: b(0.05),
        entry_slippage: b(0.02),
        min_market_progress: b(0.05),
        max_market_progress: b(0.90),
        max_book_age_ms: 300,
    };
    let risk = RiskConfig {
        max_spread: b(0.02),
        max_notional_usd: b(100.0),
        max_shares: 500,
        max_open_positions: 5,
        daily_loss_limit_usd: b(500.0),
    };
    let mut store = StrategyStore::new(&strategy, &risk);
    store
        .update(&JavaStrategyConfig {
            config_version: "v1".into(),
            momentum_window_ms: 100,
            momentum_threshold_usd: b(8.0),
            buy_yes_momentum_threshold_usd: b(8.0),
            buy_no_momentum_threshold_usd: b(8.0),
            execution_latency_ms: 100,
            hold_ms: 5_000,
            min_expected_price_move: b(0.05),
            entry_slippage: b(0.02),
            entry_confirmation_ms: 1_000,
            min_entry_bid_improvement: b(0.01),
            min_exchange_shares: 5,
            min_progress: b(0.05),
            max_progress: b(0.9),
            max_spread: b(0.02),
            min_price: b(0.05),
            max_price: b(0.95),
            max_notional_usd: b(100.0),
            max_shares,
            daily_loss_limit_usd: b(500.0),
            up_outcome: "YES".into(),
            down_outcome: "NO".into(),
        })
        .unwrap();
    store
}

fn settings(max_shares: u64) -> StrategySnapshot {
    store(max_shares).load().unwrap()
}

fn market() -> ActiveMarket {
    ActiveMarket {
        slug: "m-1".into(),
        yes_asset_id: "123".into(),
        no_asset_id: "no".into(),
        open_ts_ms: 1_000,
        close_ts_ms: 101_000,
    }
}

fn clock() -> MarketClock {
    let mut clock = MarketClock::default();
    clock.update(&market());
    clock
}

fn book(bid: f64, ask: f64, at: u64) -> BookSnapshot {
    BookSnapshot {
        yes: OutcomeBook { bid: Some(b(bid)), ask: Some(b(ask)) },
        no: OutcomeBook { bid: Some(b(0.40)), ask: Some(b(0.42)) },
        received_at_ms: at,
        source_ts_ms: at - 1,
    }
}

fn signal(side: OrderSide) -> OrderSignal {
    OrderSignal::new(side, b(13.0), 19_900, b(60_000.0), 100, 1, 5_000)
}

fn running() -> HealthState {
    let mut health = HealthState::new();
    health.set_market_ready(true);
    health.start().unwrap();
    health
}

fn reserved() -> EngineState {
    let mut state = EngineState::new(5, b(500.0));
    state.try_reserve().unwrap();
    state
}

#[test]
fn an_entry_is_checked_again_when_it_is_due() {
    let config = settings(500);
    let yes = OrderSide::BuyYes;
    let check = |book: BookSnapshot, now: u64| revalidate_entry(book, now, &clock(), &config, yes);
    assert_eq!(check(book(0.49, 0.50, 20_000), 20_000), Some((b(0.50), 200)));
    assert_eq!(check(book(0.49, 0.50, 20_000), 20_300), Some((b(0.50), 200)));
    assert_eq!(check(book(0.49, 0.50, 20_000), 20_301), None);
    assert_eq!(check(book(0.49, 0.50, 95_000), 95_000), None);
    assert_eq!(check(book(0.46, 0.50, 20_000), 20_000), None);
    assert_eq!(check(book(0.50, 0.50, 20_000), 20_000), None);
    assert_eq!(check(book(0.95, 0.96, 20_000), 20_000), None);
    assert_eq!(check(book(0.03, 0.04, 20_000), 20_000), None);
    let mut half = book(0.49, 0.50, 20_000);
    half.yes.bid = None;
    assert_eq!(check(half, 20_000), None);
    assert_eq!(
        revalidate_entry(half, 20_000, &clock(), &config, OrderSide::BuyNo),
        Some((b(0.42), 238))
    );
}

fn depth(levels: &[(f64, f64)], at: u64) -> DepthSnapshot {
    let mut depth = DepthSnapshot::default();
    for (price, size) in levels {
        depth.yes.asks.push(DepthLevel { price: b(*price), size: b(*size) });
    }
    depth.received_at_ms = at;
    depth
}

#[test]
fn shares_on_offer_up_to_the_limit() {
    let depth = depth(&[(0.52, 12.0), (0.60, 100.0), (0.50, 1.5)], 0);
    assert_eq!(v(executable_ask_shares(&depth, OrderSide::BuyYes, b(0.55))), 13.5);
    assert_eq!(v(executable_ask_shares(&depth, OrderSide::BuyNo, b(0.55))), 0.0);
}

#[test]
fn the_end_of_a_position_is_decided() {
    let config = settings(500);
    let yes = OrderSide::BuyYes;
    let at = |bid: f64, momentum: Option<f64>, now: u64| {
        exit_decision(
            yes,
            20_000,
            b(0.50),
            b(10.0),
            &config,
            book(bid, bid + 0.01, now),
            momentum.map(b),
            now,
        )
    };
    assert!(at(0.50, Some(-3.0), 21_999).is_none());
    let decision = at(0.50, Some(-3.0), 22_000).unwrap();
    assert_eq!((decision.reason, decision.held_ms), ("momentum_reversal", 2_000));
    assert_eq!(decision.exit_momentum_usd, Some(b(-3.0)));
    assert_eq!(at(0.60, Some(-2.0), 22_000).unwrap().reason, "profit_reversal");
    assert!(at(0.60, Some(-1.9), 22_000).is_none());
    assert_eq!(at(0.40, None, 20_250).unwrap().reason, "stop_loss");
    assert_eq!(at(0.50, None, 35_000).unwrap().reason, "max_hold");
    assert!(at(0.50, None, 34_999).is_none());
    let stale = exit_decision(
        yes, 20_000, b(0.50), b(10.0), &config, book(0.1, 0.2, 21_000), None, 21_301,
    );
    assert!(stale.is_none());

    let mark = exit_mark(book(0.55, 0.56, 1_000), 1_000, yes, b(0.50), b(10.0), &config).unwrap();
    assert_eq!(v(mark.net_pnl), 0.15175);
    assert_eq!(v(mark.net_pnl_pct), 3.035);
    assert!(exit_mark(book(0.55, 0.56, 1_000), 1_000, yes, b(0.0), b(10.0), &config).is_none());
    assert!(adverse_reversal(OrderSide::BuyNo, Some(b(2.0)), b(2.0)));
    assert!(!adverse_reversal(OrderSide::BuyNo, Some(b(-2.0)), b(2.0)));
    assert!(!adverse_reversal(yes, None, b(2.0)));
}

fn reason(event: &AuditEvent) -> &'static str {
    match event {
        AuditEvent::ExecutionRejected { reason, .. } => reason,
        other => panic!("{other:?}"),
    }
}

fn context(event: &AuditEvent) -> &AuditBookContext {
    match event {
        AuditEvent::ExecutionRejected { context, .. } => context.as_ref().unwrap(),
        AuditEvent::LiveEntry { context, .. } => context.as_ref().unwrap(),
        AuditEvent::LiveExit { context, .. } => context.as_ref().unwrap(),
        AuditEvent::SignalAccepted { context, .. } => context.as_ref().unwrap(),
        other => panic!("{other:?}"),
    }
}

#[test]
fn a_signal_is_told_with_the_book() {
    let market = market();
    let event =
        signal_event(signal(OrderSide::BuyNo), book(0.49, 0.50, 20_000), 20_040, Some(&market));
    let context = context(&event);
    assert_eq!(context.market_slug.as_deref(), Some("m-1"));
    assert_eq!(context.token_id.as_deref(), Some("no"));
    assert_eq!(context.book_age_ms, 40);
    assert_eq!(context.selected_bid, Some(b(0.40)));
    assert!(matches!(event, AuditEvent::SignalAccepted { side: "BUY_NO", signal_ts_ms: 19_900, .. }));
}

fn dry_run(
    at: u64,
    health: &HealthState,
    store: &StrategyStore,
    state: &mut EngineState,
) -> DryRunStart {
    let book = book(0.49, 0.50, 20_000);
    dry_run_entry(signal(OrderSide::BuyYes), at, health, store, book, &clock(), state)
}

#[test]
fn a_dry_run_opens_and_closes_one_position() {
    let mut state = reserved();
    let (position, event) = match dry_run(20_000, &running(), &store(500), &mut state) {
        DryRunStart::Opened(position, event) => (position, event),
        other => panic!("{other:?}"),
    };
    assert!(matches!(
        event,
        AuditEvent::DryRunEntry {
            position_id: 1, signal_ts_ms: 19_900, executed_at_ms: 20_000, latency_ms: 100,
            side: "BUY_YES", shares: 200, ..
        }
    ));
    assert!(state.active_snapshot().opened);
    let decision = ExitDecision {
        reason: "max_hold",
        decided_at_ms: 35_000,
        held_ms: 15_000,
        exit_momentum_usd: Some(b(1.234567)),
    };
    let end = dry_run_close(
        signal(OrderSide::BuyYes),
        &position,
        &decision,
        book(0.55, 0.56, 34_900),
        &mut state,
        35_001,
    );
    match end {
        DryRunEnd::Closed(AuditEvent::DryRunExit {
            position_id, closed_at_ms, exit_reason, held_ms, exit_momentum_usd, net_pnl, ..
        }) => {
            assert_eq!((position_id, closed_at_ms, exit_reason, held_ms), (1, 35_001, "max_hold", 15_000));
            assert_eq!(exit_momentum_usd, Some(b(1.23457)));
            assert_eq!(v(net_pnl), 3.035);
        }
        other => panic!("{other:?}"),
    }
    assert_eq!(state.total_trades, 1);
    assert!(!state.active_snapshot().active);

    let request = shadow_request(
        1, &signal(OrderSide::BuyYes), 20_000, &decision, b(0.5), b(200.0),
        book(0.55, 0.56, 34_900), 5, 6,
    );
    assert_eq!((request.book_age_ms, request.event_exchange_timestamp_ms), (100, 34_899));
    assert_eq!((request.event_receive_ns, request.decision_processing_finished_ns), (5, 6));
}

#[test]
fn a_dry_run_task_ends_with_its_slot_free() {
    let signal = signal(OrderSide::BuyYes);
    let mut state = reserved();
    let task = DryRunTask::new(signal);
    assert!(matches!(task.work(), DryRunWork::Due));
    let (stage, event) = task.on_moment(
        20_000, &running(), &store(500), book(0.49, 0.50, 20_000), &clock(), &mut state,
    );
    assert!(matches!(event, Some(AuditEvent::DryRunEntry { .. })));
    let task = DryRunTask { signal, stage };
    assert!(matches!(task.work(), DryRunWork::Check(250)));
    let stage = task.on_check(book(0.50, 0.51, 20_250), None, 20_250);
    assert!(matches!(stage, DryRunStage::Holding(_)));
    let (stage, event) = task.on_close(book(0.50, 0.51, 20_250), 20_250, &mut state);
    assert!(matches!(stage, DryRunStage::Holding(_)) && event.is_none());
    let stage = DryRunTask { signal, stage }.on_check(book(0.30, 0.31, 20_500), None, 20_500);
    let task = DryRunTask { signal, stage };
    assert!(matches!(task.work(), DryRunWork::Close));
    assert_eq!((state.open_or_reserved, state.total_pnl_microusd), (1, 0));
    let (stage, event) = task.on_close(book(0.31, 0.32, 20_501), 20_502, &mut state);
    match event {
        Some(AuditEvent::DryRunExit { exit_reason, exit_price, net_pnl, .. }) => {
            assert_eq!((exit_reason, exit_price), ("stop_loss", b(0.31)));
            assert_eq!(state.total_pnl_microusd, (v(net_pnl) * 1e6).round() as i64);
        }
        other => panic!("{other:?}"),
    }
    assert!(matches!(DryRunTask { signal, stage }.work(), DryRunWork::Nothing));
    assert_eq!(state.open_or_reserved, 0);

    let mut state = reserved();
    let (stage, event) = DryRunTask::new(signal).on_moment(
        20_000, &HealthState::new(), &store(500), book(0.49, 0.50, 20_000), &clock(), &mut state,
    );
    assert_eq!(reason(&event.unwrap()), "engine_stopped");
    assert!(matches!(stage, DryRunStage::Finished));
    assert_eq!((state.open_or_reserved, state.total_pnl_microusd), (0, 0));
}

#[test]
fn a_dry_run_that_cannot_be_priced_is_released() {
    let position = DryRunPosition {
        position_id: 1,
        entry_at_ms: 20_000,
        entry_price: b(0.5),
        shares: 10,
        config: settings(500),
    };
    let decision = ExitDecision {
        reason: "max_hold",
        decided_at_ms: 35_000,
        held_ms: 15_000,
        exit_momentum_usd: None,
    };
    let mut unpriced = book(0.5, 0.51, 35_000);
    unpriced.yes.bid = None;
    for (book, expected) in [
        (book(0.5, 0.51, 34_699), "stale_exit_book_position_released"),
        (unpriced, "missing_exit_bid_position_released"),
    ] {
        let mut state = reserved();
        state.open_reserved();
        match dry_run_close(signal(OrderSide::BuyYes), &position, &decision, book, &mut state, 1) {
            DryRunEnd::Released(event) => assert_eq!(reason(&event), expected),
            other => panic!("{other:?}"),
        }
        assert!(!state.active_snapshot().active);
        assert_eq!(state.total_pnl_microusd, 0);
    }
}

#[test]
fn every_refused_dry_run_gives_its_reservation_back() {
    let empty = {
        let mut other = store(500);
        other.update(&JavaStrategyConfig {
            config_version: "v2".into(),
            momentum_window_ms: 100,
            momentum_threshold_usd: b(8.0),
            buy_yes_momentum_threshold_usd: b(8.0),
            buy_no_momentum_threshold_usd: b(8.0),
            execution_latency_ms: 100,
            hold_ms: 5_000,
            min_expected_price_move: b(0.05),
            entry_slippage: b(0.02),
            entry_confirmation_ms: 1_000,
            min_entry_bid_improvement: b(0.01),
            min_exchange_shares: 5,
            min_progress: b(0.05),
            max_progress: b(0.9),
            max_spread: b(0.02),
            min_price: b(0.05),
            max_price: b(0.95),
            max_notional_usd: b(100.0),
            max_shares: 500,
            daily_loss_limit_usd: b(500.0),
            up_outcome: "YES".into(),
            down_outcome: "NO".into(),
        })
        .unwrap();
        other
    };
    let stopped = HealthState::new();
    for (at, health, store, expected) in [
        (20_000, &stopped, &store(500), "engine_stopped"),
        (20_000, &running(), &empty, "config_changed"),
        (20_400, &running(), &store(500), "entry_revalidation"),
    ] {
        let mut state = reserved();
        match dry_run(at, health, store, &mut state) {
            DryRunStart::Rejected(event) => assert_eq!(reason(&event), expected),
            other => panic!("{other:?}"),
        }
        assert!(!state.active_snapshot().active);
    }
}

fn posted(success: bool, status: &str, making: f64, taking: f64) -> PostedOrder {
    PostedOrder {
        success,
        order_id: "o-1".into(),
        status: status.into(),
        error_msg: None,
        amounts: Amounts { making: Some(b(making)), taking: Some(b(taking)) },
    }
}

fn timed(response: PostedOrder) -> Result<TimedPost, String> {
    Ok(TimedPost { response, build_latency_ms: 1, sign_latency_ms: 2, post_latency_ms: 3 })
}

fn status(matched: f64) -> Result<OrderStatus, String> {
    Ok(OrderStatus { status: "LIVE".into(), size_matched: Some(b(matched)) })
}

fn text(fault: &Option<OrderFault>) -> String {
    fault.as_ref().unwrap().text()
}

#[test]
fn an_entry_that_fills_at_once_is_done() {
    let entry = GtcEntry::posted(10, b(0.5), timed(posted(true, "MATCHED", 4.5, 12.0)), 7);
    assert_eq!(entry.phase, EntryPhase::Done);
    assert_eq!(v(entry.result.filled_shares), 10.0);
    assert_eq!(v(entry.result.notional_usd), 4.5);
    assert_eq!(entry.result.submit_latency_ms, Some(7));
    assert!(!entry.result.pending && entry.result.error.is_none());
}

#[test]
fn an_entry_that_is_refused_holds_nothing() {
    let entry = GtcEntry::posted(10, b(0.5), Err("down".into()), 7);
    assert_eq!(entry.phase, EntryPhase::Done);
    assert_eq!(text(&entry.result.error), "down");
    assert_eq!(entry.result.order_id, None);
    let entry = GtcEntry::posted(10, b(0.5), timed(posted(false, "REJECTED", 0.0, 0.0)), 7);
    assert_eq!(text(&entry.result.error), "REJECTED");
    assert_eq!(entry.result.post_success, Some(false));
    assert_eq!(v(entry.result.filled_shares), 0.0);
}

#[test]
fn an_entry_is_polled_then_cancelled() {
    let mut entry = GtcEntry::posted(10, b(0.5), timed(posted(true, "LIVE", 0.0, 0.0)), 7);
    assert_eq!((entry.max_polls, entry.phase), (2, EntryPhase::Poll));
    entry.polled(status(4.0));
    entry.polled(status(3.0));
    assert_eq!((entry.result.poll_count, entry.phase), (2, EntryPhase::Cancel));
    assert_eq!(v(entry.result.filled_shares), 4.0);
    entry.cancelled(Ok(vec!["x".into(), "o-1".into()]));
    assert_eq!(entry.result.cancel_confirmed, Some(true));
    entry.finished(status(5.0));
    assert_eq!(entry.phase, EntryPhase::Done);
    assert_eq!(v(entry.result.filled_shares), 5.0);
    assert_eq!(v(entry.result.notional_usd), 2.5);
    assert!(!entry.result.pending);

    let entry = GtcEntry::posted(10, b(0.5), timed(posted(true, "MATCHED", 1.0, 2.0)), 7);
    assert_eq!(entry.max_polls, 8);
}

#[test]
fn an_entry_whose_end_is_unknown_is_pending() {
    let start = || GtcEntry::posted(10, b(0.5), timed(posted(true, "LIVE", 0.0, 0.0)), 7);
    let mut entry = start();
    entry.polled(Err("e".into()));
    assert!(entry.result.pending);
    assert_eq!(text(&entry.result.error), "GTC entry status failed: e");

    let to_cancel = || {
        let mut entry = start();
        entry.polled(status(1.0));
        entry.polled(status(1.0));
        entry
    };
    let mut entry = to_cancel();
    entry.cancelled(Err("e".into()));
    assert!(entry.result.pending);
    assert_eq!(text(&entry.result.error), "GTC entry cancel failed: e");
    let mut entry = to_cancel();
    entry.cancelled(Ok(vec![]));
    entry.finished(status(1.0));
    assert!(entry.result.pending);
    assert_eq!(text(&entry.result.error), "GTC entry cancellation was not confirmed");
    let mut entry = to_cancel();
    entry.cancelled(Ok(vec!["o-1".into()]));
    entry.finished(Err("e".into()));
    assert!(!entry.result.pending);
    assert_eq!(
        text(&entry.result.error),
        "GTC entry canceled order fill could not be verified: e"
    );
}

#[test]
fn a_limit_sale_is_repriced_down_to_the_floor() {
    let mut exit = GtcExit::start(b(10.009));
    let mut prices = vec![];
    for attempt in 0..4 {
        assert_eq!(exit.phase, ExitPhase::Price);
        exit.price(if attempt == 0 { Some(b(1.5)) } else { Some(b(0.4)) });
        prices.push(v(exit.limit_price));
        assert_eq!(v(exit.remaining_shares), 10.0 - attempt as f64);
        exit.placed(Ok(posted(true, "LIVE", 0.0, 0.0)));
        if attempt < 3 {
            for _ in 0..8 {
                assert_eq!(exit.phase, ExitPhase::Poll);
                exit.polled(status(1.0));
            }
            exit.cancelled(Ok(vec!["o-1".into()]));
            exit.finished(status(1.0));
        } else {
            for _ in 0..1_200 {
                assert_eq!(exit.phase, ExitPhase::Poll);
                exit.polled(status(0.0));
            }
        }
    }
    assert_eq!(prices, vec![0.99, 0.4, 0.4, 0.01]);
    assert_eq!(exit.phase, ExitPhase::Done);
    assert!(exit.result.pending);
    assert_eq!(text(&exit.result.error), "GTC floor order is still open");
    assert_eq!(v(exit.result.sold_shares), 3.0);
    assert_eq!(v(exit.result.sale_proceeds), 0.99 + 0.4 + 0.4);
}

#[test]
fn a_limit_sale_that_fails_says_how() {
    let placed = || {
        let mut exit = GtcExit::start(b(10.0));
        exit.price(None);
        assert_eq!(v(exit.limit_price), 0.01);
        exit.placed(Ok(posted(true, "LIVE", 0.0, 0.0)));
        exit
    };
    let to_cancel = || {
        let mut exit = placed();
        for _ in 0..8 {
            exit.polled(status(2.0));
        }
        exit
    };
    let mut exit = placed();
    exit.polled(Err("e".into()));
    assert_eq!((text(&exit.result.error).as_str(), exit.result.pending), ("GTC order status failed: e", true));
    let mut exit = to_cancel();
    exit.cancelled(Err("e".into()));
    assert_eq!((text(&exit.result.error).as_str(), exit.result.pending), ("GTC cancel failed: e", true));
    let mut exit = to_cancel();
    exit.cancelled(Ok(vec![]));
    exit.finished(status(2.0));
    assert_eq!((text(&exit.result.error).as_str(), exit.result.pending), ("GTC cancellation was not confirmed", true));
    let mut exit = to_cancel();
    exit.cancelled(Ok(vec!["o-1".into()]));
    exit.finished(Err("e".into()));
    assert_eq!(
        (text(&exit.result.error).as_str(), exit.result.pending),
        ("GTC canceled order fill could not be verified: e", false)
    );
    assert_eq!(v(exit.result.sold_shares), 2.0);
    let mut exit = GtcExit::start(b(10.0));
    exit.price(Some(b(0.5)));
    exit.placed(Err("e".into()));
    assert_eq!((text(&exit.result.error).as_str(), exit.phase), ("e", ExitPhase::Done));
    let mut exit = GtcExit::start(b(0.009));
    exit.price(Some(b(0.5)));
    assert_eq!(exit.phase, ExitPhase::Done);
}

#[test]
fn unsettled_balances_are_retried_with_growing_pauses() {
    let mut sale = LiveExit::start(b(10.0), b(0.5));
    let mut pauses = vec![];
    while let Some(offered) = sale.next_attempt() {
        assert_eq!(v(offered), 10.0);
        pauses.push(sale.replied(Err("not enough balance / allowance".into()), offered));
    }
    assert_eq!(pauses, vec![250, 500, 1_000, 2_000, 0]);
    assert!(sale.balance_retry_exhausted && sale.is_short());
    assert!(sale.fallback_shares().is_none());
    assert_eq!(sale.retries.len(), 5);
    assert_eq!(sale.retries[4].error_class, "balance_not_settled_exhausted");
}

#[test]
fn a_market_sale_is_tried_forty_times() {
    let mut sale = LiveExit::start(b(10.0), b(0.5));
    let mut tries = 0;
    while let Some(offered) = sale.next_attempt() {
        tries += 1;
        let reply = if tries == 3 {
            Ok(posted(true, "MATCHED", 4.0, 2.2))
        } else {
            Err("no orders found to match with FAK order".to_string())
        };
        assert_eq!(sale.replied(reply, offered), 250);
    }
    assert_eq!(tries, 40);
    assert_eq!(v(sale.sold_shares), 4.0);
    assert_eq!(v(sale.sale_proceeds), 4.0 * (2.2 / 4.0));
    assert_eq!(sale.fallback_shares(), Some(b(6.0)));

    let mut sale = LiveExit::start(b(10.0), b(0.5));
    let offered = sale.next_attempt().unwrap();
    assert_eq!(sale.replied(Ok(posted(true, "MATCHED", 12.0, 6.0)), offered), 0);
    assert_eq!(v(sale.sold_shares), 10.0);
    assert!(!sale.is_short());

    let mut sale = LiveExit::start(b(10.0), b(0.5));
    let offered = sale.next_attempt().unwrap();
    sale.replied(Err("boom".into()), offered);
    assert!(sale.next_attempt().is_none());
    assert_eq!(text(&sale.last_error), "boom");
}

struct Desk {
    health: HealthState,
    store: StrategyStore,
    state: EngineState,
    account: Account,
    book: BookSnapshot,
    depth: DepthSnapshot,
    market: Option<ActiveMarket>,
    now: u64,
    events: Vec<AuditEvent>,
}

impl Desk {
    fn new() -> Self {
        Desk {
            health: running(),
            store: store(10),
            state: reserved(),
            account: Account { funder_address: Some("0xf".into()), signature_type: "proxy".into() },
            book: book(0.49, 0.50, 20_000),
            depth: depth(&[(0.515, 12.0), (0.52, 1.0), (0.60, 100.0)], 21_000),
            market: Some(market()),
            now: 20_000,
            events: vec![],
        }
    }

    fn took(&mut self, signal: OrderSignal, step: (LiveStage, Option<AuditEvent>)) -> LiveTask {
        if let Some(event) = step.1 {
            self.events.push(event);
        }
        LiveTask { signal, stage: step.0 }
    }

    fn moment(&mut self, task: LiveTask) -> LiveTask {
        let signal = task.signal;
        let step = task.on_moment(
            self.now,
            &self.health,
            &self.store,
            self.book,
            &clock(),
            self.market.as_ref(),
            &self.depth,
            &mut self.state,
        );
        self.took(signal, step)
    }

    fn to_buying(&mut self) -> LiveTask {
        let task = LiveTask::new(signal(OrderSide::BuyYes));
        assert!(matches!(task.work(), LiveWork::Due));
        let task = self.moment(task);
        assert!(matches!(task.work(), LiveWork::Confirm(1_000)));
        self.now = 21_000;
        self.book = book(0.50, 0.51, 20_900);
        self.moment(task)
    }

    fn bought(&mut self, task: LiveTask, reply: Result<TimedPost, String>) -> LiveTask {
        let signal = task.signal;
        let step = task.on_bought(reply, 9, &self.account, &mut self.state, &mut self.health);
        self.took(signal, step)
    }

    fn stated(&mut self, task: LiveTask, reply: Result<OrderStatus, String>) -> LiveTask {
        let signal = task.signal;
        let step =
            task.on_status(reply, &self.account, self.now, &mut self.state, &mut self.health);
        self.took(signal, step)
    }

    fn cancelled(&mut self, task: LiveTask, reply: Result<Vec<String>, String>) -> LiveTask {
        let signal = task.signal;
        let step =
            task.on_cancelled(reply, &self.account, self.now, &mut self.state, &mut self.health);
        self.took(signal, step)
    }

    fn to_holding(&mut self) -> LiveTask {
        let task = self.to_buying();
        let task = self.bought(task, timed(posted(true, "MATCHED", 5.1, 10.0)));
        assert!(matches!(task.work(), LiveWork::Check(250)));
        task
    }

    fn check(&mut self, task: LiveTask) -> LiveTask {
        LiveTask { signal: task.signal, stage: task.on_check(self.book, None, self.now) }
    }

    fn plan(&mut self, task: LiveTask) -> LiveTask {
        assert!(matches!(task.work(), LiveWork::Plan));
        let signal = task.signal;
        let step = task.on_plan(self.book, &self.account, &mut self.health, &self.state);
        self.took(signal, step)
    }

    fn pause_over(&mut self, task: LiveTask) -> LiveTask {
        let signal = task.signal;
        let step = task.on_pause_over(self.now, &mut self.state, &mut self.health);
        self.took(signal, step)
    }

    fn to_selling(&mut self) -> LiveTask {
        let mut task = self.to_holding();
        self.now = 25_000;
        self.book = book(0.50, 0.51, 24_900);
        task = self.check(task);
        assert!(matches!(task.work(), LiveWork::Check(250)));
        self.now = 36_000;
        self.book = book(0.50, 0.51, 35_900);
        task = self.check(task);
        task = self.plan(task);
        assert!(matches!(task.work(), LiveWork::Pause(0)));
        self.pause_over(task)
    }

    fn last(&self) -> &AuditEvent {
        self.events.last().unwrap()
    }
}

#[test]
fn a_live_position_is_opened_and_sold() {
    let mut desk = Desk::new();
    let task = desk.to_buying();
    match task.work() {
        LiveWork::Buy(token, shares, limit) => {
            assert_eq!(token, (123, 0, 0, 0));
            assert_eq!(shares, 10);
            assert_eq!(v(limit), 0.51 + 0.02);
        }
        other => panic!("{other:?}"),
    }
    let task = desk.bought(task, timed(posted(true, "LIVE", 0.0, 0.0)));
    assert!(matches!(task.work(), LiveWork::Status(250, id) if id == "o-1"));
    let task = desk.stated(task, status(4.0));
    assert!(desk.events.is_empty());
    let task = desk.stated(task, status(10.0));
    match desk.last() {
        AuditEvent::LiveEntry { position_id, executed_at_ms, latency_ms, price, shares, .. } => {
            assert_eq!((*position_id, *executed_at_ms, *latency_ms), (1, 21_000, 1_100));
            assert_eq!((v(*price), v(*shares)), (0.53, 10.0));
        }
        other => panic!("{other:?}"),
    }
    let entry = context(desk.last());
    assert_eq!(entry.gtc_poll_count, Some(2));
    assert_eq!(entry.available_shares, Some(b(13.0)));
    assert_eq!(entry.required_shares, Some(b(12.5)));
    assert_eq!(entry.entry_submit_latency_ms, Some(9));
    assert_eq!(entry.entry_matched_funder_address.as_deref(), Some("0xf"));
    assert!(desk.state.active_snapshot().opened);

    desk.now = 36_000;
    desk.book = book(0.50, 0.51, 35_900);
    let task = desk.check(task);
    let task = desk.plan(task);
    let task = desk.pause_over(task);
    assert!(matches!(task.work(), LiveWork::Sell((123, 0, 0, 0), shares) if v(shares) == 10.0));
    let signal = task.signal;
    let stage = task.on_sold(Err("no orders found to match with FAK order".into()));
    let task = LiveTask { signal, stage };
    assert!(matches!(task.work(), LiveWork::Pause(250)));
    let task = desk.pause_over(task);
    let stage = task.on_sold(Ok(posted(true, "MATCHED", 10.0, 6.0)));
    let task = LiveTask { signal, stage };
    let task = desk.pause_over(task);
    assert!(matches!(task.work(), LiveWork::Nothing));
    match desk.last() {
        AuditEvent::LiveExit { exit_reason, exit_price, shares, net_pnl, held_ms, order_id, .. } => {
            assert_eq!((*exit_reason, *held_ms, order_id.as_str()), ("max_hold", 15_000, "o-1"));
            assert_eq!((v(*exit_price), v(*shares)), (0.6, 10.0));
            assert_eq!(v(*net_pnl), 0.35763);
        }
        other => panic!("{other:?}"),
    }
    assert_eq!(context(desk.last()).exit_attempts, Some(2));
    assert!(!desk.state.active_snapshot().active);
    assert!(!desk.health.is_faulted());
}

#[test]
fn a_limit_to_buy_goes_no_higher_than_95_cents() {
    let mut desk = Desk::new();
    desk.book = book(0.92, 0.93, 20_000);
    let task = LiveTask::new(signal(OrderSide::BuyYes));
    let task = desk.moment(task);
    desk.now = 21_000;
    desk.book = book(0.93, 0.94, 20_900);
    desk.depth = depth(&[(0.94, 5.0), (0.95, 8.0), (0.96, 100.0)], 21_000);
    let task = desk.moment(task);
    assert!(matches!(task.work(), LiveWork::Buy(_, 10, limit) if v(limit) == 0.95));
}

#[test]
fn every_refused_live_entry_gives_its_reservation_back() {
    let refuse = |prepare: fn(&mut Desk), change: fn(&mut Desk)| {
        let mut desk = Desk::new();
        prepare(&mut desk);
        let task = LiveTask::new(signal(OrderSide::BuyYes));
        let task = desk.moment(task);
        if matches!(task.stage, LiveStage::Confirming(_)) {
            desk.now = 21_000;
            desk.book = book(0.50, 0.51, 20_900);
            change(&mut desk);
            let task = desk.moment(task);
            assert!(matches!(task.stage, LiveStage::Finished));
        }
        assert!(!desk.state.active_snapshot().active);
        assert_eq!(desk.events.len(), 1);
        reason(desk.last())
    };
    let keep: fn(&mut Desk) = |_| {};
    assert_eq!(refuse(|d| d.health.stop(), keep), "engine_stopped");
    assert_eq!(refuse(|d| d.now = 20_400, keep), "entry_revalidation");
    assert_eq!(refuse(keep, |d| d.health.stop()), "engine_stopped");
    assert_eq!(refuse(keep, |d| d.book.received_at_ms = 20_000), "entry_confirmation_revalidation");
    assert_eq!(refuse(keep, |d| d.book.yes.bid = Some(b(0.495))), "entry_confirmation");
    assert_eq!(refuse(keep, |d| d.market = None), "market_missing");
    assert_eq!(
        refuse(keep, |d| d.market.as_mut().unwrap().yes_asset_id = "yes".into()),
        "invalid_token_id"
    );
    assert_eq!(refuse(|d| d.store = store(4), keep), "entry_below_exchange_min_size");
    assert_eq!(refuse(keep, |d| d.depth.yes.asks.truncate(1)), "insufficient_entry_depth");
    assert_eq!(refuse(keep, |d| d.depth.received_at_ms = 20_699), "insufficient_entry_depth");
}

#[test]
fn a_live_entry_without_fill_is_rejected() {
    let mut desk = Desk::new();
    let task = desk.to_buying();
    desk.bought(task, Err("refused".into()));
    assert_eq!(reason(desk.last()), "live_entry_zero_fill");
    assert_eq!(text(&context(desk.last()).exchange_error), "refused");
    assert!(!desk.state.active_snapshot().active);

    let mut desk = Desk::new();
    let task = desk.to_buying();
    let task = desk.bought(task, timed(posted(true, "LIVE", 0.0, 0.0)));
    desk.stated(task, Err("down".into()));
    assert_eq!(reason(desk.last()), "live_entry_gtc_pending");
    assert!(!desk.health.is_faulted());
}

#[test]
fn a_part_that_is_left_open_faults_the_engine() {
    let mut desk = Desk::new();
    let task = desk.to_buying();
    let task = desk.bought(task, timed(posted(true, "LIVE", 0.0, 0.0)));
    let task = desk.stated(task, status(4.0));
    let task = desk.stated(task, status(4.0));
    let task = desk.cancelled(task, Ok(vec![]));
    let task = desk.stated(task, status(4.0));
    assert!(matches!(task.stage, LiveStage::Holding(_)));
    assert!(desk.health.is_faulted());
}

#[test]
fn an_unsellable_position_stays_open_and_faults() {
    for (prepare, expected) in [
        (
            (|d: &mut Desk| d.book.received_at_ms = 35_000) as fn(&mut Desk),
            "live_exit_stale_book_position_open",
        ),
        (|d: &mut Desk| d.book.yes.bid = None, "live_exit_missing_bid_position_open"),
    ] {
        let mut desk = Desk::new();
        let task = desk.to_holding();
        desk.now = 36_000;
        desk.book = book(0.50, 0.51, 35_900);
        let task = desk.check(task);
        prepare(&mut desk);
        let task = desk.plan(task);
        assert!(matches!(task.stage, LiveStage::Finished));
        assert_eq!(reason(desk.last()), expected);
        assert!(desk.health.is_faulted());
        assert!(desk.state.active_snapshot().active);
    }

    let mut desk = Desk::new();
    let task = desk.to_buying();
    let task = desk.bought(task, timed(posted(true, "MATCHED", 0.004, 0.008)));
    let task = desk.stated(task, Err("e".into()));
    desk.now = 36_000;
    desk.book = book(0.50, 0.51, 35_900);
    let task = desk.check(task);
    desk.plan(task);
    assert_eq!(reason(desk.last()), "live_exit_unsellable_amount_position_open");
}

#[test]
fn a_sale_is_planned_by_the_book_after_its_decision() {
    let mut desk = Desk::new();
    let task = desk.to_holding();
    desk.now = 36_000;
    desk.book = book(0.50, 0.51, 35_900);
    let task = desk.check(task);
    assert!(matches!(&task.stage, LiveStage::Leaving(_, decision) if decision.reason == "max_hold"));
    desk.book = book(0.47, 0.49, 36_001);
    let task = desk.plan(task);
    match task.stage {
        LiveStage::Pausing(exiting, 0) => {
            assert_eq!(v(exiting.sale.exit_bid), 0.47);
            assert_eq!(exiting.context.book_received_at_ms, 36_001);
            assert_eq!(exiting.decision.decided_at_ms, 36_000);
        }
        other => panic!("{other:?}"),
    }
}

#[test]
fn a_sale_falls_back_on_limit_orders() {
    let mut desk = Desk::new();
    let task = desk.to_selling();
    let signal = task.signal;
    let task = LiveTask { signal, stage: task.on_sold(Err("boom".into())) };
    let task = desk.pause_over(task);
    assert!(matches!(task.work(), LiveWork::Bid));
    let step = task.on_bid(Some(b(0.48)), desk.now, &mut desk.state, &mut desk.health);
    let task = desk.took(signal, step);
    assert!(matches!(task.work(), LiveWork::Offer(_, shares, limit) if v(shares) == 10.0 && v(limit) == 0.48));
    let reply = Ok(posted(true, "MATCHED", 10.0, 5.0));
    let step = task.on_offered(reply, desk.now, &mut desk.state, &mut desk.health);
    desk.took(signal, step);
    match desk.last() {
        AuditEvent::LiveExit { exit_price, .. } => assert_eq!(v(*exit_price), 0.5),
        other => panic!("{other:?}"),
    }

    let mut desk = Desk::new();
    let task = desk.to_selling();
    let task = LiveTask { signal, stage: task.on_sold(Err("boom".into())) };
    let task = desk.pause_over(task);
    let step = task.on_bid(None, desk.now, &mut desk.state, &mut desk.health);
    let task = desk.took(signal, step);
    let step = task.on_offered(Err("no".into()), desk.now, &mut desk.state, &mut desk.health);
    desk.took(signal, step);
    assert_eq!(reason(desk.last()), "live_exit_gtc_failed_position_open");
    assert_eq!(text(&context(desk.last()).exchange_error), "no");
    assert!(desk.health.is_faulted());
    assert!(desk.state.active_snapshot().opened);
}

#[test]
fn an_open_limit_sale_is_told_as_pending() {
    let mut desk = Desk::new();
    let task = desk.to_selling();
    let signal = task.signal;
    let task = LiveTask { signal, stage: task.on_sold(Err("boom".into())) };
    let task = desk.pause_over(task);
    let step = task.on_bid(Some(b(0.48)), desk.now, &mut desk.state, &mut desk.health);
    let task = desk.took(signal, step);
    let reply = Ok(posted(true, "LIVE", 0.0, 0.0));
    let step = task.on_offered(reply, desk.now, &mut desk.state, &mut desk.health);
    let mut task = desk.took(signal, step);
    for _ in 0..8 {
        assert!(matches!(task.work(), LiveWork::Status(250, _)));
        task = desk.stated(task, status(2.0));
    }
    assert!(matches!(task.work(), LiveWork::Cancel(_)));
    let task = desk.cancelled(task, Err("e".into()));
    assert!(matches!(task.stage, LiveStage::Finished));
    assert_eq!(reason(desk.last()), "live_exit_gtc_pending_position_open");
    assert_eq!(context(desk.last()).filled_shares, Some(b(2.0)));
}

#[test]
fn a_balance_that_never_settles_needs_a_hand() {
    let mut desk = Desk::new();
    let mut task = desk.to_selling();
    let signal = task.signal;
    while matches!(task.work(), LiveWork::Sell(_, _)) {
        let stage = task.on_sold(Err("not enough balance / allowance".into()));
        task = desk.pause_over(LiveTask { signal, stage });
    }
    assert_eq!(reason(desk.last()), "manual_exit_required_balance_unavailable");
    assert_eq!(context(desk.last()).exit_retry_attempts.as_ref().unwrap().len(), 5);
    assert!(desk.state.active_snapshot().opened);
}

#[test]
fn lost_audit_events_fault_the_engine() {
    let mut health = running();
    assert!(emitted(true, &mut health));
    dispatched(true, true, &mut health);
    assert!(health.is_running());
    assert!(!emitted(false, &mut health));
    assert_eq!(health.snapshot().fault, "audit_backpressure");
    for (serialized, logged) in [(false, true), (true, false)] {
        let mut health = running();
        dispatched(serialized, logged, &mut health);
        assert!(health.is_faulted());
    }
    let session = engine_session_id(1_700, 42);
    assert_eq!(session, "engine-1700-42");
    let event = signal_event(signal(OrderSide::BuyYes), book(0.1, 0.2, 3), 4, None);
    let envelope = envelope(event, &session, "dry_run", 77, Some("v1".into()));
    assert_eq!((envelope.schema_version, envelope.source), (1, "polygo-engine"));
    assert_eq!((envelope.session_id.as_str(), envelope.emitted_at_ms), ("engine-1700-42", 77));
}
