use polygo_engine::binary64::Binary64;
use polygo_engine::config::ShadowConfig;
use polygo_engine::executor::types::OrderSide;
use polygo_engine::shadow::{
    annotate_policy, ask_queue_ahead, diff, executable_bid_vwap, pnl, policy_uses_maker,
    trade_supports_sell_fill, PolicyRun, ShadowExitEngine, ShadowExitRequest, ShadowOutcome,
    ShadowPolicy, ShadowState,
};
use polygo_engine::ws::polymarket::{
    BookSnapshot, DepthLevel, DepthSnapshot, OutcomeBook, TradePrint, TradeSide,
};

fn b(x: f64) -> Binary64 {
    Binary64 { bits: x.to_bits() }
}

fn v(x: Binary64) -> f64 {
    f64::from_bits(x.bits)
}

fn config() -> ShadowConfig {
    ShadowConfig {
        shadow_exit_enabled: true,
        shadow_execution_latency_ms: 100,
        shadow_maker_wait_ms: 1_000,
        shadow_cancel_latency_ms: 50,
        shadow_fallback_taker_latency_ms: 25,
        shadow_queue_ratio_threshold: b(2.0),
    }
}

fn request(reason: &'static str) -> ShadowExitRequest {
    ShadowExitRequest {
        position_id: 7,
        side: OrderSide::BuyYes,
        entry_ms: 1_000,
        decision_ms: 10_000,
        exit_reason: reason,
        entry_price: b(0.50),
        shares: b(10.0),
        decision_processing_started_ns: 1,
        decision_processing_finished_ns: 2,
        event_receive_ns: 1,
        event_exchange_timestamp_ms: 9_999,
        book_age_ms: 5,
    }
}

fn book(bid: f64, ask: f64) -> BookSnapshot {
    BookSnapshot {
        yes: OutcomeBook { bid: Some(b(bid)), ask: Some(b(ask)) },
        no: OutcomeBook { bid: None, ask: None },
        received_at_ms: 10_500,
        source_ts_ms: 10_499,
    }
}

fn depth(bids: &[(f64, f64)], asks: &[(f64, f64)]) -> DepthSnapshot {
    let level = |pair: &(f64, f64)| DepthLevel { price: b(pair.0), size: b(pair.1) };
    let mut depth = DepthSnapshot::default();
    depth.yes.bids = bids.iter().map(level).collect();
    depth.yes.asks = asks.iter().map(level).collect();
    depth.received_at_ms = 10_500;
    depth
}

fn trade(price: f64, size: f64, at: u64) -> TradePrint {
    TradePrint {
        is_yes: true,
        side: TradeSide::Buy,
        price: b(price),
        size: b(size),
        received_at_ms: at,
        source_ts_ms: at,
    }
}

#[test]
fn policies_differ_by_reason() {
    assert!(policy_uses_maker(ShadowPolicy::PolicyE, "profit_reversal"));
    assert!(!policy_uses_maker(ShadowPolicy::PolicyE, "momentum_reversal"));
    assert!(policy_uses_maker(ShadowPolicy::PolicyD, "momentum_reversal"));
    assert!(policy_uses_maker(ShadowPolicy::PolicyD, "profit_reversal"));
    assert!(!policy_uses_maker(ShadowPolicy::PolicyD, "stop_loss"));
    assert_eq!(ShadowPolicy::PolicyE.as_str(), "policy_e");
}

#[test]
fn only_buys_within_the_window_support_a_fill() {
    let supports = |t: TradePrint| trade_supports_sell_fill(t, OrderSide::BuyYes, b(0.5), 100, 200);
    assert!(supports(trade(0.5, 1.0, 100)));
    assert!(supports(trade(0.5, 1.0, 200)));
    assert!(!supports(trade(0.5, 1.0, 201)));
    assert!(!supports(trade(0.5, 1.0, 99)));
    assert!(!supports(trade(0.4999, 1.0, 150)));
    assert!(!supports(TradePrint { is_yes: false, ..trade(0.5, 1.0, 150) }));
    assert!(!supports(TradePrint { side: TradeSide::Sell, ..trade(0.5, 1.0, 150) }));
}

#[test]
fn the_best_bids_are_taken_first() {
    let depth = depth(&[(0.40, 100.0), (0.50, 4.0), (0.45, 4.0)], &[(0.51, 3.0), (0.52, 9.0)]);
    let take = |shares: f64, at: u64| {
        executable_bid_vwap(&depth, book(0.5, 0.51), OrderSide::BuyYes, b(shares), at)
    };
    assert_eq!(take(10.0, 11_000).map(v), Ok((4.0 * 0.50 + 4.0 * 0.45 + 2.0 * 0.40) / 10.0));
    assert_eq!(take(0.0, 11_000).map(v), Ok(0.0));
    assert_eq!(take(109.0, 11_000), Err("missing_fallback_book"));
    assert_eq!(take(1.0, 11_501), Err("missing_fallback_book"));
    assert_eq!(v(ask_queue_ahead(&depth.yes, b(0.51))), 3.0);
}

#[test]
fn profit_and_its_difference() {
    let taker = pnl(b(0.50), b(10.0), b(0.0), b(0.0), b(10.0), b(0.55));
    assert_eq!(v(taker.entry_notional), 5.0);
    assert_eq!(v(taker.entry_fee), 0.175);
    assert_eq!(v(taker.fallback_exit_fee), 0.17325);
    assert_eq!(v(taker.net_pnl), 0.15175);
    let maker = pnl(b(0.50), b(10.0), b(10.0), b(0.56), b(0.0), b(0.0));
    let gap = diff(&maker, &taker);
    assert_eq!(v(gap.price_component), 0.1);
    assert_eq!(v(gap.fee_component), 0.00077);
    assert_eq!(v(gap.net_pnl_diff), 0.10077);
}

#[test]
fn the_baseline_takes_at_once() {
    let engine = ShadowExitEngine::new(config());
    assert!(engine.enabled());
    let request = request("max_hold");
    assert_eq!(engine.taker_active_ms(&request), 10_100);
    let bids = depth(&[(0.55, 20.0)], &[]);
    let result = engine.simulate_taker(&request, "baseline", &bids, book(0.55, 0.56));
    assert_eq!(result.state, ShadowState::Completed);
    assert_eq!(result.outcome, ShadowOutcome::TakerBypass);
    assert_eq!(v(result.pnl.net_pnl), 0.15175);
    assert_eq!(result.decision_to_completion_ms, Some(100));
    let none = engine.simulate_taker(&request, "baseline", &depth(&[], &[]), book(0.55, 0.56));
    assert_eq!(none.state, ShadowState::InsufficientData);
    assert_eq!(none.selection_reason, "missing_taker_active_book");
}

fn resting() -> PolicyRun {
    let mut run = PolicyRun::start(config(), request("profit_reversal"), ShadowPolicy::PolicyE);
    assert_eq!(run.wait_until(), Some(10_100));
    run.deadline_reached(book(0.54, 0.60), &depth(&[(0.54, 50.0)], &[(0.55, 5.0), (0.60, 9.0)]));
    assert_eq!(run.result.state, ShadowState::MakerResting);
    assert_eq!(run.result.limit_price, Some(b(0.55)));
    assert_eq!(run.result.queue_ahead, Some(b(5.0)));
    assert_eq!(run.wait_until(), Some(11_100));
    run
}

#[test]
fn a_resting_order_is_filled_behind_its_queue() {
    let mut run = resting();
    run.trade(trade(0.55, 8.0, 10_200));
    assert_eq!(v(run.result.maker_filled_shares), 3.0);
    run.trade(trade(0.54, 80.0, 10_201));
    assert_eq!(v(run.result.maker_filled_shares), 3.0);
    run.trade(trade(0.56, 7.0, 10_300));
    assert_eq!(run.result.state, ShadowState::Completed);
    assert_eq!(run.result.outcome, ShadowOutcome::FullFillTradeSupported);
    assert_eq!(run.result.decision_to_completion_ms, Some(300));
    assert_eq!(run.result.maker_active_to_completion_ms, Some(200));
    assert_eq!(run.wait_until(), None);
}

#[test]
fn what_is_left_is_taken_after_the_cancel() {
    let mut run = resting();
    run.trade(trade(0.55, 9.0, 10_200));
    let book = book(0.54, 0.60);
    let depth = depth(&[(0.54, 50.0)], &[]);
    run.deadline_reached(book, &depth);
    assert_eq!(run.result.state, ShadowState::CancelPending);
    assert_eq!(run.wait_until(), Some(11_150));
    run.deadline_reached(book, &depth);
    assert_eq!(run.wait_until(), Some(11_175));
    run.deadline_reached(book, &depth);
    assert_eq!(run.result.outcome, ShadowOutcome::PartialFillTradeSupported);
    assert_eq!(v(run.result.fallback_taker_shares), 6.0);
    assert_eq!(run.result.fallback_taker_vwap, Some(b(0.54)));
    assert_eq!(run.result.decision_to_completion_ms, Some(1_175));
}

#[test]
fn an_order_that_may_not_rest_is_taken() {
    let mut run = PolicyRun::start(config(), request("profit_reversal"), ShadowPolicy::PolicyD);
    run.deadline_reached(book(0.54, 0.55), &depth(&[(0.54, 50.0)], &[(0.55, 5.0)]));
    assert_eq!(run.result.selection_reason, "post_only_rejected");
    assert_eq!(run.wait_until(), Some(11_175));
    run.deadline_reached(book(0.54, 0.55), &depth(&[(0.54, 50.0)], &[]));
    assert_eq!(run.result.outcome, ShadowOutcome::PostOnlyRejected);

    let mut run = PolicyRun::start(config(), request("profit_reversal"), ShadowPolicy::PolicyD);
    run.deadline_reached(book(0.54, 0.60), &depth(&[(0.54, 50.0)], &[(0.55, 21.0)]));
    assert_eq!(run.result.selection_reason, "queue_ratio_above_threshold");
    assert_eq!(run.wait_until(), Some(10_100));
    run.deadline_reached(book(0.54, 0.60), &depth(&[(0.54, 50.0)], &[]));
    assert_eq!(run.result.outcome, ShadowOutcome::TakerBypass);
}

#[test]
fn a_run_without_data_says_so() {
    for (closed, reason) in [(false, "trade_stream_lagged"), (true, "trade_stream_closed")] {
        let mut run = resting();
        run.trades_lost(closed);
        assert_eq!(run.result.selection_reason, reason);
        assert_eq!(run.result.state, ShadowState::InsufficientData);
        assert_eq!(run.wait_until(), None);
    }
    let mut run = PolicyRun::start(config(), request("profit_reversal"), ShadowPolicy::PolicyE);
    run.deadline_reached(BookSnapshot::default(), &DepthSnapshot::default());
    assert_eq!(run.result.selection_reason, "missing_taker_active_book");
}

#[test]
fn a_record_compares_the_policies() {
    let engine = ShadowExitEngine::new(config());
    let request = request("profit_reversal");
    let bids = depth(&[(0.55, 20.0)], &[]);
    let baseline = engine.simulate_taker(&request, "baseline", &bids, book(0.55, 0.56));
    let mut run = resting();
    run.trade(trade(0.56, 40.0, 10_200));
    let low = depth(&[(0.45, 20.0)], &[]);
    let loser = engine.simulate_taker(&request, "policy_d", &low, book(0.45, 0.56));
    let record = engine.simulate(&request, baseline, run.result, loser);
    assert_eq!((record.position_id, record.side), (7, "BUY_YES"));
    assert_eq!(record.baseline_taker_active_ms, 10_100);
    assert_eq!(record.policy_e_maker_timeout_ms, Some(11_100));
    assert_eq!(record.policy_d_maker_active_ms, None);
    assert_eq!(v(record.policy_e_diff_vs_baseline.net_pnl_diff), 0.0);
    assert!(record.policy_e.policy_positive && !record.policy_e.sign_flip);
    assert!(record.policy_d.sign_flip);
    assert_eq!(v(record.entry_notional), 5.0);

    let mut alone = run.result;
    annotate_policy(&mut alone, b(-1.0), b(0.25));
    assert!(!alone.baseline_positive && !alone.sign_flip);
    assert_eq!(v(alone.incremental_diff), 0.25);
}
