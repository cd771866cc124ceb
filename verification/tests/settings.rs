use polygo_engine::binary64::Binary64;
use polygo_engine::config::{
    execution_mode_override, nonempty, ControlConfig, EngineConfig, ExecutionMode,
    IntegrationConfig, MarketConfig, RiskConfig, StrategyConfig,
};
use polygo_engine::executor::client::{parse_signature_type, token_words, SignatureType, WarmUp};
use polygo_engine::market::ActiveMarket;
use polygo_engine::runtime_config::{JavaStrategyConfig, StrategyStore};
use polygo_engine::stats::{percentile, summarize};

fn b(x: f64) -> Binary64 {
    Binary64 { bits: x.to_bits() }
}

fn strategy() -> StrategyConfig {
    StrategyConfig {
        momentum_window_ms: 100,
        momentum_threshold_usd: b(8.0),
        buy_yes_momentum_threshold_usd: b(12.0),
        buy_no_momentum_threshold_usd: b(8.0),
        execution_latency_ms: 100,
        hold_ms: 5_000,
        exit_max_hold_ms: 15_000,
        exit_min_hold_ms: 2_000,
        exit_check_interval_ms: 250,
        exit_reversal_window_ms: 100,
        exit_reversal_threshold_usd: b(2.0),
        exit_take_profit_net_usd: b(0.0),
        exit_stop_loss_pct: b(-15.0),
        min_expected_price_move: b(0.05),
        entry_slippage: b(0.02),
        min_market_progress: b(0.05),
        max_market_progress: b(0.9),
        max_book_age_ms: 300,
    }
}

fn risk() -> RiskConfig {
    RiskConfig {
        max_spread: b(0.02),
        max_notional_usd: b(100.0),
        max_shares: 500,
        max_open_positions: 5,
        daily_loss_limit_usd: b(500.0),
    }
}

fn engine() -> EngineConfig {
    EngineConfig {
        execution_mode: ExecutionMode::DryRun,
        market: MarketConfig {
            gamma_base_url: "https://gamma-api.polymarket.com".into(),
            slug_prefix: "btc-updown-5m".into(),
            interval_seconds: 300,
            discovery_poll_ms: 1_000,
        },
        strategy: strategy(),
        risk: risk(),
        integration: IntegrationConfig { java_audit_endpoint: None },
        control: ControlConfig { bind_addr: "127.0.0.1:0".into() },
    }
}

fn fixture() -> JavaStrategyConfig {
    JavaStrategyConfig {
        config_version: "momentum-v1".into(),
        momentum_window_ms: 100,
        momentum_threshold_usd: b(8.0),
        buy_yes_momentum_threshold_usd: b(12.0),
        buy_no_momentum_threshold_usd: b(8.0),
        execution_latency_ms: 100,
        hold_ms: 5_000,
        min_expected_price_move: b(0.05),
        entry_slippage: b(0.02),
        entry_confirmation_ms: 1_000,
        min_entry_bid_improvement: b(0.01),
        min_exchange_shares: 5,
        min_progress: b(0.05),
        max_progress: b(0.9),
        max_spread: b(0.02),
        min_price: b(0.05),
        max_price: b(0.95),
        max_notional_usd: b(100.0),
        max_shares: 500,
        daily_loss_limit_usd: b(500.0),
        up_outcome: "YES".into(),
        down_outcome: "NO".into(),
    }
}

#[test]
fn update_publishes_coherent_snapshot_and_version() {
    let mut store = StrategyStore::new(&strategy(), &risk());
    assert!(store.load().is_none());
    let config = fixture();
    assert_eq!(store.update(&config), Ok(1));
    let snapshot = store.load().unwrap();
    assert_eq!(snapshot.momentum_window_ms, 100);
    assert_eq!(snapshot.entry_confirmation_ms, 1_000);
    assert_eq!(snapshot.min_entry_bid_improvement, b(0.01));
    assert_eq!(snapshot.min_exchange_shares, 5);
    assert_eq!(snapshot.max_shares, 500);
    assert!(store.version_matches("momentum-v1"));
}

#[test]
fn an_update_keeps_what_it_does_not_speak_of() {
    let mut store = StrategyStore::new(&strategy(), &risk());
    assert_eq!(store.version(), None);
    assert!(!store.version_matches(""));
    store.update(&fixture()).unwrap();
    let mut next = fixture();
    next.config_version = "momentum-v2".into();
    next.max_shares = 7;
    assert_eq!(store.update(&next), Ok(2));
    let snapshot = store.load().unwrap();
    assert_eq!(snapshot.generation, 2);
    assert_eq!(snapshot.max_shares, 7);
    assert_eq!(snapshot.exit_max_hold_ms, 15_000);
    assert_eq!(snapshot.max_book_age_ms, 300);
    assert_eq!(store.version(), Some("momentum-v2".to_string()));
    assert!(!store.version_matches("momentum-v1"));
}

#[test]
fn a_refused_update_changes_nothing() {
    let mut store = StrategyStore::new(&strategy(), &risk());
    store.update(&fixture()).unwrap();
    let before = store.load();
    let mut bad = fixture();
    bad.max_shares = 0;
    assert_eq!(store.update(&bad), Err("invalid_strategy_limits"));
    assert_eq!(store.load(), before);
    assert!(store.version_matches("momentum-v1"));
}

#[test]
fn every_refusal_is_named() {
    let check = |change: fn(&mut JavaStrategyConfig)| {
        let mut config = fixture();
        change(&mut config);
        config.validate()
    };
    assert_eq!(check(|_| {}), Ok(()));
    assert_eq!(check(|c| c.config_version = " \u{2003}\t".into()), Err("invalid_config_version"));
    assert_eq!(check(|c| c.config_version = "x".repeat(129)), Err("invalid_config_version"));
    assert_eq!(check(|c| c.config_version = "x".repeat(128)), Ok(()));
    assert_eq!(check(|c| c.config_version = "\u{e9}".repeat(65)), Err("invalid_config_version"));
    assert_eq!(check(|c| c.hold_ms = 0), Err("invalid_strategy_limits"));
    assert_eq!(check(|c| c.momentum_threshold_usd = b(f64::NAN)), Err("invalid_strategy_limits"));
    assert_eq!(check(|c| c.max_notional_usd = b(f64::INFINITY)), Err("invalid_strategy_limits"));
    assert_eq!(check(|c| c.min_expected_price_move = b(-0.01)), Err("invalid_min_expected_price_move"));
    assert_eq!(check(|c| c.min_expected_price_move = b(-0.0)), Ok(()));
    assert_eq!(check(|c| c.entry_slippage = b(0.21)), Err("invalid_entry_slippage"));
    assert_eq!(check(|c| c.entry_slippage = b(0.20)), Ok(()));
    assert_eq!(check(|c| c.entry_confirmation_ms = 0), Err("invalid_entry_confirmation"));
    assert_eq!(check(|c| c.min_exchange_shares = 0), Err("invalid_entry_confirmation"));
    assert_eq!(check(|c| c.min_progress = b(0.9)), Err("invalid_progress_range"));
    assert_eq!(check(|c| c.max_progress = b(1.01)), Err("invalid_progress_range"));
    assert_eq!(check(|c| c.max_spread = b(-0.01)), Err("invalid_max_spread"));
    assert_eq!(check(|c| c.min_price = b(0.95)), Err("invalid_price_range"));
    assert_eq!(check(|c| c.up_outcome = "UP".into()), Err("invalid_outcome_mapping"));
    assert_eq!(check(|c| c.down_outcome = "no".into()), Err("invalid_outcome_mapping"));
}

#[test]
fn the_engine_configuration_is_checked_part_by_part() {
    assert_eq!(engine().validate(), Ok(()));
    let mut config = engine();
    config.market.interval_seconds = 0;
    assert_eq!(config.validate(), Err("invalid market discovery config"));
    let mut config = engine();
    config.strategy.exit_min_hold_ms = 15_001;
    assert_eq!(config.validate(), Err("invalid strategy limits"));
    let mut config = engine();
    config.strategy.exit_stop_loss_pct = b(-100.5);
    assert_eq!(config.validate(), Err("invalid strategy limits"));
    let mut config = engine();
    config.strategy.exit_stop_loss_pct = b(-100.0);
    assert_eq!(config.validate(), Ok(()));
    let mut config = engine();
    config.risk.max_open_positions = 0;
    assert_eq!(config.validate(), Err("invalid risk limits"));
    let mut config = engine();
    config.control.bind_addr = String::new();
    assert_eq!(config.validate(), Err("invalid control config"));
    let resolved = engine().resolve(Some(ExecutionMode::Live)).unwrap();
    assert_eq!(resolved.execution_mode.as_str(), "live");
    assert_eq!(engine().resolve(None).unwrap().execution_mode.as_str(), "dry_run");
}

#[test]
fn the_environment_names_the_mode() {
    assert_eq!(execution_mode_override(None, None), Ok(None));
    assert_eq!(execution_mode_override(Some("  "), None), Ok(None));
    assert_eq!(execution_mode_override(Some(" Dry-Run "), None), Ok(Some(ExecutionMode::DryRun)));
    assert_eq!(execution_mode_override(Some(""), Some("LIVE")), Ok(Some(ExecutionMode::Live)));
    assert_eq!(execution_mode_override(Some("dryrun"), Some("live")), Ok(Some(ExecutionMode::DryRun)));
    assert_eq!(
        execution_mode_override(Some("paper"), Some("live")),
        Err("invalid POLYGO_ENGINE_EXECUTION_MODE")
    );
    assert_eq!(nonempty(Some("\u{3000}")), None);
    assert_eq!(nonempty(Some("a")), Some("a"));
}

#[test]
fn signatures() {
    assert_eq!(parse_signature_type(None, true), Ok(SignatureType::Poly1271));
    assert_eq!(parse_signature_type(None, false), Ok(SignatureType::Eoa));
    assert_eq!(parse_signature_type(Some("proxy"), true), Ok(SignatureType::Proxy));
    assert_eq!(parse_signature_type(Some("2"), true), Ok(SignatureType::GnosisSafe));
    assert_eq!(parse_signature_type(Some("Proxy"), true), Err("invalid POLYMARKET_SIGNATURE_TYPE"));
}

#[test]
fn tokens_are_numbers_of_256_bits() {
    assert_eq!(token_words("7"), Ok((7, 0, 0, 0)));
    assert_eq!(token_words("18446744073709551616"), Ok((0, 1, 0, 0)));
    assert_eq!(token_words("0x10"), Ok((16, 0, 0, 0)));
    assert_eq!(
        token_words("115792089237316195423570985008687907853269984665640564039457584007913129639935"),
        Ok((u64::MAX, u64::MAX, u64::MAX, u64::MAX))
    );
    assert_eq!(
        token_words("115792089237316195423570985008687907853269984665640564039457584007913129639936"),
        Err("invalid warm-up token id")
    );
    assert_eq!(token_words("yes"), Err("invalid warm-up token id"));
}

#[test]
fn the_client_prepares_once_for_a_market() {
    let market = ActiveMarket {
        slug: "m-1".into(),
        yes_asset_id: "1".into(),
        no_asset_id: "2".into(),
        open_ts_ms: 0,
        close_ts_ms: 1,
    };
    let mut warm = WarmUp::new();
    assert!(warm.due(&market));
    warm.warmed(&market, false);
    assert!(warm.due(&market));
    warm.warmed(&market, true);
    assert!(!warm.due(&market));
}

#[test]
fn percentiles() {
    let mut values = vec![5, -3, 9, 1, 7, 7, 2, 0, 4, 8];
    let summary = summarize(&mut values).unwrap();
    assert_eq!(values, vec![-3, 0, 1, 2, 4, 5, 7, 7, 8, 9]);
    assert_eq!((summary.count, summary.p50, summary.p95, summary.p99), (10, 4, 8, 8));
    assert_eq!((summary.min, summary.max), (-3, 9));
    assert_eq!(percentile(&values, 100), 9);
    assert!(summarize(&mut Vec::new()).is_none());
}
