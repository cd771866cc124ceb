use polygo_engine::binary64::Binary64;
use polygo_engine::config::MarketConfig;
use polygo_engine::health::HealthState;
use polygo_engine::market::{
    event_url, json_string_array, market_slug, now_ms, select_market, window_start, ActiveMarket,
    GammaMarket, MarketClock, MarketWatch, StringArray,
};
use polygo_engine::time::epoch_ms;

fn b(x: f64) -> Binary64 {
    Binary64 { bits: x.to_bits() }
}

#[test]
fn clock_enforces_progress() {
    let mut clock = MarketClock::default();
    clock.update(&ActiveMarket {
        slug: "test".into(),
        yes_asset_id: "up".into(),
        no_asset_id: "down".into(),
        open_ts_ms: 1_000,
        close_ts_ms: 2_000,
    });
    assert!(!clock.progress_allowed(1_049, b(0.05), b(0.90)));
    assert!(clock.progress_allowed(1_050, b(0.05), b(0.90)));
    assert!(clock.progress_allowed(1_900, b(0.05), b(0.90)));
    assert!(!clock.progress_allowed(1_901, b(0.05), b(0.90)));
}

#[test]
fn clock_is_closed_outside_of_the_window() {
    let clock = MarketClock { open_ts_ms: 1_000, close_ts_ms: 2_000, configured: true };
    assert!(!clock.progress_allowed(999, b(-1.0), b(2.0)));
    assert!(clock.progress_allowed(1_000, b(0.0), b(1.0)));
    assert!(clock.progress_allowed(2_000, b(0.0), b(1.0)));
    assert!(!clock.progress_allowed(2_001, b(0.0), b(2.0)));
    assert!(!clock.progress_allowed(1_500, b(f64::NAN), b(1.0)));
    assert!(!MarketClock::default().progress_allowed(0, b(0.0), b(1.0)));
    let flat = MarketClock { open_ts_ms: 5, close_ts_ms: 5, configured: true };
    assert!(!flat.progress_allowed(5, b(0.0), b(1.0)));
}

fn listed(outcomes: &[&str], tokens: &[&str]) -> GammaMarket {
    GammaMarket {
        outcomes: outcomes.iter().map(|s| s.to_string()).collect(),
        clob_token_ids: tokens.iter().map(|s| s.to_string()).collect(),
        active: true,
        closed: false,
        enable_order_book: true,
    }
}

#[test]
fn markets_are_selected_by_their_labels() {
    let mut closed = listed(&["Up", "Down"], &["1", "2"]);
    closed.closed = true;
    let markets = vec![closed, listed(&["DOWN", "uP"], &["3", "4"])];
    let market = select_market(&markets, "m-300".into(), 300, 300).unwrap();
    assert_eq!(market.yes_asset_id, "4");
    assert_eq!(market.no_asset_id, "3");
    assert_eq!((market.open_ts_ms, market.close_ts_ms), (300_000, 600_000));
    assert_eq!(market.slug, "m-300");

    let select = |m: GammaMarket| select_market(&vec![m], "m".into(), 0, 1).map(|_| ());
    assert_eq!(
        select_market(&Vec::new(), "m".into(), 0, 1).map(|_| ()),
        Err("Gamma event has no active orderbook market")
    );
    assert_eq!(select(listed(&["yes"], &["1", "2"])), Err("Gamma outcomes/token IDs length mismatch"));
    assert_eq!(select(listed(&["maybe", "no"], &["1", "2"])), Err("Gamma market has no UP/YES outcome"));
    assert_eq!(select(listed(&["yes", "maybe"], &["1", "2"])), Err("Gamma market has no DOWN/NO outcome"));
}

#[test]
fn windows_and_names() {
    assert_eq!(window_start(1_710_000_123_456, 300), 1_710_000_000);
    assert_eq!(window_start(299_999, 300), 0);
    assert_eq!(market_slug("btc-updown-5m", 1_710_000_000), "btc-updown-5m-1710000000");
    assert_eq!(market_slug("x", 0), "x-0");
    assert_eq!(
        event_url("https://gamma-api.polymarket.com//", "m-1"),
        "https://gamma-api.polymarket.com/events/slug/m-1"
    );
}

#[test]
fn each_window_is_discovered_once() {
    let config = MarketConfig {
        gamma_base_url: "u".into(),
        slug_prefix: "m".into(),
        interval_seconds: 300,
        discovery_poll_ms: 1,
    };
    let mut watch = MarketWatch::new();
    let mut clock = MarketClock::default();
    let mut health = HealthState::new();
    health.set_market_ready(true);
    let wanted = watch.due(&config, 600_000).unwrap();
    assert_eq!((wanted.slug.as_str(), wanted.window_start_seconds), ("m-600", 600));
    assert!(watch.discovered(Err("x"), &mut clock, &mut health).is_none());
    assert!(!health.market_ready());
    assert!(watch.due(&config, 600_000).is_some());
    let found = select_market(&vec![listed(&["up", "down"], &["1", "2"])], wanted.slug, 600, 300);
    health.set_market_ready(true);
    assert_eq!(watch.discovered(found, &mut clock, &mut health).unwrap().yes_asset_id, "1");
    assert!(!health.market_ready());
    assert_eq!((clock.open_ts_ms, clock.close_ts_ms), (600_000, 900_000));
    assert!(watch.due(&config, 899_999).is_none());
    assert!(watch.due(&config, 900_000).is_some());
}

#[test]
fn the_clock_counts_milliseconds() {
    assert_eq!(epoch_ms(Some(5)), 5);
    assert_eq!(epoch_ms(Some(1 << 64)), 0);
    assert_eq!(epoch_ms(None), 0);
    let a = now_ms();
    assert!(a > 1_600_000_000_000);
    assert!(now_ms() >= a);
}

#[test]
fn lists_come_plain_or_within_a_text() {
    let read = |json: &str| json_string_array(StringArray::Json(json.to_string()));
    assert_eq!(read(r#"["Up", "Down \u0041"]"#).unwrap(), vec!["Up", "Down A"]);
    assert!(read("[]").unwrap().is_empty());
    assert!(read("Up").is_err());
    assert!(read(r#"["Up", 1]"#).is_err());
    assert!(read(r#"["Up"] x"#).is_err());
    let plain = StringArray::Array(vec!["[".to_string()]);
    assert_eq!(json_string_array(plain).unwrap(), vec!["["]);
}
