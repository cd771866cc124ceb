use polygo_engine::binary64::Binary64;
use polygo_engine::health::HealthState;
use polygo_engine::ws::binance::{parse_message, queued, receive, BinanceTick, PriceTick};
use polygo_engine::ws::polymarket::{
    is_batch, parse_and_apply, parse_and_apply_with_depth, subscription, update_level,
    BookSnapshot, BookState, BookTracker, DepthLevel, DepthSnapshot, MarketEvent, OutcomeBook,
    PriceChange, PriceLevel, Quoted, TradePrint, TradeSide, WireU64,
};
use serde_json::Value;

fn b(x: f64) -> Binary64 {
    Binary64 { bits: x.to_bits() }
}

fn quoted(value: &Value) -> Quoted {
    Quoted { value: value.as_str().and_then(|text| text.parse::<f64>().ok()).map(b) }
}

fn maybe(value: &Value) -> Option<Quoted> {
    if value.is_null() {
        None
    } else {
        Some(quoted(value))
    }
}

fn text(value: &Value) -> String {
    value.as_str().unwrap_or_default().to_string()
}

fn levels(value: &Value) -> Vec<PriceLevel> {
    value
        .as_array()
        .unwrap()
        .iter()
        .map(|level| PriceLevel { price: quoted(&level["price"]), size: quoted(&level["size"]) })
        .collect()
}

fn timestamp(value: &Value) -> Option<WireU64> {
    if let Some(n) = value.as_u64() {
        Some(WireU64::Number(n))
    } else {
        value.as_str().map(|t| WireU64::Text(t.to_string()))
    }
}

fn event(value: &Value) -> MarketEvent {
    match value["event_type"].as_str() {
        Some("book") => MarketEvent::Book {
            asset_id: text(&value["asset_id"]),
            bids: levels(&value["bids"]),
            asks: levels(&value["asks"]),
            timestamp: timestamp(&value["timestamp"]),
        },
        Some("price_change") => MarketEvent::PriceChange {
            price_changes: value["price_changes"]
                .as_array()
                .unwrap()
                .iter()
                .map(|change| PriceChange {
                    asset_id: text(&change["asset_id"]),
                    best_bid: maybe(&change["best_bid"]),
                    best_ask: maybe(&change["best_ask"]),
                    price: maybe(&change["price"]),
                    size: maybe(&change["size"]),
                    side: change["side"].as_str().map(|s| s.to_string()),
                })
                .collect(),
            timestamp: timestamp(&value["timestamp"]),
        },
        Some("last_trade_price") => MarketEvent::LastTradePrice {
            asset_id: text(&value["asset_id"]),
            price: quoted(&value["price"]),
            side: value["side"].as_str().map(|s| s.to_string()),
            size: maybe(&value["size"]),
            timestamp: timestamp(&value["timestamp"]),
        },
        _ => MarketEvent::Other,
    }
}

fn events(raw: &str) -> Vec<MarketEvent> {
    let value: Value = serde_json::from_str(raw).unwrap();
    if is_batch(raw) {
        value.as_array().unwrap().iter().map(event).collect()
    } else {
        vec![event(&value)]
    }
}

fn book(bid: f64, ask: f64) -> OutcomeBook {
    OutcomeBook { bid: Some(b(bid)), ask: Some(b(ask)) }
}

#[test]
fn maps_both_outcomes_by_asset_id() {
    let payload = r#"[{"event_type":"book","asset_id":"yes","bids":[{"price":"0.40","size":"10"},{"price":"0.42","size":"20"}],"asks":[{"price":"0.47","size":"30"},{"price":"0.45","size":"40"}],"timestamp":"1000"},{"event_type":"book","asset_id":"no","bids":[{"price":"0.53","size":"50"}],"asks":[{"price":"0.57","size":"60"}],"timestamp":"1001"}]"#;
    let mut snapshot = BookSnapshot::default();
    assert!(parse_and_apply(&events(payload), "yes", "no", &mut snapshot));
    assert_eq!(snapshot.yes, book(0.42, 0.45));
    assert_eq!(snapshot.no, book(0.53, 0.57));
    assert_eq!(snapshot.source_ts_ms, 1001);
}

#[test]
fn atomic_snapshot_is_coherent() {
    let mut state = BookState::default();
    let snapshot = BookSnapshot {
        yes: book(0.4, 0.5),
        no: book(0.5, 0.6),
        received_at_ms: 10,
        source_ts_ms: 9,
    };
    state.store(snapshot);
    assert_eq!(state.load(), snapshot);
}

#[test]
fn publishes_last_trade_for_shadow_fill_tracking() {
    let payload = r#"{"event_type":"last_trade_price","asset_id":"yes","price":"0.55","side":"BUY","size":"7.5","timestamp":"1000"}"#;
    let mut tracker = BookTracker::new(true);
    let (changed, trades) =
        parse_and_apply_with_depth(&events(payload), "yes", "no", &mut tracker, 1_001);
    assert!(!changed);
    assert_eq!(
        trades,
        vec![TradePrint {
            is_yes: true,
            side: TradeSide::Buy,
            price: b(0.55),
            size: b(7.5),
            received_at_ms: 1_001,
            source_ts_ms: 1_000,
        }]
    );
}

#[test]
fn a_missing_price_is_stored_as_missing() {
    let mut state = BookState::default();
    assert_eq!(state.load(), BookSnapshot::default());
    let mut snapshot = BookSnapshot::default();
    snapshot.yes.bid = Some(b(f64::NAN));
    snapshot.no.ask = Some(b(0.0));
    state.store(snapshot);
    assert_eq!(state.load().yes.bid, None);
    assert_eq!(state.load().no.ask, Some(b(0.0)));
}

#[test]
fn price_changes_move_the_top_of_the_book() {
    let payload = r#"{"market":"0x1","price_changes":[{"asset_id":"yes-token","price":"0.51","size":"10","side":"BUY","hash":"0x2","best_bid":"0.50","best_ask":"0.52"},{"asset_id":"no-token","price":"0.49","size":"8","side":"SELL","hash":"0x3","best_bid":"0.48","best_ask":"0.50"}],"timestamp":"1710000000123","event_type":"price_change"}"#;
    let mut snapshot = BookSnapshot::default();
    assert!(parse_and_apply(&events(payload), "yes-token", "no-token", &mut snapshot));
    assert_eq!(snapshot.yes, book(0.50, 0.52));
    assert_eq!(snapshot.no, book(0.48, 0.50));
    assert_eq!(snapshot.source_ts_ms, 1_710_000_000_123);

    // Where the levels are tracked, the top follows them and not the message.
    let mut tracker = BookTracker::new(true);
    let (changed, _) =
        parse_and_apply_with_depth(&events(payload), "yes-token", "no-token", &mut tracker, 1);
    assert!(changed);
    assert_eq!(tracker.snapshot.yes, OutcomeBook { bid: Some(b(0.51)), ask: None });
    assert_eq!(tracker.snapshot.no, OutcomeBook { bid: None, ask: Some(b(0.49)) });
}

#[test]
fn invalid_prices_and_sides_are_passed_over() {
    let payload = r#"{"event_type":"book","asset_id":"yes","bids":[{"price":"1.5","size":"1"},{"price":"x","size":"1"}],"asks":[{"price":"0.9","size":"-1"},{"price":"0.8","size":"2"}],"timestamp":77}"#;
    let mut tracker = BookTracker::new(true);
    assert!(parse_and_apply_with_depth(&events(payload), "yes", "no", &mut tracker, 1).0);
    assert_eq!(tracker.snapshot.yes, OutcomeBook { bid: None, ask: Some(b(0.8)) });
    assert_eq!(tracker.snapshot.source_ts_ms, 77);
    let depth = tracker.depth.as_ref().unwrap();
    assert_eq!(depth.yes.asks, vec![DepthLevel { price: b(0.8), size: b(2.0) }]);

    let payload = r#"{"event_type":"price_change","price_changes":[{"asset_id":"yes","price":"0.7","size":"3","side":"HOLD","best_bid":"0.1"}]}"#;
    assert!(!parse_and_apply_with_depth(&events(payload), "yes", "no", &mut tracker, 1).0);
    assert_eq!(tracker.snapshot.yes.bid, None);

    let payload = r#"{"event_type":"price_change","price_changes":[{"asset_id":"other","best_bid":"0.1"}],"timestamp":"+9"}"#;
    assert!(!parse_and_apply_with_depth(&events(payload), "yes", "no", &mut tracker, 1).0);
    assert_eq!(tracker.snapshot.source_ts_ms, 9);

    let payload = r#"{"event_type":"tick_size_change"}"#;
    assert!(!parse_and_apply_with_depth(&events(payload), "yes", "no", &mut tracker, 1).0);
    let payload = r#"{"event_type":"last_trade_price","asset_id":"yes","price":"0.55","side":"HOLD","size":"7.5"}"#;
    assert!(parse_and_apply_with_depth(&events(payload), "yes", "no", &mut tracker, 1).1.is_empty());
}

#[test]
fn a_batch_is_its_events_one_after_another() {
    let first = r#"{"event_type":"book","asset_id":"y","bids":[{"price":"0.4","size":"1"}],"asks":[{"price":"0.5","size":"1"}],"timestamp":"5"}"#;
    let second = r#"{"event_type":"price_change","price_changes":[{"asset_id":"y","price":"0.45","size":"2","side":"BUY"}],"timestamp":"6"}"#;
    let trade = r#"{"event_type":"last_trade_price","asset_id":"n","price":"0.55","side":"sell","size":"7.5"}"#;
    let mut together = BookTracker::new(true);
    let batch = format!("[{first},{second},{trade}]");
    let (changed, trades) =
        parse_and_apply_with_depth(&events(&batch), "y", "n", &mut together, 9);
    assert!(changed);
    let mut apart = BookTracker::new(true);
    let mut seen = vec![];
    for raw in [first, second, trade] {
        seen.extend(parse_and_apply_with_depth(&events(raw), "y", "n", &mut apart, 9).1);
    }
    assert_eq!(together.snapshot, apart.snapshot);
    assert_eq!(together.depth, apart.depth);
    assert_eq!(trades, seen);
    assert_eq!((trades.len(), trades[0].side, trades[0].is_yes), (1, TradeSide::Sell, false));
    assert_eq!(together.snapshot.yes, book(0.45, 0.5));
}

#[test]
fn levels_are_set_moved_and_removed() {
    let level = |price: f64, size: f64| DepthLevel { price: b(price), size: b(size) };
    let mut levels = vec![level(0.1, 1.0), level(0.2, 2.0), level(0.3, 3.0)];
    update_level(&mut levels, b(0.2), b(9.0));
    assert_eq!(levels[1], level(0.2, 9.0));
    update_level(&mut levels, b(0.1), b(0.0));
    assert_eq!(levels, vec![level(0.3, 3.0), level(0.2, 9.0)]);
    update_level(&mut levels, b(0.4), b(0.0));
    assert_eq!(levels.len(), 2);
    update_level(&mut levels, b(0.4), b(4.0));
    assert_eq!(levels[2], level(0.4, 4.0));
}

#[test]
fn a_payload_is_stored_and_readies_the_market() {
    let whole = r#"[{"event_type":"book","asset_id":"y","bids":[{"price":"0.4","size":"1"}],"asks":[{"price":"0.5","size":"1"}],"timestamp":"5"},{"event_type":"book","asset_id":"n","bids":[{"price":"0.5","size":"1"}],"asks":[{"price":"0.6","size":"1"}],"timestamp":"6"}]"#;
    let mut tracker = BookTracker::new(true);
    let mut state = BookState::default();
    let mut health = HealthState::new();
    let trades = tracker.absorb(&events(whole), "y", "n", 50, &mut state, &mut health);
    assert!(trades.is_empty());
    assert!(health.market_ready());
    assert_eq!(health.last_book_ms, 50);
    assert_eq!(state.load().received_at_ms, 50);
    assert_eq!(state.load().no, book(0.5, 0.6));
    let depth: DepthSnapshot = state.load_depth();
    assert_eq!((depth.received_at_ms, depth.source_ts_ms), (50, 6));
    assert_eq!(depth.yes.bids.len(), 1);

    let gone = r#"{"event_type":"price_change","price_changes":[{"asset_id":"y","price":"0.4","size":"0","side":"buy"}]}"#;
    tracker.absorb(&events(gone), "y", "n", 60, &mut state, &mut health);
    assert!(!health.market_ready());
    assert_eq!(state.load().yes.bid, None);

    let nothing = r#"{"event_type":"other"}"#;
    tracker.absorb(&events(nothing), "y", "n", 70, &mut state, &mut health);
    assert_eq!(state.load().received_at_ms, 60);
}

#[test]
fn the_subscription_is_json() {
    let bytes = subscription("1", "2\"", true);
    let value: Value = serde_json::from_slice(&bytes).unwrap();
    assert_eq!(value["type"], "market");
    assert_eq!(value["assets_ids"][1], "2\"");
    assert_eq!(value["custom_feature_enabled"], true);
    assert_eq!(value.to_string().as_bytes(), bytes.as_slice());
    assert_eq!(
        String::from_utf8(subscription("1", "2", false)).unwrap(),
        r#"{"assets_ids":["1","2"],"type":"market"}"#
    );
}

#[test]
fn trades_of_the_underlying_become_ticks() {
    let tick = parse_message(BinanceTick { trade_time_ms: 7, price: Some(b(68421.12)) }).unwrap();
    assert_eq!(tick, PriceTick { price: b(68421.12), trade_time_ms: 7, received_at_ms: 7 });
    assert_eq!(parse_message(BinanceTick { trade_time_ms: 7, price: None }), None);
    let mut health = HealthState::new();
    assert_eq!(receive(tick, 9, &mut health).received_at_ms, 9);
    assert_eq!(health.last_binance_ms, 9);
    assert!(queued(true, &mut health));
    assert!(!health.is_faulted());
    assert!(!queued(false, &mut health));
    assert_eq!(health.snapshot().fault, "binance_backpressure");
}
