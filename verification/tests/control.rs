use polygo_engine::binary64::Binary64;
use polygo_engine::config::{RiskConfig, StrategyConfig};
use polygo_engine::control::{
    health_response, heartbeat, not_found, parse_body, route, start, stop, update_config,
    valid_instant, watchdog_check, watchdog_wait_ms, HeartbeatRequest, Route, StartRequest,
    StopRequest, TradingMode,
};
use polygo_engine::health::HealthState;
use polygo_engine::http::{
    find_header_end, HttpRequest, HttpResponse, ReadStep, RequestError, RequestReader,
    MAX_REQUEST_BYTES,
};
use polygo_engine::runtime_config::{JavaStrategyConfig, PartialStrategyConfig, StrategyStore};
use serde_json::Value;

fn b(x: f64) -> Binary64 {
    Binary64 { bits: x.to_bits() }
}

fn new_store() -> StrategyStore {
    let strategy = StrategyConfig {
        momentum_window_ms: 100,
        momentum_threshold_usd: b(8.0),
        buy_yes_momentum_threshold_usd: b(8.0),
        buy_no_momentum_threshold_usd: b(8.0),
        execution_latency_ms: 100,
        hold_ms: 5_000,
        exit_max_hold_ms: 15_000,
        exit_min_hold_ms: 2_000,
        exit_check_interval_ms: 250,
        exit_reversal_window_ms: 100,
        exit_reversal_threshold_usd: b(2.0),
        exit_take_profit_net_usd: b(0.0),
        exit_stop_loss_pct: b(-15.0),
        min_expected_price_move: b(0.05),
        entry_slippage: b(0.02),
        min_market_progress: b(0.05),
        max_market_progress: b(0.90),
        max_book_age_ms: 300,
    };
    let risk = RiskConfig {
        max_spread: b(0.02),
        max_notional_usd: b(100.0),
        max_shares: 500,
        max_open_positions: 5,
        daily_loss_limit_usd: b(500.0),
    };
    StrategyStore::new(&strategy, &risk)
}

struct Server {
    health: HealthState,
    store: StrategyStore,
    now: u64,
}

struct Answer {
    status: u16,
    json: Value,
}

fn number(value: &Value, key: &str) -> Option<Binary64> {
    value[key].as_f64().map(b)
}

fn whole(value: &Value, key: &str) -> Option<u64> {
    value[key].as_u64()
}

fn word(value: &Value, key: &str) -> Option<String> {
    value[key].as_str().map(|s| s.to_string())
}

fn config_from(v: &Value) -> Option<JavaStrategyConfig> {
    let given = PartialStrategyConfig {
        config_version: word(v, "configVersion")?,
        momentum_window_ms: whole(v, "momentumWindowMs")?,
        momentum_threshold_usd: number(v, "momentumThresholdUsd")?,
        buy_yes_momentum_threshold_usd: number(v, "buyYesMomentumThresholdUsd"),
        buy_no_momentum_threshold_usd: number(v, "buyNoMomentumThresholdUsd"),
        execution_latency_ms: whole(v, "executionLatencyMs")?,
        hold_ms: whole(v, "holdMs")?,
        min_expected_price_move: number(v, "minExpectedPriceMove"),
        entry_slippage: number(v, "entrySlippage"),
        entry_confirmation_ms: whole(v, "entryConfirmationMs"),
        min_entry_bid_improvement: number(v, "minEntryBidImprovement"),
        min_exchange_shares: whole(v, "minExchangeShares"),
        min_progress: number(v, "minProgress")?,
        max_progress: number(v, "maxProgress")?,
        max_spread: number(v, "maxSpread")?,
        min_price: number(v, "minPrice"),
        max_price: number(v, "maxPrice"),
        max_notional_usd: number(v, "maxNotionalUsd")?,
        max_shares: whole(v, "maxShares")?,
        daily_loss_limit_usd: number(v, "dailyLossLimitUsd"),
        up_outcome: word(v, "upOutcome")?,
        down_outcome: word(v, "downOutcome")?,
    };
    Some(given.complete())
}

impl Server {
    fn new() -> Self {
        let mut health = HealthState::new();
        health.set_market_ready(true);
        Server { health, store: new_store(), now: 1_000_000 }
    }

    fn respond(&mut self, request: &HttpRequest) -> HttpResponse {
        let json: Option<Value> = serde_json::from_slice(&request.body).ok();
        let v = json.unwrap_or(Value::Null);
        match route(request) {
            Route::Health => health_response(&self.health, &self.store),
            Route::Config => {
                let config = parse_body(request, config_from(&v));
                update_config(config, &mut self.health, &mut self.store)
            }
            Route::Start => {
                let mode = match v["mode"].as_str() {
                    Some("DRY_RUN") => Some(TradingMode::DryRun),
                    Some("LIVE") => Some(TradingMode::Live),
                    _ => None,
                };
                let parsed = match (mode, word(&v, "configVersion"), whole(&v, "leaseTimeoutMs")) {
                    (Some(mode), Some(config_version), Some(lease_timeout_ms)) => {
                        Some(StartRequest { mode, config_version, lease_timeout_ms })
                    }
                    _ => None,
                };
                start(parse_body(request, parsed), &mut self.health, &self.store, self.now)
            }
            Route::Heartbeat => {
                let parsed = match (word(&v, "configVersion"), word(&v, "sentAt")) {
                    (Some(config_version), Some(sent_at)) => {
                        Some(HeartbeatRequest { config_version, sent_at })
                    }
                    _ => None,
                };
                heartbeat(parse_body(request, parsed), &mut self.health, &self.store, self.now)
            }
            Route::Stop => {
                let parsed = word(&v, "reason").map(|reason| StopRequest { reason });
                stop(parse_body(request, parsed), &mut self.health)
            }
            Route::NotFound => not_found(),
        }
    }

    fn request(&mut self, method: &str, path: &str, body: Option<Value>) -> Answer {
        let body = body.map(|body| body.to_string()).unwrap_or_default();
        let raw = format!(
            "{method} {path} HTTP/1.1\r\nHost: test\r\nContent-Type: application/json\r\nContent-Length: {}\r\n\r\n{body}",
            body.len()
        );
        let request = read(raw.as_bytes(), 7);
        let response = self.respond(&request);
        let text = format!("{}{}", response.head(), String::from_utf8(response.body).unwrap());
        let (headers, body) = text.split_once("\r\n\r\n").unwrap();
        let status = headers.split_whitespace().nth(1).unwrap().parse().unwrap();
        Answer {
            status,
            json: if body.is_empty() { Value::Null } else { serde_json::from_str(body).unwrap() },
        }
    }
}

fn read(bytes: &[u8], step: usize) -> HttpRequest {
    let mut reader = RequestReader::new();
    for chunk in bytes.chunks(step) {
        match reader.feed(chunk) {
            ReadStep::More => {}
            ReadStep::Complete(request) => return request,
            ReadStep::Failed(error) => panic!("{}", error.text()),
        }
    }
    panic!("incomplete")
}

fn failure(chunks: &[&[u8]]) -> String {
    let mut reader = RequestReader::new();
    for chunk in chunks {
        match reader.feed(chunk) {
            ReadStep::More => {}
            ReadStep::Complete(_) => panic!("complete"),
            ReadStep::Failed(error) => return error.text(),
        }
    }
    panic!("incomplete")
}

fn object(pairs: Vec<(&str, Value)>) -> Value {
    let mut map = serde_json::Map::new();
    for (key, value) in pairs {
        map.insert(key.to_string(), value);
    }
    Value::Object(map)
}

fn strategy_json(version: &str) -> Value {
    object(vec![
        ("configVersion", version.into()),
        ("momentumWindowMs", 100.into()),
        ("momentumThresholdUsd", 8.into()),
        ("executionLatencyMs", 100.into()),
        ("holdMs", 5000.into()),
        ("minProgress", 0.05.into()),
        ("maxProgress", 0.90.into()),
        ("maxSpread", 0.02.into()),
        ("maxNotionalUsd", 100.into()),
        ("maxShares", 500.into()),
        ("upOutcome", "YES".into()),
        ("downOutcome", "NO".into()),
    ])
}

fn start_json(mode: &str, version: &str, lease: u64) -> Value {
    object(vec![
        ("mode", mode.into()),
        ("configVersion", version.into()),
        ("leaseTimeoutMs", lease.into()),
    ])
}

fn heartbeat_json(version: &str) -> Value {
    object(vec![("configVersion", version.into()), ("sentAt", "2026-06-23T12:00:00Z".into())])
}

fn stop_json() -> Value {
    object(vec![("reason", "operator request".into())])
}

#[test]
fn java_v1_contract_and_lease_are_fail_closed() {
    let mut server = Server::new();

    let initial = server.request("GET", "/v1/health", None);
    assert_eq!(initial.status, 200);
    assert_eq!(initial.json["status"], "UP");
    assert_eq!(initial.json["acceptingCommands"], true);
    assert!(initial.json["configVersion"].is_null());
    assert_eq!(server.request("GET", "/health", None).status, 404);

    let mut invalid_config = strategy_json("invalid");
    invalid_config["upOutcome"] = Value::String("UP".into());
    assert_eq!(server.request("PUT", "/v1/config", Some(invalid_config)).status, 422);

    assert_eq!(server.request("PUT", "/v1/config", Some(strategy_json("momentum-v1"))).status, 204);
    let configured = server.request("GET", "/v1/health", None);
    assert_eq!(configured.json["configVersion"], "momentum-v1");

    let start_body = start_json("DRY_RUN", "momentum-v1", 20);
    assert_eq!(server.request("POST", "/v1/control/start", Some(start_body.clone())).status, 204);
    assert_eq!(server.request("POST", "/v1/control/start", Some(start_body)).status, 204);
    assert_eq!(
        server.request("POST", "/v1/control/heartbeat", Some(heartbeat_json("wrong"))).status,
        204
    );
    assert!(!server.health.is_running());
    assert_eq!(
        server
            .request("POST", "/v1/control/start", Some(start_json("DRY_RUN", "momentum-v1", 20)))
            .status,
        204
    );
    assert_eq!(
        server.request("POST", "/v1/control/heartbeat", Some(heartbeat_json("momentum-v1"))).status,
        204
    );
    assert_eq!(server.request("POST", "/v1/control/stop", Some(stop_json())).status, 204);
    assert_eq!(server.request("POST", "/v1/control/stop", Some(stop_json())).status, 204);

    assert_eq!(
        server
            .request("POST", "/v1/control/start", Some(start_json("LIVE", "momentum-v1", 20)))
            .status,
        409
    );
    assert_eq!(
        server
            .request("POST", "/v1/control/start", Some(start_json("DRY_RUN", "wrong", 20)))
            .status,
        409
    );

    assert_eq!(
        server
            .request("POST", "/v1/control/start", Some(start_json("DRY_RUN", "momentum-v1", 20)))
            .status,
        204
    );
    let mut waited = 0;
    while waited < 60 {
        let pause = watchdog_wait_ms(&server.health);
        waited += pause;
        server.now += pause;
        watchdog_check(&mut server.health, server.now);
    }
    assert!(server.health.is_faulted());
    assert_eq!(server.health.snapshot().fault, "heartbeat_timeout");
}

#[test]
fn config_update_stops_running_engine_and_swaps_snapshot() {
    let mut server = Server::new();
    server.request("PUT", "/v1/config", Some(strategy_json("v1")));
    server.request("POST", "/v1/control/start", Some(start_json("DRY_RUN", "v1", 2000)));
    assert!(server.health.is_running());
    assert_eq!(server.request("PUT", "/v1/config", Some(strategy_json("v2"))).status, 204);
    assert!(!server.health.is_running());
    assert!(server.store.version_matches("v2"));
    assert_eq!(server.store.load().unwrap().momentum_threshold_usd, b(8.0));
}

fn running() -> Server {
    let mut server = Server::new();
    server.request("PUT", "/v1/config", Some(strategy_json("v1")));
    server.request("POST", "/v1/control/start", Some(start_json("DRY_RUN", "v1", 2000)));
    assert!(server.health.is_running());
    server
}

#[test]
fn settings_that_are_left_out_are_completed() {
    let config = config_from(&strategy_json("v1")).unwrap();
    assert_eq!(config.buy_yes_momentum_threshold_usd, b(8.0));
    assert_eq!(config.buy_no_momentum_threshold_usd, b(8.0));
    assert_eq!((config.min_expected_price_move, config.entry_slippage), (b(0.05), b(0.02)));
    assert_eq!((config.entry_confirmation_ms, config.min_exchange_shares), (1_000, 5));
    assert_eq!(config.min_entry_bid_improvement, b(0.01));
    assert_eq!((config.min_price, config.max_price), (b(0.05), b(0.95)));
    assert_eq!(config.daily_loss_limit_usd, b(500.0));
    assert_eq!(config.validate(), Ok(()));

    let mut body = strategy_json("v1");
    body["buyNoMomentumThresholdUsd"] = 9.into();
    body["minExchangeShares"] = 7.into();
    let config = config_from(&body).unwrap();
    assert_eq!(config.buy_no_momentum_threshold_usd, b(9.0));
    assert_eq!(config.min_exchange_shares, 7);
}

#[test]
fn every_refused_command_stops_the_engine() {
    for (method, path, body, status, error) in [
        ("PUT", "/v1/config", None, 400, "missing_request_body"),
        ("PUT", "/v1/config", Some(Value::Null), 400, "invalid_json_body"),
        ("POST", "/v1/control/start", None, 400, "missing_request_body"),
        ("POST", "/v1/control/start", Some(start_json("DRY_RUN", "v1", 0)), 422, "invalid_start_request"),
        ("POST", "/v1/control/start", Some(start_json("DRY_RUN", "v1", 300_001)), 422, "invalid_start_request"),
        ("POST", "/v1/control/start", Some(start_json("LIVE", "v1", 2000)), 409, "live_execution_disabled"),
        ("POST", "/v1/control/start", Some(start_json("DRY_RUN", "v0", 2000)), 409, "config_version_mismatch"),
        ("POST", "/v1/control/start", Some(start_json("DRY_RUN", "v1", 2001)), 409, "start_parameters_conflict"),
        ("POST", "/v1/control/heartbeat", Some(object(vec![("configVersion", "v1".into()), ("sentAt", "now".into())])), 422, "invalid_heartbeat"),
        ("POST", "/v1/control/stop", Some(object(vec![("reason", " ".into())])), 422, "invalid_stop_reason"),
        ("POST", "/v1/control/stop", None, 400, "missing_request_body"),
    ] {
        let mut server = running();
        let answer = server.request(method, path, body);
        assert_eq!(answer.status, status, "{error}");
        assert_eq!(answer.json["error"], error);
        assert!(!server.health.is_running(), "{error}");
    }
}

#[test]
fn an_engine_that_is_not_ready_does_not_start() {
    let mut server = Server::new();
    server.request("PUT", "/v1/config", Some(strategy_json("v1")));
    server.health.set_market_ready(false);
    let answer = server.request("POST", "/v1/control/start", Some(start_json("DRY_RUN", "v1", 20)));
    assert_eq!((answer.status, &answer.json["error"]), (409, &Value::from("market_not_ready")));
    server.health.set_market_ready(true);
    server.health.trip(2);
    let answer = server.request("POST", "/v1/control/start", Some(start_json("DRY_RUN", "v1", 20)));
    assert_eq!(answer.json["error"], "faulted_restart_process");
    assert_eq!(server.request("GET", "/v1/health", None).json["status"], "DOWN");
    server.health.trip(1);
    server.health.stop();
    let answer = server.request("POST", "/v1/control/start", Some(start_json("DRY_RUN", "v1", 20)));
    assert_eq!(answer.json["error"], "audit_unhealthy");
    assert_eq!(server.request("GET", "/v1/health", None).json["acceptingCommands"], false);
    let answer = server.request("POST", "/v1/control/heartbeat", Some(heartbeat_json("v1")));
    assert_eq!((answer.status, &answer.json["error"]), (409, &Value::from("engine_not_running")));
}

#[test]
fn a_start_that_the_engine_refuses_leaves_it_as_it_was() {
    let mut server = running();
    server.health.set_market_ready(false);
    let answer = server.request("POST", "/v1/control/start", Some(start_json("DRY_RUN", "v1", 2000)));
    assert_eq!((answer.status, &answer.json["error"]), (409, &Value::from("market_not_ready")));
    assert!(server.health.is_running());
}

#[test]
fn heartbeats_renew_the_lease() {
    let mut server = running();
    for _ in 0..5 {
        server.now += 1_999;
        server.request("POST", "/v1/control/heartbeat", Some(heartbeat_json("v1")));
        watchdog_check(&mut server.health, server.now);
    }
    assert!(server.health.is_running());
    watchdog_check(&mut server.health, server.now + 2_000);
    assert!(server.health.is_running());
    watchdog_check(&mut server.health, server.now + 2_001);
    assert!(server.health.is_faulted());
    assert_eq!(watchdog_wait_ms(&HealthState::default()), 1);
}

#[test]
fn health_is_told_in_this_form() {
    let mut server = Server::new();
    let response = health_response(&server.health, &server.store);
    assert_eq!(response.status, "200 OK");
    assert_eq!(
        String::from_utf8(response.body).unwrap(),
        r#"{"status":"UP","acceptingCommands":true,"configVersion":null}"#
    );
    server.request("PUT", "/v1/config", Some(strategy_json("v\"1\n")));
    let response = health_response(&server.health, &server.store);
    assert_eq!(
        String::from_utf8(response.body).unwrap(),
        "{\"status\":\"UP\",\"acceptingCommands\":true,\"configVersion\":\"v\\\"1\\n\"}"
    );
    let response = not_found();
    assert_eq!(
        response.head(),
        "HTTP/1.1 404 Not Found\r\nContent-Type: application/json\r\nContent-Length: 21\r\nConnection: close\r\n\r\n"
    );
    assert_eq!(response.body, br#"{"error":"not_found"}"#.to_vec());
}

#[test]
fn errors_are_escaped_as_json() {
    let text = "a\"b\\c\u{8}\t\n\u{c}\r\u{1}\u{1f}\u{7f}\u{e9}\u{1f600}/";
    let response = HttpResponse::error("400 Bad Request", text);
    let value: Value = serde_json::from_slice(&response.body).unwrap();
    assert_eq!(value["error"], text);
    assert_eq!(
        response.body,
        "{\"error\":\"a\\\"b\\\\c\\b\\t\\n\\f\\r\\u0001\\u001f\u{7f}\u{e9}\u{1f600}/\"}".as_bytes().to_vec()
    );
    assert!(HttpResponse::empty("204 No Content").body.is_empty());
}

#[test]
fn requests_are_read_piece_by_piece() {
    let raw = b"  PUT\t/v1/config  HTTP/1.1\nHost: x\r\ncontent-LENGTH : 9\r\nContent-Length: +3 \r\n\r\nabcdef";
    for step in [1, 2, 5, 1000] {
        let request = read(raw, step);
        assert_eq!((request.method.as_str(), request.path.as_str()), ("PUT", "/v1/config"));
        assert_eq!(request.body, b"abc".to_vec());
    }
    let mut reader = RequestReader::new();
    assert!(matches!(reader.feed(b"GET / HTTP/1.1\r\n\r"), ReadStep::More));
    assert!(matches!(reader.feed(b"\n ignored"), ReadStep::Complete(_)));
    let request = read(b"GET / HTTP/1.1\r\n\r\n", 3);
    assert!(request.body.is_empty());
    let request = read(b"GET / HTTP/1.1\r\nContent-Length: many\r\nContent-Length: 2\r\n\r\nok", 4);
    assert_eq!(request.body, b"ok".to_vec());
    assert_eq!(find_header_end(b"a\r\n\r\n\r\n"), Some(1));
    assert_eq!(find_header_end(b"\r\n\r"), None);
}

#[test]
fn every_broken_request_is_named() {
    assert_eq!(failure(&[b"GET / HTTP/1.1\r\n", b""]), "connection closed before request completed");
    assert_eq!(failure(&[&vec![b'a'; MAX_REQUEST_BYTES + 1]]), "request too large");
    assert_eq!(failure(&[b"\r\n\r\n"]), "missing request line");
    assert_eq!(failure(&[b"   \r\nA: b\r\n\r\n"]), "missing method");
    assert_eq!(failure(&[b"GET \r\nA: b\r\n\r\n"]), "missing path");
    assert_eq!(failure(&[b"GET / x\r\nContent-Length: 16380\r\n\r\n"]), "request body too large");
    assert_eq!(
        failure(&[b"GET / x\r\nContent-Length: 18446744073709551615\r\n\r\n"]),
        "request body too large"
    );
    assert_eq!(
        failure(&[b"GET / x\r\nContent-Length: 5\r\n\r\nab", b"c", b""]),
        "connection closed before body completed"
    );
    assert_eq!(
        failure(&[b"GET /\xff x\r\n\r\n"]),
        "invalid utf-8 sequence of 1 bytes from index 5"
    );
    assert!(matches!(RequestReader::new().feed(b""), ReadStep::Failed(RequestError::ClosedEarly)));
}

#[test]
fn moments_are_recognised_by_their_form() {
    assert!(valid_instant("2026-06-23T12:00:00Z"));
    assert!(valid_instant("2026-06-23T12:00:00+02:00"));
    assert!(valid_instant("2026-06-23T12:00:00-02:00"));
    assert!(!valid_instant("2026-06-23T12:00:00"));
    assert!(!valid_instant("2026-06-23 12:00:00Z"));
    assert!(!valid_instant("2026/06-23T12:00:00Z"));
    assert!(!valid_instant("2026-06-23T12:00:00\u{e9}:00"));
}
