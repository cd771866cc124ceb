//! The commands of the control plane.

use vstd::prelude::*;
use vstd::utf8::encode_utf8;

use crate::health::{HealthState, RunState};
use crate::http::{HttpRequest, HttpResponse};
use crate::json::{error_object, json_string, push_string, push_text};
use crate::runtime_config::{
    valid_config_version, valid_version, JavaStrategyConfig, StrategyStore,
};
use crate::text::{blank, byte_len, is_blank, same_text};

verus! {

#[derive(Debug, Clone, Copy, PartialEq, Eq, Structural)]
pub enum TradingMode {
    DryRun,
    Live,
}

#[derive(Debug)]
pub struct StartRequest {
    pub mode: TradingMode,
    pub config_version: String,
    pub lease_timeout_ms: u64,
}

#[derive(Debug)]
pub struct HeartbeatRequest {
    pub config_version: String,
    pub sent_at: String,
}

#[derive(Debug)]
pub struct StopRequest {
    pub reason: String,
}

/// A command, by the method and the path of its request.
#[derive(Debug, Clone, Copy, PartialEq, Eq, Structural)]
pub enum Route {
    Health,
    Config,
    Start,
    Heartbeat,
    Stop,
    NotFound,
}

pub open spec fn route_of(method: Seq<char>, path: Seq<char>) -> Route {
    if method == "GET"@ && path == "/v1/health"@ {
        Route::Health
    } else if method == "PUT"@ && path == "/v1/config"@ {
        Route::Config
    } else if method == "POST"@ && path == "/v1/control/start"@ {
        Route::Start
    } else if method == "POST"@ && path == "/v1/control/heartbeat"@ {
        Route::Heartbeat
    } else if method == "POST"@ && path == "/v1/control/stop"@ {
        Route::Stop
    } else {
        Route::NotFound
    }
}

/// The command that a request asks for.
pub fn route(request: &HttpRequest) -> (r: Route)
    ensures
        r == route_of(request.method@, request.path@),
{
    let method: &str = request.method.as_str();
    let path: &str = request.path.as_str();
    if same_text(method, "GET") && same_text(path, "/v1/health") {
        Route::Health
    } else if same_text(method, "PUT") && same_text(path, "/v1/config") {
        Route::Config
    } else if same_text(method, "POST") && same_text(path, "/v1/control/start") {
        Route::Start
    } else if same_text(method, "POST") && same_text(path, "/v1/control/heartbeat") {
        Route::Heartbeat
    } else if same_text(method, "POST") && same_text(path, "/v1/control/stop") {
        Route::Stop
    } else {
        Route::NotFound
    }
}

/// A request's body, with what it was parsed to, if it could be.
pub fn parse_body<T>(request: &HttpRequest, parsed: Option<T>) -> (r: Result<T, &'static str>)
    ensures
        r == (if request.body@.len() == 0 {
            Err("missing_request_body")
        } else {
            match parsed {
                Some(value) => Ok::<T, &'static str>(value),
                None => Err("invalid_json_body"),
            }
        }),
{
    if request.body.len() == 0 {
        return Err("missing_request_body");
    }
    match parsed {
        Some(value) => Ok(value),
        None => Err("invalid_json_body"),
    }
}

/// What a response says: its status and, where there is one, its error.
pub open spec fn says(r: HttpResponse, status: &'static str, error: Option<&'static str>) -> bool {
    &&& r.status == status
    &&& r.body@ == match error {
        Some(e) => error_object(e@),
        None => Seq::empty(),
    }
}

fn answer(status: &'static str, error: Option<&'static str>) -> (r: HttpResponse)
    ensures
        says(r, status, error),
{
    match error {
        Some(e) => HttpResponse::error(status, e),
        None => HttpResponse::empty(status),
    }
}

pub fn not_found() -> (r: HttpResponse)
    ensures
        says(r, "404 Not Found", Some("not_found")),
{
    answer("404 Not Found", Some("not_found"))
}

/// The body of the answer to a question for the engine's health.
pub open spec fn health_object(health: HealthState, version: Option<String>) -> Seq<u8> {
    encode_utf8("{\"status\":"@) + encode_utf8(
        if health.state == RunState::Faulted {
            "\"DOWN\""@
        } else {
            "\"UP\""@
        },
    ) + encode_utf8(",\"acceptingCommands\":"@) + encode_utf8(
        if health.accepting() {
            "true"@
        } else {
            "false"@
        },
    ) + encode_utf8(",\"configVersion\":"@) + (match version {
        Some(v) => json_string(v@),
        None => encode_utf8("null"@),
    }) + encode_utf8("}"@)
}

/// Tells the engine's health.
pub fn health_response(health: &HealthState, store: &StrategyStore) -> (r: HttpResponse)
    ensures
        r.status == "200 OK",
        r.body@ == health_object(*health, store.config_version),
{
    let mut body: Vec<u8> = Vec::new();
    push_text(&mut body, "{\"status\":");
    assert(body@ == encode_utf8("{\"status\":"@));
    push_text(
        &mut body,
        if health.is_faulted() {
            "\"DOWN\""
        } else {
            "\"UP\""
        },
    );
    push_text(&mut body, ",\"acceptingCommands\":");
    push_text(
        &mut body,
        if health.accepting_commands() {
            "true"
        } else {
            "false"
        },
    );
    push_text(&mut body, ",\"configVersion\":");
    match &store.config_version {
        Some(v) => push_string(&mut body, v.as_str()),
        None => push_text(&mut body, "null"),
    }
    push_text(&mut body, "}");
    HttpResponse { status: "200 OK", body }
}

/// Puts new settings in force.  Whatever comes of it, the engine is stopped.
pub fn update_config(
    config: Result<JavaStrategyConfig, &'static str>,
    health: &mut HealthState,
    store: &mut StrategyStore,
) -> (r: HttpResponse)
    ensures
        *final(health) == old(health).stopped(),
        match config {
            Err(e) => says(r, "400 Bad Request", Some(e)) && *final(store) == *old(store),
            Ok(config) => match config.verdict() {
                Err(e) => says(r, "422 Unprocessable Entity", Some(e)) && *final(store)
                    == *old(store),
                Ok(_) => {
                    &&& says(r, "204 No Content", None)
                    &&& *final(store) == (StrategyStore {
                        current: old(store).current.updated(config),
                        configured: true,
                        config_version: Some(config.config_version),
                    })
                },
            },
        },
{
    health.stop();
    let config: JavaStrategyConfig = match config {
        Ok(config) => config,
        Err(e) => return answer("400 Bad Request", Some(e)),
    };
    match config.validate() {
        Ok(_) => {},
        Err(e) => return answer("422 Unprocessable Entity", Some(e)),
    }
    match store.update(&config) {
        Ok(_) => answer("204 No Content", None),
        Err(e) => answer("500 Internal Server Error", Some(e)),
    }
}

/// What a request to start is refused with, before the engine itself is asked.
pub open spec fn start_refusal(
    request: StartRequest,
    health: HealthState,
    store: StrategyStore,
) -> Option<(&'static str, &'static str)> {
    if !valid_version(request.config_version@) || request.lease_timeout_ms == 0
        || request.lease_timeout_ms > 300_000 {
        Some(("422 Unprocessable Entity", "invalid_start_request"))
    } else if request.mode == TradingMode::Live {
        Some(("409 Conflict", "live_execution_disabled"))
    } else if !store.has_version(request.config_version@) {
        Some(("409 Conflict", "config_version_mismatch"))
    } else if health.state == RunState::Running && health.lease_timeout_ms
        != request.lease_timeout_ms {
        Some(("409 Conflict", "start_parameters_conflict"))
    } else {
        None
    }
}

/// The engine as a request to start leaves it: stopped where the request is refused, and else as
/// the engine itself decides.
pub open spec fn left_by_start(
    request: Result<StartRequest, &'static str>,
    health: HealthState,
    store: StrategyStore,
    now_ms: u64,
) -> HealthState {
    match request {
        Err(_) => health.stopped(),
        Ok(request) => if start_refusal(request, health, store) is Some {
            health.stopped()
        } else {
            health.leased(now_ms, request.lease_timeout_ms)
        },
    }
}

/// Starts the engine under a lease.  A request that is refused stops it.
pub fn start(
    request: Result<StartRequest, &'static str>,
    health: &mut HealthState,
    store: &StrategyStore,
    now_ms: u64,
) -> (r: HttpResponse)
    ensures
        *final(health) == left_by_start(request, *old(health), *store, now_ms),
        match request {
            Err(e) => says(r, "400 Bad Request", Some(e)),
            Ok(request) => match start_refusal(request, *old(health), *store) {
                Some((status, error)) => says(r, status, Some(error)),
                None => match old(health).may_start() {
                    Ok(_) => says(r, "204 No Content", None),
                    Err(e) => says(r, "409 Conflict", Some(e)),
                },
            },
        },
{
    let request: StartRequest = match request {
        Ok(request) => request,
        Err(e) => {
            health.stop();
            return answer("400 Bad Request", Some(e));
        },
    };
    if !valid_config_version(request.config_version.as_str()) || request.lease_timeout_ms == 0
        || request.lease_timeout_ms > 300_000 {
        health.stop();
        return answer("422 Unprocessable Entity", Some("invalid_start_request"));
    }
    if request.mode == TradingMode::Live {
        health.stop();
        return answer("409 Conflict", Some("live_execution_disabled"));
    }
    if !store.version_matches(request.config_version.as_str()) {
        health.stop();
        return answer("409 Conflict", Some("config_version_mismatch"));
    }
    if health.is_running() && health.lease_timeout_ms() != request.lease_timeout_ms {
        health.stop();
        return answer("409 Conflict", Some("start_parameters_conflict"));
    }
    match health.start_lease(now_ms, request.lease_timeout_ms) {
        Ok(_) => answer("204 No Content", None),
        Err(e) => answer("409 Conflict", Some(e)),
    }
}

/// A moment in the form of an ISO 8601 date and time with its zone, as far as it is looked at.
pub open spec fn instant_form(bytes: Seq<u8>) -> bool {
    let n = bytes.len();
    &&& n >= 20
    &&& bytes[4] == 0x2d
    &&& bytes[7] == 0x2d
    &&& bytes.contains(0x54)
    &&& bytes[n - 1] == 0x5a || bytes[n - 6] == 0x2b || bytes[n - 6] == 0x2d
}

pub fn valid_instant(value: &str) -> (r: bool)
    ensures
        r == instant_form(encode_utf8(value@)),
{
    let bytes: &[u8] = value.as_bytes();
    let n: usize = bytes.len();
    if n < 20 || bytes[4] != 0x2d || bytes[7] != 0x2d {
        return false;
    }
    if !(bytes[n - 1] == 0x5a || bytes[n - 6] == 0x2b || bytes[n - 6] == 0x2d) {
        return false;
    }
    let mut i: usize = 0;
    while i < n
        invariant
            n == bytes@.len(),
            i <= n,
            bytes@ == encode_utf8(value@),
            n >= 20,
            bytes@[4] == 0x2d,
            bytes@[7] == 0x2d,
            bytes@[n - 1] == 0x5a || bytes@[n - 6] == 0x2b || bytes@[n - 6] == 0x2d,
            forall|j: int| 0 <= j < i ==> bytes@[j] != 0x54,
        decreases n - i,
    {
        if bytes[i] == 0x54 {
            assert(bytes@.contains(bytes@[i as int]));
            return true;
        }
        i += 1;
    }
    false
}

/// Renews the engine's lease.  A heartbeat under another version stops the engine.
pub fn heartbeat(
    request: Result<HeartbeatRequest, &'static str>,
    health: &mut HealthState,
    store: &StrategyStore,
    now_ms: u64,
) -> (r: HttpResponse)
    ensures
        match request {
            Err(e) => says(r, "400 Bad Request", Some(e)) && *final(health)
                == old(health).stopped(),
            Ok(request) => if !valid_version(request.config_version@) || !instant_form(
                encode_utf8(request.sent_at@),
            ) {
                says(r, "422 Unprocessable Entity", Some("invalid_heartbeat")) && *final(health)
                    == old(health).stopped()
            } else if !store.has_version(request.config_version@) {
                says(r, "204 No Content", None) && *final(health) == old(health).stopped()
            } else if old(health).state == RunState::Running {
                says(r, "204 No Content", None) && *final(health) == (HealthState {
                    last_heartbeat_ms: now_ms,
                    ..*old(health)
                })
            } else {
                says(r, "409 Conflict", Some("engine_not_running")) && *final(health)
                    == *old(health)
            },
        },
{
    let request: HeartbeatRequest = match request {
        Ok(request) => request,
        Err(e) => {
            health.stop();
            return answer("400 Bad Request", Some(e));
        },
    };
    if !valid_config_version(request.config_version.as_str()) || !valid_instant(
        request.sent_at.as_str(),
    ) {
        health.stop();
        return answer("422 Unprocessable Entity", Some("invalid_heartbeat"));
    }
    if !store.version_matches(request.config_version.as_str()) {
        health.stop();
        return answer("204 No Content", None);
    }
    match health.heartbeat(now_ms) {
        Ok(_) => answer("204 No Content", None),
        Err(e) => answer("409 Conflict", Some(e)),
    }
}

/// Stops the engine, whatever the request says.
pub fn stop(request: Result<StopRequest, &'static str>, health: &mut HealthState) -> (r:
    HttpResponse)
    ensures
        *final(health) == old(health).stopped(),
        match request {
            Err(e) => says(r, "400 Bad Request", Some(e)),
            Ok(request) => if blank(request.reason@) || encode_utf8(request.reason@).len() > 512 {
                says(r, "422 Unprocessable Entity", Some("invalid_stop_reason"))
            } else {
                says(r, "204 No Content", None)
            },
        },
{
    health.stop();
    match request {
        Err(e) => answer("400 Bad Request", Some(e)),
        Ok(request) => {
            if is_blank(request.reason.as_str()) || byte_len(request.reason.as_str()) > 512 {
                answer("422 Unprocessable Entity", Some("invalid_stop_reason"))
            } else {
                answer("204 No Content", None)
            }
        },
    }
}

/// How long the watchdog waits before it looks at the lease again: half of the lease, between a
/// millisecond and a second.
pub fn watchdog_wait_ms(health: &HealthState) -> (r: u64)
    ensures
        r == (if health.lease_timeout_ms < 2 {
            1
        } else if health.lease_timeout_ms > 2_000 {
            1_000
        } else {
            health.lease_timeout_ms / 2
        }),
{
    let half: u64 = health.lease_timeout_ms() / 2;
    if half < 1 {
        1
    } else if half > 1_000 {
        1_000
    } else {
        half
    }
}

/// Faults an engine that runs although its lease has run out.
pub fn watchdog_check(health: &mut HealthState, now_ms: u64)
    ensures
        *final(health) == if old(health).lease_over(now_ms) {
            old(health).tripped(4)
        } else {
            *old(health)
        },
{
    if health.heartbeat_expired(now_ms) {
        health.trip(4);
    }
}

// ---------------------------------------------------------------------------------------------
// Laws.

/// A request to start that cannot be read, or that is refused for what it asks, leaves no engine
/// running.  One that the engine itself refuses leaves the engine as it was.  So a request starts
/// an engine that was not running only where neither refuses it.
pub proof fn law_start_fails_closed(
    request: Result<StartRequest, &'static str>,
    health: HealthState,
    store: StrategyStore,
    now_ms: u64,
)
    ensures
        ({
            let left = left_by_start(request, health, store, now_ms);
            let refused = request is Err || start_refusal(request->Ok_0, health, store) is Some;
            &&& refused ==> left.state != RunState::Running
            &&& !refused && health.may_start() is Err ==> left == health
            &&& left.state == RunState::Running && health.state != RunState::Running ==> !refused
                && health.may_start() is Ok
        }),
{
}

/// The engine is started only under the version in force, for a simulation, and with a lease of
/// at most five minutes.
pub proof fn law_start_conditions(
    request: StartRequest,
    health: HealthState,
    store: StrategyStore,
)
    requires
        start_refusal(request, health, store) is None,
    ensures
        store.has_version(request.config_version@),
        request.mode == TradingMode::DryRun,
        0 < request.lease_timeout_ms <= 300_000,
{
}

/// Starting an engine that runs under the same lease renews the lease and changes nothing else.
pub proof fn law_repeated_start(health: HealthState, now_ms: u64, later: u64, lease: u64)
    requires
        health.may_start() is Ok,
    ensures
        health.leased(now_ms, lease).may_start() is Ok,
        health.leased(now_ms, lease).leased(later, lease) == health.leased(later, lease),
{
}

/// An engine that no heartbeat reaches within its lease is faulted, and its fault is named.
pub proof fn law_lease_runs_out(health: HealthState, now_ms: u64, lease: u64, later: u64)
    requires
        health.may_start() is Ok,
        later > now_ms + lease,
    ensures
        health.leased(now_ms, lease).lease_over(later),
        health.leased(now_ms, lease).tripped(4).state == RunState::Faulted,
        crate::health::fault_label(health.leased(now_ms, lease).tripped(4).fault_code)
            == "heartbeat_timeout",
{
}

/// A request to start is refused exactly where its version or its lease makes no sense, where it
/// asks for live trading, where it is of another version than the one in force, or where an engine
/// runs under another lease.
pub proof fn law_start_refusal(request: StartRequest, health: HealthState, store: StrategyStore)
    ensures
        start_refusal(request, health, store) is None <==> {
            &&& !blank(request.config_version@)
            &&& encode_utf8(request.config_version@).len() <= 128
            &&& 0 < request.lease_timeout_ms <= 300_000
            &&& request.mode == TradingMode::DryRun
            &&& store.config_version is Some
            &&& store.config_version->0@ == request.config_version@
            &&& health.state == RunState::Running ==> health.lease_timeout_ms
                == request.lease_timeout_ms
        },
{
}

/// A request to start leaves a running engine exactly where it is not refused and the market is
/// ready, the audit log healthy and no fault is on record; its lease then counts from now.
pub proof fn law_started_engine(
    request: StartRequest,
    health: HealthState,
    store: StrategyStore,
    now_ms: u64,
)
    ensures
        ({
            let left = left_by_start(Ok(request), health, store, now_ms);
            let fit = health.market_ready && health.audit_healthy && health.state
                != RunState::Faulted;
            let asked = start_refusal(request, health, store) is None;
            &&& asked && fit ==> left == (HealthState {
                state: RunState::Running,
                lease_timeout_ms: request.lease_timeout_ms,
                last_heartbeat_ms: now_ms,
                ..health
            })
            &&& asked && !fit ==> left == health
            &&& !asked ==> left == (HealthState { state: RunState::Stopped, ..health })
        }),
{
}

/// Each command has a method and a path of its own, and nothing else is a command.
pub proof fn law_routes(method: Seq<char>, path: Seq<char>)
    ensures
        route_of(method, path) == Route::Health <==> method == "GET"@ && path == "/v1/health"@,
        route_of(method, path) == Route::Config <==> method == "PUT"@ && path == "/v1/config"@,
        route_of(method, path) == Route::Start <==> method == "POST"@ && path
            == "/v1/control/start"@,
        route_of(method, path) == Route::Heartbeat <==> method == "POST"@ && path
            == "/v1/control/heartbeat"@,
        route_of(method, path) == Route::Stop <==> method == "POST"@ && path
            == "/v1/control/stop"@,
{
    reveal_strlit("GET");
    reveal_strlit("PUT");
    reveal_strlit("POST");
    reveal_strlit("/v1/health");
    reveal_strlit("/v1/config");
    reveal_strlit("/v1/control/start");
    reveal_strlit("/v1/control/heartbeat");
    reveal_strlit("/v1/control/stop");
    assert("GET"@[0] != "PUT"@[0]);
    assert("GET"@.len() != "POST"@.len());
    assert("PUT"@.len() != "POST"@.len());
    assert("/v1/control/start"@.len() != "/v1/control/heartbeat"@.len());
    assert("/v1/control/start"@.len() != "/v1/control/stop"@.len());
    assert("/v1/control/heartbeat"@.len() != "/v1/control/stop"@.len());
}

/// A year, a month and a day with dashes between them, a `T`, and a zone at the end make a moment, if
/// all of it is twenty bytes or more; without one of these it is none.
pub proof fn law_instants(
    year: Seq<u8>,
    month: Seq<u8>,
    day: Seq<u8>,
    time: Seq<u8>,
    zone: Seq<u8>,
    other: Seq<u8>,
)
    requires
        year.len() == 4,
        month.len() == 2,
        zone == seq![0x5au8] || (zone.len() == 6 && (zone[0] == 0x2b || zone[0] == 0x2d)),
    ensures
        ({
            let written = year + seq![0x2du8] + month + seq![0x2du8] + day + seq![0x54u8] + time
                + zone;
            instant_form(written) <==> written.len() >= 20
        }),
        other.len() < 20 ==> !instant_form(other),
        other.len() >= 20 && other[4] != 0x2d ==> !instant_form(other),
        other.len() >= 20 && other[7] != 0x2d ==> !instant_form(other),
        (forall|i: int| 0 <= i < other.len() ==> #[trigger] other[i] != 0x54) ==> !instant_form(
            other,
        ),
        other.len() >= 20 && other[other.len() - 1] != 0x5a && other[other.len() - 6] != 0x2b
            && other[other.len() - 6] != 0x2d ==> !instant_form(other),
{
    let front = year + seq![0x2du8] + month + seq![0x2du8] + day;
    let written = front + seq![0x54u8] + time + zone;
    let n = written.len();
    assert(written[4] == 0x2d);
    assert(written[7] == 0x2d);
    assert(written[front.len() as int] == 0x54);
    assert(zone.len() == 1 ==> written[n - 1] == zone[0]);
    assert(zone.len() == 6 ==> written[n - 6] == zone[0]);
}

/// An answer has the status that it is given, and its body tells the error and nothing where there is
/// none.
pub proof fn law_answers_say(r: HttpResponse, status: &'static str, error: &'static str)
    ensures
        says(r, status, Some(error)) <==> r.status == status && r.body@ == error_object(error@),
        says(r, status, None) <==> r.status == status && r.body@.len() == 0,
{
    assert(r.body@.len() == 0 ==> r.body@ == Seq::<u8>::empty());
}

/// The engine is told to be down exactly while it is faulted, and to accept commands exactly while it
/// is not and its audit trail is healthy.
pub proof fn law_told_health(health: HealthState, version: String)
    ensures
        ({
            let up = if health.state == RunState::Faulted {
                "\"DOWN\""@
            } else {
                "\"UP\""@
            };
            let accepts = if health.state != RunState::Faulted && health.audit_healthy {
                "true"@
            } else {
                "false"@
            };
            let front = encode_utf8("{\"status\":"@) + encode_utf8(up) + encode_utf8(
                ",\"acceptingCommands\":"@,
            ) + encode_utf8(accepts) + encode_utf8(",\"configVersion\":"@);
            &&& health_object(health, None) == front + encode_utf8("null"@) + encode_utf8("}"@)
            &&& health_object(health, Some(version)) == front + json_string(version@)
                + encode_utf8("}"@)
        }),
{
}

/// What a refused request to start is answered: an unprocessable one that it is, and any other that
/// it is in conflict with what is in force.
pub proof fn law_start_answers(request: StartRequest, health: HealthState, store: StrategyStore)
    ensures
        start_refusal(request, health, store) matches Some((status, error)) ==> {
            let sound = !blank(request.config_version@) && encode_utf8(
                request.config_version@,
            ).len() <= 128 && 0 < request.lease_timeout_ms <= 300_000;
            let live = request.mode == TradingMode::Live;
            let known = store.config_version is Some && store.config_version->0@
                == request.config_version@;
            &&& !sound ==> status == "422 Unprocessable Entity" && error == "invalid_start_request"
            &&& sound ==> status == "409 Conflict"
            &&& sound && live ==> error == "live_execution_disabled"
            &&& sound && !live && !known ==> error == "config_version_mismatch"
            &&& sound && !live && known ==> error == "start_parameters_conflict"
        },
{
}

} // verus!
