//! A signal's way from its arrival to its closed position.
//!
//! Each function here is what the executor decides between two waits: for a moment, for the
//! exchange, or for the position's exit.

use vstd::prelude::*;

use super::audit_context::{
    audit_context, context_of, market_of, token_of, token_text, told_price,
};
use super::exit_decision::ExitDecision;
use super::gtc_entry::GtcEntryResult;
use super::live_exit::{LiveExit, Selling};
use super::math::{floor_to_2_decimals, two_places_down};
use super::rejection::{reject, reject_with_context, rejected, rejection_event};
use super::revalidation::{
    asks_of, book_of, entry_at, executable_ask_shares, outcome_book, size_up_to, small, tolerance,
};
use super::token::{parse_token, token_number};
use crate::binary64::model::{
    at_most, less, lesser, minus, of_nat, over, plus, ratio, rounded_down, times,
};
use crate::binary64::Binary64;
use crate::emitter::audit::{dry_run_exit, AuditBookContext, AuditEvent};
use crate::engine::state::{
    closed_live_position, closed_position, fee_of, five_places, five_places_some, round_5, round_5_some,
    ClosedLivePosition, ClosedPosition, EngineState,
};
use crate::health::{HealthState, RunState};
use crate::market::{ActiveMarket, MarketClock};
use crate::runtime_config::{StrategySnapshot, StrategyStore};
use crate::shadow::ShadowExitRequest;
use crate::time::age;
use crate::ws::polymarket::{BookSnapshot, DepthSnapshot, MarketLevels};

pub use super::revalidation::revalidate_entry;
pub use super::types::{OrderSide, OrderSignal};

verus! {

/// A signal that is not carried out: why, and in what market.
#[derive(Debug)]
pub struct Rejection {
    pub reason: &'static str,
    pub context: Option<AuditBookContext>,
}

/// The settings that a signal is carried out under: those that it was given under, by a running
/// engine.
pub open spec fn settings_for(signal: OrderSignal, health: HealthState, store: StrategyStore) -> Result<
    StrategySnapshot,
    &'static str,
> {
    if health.state != RunState::Running {
        Err("engine_stopped")
    } else {
        match store.active() {
            None => Err("config_missing"),
            Some(config) => if config.generation != signal.config_generation {
                Err("config_changed")
            } else {
                Ok(config)
            },
        }
    }
}

fn current_settings(signal: &OrderSignal, health: &HealthState, store: &StrategyStore) -> (r:
    Result<StrategySnapshot, &'static str>)
    ensures
        r == settings_for(*signal, *health, *store),
{
    if !health.is_running() {
        return Err("engine_stopped");
    }
    match store.load() {
        None => Err("config_missing"),
        Some(config) => {
            if config.generation != signal.config_generation {
                Err("config_changed")
            } else {
                Ok(config)
            }
        },
    }
}

/// The event of a signal's arrival.
pub fn signal_event(
    signal: OrderSignal,
    book: BookSnapshot,
    now_ms: u64,
    market: Option<&ActiveMarket>,
) -> (r: AuditEvent)
    ensures
        r == (AuditEvent::SignalAccepted {
            signal_ts_ms: signal.signal_ts_ms,
            side: signal.side.label(),
            momentum_usd: signal.momentum_usd,
            binance_price: signal.binance_price,
            context: Some(
                context_of(book, now_ms, signal.side, market_of(market), None, None, None),
            ),
        }),
{
    let context: AuditBookContext = audit_context(
        book,
        now_ms,
        signal.side,
        market,
        None,
        None,
        None,
    );
    AuditEvent::signal(signal, Some(context))
}

// ---------------------------------------------------------------------------------------------
// Simulated execution.

/// A simulated position.
#[derive(Debug, Clone, Copy)]
pub struct DryRunPosition {
    pub position_id: u64,
    pub entry_at_ms: u64,
    pub entry_price: Binary64,
    pub shares: u64,
    pub config: StrategySnapshot,
}

/// What a signal comes to when it is due.
#[derive(Debug)]
pub enum DryRunStart {
    Rejected(AuditEvent),
    Opened(DryRunPosition, AuditEvent),
}

/// The entry that a signal leads to when it is due, or why it leads to none.
pub open spec fn due_entry(
    signal: OrderSignal,
    at: u64,
    health: HealthState,
    store: StrategyStore,
    book: BookSnapshot,
    clock: MarketClock,
    market: Option<ActiveMarket>,
    reason: &'static str,
) -> Result<(StrategySnapshot, Binary64, u64), Rejection> {
    match settings_for(signal, health, store) {
        Err(reason) => Err(Rejection { reason, context: None }),
        Ok(config) => match entry_at(book, at, clock, config, signal.side) {
            None => Err(
                Rejection {
                    reason,
                    context: Some(
                        context_of(
                            book,
                            at,
                            signal.side,
                            market,
                            Some(config.entry_slippage),
                            None,
                            None,
                        ),
                    ),
                },
            ),
            Some((ask, shares)) => Ok((config, ask, shares)),
        },
    }
}

fn find_entry(
    signal: &OrderSignal,
    at: u64,
    health: &HealthState,
    store: &StrategyStore,
    book: BookSnapshot,
    clock: &MarketClock,
    market: Option<&ActiveMarket>,
    reason: &'static str,
) -> (r: Result<(StrategySnapshot, Binary64, u64), Rejection>)
    ensures
        r == due_entry(
            *signal,
            at,
            *health,
            *store,
            book,
            *clock,
            market_of(market),
            reason,
        ),
{
    let config: StrategySnapshot = match current_settings(signal, health, store) {
        Ok(config) => config,
        Err(reason) => return Err(Rejection { reason, context: None }),
    };
    match revalidate_entry(book, at, clock, &config, signal.side) {
        None => Err(
            Rejection {
                reason,
                context: Some(
                    audit_context(
                        book,
                        at,
                        signal.side,
                        market,
                        Some(config.entry_slippage),
                        None,
                        None,
                    ),
                ),
            },
        ),
        Some((ask, shares)) => Ok((config, ask, shares)),
    }
}

/// What a signal comes to when it is due, and the state that it leaves: a position is opened, or
/// the reservation is given back.
pub open spec fn dry_run_started(
    signal: OrderSignal,
    executed_at_ms: u64,
    health: HealthState,
    store: StrategyStore,
    book: BookSnapshot,
    clock: MarketClock,
    state: EngineState,
) -> (DryRunStart, EngineState) {
    match due_entry(
        signal,
        executed_at_ms,
        health,
        store,
        book,
        clock,
        None,
        "entry_revalidation",
    ) {
        Err(rejection) => (
            DryRunStart::Rejected(rejected(signal, rejection.reason, rejection.context)),
            state.released(),
        ),
        Ok((config, ask, shares)) => (
            DryRunStart::Opened(
                DryRunPosition {
                    position_id: state.next_position_id,
                    entry_at_ms: executed_at_ms,
                    entry_price: ask,
                    shares,
                    config,
                },
                AuditEvent::DryRunEntry {
                    position_id: state.next_position_id,
                    signal_ts_ms: signal.signal_ts_ms,
                    executed_at_ms,
                    latency_ms: age(executed_at_ms, signal.signal_ts_ms),
                    side: signal.side.label(),
                    price: five_places(ask),
                    shares,
                    notional_usd: five_places(times(ask, of_nat(shares as nat))),
                },
            ),
            state.opened(),
        ),
    }
}

/// Opens a simulated position when a signal is due, if it is still worth it.
pub fn dry_run_entry(
    signal: OrderSignal,
    executed_at_ms: u64,
    health: &HealthState,
    store: &StrategyStore,
    book: BookSnapshot,
    clock: &MarketClock,
    engine_state: &mut EngineState,
) -> (r: DryRunStart)
    ensures
        (r, *final(engine_state)) == dry_run_started(
            signal,
            executed_at_ms,
            *health,
            *store,
            book,
            *clock,
            *old(engine_state),
        ),
{
    let (config, ask, shares) = match find_entry(
        &signal,
        executed_at_ms,
        health,
        store,
        book,
        clock,
        None,
        "entry_revalidation",
    ) {
        Ok(entry) => entry,
        Err(rejection) => {
            return DryRunStart::Rejected(
                reject_with_context(signal, rejection.reason, engine_state, rejection.context),
            );
        },
    };
    let position_id: u64 = engine_state.open_reserved();
    let event: AuditEvent = AuditEvent::DryRunEntry {
        position_id,
        signal_ts_ms: signal.signal_ts_ms,
        executed_at_ms,
        latency_ms: executed_at_ms.saturating_sub(signal.signal_ts_ms),
        side: signal.side.as_str(),
        price: round_5(ask),
        shares,
        notional_usd: round_5(ask.mul(Binary64::from_u64(shares))),
    };
    DryRunStart::Opened(
        DryRunPosition { position_id, entry_at_ms: executed_at_ms, entry_price: ask, shares, config },
        event,
    )
}

/// What an exit comes to: the position is given up unsold, or it is closed.
#[derive(Debug)]
pub enum DryRunEnd {
    Released(AuditEvent),
    Closed(AuditEvent),
}

/// The price at which a position is left, or why there is none.
pub open spec fn exit_price(
    book: BookSnapshot,
    side: OrderSide,
    at: u64,
    max_book_age_ms: u64,
    stale_reason: &'static str,
    missing_reason: &'static str,
) -> Result<Binary64, &'static str> {
    if age(at, book.received_at_ms) > max_book_age_ms {
        Err(stale_reason)
    } else {
        match book_of(book, side).bid {
            None => Err(missing_reason),
            Some(bid) => Ok(bid),
        }
    }
}

fn find_exit_price(
    book: BookSnapshot,
    side: OrderSide,
    at: u64,
    max_book_age_ms: u64,
    stale_reason: &'static str,
    missing_reason: &'static str,
) -> (r: Result<Binary64, &'static str>)
    ensures
        r == exit_price(book, side, at, max_book_age_ms, stale_reason, missing_reason),
{
    if at.saturating_sub(book.received_at_ms) > max_book_age_ms {
        return Err(stale_reason);
    }
    match outcome_book(book, side).bid {
        None => Err(missing_reason),
        Some(bid) => Ok(bid),
    }
}

/// What a decided exit comes to, and the state that it leaves: the position is closed at the bid,
/// or given up where there is none.
pub open spec fn dry_run_ended(
    signal: OrderSignal,
    position: DryRunPosition,
    decision: ExitDecision,
    book: BookSnapshot,
    state: EngineState,
    closed_at_ms: u64,
) -> (DryRunEnd, EngineState) {
    match exit_price(
        book,
        signal.side,
        decision.decided_at_ms,
        position.config.max_book_age_ms,
        "stale_exit_book_position_released",
        "missing_exit_bid_position_released",
    ) {
        Err(reason) => (
            DryRunEnd::Released(rejected(signal, reason, None)),
            state.released(),
        ),
        Ok(bid) => {
            let closed = closed_position(position.entry_price, bid, position.shares);
            (
                DryRunEnd::Closed(
                    dry_run_exit(
                        position.position_id,
                        signal.side.label(),
                        closed,
                        decision.reason,
                        decision.held_ms,
                        five_places_some(decision.exit_momentum_usd),
                        closed_at_ms,
                    ),
                ),
                state.closed(closed.net_pnl, closed_at_ms),
            )
        },
    }
}

/// Closes a simulated position at the bid, once its exit is decided.
pub fn dry_run_close(
    signal: OrderSignal,
    position: &DryRunPosition,
    decision: &ExitDecision,
    book: BookSnapshot,
    engine_state: &mut EngineState,
    closed_at_ms: u64,
) -> (r: DryRunEnd)
    ensures
        (r, *final(engine_state)) == dry_run_ended(
            signal,
            *position,
            *decision,
            book,
            *old(engine_state),
            closed_at_ms,
        ),
{
    let bid: Binary64 = match find_exit_price(
        book,
        signal.side,
        decision.decided_at_ms,
        position.config.max_book_age_ms,
        "stale_exit_book_position_released",
        "missing_exit_bid_position_released",
    ) {
        Ok(bid) => bid,
        Err(reason) => {
            return DryRunEnd::Released(reject(signal, reason, engine_state));
        },
    };
    let closed: ClosedPosition = engine_state.close_at(
        position.entry_price,
        bid,
        position.shares,
        closed_at_ms,
    );
    DryRunEnd::Closed(
        AuditEvent::exit_at(
            position.position_id,
            signal.side.as_str(),
            closed,
            decision.reason,
            decision.held_ms,
            round_5_some(decision.exit_momentum_usd),
            closed_at_ms,
        ),
    )
}

/// What the simulation of other exits is told of one.
pub fn shadow_request(
    position_id: u64,
    signal: &OrderSignal,
    entry_ms: u64,
    decision: &ExitDecision,
    entry_price: Binary64,
    shares: Binary64,
    book: BookSnapshot,
    started_ns: u128,
    finished_ns: u128,
) -> (r: ShadowExitRequest)
    ensures
        r == (ShadowExitRequest {
            position_id,
            side: signal.side,
            entry_ms,
            decision_ms: decision.decided_at_ms,
            exit_reason: decision.reason,
            entry_price,
            shares,
            decision_processing_started_ns: started_ns,
            decision_processing_finished_ns: finished_ns,
            event_receive_ns: started_ns,
            event_exchange_timestamp_ms: book.source_ts_ms,
            book_age_ms: age(decision.decided_at_ms, book.received_at_ms),
        }),
{
    ShadowExitRequest {
        position_id,
        side: signal.side,
        entry_ms,
        decision_ms: decision.decided_at_ms,
        exit_reason: decision.reason,
        entry_price,
        shares,
        decision_processing_started_ns: started_ns,
        decision_processing_finished_ns: finished_ns,
        event_receive_ns: started_ns,
        event_exchange_timestamp_ms: book.source_ts_ms,
        book_age_ms: decision.decided_at_ms.saturating_sub(book.received_at_ms),
    }
}

// ---------------------------------------------------------------------------------------------
// Execution on the exchange.

/// A signal that waits for its confirmation.
#[derive(Debug, Clone, Copy, PartialEq, Eq, Structural)]
pub struct Confirming {
    pub initial_bid: Binary64,
    pub entry_confirmation_ms: u64,
}

/// Checks a signal when it is due.  One that is still worth it waits to be confirmed by a
/// better bid.
pub fn live_check(
    signal: OrderSignal,
    executed_at_ms: u64,
    health: &HealthState,
    store: &StrategyStore,
    book: BookSnapshot,
    clock: &MarketClock,
    market: Option<&ActiveMarket>,
    engine_state: &mut EngineState,
) -> (r: Result<Confirming, AuditEvent>)
    ensures
        match due_entry(
            signal,
            executed_at_ms,
            *health,
            *store,
            book,
            *clock,
            market_of(market),
            "entry_revalidation",
        ) {
            Err(rejection) => {
                &&& r == Err::<Confirming, AuditEvent>(
                    rejected(signal, rejection.reason, rejection.context),
                )
                &&& *final(engine_state) == old(engine_state).released()
            },
            Ok((config, _, _)) => {
                &&& r == Ok::<Confirming, AuditEvent>(
                    (Confirming {
                        initial_bid: book_of(book, signal.side).bid->0,
                        entry_confirmation_ms: config.entry_confirmation_ms,
                    }),
                )
                &&& *final(engine_state) == *old(engine_state)
            },
        },
{
    match find_entry(
        &signal,
        executed_at_ms,
        health,
        store,
        book,
        clock,
        market,
        "entry_revalidation",
    ) {
        Err(rejection) => Err(
            reject_with_context(signal, rejection.reason, engine_state, rejection.context),
        ),
        Ok((config, _, _)) => match outcome_book(book, signal.side).bid {
            Some(initial_bid) => Ok(
                Confirming {
                    initial_bid,
                    entry_confirmation_ms: config.entry_confirmation_ms,
                },
            ),
            None => Err(reject(signal, "entry_confirmation_missing_bid", engine_state)),
        },
    }
}

/// An order to buy.
#[derive(Debug)]
pub struct EntryOrder {
    pub config: StrategySnapshot,
    pub shares: u64,
    pub limit_price: Binary64,
    pub token: (u64, u64, u64, u64),
    pub token_id: String,
    pub market: ActiveMarket,
    pub confirmed_at_ms: u64,
    pub context: AuditBookContext,
}

/// The depth that an order asks of the book: a quarter more than the order.
pub open spec fn required_depth(shares: u64) -> Binary64 {
    times(of_nat(shares as nat), ratio(125, 100))
}

/// The most that is paid for an entry at `ask`.
pub open spec fn limit_for(ask: Binary64, slippage: Binary64) -> Binary64 {
    lesser(plus(ask, slippage), ratio(95, 100))
}

/// The order that a confirmed signal leads to, or why it leads to none; `token` is the number
/// that the market's token writes.
pub open spec fn confirmed(
    signal: OrderSignal,
    initial_bid: Binary64,
    at: u64,
    health: HealthState,
    store: StrategyStore,
    book: BookSnapshot,
    clock: MarketClock,
    market: Option<ActiveMarket>,
    depth: MarketLevels,
    token: Option<(u64, u64, u64, u64)>,
) -> Result<EntryOrder, Rejection> {
    match due_entry(
        signal,
        at,
        health,
        store,
        book,
        clock,
        market,
        "entry_confirmation_revalidation",
    ) {
        Err(rejection) => Err(rejection),
        Ok((config, ask, shares)) => {
            let bid = book_of(book, signal.side).bid->0;
            let slippage = Some(config.entry_slippage);
            if less(
                plus(bid, tolerance()),
                plus(initial_bid, config.min_entry_bid_improvement),
            ) {
                Err(
                    Rejection {
                        reason: "entry_confirmation",
                        context: Some(
                            context_of(book, at, signal.side, market, slippage, None, None),
                        ),
                    },
                )
            } else if market is None {
                Err(Rejection { reason: "market_missing", context: None })
            } else if token is None {
                Err(Rejection { reason: "invalid_token_id", context: None })
            } else {
                let limit = limit_for(ask, config.entry_slippage);
                let plain = context_of(
                    book,
                    at,
                    signal.side,
                    market,
                    slippage,
                    Some(limit),
                    Some(shares),
                );
                let available = size_up_to(asks_of(depth, signal.side), limit);
                let measured = AuditBookContext {
                    available_shares: Some(five_places(available)),
                    required_shares: Some(five_places(required_depth(shares))),
                    ..plain
                };
                if shares < config.min_exchange_shares {
                    Err(
                        Rejection {
                            reason: "entry_below_exchange_min_size",
                            context: Some(plain),
                        },
                    )
                } else if age(at, depth.received_at_ms) > config.max_book_age_ms || less(
                    plus(available, tolerance()),
                    required_depth(shares),
                ) {
                    Err(
                        Rejection {
                            reason: "insufficient_entry_depth",
                            context: Some(measured),
                        },
                    )
                } else {
                    Ok(
                        EntryOrder {
                            config,
                            shares,
                            limit_price: limit,
                            token: token->0,
                            token_id: token_of(market->0, signal.side),
                            market: market->0,
                            confirmed_at_ms: at,
                            context: measured,
                        },
                    )
                }
            }
        },
    }
}

/// Checks a signal again, with the number that the market's token writes.
pub fn confirm_entry(
    signal: &OrderSignal,
    initial_bid: Binary64,
    confirmed_at_ms: u64,
    health: &HealthState,
    store: &StrategyStore,
    book: BookSnapshot,
    clock: &MarketClock,
    market: Option<&ActiveMarket>,
    depth: &DepthSnapshot,
    token: Option<(u64, u64, u64, u64)>,
) -> (r: Result<EntryOrder, Rejection>)
    ensures
        r == confirmed(
            *signal,
            initial_bid,
            confirmed_at_ms,
            *health,
            *store,
            book,
            *clock,
            market_of(market),
            depth@,
            token,
        ),
{
    let (config, ask, shares) = match find_entry(
        signal,
        confirmed_at_ms,
        health,
        store,
        book,
        clock,
        market,
        "entry_confirmation_revalidation",
    ) {
        Ok(entry) => entry,
        Err(rejection) => return Err(rejection),
    };
    let confirmed_bid: Binary64 = match outcome_book(book, signal.side).bid {
        Some(bid) => bid,
        None => {
            return Err(Rejection { reason: "entry_confirmation_missing_bid", context: None });
        },
    };
    if confirmed_bid.add(small()).lt(initial_bid.add(config.min_entry_bid_improvement)) {
        return Err(
            Rejection {
                reason: "entry_confirmation",
                context: Some(
                    audit_context(
                        book,
                        confirmed_at_ms,
                        signal.side,
                        market,
                        Some(config.entry_slippage),
                        None,
                        None,
                    ),
                ),
            },
        );
    }
    let active: &ActiveMarket = match market {
        Some(m) => m,
        None => return Err(Rejection { reason: "market_missing", context: None }),
    };
    let number: (u64, u64, u64, u64) = match token {
        Some(n) => n,
        None => return Err(Rejection { reason: "invalid_token_id", context: None }),
    };
    let limit_price: Binary64 = ask.add(config.entry_slippage).min(Binary64::from_ratio(95, 100));
    let mut context: AuditBookContext = audit_context(
        book,
        confirmed_at_ms,
        signal.side,
        market,
        Some(config.entry_slippage),
        Some(limit_price),
        Some(shares),
    );
    if shares < config.min_exchange_shares {
        return Err(
            Rejection { reason: "entry_below_exchange_min_size", context: Some(context) },
        );
    }
    let available: Binary64 = executable_ask_shares(depth, signal.side, limit_price);
    let required: Binary64 = Binary64::from_u64(shares).mul(Binary64::from_ratio(125, 100));
    context.available_shares = Some(round_5(available));
    context.required_shares = Some(round_5(required));
    if confirmed_at_ms.saturating_sub(depth.received_at_ms) > config.max_book_age_ms
        || available.add(small()).lt(required) {
        return Err(Rejection { reason: "insufficient_entry_depth", context: Some(context) });
    }
    Ok(
        EntryOrder {
            config,
            shares,
            limit_price,
            token: number,
            token_id: token_text(active, signal.side),
            market: active.clone(),
            confirmed_at_ms,
            context,
        },
    )
}

/// The number that the token of a market's side writes.
pub open spec fn number_for(market: Option<ActiveMarket>, side: OrderSide) -> Option<
    (u64, u64, u64, u64),
> {
    match market {
        Some(m) => token_number(token_of(m, side)@),
        None => None,
    }
}

/// Checks a signal again after the time of its confirmation, and makes an order of it.
pub fn live_confirm(
    signal: OrderSignal,
    initial_bid: Binary64,
    confirmed_at_ms: u64,
    health: &HealthState,
    store: &StrategyStore,
    book: BookSnapshot,
    clock: &MarketClock,
    market: Option<&ActiveMarket>,
    depth: &DepthSnapshot,
    engine_state: &mut EngineState,
) -> (r: Result<EntryOrder, AuditEvent>)
    ensures
        match confirmed(
            signal,
            initial_bid,
            confirmed_at_ms,
            *health,
            *store,
            book,
            *clock,
            market_of(market),
            depth@,
            number_for(market_of(market), signal.side),
        ) {
            Err(rejection) => {
                &&& r == Err::<EntryOrder, AuditEvent>(
                    rejected(signal, rejection.reason, rejection.context),
                )
                &&& *final(engine_state) == old(engine_state).released()
            },
            Ok(order) => {
                &&& r == Ok::<EntryOrder, AuditEvent>(order)
                &&& *final(engine_state) == *old(engine_state)
            },
        },
{
    let token: Option<(u64, u64, u64, u64)> = match market {
        Some(m) => {
            let text: String = token_text(m, signal.side);
            parse_token(text.as_str())
        },
        None => None,
    };
    match confirm_entry(
        &signal,
        initial_bid,
        confirmed_at_ms,
        health,
        store,
        book,
        clock,
        market,
        depth,
        token,
    ) {
        Ok(order) => Ok(order),
        Err(rejection) => Err(
            reject_with_context(signal, rejection.reason, engine_state, rejection.context),
        ),
    }
}

/// Whose account the orders are placed on.
#[derive(Debug)]
pub struct Account {
    pub funder_address: Option<String>,
    pub signature_type: String,
}

/// A position on the exchange.
#[derive(Debug)]
pub struct LivePosition {
    pub position_id: u64,
    pub entry_at_ms: u64,
    pub entry_price: Binary64,
    pub filled_shares: Binary64,
    pub config: StrategySnapshot,
    pub market: ActiveMarket,
    pub token: (u64, u64, u64, u64),
    pub token_id: String,
}

/// What came of the order to buy.
#[derive(Debug)]
pub enum LiveStart {
    Rejected(AuditEvent),
    Opened(LivePosition, AuditEvent),
}

/// The context of an entry, with what came of its order.
pub open spec fn entry_context(order: EntryOrder, entry: GtcEntryResult, account: Account) -> AuditBookContext {
    AuditBookContext {
        fallback_order_id: entry.order_id,
        exchange_error: entry.error,
        filled_shares: Some(five_places(entry.filled_shares)),
        entry_submit_latency_ms: entry.submit_latency_ms,
        entry_build_latency_ms: entry.build_latency_ms,
        entry_sign_latency_ms: entry.sign_latency_ms,
        entry_post_latency_ms: entry.post_latency_ms,
        gtc_post_success: entry.post_success,
        gtc_post_status: entry.post_status,
        gtc_post_making_amount: five_places_some(entry.post_making_amount),
        gtc_post_taking_amount: five_places_some(entry.post_taking_amount),
        gtc_poll_count: Some(entry.poll_count),
        gtc_poll_status: entry.poll_status,
        gtc_poll_size_matched: five_places_some(entry.poll_size_matched),
        gtc_cancel_confirmed: entry.cancel_confirmed,
        gtc_final_status: entry.final_status,
        gtc_final_size_matched: five_places_some(entry.final_size_matched),
        entry_matched_funder_address: account.funder_address,
        signature_type: Some(account.signature_type),
        ..order.context
    }
}

/// The event of an entry on the exchange.
pub open spec fn live_entry(
    signal: OrderSignal,
    position: LivePosition,
    notional: Binary64,
    order_id: String,
    order_status: String,
    context: AuditBookContext,
) -> AuditEvent {
    AuditEvent::LiveEntry {
        position_id: position.position_id,
        signal_ts_ms: signal.signal_ts_ms,
        executed_at_ms: position.entry_at_ms,
        latency_ms: age(position.entry_at_ms, signal.signal_ts_ms),
        side: signal.side.label(),
        token_id: position.token_id,
        order_id,
        order_status,
        price: five_places(position.entry_price),
        shares: five_places(position.filled_shares),
        notional_usd: five_places(notional),
        context: Some(context),
    }
}

pub open spec fn is_text_or(text: String, wanted: Option<String>, other: Seq<char>) -> bool {
    match wanted {
        Some(w) => text == w,
        None => text@ == other,
    }
}

fn copy_text(text: &Option<String>) -> (r: Option<String>)
    ensures
        r == *text,
{
    match text {
        Some(t) => Some(t.clone()),
        None => None,
    }
}

/// What came of the order to buy: nothing was bought and the signal is given up, or the position
/// is open with what was bought.  An order that may still be open then faults the engine.
pub open spec fn opens(
    signal: OrderSignal,
    order: EntryOrder,
    entry: GtcEntryResult,
    account: Account,
    state: EngineState,
    health: HealthState,
    r: LiveStart,
    state_after: EngineState,
    health_after: HealthState,
) -> bool {
    if at_most(entry.filled_shares, of_nat(0)) {
        &&& r == LiveStart::Rejected(
            rejected(
                signal,
                if entry.pending {
                    "live_entry_gtc_pending"
                } else {
                    "live_entry_zero_fill"
                },
                Some(entry_context(order, entry, account)),
            ),
        )
        &&& state_after == state.released()
        &&& health_after == health
    } else {
        let position = LivePosition {
            position_id: state.next_position_id,
            entry_at_ms: order.confirmed_at_ms,
            entry_price: over(entry.notional_usd, entry.filled_shares),
            filled_shares: entry.filled_shares,
            config: order.config,
            market: order.market,
            token: order.token,
            token_id: order.token_id,
        };
        &&& r matches LiveStart::Opened(p, event)
        &&& p == position
        &&& event is LiveEntry
        &&& event == live_entry(
            signal,
            position,
            entry.notional_usd,
            event->LiveEntry_order_id,
            event->LiveEntry_order_status,
            entry_context(order, entry, account),
        )
        &&& is_text_or(event->LiveEntry_order_id, entry.order_id, Seq::empty())
        &&& is_text_or(event->LiveEntry_order_status, entry.order_status, "UNKNOWN"@)
        &&& state_after == state.opened()
        &&& health_after == if entry.pending {
            health.tripped(5)
        } else {
            health
        }
    }
}

/// Opens the position with what was bought, or gives the signal up if nothing was.  An order
/// that may still be open faults the engine.
pub fn live_opened(
    signal: OrderSignal,
    order: EntryOrder,
    entry: GtcEntryResult,
    account: &Account,
    engine_state: &mut EngineState,
    health: &mut HealthState,
) -> (r: LiveStart)
    ensures
        opens(
            signal,
            order,
            entry,
            *account,
            *old(engine_state),
            *old(health),
            r,
            *final(engine_state),
            *final(health),
        ),
{
    let pending: bool = entry.pending;
    let filled_shares: Binary64 = entry.filled_shares;
    let notional_usd: Binary64 = entry.notional_usd;
    let order_id: Option<String> = copy_text(&entry.order_id);
    let context: AuditBookContext = AuditBookContext {
        fallback_order_id: entry.order_id,
        exchange_error: entry.error,
        filled_shares: Some(round_5(filled_shares)),
        entry_submit_latency_ms: entry.submit_latency_ms,
        entry_build_latency_ms: entry.build_latency_ms,
        entry_sign_latency_ms: entry.sign_latency_ms,
        entry_post_latency_ms: entry.post_latency_ms,
        gtc_post_success: entry.post_success,
        gtc_post_status: entry.post_status,
        gtc_post_making_amount: round_5_some(entry.post_making_amount),
        gtc_post_taking_amount: round_5_some(entry.post_taking_amount),
        gtc_poll_count: Some(entry.poll_count),
        gtc_poll_status: entry.poll_status,
        gtc_poll_size_matched: round_5_some(entry.poll_size_matched),
        gtc_cancel_confirmed: entry.cancel_confirmed,
        gtc_final_status: entry.final_status,
        gtc_final_size_matched: round_5_some(entry.final_size_matched),
        entry_matched_funder_address: copy_text(&account.funder_address),
        signature_type: Some(account.signature_type.clone()),
        ..order.context
    };
    if filled_shares.le(Binary64::from_u64(0)) {
        let reason: &'static str = if pending {
            "live_entry_gtc_pending"
        } else {
            "live_entry_zero_fill"
        };
        return LiveStart::Rejected(
            reject_with_context(signal, reason, engine_state, Some(context)),
        );
    }
    if pending {
        health.trip(5);
    }
    let entry_price: Binary64 = notional_usd.div(filled_shares);
    let position_id: u64 = engine_state.open_reserved();
    let event: AuditEvent = AuditEvent::LiveEntry {
        position_id,
        signal_ts_ms: signal.signal_ts_ms,
        executed_at_ms: order.confirmed_at_ms,
        latency_ms: order.confirmed_at_ms.saturating_sub(signal.signal_ts_ms),
        side: signal.side.as_str(),
        token_id: order.token_id.clone(),
        order_id: match order_id {
            Some(id) => id,
            None => String::new(),
        },
        order_status: match entry.order_status {
            Some(status) => status,
            None => "UNKNOWN".to_owned(),
        },
        price: round_5(entry_price),
        shares: round_5(filled_shares),
        notional_usd: round_5(notional_usd),
        context: Some(context),
    };
    LiveStart::Opened(
        LivePosition {
            position_id,
            entry_at_ms: order.confirmed_at_ms,
            entry_price,
            filled_shares,
            config: order.config,
            market: order.market,
            token: order.token,
            token_id: order.token_id,
        },
        event,
    )
}

/// A sale to be made.
#[derive(Debug)]
pub struct ExitPlan {
    pub sellable_shares: Binary64,
    pub exit_bid: Binary64,
    pub context: AuditBookContext,
}

/// The context of an exit before its orders.
pub open spec fn exit_context(
    position: LivePosition,
    side: OrderSide,
    at: u64,
    book: BookSnapshot,
    account: Account,
) -> AuditBookContext {
    AuditBookContext {
        entry_matched_funder_address: account.funder_address,
        exit_attempt_funder_address: account.funder_address,
        signature_type: Some(account.signature_type),
        ..context_of(book, at, side, Some(position.market), None, None, None)
    }
}

/// The sale that a decided exit asks for, or why it cannot be made.
pub open spec fn planned(
    position: LivePosition,
    side: OrderSide,
    at: u64,
    book: BookSnapshot,
) -> Result<(Binary64, Binary64), &'static str> {
    match exit_price(
        book,
        side,
        at,
        position.config.max_book_age_ms,
        "live_exit_stale_book_position_open",
        "live_exit_missing_bid_position_open",
    ) {
        Err(reason) => Err(reason),
        Ok(bid) => {
            let sellable = two_places_down(position.filled_shares);
            if at_most(sellable, of_nat(0)) {
                Err("live_exit_unsellable_amount_position_open")
            } else {
                Ok((sellable, bid))
            }
        },
    }
}

/// Plans the sale of a position once its exit is decided.  A position that cannot be sold stays
/// open and faults the engine.
pub fn live_exit_plan(
    signal: OrderSignal,
    position: &LivePosition,
    decision: &ExitDecision,
    book: BookSnapshot,
    account: &Account,
    health: &mut HealthState,
) -> (r: Result<ExitPlan, AuditEvent>)
    ensures
        ({
            let context = exit_context(
                *position,
                signal.side,
                decision.decided_at_ms,
                book,
                *account,
            );
            match planned(*position, signal.side, decision.decided_at_ms, book) {
                Err(reason) => {
                    &&& r == Err::<ExitPlan, AuditEvent>(rejected(signal, reason, Some(context)))
                    &&& *final(health) == old(health).tripped(5)
                },
                Ok((sellable_shares, exit_bid)) => {
                    &&& r == Ok::<ExitPlan, AuditEvent>(
                        (ExitPlan { sellable_shares, exit_bid, context }),
                    )
                    &&& *final(health) == *old(health)
                },
            }
        }),
{
    let plain: AuditBookContext = audit_context(
        book,
        decision.decided_at_ms,
        signal.side,
        Some(&position.market),
        None,
        None,
        None,
    );
    let context: AuditBookContext = AuditBookContext {
        entry_matched_funder_address: copy_text(&account.funder_address),
        exit_attempt_funder_address: copy_text(&account.funder_address),
        signature_type: Some(account.signature_type.clone()),
        ..plain
    };
    let exit_bid: Binary64 = match find_exit_price(
        book,
        signal.side,
        decision.decided_at_ms,
        position.config.max_book_age_ms,
        "live_exit_stale_book_position_open",
        "live_exit_missing_bid_position_open",
    ) {
        Ok(bid) => bid,
        Err(reason) => {
            health.trip(5);
            return Err(rejection_event(signal, reason, Some(context)));
        },
    };
    let sellable_shares: Binary64 = floor_to_2_decimals(position.filled_shares);
    if sellable_shares.le(Binary64::from_u64(0)) {
        health.trip(5);
        return Err(
            rejection_event(signal, "live_exit_unsellable_amount_position_open", Some(context)),
        );
    }
    Ok(ExitPlan { sellable_shares, exit_bid, context })
}

/// The resting orders' last order: its number, its status, and whether it may still be open.
#[derive(Debug)]
pub struct FallbackOrder {
    pub order_id: Option<String>,
    pub order_status: Option<String>,
    pub pending: bool,
}

/// The order that closed a position: the resting one where there was one, else the last one that
/// sold at once.
pub open spec fn closing_order(fallback: FallbackOrder, last: Option<(String, String)>) -> Option<
    (String, String),
> {
    match (fallback.order_id, fallback.order_status) {
        (Some(id), Some(status)) => Some((id, status)),
        _ => last,
    }
}

/// The context of an exit, with what came of its orders.
pub open spec fn sale_context(
    context: AuditBookContext,
    sale: LiveExit,
    fallback: FallbackOrder,
) -> AuditBookContext {
    AuditBookContext {
        filled_shares: Some(five_places(sale.sold_shares)),
        exit_attempts: Some(sale.attempts),
        exit_retry_attempts: if sale.retries@.len() > 0 {
            Some(sale.retries)
        } else {
            context.exit_retry_attempts
        },
        fallback_order_id: fallback.order_id,
        ..context
    }
}

/// The event of an exit on the exchange.
pub open spec fn live_exit(
    signal: OrderSignal,
    position: LivePosition,
    decision: ExitDecision,
    order: (String, String),
    exit_price: Binary64,
    closed: ClosedLivePosition,
    context: AuditBookContext,
    closed_at_ms: u64,
) -> AuditEvent {
    AuditEvent::LiveExit {
        position_id: position.position_id,
        closed_at_ms,
        side: signal.side.label(),
        exit_reason: decision.reason,
        held_ms: decision.held_ms,
        exit_momentum_usd: five_places_some(decision.exit_momentum_usd),
        token_id: position.token_id,
        order_id: order.0,
        order_status: order.1,
        entry_price: five_places(position.entry_price),
        exit_price: five_places(exit_price),
        shares: closed.shares,
        gross_pnl: closed.gross_pnl,
        entry_fee: closed.entry_fee,
        exit_fee: closed.exit_fee,
        net_pnl: closed.net_pnl,
        context: Some(context),
    }
}

/// Why a sale left shares unsold.
pub open spec fn unsold_reason(sale: Selling, pending: bool) -> &'static str {
    if sale.balance_retry_exhausted {
        "manual_exit_required_balance_unavailable"
    } else if pending {
        "live_exit_gtc_pending_position_open"
    } else {
        "live_exit_gtc_failed_position_open"
    }
}

/// What came of the orders to sell: the position is closed, or it stays open and faults the
/// engine.
pub open spec fn closes(
    signal: OrderSignal,
    position: LivePosition,
    decision: ExitDecision,
    context: AuditBookContext,
    sale: LiveExit,
    fallback: FallbackOrder,
    closed_at_ms: u64,
    state: EngineState,
    health: HealthState,
    r: AuditEvent,
    state_after: EngineState,
    health_after: HealthState,
) -> bool {
    if sale@.short() {
        &&& r == rejected(
            signal,
            unsold_reason(sale@, fallback.pending),
            Some(
                AuditBookContext {
                    exchange_error: sale.last_error,
                    ..sale_context(context, sale, fallback)
                },
            ),
        )
        &&& state_after == state
        &&& health_after == health.tripped(5)
    } else {
        match closing_order(fallback, sale.last_order) {
            None => {
                &&& r == rejected(
                    signal,
                    "live_exit_zero_fill_position_open",
                    Some(context),
                )
                &&& state_after == state
                &&& health_after == health.tripped(5)
            },
            Some(order) => {
                let price = over(sale.sale_proceeds, sale.sold_shares);
                let closed = closed_live_position(
                    position.entry_price,
                    price,
                    sale.sold_shares,
                );
                &&& r == live_exit(
                    signal,
                    position,
                    decision,
                    order,
                    price,
                    closed,
                    sale_context(context, sale, fallback),
                    closed_at_ms,
                )
                &&& state_after == state.closed(
                    closed.net_pnl,
                    closed_at_ms,
                )
                &&& health_after == health
            },
        }
    }
}

/// Closes a position that was sold whole.  One that was not stays open and faults the engine.
pub fn live_closed(
    signal: OrderSignal,
    position: LivePosition,
    decision: &ExitDecision,
    context: AuditBookContext,
    sale: LiveExit,
    fallback: FallbackOrder,
    engine_state: &mut EngineState,
    health: &mut HealthState,
    closed_at_ms: u64,
) -> (r: AuditEvent)
    ensures
        closes(
            signal,
            position,
            *decision,
            context,
            sale,
            fallback,
            closed_at_ms,
            *old(engine_state),
            *old(health),
            r,
            *final(engine_state),
            *final(health),
        ),
{
    let short: bool = sale.is_short();
    let sold_shares: Binary64 = sale.sold_shares;
    let sale_proceeds: Binary64 = sale.sale_proceeds;
    let attempts: u32 = sale.attempts;
    let exhausted: bool = sale.balance_retry_exhausted;
    let pending: bool = fallback.pending;
    let order: Option<(String, String)> = match (
        copy_text(&fallback.order_id),
        fallback.order_status,
    ) {
        (Some(id), Some(status)) => Some((id, status)),
        _ => sale.last_order,
    };
    if !short && order.is_none() {
        health.trip(5);
        return rejection_event(signal, "live_exit_zero_fill_position_open", Some(context));
    }
    let exit_retry_attempts = if sale.retries.len() > 0 {
        Some(sale.retries)
    } else {
        context.exit_retry_attempts
    };
    let mut told: AuditBookContext = AuditBookContext {
        filled_shares: Some(round_5(sold_shares)),
        exit_attempts: Some(attempts),
        exit_retry_attempts,
        fallback_order_id: fallback.order_id,
        ..context
    };
    if short {
        health.trip(5);
        told.exchange_error = sale.last_error;
        let reason: &'static str = if exhausted {
            "manual_exit_required_balance_unavailable"
        } else if pending {
            "live_exit_gtc_pending_position_open"
        } else {
            "live_exit_gtc_failed_position_open"
        };
        return rejection_event(signal, reason, Some(told));
    }
    let exit_price: Binary64 = sale_proceeds.div(sold_shares);
    let closed: ClosedLivePosition = engine_state.close_live_at(
        position.entry_price,
        exit_price,
        sold_shares,
        closed_at_ms,
    );
    match order {
        Some((order_id, order_status)) => AuditEvent::LiveExit {
            position_id: position.position_id,
            closed_at_ms,
            side: signal.side.as_str(),
            exit_reason: decision.reason,
            held_ms: decision.held_ms,
            exit_momentum_usd: round_5_some(decision.exit_momentum_usd),
            token_id: position.token_id,
            order_id,
            order_status,
            entry_price: round_5(position.entry_price),
            exit_price: round_5(exit_price),
            shares: closed.shares,
            gross_pnl: closed.gross_pnl,
            entry_fee: closed.entry_fee,
            exit_fee: closed.exit_fee,
            net_pnl: closed.net_pnl,
            context: Some(told),
        },
        None => rejection_event(signal, "live_exit_zero_fill_position_open", Some(told)),
    }
}

// ---------------------------------------------------------------------------------------------
// Laws.

/// A signal whose settings changed while it waited is not carried out, and neither is any signal
/// of an engine that does not run.
pub proof fn law_settings_must_hold(signal: OrderSignal, health: HealthState, store: StrategyStore)
    ensures
        settings_for(signal, health, store) matches Ok(config) ==> {
            &&& health.state == RunState::Running
            &&& store.configured
            &&& config.generation == signal.config_generation
        },
{
}

/// An order to buy pays no more than the limit for its ask and is no smaller than the exchange
/// takes, and the book offers a quarter more than it buys.
pub proof fn law_entry_order(
    signal: OrderSignal,
    initial_bid: Binary64,
    at: u64,
    health: HealthState,
    store: StrategyStore,
    book: BookSnapshot,
    clock: MarketClock,
    market: Option<ActiveMarket>,
    depth: MarketLevels,
    token: Option<(u64, u64, u64, u64)>,
)
    ensures
        confirmed(
            signal,
            initial_bid,
            at,
            health,
            store,
            book,
            clock,
            market,
            depth,
            token,
        ) matches Ok(order) ==> {
            &&& health.state == RunState::Running
            &&& market == Some(order.market)
            &&& token == Some(order.token)
            &&& order.config.min_exchange_shares <= order.shares <= order.config.max_shares
            &&& order.limit_price == limit_for(
                book_of(book, signal.side).ask->0,
                order.config.entry_slippage,
            )
            &&& !less(
                plus(size_up_to(asks_of(depth, signal.side), order.limit_price), tolerance()),
                required_depth(order.shares),
            )
            &&& !less(
                plus(book_of(book, signal.side).bid->0, tolerance()),
                plus(initial_bid, order.config.min_entry_bid_improvement),
            )
        },
{
}

/// No order to buy pays more than 0.95.
pub proof fn law_entry_limit(ask: Binary64, slippage: Binary64)
    ensures
        at_most(limit_for(ask, slippage), ratio(95, 100)),
{
    reveal(at_most);
    crate::binary64::arith::lemma_ratio_is_number(95, 100);
}

/// A position is closed only when it was sold whole by an order that is known.  Otherwise it
/// stays on the books, where no other is reserved beside it, and the engine is faulted and refuses
/// to start.
pub proof fn law_unsold_position_is_kept(
    signal: OrderSignal,
    position: LivePosition,
    decision: ExitDecision,
    context: AuditBookContext,
    sale: LiveExit,
    fallback: FallbackOrder,
    closed_at_ms: u64,
    state: EngineState,
    health: HealthState,
    event: AuditEvent,
    state_after: EngineState,
    health_after: HealthState,
)
    requires
        state.open_or_reserved == 1,
        closes(
            signal,
            position,
            decision,
            context,
            sale,
            fallback,
            closed_at_ms,
            state,
            health,
            event,
            state_after,
            health_after,
        ),
    ensures
        if sale@.short() || closing_order(fallback, sale.last_order) is None {
            &&& event is ExecutionRejected
            &&& state_after == state
            &&& health_after == health.tripped(5)
            &&& health_after.may_start() is Err
            &&& !health_after.accepting()
            &&& forall|checked_at: u64|
                (#[trigger] state_after.refreshed(checked_at)).reservation() is Err
        } else {
            &&& event is LiveExit
            &&& state_after == state.closed(event->LiveExit_net_pnl, closed_at_ms)
            &&& state_after.open_or_reserved == 0
            &&& health_after == health
        },
{
}

/// A signal is carried out under the settings in force exactly where the engine runs and they are
/// those that the signal was given under; else it is told why not.
pub proof fn law_settings_of_a_signal(
    signal: OrderSignal,
    health: HealthState,
    store: StrategyStore,
)
    ensures
        ({
            let answer = settings_for(signal, health, store);
            let runs = health.state == RunState::Running;
            let matches_signal = store.current.generation == signal.config_generation;
            &&& answer is Ok <==> runs && store.configured && matches_signal
            &&& answer is Ok ==> answer == Ok::<StrategySnapshot, &'static str>(store.current)
            &&& !runs ==> answer == Err::<StrategySnapshot, &'static str>("engine_stopped")
            &&& runs && !store.configured ==> answer == Err::<StrategySnapshot, &'static str>(
                "config_missing",
            )
            &&& runs && store.configured && !matches_signal ==> answer == Err::<
                StrategySnapshot,
                &'static str,
            >("config_changed")
        }),
{
}

/// A simulated position is opened at the ask of the outcome that is bought, with the next number, and
/// told so; a signal that leads to no entry gives its reservation back.
pub proof fn law_simulated_entry(
    signal: OrderSignal,
    at: u64,
    health: HealthState,
    store: StrategyStore,
    book: BookSnapshot,
    clock: MarketClock,
    state: EngineState,
)
    ensures
        ({
            let (start, left) = dry_run_started(signal, at, health, store, book, clock, state);
            let own = if signal.side == OrderSide::BuyNo {
                book.no
            } else {
                book.yes
            };
            let settled = settings_for(signal, health, store) is Ok && entry_at(
                book,
                at,
                clock,
                store.current,
                signal.side,
            ) is Some;
            &&& start is Opened <==> settled
            &&& start is Rejected ==> left == state.released()
            &&& start matches DryRunStart::Rejected(event) ==> {
                &&& event is ExecutionRejected
                &&& event->ExecutionRejected_signal_ts_ms == signal.signal_ts_ms
                &&& event->ExecutionRejected_side == signal.side.label()
                &&& settings_for(signal, health, store) is Ok ==> event->ExecutionRejected_reason
                    == "entry_revalidation"
                &&& settings_for(signal, health, store) matches Err(reason)
                    ==> event->ExecutionRejected_reason == reason
            }
            &&& start matches DryRunStart::Opened(position, event) ==> {
                &&& left == state.opened()
                &&& own.ask == Some(position.entry_price)
                &&& position.position_id == state.next_position_id
                &&& position.entry_at_ms == at
                &&& position.config == store.current
                &&& 0 < position.shares <= store.current.max_shares
                &&& event == AuditEvent::DryRunEntry {
                    position_id: position.position_id,
                    signal_ts_ms: signal.signal_ts_ms,
                    executed_at_ms: at,
                    latency_ms: age(at, signal.signal_ts_ms),
                    side: signal.side.label(),
                    price: five_places(position.entry_price),
                    shares: position.shares,
                    notional_usd: five_places(
                        times(position.entry_price, of_nat(position.shares as nat)),
                    ),
                }
            }
        }),
{
}

/// A simulated position is closed with all of its shares at the bid of the outcome that was bought,
/// on a book that is fresh; the result that is told is the one that is booked.  Without such a bid
/// the position is given back unsold.
pub proof fn law_simulated_exit(
    signal: OrderSignal,
    position: DryRunPosition,
    decision: ExitDecision,
    book: BookSnapshot,
    state: EngineState,
    closed_at_ms: u64,
)
    ensures
        ({
            let (end, left) = dry_run_ended(
                signal,
                position,
                decision,
                book,
                state,
                closed_at_ms,
            );
            let own = if signal.side == OrderSide::BuyNo {
                book.no
            } else {
                book.yes
            };
            let fresh = decision.decided_at_ms <= book.received_at_ms
                + position.config.max_book_age_ms;
            &&& end is Closed <==> fresh && own.bid is Some
            &&& end is Released ==> left == state.released()
            &&& end matches DryRunEnd::Released(event) ==> {
                &&& event is ExecutionRejected
                &&& !fresh ==> event->ExecutionRejected_reason
                    == "stale_exit_book_position_released"
                &&& fresh ==> event->ExecutionRejected_reason
                    == "missing_exit_bid_position_released"
            }
            &&& end matches DryRunEnd::Closed(event) ==> {
                &&& event is DryRunExit
                &&& own.bid == Some(event->DryRunExit_exit_price)
                &&& event->DryRunExit_entry_price == position.entry_price
                &&& event->DryRunExit_shares == position.shares
                &&& event->DryRunExit_position_id == position.position_id
                &&& event->DryRunExit_closed_at_ms == closed_at_ms
                &&& event->DryRunExit_side == signal.side.label()
                &&& event->DryRunExit_exit_reason == decision.reason
                &&& event->DryRunExit_held_ms == decision.held_ms
                &&& event->DryRunExit_gross_pnl == five_places(
                    times(
                        minus(event->DryRunExit_exit_price, position.entry_price),
                        of_nat(position.shares as nat),
                    ),
                )
                &&& event->DryRunExit_entry_fee == fee_of(
                    of_nat(position.shares as nat),
                    position.entry_price,
                )
                &&& event->DryRunExit_exit_fee == fee_of(
                    of_nat(position.shares as nat),
                    event->DryRunExit_exit_price,
                )
                &&& event->DryRunExit_net_pnl == five_places(
                    minus(
                        minus(event->DryRunExit_gross_pnl, event->DryRunExit_entry_fee),
                        event->DryRunExit_exit_fee,
                    ),
                )
                &&& left == state.closed(event->DryRunExit_net_pnl, closed_at_ms)
            }
        }),
{
}

/// An order to buy is made exactly where the entry still holds for its own side, the bid of that
/// side has risen by the improvement that is asked for, but for 0.00001, the market and its token
/// are known, the exchange takes so few shares, and the asks of that side up to the limit, of a
/// fresh book, hold a quarter more than the order.  It pays the ask and the slippage, at most 0.95.
pub proof fn law_confirmed_order(
    signal: OrderSignal,
    initial_bid: Binary64,
    at: u64,
    health: HealthState,
    store: StrategyStore,
    book: BookSnapshot,
    clock: MarketClock,
    market: Option<ActiveMarket>,
    depth: MarketLevels,
    token: Option<(u64, u64, u64, u64)>,
)
    ensures
        ({
            let answer = confirmed(
                signal,
                initial_bid,
                at,
                health,
                store,
                book,
                clock,
                market,
                depth,
                token,
            );
            let no = signal.side == OrderSide::BuyNo;
            let own = if no {
                book.no
            } else {
                book.yes
            };
            let asks = if no {
                depth.no.asks
            } else {
                depth.yes.asks
            };
            let config = store.current;
            let entry = entry_at(book, at, clock, config, signal.side);
            let made = entry->0;
            let shares = made.1;
            let slipped = plus(own.ask->0, config.entry_slippage);
            let limit = if !slipped.nan() && at_most(slipped, ratio(95, 100)) {
                slipped
            } else {
                ratio(95, 100)
            };
            &&& answer is Ok <==> {
                &&& settings_for(signal, health, store) is Ok
                &&& entry is Some
                &&& !less(
                    plus(own.bid->0, ratio(1, 100_000)),
                    plus(initial_bid, config.min_entry_bid_improvement),
                )
                &&& market is Some
                &&& token is Some
                &&& config.min_exchange_shares <= shares
                &&& at <= depth.received_at_ms + config.max_book_age_ms
                &&& !less(
                    plus(size_up_to(asks, limit), ratio(1, 100_000)),
                    times(of_nat(shares as nat), ratio(125, 100)),
                )
            }
            &&& answer matches Ok(order) ==> {
                &&& order.config == config
                &&& order.shares == shares
                &&& order.limit_price == limit
                &&& token == Some(order.token)
                &&& market == Some(order.market)
                &&& no ==> order.token_id == order.market.no_asset_id
                &&& !no ==> order.token_id == order.market.yes_asset_id
                &&& order.confirmed_at_ms == at
                &&& order.context.available_shares == Some(five_places(size_up_to(asks, limit)))
                &&& order.context.required_shares == Some(
                    five_places(times(of_nat(shares as nat), ratio(125, 100))),
                )
            }
        }),
{
    crate::binary64::arith::lemma_ratio_is_number(95, 100);
    reveal(at_most);
}

/// A purchase opens a position with the shares that were bought, at what they cost each, and with the
/// market and the token of its order; one that bought nothing gives the reservation back.  An order
/// that may still be open faults the engine only where a position is open with it.
pub proof fn law_bought_position(
    signal: OrderSignal,
    order: EntryOrder,
    entry: GtcEntryResult,
    account: Account,
    state: EngineState,
    health: HealthState,
    start: LiveStart,
    state_after: EngineState,
    health_after: HealthState,
)
    requires
        opens(
            signal,
            order,
            entry,
            account,
            state,
            health,
            start,
            state_after,
            health_after,
        ),
    ensures
        start is Opened <==> !at_most(entry.filled_shares, of_nat(0)),
        start matches LiveStart::Opened(position, event) ==> {
            &&& position.filled_shares == entry.filled_shares
            &&& position.entry_price == over(entry.notional_usd, entry.filled_shares)
            &&& position.position_id == state.next_position_id
            &&& position.entry_at_ms == order.confirmed_at_ms
            &&& position.config == order.config
            &&& position.market == order.market
            &&& position.token == order.token
            &&& position.token_id == order.token_id
            &&& state_after == state.opened()
            &&& entry.pending ==> health_after == health.tripped(5)
            &&& !entry.pending ==> health_after == health
            &&& event is LiveEntry
            &&& event->LiveEntry_price == five_places(position.entry_price)
            &&& event->LiveEntry_shares == five_places(entry.filled_shares)
            &&& event->LiveEntry_notional_usd == five_places(entry.notional_usd)
            &&& event->LiveEntry_position_id == position.position_id
            &&& event->LiveEntry_side == signal.side.label()
            &&& event->LiveEntry_token_id == order.token_id
            &&& entry.order_id matches Some(id) ==> event->LiveEntry_order_id == id
        },
        start matches LiveStart::Rejected(event) ==> {
            &&& state_after == state.released()
            &&& health_after == health
            &&& event is ExecutionRejected
            &&& entry.pending ==> event->ExecutionRejected_reason == "live_entry_gtc_pending"
            &&& !entry.pending ==> event->ExecutionRejected_reason == "live_entry_zero_fill"
        },
{
}

/// A sale is planned by the bid of the outcome that was bought, on a book that is fresh, and for the
/// hundredths of what was bought.
pub proof fn law_planned_sale(
    position: LivePosition,
    side: OrderSide,
    at: u64,
    book: BookSnapshot,
)
    ensures
        ({
            let own = if side == OrderSide::BuyNo {
                book.no
            } else {
                book.yes
            };
            let shares = over(
                rounded_down(times(position.filled_shares, of_nat(100))),
                of_nat(100),
            );
            let fresh = at <= book.received_at_ms + position.config.max_book_age_ms;
            let plan = planned(position, side, at, book);
            &&& plan is Ok <==> fresh && own.bid is Some && !at_most(shares, of_nat(0))
            &&& plan is Ok ==> plan == Ok::<(Binary64, Binary64), &'static str>(
                (shares, own.bid->0),
            )
            &&& !fresh ==> plan == Err::<(Binary64, Binary64), &'static str>(
                "live_exit_stale_book_position_open",
            )
            &&& fresh && own.bid is None ==> plan == Err::<(Binary64, Binary64), &'static str>(
                "live_exit_missing_bid_position_open",
            )
            &&& fresh && own.bid is Some && at_most(shares, of_nat(0)) ==> plan == Err::<
                (Binary64, Binary64),
                &'static str,
            >("live_exit_unsellable_amount_position_open")
        }),
{
}

/// A position that was sold is closed at what its shares brought in each: the result that is told
/// is of the shares that were sold, between the entry and that price, less both fees, and it is the
/// one that is booked.
pub proof fn law_sold_position(
    signal: OrderSignal,
    position: LivePosition,
    decision: ExitDecision,
    context: AuditBookContext,
    sale: LiveExit,
    fallback: FallbackOrder,
    closed_at_ms: u64,
    state: EngineState,
    health: HealthState,
    event: AuditEvent,
    state_after: EngineState,
    health_after: HealthState,
)
    requires
        closes(
            signal,
            position,
            decision,
            context,
            sale,
            fallback,
            closed_at_ms,
            state,
            health,
            event,
            state_after,
            health_after,
        ),
    ensures
        ({
            let short = less(
                plus(sale.sold_shares, ratio(1, 100_000)),
                sale.sellable_shares,
            );
            let price = over(sale.sale_proceeds, sale.sold_shares);
            let rested = fallback.order_id is Some && fallback.order_status is Some;
            let last = sale.last_order->0;
            &&& event is LiveExit <==> !short && (rested || sale.last_order is Some)
            &&& event is LiveExit ==> {
                &&& event->LiveExit_exit_price == five_places(price)
                &&& event->LiveExit_entry_price == five_places(position.entry_price)
                &&& event->LiveExit_shares == five_places(sale.sold_shares)
                &&& event->LiveExit_gross_pnl == five_places(
                    times(minus(price, position.entry_price), sale.sold_shares),
                )
                &&& event->LiveExit_entry_fee == fee_of(sale.sold_shares, position.entry_price)
                &&& event->LiveExit_exit_fee == fee_of(sale.sold_shares, price)
                &&& event->LiveExit_net_pnl == five_places(
                    minus(
                        minus(event->LiveExit_gross_pnl, event->LiveExit_entry_fee),
                        event->LiveExit_exit_fee,
                    ),
                )
                &&& event->LiveExit_position_id == position.position_id
                &&& event->LiveExit_closed_at_ms == closed_at_ms
                &&& event->LiveExit_side == signal.side.label()
                &&& event->LiveExit_exit_reason == decision.reason
                &&& event->LiveExit_held_ms == decision.held_ms
                &&& event->LiveExit_token_id == position.token_id
                &&& rested ==> event->LiveExit_order_id == fallback.order_id->0
                    && event->LiveExit_order_status == fallback.order_status->0
                &&& !rested ==> event->LiveExit_order_id == last.0
                    && event->LiveExit_order_status == last.1
                &&& state_after == state.closed(event->LiveExit_net_pnl, closed_at_ms)
                &&& health_after == health
            }
            &&& short ==> {
                &&& event is ExecutionRejected
                &&& event->ExecutionRejected_reason == (if sale.balance_retry_exhausted {
                    "manual_exit_required_balance_unavailable"
                } else if fallback.pending {
                    "live_exit_gtc_pending_position_open"
                } else {
                    "live_exit_gtc_failed_position_open"
                })
                &&& event->ExecutionRejected_context is Some
                &&& event->ExecutionRejected_context->0.filled_shares == Some(
                    five_places(sale.sold_shares),
                )
                &&& event->ExecutionRejected_context->0.exchange_error == sale.last_error
            }
        }),
{
}

/// What came of an order to buy is told with its rejection or its entry as the exchange answered it,
/// and so is the account that it was placed on; the market around it stays as it was told before.
pub proof fn law_told_purchase(order: EntryOrder, entry: GtcEntryResult, account: Account)
    ensures
        ({
            let told = entry_context(order, entry, account);
            &&& told.filled_shares == Some(five_places(entry.filled_shares))
            &&& told.exchange_error == entry.error
            &&& told.fallback_order_id == entry.order_id
            &&& told.entry_submit_latency_ms == entry.submit_latency_ms
            &&& told.entry_build_latency_ms == entry.build_latency_ms
            &&& told.entry_sign_latency_ms == entry.sign_latency_ms
            &&& told.entry_post_latency_ms == entry.post_latency_ms
            &&& told.gtc_post_success == entry.post_success
            &&& told.gtc_post_status == entry.post_status
            &&& told.gtc_poll_count == Some(entry.poll_count)
            &&& told.gtc_poll_status == entry.poll_status
            &&& told.gtc_cancel_confirmed == entry.cancel_confirmed
            &&& told.gtc_final_status == entry.final_status
            &&& told_price(told.gtc_post_making_amount, entry.post_making_amount)
            &&& told_price(told.gtc_post_taking_amount, entry.post_taking_amount)
            &&& told_price(told.gtc_poll_size_matched, entry.poll_size_matched)
            &&& told_price(told.gtc_final_size_matched, entry.final_size_matched)
            &&& told.entry_matched_funder_address == account.funder_address
            &&& told.signature_type == Some(account.signature_type)
            &&& told.selected_bid == order.context.selected_bid
            &&& told.selected_ask == order.context.selected_ask
            &&& told.entry_limit_price == order.context.entry_limit_price
            &&& told.intended_shares == order.context.intended_shares
            &&& told.token_id == order.context.token_id
            &&& told.market_slug == order.context.market_slug
        }),
{
}

/// What came of a sale is told with its shares, its attempts and the retries that were put off, and
/// with the account that it was placed on.
pub proof fn law_told_sale(
    position: LivePosition,
    side: OrderSide,
    at: u64,
    book: BookSnapshot,
    account: Account,
    sale: LiveExit,
    fallback: FallbackOrder,
)
    ensures
        ({
            let plan = exit_context(position, side, at, book, account);
            let told = sale_context(plan, sale, fallback);
            &&& told.filled_shares == Some(five_places(sale.sold_shares))
            &&& told.exit_attempts == Some(sale.attempts)
            &&& sale.retries@.len() > 0 ==> told.exit_retry_attempts == Some(sale.retries)
            &&& sale.retries@.len() == 0 ==> told.exit_retry_attempts == plan.exit_retry_attempts
            &&& told.fallback_order_id == fallback.order_id
            &&& told.exit_attempt_funder_address == account.funder_address
            &&& told.entry_matched_funder_address == account.funder_address
            &&& told.signature_type == Some(account.signature_type)
            &&& told.market_slug == Some(position.market.slug)
            &&& told_price(
                told.selected_bid,
                if side == OrderSide::BuyNo {
                    book.no.bid
                } else {
                    book.yes.bid
                },
            )
        }),
{
}

/// The token that an order is for is that of the outcome that its side buys.
pub proof fn law_token_of_the_side(market: ActiveMarket, side: OrderSide)
    ensures
        side == OrderSide::BuyYes ==> number_for(Some(market), side) == token_number(
            market.yes_asset_id@,
        ),
        side == OrderSide::BuyNo ==> number_for(Some(market), side) == token_number(
            market.no_asset_id@,
        ),
        number_for(None, side) is None,
{
}

/// A text that was told is kept, and one that was not is what stands in for it.
pub proof fn law_kept_text(text: String, told: String, other: Seq<char>)
    ensures
        is_text_or(text, Some(told), other) <==> text == told,
        is_text_or(text, None, other) <==> text@ == other,
{
}

} // verus!
