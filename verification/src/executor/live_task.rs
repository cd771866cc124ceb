//! One signal on the exchange, step by step.
//!
//! A task says what it needs next, and each of its methods takes one answer in: from the clock,
//! from the books or from the exchange.  An answer that the task does not wait for leaves it as
//! it is.

use vstd::prelude::*;

use super::exit_decision::{decision_at, exit_decision, ExitDecision};
use super::gtc_entry::{
    listed, EntryPhase, GtcEntry, OrderStatus, PostedOrder, TimedPost, LIVE_ENTRY_GTC_POLL_MS,
};
use super::gtc_exit::{ExitPhase, GtcExit, LIVE_EXIT_GTC_POLL_MS};
use super::live_exit::{LiveExit, Selling};
use super::order::{
    closes, confirmed, due_entry, exit_context, live_check, live_closed, live_confirm,
    live_exit_plan, live_opened, number_for, opens, planned, Account, Confirming, EntryOrder,
    ExitPlan, FallbackOrder, LivePosition, LiveStart,
};
use super::audit_context::market_of;
use super::rejection::rejected;
use super::revalidation::book_of;
use super::types::OrderSignal;
use crate::binary64::model::{at_most, less, of_nat, over, plus, ratio};
use crate::binary64::Binary64;
use crate::emitter::audit::{AuditBookContext, AuditEvent};
use crate::engine::state::{five_places, EngineState};
use crate::health::HealthState;
use crate::market::{ActiveMarket, MarketClock};
use crate::runtime_config::StrategyStore;
use crate::ws::polymarket::{BookSnapshot, DepthSnapshot};

verus! {

/// A position that is being sold.
#[derive(Debug)]
pub struct Exiting {
    pub position: LivePosition,
    pub decision: ExitDecision,
    pub context: AuditBookContext,
    pub sale: LiveExit,
}

/// How far a signal has come.
#[derive(Debug)]
pub enum LiveStage {
    /// It waits for the moment that it is due.
    Due,
    /// It waits to be confirmed.
    Confirming(Confirming),
    /// Its order to buy is to be sent.
    Buying(EntryOrder),
    /// Its order to buy is on the book.
    Entering(EntryOrder, GtcEntry),
    /// Its position is open.
    Holding(LivePosition),
    /// The end of its position is decided, and the sale is to be planned.
    Leaving(LivePosition, ExitDecision),
    /// The next attempt to sell waits for so many milliseconds.
    Pausing(Exiting, u64),
    /// An order to sell so many shares at once is to be sent.
    Selling(Exiting, Binary64),
    /// The rest is sold by resting orders.
    Falling(Exiting, GtcExit),
    /// Nothing is left to do.
    Finished,
}

/// What a task needs next.
#[derive(Debug)]
pub enum LiveWork {
    /// The moment that the signal is due, and the books of that moment.
    Due,
    /// So many milliseconds, and then the books again.
    Confirm(u64),
    /// The answer to an order to buy this token: so many shares at this limit.
    Buy((u64, u64, u64, u64), u64, Binary64),
    /// So many milliseconds, and then an order's status.
    Status(u64, String),
    /// An order's cancellation.
    Cancel(String),
    /// So many milliseconds, and then a check of the position.
    Check(u64),
    /// The book, to plan the sale by.
    Plan,
    /// So many milliseconds.
    Pause(u64),
    /// The answer to an order to sell so many shares of this token at once.
    Sell((u64, u64, u64, u64), Binary64),
    /// The bid.
    Bid,
    /// The answer to a resting order to sell so many shares of this token at this limit.
    Offer((u64, u64, u64, u64), Binary64, Binary64),
    /// Nothing.
    Nothing,
}

/// A signal on its way.
#[derive(Debug)]
pub struct LiveTask {
    pub signal: OrderSignal,
    pub stage: LiveStage,
}

impl LiveStage {
    pub open spec fn well_formed(self) -> bool {
        match self {
            LiveStage::Entering(_, entry) => entry.well_formed() && entry.phase
                != EntryPhase::Done,
            LiveStage::Pausing(exiting, _) => exiting.sale@.well_formed(),
            LiveStage::Selling(exiting, _) => exiting.sale@.well_formed()
                && exiting.sale@.awaits_reply(),
            LiveStage::Falling(_, exit) => exit.well_formed() && exit.phase != ExitPhase::Done,
            _ => true,
        }
    }
}

/// What a step leaves behind: the stage, and an event for the audit trail.
pub type Step = (LiveStage, Option<AuditEvent>);

/// Once the order to buy needs nothing more, the position is opened with what was bought.
pub open spec fn entered(
    signal: OrderSignal,
    order: EntryOrder,
    entry: GtcEntry,
    account: Account,
    state: EngineState,
    health: HealthState,
    step: Step,
    state_after: EngineState,
    health_after: HealthState,
) -> bool {
    if entry.phase == EntryPhase::Done {
        exists|start: LiveStart|
            {
                &&& #[trigger] opens(
                    signal,
                    order,
                    entry.result,
                    account,
                    state,
                    health,
                    start,
                    state_after,
                    health_after,
                )
                &&& step == match start {
                    LiveStart::Rejected(event) => (LiveStage::Finished, Some(event)),
                    LiveStart::Opened(position, event) => (
                        LiveStage::Holding(position),
                        Some(event),
                    ),
                }
            }
    } else {
        &&& step == (LiveStage::Entering(order, entry), None::<AuditEvent>)
        &&& state_after == state
        &&& health_after == health
    }
}

/// Once nothing more is sold, the position is closed, or the engine is faulted.
pub open spec fn concluded(
    signal: OrderSignal,
    exiting: Exiting,
    fallback: FallbackOrder,
    now: u64,
    state: EngineState,
    health: HealthState,
    step: Step,
    state_after: EngineState,
    health_after: HealthState,
) -> bool {
    &&& step.0 is Finished
    &&& step.1 is Some
    &&& closes(
        signal,
        exiting.position,
        exiting.decision,
        exiting.context,
        exiting.sale,
        fallback,
        now,
        state,
        health,
        step.1->0,
        state_after,
        health_after,
    )
}

pub open spec fn no_fallback() -> FallbackOrder {
    FallbackOrder { order_id: None, order_status: None, pending: false }
}

/// What follows a sale by resting orders: it goes on, or its part is added and the position is
/// closed.
pub open spec fn fallen(
    signal: OrderSignal,
    exiting: Exiting,
    exit: GtcExit,
    now: u64,
    state: EngineState,
    health: HealthState,
    step: Step,
    state_after: EngineState,
    health_after: HealthState,
) -> bool {
    if exit.phase == ExitPhase::Done {
        exists|sale: LiveExit|
            {
                &&& sale@ == exiting.sale@.with_fallback(exit.result)
                &&& #[trigger] concluded(
                    signal,
                    Exiting { sale, ..exiting },
                    FallbackOrder {
                        order_id: exit.result.order_id,
                        order_status: exit.result.order_status,
                        pending: exit.result.pending,
                    },
                    now,
                    state,
                    health,
                    step,
                    state_after,
                    health_after,
                )
            }
    } else {
        &&& step == (LiveStage::Falling(exiting, exit), None::<AuditEvent>)
        &&& state_after == state
        &&& health_after == health
    }
}

/// The position is accounted for: it is held as long as the task goes on, and a task that ends
/// gives it back or leaves a faulted engine that holds it.
pub open spec fn accounted(
    step: Step,
    state: EngineState,
    state_after: EngineState,
    health: HealthState,
    health_after: HealthState,
) -> bool {
    state.open_or_reserved == 1 ==> if step.0 is Finished {
        ||| state_after.open_or_reserved == 0
        ||| state_after.open_or_reserved == 1 && health_after == health.tripped(5)
    } else {
        state_after.open_or_reserved == 1
    }
}

impl LiveTask {
    /// A signal that has come in.
    pub fn new(signal: OrderSignal) -> (r: Self)
        ensures
            r.signal == signal,
            r.stage is Due,
            r.stage.well_formed(),
    {
        LiveTask { signal, stage: LiveStage::Due }
    }

    /// What the task needs next.
    pub fn work(&self) -> (r: LiveWork)
        requires
            self.stage.well_formed(),
        ensures
            match self.stage {
                LiveStage::Due => r is Due,
                LiveStage::Confirming(c) => r == LiveWork::Confirm(c.entry_confirmation_ms),
                LiveStage::Buying(order) => r == LiveWork::Buy(
                    order.token,
                    order.shares,
                    order.limit_price,
                ),
                LiveStage::Entering(_, entry) => match entry.phase {
                    EntryPhase::Poll => r == LiveWork::Status(250, entry.result.order_id->0),
                    EntryPhase::Cancel => r == LiveWork::Cancel(entry.result.order_id->0),
                    _ => r == LiveWork::Status(0, entry.result.order_id->0),
                },
                LiveStage::Holding(position) => r == LiveWork::Check(
                    position.config.exit_check_interval_ms,
                ),
                LiveStage::Leaving(_, _) => r is Plan,
                LiveStage::Pausing(_, ms) => r == LiveWork::Pause(ms),
                LiveStage::Selling(exiting, shares) => r == LiveWork::Sell(
                    exiting.position.token,
                    shares,
                ),
                LiveStage::Falling(exiting, exit) => match exit.phase {
                    ExitPhase::Price => r is Bid,
                    ExitPhase::Place => r == LiveWork::Offer(
                        exiting.position.token,
                        exit.remaining_shares,
                        exit.limit_price,
                    ),
                    ExitPhase::Poll => r == LiveWork::Status(250, exit.result.order_id->0),
                    ExitPhase::Cancel => r == LiveWork::Cancel(exit.result.order_id->0),
                    _ => r == LiveWork::Status(0, exit.result.order_id->0),
                },
                LiveStage::Finished => r is Nothing,
            },
    {
        match &self.stage {
            LiveStage::Due => LiveWork::Due,
            LiveStage::Confirming(c) => LiveWork::Confirm(c.entry_confirmation_ms),
            LiveStage::Buying(order) => LiveWork::Buy(
                order.token,
                order.shares,
                order.limit_price,
            ),
            LiveStage::Entering(_, entry) => {
                let id: String = match &entry.result.order_id {
                    Some(id) => id.clone(),
                    None => String::new(),
                };
                match entry.phase {
                    EntryPhase::Poll => LiveWork::Status(LIVE_ENTRY_GTC_POLL_MS, id),
                    EntryPhase::Cancel => LiveWork::Cancel(id),
                    _ => LiveWork::Status(0, id),
                }
            },
            LiveStage::Holding(position) => LiveWork::Check(
                position.config.exit_check_interval_ms,
            ),
            LiveStage::Leaving(_, _) => LiveWork::Plan,
            LiveStage::Pausing(_, ms) => LiveWork::Pause(*ms),
            LiveStage::Selling(exiting, shares) => LiveWork::Sell(exiting.position.token, *shares),
            LiveStage::Falling(exiting, exit) => {
                let id: String = match &exit.result.order_id {
                    Some(id) => id.clone(),
                    None => String::new(),
                };
                match exit.phase {
                    ExitPhase::Price => LiveWork::Bid,
                    ExitPhase::Place => LiveWork::Offer(
                        exiting.position.token,
                        exit.remaining_shares,
                        exit.limit_price,
                    ),
                    ExitPhase::Poll => LiveWork::Status(LIVE_EXIT_GTC_POLL_MS, id),
                    ExitPhase::Cancel => LiveWork::Cancel(id),
                    _ => LiveWork::Status(0, id),
                }
            },
            LiveStage::Finished => LiveWork::Nothing,
        }
    }

    /// The moment that the signal is due, or is to be confirmed, has come.
    pub fn on_moment(
        self,
        at: u64,
        health: &HealthState,
        store: &StrategyStore,
        book: BookSnapshot,
        clock: &MarketClock,
        market: Option<&ActiveMarket>,
        depth: &DepthSnapshot,
        engine_state: &mut EngineState,
    ) -> (r: Step)
        ensures
            match self.stage {
                LiveStage::Due => match due_entry(
                    self.signal,
                    at,
                    *health,
                    *store,
                    book,
                    *clock,
                    market_of(market),
                    "entry_revalidation",
                ) {
                    Err(no) => {
                        &&& r == (
                            LiveStage::Finished,
                            Some(rejected(self.signal, no.reason, no.context)),
                        )
                        &&& *final(engine_state) == old(engine_state).released()
                    },
                    Ok((config, _, _)) => {
                        &&& r == (
                            LiveStage::Confirming(
                                (Confirming {
                                    initial_bid: book_of(book, self.signal.side).bid->0,
                                    entry_confirmation_ms: config.entry_confirmation_ms,
                                }),
                            ),
                            None::<AuditEvent>,
                        )
                        &&& *final(engine_state) == *old(engine_state)
                    },
                },
                LiveStage::Confirming(c) => match confirmed(
                    self.signal,
                    c.initial_bid,
                    at,
                    *health,
                    *store,
                    book,
                    *clock,
                    market_of(market),
                    depth@,
                    number_for(market_of(market), self.signal.side),
                ) {
                    Err(no) => {
                        &&& r == (
                            LiveStage::Finished,
                            Some(rejected(self.signal, no.reason, no.context)),
                        )
                        &&& *final(engine_state) == old(engine_state).released()
                    },
                    Ok(order) => {
                        &&& r == (LiveStage::Buying(order), None::<AuditEvent>)
                        &&& *final(engine_state) == *old(engine_state)
                    },
                },
                _ => r == (self.stage, None::<AuditEvent>) && *final(engine_state) == *old(
                    engine_state,
                ),
            },
            self.stage.well_formed() ==> r.0.well_formed(),
            !(self.stage is Finished) ==> accounted(
                r,
                *old(engine_state),
                *final(engine_state),
                *health,
                *health,
            ),
    {
        match self.stage {
            LiveStage::Due => {
                match live_check(
                    self.signal,
                    at,
                    health,
                    store,
                    book,
                    clock,
                    market,
                    engine_state,
                ) {
                    Ok(c) => (LiveStage::Confirming(c), None),
                    Err(event) => (LiveStage::Finished, Some(event)),
                }
            },
            LiveStage::Confirming(c) => {
                match live_confirm(
                    self.signal,
                    c.initial_bid,
                    at,
                    health,
                    store,
                    book,
                    clock,
                    market,
                    depth,
                    engine_state,
                ) {
                    Ok(order) => (LiveStage::Buying(order), None),
                    Err(event) => (LiveStage::Finished, Some(event)),
                }
            },
            stage => (stage, None),
        }
    }

    fn enter(
        signal: OrderSignal,
        order: EntryOrder,
        entry: GtcEntry,
        account: &Account,
        engine_state: &mut EngineState,
        health: &mut HealthState,
    ) -> (r: Step)
        requires
            entry.well_formed(),
        ensures
            entered(
                signal,
                order,
                entry,
                *account,
                *old(engine_state),
                *old(health),
                r,
                *final(engine_state),
                *final(health),
            ),
            r.0.well_formed(),
            accounted(
                r,
                *old(engine_state),
                *final(engine_state),
                *old(health),
                *final(health),
            ),
    {
        if entry.phase != EntryPhase::Done {
            return (LiveStage::Entering(order, entry), None);
        }
        let start: LiveStart = live_opened(
            signal,
            order,
            entry.result,
            account,
            engine_state,
            health,
        );
        match start {
            LiveStart::Rejected(event) => (LiveStage::Finished, Some(event)),
            LiveStart::Opened(position, event) => (LiveStage::Holding(position), Some(event)),
        }
    }

    /// The exchange has answered the order to buy.
    pub fn on_bought(
        self,
        reply: Result<TimedPost, String>,
        submit_latency_ms: u64,
        account: &Account,
        engine_state: &mut EngineState,
        health: &mut HealthState,
    ) -> (r: Step)
        requires
            self.stage.well_formed(),
        ensures
            match self.stage {
                LiveStage::Buying(order) => entered(
                    self.signal,
                    order,
                    GtcEntry::after_post(
                        order.shares,
                        order.limit_price,
                        reply,
                        submit_latency_ms,
                    ),
                    *account,
                    *old(engine_state),
                    *old(health),
                    r,
                    *final(engine_state),
                    *final(health),
                ),
                _ => r == (self.stage, None::<AuditEvent>) && *final(engine_state) == *old(
                    engine_state,
                ) && *final(health) == *old(health),
            },
            r.0.well_formed(),
            !(self.stage is Finished) ==> accounted(
                r,
                *old(engine_state),
                *final(engine_state),
                *old(health),
                *final(health),
            ),
    {
        match self.stage {
            LiveStage::Buying(order) => {
                let entry: GtcEntry = GtcEntry::posted(
                    order.shares,
                    order.limit_price,
                    reply,
                    submit_latency_ms,
                );
                Self::enter(self.signal, order, entry, account, engine_state, health)
            },
            stage => (stage, None),
        }
    }

    fn conclude(
        signal: OrderSignal,
        exiting: Exiting,
        fallback: FallbackOrder,
        now: u64,
        engine_state: &mut EngineState,
        health: &mut HealthState,
    ) -> (r: Step)
        ensures
            concluded(
                signal,
                exiting,
                fallback,
                now,
                *old(engine_state),
                *old(health),
                r,
                *final(engine_state),
                *final(health),
            ),
            r.0.well_formed(),
            accounted(
                r,
                *old(engine_state),
                *final(engine_state),
                *old(health),
                *final(health),
            ),
    {
        let event: AuditEvent = live_closed(
            signal,
            exiting.position,
            &exiting.decision,
            exiting.context,
            exiting.sale,
            fallback,
            engine_state,
            health,
            now,
        );
        (LiveStage::Finished, Some(event))
    }

    fn fall(
        signal: OrderSignal,
        exiting: Exiting,
        exit: GtcExit,
        now: u64,
        engine_state: &mut EngineState,
        health: &mut HealthState,
    ) -> (r: Step)
        requires
            exit.well_formed(),
        ensures
            fallen(
                signal,
                exiting,
                exit,
                now,
                *old(engine_state),
                *old(health),
                r,
                *final(engine_state),
                *final(health),
            ),
            r.0.well_formed(),
            accounted(
                r,
                *old(engine_state),
                *final(engine_state),
                *old(health),
                *final(health),
            ),
    {
        if exit.phase != ExitPhase::Done {
            return (LiveStage::Falling(exiting, exit), None);
        }
        let mut sale: LiveExit = exiting.sale;
        let (order_id, order_status, pending) = sale.add_fallback(exit.result);
        let whole: Exiting = Exiting {
            position: exiting.position,
            decision: exiting.decision,
            context: exiting.context,
            sale,
        };
        Self::conclude(
            signal,
            whole,
            FallbackOrder { order_id, order_status, pending },
            now,
            engine_state,
            health,
        )
    }

    /// The exchange has told the status of the order on the book.
    pub fn on_status(
        self,
        reply: Result<OrderStatus, String>,
        account: &Account,
        now: u64,
        engine_state: &mut EngineState,
        health: &mut HealthState,
    ) -> (r: Step)
        requires
            self.stage.well_formed(),
        ensures
            match self.stage {
                LiveStage::Entering(order, entry) if entry.phase != EntryPhase::Cancel => entered(
                    self.signal,
                    order,
                    if entry.phase == EntryPhase::Poll {
                        entry.after_poll(reply)
                    } else {
                        entry.after_final(reply)
                    },
                    *account,
                    *old(engine_state),
                    *old(health),
                    r,
                    *final(engine_state),
                    *final(health),
                ),
                LiveStage::Falling(exiting, exit) if exit.phase == ExitPhase::Poll || exit.phase
                    == ExitPhase::FinalStatus => fallen(
                    self.signal,
                    exiting,
                    if exit.phase == ExitPhase::Poll {
                        exit.after_poll(reply)
                    } else {
                        exit.after_final(reply)
                    },
                    now,
                    *old(engine_state),
                    *old(health),
                    r,
                    *final(engine_state),
                    *final(health),
                ),
                _ => r == (self.stage, None::<AuditEvent>) && *final(engine_state) == *old(
                    engine_state,
                ) && *final(health) == *old(health),
            },
            r.0.well_formed(),
            !(self.stage is Finished) ==> accounted(
                r,
                *old(engine_state),
                *final(engine_state),
                *old(health),
                *final(health),
            ),
    {
        match self.stage {
            LiveStage::Entering(order, entry) => {
                let mut entry: GtcEntry = entry;
                if entry.phase == EntryPhase::Poll {
                    entry.polled(reply);
                } else if entry.phase == EntryPhase::FinalStatus {
                    entry.finished(reply);
                } else {
                    return (LiveStage::Entering(order, entry), None);
                }
                Self::enter(self.signal, order, entry, account, engine_state, health)
            },
            LiveStage::Falling(exiting, exit) => {
                let mut exit: GtcExit = exit;
                if exit.phase == ExitPhase::Poll {
                    exit.polled(reply);
                } else if exit.phase == ExitPhase::FinalStatus {
                    exit.finished(reply);
                } else {
                    return (LiveStage::Falling(exiting, exit), None);
                }
                Self::fall(self.signal, exiting, exit, now, engine_state, health)
            },
            stage => (stage, None),
        }
    }

    /// The exchange has answered the cancellation.
    pub fn on_cancelled(
        self,
        reply: Result<Vec<String>, String>,
        account: &Account,
        now: u64,
        engine_state: &mut EngineState,
        health: &mut HealthState,
    ) -> (r: Step)
        requires
            self.stage.well_formed(),
        ensures
            match self.stage {
                LiveStage::Entering(order, entry) if entry.phase == EntryPhase::Cancel => entered(
                    self.signal,
                    order,
                    entry.after_cancel(listed(reply)),
                    *account,
                    *old(engine_state),
                    *old(health),
                    r,
                    *final(engine_state),
                    *final(health),
                ),
                LiveStage::Falling(exiting, exit) if exit.phase == ExitPhase::Cancel => fallen(
                    self.signal,
                    exiting,
                    exit.after_cancel(listed(reply)),
                    now,
                    *old(engine_state),
                    *old(health),
                    r,
                    *final(engine_state),
                    *final(health),
                ),
                _ => r == (self.stage, None::<AuditEvent>) && *final(engine_state) == *old(
                    engine_state,
                ) && *final(health) == *old(health),
            },
            r.0.well_formed(),
            !(self.stage is Finished) ==> accounted(
                r,
                *old(engine_state),
                *final(engine_state),
                *old(health),
                *final(health),
            ),
    {
        match self.stage {
            LiveStage::Entering(order, entry) => {
                let mut entry: GtcEntry = entry;
                if entry.phase != EntryPhase::Cancel {
                    return (LiveStage::Entering(order, entry), None);
                }
                entry.cancelled(reply);
                Self::enter(self.signal, order, entry, account, engine_state, health)
            },
            LiveStage::Falling(exiting, exit) => {
                let mut exit: GtcExit = exit;
                if exit.phase != ExitPhase::Cancel {
                    return (LiveStage::Falling(exiting, exit), None);
                }
                exit.cancelled(reply);
                Self::fall(self.signal, exiting, exit, now, engine_state, health)
            },
            stage => (stage, None),
        }
    }

    /// The open position is checked: it is held on to, or its end is decided.
    pub fn on_check(self, book: BookSnapshot, momentum: Option<Binary64>, now: u64) -> (r:
        LiveStage)
        ensures
            match self.stage {
                LiveStage::Holding(position) => match decision_at(
                    self.signal.side,
                    position.entry_at_ms,
                    position.entry_price,
                    position.filled_shares,
                    position.config,
                    book,
                    momentum,
                    now,
                ) {
                    None => r == self.stage,
                    Some(decision) => r == LiveStage::Leaving(position, decision),
                },
                _ => r == self.stage,
            },
            self.stage.well_formed() ==> r.well_formed(),
            self.stage is Finished <==> r is Finished,
    {
        match self.stage {
            LiveStage::Holding(position) => {
                match exit_decision(
                    self.signal.side,
                    position.entry_at_ms,
                    position.entry_price,
                    position.filled_shares,
                    &position.config,
                    book,
                    momentum,
                    now,
                ) {
                    None => LiveStage::Holding(position),
                    Some(decision) => LiveStage::Leaving(position, decision),
                }
            },
            stage => stage,
        }
    }

    /// The sale is planned by the book as it stands once the end of the position is decided.
    pub fn on_plan(
        self,
        book: BookSnapshot,
        account: &Account,
        health: &mut HealthState,
        engine_state: &EngineState,
    ) -> (r: Step)
        ensures
            match self.stage {
                LiveStage::Leaving(position, decision) => {
                    let context = exit_context(
                        position,
                        self.signal.side,
                        decision.decided_at_ms,
                        book,
                        *account,
                    );
                    match planned(position, self.signal.side, decision.decided_at_ms, book) {
                        Err(reason) => {
                            &&& r == (
                                LiveStage::Finished,
                                Some(rejected(self.signal, reason, Some(context))),
                            )
                            &&& *final(health) == old(health).tripped(5)
                        },
                        Ok((sellable, bid)) => {
                            &&& r.1 is None
                            &&& r.0 matches LiveStage::Pausing(exiting, wait)
                            &&& wait == 0
                            &&& exiting.position == position
                            &&& exiting.decision == decision
                            &&& exiting.context == context
                            &&& exiting.sale@ == Selling::started(sellable, bid)
                            &&& *final(health) == *old(health)
                        },
                    }
                },
                _ => r == (self.stage, None::<AuditEvent>) && *final(health) == *old(health),
            },
            self.stage.well_formed() ==> r.0.well_formed(),
            !(self.stage is Finished) ==> accounted(
                r,
                *engine_state,
                *engine_state,
                *old(health),
                *final(health),
            ),
    {
        match self.stage {
            LiveStage::Leaving(position, decision) => {
                match live_exit_plan(self.signal, &position, &decision, book, account, health) {
                    Err(event) => (LiveStage::Finished, Some(event)),
                    Ok(plan) => {
                        let sale: LiveExit = LiveExit::start(plan.sellable_shares, plan.exit_bid);
                        let exiting: Exiting = Exiting {
                            position,
                            decision,
                            context: plan.context,
                            sale,
                        };
                        (LiveStage::Pausing(exiting, 0), None)
                    },
                }
            },
            stage => (stage, None),
        }
    }

    /// The pause is over: the next attempt to sell begins, or resting orders take over, or the
    /// position is closed.
    pub fn on_pause_over(
        self,
        now: u64,
        engine_state: &mut EngineState,
        health: &mut HealthState,
    ) -> (r: Step)
        requires
            self.stage.well_formed(),
        ensures
            match self.stage {
                LiveStage::Pausing(exiting, _) => if exiting.sale@.goes_on() {
                    &&& r.1 is None
                    &&& r.0 matches LiveStage::Selling(next, shares)
                    &&& shares == exiting.sale@.left()
                    &&& next == Exiting { sale: next.sale, ..exiting }
                    &&& next.sale@ == exiting.sale@.begun()
                    &&& *final(engine_state) == *old(engine_state)
                    &&& *final(health) == *old(health)
                } else if exiting.sale@.needs_fallback() {
                    &&& r.1 is None
                    &&& r.0 matches LiveStage::Falling(next, exit)
                    &&& exit == GtcExit::started(
                        crate::binary64::model::minus(
                            exiting.sale@.sellable_shares,
                            exiting.sale@.sold_shares,
                        ),
                    )
                    &&& next == Exiting { sale: next.sale, ..exiting }
                    &&& next.sale@ == exiting.sale@.begun()
                    &&& *final(engine_state) == *old(engine_state)
                    &&& *final(health) == *old(health)
                } else {
                    exists|sale: LiveExit|
                        {
                            &&& sale@ == exiting.sale@.begun()
                            &&& #[trigger] concluded(
                                self.signal,
                                Exiting { sale, ..exiting },
                                no_fallback(),
                                now,
                                *old(engine_state),
                                *old(health),
                                r,
                                *final(engine_state),
                                *final(health),
                            )
                        }
                },
                _ => r == (self.stage, None::<AuditEvent>) && *final(engine_state) == *old(
                    engine_state,
                ) && *final(health) == *old(health),
            },
            r.0.well_formed(),
            !(self.stage is Finished) ==> accounted(
                r,
                *old(engine_state),
                *final(engine_state),
                *old(health),
                *final(health),
            ),
    {
        match self.stage {
            LiveStage::Pausing(exiting, _) => {
                let mut sale: LiveExit = exiting.sale;
                let offer: Option<Binary64> = sale.next_attempt();
                let rest: Option<Binary64> = sale.fallback_shares();
                let next: Exiting = Exiting {
                    position: exiting.position,
                    decision: exiting.decision,
                    context: exiting.context,
                    sale,
                };
                match offer {
                    Some(shares) => {
                        return (LiveStage::Selling(next, shares), None);
                    },
                    None => {},
                }
                match rest {
                    Some(shares) => (LiveStage::Falling(next, GtcExit::start(shares)), None),
                    None => Self::conclude(
                        self.signal,
                        next,
                        FallbackOrder { order_id: None, order_status: None, pending: false },
                        now,
                        engine_state,
                        health,
                    ),
                }
            },
            stage => (stage, None),
        }
    }

    /// The exchange has answered the order to sell at once.
    pub fn on_sold(self, reply: Result<PostedOrder, String>) -> (r: LiveStage)
        requires
            self.stage.well_formed(),
        ensures
            match self.stage {
                LiveStage::Selling(exiting, shares) => {
                    let (sale, wait) = exiting.sale@.after_reply(reply, shares);
                    &&& r matches LiveStage::Pausing(next, ms)
                    &&& ms == wait
                    &&& next == Exiting { sale: next.sale, ..exiting }
                    &&& next.sale@ == sale
                },
                _ => r == self.stage,
            },
            r.well_formed(),
    {
        match self.stage {
            LiveStage::Selling(exiting, shares) => {
                let mut sale: LiveExit = exiting.sale;
                let wait: u64 = sale.replied(reply, shares);
                let next: Exiting = Exiting {
                    position: exiting.position,
                    decision: exiting.decision,
                    context: exiting.context,
                    sale,
                };
                LiveStage::Pausing(next, wait)
            },
            stage => stage,
        }
    }

    /// The bid of the moment, for the price of the next resting order.
    pub fn on_bid(
        self,
        bid: Option<Binary64>,
        now: u64,
        engine_state: &mut EngineState,
        health: &mut HealthState,
    ) -> (r: Step)
        requires
            self.stage.well_formed(),
        ensures
            match self.stage {
                LiveStage::Falling(exiting, exit) if exit.phase == ExitPhase::Price => fallen(
                    self.signal,
                    exiting,
                    exit.priced(bid),
                    now,
                    *old(engine_state),
                    *old(health),
                    r,
                    *final(engine_state),
                    *final(health),
                ),
                _ => r == (self.stage, None::<AuditEvent>) && *final(engine_state) == *old(
                    engine_state,
                ) && *final(health) == *old(health),
            },
            r.0.well_formed(),
            !(self.stage is Finished) ==> accounted(
                r,
                *old(engine_state),
                *final(engine_state),
                *old(health),
                *final(health),
            ),
    {
        match self.stage {
            LiveStage::Falling(exiting, exit) => {
                let mut exit: GtcExit = exit;
                if exit.phase != ExitPhase::Price {
                    return (LiveStage::Falling(exiting, exit), None);
                }
                exit.price(bid);
                Self::fall(self.signal, exiting, exit, now, engine_state, health)
            },
            stage => (stage, None),
        }
    }

    /// The exchange has answered the resting order to sell.
    pub fn on_offered(
        self,
        reply: Result<PostedOrder, String>,
        now: u64,
        engine_state: &mut EngineState,
        health: &mut HealthState,
    ) -> (r: Step)
        requires
            self.stage.well_formed(),
        ensures
            match self.stage {
                LiveStage::Falling(exiting, exit) if exit.phase == ExitPhase::Place => fallen(
                    self.signal,
                    exiting,
                    exit.after_place(reply),
                    now,
                    *old(engine_state),
                    *old(health),
                    r,
                    *final(engine_state),
                    *final(health),
                ),
                _ => r == (self.stage, None::<AuditEvent>) && *final(engine_state) == *old(
                    engine_state,
                ) && *final(health) == *old(health),
            },
            r.0.well_formed(),
            !(self.stage is Finished) ==> accounted(
                r,
                *old(engine_state),
                *final(engine_state),
                *old(health),
                *final(health),
            ),
    {
        match self.stage {
            LiveStage::Falling(exiting, exit) => {
                let mut exit: GtcExit = exit;
                if exit.phase != ExitPhase::Place {
                    return (LiveStage::Falling(exiting, exit), None);
                }
                exit.placed(reply);
                Self::fall(self.signal, exiting, exit, now, engine_state, health)
            },
            stage => (stage, None),
        }
    }
}

// ---------------------------------------------------------------------------------------------
// Laws.

/// Once an order to buy needs nothing more, its position is held with the shares that were bought, at
/// what they cost each; as long as it needs anything, nothing is opened.
pub proof fn law_entered_position(
    signal: OrderSignal,
    order: EntryOrder,
    entry: GtcEntry,
    account: Account,
    state: EngineState,
    health: HealthState,
    step: Step,
    state_after: EngineState,
    health_after: HealthState,
)
    requires
        entered(
            signal,
            order,
            entry,
            account,
            state,
            health,
            step,
            state_after,
            health_after,
        ),
    ensures
        entry.phase != EntryPhase::Done ==> {
            &&& step == (LiveStage::Entering(order, entry), None::<AuditEvent>)
            &&& state_after == state
            &&& health_after == health
        },
        entry.phase == EntryPhase::Done && at_most(entry.result.filled_shares, of_nat(0)) ==> {
            &&& step.0 is Finished
            &&& state_after == state.released()
        },
        entry.phase == EntryPhase::Done && !at_most(entry.result.filled_shares, of_nat(0)) ==> {
            &&& step.0 matches LiveStage::Holding(position)
            &&& position.filled_shares == entry.result.filled_shares
            &&& position.entry_price == over(
                entry.result.notional_usd,
                entry.result.filled_shares,
            )
            &&& position.token == order.token
            &&& position.market == order.market
            &&& position.config == order.config
            &&& state_after == state.opened()
        },
{
}

/// A position that was sold partly at once and partly by resting orders is closed with the shares of
/// both, at what both brought in for each share.
pub proof fn law_both_sales_count(
    signal: OrderSignal,
    exiting: Exiting,
    exit: GtcExit,
    now: u64,
    state: EngineState,
    health: HealthState,
    step: Step,
    state_after: EngineState,
    health_after: HealthState,
)
    requires
        fallen(signal, exiting, exit, now, state, health, step, state_after, health_after),
    ensures
        exit.phase != ExitPhase::Done ==> {
            &&& step == (LiveStage::Falling(exiting, exit), None::<AuditEvent>)
            &&& state_after == state
            &&& health_after == health
        },
        exit.phase == ExitPhase::Done ==> {
            let sold = plus(exiting.sale.sold_shares, exit.result.sold_shares);
            let proceeds = plus(exiting.sale.sale_proceeds, exit.result.sale_proceeds);
            let short = less(plus(sold, ratio(1, 100_000)), exiting.sale.sellable_shares);
            &&& step.0 is Finished
            &&& step.1 matches Some(event)
            &&& short ==> event is ExecutionRejected && state_after == state && health_after
                == health.tripped(5)
            &&& event is LiveExit ==> {
                &&& !short
                &&& event->LiveExit_shares == five_places(sold)
                &&& event->LiveExit_exit_price == five_places(over(proceeds, sold))
                &&& event->LiveExit_closed_at_ms == now
                &&& event->LiveExit_position_id == exiting.position.position_id
                &&& state_after == state.closed(event->LiveExit_net_pnl, now)
            }
            &&& !(event is LiveExit) ==> state_after == state && health_after == health.tripped(5)
        },
{
    if exit.phase == ExitPhase::Done {
        let sale = choose|sale: LiveExit|
            {
                &&& sale@ == exiting.sale@.with_fallback(exit.result)
                &&& #[trigger] concluded(
                    signal,
                    Exiting { sale, ..exiting },
                    FallbackOrder {
                        order_id: exit.result.order_id,
                        order_status: exit.result.order_status,
                        pending: exit.result.pending,
                    },
                    now,
                    state,
                    health,
                    step,
                    state_after,
                    health_after,
                )
            };
        assert(sale@.sold_shares == sale.sold_shares);
        assert(sale@.sale_proceeds == sale.sale_proceeds);
    }
}

/// A sale that had no resting orders tells of none.
pub proof fn law_no_resting_order()
    ensures
        no_fallback().order_id is None,
        no_fallback().order_status is None,
        !no_fallback().pending,
{
}

} // verus!
