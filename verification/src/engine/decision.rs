//! From prices to orders.

use vstd::prelude::*;

use super::state::EngineState;
use super::strategy::{Momentum, MomentumStrategy, Strategy, StrategySignal};
use crate::binary64::model::{at_most, less, minus, plus, ratio};
use crate::binary64::Binary64;
use crate::executor::revalidation::{book_of, outcome_book, small, tolerance};
use crate::executor::types::{OrderSide, OrderSignal};
use crate::health::{HealthState, RunState};
use crate::market::MarketClock;
use crate::runtime_config::StrategySnapshot;
use crate::time::age;
use crate::ws::binance::PriceTick;
use crate::ws::polymarket::{BookSnapshot, OutcomeBook};

verus! {

/// What the engine makes of a price.
#[derive(Debug, Clone, Copy)]
pub enum Decision {
    /// Nothing: no settings, an old price, or no signal.
    Nothing,
    /// A signal that is not followed.  `logged` says whether it is time to report one.
    Rejected { reason: &'static str, candidate: StrategySignal, logged: bool },
    /// A signal to be carried out, with the position reserved for it.
    Accepted { signal: OrderSignal, bid: Binary64, ask: Binary64 },
}

/// The strategy of the current settings, and when it last signalled and was last reported on.
#[derive(Debug)]
pub struct DecisionEngine {
    pub strategy: Option<MomentumStrategy>,
    pub strategy_generation: u64,
    pub last_signal_ts_ms: u64,
    pub last_diagnostic_log_ms: u64,
}

/// What the decision engine goes by.
#[verifier::ext_equal]
pub struct Deciding {
    pub strategy: Option<Momentum>,
    pub strategy_generation: u64,
    pub last_signal_ts_ms: u64,
    pub last_diagnostic_log_ms: u64,
}

impl View for DecisionEngine {
    type V = Deciding;

    open spec fn view(&self) -> Deciding {
        Deciding {
            strategy: match self.strategy {
                Some(s) => Some(s@),
                None => None,
            },
            strategy_generation: self.strategy_generation,
            last_signal_ts_ms: self.last_signal_ts_ms,
            last_diagnostic_log_ms: self.last_diagnostic_log_ms,
        }
    }
}

/// Why a signal is not followed, as far as the market tells: the first of these that holds.
pub open spec fn obstacle(
    candidate: StrategySignal,
    last_signal_ts_ms: u64,
    config: StrategySnapshot,
    health: HealthState,
    clock: MarketClock,
    book: BookSnapshot,
    now: u64,
) -> Option<&'static str> {
    let outcome = book_of(book, candidate.side);
    if age(candidate.signal_ts_ms, last_signal_ts_ms) < config.hold_ms {
        Some("cooldown")
    } else if health.state != RunState::Running {
        Some("engine_stopped")
    } else if !health.market_ready {
        Some("market_not_ready")
    } else if !clock.allows(now, config.min_progress, config.max_progress) {
        Some("market_progress")
    } else if age(now, book.received_at_ms) > config.max_book_age_ms {
        Some("stale_book")
    } else if outcome.bid is None || outcome.ask is None {
        Some("missing_book")
    } else if at_most(outcome.ask->0, outcome.bid->0) {
        Some("crossed_book")
    } else if less(
        plus(config.max_spread, tolerance()),
        minus(outcome.ask->0, outcome.bid->0),
    ) {
        Some("spread")
    } else if less(outcome.ask->0, config.min_price) || less(config.max_price, outcome.ask->0) {
        Some("price_range")
    } else {
        None
    }
}

/// The order that a signal asks for.
pub open spec fn order_of(candidate: StrategySignal, config: StrategySnapshot) -> OrderSignal {
    OrderSignal {
        side: candidate.side,
        momentum_usd: candidate.momentum_usd,
        signal_ts_ms: candidate.signal_ts_ms,
        binance_price: candidate.binance_price,
        execution_latency_ms: config.execution_latency_ms,
        config_generation: config.generation,
        hold_ms: config.hold_ms,
    }
}

impl Deciding {
    /// With a strategy of its own for every update of the settings.
    pub open spec fn tuned(self, config: StrategySnapshot) -> Self {
        if config.generation == self.strategy_generation {
            self
        } else {
            Deciding {
                strategy: Some(
                    Momentum::fresh(
                        config.momentum_window_ms,
                        config.buy_yes_momentum_threshold_usd,
                        config.buy_no_momentum_threshold_usd,
                    ),
                ),
                strategy_generation: config.generation,
                last_signal_ts_ms: 0,
                ..self
            }
        }
    }

    /// A second has gone by since the last report.
    pub open spec fn report_due(self, now: u64) -> bool {
        age(now, self.last_diagnostic_log_ms) >= 1_000
    }

    pub open spec fn reported(self, now: u64) -> Self {
        if self.report_due(now) {
            Deciding { last_diagnostic_log_ms: now, ..self }
        } else {
            self
        }
    }

    /// The signal that `tick` gives under `config`, and the engine after it: an old price is
    /// passed over.
    pub open spec fn heard(self, tick: PriceTick, config: StrategySnapshot, now: u64) -> (
        Self,
        Option<StrategySignal>,
    ) {
        let d = self.tuned(config);
        if age(now, tick.received_at_ms) > config.max_book_age_ms {
            (d, None)
        } else {
            match d.strategy {
                Some(s) => (
                    Deciding { strategy: Some(s.after(tick)), ..d },
                    s.signal(tick, now),
                ),
                None => (d, None),
            }
        }
    }
}

/// Whether the engine asks for the position at all.
pub open spec fn asks(
    heard: (Deciding, Option<StrategySignal>),
    config: StrategySnapshot,
    health: HealthState,
    clock: MarketClock,
    book: BookSnapshot,
    now: u64,
) -> bool {
    heard.1 is Some && obstacle(
        heard.1->0,
        heard.0.last_signal_ts_ms,
        config,
        health,
        clock,
        book,
        now,
    ) is None
}

/// The decision on a signal, and the engine after it; `reservation` is what asking for the
/// position is answered.
pub open spec fn decided(
    heard: (Deciding, Option<StrategySignal>),
    config: StrategySnapshot,
    health: HealthState,
    clock: MarketClock,
    book: BookSnapshot,
    now: u64,
    reservation: Result<(), &'static str>,
) -> (Deciding, Decision) {
    let d = heard.0;
    match heard.1 {
        None => (d, Decision::Nothing),
        Some(candidate) => match obstacle(
            candidate,
            d.last_signal_ts_ms,
            config,
            health,
            clock,
            book,
            now,
        ) {
            Some(reason) => (
                d.reported(now),
                Decision::Rejected { reason, candidate, logged: d.report_due(now) },
            ),
            None => if reservation is Err {
                (
                    d.reported(now),
                    Decision::Rejected {
                        reason: "position_reserved",
                        candidate,
                        logged: d.report_due(now),
                    },
                )
            } else {
                (
                    d,
                    Decision::Accepted {
                        signal: order_of(candidate, config),
                        bid: book_of(book, candidate.side).bid->0,
                        ask: book_of(book, candidate.side).ask->0,
                    },
                )
            },
        },
    }
}

impl DecisionEngine {
    pub fn new() -> (r: Self)
        ensures
            r@ == (Deciding {
                strategy: None,
                strategy_generation: 0,
                last_signal_ts_ms: 0,
                last_diagnostic_log_ms: 0,
            }),
    {
        DecisionEngine {
            strategy: None,
            strategy_generation: 0,
            last_signal_ts_ms: 0,
            last_diagnostic_log_ms: 0,
        }
    }

    /// Decides on a price.  A signal that nothing stands against reserves the position: the day
    /// is told by `checked_at`, and the reservation is dated `reserved_at`.
    pub fn on_tick(
        &mut self,
        tick: PriceTick,
        config: Option<StrategySnapshot>,
        now: u64,
        health: &HealthState,
        clock: &MarketClock,
        book: BookSnapshot,
        engine_state: &mut EngineState,
        checked_at: u64,
        reserved_at: u64,
    ) -> (r: Decision)
        ensures
            match config {
                None => {
                    &&& r == Decision::Nothing
                    &&& final(self)@ == old(self)@
                    &&& *final(engine_state) == *old(engine_state)
                },
                Some(config) => {
                    let heard = old(self)@.heard(tick, config, now);
                    &&& (final(self)@, r) == decided(
                        heard,
                        config,
                        *health,
                        *clock,
                        book,
                        now,
                        old(engine_state).refreshed(checked_at).reservation(),
                    )
                    &&& *final(engine_state) == if asks(heard, config, *health, *clock, book, now) {
                        old(engine_state).after_reserve(checked_at, reserved_at)
                    } else {
                        *old(engine_state)
                    }
                },
            },
    {
        let config: StrategySnapshot = match config {
            Some(config) => config,
            None => return Decision::Nothing,
        };
        let candidate: StrategySignal = match self.hear(tick, &config, now) {
            Some(candidate) => candidate,
            None => return Decision::Nothing,
        };
        match find_obstacle(
            candidate,
            self.last_signal_ts_ms,
            &config,
            health,
            clock,
            book,
            now,
        ) {
            Some(reason) => {
                let logged: bool = self.diagnostic_due(now);
                return Decision::Rejected { reason, candidate, logged };
            },
            None => {},
        }
        if engine_state.try_reserve_at(checked_at, reserved_at).is_err() {
            let logged: bool = self.diagnostic_due(now);
            return Decision::Rejected { reason: "position_reserved", candidate, logged };
        }
        let outcome: OutcomeBook = outcome_book(book, candidate.side);
        let signal: OrderSignal = OrderSignal::new(
            candidate.side,
            candidate.momentum_usd,
            candidate.signal_ts_ms,
            candidate.binance_price,
            config.execution_latency_ms,
            config.generation,
            config.hold_ms,
        );
        if let (Some(bid), Some(ask)) = (outcome.bid, outcome.ask) {
            Decision::Accepted { signal, bid, ask }
        } else {
            Decision::Nothing
        }
    }

    fn hear(&mut self, tick: PriceTick, config: &StrategySnapshot, now: u64) -> (r: Option<
        StrategySignal,
    >)
        ensures
            (final(self)@, r) == old(self)@.heard(tick, *config, now),
    {
        if config.generation != self.strategy_generation {
            self.strategy =
            Some(
                MomentumStrategy::with_params(
                    config.momentum_window_ms,
                    config.buy_yes_momentum_threshold_usd,
                    config.buy_no_momentum_threshold_usd,
                ),
            );
            self.strategy_generation = config.generation;
            self.last_signal_ts_ms = 0;
        }
        if now.saturating_sub(tick.received_at_ms) > config.max_book_age_ms {
            return None;
        }
        match self.strategy.take() {
            Some(mut strategy) => {
                let candidate: Option<StrategySignal> = strategy.on_binance_tick(tick, now);
                self.strategy = Some(strategy);
                candidate
            },
            None => None,
        }
    }

    fn diagnostic_due(&mut self, now: u64) -> (r: bool)
        ensures
            r == old(self)@.report_due(now),
            final(self)@ == old(self)@.reported(now),
    {
        if now.saturating_sub(self.last_diagnostic_log_ms) < 1_000 {
            return false;
        }
        self.last_diagnostic_log_ms = now;
        true
    }

    /// Takes in whether the executor's queue took an accepted signal.  One that it did not take
    /// gives its reservation up and faults the engine.  The result says whether to go on.
    pub fn sent(
        &mut self,
        signal: OrderSignal,
        accepted: bool,
        engine_state: &mut EngineState,
        health: &mut HealthState,
    ) -> (r: bool)
        ensures
            r == accepted,
            accepted ==> {
                &&& final(self)@ == (Deciding {
                    last_signal_ts_ms: signal.signal_ts_ms,
                    ..old(self)@
                })
                &&& *final(engine_state) == *old(engine_state)
                &&& *final(health) == *old(health)
            },
            !accepted ==> {
                &&& final(self)@ == old(self)@
                &&& *final(engine_state) == old(engine_state).released()
                &&& *final(health) == old(health).tripped(3)
            },
    {
        if accepted {
            self.last_signal_ts_ms = signal.signal_ts_ms;
        } else {
            engine_state.release_reservation();
            health.trip(3);
        }
        accepted
    }
}

fn find_obstacle(
    candidate: StrategySignal,
    last_signal_ts_ms: u64,
    config: &StrategySnapshot,
    health: &HealthState,
    clock: &MarketClock,
    book: BookSnapshot,
    now: u64,
) -> (r: Option<&'static str>)
    ensures
        r == obstacle(candidate, last_signal_ts_ms, *config, *health, *clock, book, now),
{
    if candidate.signal_ts_ms.saturating_sub(last_signal_ts_ms) < config.hold_ms {
        return Some("cooldown");
    }
    if !health.is_running() {
        return Some("engine_stopped");
    }
    if !health.market_ready() {
        return Some("market_not_ready");
    }
    if !clock.progress_allowed(now, config.min_progress, config.max_progress) {
        return Some("market_progress");
    }
    if now.saturating_sub(book.received_at_ms) > config.max_book_age_ms {
        return Some("stale_book");
    }
    let outcome: OutcomeBook = outcome_book(book, candidate.side);
    if let (Some(bid), Some(ask)) = (outcome.bid, outcome.ask) {
        if ask.le(bid) {
            return Some("crossed_book");
        }
        if config.max_spread.add(small()).lt(ask.sub(bid)) {
            return Some("spread");
        }
        if ask.lt(config.min_price) || config.max_price.lt(ask) {
            return Some("price_range");
        }
        None
    } else {
        Some("missing_book")
    }
}

/// A signal is followed only by a running engine, in a ready market, within its progress, on a
/// fresh book and with the position free, and it then holds the position.
pub proof fn law_accepted_signal(
    d: Deciding,
    state: EngineState,
    tick: PriceTick,
    config: StrategySnapshot,
    health: HealthState,
    clock: MarketClock,
    book: BookSnapshot,
    now: u64,
    checked_at: u64,
    reserved_at: u64,
)
    ensures
        decided(
            d.heard(tick, config, now),
            config,
            health,
            clock,
            book,
            now,
            state.refreshed(checked_at).reservation(),
        ).1 matches Decision::Accepted { signal, bid, ask } ==> {
            &&& health.state == RunState::Running
            &&& health.market_ready
            &&& clock.open_ts_ms <= now <= clock.close_ts_ms
            &&& age(now, book.received_at_ms) <= config.max_book_age_ms
            &&& signal.config_generation == config.generation
            &&& state.open_or_reserved == 0
            &&& state.after_reserve(checked_at, reserved_at).open_or_reserved == 1
        },
{
}

/// A signal is followed by no other within the holding time, while the settings stay.
pub proof fn law_cooldown(
    d: Deciding,
    tick: PriceTick,
    config: StrategySnapshot,
    health: HealthState,
    clock: MarketClock,
    book: BookSnapshot,
    now: u64,
    reservation: Result<(), &'static str>,
)
    requires
        config.generation == d.strategy_generation,
        now < d.last_signal_ts_ms + config.hold_ms,
        config.hold_ms > 0,
    ensures
        !(decided(
            d.heard(tick, config, now),
            config,
            health,
            clock,
            book,
            now,
            reservation,
        ).1 is Accepted),
{
}

/// An accepted signal names the bid and the ask of the book of its own side: the ask is above the
/// bid, by no more than the widest spread and 0.00001, and it is a price within the limits.
pub proof fn law_accepted_prices(
    d: Deciding,
    tick: PriceTick,
    config: StrategySnapshot,
    health: HealthState,
    clock: MarketClock,
    book: BookSnapshot,
    now: u64,
    reservation: Result<(), &'static str>,
)
    ensures
        decided(
            d.heard(tick, config, now),
            config,
            health,
            clock,
            book,
            now,
            reservation,
        ).1 matches Decision::Accepted { signal, bid, ask } ==> {
            &&& signal.side == OrderSide::BuyYes ==> book.yes.bid == Some(bid) && book.yes.ask
                == Some(ask)
            &&& signal.side == OrderSide::BuyNo ==> book.no.bid == Some(bid) && book.no.ask == Some(
                ask,
            )
            &&& !at_most(ask, bid)
            &&& !less(plus(config.max_spread, ratio(1, 100_000)), minus(ask, bid))
            &&& !less(ask, config.min_price)
            &&& !less(config.max_price, ask)
            &&& reservation is Ok
        },
{
}

/// A signal is followed exactly where nothing stands against it: the holding time has gone by since
/// the last one, the engine runs, the market is ready and within its progress, the book is
/// fresh and of its own side, the spread and the price are within the limits, and the position
/// is free.  What is followed is the signal itself, under the settings of the moment.
pub proof fn law_followed_signal(
    d: Deciding,
    candidate: StrategySignal,
    config: StrategySnapshot,
    health: HealthState,
    clock: MarketClock,
    book: BookSnapshot,
    now: u64,
    reservation: Result<(), &'static str>,
)
    ensures
        ({
            let (next, decision) = decided(
                (d, Some(candidate)),
                config,
                health,
                clock,
                book,
                now,
                reservation,
            );
            let own = if candidate.side == OrderSide::BuyNo {
                book.no
            } else {
                book.yes
            };
            let free = {
                &&& candidate.signal_ts_ms >= d.last_signal_ts_ms + config.hold_ms || config.hold_ms
                    == 0
                &&& health.state == RunState::Running
                &&& health.market_ready
                &&& clock.allows(now, config.min_progress, config.max_progress)
                &&& now <= book.received_at_ms + config.max_book_age_ms
                &&& own.bid is Some
                &&& own.ask is Some
                &&& !at_most(own.ask->0, own.bid->0)
                &&& !less(
                    plus(config.max_spread, ratio(1, 100_000)),
                    minus(own.ask->0, own.bid->0),
                )
                &&& !less(own.ask->0, config.min_price)
                &&& !less(config.max_price, own.ask->0)
                &&& reservation is Ok
            };
            &&& decision is Accepted <==> free
            &&& decision is Rejected <==> !free
            &&& decision matches Decision::Accepted { signal, bid, ask } ==> {
                &&& signal.side == candidate.side
                &&& signal.momentum_usd == candidate.momentum_usd
                &&& signal.signal_ts_ms == candidate.signal_ts_ms
                &&& signal.binance_price == candidate.binance_price
                &&& signal.execution_latency_ms == config.execution_latency_ms
                &&& signal.config_generation == config.generation
                &&& signal.hold_ms == config.hold_ms
                &&& next == d
            }
            &&& decision matches Decision::Rejected { reason, candidate: told, logged } ==> {
                &&& told == candidate
                &&& logged <==> now >= d.last_diagnostic_log_ms + 1_000
                &&& next.last_diagnostic_log_ms == (if logged {
                    now
                } else {
                    d.last_diagnostic_log_ms
                })
                &&& next.last_signal_ts_ms == d.last_signal_ts_ms
                &&& next.strategy == d.strategy
            }
        }),
{
}

/// The obstacles that a signal is told are those of its own side's book: with the others out of
/// the way, a missing price, a crossed book, a wide spread and a price out of range are each named
/// for what they are.
pub proof fn law_named_obstacle(
    candidate: StrategySignal,
    last_signal_ts_ms: u64,
    config: StrategySnapshot,
    health: HealthState,
    clock: MarketClock,
    book: BookSnapshot,
    now: u64,
)
    ensures
        ({
            let reason = obstacle(
                candidate,
                last_signal_ts_ms,
                config,
                health,
                clock,
                book,
                now,
            );
            let own = if candidate.side == OrderSide::BuyNo {
                book.no
            } else {
                book.yes
            };
            let cooling = candidate.signal_ts_ms < last_signal_ts_ms + config.hold_ms
                && config.hold_ms > 0;
            let idle = health.state != RunState::Running;
            let unready = !health.market_ready;
            let outside = !clock.allows(now, config.min_progress, config.max_progress);
            let old = now > book.received_at_ms + config.max_book_age_ms;
            let clear = !cooling && !idle && !unready && !outside && !old;
            let quoted = own.bid is Some && own.ask is Some;
            let crossed = at_most(own.ask->0, own.bid->0);
            let wide = less(
                plus(config.max_spread, ratio(1, 100_000)),
                minus(own.ask->0, own.bid->0),
            );
            let off = less(own.ask->0, config.min_price) || less(config.max_price, own.ask->0);
            &&& cooling ==> reason == Some("cooldown")
            &&& !cooling && idle ==> reason == Some("engine_stopped")
            &&& !cooling && !idle && unready ==> reason == Some("market_not_ready")
            &&& !cooling && !idle && !unready && outside ==> reason == Some("market_progress")
            &&& !cooling && !idle && !unready && !outside && old ==> reason == Some("stale_book")
            &&& clear && !quoted ==> reason == Some("missing_book")
            &&& clear && quoted && crossed ==> reason == Some("crossed_book")
            &&& clear && quoted && !crossed && wide ==> reason == Some("spread")
            &&& clear && quoted && !crossed && !wide && off ==> reason == Some("price_range")
            &&& clear && quoted && !crossed && !wide && !off ==> reason is None
        }),
{
}

/// An old price is heard by no strategy, and new settings begin with a strategy of their own that
/// has heard nothing.
pub proof fn law_heard_price(d: Deciding, tick: PriceTick, config: StrategySnapshot, now: u64)
    ensures
        now > tick.received_at_ms + config.max_book_age_ms ==> d.heard(tick, config, now).1 is None,
        config.generation == d.strategy_generation && now > tick.received_at_ms
            + config.max_book_age_ms ==> d.heard(tick, config, now).0 == d,
        config.generation != d.strategy_generation ==> {
            let next = d.heard(tick, config, now).0;
            &&& next.strategy_generation == config.generation
            &&& next.last_signal_ts_ms == 0
            &&& next.last_diagnostic_log_ms == d.last_diagnostic_log_ms
            &&& next.strategy matches Some(s)
            &&& s.window_ms == config.momentum_window_ms
            &&& s.buy_yes_threshold_usd == config.buy_yes_momentum_threshold_usd
            &&& s.buy_no_threshold_usd == config.buy_no_momentum_threshold_usd
            &&& now > tick.received_at_ms + config.max_book_age_ms ==> s.prices.len() == 0
            &&& now <= tick.received_at_ms + config.max_book_age_ms ==> s.prices == seq![tick]
        },
        config.generation == d.strategy_generation && now <= tick.received_at_ms
            + config.max_book_age_ms ==> (d.strategy matches Some(s) ==> {
            &&& d.heard(tick, config, now).1 == s.signal(tick, now)
            &&& d.heard(tick, config, now).0 == (Deciding { strategy: Some(s.after(tick)), ..d })
        }),
{
    let fresh = Seq::<PriceTick>::empty().push(tick);
    assert(fresh == seq![tick]);
}

/// A signal is followed exactly where the position is asked for and given; where it is asked for and
/// not given, that is the reason told.
pub proof fn law_position_is_asked_for(
    d: Deciding,
    tick: PriceTick,
    config: StrategySnapshot,
    health: HealthState,
    clock: MarketClock,
    book: BookSnapshot,
    now: u64,
    state: EngineState,
    checked_at: u64,
)
    ensures
        ({
            let heard = d.heard(tick, config, now);
            let reservation = state.refreshed(checked_at).reservation();
            let decision = decided(heard, config, health, clock, book, now, reservation).1;
            &&& asks(heard, config, health, clock, book, now) && reservation is Ok <==> decision
                is Accepted
            &&& asks(heard, config, health, clock, book, now) && reservation is Err ==> (
            decision matches Decision::Rejected { reason, candidate, logged } && reason
                == "position_reserved")
            &&& heard.1 is None <==> decision is Nothing
        }),
{
}

} // verus!
