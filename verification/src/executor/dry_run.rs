//! One simulated signal, step by step.
//!
//! A task says what it needs next, and each of its methods takes one answer in.  An answer that
//! the task does not wait for leaves it as it is.

use vstd::prelude::*;

use super::exit_decision::{decision_at, exit_decision, ExitDecision};
use super::order::{
    dry_run_close, dry_run_ended, dry_run_entry, dry_run_started, DryRunEnd, DryRunPosition,
    DryRunStart,
};
use super::types::OrderSignal;
use crate::binary64::model::of_nat;
use crate::binary64::Binary64;
use crate::emitter::audit::AuditEvent;
use crate::engine::state::EngineState;
use crate::health::HealthState;
use crate::market::MarketClock;
use crate::runtime_config::StrategyStore;
use crate::ws::polymarket::BookSnapshot;

verus! {

/// How far a simulated signal has come.
#[derive(Debug, Clone, Copy)]
pub enum DryRunStage {
    /// It waits for the moment that it is due.
    Due,
    /// Its position is open.
    Holding(DryRunPosition),
    /// The end of its position is decided.
    Leaving(DryRunPosition, ExitDecision),
    /// Nothing is left to do.
    Finished,
}

/// What a task needs next.
#[derive(Debug, Clone, Copy)]
pub enum DryRunWork {
    /// The moment that the signal is due, and the book of that moment.
    Due,
    /// So many milliseconds, and then a check of the position.
    Check(u64),
    /// The book, to close the position by.
    Close,
    /// Nothing.
    Nothing,
}

/// A simulated signal on its way.
#[derive(Debug, Clone, Copy)]
pub struct DryRunTask {
    pub signal: OrderSignal,
    pub stage: DryRunStage,
}

/// What a step leaves behind: the stage, and an event for the audit trail.
pub type DryRunStep = (DryRunStage, Option<AuditEvent>);

impl DryRunTask {
    /// A signal that has come in.
    pub fn new(signal: OrderSignal) -> (r: Self)
        ensures
            r == (DryRunTask { signal, stage: DryRunStage::Due }),
    {
        DryRunTask { signal, stage: DryRunStage::Due }
    }

    /// What the task needs next.
    pub fn work(&self) -> (r: DryRunWork)
        ensures
            r == (match self.stage {
                DryRunStage::Due => DryRunWork::Due,
                DryRunStage::Holding(position) => DryRunWork::Check(
                    position.config.exit_check_interval_ms,
                ),
                DryRunStage::Leaving(_, _) => DryRunWork::Close,
                DryRunStage::Finished => DryRunWork::Nothing,
            }),
    {
        match self.stage {
            DryRunStage::Due => DryRunWork::Due,
            DryRunStage::Holding(position) => DryRunWork::Check(
                position.config.exit_check_interval_ms,
            ),
            DryRunStage::Leaving(_, _) => DryRunWork::Close,
            DryRunStage::Finished => DryRunWork::Nothing,
        }
    }

    /// The step, and the state of the engine, once the signal is due.
    pub open spec fn after_moment(
        self,
        at: u64,
        health: HealthState,
        store: StrategyStore,
        book: BookSnapshot,
        clock: MarketClock,
        state: EngineState,
    ) -> (DryRunStep, EngineState) {
        match self.stage {
            DryRunStage::Due => {
                let (start, left) = dry_run_started(
                    self.signal,
                    at,
                    health,
                    store,
                    book,
                    clock,
                    state,
                );
                match start {
                    DryRunStart::Rejected(event) => ((DryRunStage::Finished, Some(event)), left),
                    DryRunStart::Opened(position, event) => (
                        (DryRunStage::Holding(position), Some(event)),
                        left,
                    ),
                }
            },
            _ => ((self.stage, None), state),
        }
    }

    /// The stage once the open position has been checked.
    pub open spec fn after_check(
        self,
        book: BookSnapshot,
        momentum: Option<Binary64>,
        now: u64,
    ) -> DryRunStage {
        match self.stage {
            DryRunStage::Holding(position) => match decision_at(
                self.signal.side,
                position.entry_at_ms,
                position.entry_price,
                of_nat(position.shares as nat),
                position.config,
                book,
                momentum,
                now,
            ) {
                None => self.stage,
                Some(decision) => DryRunStage::Leaving(position, decision),
            },
            _ => self.stage,
        }
    }

    /// The step, and the state of the engine, once the position is left.
    pub open spec fn after_close(
        self,
        book: BookSnapshot,
        closed_at_ms: u64,
        state: EngineState,
    ) -> (DryRunStep, EngineState) {
        match self.stage {
            DryRunStage::Leaving(position, decision) => {
                let (end, left) = dry_run_ended(
                    self.signal,
                    position,
                    decision,
                    book,
                    state,
                    closed_at_ms,
                );
                let event = match end {
                    DryRunEnd::Released(event) => event,
                    DryRunEnd::Closed(event) => event,
                };
                ((DryRunStage::Finished, Some(event)), left)
            },
            _ => ((self.stage, None), state),
        }
    }

    /// The signal is due: its position is opened, or it is given up.
    pub fn on_moment(
        self,
        at: u64,
        health: &HealthState,
        store: &StrategyStore,
        book: BookSnapshot,
        clock: &MarketClock,
        engine_state: &mut EngineState,
    ) -> (r: DryRunStep)
        ensures
            (r, *final(engine_state)) == self.after_moment(
                at,
                *health,
                *store,
                book,
                *clock,
                *old(engine_state),
            ),
    {
        match self.stage {
            DryRunStage::Due => match dry_run_entry(
                self.signal,
                at,
                health,
                store,
                book,
                clock,
                engine_state,
            ) {
                DryRunStart::Rejected(event) => (DryRunStage::Finished, Some(event)),
                DryRunStart::Opened(position, event) => (
                    DryRunStage::Holding(position),
                    Some(event),
                ),
            },
            stage => (stage, None),
        }
    }

    /// The open position is checked: it is held on to, or its end is decided.
    pub fn on_check(self, book: BookSnapshot, momentum: Option<Binary64>, now: u64) -> (r:
        DryRunStage)
        ensures
            r == self.after_check(book, momentum, now),
    {
        match self.stage {
            DryRunStage::Holding(position) => match exit_decision(
                self.signal.side,
                position.entry_at_ms,
                position.entry_price,
                Binary64::from_u64(position.shares),
                &position.config,
                book,
                momentum,
                now,
            ) {
                None => DryRunStage::Holding(position),
                Some(decision) => DryRunStage::Leaving(position, decision),
            },
            stage => stage,
        }
    }

    /// The position is left by the book as it stands once its end is decided.
    pub fn on_close(
        self,
        book: BookSnapshot,
        closed_at_ms: u64,
        engine_state: &mut EngineState,
    ) -> (r: DryRunStep)
        ensures
            (r, *final(engine_state)) == self.after_close(book, closed_at_ms, *old(engine_state)),
    {
        match self.stage {
            DryRunStage::Leaving(position, decision) => match dry_run_close(
                self.signal,
                &position,
                &decision,
                book,
                engine_state,
                closed_at_ms,
            ) {
                DryRunEnd::Released(event) => (DryRunStage::Finished, Some(event)),
                DryRunEnd::Closed(event) => (DryRunStage::Finished, Some(event)),
            },
            stage => (stage, None),
        }
    }
}

// ---------------------------------------------------------------------------------------------
// Laws.

/// One answer to a task.
pub enum DryRunAnswer {
    Moment {
        at: u64,
        health: HealthState,
        store: StrategyStore,
        book: BookSnapshot,
        clock: MarketClock,
    },
    Check { book: BookSnapshot, momentum: Option<Binary64>, now: u64 },
    Close { book: BookSnapshot, at: u64 },
}

/// A task, the engine that it runs in, and what was told so far.
pub struct DryRun {
    pub task: DryRunTask,
    pub state: EngineState,
    pub events: Seq<AuditEvent>,
}

impl DryRun {
    pub open spec fn stepped(self, step: DryRunStep, state: EngineState) -> Self {
        DryRun {
            task: DryRunTask { stage: step.0, ..self.task },
            state,
            events: match step.1 {
                Some(event) => self.events.push(event),
                None => self.events,
            },
        }
    }

    pub open spec fn answered(self, answer: DryRunAnswer) -> Self {
        match answer {
            DryRunAnswer::Moment { at, health, store, book, clock } => {
                let (step, state) = self.task.after_moment(
                    at,
                    health,
                    store,
                    book,
                    clock,
                    self.state,
                );
                self.stepped(step, state)
            },
            DryRunAnswer::Check { book, momentum, now } => self.stepped(
                (self.task.after_check(book, momentum, now), None),
                self.state,
            ),
            DryRunAnswer::Close { book, at } => {
                let (step, state) = self.task.after_close(book, at, self.state);
                self.stepped(step, state)
            },
        }
    }

    /// The run of a signal that came in when the engine was in `state`, after the answers.
    pub open spec fn of(signal: OrderSignal, state: EngineState, answers: Seq<DryRunAnswer>) -> Self
        decreases answers.len(),
    {
        if answers.len() == 0 {
            DryRun {
                task: DryRunTask { signal, stage: DryRunStage::Due },
                state,
                events: Seq::empty(),
            }
        } else {
            Self::of(signal, state, answers.drop_last()).answered(answers.last())
        }
    }
}

/// A simulated signal holds its reservation until it ends and gives it back with its end, and a
/// result is booked only with the event of an exit, which then is the last.
pub proof fn law_dry_run(signal: OrderSignal, state: EngineState, answers: Seq<DryRunAnswer>)
    requires
        state.open_or_reserved == 1,
    ensures
        ({
            let run = DryRun::of(signal, state, answers);
            &&& run.task.stage is Finished <==> run.state.open_or_reserved == 0
            &&& !(run.task.stage is Finished) ==> run.state.open_or_reserved == 1
            &&& match run.task.stage {
                DryRunStage::Due => run.events.len() == 0 && run.state == state,
                DryRunStage::Finished => {
                    ||| {
                        &&& run.events.len() == 1
                        &&& run.events[0] is ExecutionRejected
                        &&& run.state == state.released()
                    }
                    ||| {
                        &&& run.events.len() == 2
                        &&& run.events[0] is DryRunEntry
                        &&& run.events[1] is ExecutionRejected
                        &&& run.state == state.opened().released()
                    }
                    ||| {
                        &&& run.events.len() == 2
                        &&& run.events[0] is DryRunEntry
                        &&& run.events[1] is DryRunExit
                        &&& run.state == state.opened().closed(
                            run.events[1]->DryRunExit_net_pnl,
                            run.events[1]->DryRunExit_closed_at_ms,
                        )
                    }
                },
                _ => {
                    &&& run.events.len() == 1
                    &&& run.events[0] is DryRunEntry
                    &&& run.state == state.opened()
                },
            }
        }),
    decreases answers.len(),
{
    if answers.len() > 0 {
        law_dry_run(signal, state, answers.drop_last());
    }
}

/// Nothing is booked by a simulated signal but the result of its exit.
pub proof fn law_dry_run_books(signal: OrderSignal, state: EngineState, answers: Seq<DryRunAnswer>)
    requires
        state.open_or_reserved == 1,
    ensures
        ({
            let run = DryRun::of(signal, state, answers);
            run.events.len() == 0 || !(run.events.last() is DryRunExit) ==> {
                &&& run.state.total_pnl_microusd == state.total_pnl_microusd
                &&& run.state.daily_pnl_microusd == state.daily_pnl_microusd
                &&& run.state.daily_epoch_day == state.daily_epoch_day
            }
        }),
{
    law_dry_run(signal, state, answers);
}

/// A simulated position is checked by its own side, entry, shares and settings, and is left exactly
/// where such a check decides so.
pub proof fn law_simulated_check(
    signal: OrderSignal,
    position: DryRunPosition,
    book: BookSnapshot,
    momentum: Option<Binary64>,
    now: u64,
)
    ensures
        ({
            let task = DryRunTask { signal, stage: DryRunStage::Holding(position) };
            let decision = decision_at(
                signal.side,
                position.entry_at_ms,
                position.entry_price,
                of_nat(position.shares as nat),
                position.config,
                book,
                momentum,
                now,
            );
            &&& decision is None ==> task.after_check(book, momentum, now) == task.stage
            &&& decision matches Some(d) ==> task.after_check(book, momentum, now)
                == DryRunStage::Leaving(position, d)
        }),
{
}

/// A simulated signal that is due becomes the position that its entry opens or ends with its
/// rejection, and a position that is left ends with its exit or its release.
pub proof fn law_simulated_steps(
    signal: OrderSignal,
    at: u64,
    health: HealthState,
    store: StrategyStore,
    book: BookSnapshot,
    clock: MarketClock,
    state: EngineState,
    position: DryRunPosition,
    decision: ExitDecision,
)
    ensures
        ({
            let due = DryRunTask { signal, stage: DryRunStage::Due };
            let (start, started) = dry_run_started(signal, at, health, store, book, clock, state);
            let (step, left) = due.after_moment(at, health, store, book, clock, state);
            &&& left == started
            &&& start matches DryRunStart::Rejected(event) ==> step == (
                DryRunStage::Finished,
                Some(event),
            )
            &&& start matches DryRunStart::Opened(opened, event) ==> step == (
                DryRunStage::Holding(opened),
                Some(event),
            )
        }),
        ({
            let leaving = DryRunTask { signal, stage: DryRunStage::Leaving(position, decision) };
            let (end, ended) = dry_run_ended(signal, position, decision, book, state, at);
            let (step, left) = leaving.after_close(book, at, state);
            &&& left == ended
            &&& step.0 is Finished
            &&& end matches DryRunEnd::Released(event) ==> step.1 == Some(event)
            &&& end matches DryRunEnd::Closed(event) ==> step.1 == Some(event)
        }),
{
}

} // verus!
