//! Signals that are not carried out.

use vstd::prelude::*;

use super::types::OrderSignal;
use crate::emitter::audit::{AuditBookContext, AuditEvent};
use crate::engine::state::EngineState;

verus! {

/// The event of a signal that is not carried out.
pub open spec fn rejected(
    signal: OrderSignal,
    reason: &'static str,
    context: Option<AuditBookContext>,
) -> AuditEvent {
    AuditEvent::ExecutionRejected {
        signal_ts_ms: signal.signal_ts_ms,
        side: signal.side.label(),
        reason,
        context,
    }
}

/// Gives the signal's reservation up, and reports why.
pub fn reject(signal: OrderSignal, reason: &'static str, engine_state: &mut EngineState) -> (r:
    AuditEvent)
    ensures
        r == rejected(signal, reason, None),
        *final(engine_state) == old(engine_state).released(),
{
    reject_with_context(signal, reason, engine_state, None)
}

/// Gives the signal's reservation up, and reports why and in what market.
pub fn reject_with_context(
    signal: OrderSignal,
    reason: &'static str,
    engine_state: &mut EngineState,
    context: Option<AuditBookContext>,
) -> (r: AuditEvent)
    ensures
        r == rejected(signal, reason, context),
        *final(engine_state) == old(engine_state).released(),
{
    engine_state.release_reservation();
    rejection_event(signal, reason, context)
}

/// Reports why a signal is not carried out.
pub fn rejection_event(
    signal: OrderSignal,
    reason: &'static str,
    context: Option<AuditBookContext>,
) -> (r: AuditEvent)
    ensures
        r == rejected(signal, reason, context),
{
    AuditEvent::ExecutionRejected {
        signal_ts_ms: signal.signal_ts_ms,
        side: signal.side.as_str(),
        reason,
        context,
    }
}

} // verus!
