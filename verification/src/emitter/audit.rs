//! The events of the audit trail.

use vstd::prelude::*;

use crate::binary64::Binary64;
use crate::engine::state::ClosedPosition;
use crate::executor::errors::OrderFault;
use crate::executor::types::OrderSignal;
use crate::health::HealthState;
use crate::shadow::ShadowExitRecord;
use crate::text::{decimal, decimal_text, join};
use crate::time::now_ms;

verus! {

/// One attempt to sell that was put off.
#[derive(Debug, Clone)]
pub struct AuditExitRetryAttempt {
    pub attempt: u32,
    pub error_class: &'static str,
    pub error: Option<String>,
    pub delay_ms: u64,
}

/// What the engine saw and did around an event.
#[derive(Debug, Clone)]
pub struct AuditBookContext {
    pub market_slug: Option<String>,
    pub token_id: Option<String>,
    pub yes_bid: Option<Binary64>,
    pub yes_ask: Option<Binary64>,
    pub no_bid: Option<Binary64>,
    pub no_ask: Option<Binary64>,
    pub book_received_at_ms: u64,
    pub book_source_ts_ms: u64,
    pub book_age_ms: u64,
    pub selected_bid: Option<Binary64>,
    pub selected_ask: Option<Binary64>,
    pub entry_slippage: Option<Binary64>,
    pub entry_limit_price: Option<Binary64>,
    pub intended_shares: Option<u64>,
    pub intended_notional_usd: Option<Binary64>,
    pub available_shares: Option<Binary64>,
    pub required_shares: Option<Binary64>,
    pub exchange_error: Option<OrderFault>,
    pub filled_shares: Option<Binary64>,
    pub exit_attempts: Option<u32>,
    pub exit_retry_attempts: Option<Vec<AuditExitRetryAttempt>>,
    pub exit_attempt_funder_address: Option<String>,
    pub entry_matched_funder_address: Option<String>,
    pub signature_type: Option<String>,
    pub fallback_order_id: Option<String>,
    pub entry_submit_latency_ms: Option<u64>,
    pub entry_build_latency_ms: Option<u64>,
    pub entry_sign_latency_ms: Option<u64>,
    pub entry_post_latency_ms: Option<u64>,
    pub gtc_post_success: Option<bool>,
    pub gtc_post_status: Option<String>,
    pub gtc_post_making_amount: Option<Binary64>,
    pub gtc_post_taking_amount: Option<Binary64>,
    pub gtc_poll_count: Option<u32>,
    pub gtc_poll_status: Option<String>,
    pub gtc_poll_size_matched: Option<Binary64>,
    pub gtc_cancel_confirmed: Option<bool>,
    pub gtc_final_status: Option<String>,
    pub gtc_final_size_matched: Option<Binary64>,
}

/// An event, with where and when it came from.
#[derive(Debug)]
pub struct AuditEnvelope {
    pub schema_version: u8,
    pub source: &'static str,
    pub session_id: String,
    pub execution_mode: &'static str,
    pub emitted_at_ms: u64,
    pub config_version: Option<String>,
    pub event: AuditEvent,
}

#[derive(Debug, Clone)]
pub enum AuditEvent {
    SignalAccepted {
        signal_ts_ms: u64,
        side: &'static str,
        momentum_usd: Binary64,
        binance_price: Binary64,
        context: Option<AuditBookContext>,
    },
    DryRunEntry {
        position_id: u64,
        signal_ts_ms: u64,
        executed_at_ms: u64,
        latency_ms: u64,
        side: &'static str,
        price: Binary64,
        shares: u64,
        notional_usd: Binary64,
    },
    DryRunExit {
        position_id: u64,
        closed_at_ms: u64,
        side: &'static str,
        exit_reason: &'static str,
        held_ms: u64,
        exit_momentum_usd: Option<Binary64>,
        entry_price: Binary64,
        exit_price: Binary64,
        shares: u64,
        gross_pnl: Binary64,
        entry_fee: Binary64,
        exit_fee: Binary64,
        net_pnl: Binary64,
    },
    LiveEntry {
        position_id: u64,
        signal_ts_ms: u64,
        executed_at_ms: u64,
        latency_ms: u64,
        side: &'static str,
        token_id: String,
        order_id: String,
        order_status: String,
        price: Binary64,
        shares: Binary64,
        notional_usd: Binary64,
        context: Option<AuditBookContext>,
    },
    LiveExit {
        position_id: u64,
        closed_at_ms: u64,
        side: &'static str,
        exit_reason: &'static str,
        held_ms: u64,
        exit_momentum_usd: Option<Binary64>,
        token_id: String,
        order_id: String,
        order_status: String,
        entry_price: Binary64,
        exit_price: Binary64,
        shares: Binary64,
        gross_pnl: Binary64,
        entry_fee: Binary64,
        exit_fee: Binary64,
        net_pnl: Binary64,
        context: Option<AuditBookContext>,
    },
    ExecutionRejected {
        signal_ts_ms: u64,
        side: &'static str,
        reason: &'static str,
        context: Option<AuditBookContext>,
    },
    ShadowExitResult { record: Box<ShadowExitRecord> },
}

/// The event of a simulated exit.
pub open spec fn dry_run_exit(
    position_id: u64,
    side: &'static str,
    closed: ClosedPosition,
    exit_reason: &'static str,
    held_ms: u64,
    exit_momentum_usd: Option<Binary64>,
    closed_at_ms: u64,
) -> AuditEvent {
    AuditEvent::DryRunExit {
        position_id,
        closed_at_ms,
        side,
        exit_reason,
        held_ms,
        exit_momentum_usd,
        entry_price: closed.entry_price,
        exit_price: closed.exit_price,
        shares: closed.shares,
        gross_pnl: closed.gross_pnl,
        entry_fee: closed.entry_fee,
        exit_fee: closed.exit_fee,
        net_pnl: closed.net_pnl,
    }
}

impl AuditEvent {
    pub fn signal(signal: OrderSignal, context: Option<AuditBookContext>) -> (r: Self)
        ensures
            r == (AuditEvent::SignalAccepted {
                signal_ts_ms: signal.signal_ts_ms,
                side: signal.side.label(),
                momentum_usd: signal.momentum_usd,
                binance_price: signal.binance_price,
                context,
            }),
    {
        AuditEvent::SignalAccepted {
            signal_ts_ms: signal.signal_ts_ms,
            side: signal.side.as_str(),
            momentum_usd: signal.momentum_usd,
            binance_price: signal.binance_price,
            context,
        }
    }

    /// The event of a simulated exit, closed at a moment.
    pub fn exit_at(
        position_id: u64,
        side: &'static str,
        closed: ClosedPosition,
        exit_reason: &'static str,
        held_ms: u64,
        exit_momentum_usd: Option<Binary64>,
        closed_at_ms: u64,
    ) -> (r: Self)
        ensures
            r == dry_run_exit(
                position_id,
                side,
                closed,
                exit_reason,
                held_ms,
                exit_momentum_usd,
                closed_at_ms,
            ),
    {
        AuditEvent::DryRunExit {
            position_id,
            closed_at_ms,
            side,
            exit_reason,
            held_ms,
            exit_momentum_usd,
            entry_price: closed.entry_price,
            exit_price: closed.exit_price,
            shares: closed.shares,
            gross_pnl: closed.gross_pnl,
            entry_fee: closed.entry_fee,
            exit_fee: closed.exit_fee,
            net_pnl: closed.net_pnl,
        }
    }

    /// The event of a simulated exit, closed now.
    pub fn exit(
        position_id: u64,
        side: &'static str,
        closed: ClosedPosition,
        exit_reason: &'static str,
        held_ms: u64,
        exit_momentum_usd: Option<Binary64>,
    ) -> (r: Self)
        ensures
            exists|closed_at_ms: u64|
                r == #[trigger] dry_run_exit(
                    position_id,
                    side,
                    closed,
                    exit_reason,
                    held_ms,
                    exit_momentum_usd,
                    closed_at_ms,
                ),
    {
        let now: u64 = now_ms();
        Self::exit_at(position_id, side, closed, exit_reason, held_ms, exit_momentum_usd, now)
    }
}

/// The name of a run of the engine.
pub fn engine_session_id(now: u64, process_id: u32) -> (r: String)
    ensures
        r@ == "engine-"@ + decimal(now as nat) + "-"@ + decimal(process_id as nat),
{
    join(
        join(join("engine-", decimal_text(now).as_str()).as_str(), "-").as_str(),
        decimal_text(process_id as u64).as_str(),
    )
}

/// Puts an event in its envelope.
pub fn envelope(
    event: AuditEvent,
    session_id: &String,
    execution_mode: &'static str,
    emitted_at_ms: u64,
    config_version: Option<String>,
) -> (r: AuditEnvelope)
    ensures
        r == (AuditEnvelope {
            schema_version: 1,
            source: "polygo-engine",
            session_id: *session_id,
            execution_mode,
            emitted_at_ms,
            config_version,
            event,
        }),
{
    AuditEnvelope {
        schema_version: 1,
        source: "polygo-engine",
        session_id: session_id.clone(),
        execution_mode,
        emitted_at_ms,
        config_version,
        event,
    }
}

/// What becomes of an event that the audit queue takes or does not take: an engine whose events
/// are lost is faulted.
pub fn emitted(accepted: bool, health: &mut HealthState) -> (r: bool)
    ensures
        r == accepted,
        *final(health) == if accepted {
            *old(health)
        } else {
            old(health).tripped(1)
        },
{
    if !accepted {
        health.trip(1);
    }
    accepted
}

/// What becomes of an event on its way to the log: one that could not be put into bytes, or that
/// the log's queue does not take, faults the engine.
pub fn dispatched(serialized: bool, logged: bool, health: &mut HealthState)
    ensures
        *final(health) == if serialized && logged {
            *old(health)
        } else {
            old(health).tripped(1)
        },
{
    if !serialized || !logged {
        health.trip(1);
    }
}

/// An engine that lost an event of its audit trail is unfit until its process is restarted.
pub proof fn law_lost_event_faults(h: HealthState)
    ensures
        h.tripped(1).may_start() is Err,
        !h.tripped(1).stopped().accepting(),
{
}

} // verus!
