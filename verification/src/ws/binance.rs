//! Prices of the underlying asset.

use vstd::prelude::*;

use crate::binary64::Binary64;
use crate::health::HealthState;

verus! {

#[derive(Debug, Clone, Copy, PartialEq, Eq, Structural)]
pub struct PriceTick {
    pub price: Binary64,
    pub trade_time_ms: u64,
    pub received_at_ms: u64,
}

impl PriceTick {
    /// A price that counts as received when it was traded.
    pub fn new(price: Binary64, trade_time_ms: u64) -> (r: Self)
        ensures
            r == (PriceTick { price, trade_time_ms, received_at_ms: trade_time_ms }),
    {
        PriceTick { price, trade_time_ms, received_at_ms: trade_time_ms }
    }
}

/// The fields of a trade message: its time, and the number that its price text writes, where it
/// writes one.
#[derive(Debug, Clone, Copy, PartialEq, Eq, Structural)]
pub struct BinanceTick {
    pub trade_time_ms: u64,
    pub price: Option<Binary64>,
}

/// The tick that a trade message stands for; none where its price is not a number.
pub fn parse_message(message: BinanceTick) -> (r: Option<PriceTick>)
    ensures
        r == (match message.price {
            Some(price) => Some(
                (PriceTick {
                    price,
                    trade_time_ms: message.trade_time_ms,
                    received_at_ms: message.trade_time_ms,
                }),
            ),
            None => None::<PriceTick>,
        }),
{
    match message.price {
        Some(price) => Some(PriceTick::new(price, message.trade_time_ms)),
        None => None,
    }
}

/// Dates a tick by its arrival, and notes the arrival.
pub fn receive(tick: PriceTick, received_at_ms: u64, health: &mut HealthState) -> (r: PriceTick)
    ensures
        r == (PriceTick { received_at_ms, ..tick }),
        *final(health) == (HealthState { last_binance_ms: received_at_ms, ..*old(health) }),
{
    health.mark_binance(received_at_ms);
    PriceTick { received_at_ms, ..tick }
}

/// What becomes of a tick that the engine's queue takes or does not take: an engine that cannot
/// keep up is faulted.  The result says whether the stream goes on.
pub fn queued(accepted: bool, health: &mut HealthState) -> (r: bool)
    ensures
        r == accepted,
        *final(health) == if accepted {
            *old(health)
        } else {
            old(health).tripped(2)
        },
{
    if !accepted {
        health.trip(2);
    }
    accepted
}

} // verus!
