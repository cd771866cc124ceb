//! The side of an order, and the signal that asks for one.

use vstd::prelude::*;

use crate::binary64::Binary64;

verus! {

#[derive(Debug, Clone, Copy, PartialEq, Eq, Structural)]
pub enum OrderSide {
    BuyYes,
    BuyNo,
}

impl OrderSide {
    pub open spec fn label(self) -> &'static str {
        match self {
            OrderSide::BuyYes => "BUY_YES",
            OrderSide::BuyNo => "BUY_NO",
        }
    }

    pub fn as_str(self) -> (r: &'static str)
        ensures
            r == self.label(),
    {
        match self {
            OrderSide::BuyYes => "BUY_YES",
            OrderSide::BuyNo => "BUY_NO",
        }
    }
}

/// A decision to enter the market, carried out `execution_latency_ms` after it was taken.
#[derive(Debug, Clone, Copy, PartialEq, Eq, Structural)]
pub struct OrderSignal {
    pub side: OrderSide,
    pub momentum_usd: Binary64,
    pub signal_ts_ms: u64,
    pub binance_price: Binary64,
    pub execution_latency_ms: u64,
    pub config_generation: u64,
    pub hold_ms: u64,
}

impl OrderSignal {
    pub fn new(
        side: OrderSide,
        momentum_usd: Binary64,
        signal_ts_ms: u64,
        binance_price: Binary64,
        execution_latency_ms: u64,
        config_generation: u64,
        hold_ms: u64,
    ) -> (r: Self)
        ensures
            r == (OrderSignal {
                side,
                momentum_usd,
                signal_ts_ms,
                binance_price,
                execution_latency_ms,
                config_generation,
                hold_ms,
            }),
    {
        OrderSignal {
            side,
            momentum_usd,
            signal_ts_ms,
            binance_price,
            execution_latency_ms,
            config_generation,
            hold_ms,
        }
    }
}

/// Each side has the name that the audit trail knows it by.
pub proof fn law_side_names(side: OrderSide)
    ensures
        side.label() == if side == OrderSide::BuyNo {
            "BUY_NO"
        } else {
            "BUY_YES"
        },
{
}

} // verus!
