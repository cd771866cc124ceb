//! The price and book streams.

pub mod binance;
pub mod polymarket;
