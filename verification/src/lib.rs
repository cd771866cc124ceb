//! The rules of a trading engine for short-lived prediction markets: which
//! move of the underlying becomes a signal, when a signal may become an order,
//! how an order is followed to its end, and what is told of it.
//!
//! Apart from [`time::now_ms`], nothing here reads a clock, a file or a socket:
//! the surrounding program hands each rule what it saw and performs what the
//! rule asks for.

pub mod binary64;
pub mod config;
pub mod control;
pub mod emitter;
pub mod engine;
pub mod executor;
pub mod health;
pub mod http;
pub mod json;
pub mod market;
pub mod runtime_config;
pub mod shadow;
pub mod stats;
pub mod text;
pub mod time;
pub mod ws;
