//! Double-precision numbers carried as their bit pattern.
//!
//! Prices, sizes and amounts of money are IEEE 754 `binary64` values.  A value is held as the 64
//! bits that encode it, and every operation is integer code whose contract is the standard's own
//! sentence: the result is the representable number nearest to the exact result, ties going to
//! the even neighbour.

pub mod arith;
pub mod close;
pub mod exact;
pub mod integral;
pub mod model;
pub mod order;
pub mod rounding;

pub use model::Binary64;
