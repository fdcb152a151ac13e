//! Swap quoting and liquidity location for a concentrated-liquidity pool.
//!
//! The library locates the initialized tick arrays around a pool's current
//! price, computes token transfer fees and their gross-up, and turns the
//! result of the curve computation into a quote.

pub mod types;
pub mod fee;
pub mod bitmap;
pub mod neighborhood;
pub mod address;
pub mod accounts;
pub mod pool;
pub mod quote;
pub mod instruction;
