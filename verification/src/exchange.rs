//! The clients of the exchanges.

pub mod base;
pub mod binance;
pub mod okx;
