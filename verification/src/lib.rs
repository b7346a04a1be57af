//! Core of a multi-venue trading system: market data and order types,
//! venue message normalisation, order tracking, simulated matching and the
//! routing and pricing rules, each with its contract.

pub mod types;
pub mod venues;
pub mod decimal;
pub mod text;
pub mod clock;
pub mod engine;
pub mod backtest;
pub mod cli;
pub mod fair_value;
