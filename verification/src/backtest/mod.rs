//! Backtesting: simulated matching, the simulated connector's bookkeeping,
//! event replay order and the report's totals.

pub mod matching_engine;
pub mod sim_connector;
pub mod replay;
pub mod harness;
