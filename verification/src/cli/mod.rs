//! The command line: argument handling, market discovery and config
//! generation, and passive liquidation pricing.

pub mod args;
pub mod markets;
pub mod liquidate;
