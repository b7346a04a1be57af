//! The engine: instrument-keyed tables, nonces, risk gate, position tracking,
//! order dispatch and routing.

pub mod instrument_table;
pub mod nonce;
pub mod risk;
pub mod routing;
pub mod bus;
pub mod strategy_state;
