//! Venue-specific message normalisation, order tracking and feed state.

pub mod book_levels;
pub mod order_table;
pub mod polymarket;
pub mod level_sort;
pub mod predict_fun;
pub mod binance;
pub mod hyperliquid;
