//! The data model shared by every part of the system.

pub mod action;
pub mod config;
pub mod error;
pub mod event;
pub mod instrument;
pub mod market_data;
pub mod order;
pub mod position;
