//! Live prices: the queue of trades, its batches, and what each trade writes.

pub mod config;
pub mod health;
pub mod price;
pub mod queue;
pub mod trade;
pub mod websocket;
