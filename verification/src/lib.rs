//! Decision logic of a stock-signal pipeline: price validation and the
//! rolling indicator window (silver layer), moving-average crossover signals
//! with RSI confirmation (gold layer), and the request-building and
//! reply-interpreting rules of the brokerage, warehouse and message-bus
//! clients that sit around them.
#![allow(unused_imports)]

pub mod text;
pub mod bronze;
pub mod silver;
pub mod gold;
pub mod trino;
pub mod alpaca;
pub mod commands;
pub mod kafka;
pub mod pipeline;
pub mod laws;
