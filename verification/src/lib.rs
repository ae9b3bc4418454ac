//! Automated trading assistant for a player-to-player marketplace.
//!
//! The crate has three layers that form a pipeline:
//! a local mirror of the remote item catalog with price statistics,
//! a store of owned items with weighted-average-cost accounting,
//! and the pricing loop that decides, per item, whether to create,
//! update, delete or skip a buy or sell order.

pub mod buy;
pub mod cache;
pub mod clock;
pub mod knapsack;
pub mod live;
pub mod orders;
pub mod sell;
pub mod stock;
pub mod types;
