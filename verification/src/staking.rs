//! The staking pool: each position earns at a yearly ratio that grows
//! with the square of its lock duration, on the position's value in reward
//! units as an outside price source quotes it.

pub mod asset;
pub mod contract;
pub mod error;
pub mod laws;
pub mod msg;
pub mod state;
pub mod totals;
pub mod util;
