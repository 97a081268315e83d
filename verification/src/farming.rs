//! The farming pool: rewards released on a linear schedule and shared among
//! stakers through a pool-wide reward index.

pub mod conservation;
pub mod contract;
pub mod error;
pub mod laws;
pub mod msg;
pub mod state;
