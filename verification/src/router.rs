//! The price router, as far as the pools know it.

pub mod state;
