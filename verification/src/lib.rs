//! Reward accrual for staked positions: a linear-schedule pool index
//! (farming) and a lock-duration ratio curve (staking), each paired with a
//! referral bonus, written over a fixed-point arithmetic core.

pub mod book;
pub mod farming;
pub mod math;
pub mod order;
pub mod router;
pub mod staking;
