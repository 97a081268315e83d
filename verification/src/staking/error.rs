//! Why a staking operation was refused.

use vstd::prelude::*;
use crate::math::MathError;

verus! {

/// Every failure ends the operation and leaves the store as it was.
#[derive(Clone, Copy, Debug, PartialEq, Eq, Structural)]
pub enum ContractError {
    /// A division had a zero divisor.
    DivideByZero,
    /// An amount, a ratio or a counter left its range.
    OverflowError,
    /// The caller is not the owner.
    Unauthorized,
    /// The token that reported the transfer is not the staking asset.
    UnacceptableToken,
    InvalidZeroAmount,
    /// A parameter is malformed: a zero amount where one must be
    /// positive, a lock duration outside the bounds, more than is staked, a
    /// payload that names no action.
    InvalidInput,
    /// The referrer is missing or is the staker.
    InvalidReferralAddr,
    /// The caller's balance does not cover the amount.
    Insufficient,
    /// Nothing has accrued that could be paid out.
    NotEnoughReward,
    NotRewardToken,
    AssetMismatch,
    TooSmallOfferAmount,
    /// The position's lock, or the referral lock, has not passed yet.
    StillInLock,
    NotUnstakeToken,
    /// The pool is switched off.
    Disabled,
}

/// The contract error that stands for an arithmetic failure.
pub open spec fn spec_from_math(e: MathError) -> ContractError {
    match e {
        MathError::Overflow => ContractError::OverflowError,
        MathError::DivideByZero => ContractError::DivideByZero,
    }
}

impl ContractError {
    /// Reports an arithmetic failure as a contract error.
    pub fn from_math(e: MathError) -> (r: ContractError)
        ensures
            r == spec_from_math(e),
    {
        match e {
            MathError::Overflow => ContractError::OverflowError,
            MathError::DivideByZero => ContractError::DivideByZero,
        }
    }
}

} // verus!
