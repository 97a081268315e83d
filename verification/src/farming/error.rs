//! Why a farming operation was refused.

use vstd::prelude::*;
use crate::math::MathError;

verus! {

/// Every failure ends the operation and leaves the store as it was.
#[derive(Clone, Copy, Debug, PartialEq, Eq, Structural)]
pub enum ContractError {
    /// A division had a zero divisor.
    DivideByZero,
    /// An amount, an index or a counter left its range.
    OverflowError,
    /// The caller may not perform this action.
    Unauthorized,
    /// The token that reported the transfer is not the expected one.
    UnacceptableToken,
    /// A positive amount was required.
    InvalidZeroAmount,
    /// A parameter is malformed: an empty or self referral, an inverted
    /// schedule window, a payload that names no action.
    InvalidInput,
    /// More was asked for than the funds or the stake at hand.
    InsufficientFunds,
    /// Nothing has accrued that could be paid out.
    NotEnoughReward,
    AssetMismatch,
    TooSmallOfferAmount,
    /// The lock period has not passed yet.
    StillInLock,
    /// The pool is switched off.
    Disabled,
    /// The action has no implementation.
    Unimplemented,
}

/// The contract error that stands for an arithmetic failure.
pub open spec fn spec_from_math(e: MathError) -> ContractError {
    match e {
        MathError::Overflow => ContractError::OverflowError,
        MathError::DivideByZero => ContractError::DivideByZero,
    }
}

impl ContractError {
    /// Reports an arithmetic failure as a contract error.
    pub fn from_math(e: MathError) -> (r: ContractError)
        ensures
            r == spec_from_math(e),
    {
        match e {
            MathError::Overflow => ContractError::OverflowError,
            MathError::DivideByZero => ContractError::DivideByZero,
        }
    }
}

} // verus!
