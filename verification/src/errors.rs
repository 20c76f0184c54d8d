//! The ways in which an operation on the pool is refused.

use vstd::prelude::*;

verus! {

/// Why an operation was refused. Every refusal leaves all balances as they were.
#[derive(Clone, Copy, Debug, PartialEq, Eq, Structural)]
pub enum AmmError {
    /// A swap was attempted while the pool is frozen.
    PoolLocked,
    /// A swap was asked to sell nothing.
    InvalidAmount,
    /// A withdrawal was asked to redeem nothing.
    ZeroBalance,
    /// A value does not fit the range of a balance.
    Overflow,
    /// A subtraction would go below zero, or a divisor is zero.
    Underflow,
    /// The computed amount is below the floor the caller set.
    SlippageExceeded,
    /// More was asked of a balance than it holds.
    InsufficientBalance,
}

} // verus!
