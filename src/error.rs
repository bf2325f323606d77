use vstd::prelude::*;

verus! {

/// The kinds of failure of an engine operation. Every error aborts the whole
/// operation.
#[derive(Clone, Copy, Debug, PartialEq, Eq, Structural)]
pub enum EngineError {
    /// The caller is not the configured owner.
    Unauthorized,
    /// The engine is paused.
    Paused,
    /// The margin ratio of a new position is below the initial margin ratio.
    Undercollateralized,
    /// A liquidation was attempted on a position above the maintenance ratio.
    Overcollateralized,
    /// The action needs a non-zero position.
    ZeroPosition,
    /// The trader was liquidated on this curve in this block.
    RestrictedAction,
    /// The curve's output violates the caller's bound.
    SlippageExceeded,
    /// Overflow, underflow or division by zero.
    Arithmetic,
    /// A pending slot is occupied or empty when it must not be.
    InvalidState,
    /// The price curve is not registered with the insurance fund.
    UnknownCurve,
    /// Not enough free collateral for the request.
    InsufficientFunds,
    /// An amount that must be non-zero is zero.
    ZeroInput,
    /// Funding settlement was requested before the next funding time.
    FundingTooEarly,
    /// A ratio exceeds one, that is the decimal base.
    InvalidRatio,
}

} // verus!
