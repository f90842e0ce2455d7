use vstd::prelude::*;

verus! {

/// Failure taxonomy of the market core.
///
/// Every operation surfaces exactly one of these to the caller; nothing is
/// caught or retried internally, and a failed invocation leaves the state
/// exactly as it was.
#[derive(Clone, Copy, Debug, PartialEq, Eq, Structural)]
pub enum AmmError {
    /// A zero or otherwise malformed quantity was supplied by the caller.
    InvalidAmount,
    /// A reserve is empty, or an operation would fully drain one side.
    InsufficientLiquidity,
    /// The computed output is below the caller's declared minimum.
    InsufficientOutputAmount,
    /// A checked-arithmetic step would overflow; never wrapped or saturated.
    MathOverflow,
    /// An asset's registered callback program is not in the market's
    /// whitelist; surfaced before any funds move.
    HookNotWhitelisted,
    /// The transfer primitive rejected the movement.
    TransferFailed,
    /// An external callback rejected the movement.
    TransferNotAllowed,
    /// An admin operation was attempted by a non-authority caller.
    Unauthorized,
}

} // verus!
