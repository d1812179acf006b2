use vstd::prelude::*;

verus! {

/// Every way an operation on a bonding curve can fail.
///
/// The caller receives the specific kind, so a client can tell
/// "try again with a different bound" (`SlippageExceeded`) from
/// "this market is closed" (`TokenGraduated`) from "this is a bug"
/// (`ArithmeticOverflow`, `InsufficientReserves`). An error always
/// leaves the curve state exactly as it was.
#[derive(Clone, Copy, Debug, PartialEq, Eq, Structural)]
pub enum BondingCurveError {
    /// A curve already exists for this token identity.
    AlreadyInitialized,
    /// A virtual reserve was given as zero; the pricing formula would
    /// be degenerate.
    InvalidParameters,
    /// The curve has graduated; trading through it has ended.
    TokenGraduated,
    /// The trade amount was zero.
    InvalidAmount,
    /// The computed output fell short of the caller's minimum.
    SlippageExceeded,
    /// A 64-bit counter or reserve sum would overflow.
    ArithmeticOverflow,
    /// The formula would drain more than the curve actually holds.
    InsufficientReserves,
}

} // verus!
