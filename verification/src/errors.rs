//! The error taxonomy of the settlement engine. Every operation aborts with
//! exactly one of these conditions and leaves no partial state change behind.

use vstd::prelude::*;

verus! {

/// Every way an operation on a market can fail.
///
/// State errors report a lifecycle violation, authorization errors a caller
/// that lacks the administrative capability, validation errors a malformed
/// input, `MathOverflow` an accumulator or payout computation that left the
/// representable range (including a division whose divisor would be zero),
/// and the entitlement errors an empty claim or fee balance.
#[derive(Clone, Copy, Debug, PartialEq, Eq, Structural)]
pub enum PredictionMarketError {
    MarketAlreadyStarted,
    MarketAlreadyResolved,
    MarketNotResolved,
    TooEarlyToResolve,
    MatchNotFinished,
    UnauthorizedResolver,
    UnauthorizedUpdater,
    UnauthorizedFeeCollector,
    InvalidVault,
    InvalidFeed,
    InvalidOracleValue,
    InvalidAmount,
    MathOverflow,
    NoWinningsToClaim,
    NoFeesToCollect,
}

} // verus!
