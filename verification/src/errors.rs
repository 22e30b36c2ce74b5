//! The error taxonomy shared by every operation of the engine.

use vstd::prelude::*;

verus! {

/// Why an operation was rejected. Every failure leaves the records it was
/// handed unchanged; none is fatal beyond the single rejected call.
#[derive(Clone, Copy, Debug, PartialEq, Eq, Structural)]
pub enum ErrorCode {
    /// The caller is not the registry authority.
    Unauthorized,
    /// The publisher is already in the registry's allow-list.
    PublisherAlreadyExists,
    /// The registry's allow-list already holds its maximum of publishers.
    RegistryFull,
    /// The caller is not an authorized publisher.
    UnauthorizedPublisher,
    /// The update's timestamp lies outside the registry's freshness window.
    StaleData,
    /// The market is not in the `Open` state.
    MarketNotOpen,
    /// The market's close time has passed.
    MarketClosed,
    /// The side is neither home nor away.
    InvalidSide,
    /// The stake is below the minimum.
    InsufficientStake,
    /// The stake is on the other side than the caller's existing position.
    PositionSideMismatch,
    /// The market is not in the `Locked` state.
    MarketNotLocked,
    /// The outcome is neither home nor away.
    InvalidOutcome,
    /// The settlement feed's latest update is older than the resolution bound.
    StaleOracleData,
    /// The market is not in the `Resolved` state.
    MarketNotResolved,
    /// The position's payout was already claimed.
    AlreadyClaimed,
    /// The position is not on the winning side.
    LosingPosition,
}

} // verus!
