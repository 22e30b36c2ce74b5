//! A user's cumulative stake on one side of one market.

use vstd::prelude::*;

verus! {

/// Per-`(market, user)` stake record. It is purely data: every mutation goes
/// through the market operations.
#[derive(Clone, Copy, Debug, PartialEq, Eq, Structural)]
pub struct Position {
    /// Chosen side, home or away; meaningless while the stake is zero and
    /// immutable once a non-zero stake exists.
    pub side: u8,
    /// Cumulative amount staked by this user on this market.
    pub stake_lamports: u64,
    /// Whether the payout for this position has been claimed.
    pub claimed: bool,
}

impl Position {
    /// A fresh, empty position, as the host hands it to the first stake
    /// placement: no side chosen, nothing staked, nothing claimed.
    pub fn new() -> (p: Position)
        ensures
            p.side == 0,
            p.stake_lamports == 0,
            !p.claimed,
    {
        Position { side: 0, stake_lamports: 0, claimed: false }
    }
}

} // verus!
