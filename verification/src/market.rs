//! Market lifecycle state machine, stake accounting and claims.

use vstd::prelude::*;

use crate::errors::ErrorCode;
use crate::feed::{is_fresh, check_fresh, GameFeed};
use crate::position::Position;
use crate::registry::{AccountId, Registry};
use crate::settlement::{compute_payout, payout_amount, lemma_stake_sum_update, sum_stakes};

verus! {

/// Wire encoding of the home side.
pub const SIDE_HOME: u8 = 1;

/// Wire encoding of the away side.
pub const SIDE_AWAY: u8 = 2;

/// Minimum accepted stake, in minor units.
pub const MIN_STAKE_LAMPORTS: u64 = 1_000_000;

/// Fixed staleness budget, in seconds, on the settlement feed's latest update
/// at resolution time. Independent of the registry's configurable freshness
/// window for submissions.
pub const RESOLUTION_STALENESS_S: i64 = 7200;

/// Lifecycle state of a market. `Void` is a reserved alternate terminal for
/// cancellation paths; no modeled operation enters it.
#[derive(Clone, Copy, Debug, PartialEq, Eq, Structural)]
pub enum MarketState {
    Open,
    Locked,
    Resolved,
    Void,
}

/// Fixed outcome of a market; meaningful only once the market is resolved.
#[derive(Clone, Copy, Debug, PartialEq, Eq, Structural)]
pub enum MarketOutcome {
    Pending,
    Home,
    Away,
}

/// Per-`(game, market_kind)` wager pool over a binary outcome.
pub struct Market {
    /// Lifecycle state.
    pub state: MarketState,
    /// Outcome fixed at resolution; `Pending` until then.
    pub outcome: MarketOutcome,
    /// Game identifier, fixed at creation.
    pub game_id: [u8; 32],
    /// Kind tag distinguishing several markets on one game.
    pub market_kind: u8,
    /// Stakes are accepted strictly before this time.
    pub close_time: i64,
    /// The oracle feed this market settles against.
    pub settlement_feed: AccountId,
    /// Payout and fee destination; recorded, not enforced by the engine.
    pub treasury: AccountId,
    /// Running sum of all accepted stakes on the home side.
    pub total_home_stake: u64,
    /// Running sum of all accepted stakes on the away side.
    pub total_away_stake: u64,
}

impl Market {
    /// Well-formedness: the outcome is fixed exactly when the market is
    /// resolved.
    pub open spec fn wf(self) -> bool {
        self.state is Resolved <==> !(self.outcome is Pending)
    }
}

/// Whether a position on side `side` wins under `outcome`.
pub open spec fn winning_side(outcome: MarketOutcome, side: u8) -> bool {
    ||| outcome is Home && side == SIDE_HOME
    ||| outcome is Away && side == SIDE_AWAY
}

/// Sum of both sides' stakes.
pub open spec fn total_pool(m: Market) -> int {
    m.total_home_stake + m.total_away_stake
}

/// The stake total of the side the outcome favours; the home side's total
/// only for a home outcome, otherwise the away side's.
pub open spec fn winning_pool(m: Market) -> int {
    if m.outcome is Home {
        m.total_home_stake as int
    } else {
        m.total_away_stake as int
    }
}

/// Validation of one stake placement, in the order the checks are made: the
/// first failed check names the error, and a placement is accepted exactly
/// when none fails.
pub open spec fn place_check(
    m: Market,
    p: Position,
    side: u8,
    stake_lamports: u64,
    now: int,
) -> Result<(), ErrorCode> {
    if !(m.state is Open) {
        Err(ErrorCode::MarketNotOpen)
    } else if now >= m.close_time {
        Err(ErrorCode::MarketClosed)
    } else if side != SIDE_HOME && side != SIDE_AWAY {
        Err(ErrorCode::InvalidSide)
    } else if stake_lamports < MIN_STAKE_LAMPORTS {
        Err(ErrorCode::InsufficientStake)
    } else if p.stake_lamports != 0 && p.side != side {
        Err(ErrorCode::PositionSideMismatch)
    } else {
        Ok(())
    }
}

/// Validation of a lock request.
pub open spec fn lock_check(m: Market, registry: Registry, caller: AccountId) -> Result<
    (),
    ErrorCode,
> {
    if caller != registry.authority {
        Err(ErrorCode::Unauthorized)
    } else if !(m.state is Open) {
        Err(ErrorCode::MarketNotOpen)
    } else {
        Ok(())
    }
}

/// Validation of a resolution request.
pub open spec fn resolve_check(
    m: Market,
    feed: GameFeed,
    registry: Registry,
    caller: AccountId,
    outcome: u8,
    now: int,
) -> Result<(), ErrorCode> {
    if caller != registry.authority {
        Err(ErrorCode::Unauthorized)
    } else if !(m.state is Locked) {
        Err(ErrorCode::MarketNotLocked)
    } else if outcome != SIDE_HOME && outcome != SIDE_AWAY {
        Err(ErrorCode::InvalidOutcome)
    } else if !is_fresh(now, feed.latest_ts as int, RESOLUTION_STALENESS_S as int) {
        Err(ErrorCode::StaleOracleData)
    } else {
        Ok(())
    }
}

/// Validation of a claim.
pub open spec fn claim_check(m: Market, p: Position) -> Result<(), ErrorCode> {
    if !(m.state is Resolved) {
        Err(ErrorCode::MarketNotResolved)
    } else if p.claimed {
        Err(ErrorCode::AlreadyClaimed)
    } else if !winning_side(m.outcome, p.side) {
        Err(ErrorCode::LosingPosition)
    } else {
        Ok(())
    }
}

/// Creates a market over the given feed: open, outcome pending, no stakes.
/// Rejecting a duplicate `(game_id, market_kind)` key is the host's storage
/// concern; the engine itself only builds the record.
pub fn market_init(
    game_id: [u8; 32],
    market_kind: u8,
    close_time: i64,
    settlement_feed: AccountId,
    treasury: AccountId,
) -> (m: Market)
    ensures
        m.wf(),
        m.state is Open,
        m.outcome is Pending,
        m.game_id == game_id,
        m.market_kind == market_kind,
        m.close_time == close_time,
        m.settlement_feed == settlement_feed,
        m.treasury == treasury,
        m.total_home_stake == 0,
        m.total_away_stake == 0,
{
    Market {
        state: MarketState::Open,
        outcome: MarketOutcome::Pending,
        game_id,
        market_kind,
        close_time,
        settlement_feed,
        treasury,
        total_home_stake: 0,
        total_away_stake: 0,
    }
}

/// Opens or extends the caller's position with `stake_lamports` on `side`.
///
/// Accepted exactly when the market is open, `now` is before the close time,
/// the side is valid, the stake meets the minimum, and any existing position
/// is on the same side. On acceptance the position's stake and the matching
/// side total grow by the same amount; on rejection both records are left
/// unchanged. The host moves the stake into the market's escrow atomically
/// with this mutation and must roll it back if its transfer fails.
pub fn market_place_position(
    market: &mut Market,
    position: &mut Position,
    side: u8,
    stake_lamports: u64,
    now: i64,
) -> (r: Result<(), ErrorCode>)
    requires
        old(market).wf(),
        place_check(*old(market), *old(position), side, stake_lamports, now as int) matches Ok(_)
            ==> old(position).stake_lamports + stake_lamports <= u64::MAX,
        place_check(*old(market), *old(position), side, stake_lamports, now as int) matches Ok(_)
            && side == SIDE_HOME ==> old(market).total_home_stake + stake_lamports <= u64::MAX,
        place_check(*old(market), *old(position), side, stake_lamports, now as int) matches Ok(_)
            && side == SIDE_AWAY ==> old(market).total_away_stake + stake_lamports <= u64::MAX,
    ensures
        final(market).wf(),
        r == place_check(*old(market), *old(position), side, stake_lamports, now as int),
        r matches Err(_) ==> *final(market) == *old(market) && *final(position) == *old(position),
        r matches Ok(_) ==> {
            &&& final(position).side == side
            &&& final(position).stake_lamports == old(position).stake_lamports + stake_lamports
            &&& !final(position).claimed
            &&& side == SIDE_HOME ==> final(market).total_home_stake == old(
                market,
            ).total_home_stake + stake_lamports && final(market).total_away_stake == old(
                market,
            ).total_away_stake
            &&& side == SIDE_AWAY ==> final(market).total_away_stake == old(
                market,
            ).total_away_stake + stake_lamports && final(market).total_home_stake == old(
                market,
            ).total_home_stake
        },
        final(market).state == old(market).state,
        final(market).outcome == old(market).outcome,
        final(market).game_id == old(market).game_id,
        final(market).market_kind == old(market).market_kind,
        final(market).close_time == old(market).close_time,
        final(market).settlement_feed == old(market).settlement_feed,
        final(market).treasury == old(market).treasury,
{
    if market.state != MarketState::Open {
        return Err(ErrorCode::MarketNotOpen);
    }
    if now >= market.close_time {
        return Err(ErrorCode::MarketClosed);
    }
    if side != SIDE_HOME && side != SIDE_AWAY {
        return Err(ErrorCode::InvalidSide);
    }
    if stake_lamports < MIN_STAKE_LAMPORTS {
        return Err(ErrorCode::InsufficientStake);
    }
    if position.stake_lamports == 0 {
        position.side = side;
        position.stake_lamports = stake_lamports;
    } else {
        if position.side != side {
            return Err(ErrorCode::PositionSideMismatch);
        }
        position.stake_lamports = position.stake_lamports + stake_lamports;
    }
    position.claimed = false;
    if side == SIDE_HOME {
        market.total_home_stake = market.total_home_stake + stake_lamports;
    } else {
        market.total_away_stake = market.total_away_stake + stake_lamports;
    }
    Ok(())
}

/// Transitions an open market to `Locked`. Only the registry authority may
/// lock, and only from `Open`; a rejected call leaves the market unchanged.
pub fn market_lock(market: &mut Market, registry: &Registry, caller: AccountId) -> (r: Result<
    (),
    ErrorCode,
>)
    requires
        old(market).wf(),
    ensures
        final(market).wf(),
        r == lock_check(*old(market), *registry, caller),
        r matches Err(_) ==> *final(market) == *old(market),
        r matches Ok(_) ==> *final(market) == (Market {
            state: MarketState::Locked,
            ..*old(market)
        }),
{
    if caller != registry.authority {
        return Err(ErrorCode::Unauthorized);
    }
    if market.state != MarketState::Open {
        return Err(ErrorCode::MarketNotOpen);
    }
    market.state = MarketState::Locked;
    Ok(())
}

/// Fixes the outcome of a locked market, provided the settlement feed's
/// latest update is within the fixed resolution staleness budget of `now`.
/// Only the registry authority may resolve, and only from `Locked`; a
/// rejected call leaves the market unchanged.
pub fn market_resolve(
    market: &mut Market,
    feed: &GameFeed,
    registry: &Registry,
    caller: AccountId,
    outcome: u8,
    now: i64,
) -> (r: Result<(), ErrorCode>)
    requires
        old(market).wf(),
    ensures
        final(market).wf(),
        r == resolve_check(*old(market), *feed, *registry, caller, outcome, now as int),
        r matches Err(_) ==> *final(market) == *old(market),
        r matches Ok(_) ==> *final(market) == (Market {
            state: MarketState::Resolved,
            outcome: if outcome == SIDE_HOME {
                MarketOutcome::Home
            } else {
                MarketOutcome::Away
            },
            ..*old(market)
        }),
{
    if caller != registry.authority {
        return Err(ErrorCode::Unauthorized);
    }
    if market.state != MarketState::Locked {
        return Err(ErrorCode::MarketNotLocked);
    }
    if outcome != SIDE_HOME && outcome != SIDE_AWAY {
        return Err(ErrorCode::InvalidOutcome);
    }
    if !check_fresh(now, feed.latest_ts, RESOLUTION_STALENESS_S) {
        return Err(ErrorCode::StaleOracleData);
    }
    market.state = MarketState::Resolved;
    market.outcome = if outcome == SIDE_HOME {
        MarketOutcome::Home
    } else {
        MarketOutcome::Away
    };
    Ok(())
}

/// Settles the caller's position: accepted exactly when the market is
/// resolved, the position is unclaimed and on the winning side. On acceptance
/// it returns the pari-mutuel payout the host must transfer out of the escrow
/// and marks the position claimed, so a second attempt fails; on rejection
/// the position is left unchanged.
pub fn market_claim(market: &Market, position: &mut Position) -> (r: Result<u64, ErrorCode>)
    requires
        market.wf(),
        claim_check(*market, *old(position)) matches Ok(_) ==> market.total_home_stake
            + market.total_away_stake <= u64::MAX,
        claim_check(*market, *old(position)) matches Ok(_) ==> old(position).stake_lamports
            <= winning_pool(*market),
    ensures
        r matches Ok(_) <==> claim_check(*market, *old(position)) matches Ok(_),
        r matches Err(e) ==> claim_check(*market, *old(position)) == Err::<(), ErrorCode>(e),
        r matches Err(_) ==> *final(position) == *old(position),
        r matches Ok(payout) ==> {
            &&& payout == payout_amount(
                old(position).stake_lamports as int,
                total_pool(*market),
                winning_pool(*market),
            )
            &&& *final(position) == (Position { claimed: true, ..*old(position) })
        },
{
    if market.state != MarketState::Resolved {
        return Err(ErrorCode::MarketNotResolved);
    }
    if position.claimed {
        return Err(ErrorCode::AlreadyClaimed);
    }
    let is_winner = match market.outcome {
        MarketOutcome::Home => position.side == SIDE_HOME,
        MarketOutcome::Away => position.side == SIDE_AWAY,
        MarketOutcome::Pending => false,
    };
    if !is_winner {
        return Err(ErrorCode::LosingPosition);
    }
    let payout: u64 = if market.outcome == MarketOutcome::Home {
        compute_payout(position.stake_lamports, market.total_home_stake, market.total_away_stake)
    } else {
        compute_payout(position.stake_lamports, market.total_away_stake, market.total_home_stake)
    };
    position.claimed = true;
    Ok(payout)
}

/// Law of lifecycle order: each transition is accepted only from its one
/// predecessor state — locking from `Open`, resolving from `Locked`, claiming
/// against `Resolved` — and a call made out of order is rejected with the
/// matching state error. Together with each operation's guarantee that a
/// rejected call changes nothing and an accepted one moves the state a single
/// step forward, a market can only ever follow open, locked, resolved.
pub proof fn lemma_lifecycle_order(
    m: Market,
    feed: GameFeed,
    registry: Registry,
    caller: AccountId,
    outcome: u8,
    now: int,
    p: Position,
)
    ensures
        lock_check(m, registry, caller) matches Ok(_) ==> m.state is Open,
        resolve_check(m, feed, registry, caller, outcome, now) matches Ok(_) ==> m.state is Locked,
        claim_check(m, p) matches Ok(_) ==> m.state is Resolved,
        caller == registry.authority && !(m.state is Open) ==> lock_check(m, registry, caller)
            == Err::<(), ErrorCode>(ErrorCode::MarketNotOpen),
        caller == registry.authority && !(m.state is Locked) ==> resolve_check(
            m,
            feed,
            registry,
            caller,
            outcome,
            now,
        ) == Err::<(), ErrorCode>(ErrorCode::MarketNotLocked),
        !(m.state is Resolved) ==> claim_check(m, p) == Err::<(), ErrorCode>(
            ErrorCode::MarketNotResolved,
        ),
        m.state is Resolved || m.state is Void ==> (lock_check(m, registry, caller) matches Err(_))
            && (resolve_check(m, feed, registry, caller, outcome, now) matches Err(_)),
{
}

/// Law of exactly-once claims: once a claim has been accepted, the position
/// it settled is marked claimed, and any further claim against it — on the
/// same, unchanged market — is rejected as already claimed.
pub proof fn lemma_claim_exactly_once(m: Market, before: Position, after: Position)
    requires
        claim_check(m, before) matches Ok(_),
        after == (Position { claimed: true, ..before }),
    ensures
        claim_check(m, after) == Err::<(), ErrorCode>(ErrorCode::AlreadyClaimed),
{
}

/// Law of stake conservation: when each side's total equals the sum of all
/// positions' stakes on that side, it still does after one accepted
/// placement, which — as [`market_place_position`]'s contract states — adds
/// the same amount to one position's stake and to the matching side total and
/// touches nothing else. Since markets start with zero totals and no
/// positions, and no other operation changes a stake or a total, the equality
/// holds at every point.
pub proof fn lemma_stake_conservation_preserved(
    before: Market,
    after: Market,
    home_stakes: Seq<int>,
    away_stakes: Seq<int>,
    i: int,
    stake: int,
    side: u8,
)
    requires
        before.total_home_stake == sum_stakes(home_stakes),
        before.total_away_stake == sum_stakes(away_stakes),
        side == SIDE_HOME ==> 0 <= i < home_stakes.len() && after.total_home_stake
            == before.total_home_stake + stake && after.total_away_stake
            == before.total_away_stake,
        side == SIDE_AWAY ==> 0 <= i < away_stakes.len() && after.total_away_stake
            == before.total_away_stake + stake && after.total_home_stake
            == before.total_home_stake,
        side == SIDE_HOME || side == SIDE_AWAY,
    ensures
        side == SIDE_HOME ==> after.total_home_stake == sum_stakes(
            home_stakes.update(i, home_stakes[i] + stake),
        ) && after.total_away_stake == sum_stakes(away_stakes),
        side == SIDE_AWAY ==> after.total_away_stake == sum_stakes(
            away_stakes.update(i, away_stakes[i] + stake),
        ) && after.total_home_stake == sum_stakes(home_stakes),
{
    if side == SIDE_HOME {
        lemma_stake_sum_update(home_stakes, i, stake);
    } else {
        lemma_stake_sum_update(away_stakes, i, stake);
    }
}

} // verus!
