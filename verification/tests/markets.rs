use band4band::errors::ErrorCode;
use band4band::feed::{feed_init, feed_submit_update};
use band4band::market::{
    market_claim, market_init, market_lock, market_place_position, market_resolve, Market,
    MarketOutcome, MarketState,
};
use band4band::position::Position;
use band4band::registry::{registry_add_publisher, registry_init, Registry};
use band4band::settlement::compute_payout;

const AUTHORITY: u64 = 11;
const TREASURY: u64 = 22;
const PUBLISHER: u64 = 33;
const FEED_ID: u64 = 44;
const GAME: [u8; 32] = [9u8; 32];
const CLOSE: i64 = 100_000;

fn registry() -> Registry {
    let mut r = registry_init(AUTHORITY, TREASURY);
    registry_add_publisher(&mut r, AUTHORITY, PUBLISHER).unwrap();
    r
}

fn open_market() -> Market {
    market_init(GAME, 1, CLOSE, FEED_ID, TREASURY)
}

#[test]
fn market_init_state() {
    let m = open_market();
    assert_eq!(m.state, MarketState::Open);
    assert_eq!(m.outcome, MarketOutcome::Pending);
    assert_eq!(m.game_id, GAME);
    assert_eq!(m.market_kind, 1);
    assert_eq!(m.close_time, CLOSE);
    assert_eq!(m.settlement_feed, FEED_ID);
    assert_eq!(m.treasury, TREASURY);
    assert_eq!(m.total_home_stake, 0);
    assert_eq!(m.total_away_stake, 0);
}

#[test]
fn place_position_minimum_stake_boundary() {
    let mut m = open_market();
    let mut p = Position::new();
    assert_eq!(
        market_place_position(&mut m, &mut p, 1, 999_999, 0),
        Err(ErrorCode::InsufficientStake)
    );
    assert_eq!(p.stake_lamports, 0);
    assert_eq!(m.total_home_stake, 0);
    assert_eq!(market_place_position(&mut m, &mut p, 1, 1_000_000, 0), Ok(()));
    assert_eq!(p.side, 1);
    assert_eq!(p.stake_lamports, 1_000_000);
    assert_eq!(m.total_home_stake, 1_000_000);
    assert_eq!(m.total_away_stake, 0);
}

#[test]
fn place_position_close_time_boundary() {
    let mut m = open_market();
    let mut p = Position::new();
    assert_eq!(
        market_place_position(&mut m, &mut p, 1, 1_000_000, CLOSE),
        Err(ErrorCode::MarketClosed)
    );
    assert_eq!(p.stake_lamports, 0);
    assert_eq!(
        market_place_position(&mut m, &mut p, 1, 1_000_000, CLOSE - 1),
        Ok(())
    );
}

#[test]
fn place_position_rejects_invalid_side() {
    let mut m = open_market();
    let mut p = Position::new();
    assert_eq!(
        market_place_position(&mut m, &mut p, 3, 1_000_000, 0),
        Err(ErrorCode::InvalidSide)
    );
    assert_eq!(
        market_place_position(&mut m, &mut p, 0, 1_000_000, 0),
        Err(ErrorCode::InvalidSide)
    );
}

#[test]
fn place_position_rejects_side_switch() {
    let mut m = open_market();
    let mut p = Position::new();
    assert_eq!(market_place_position(&mut m, &mut p, 1, 1_000_000, 0), Ok(()));
    assert_eq!(
        market_place_position(&mut m, &mut p, 2, 1_000_000, 0),
        Err(ErrorCode::PositionSideMismatch)
    );
    assert_eq!(p.side, 1);
    assert_eq!(p.stake_lamports, 1_000_000);
    assert_eq!(m.total_away_stake, 0);
}

#[test]
fn place_position_extends_same_side() {
    let mut m = open_market();
    let mut p = Position::new();
    assert_eq!(market_place_position(&mut m, &mut p, 2, 1_000_000, 0), Ok(()));
    assert_eq!(market_place_position(&mut m, &mut p, 2, 2_500_000, 0), Ok(()));
    assert_eq!(p.stake_lamports, 3_500_000);
    assert_eq!(m.total_away_stake, 3_500_000);
    assert_eq!(m.total_home_stake, 0);
}

#[test]
fn place_position_rejects_non_open_market() {
    let r = registry();
    let mut m = open_market();
    market_lock(&mut m, &r, AUTHORITY).unwrap();
    let mut p = Position::new();
    assert_eq!(
        market_place_position(&mut m, &mut p, 1, 1_000_000, 0),
        Err(ErrorCode::MarketNotOpen)
    );
}

#[test]
fn lock_only_from_open_and_only_by_authority() {
    let r = registry();
    let mut m = open_market();
    assert_eq!(market_lock(&mut m, &r, PUBLISHER), Err(ErrorCode::Unauthorized));
    assert_eq!(m.state, MarketState::Open);
    assert_eq!(market_lock(&mut m, &r, AUTHORITY), Ok(()));
    assert_eq!(m.state, MarketState::Locked);
    assert_eq!(market_lock(&mut m, &r, AUTHORITY), Err(ErrorCode::MarketNotOpen));
    assert_eq!(m.state, MarketState::Locked);
}

#[test]
fn resolve_before_lock_fails_and_leaves_state() {
    let r = registry();
    let f = feed_init(*b"NFL_____", GAME);
    let mut m = open_market();
    assert_eq!(
        market_resolve(&mut m, &f, &r, AUTHORITY, 1, 0),
        Err(ErrorCode::MarketNotLocked)
    );
    assert_eq!(m.state, MarketState::Open);
    assert_eq!(m.outcome, MarketOutcome::Pending);
}

#[test]
fn resolve_rejects_invalid_outcome() {
    let r = registry();
    let f = feed_init(*b"NFL_____", GAME);
    let mut m = open_market();
    market_lock(&mut m, &r, AUTHORITY).unwrap();
    assert_eq!(
        market_resolve(&mut m, &f, &r, AUTHORITY, 0, 0),
        Err(ErrorCode::InvalidOutcome)
    );
    assert_eq!(m.state, MarketState::Locked);
}

#[test]
fn resolve_rejects_stale_oracle() {
    let r = registry();
    let mut f = feed_init(*b"NFL_____", GAME);
    feed_submit_update(&mut f, &r, PUBLISHER, [1u8; 32], [0u8; 64], 1_000, 1_000).unwrap();
    let mut m = open_market();
    market_lock(&mut m, &r, AUTHORITY).unwrap();
    // 7201 seconds after the latest update: one past the resolution budget.
    assert_eq!(
        market_resolve(&mut m, &f, &r, AUTHORITY, 1, 8_201),
        Err(ErrorCode::StaleOracleData)
    );
    assert_eq!(m.state, MarketState::Locked);
    // Exactly 7200 seconds after is still acceptable.
    assert_eq!(market_resolve(&mut m, &f, &r, AUTHORITY, 1, 8_200), Ok(()));
    assert_eq!(m.state, MarketState::Resolved);
    assert_eq!(m.outcome, MarketOutcome::Home);
}

#[test]
fn claim_before_resolve_fails() {
    let mut m = open_market();
    let mut p = Position::new();
    market_place_position(&mut m, &mut p, 1, 1_000_000, 0).unwrap();
    assert_eq!(market_claim(&m, &mut p), Err(ErrorCode::MarketNotResolved));
    assert!(!p.claimed);
}

#[test]
fn payout_example_three_hundred_seven_hundred() {
    let m = Market {
        state: MarketState::Resolved,
        outcome: MarketOutcome::Home,
        game_id: GAME,
        market_kind: 1,
        close_time: CLOSE,
        settlement_feed: FEED_ID,
        treasury: TREASURY,
        total_home_stake: 300,
        total_away_stake: 700,
    };
    let mut p = Position { side: 1, stake_lamports: 100, claimed: false };
    assert_eq!(market_claim(&m, &mut p), Ok(333));
    assert!(p.claimed);
}

#[test]
fn compute_payout_formula_and_zero_pool() {
    assert_eq!(compute_payout(100, 300, 700), 333);
    assert_eq!(compute_payout(0, 0, 700), 0);
    assert_eq!(compute_payout(1_000_000, 1_000_000, 2_000_000), 3_000_000);
}

#[test]
fn claim_exactly_once() {
    let r = registry();
    let mut f = feed_init(*b"NFL_____", GAME);
    feed_submit_update(&mut f, &r, PUBLISHER, [1u8; 32], [0u8; 64], 1_000, 1_000).unwrap();
    let mut m = open_market();
    let mut p = Position::new();
    market_place_position(&mut m, &mut p, 1, 5_000_000, 0).unwrap();
    market_lock(&mut m, &r, AUTHORITY).unwrap();
    market_resolve(&mut m, &f, &r, AUTHORITY, 1, 1_000).unwrap();
    assert_eq!(market_claim(&m, &mut p), Ok(5_000_000));
    assert_eq!(market_claim(&m, &mut p), Err(ErrorCode::AlreadyClaimed));
    assert_eq!(p.stake_lamports, 5_000_000);
}

#[test]
fn stake_totals_equal_sum_of_positions() {
    let mut m = open_market();
    let mut a = Position::new();
    let mut b = Position::new();
    let mut c = Position::new();
    market_place_position(&mut m, &mut a, 1, 1_000_000, 0).unwrap();
    market_place_position(&mut m, &mut b, 2, 2_000_000, 0).unwrap();
    market_place_position(&mut m, &mut c, 1, 3_000_000, 0).unwrap();
    market_place_position(&mut m, &mut a, 1, 1_500_000, 0).unwrap();
    let home_sum: u64 = [&a, &c]
        .iter()
        .map(|p| p.stake_lamports)
        .sum();
    let away_sum: u64 = b.stake_lamports;
    assert_eq!(m.total_home_stake, home_sum);
    assert_eq!(m.total_away_stake, away_sum);
    assert_eq!(m.total_home_stake + m.total_away_stake, 7_500_000);
}

#[test]
fn end_to_end_settlement() {
    let now: i64 = 50_000;
    let mut reg = registry_init(AUTHORITY, TREASURY);
    registry_add_publisher(&mut reg, AUTHORITY, PUBLISHER).unwrap();
    let mut f = feed_init(*b"NFL_____", GAME);
    assert_eq!(
        feed_submit_update(&mut f, &reg, PUBLISHER, [1u8; 32], [0u8; 64], now, now),
        Ok(())
    );
    let mut m = market_init(GAME, 1, now + 3_600, FEED_ID, TREASURY);
    let mut alice = Position::new();
    let mut bob = Position::new();
    assert_eq!(market_place_position(&mut m, &mut alice, 1, 1_000_000, now), Ok(()));
    assert_eq!(market_place_position(&mut m, &mut bob, 2, 2_000_000, now), Ok(()));
    assert_eq!(market_lock(&mut m, &reg, AUTHORITY), Ok(()));
    assert_eq!(
        feed_submit_update(&mut f, &reg, PUBLISHER, [2u8; 32], [0u8; 64], now + 100, now + 100),
        Ok(())
    );
    assert_eq!(market_resolve(&mut m, &f, &reg, AUTHORITY, 1, now + 200), Ok(()));
    assert_eq!(market_claim(&m, &mut alice), Ok(3_000_000));
    assert!(alice.claimed);
    assert_eq!(market_claim(&m, &mut bob), Err(ErrorCode::LosingPosition));
    assert!(!bob.claimed);
}
