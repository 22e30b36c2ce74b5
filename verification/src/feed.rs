//! Per-game oracle feed: publisher-gated, freshness-checked result updates
//! with a fixed-capacity ring buffer of recent history.

use vstd::prelude::*;

use crate::errors::ErrorCode;
use crate::registry::{AccountId, Registry};

verus! {

/// Number of history slots in a feed's ring buffer.
pub const RING_CAPACITY: usize = 16;

/// One accepted update as remembered by the ring buffer.
#[derive(Clone, Copy, Debug)]
pub struct FeedUpdate {
    /// Timestamp the publisher attached to the update.
    pub ts: i64,
    /// Hash of the published payload.
    pub hash: [u8; 32],
}

/// Authoritative result record for one `(league, game_id)` pair.
pub struct GameFeed {
    /// League tag, fixed at creation.
    pub league: [u8; 8],
    /// Game identifier, fixed at creation.
    pub game_id: [u8; 32],
    /// Payload hash of the most recent accepted update.
    pub latest_hash: [u8; 32],
    /// Timestamp of the most recent accepted update.
    pub latest_ts: i64,
    /// Content address of the most recent accepted update's payload.
    pub ipfs_cid: [u8; 64],
    /// Publisher that submitted the most recent accepted update.
    pub publisher: AccountId,
    /// The last (up to) [`RING_CAPACITY`] accepted updates; older entries are
    /// silently overwritten.
    pub ring: [FeedUpdate; 16],
    /// Next ring slot to write, wrapping modulo [`RING_CAPACITY`].
    pub ring_index: u8,
}

impl GameFeed {
    /// Well-formedness: the write cursor stays inside the ring.
    pub open spec fn wf(self) -> bool {
        self.ring_index < RING_CAPACITY
    }
}

/// `|a - b|` over the unbounded integers.
pub open spec fn abs_diff(a: int, b: int) -> int {
    if a >= b {
        a - b
    } else {
        b - a
    }
}

/// Whether a timestamp `ts` lies within `window` seconds of the current time
/// `now`, in either direction.
pub open spec fn is_fresh(now: int, ts: int, window: int) -> bool {
    abs_diff(now, ts) <= window
}

/// Computes [`is_fresh`] exactly, widening to 128 bits so that no difference
/// of two 64-bit times can overflow.
pub fn check_fresh(now: i64, ts: i64, window: i64) -> (b: bool)
    ensures
        b == is_fresh(now as int, ts as int, window as int),
{
    let n: i128 = now as i128;
    let t: i128 = ts as i128;
    let diff: i128 = if n >= t {
        n - t
    } else {
        t - n
    };
    diff <= window as i128
}

/// Creates a zeroed feed keyed by `(league, game_id)`. Rejecting a duplicate
/// key is the host's storage concern; the engine itself only builds the record.
pub fn feed_init(league: [u8; 8], game_id: [u8; 32]) -> (f: GameFeed)
    ensures
        f.wf(),
        f.league == league,
        f.game_id == game_id,
        f.latest_ts == 0,
        f.publisher == 0,
        f.ring_index == 0,
        forall|i: int| 0 <= i < 32 ==> f.latest_hash@[i] == 0,
        forall|i: int| 0 <= i < 64 ==> f.ipfs_cid@[i] == 0,
        forall|i: int| 0 <= i < 16 ==> (#[trigger] f.ring@[i]).ts == 0,
        forall|i: int, j: int|
            0 <= i < 16 && 0 <= j < 32 ==> (#[trigger] f.ring@[i].hash@[j]) == 0,
{
    GameFeed {
        league,
        game_id,
        latest_hash: [0u8; 32],
        latest_ts: 0,
        ipfs_cid: [0u8; 64],
        publisher: 0,
        ring: [FeedUpdate { ts: 0, hash: [0u8; 32] }; 16],
        ring_index: 0,
    }
}

/// Validates and applies one publisher update.
///
/// The update is accepted exactly when `caller` is on the registry's
/// allow-list and `ts` lies within the registry's freshness window of the
/// host-supplied current time `now`. On acceptance it overwrites the feed's
/// latest fields, writes `{ts, hash}` into the ring at the current cursor and
/// advances the cursor modulo the ring capacity; on rejection the feed is
/// left entirely unchanged.
pub fn feed_submit_update(
    feed: &mut GameFeed,
    registry: &Registry,
    caller: AccountId,
    payload_hash: [u8; 32],
    ipfs_cid: [u8; 64],
    ts: i64,
    now: i64,
) -> (r: Result<(), ErrorCode>)
    requires
        old(feed).wf(),
    ensures
        final(feed).wf(),
        r matches Ok(_) <==> (registry.is_publisher(caller) && is_fresh(
            now as int,
            ts as int,
            registry.freshness_window_s as int,
        )),
        !registry.is_publisher(caller) ==> r == Err::<(), ErrorCode>(
            ErrorCode::UnauthorizedPublisher,
        ),
        registry.is_publisher(caller) && !is_fresh(
            now as int,
            ts as int,
            registry.freshness_window_s as int,
        ) ==> r == Err::<(), ErrorCode>(ErrorCode::StaleData),
        r matches Err(_) ==> *final(feed) == *old(feed),
        r matches Ok(_) ==> {
            &&& final(feed).latest_hash == payload_hash
            &&& final(feed).latest_ts == ts
            &&& final(feed).ipfs_cid == ipfs_cid
            &&& final(feed).publisher == caller
            &&& final(feed).ring@ == old(feed).ring@.update(
                old(feed).ring_index as int,
                (FeedUpdate { ts, hash: payload_hash }),
            )
            &&& final(feed).ring_index == (old(feed).ring_index + 1) % 16
        },
        final(feed).league == old(feed).league,
        final(feed).game_id == old(feed).game_id,
{
    let mut authorized = false;
    let mut i: usize = 0;
    while i < registry.publishers.len()
        invariant
            i <= registry.publishers.len(),
            authorized == (exists|k: int| 0 <= k < i && registry.publishers@[k] == caller),
        decreases registry.publishers.len() - i,
    {
        if registry.publishers[i] == caller {
            authorized = true;
        }
        i += 1;
    }
    if !authorized {
        return Err(ErrorCode::UnauthorizedPublisher);
    }
    if !check_fresh(now, ts, registry.freshness_window_s) {
        return Err(ErrorCode::StaleData);
    }
    feed.latest_hash = payload_hash;
    feed.latest_ts = ts;
    feed.ipfs_cid = ipfs_cid;
    feed.publisher = caller;
    let slot: usize = feed.ring_index as usize;
    feed.ring[slot] = FeedUpdate { ts, hash: payload_hash };
    feed.ring_index = (feed.ring_index + 1) % 16;
    Ok(())
}

/// The ring contents after the updates in `accepted` have been applied, in
/// order, to a ring that started as `init` with its cursor at slot 0: update
/// number `j` (counting from 0) lands in slot `j % 16`, as one
/// [`feed_submit_update`] acceptance writes it.
pub open spec fn ring_after(init: Seq<FeedUpdate>, accepted: Seq<FeedUpdate>) -> Seq<FeedUpdate>
    decreases accepted.len(),
{
    if accepted.len() == 0 {
        init
    } else {
        ring_after(init, accepted.drop_last()).update(
            ((accepted.len() - 1) as int) % 16,
            accepted.last(),
        )
    }
}

/// Applying the ring recurrence never changes the ring's length.
pub proof fn lemma_ring_after_len(init: Seq<FeedUpdate>, accepted: Seq<FeedUpdate>)
    requires
        init.len() == 16,
    ensures
        ring_after(init, accepted).len() == 16,
    decreases accepted.len(),
{
    if accepted.len() > 0 {
        lemma_ring_after_len(init, accepted.drop_last());
    }
}

/// One more accepted update rewrites exactly the slot the cursor points at:
/// the recurrence agrees, step by step, with what [`feed_submit_update`]'s
/// contract says a single acceptance does to the ring.
pub proof fn lemma_ring_after_step(init: Seq<FeedUpdate>, accepted: Seq<FeedUpdate>, u: FeedUpdate)
    ensures
        ring_after(init, accepted.push(u)) == ring_after(init, accepted).update(
            (accepted.len() as int) % 16,
            u,
        ),
{
    assert(accepted.push(u).drop_last() =~= accepted);
    assert(accepted.push(u).last() == u);
}

/// A slot keeps the update written into it as long as no later update maps to
/// the same slot.
proof fn lemma_ring_slot_survives(init: Seq<FeedUpdate>, accepted: Seq<FeedUpdate>, j: int)
    requires
        init.len() == 16,
        0 <= j < accepted.len(),
        forall|j2: int| j < j2 < accepted.len() ==> (#[trigger] (j2 % 16)) != j % 16,
    ensures
        ring_after(init, accepted)[j % 16] == accepted[j],
    decreases accepted.len(),
{
    lemma_ring_after_len(init, accepted.drop_last());
    if j == accepted.len() - 1 {
    } else {
        assert(((accepted.len() - 1) as int) % 16 != j % 16);
        lemma_ring_slot_survives(init, accepted.drop_last(), j);
    }
}

/// Law: after `k >= 16` accepted updates the ring holds exactly the last 16
/// of them in insertion order, the `i`-th of those at slot `(k - 16 + i) % 16`.
pub proof fn lemma_ring_holds_last_sixteen(
    init: Seq<FeedUpdate>,
    accepted: Seq<FeedUpdate>,
    i: int,
)
    requires
        init.len() == 16,
        accepted.len() >= 16,
        0 <= i < 16,
    ensures
        ring_after(init, accepted)[(accepted.len() - 16 + i) % 16] == accepted[accepted.len() - 16
            + i],
{
    let j = accepted.len() - 16 + i;
    assert forall|j2: int| j < j2 < accepted.len() implies (#[trigger] (j2 % 16)) != j % 16 by {
        lemma_mod_16_distinct(j, j2);
    }
    lemma_ring_slot_survives(init, accepted, j);
}

/// Two indices less than 16 apart land in different slots.
proof fn lemma_mod_16_distinct(a: int, b: int)
    requires
        0 <= a < b < a + 16,
    ensures
        b % 16 != a % 16,
{
    let d = b - a;
    assert((a + d) % 16 == (a % 16 + d) % 16) by {
        vstd::arithmetic::div_mod::lemma_mod_add_multiples_vanish(a % 16 + d, 16);
        vstd::arithmetic::div_mod::lemma_fundamental_div_mod(a, 16);
        vstd::arithmetic::div_mod::lemma_add_mod_noop(a, d, 16);
        vstd::arithmetic::div_mod::lemma_mod_twice(d, 16);
    }
    if a % 16 + d < 16 {
        vstd::arithmetic::div_mod::lemma_small_mod((a % 16 + d) as nat, 16);
    } else {
        assert((a % 16 + d) % 16 == a % 16 + d - 16) by {
            vstd::arithmetic::div_mod::lemma_mod_sub_multiples_vanish(a % 16 + d, 16);
            vstd::arithmetic::div_mod::lemma_small_mod((a % 16 + d - 16) as nat, 16);
        }
    }
}

} // verus!
