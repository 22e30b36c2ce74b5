//! Authority-controlled allow-list of publishers and global configuration.

use vstd::prelude::*;

use crate::errors::ErrorCode;

verus! {

/// An opaque identity handed in by the host runtime after it has verified the
/// caller's signature. The engine never inspects an identity: it only compares
/// identities for equality.
pub type AccountId = u64;

/// Maximum number of publishers the registry may hold.
pub const PUBLISHER_CAPACITY: usize = 10;

/// Freshness window, in seconds, that a new registry starts with.
pub const DEFAULT_FRESHNESS_WINDOW_S: i64 = 3600;

/// Singleton configuration record: the authority, the payout treasury, the
/// feed freshness window and the allow-list of publishers.
pub struct Registry {
    /// Identity with exclusive rights to mutate the registry and to drive
    /// market lifecycle transitions.
    pub authority: AccountId,
    /// Payout and fee destination; recorded, not enforced by the engine.
    pub treasury: AccountId,
    /// Maximum allowed `|now - ts|` for a feed update to be accepted.
    pub freshness_window_s: i64,
    /// Authorized publisher identities, without duplicates, at most
    /// [`PUBLISHER_CAPACITY`] of them.
    pub publishers: Vec<AccountId>,
}

impl Registry {
    /// Well-formedness: the publisher list is duplicate-free, within capacity,
    /// and the freshness window is non-negative.
    pub open spec fn wf(self) -> bool {
        &&& self.publishers@.len() <= PUBLISHER_CAPACITY
        &&& (forall|i: int, j: int|
            0 <= i < j < self.publishers@.len() ==> self.publishers@[i] != self.publishers@[j])
        &&& self.freshness_window_s >= 0
    }

    /// Whether `who` is an authorized publisher.
    pub open spec fn is_publisher(self, who: AccountId) -> bool {
        self.publishers@.contains(who)
    }
}

/// Creates the registry: the caller becomes its authority, the freshness
/// window starts at its default, and the publisher list starts empty.
///
/// Rejecting a second registry for the same deployment is the host's storage
/// concern; the engine itself only builds the record.
pub fn registry_init(authority: AccountId, treasury: AccountId) -> (r: Registry)
    ensures
        r.wf(),
        r.authority == authority,
        r.treasury == treasury,
        r.freshness_window_s == DEFAULT_FRESHNESS_WINDOW_S,
        r.publishers@.len() == 0,
{
    Registry {
        authority,
        treasury,
        freshness_window_s: DEFAULT_FRESHNESS_WINDOW_S,
        publishers: Vec::new(),
    }
}

/// Appends `publisher` to the allow-list. Succeeds exactly when the caller is
/// the authority, the publisher is not yet listed, and the list is below
/// capacity; any failure leaves the registry unchanged.
pub fn registry_add_publisher(
    registry: &mut Registry,
    caller: AccountId,
    publisher: AccountId,
) -> (r: Result<(), ErrorCode>)
    requires
        old(registry).wf(),
    ensures
        final(registry).wf(),
        r matches Ok(_) <==> (caller == old(registry).authority && !old(registry).is_publisher(
            publisher,
        ) && old(registry).publishers@.len() < PUBLISHER_CAPACITY),
        caller != old(registry).authority ==> r == Err::<(), ErrorCode>(ErrorCode::Unauthorized),
        caller == old(registry).authority && old(registry).is_publisher(publisher) ==> r == Err::<
            (),
            ErrorCode,
        >(ErrorCode::PublisherAlreadyExists),
        (caller == old(registry).authority && !old(registry).is_publisher(publisher)
            && old(registry).publishers@.len() >= PUBLISHER_CAPACITY) ==> r == Err::<
            (),
            ErrorCode,
        >(ErrorCode::RegistryFull),
        r matches Ok(_) ==> final(registry).publishers@ == old(registry).publishers@.push(
            publisher,
        ),
        r matches Err(_) ==> *final(registry) == *old(registry),
        final(registry).authority == old(registry).authority,
        final(registry).treasury == old(registry).treasury,
        final(registry).freshness_window_s == old(registry).freshness_window_s,
{
    if caller != registry.authority {
        return Err(ErrorCode::Unauthorized);
    }
    let mut i: usize = 0;
    while i < registry.publishers.len()
        invariant
            *registry == *old(registry),
            registry.wf(),
            caller == registry.authority,
            i <= registry.publishers.len(),
            forall|k: int| 0 <= k < i ==> registry.publishers@[k] != publisher,
        decreases registry.publishers.len() - i,
    {
        if registry.publishers[i] == publisher {
            return Err(ErrorCode::PublisherAlreadyExists);
        }
        i += 1;
    }
    if registry.publishers.len() >= PUBLISHER_CAPACITY {
        return Err(ErrorCode::RegistryFull);
    }
    registry.publishers.push(publisher);
    Ok(())
}

} // verus!
