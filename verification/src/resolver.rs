//! The shared resolver facade, as this core sees it.
//!
//! The facade is created once at daemon startup and shared by reference
//! across every accepted connection.  Its lookup and authentication
//! operations are carried out by external collaborators — caches, a
//! hardware-backed key store, an identity-provider client — behind the
//! `FacadeCall` boundary; what this core owns is the facade's immutable
//! identity and the exclusive-lock discipline that makes sharing it safe.

use vstd::prelude::*;

verus! {

/// The identity of the shared resolver facade: the realm and tenant it
/// answers for.  Both are fixed at daemon startup for the life of the
/// process.  The caches, key-store handle and identity-provider client the
/// facade composes are external collaborators and are held by the
/// surrounding daemon, not here.
#[derive(Debug, PartialEq, Eq)]
pub struct Resolver {
    /// The realm this daemon serves.
    pub realm: Vec<u8>,
    /// The cloud tenant the identity provider answers for.
    pub tenant_id: Vec<u8>,
}

impl Resolver {
    /// The one facade of the process, built at startup.
    pub fn new(realm: Vec<u8>, tenant_id: Vec<u8>) -> (r: Resolver)
        ensures
            r.realm@ == realm@,
            r.tenant_id@ == tenant_id@,
    {
        Resolver { realm, tenant_id }
    }
}

/// Spec-level model of the one process-wide lock in front of the facade.
pub enum FacadeLockV {
    Free,
    HeldBy { conn: nat },
}

/// Whether a connection's operation may begin against the facade.
pub open spec fn lock_can_acquire(l: FacadeLockV) -> bool {
    l is Free
}

/// The lock once a connection's operation has begun.
pub open spec fn lock_acquire(l: FacadeLockV, c: nat) -> FacadeLockV
    recommends
        lock_can_acquire(l),
{
    FacadeLockV::HeldBy { conn: c }
}

/// The lock once the holder's operation has returned.
pub open spec fn lock_release(l: FacadeLockV) -> FacadeLockV {
    FacadeLockV::Free
}

/// Law: the facade lock is exclusive.  An operation begins only on the
/// free lock; while one connection holds it, no other connection's
/// operation can begin; and only after the holder's operation completes
/// is the lock free to be taken again.
pub proof fn lemma_facade_mutual_exclusion(l: FacadeLockV, c: nat, other: nat)
    requires
        lock_can_acquire(l),
    ensures
        lock_acquire(l, c) == (FacadeLockV::HeldBy { conn: c }),
        !lock_can_acquire(lock_acquire(l, c)),
        lock_can_acquire(lock_release(lock_acquire(l, c))),
{
}

/// One observable lock event at the facade: a connection's operation
/// begins, or the holder's operation completes.
pub enum LockEventV {
    Begin { conn: nat },
    End { conn: nat },
}

/// Whether an event can happen against the lock as it stands: an
/// operation begins only on the free lock, and only the holder's
/// operation completes.
pub open spec fn lock_event_enabled(l: FacadeLockV, e: LockEventV) -> bool {
    match e {
        LockEventV::Begin { conn: _ } => l is Free,
        LockEventV::End { conn } => l == (FacadeLockV::HeldBy { conn }),
    }
}

/// The lock after an event.
pub open spec fn lock_after_event(l: FacadeLockV, e: LockEventV) -> FacadeLockV {
    match e {
        LockEventV::Begin { conn } => FacadeLockV::HeldBy { conn },
        LockEventV::End { conn } => FacadeLockV::Free,
    }
}

/// Whether a sequence of lock events can happen from a starting lock
/// state: each event is enabled when its turn comes.
pub open spec fn lock_trace_valid(l: FacadeLockV, t: Seq<LockEventV>) -> bool
    decreases t.len(),
{
    t.len() == 0 || (lock_event_enabled(l, t[0]) && lock_trace_valid(
        lock_after_event(l, t[0]),
        t.drop_first(),
    ))
}

/// Law: facade operations serialize.  In every sequence of lock events
/// that can actually happen, the event after one connection's operation
/// begins is that same operation's completion: no other connection's
/// operation is observed to start, or to end, in between.
pub proof fn lemma_facade_operations_serialize(
    l0: FacadeLockV,
    t: Seq<LockEventV>,
    i: int,
    c: nat,
)
    requires
        lock_trace_valid(l0, t),
        0 <= i,
        i + 1 < t.len(),
        t[i] == (LockEventV::Begin { conn: c }),
    ensures
        t[i + 1] == (LockEventV::End { conn: c }),
    decreases i,
{
    if i == 0 {
        assert(lock_trace_valid(FacadeLockV::HeldBy { conn: c }, t.drop_first()));
        assert(lock_event_enabled(FacadeLockV::HeldBy { conn: c }, t.drop_first()[0]));
        assert(t.drop_first()[0] == t[1]);
    } else {
        lemma_facade_operations_serialize(lock_after_event(l0, t[0]), t.drop_first(), i - 1, c);
        assert(t.drop_first()[i - 1] == t[i]);
        assert(t.drop_first()[i] == t[i + 1]);
    }
}

} // verus!
