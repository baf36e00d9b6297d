//! The mathematical model of the client registry, and the laws that hold
//! of it.
//!
//! Every identifier of the configured range is either free or bound. A
//! bound identifier is either claimed without metadata yet, or live: it has
//! metadata and the clock reading of its last refresh.

use vstd::prelude::*;
use crate::address::{ClientId, ClientMetadata};
use crate::expiry::overdue_ids;

verus! {

/// What a registry is, as a value.
#[verifier::ext_equal]
pub struct Registry {
    /// The first identifier of the configured range.
    pub start: ClientId,
    /// The end of the configured range; it is not itself part of the range.
    pub end: ClientId,
    /// The free identifiers.
    pub free: Set<ClientId>,
    /// The metadata of the live identifiers.
    pub bindings: Map<ClientId, ClientMetadata>,
    /// The clock reading, in seconds, of each live identifier's last refresh.
    pub stamps: Map<ClientId, i64>,
    /// How many seconds a binding lives without a refresh.
    pub lifetime: u32,
}

/// One change of a registry. `Bind` and `Refresh` carry the clock reading
/// that the change takes, `Prune` the reading at which it sweeps.
pub enum Change {
    /// Claim the identifier, if it is free.
    Reserve(ClientId),
    /// Bind the lowest free identifier to the metadata, if there is one.
    Bind(ClientMetadata, i64),
    /// Renew the identifier's binding, if the metadata is accepted for it.
    Refresh(ClientId, ClientMetadata, i64),
    /// Unbind the identifier.
    Remove(ClientId),
    /// Unbind every identifier whose binding is overdue.
    Prune(i64),
}

impl Registry {
    /// The registry a range and a lifetime start with: every identifier free.
    pub open spec fn initial(start: ClientId, end: ClientId, lifetime: u32) -> Registry {
        Registry {
            start,
            end,
            free: Set::new(|id: ClientId| start <= id < end),
            bindings: Map::empty(),
            stamps: Map::empty(),
            lifetime,
        }
    }

    /// The identifier belongs to the configured range.
    pub open spec fn in_range(self, id: ClientId) -> bool {
        self.start <= id < self.end
    }

    /// The configured range, as a set.
    pub open spec fn all_ids(self) -> Set<ClientId> {
        Set::new(|id: ClientId| self.in_range(id))
    }

    /// The bound identifiers: those of the range that are not free.
    pub open spec fn bound_ids(self) -> Set<ClientId> {
        Set::new(|id: ClientId| self.in_range(id) && !self.free.contains(id))
    }

    /// The identifier has metadata.
    pub open spec fn is_live(self, id: ClientId) -> bool {
        self.bindings.contains_key(id)
    }

    /// The invariant: only identifiers of the range are free, only bound
    /// ones are live, and exactly the live ones have a clock reading.
    pub open spec fn wf(self) -> bool {
        &&& forall|id: ClientId| #[trigger] self.free.contains(id) ==> self.in_range(id)
        &&& forall|id: ClientId| #[trigger]
            self.bindings.contains_key(id) ==> self.in_range(id) && !self.free.contains(id)
        &&& self.stamps.dom() == self.bindings.dom()
    }

    /// `id` is free and no free identifier is lower.
    pub open spec fn is_lowest_free(self, id: ClientId) -> bool {
        &&& self.free.contains(id)
        &&& forall|other: ClientId| self.free.contains(other) ==> id <= other
    }

    /// No identifier is free.
    pub open spec fn is_full(self) -> bool {
        forall|id: ClientId| !self.free.contains(id)
    }

    /// The identifier is live and its metadata is exactly `meta`.
    pub open spec fn matches(self, id: ClientId, meta: ClientMetadata) -> bool {
        self.is_live(id) && self.bindings[id] == meta
    }

    /// A refresh of `id` with `meta` is accepted: the identifier is bound,
    /// and it is either live with exactly this metadata or has none yet.
    pub open spec fn accepts(self, id: ClientId, meta: ClientMetadata) -> bool {
        self.bound_ids().contains(id) && (self.is_live(id) ==> self.bindings[id] == meta)
    }

    /// The registry after `id` is claimed.
    pub open spec fn reserved(self, id: ClientId) -> Registry {
        Registry { free: self.free.remove(id), ..self }
    }

    /// The registry after `id` is made live with `meta` at clock reading `stamp`.
    pub open spec fn bound(self, id: ClientId, meta: ClientMetadata, stamp: i64) -> Registry {
        Registry {
            free: self.free.remove(id),
            bindings: self.bindings.insert(id, meta),
            stamps: self.stamps.insert(id, stamp),
            ..self
        }
    }

    /// The registry after `id` is unbound. An identifier outside the range
    /// has nothing to unbind and does not enter the pool.
    pub open spec fn removed(self, id: ClientId) -> Registry {
        if self.in_range(id) {
            Registry {
                free: self.free.insert(id),
                bindings: self.bindings.remove(id),
                stamps: self.stamps.remove(id),
                ..self
            }
        } else {
            self
        }
    }

    /// The identifiers whose bindings are overdue at clock reading `now`.
    pub open spec fn expired(self, now: i64) -> Set<ClientId> {
        overdue_ids(self.stamps, self.lifetime, now)
    }

    /// The registry after a sweep at clock reading `now`.
    pub open spec fn pruned(self, now: i64) -> Registry {
        Registry {
            free: self.free.union(self.expired(now)),
            bindings: self.bindings.remove_keys(self.expired(now)),
            stamps: self.stamps.remove_keys(self.expired(now)),
            ..self
        }
    }

    /// The registry after one change.
    pub open spec fn step(self, change: Change) -> Registry {
        match change {
            Change::Reserve(id) => if self.free.contains(id) {
                self.reserved(id)
            } else {
                self
            },
            Change::Bind(meta, stamp) => if self.is_full() {
                self
            } else {
                self.bound(choose|id: ClientId| self.is_lowest_free(id), meta, stamp)
            },
            Change::Refresh(id, meta, stamp) => if self.accepts(id, meta) {
                self.bound(id, meta, stamp)
            } else {
                self
            },
            Change::Remove(id) => self.removed(id),
            Change::Prune(now) => self.pruned(now),
        }
    }

    /// The registry after a sequence of changes, first to last.
    pub open spec fn run(self, changes: Seq<Change>) -> Registry
        decreases changes.len(),
    {
        if changes.len() == 0 {
            self
        } else {
            self.run(changes.drop_last()).step(changes.last())
        }
    }
}

/// Where identifiers are free, one of them is the lowest.
pub proof fn lemma_lowest_free_exists(r: Registry)
    requires
        !r.is_full(),
    ensures
        exists|id: ClientId| r.is_lowest_free(id),
{
    let some = choose|id: ClientId| r.free.contains(id);
    lemma_lowest_below(r, some);
}

/// Where an identifier is free, the lowest free one is at or below it.
proof fn lemma_lowest_below(r: Registry, id: ClientId)
    requires
        r.free.contains(id),
    ensures
        exists|low: ClientId| r.is_lowest_free(low) && low <= id,
    decreases id,
{
    if exists|other: ClientId| r.free.contains(other) && other < id {
        let other = choose|other: ClientId| r.free.contains(other) && other < id;
        lemma_lowest_below(r, other);
    } else {
        assert(r.is_lowest_free(id));
    }
}

/// The lowest free identifier is unique.
pub proof fn lemma_lowest_free_unique(r: Registry, a: ClientId, b: ClientId)
    requires
        r.is_lowest_free(a),
        r.is_lowest_free(b),
    ensures
        a == b,
{
}

/// In a well-formed registry the free and the bound identifiers are
/// disjoint, and together they are exactly the configured range.
pub proof fn lemma_partition(r: Registry)
    requires
        r.wf(),
    ensures
        r.free.disjoint(r.bound_ids()),
        r.free.union(r.bound_ids()) == r.all_ids(),
        forall|id: ClientId| r.is_live(id) ==> !r.free.contains(id),
{
    assert(r.free.union(r.bound_ids()) =~= r.all_ids());
}

/// The initial registry is well formed.
pub proof fn lemma_initial_wf(start: ClientId, end: ClientId, lifetime: u32)
    ensures
        Registry::initial(start, end, lifetime).wf(),
        Registry::initial(start, end, lifetime).bound_ids() == Set::<ClientId>::empty(),
{
    let r = Registry::initial(start, end, lifetime);
    assert(r.stamps.dom() =~= r.bindings.dom());
    assert(r.bound_ids() =~= Set::<ClientId>::empty());
}

/// Every change keeps a registry well formed, and leaves its range and
/// lifetime as they were.
pub proof fn lemma_step_wf(r: Registry, change: Change)
    requires
        r.wf(),
    ensures
        r.step(change).wf(),
        r.step(change).start == r.start,
        r.step(change).end == r.end,
        r.step(change).lifetime == r.lifetime,
{
    let next = r.step(change);
    match change {
        Change::Reserve(id) => {},
        Change::Bind(meta, stamp) => {
            if !r.is_full() {
                lemma_lowest_free_exists(r);
                let id = choose|id: ClientId| r.is_lowest_free(id);
                assert(next.stamps.dom() =~= next.bindings.dom());
            }
        },
        Change::Refresh(id, meta, stamp) => {
            if r.accepts(id, meta) {
                assert(next.stamps.dom() =~= next.bindings.dom());
            }
        },
        Change::Remove(id) => {
            if r.in_range(id) {
                assert(next.stamps.dom() =~= next.bindings.dom());
            }
        },
        Change::Prune(now) => {
            assert(next.stamps.dom() =~= next.bindings.dom());
            assert forall|id: ClientId| #[trigger] next.free.contains(id) implies next.in_range(id) by {
                if !r.free.contains(id) {
                    assert(r.expired(now).contains(id));
                    assert(r.stamps.dom().contains(id));
                    assert(r.bindings.contains_key(id));
                }
            }
            assert forall|id: ClientId| #[trigger] next.bindings.contains_key(id) implies next.in_range(id)
                && !next.free.contains(id) by {
                assert(r.bindings.contains_key(id));
                assert(!r.expired(now).contains(id));
            }
        },
    }
}

/// Whatever sequence of changes a registry goes through from its initial
/// state, after each of them the free and the bound identifiers are disjoint
/// and together are exactly the configured range.
pub proof fn lemma_partition_always(start: ClientId, end: ClientId, lifetime: u32, changes: Seq<Change>)
    ensures
        ({
            let r = Registry::initial(start, end, lifetime).run(changes);
            &&& r.wf()
            &&& r.start == start
            &&& r.end == end
            &&& r.free.disjoint(r.bound_ids())
            &&& r.free.union(r.bound_ids()) == r.all_ids()
        }),
    decreases changes.len(),
{
    let first = Registry::initial(start, end, lifetime);
    if changes.len() == 0 {
        lemma_initial_wf(start, end, lifetime);
    } else {
        lemma_partition_always(start, end, lifetime, changes.drop_last());
        lemma_step_wf(first.run(changes.drop_last()), changes.last());
    }
    lemma_partition(first.run(changes));
}

/// The change gives `id` back to the pool: it removes `id`, or it is a
/// sweep at which the binding of `id` is overdue.
pub open spec fn frees(r: Registry, change: Change, id: ClientId) -> bool {
    match change {
        Change::Remove(removed) => removed == id,
        Change::Prune(now) => r.expired(now).contains(id),
        _ => false,
    }
}

/// An identifier that is bound cannot be claimed again: it is not the
/// lowest free identifier and it is not free to reserve, and it stays bound
/// through every change that does not give it back to the pool.
pub proof fn lemma_no_double_binding(r: Registry, id: ClientId, change: Change)
    requires
        r.wf(),
        r.bound_ids().contains(id),
        !frees(r, change, id),
    ensures
        !r.is_lowest_free(id),
        !r.free.contains(id),
        r.step(Change::Reserve(id)) == r,
        r.step(change).bound_ids().contains(id),
{
    match change {
        Change::Bind(meta, stamp) => {
            if !r.is_full() {
                lemma_lowest_free_exists(r);
            }
        },
        _ => {},
    }
}

/// Binding the lowest free identifier claims it: right after, it is bound
/// and live with the metadata given.
pub proof fn lemma_bind_claims(r: Registry, id: ClientId, meta: ClientMetadata, stamp: i64)
    requires
        r.wf(),
        r.is_lowest_free(id),
    ensures
        r.step(Change::Bind(meta, stamp)) == r.bound(id, meta, stamp),
        r.bound(id, meta, stamp).bound_ids().contains(id),
        r.bound(id, meta, stamp).matches(id, meta),
        r.bound(id, meta, stamp).stamps[id] == stamp,
{
    let chosen = choose|low: ClientId| r.is_lowest_free(low);
    lemma_lowest_free_unique(r, id, chosen);
}

/// A refresh is refused whenever the identifier is not bound, and whenever
/// it is live with a token other than the one presented.
pub proof fn lemma_refresh_requires_match(r: Registry, id: ClientId, meta: ClientMetadata, stamp: i64)
    requires
        r.wf(),
        !r.bound_ids().contains(id) || (r.is_live(id) && r.bindings[id].0 != meta.0),
    ensures
        !r.accepts(id, meta),
        r.step(Change::Refresh(id, meta, stamp)) == r,
{
}

/// The change renews the binding of `id`: it is a refresh of `id` that is
/// accepted.
pub open spec fn renews(r: Registry, change: Change, id: ClientId) -> bool {
    match change {
        Change::Refresh(refreshed, meta, _) => refreshed == id && r.accepts(id, meta),
        _ => false,
    }
}

/// A live binding that a change neither renews nor gives back to the pool
/// is after the change what it was before: the same metadata, with the
/// clock reading of its last refresh.
pub proof fn lemma_binding_stays(r: Registry, id: ClientId, change: Change)
    requires
        r.wf(),
        r.is_live(id),
        !renews(r, change, id),
        !frees(r, change, id),
    ensures
        r.step(change).is_live(id),
        r.step(change).bindings[id] == r.bindings[id],
        r.step(change).stamps[id] == r.stamps[id],
{
    assert(r.stamps.dom().contains(id));
    match change {
        Change::Bind(meta, stamp) => {
            if !r.is_full() {
                lemma_lowest_free_exists(r);
            }
        },
        _ => {},
    }
}

/// A binding whose last refresh was at `r.stamps[id]` is gone after any
/// sweep at a clock reading at least one lifetime later: the identifier is
/// no longer live and is back in the pool.
pub proof fn lemma_expiry_reclaims(r: Registry, id: ClientId, now: i64)
    requires
        r.wf(),
        r.is_live(id),
        now >= r.stamps[id] + r.lifetime,
    ensures
        !r.pruned(now).is_live(id),
        r.pruned(now).free.contains(id),
        r.pruned(now).wf(),
{
    assert(r.stamps.dom().contains(id));
    assert(r.expired(now).contains(id));
    lemma_step_wf(r, Change::Prune(now));
}

/// A sweep before a binding's lifetime has passed leaves it as it is.
pub proof fn lemma_fresh_survives(r: Registry, id: ClientId, now: i64)
    requires
        r.wf(),
        r.is_live(id),
        now < r.stamps[id] + r.lifetime,
    ensures
        r.pruned(now).is_live(id),
        r.pruned(now).bindings[id] == r.bindings[id],
        !r.pruned(now).free.contains(id),
{
    assert(r.stamps.dom().contains(id));
    assert(!r.expired(now).contains(id));
    assert(!r.free.contains(id));
}

} // verus!
