//! The client registry: which identifiers are free, and which peer holds
//! each of the others.

use vstd::prelude::*;
use std::collections::HashSet;
use std::ops::Range;
use crate::address::{ClientId, ClientMetadata};
use crate::error::Error;
use crate::expiry::{
    entries_of, lifetime_of, overdue_ids, stamps_of, table_entries, table_insert, table_new, table_prune,
    table_remove, BindingTable,
};
use crate::registry::{lemma_initial_wf, lemma_lowest_free_unique, lemma_step_wf, Change, Registry};
use vstd::std_specs::hash::spec_hash_keys_iter;
use vstd::std_specs::iter::IteratorSpec;

verus! {

broadcast use vstd::std_specs::hash::group_hash_axioms;

/// The registry of a server. It owns the pool of free identifiers and the
/// expiring table of live bindings.
pub struct ClientStorage {
    start: ClientId,
    end: ClientId,
    id_set: HashSet<ClientId>,
    storage: BindingTable,
}

impl View for ClientStorage {
    type V = Registry;

    closed spec fn view(&self) -> Registry {
        Registry {
            start: self.start,
            end: self.end,
            free: self.id_set@,
            bindings: entries_of(self.storage),
            stamps: stamps_of(self.storage),
            lifetime: lifetime_of(self.storage),
        }
    }
}

impl ClientStorage {
    /// A registry over `id_range` in which every identifier is free and
    /// bindings live `lifetime` seconds.
    pub fn new(id_range: Range<ClientId>, lifetime: u32) -> (storage: Self)
        ensures
            storage@ == Registry::initial(id_range.start, id_range.end, lifetime),
            storage@.wf(),
    {
        let mut id_set: HashSet<ClientId> = HashSet::new();
        let start: ClientId = id_range.start;
        let end: ClientId = id_range.end;
        let mut id: ClientId = start;
        while id < end
            invariant
                start <= id,
                id <= end || id == start,
                id_set@ == Set::new(|other: ClientId| start <= other < id),
            decreases end - id,
        {
            id_set.insert(id);
            assert(id_set@ =~= Set::new(|other: ClientId| start <= other < id + 1));
            id = id + 1;
        }
        assert(id_set@ =~= Set::new(|other: ClientId| start <= other < end));
        let storage = table_new(lifetime);
        proof {
            lemma_initial_wf(start, end, lifetime);
        }
        ClientStorage { start, end, id_set, storage }
    }

    /// A snapshot of the free identifiers, each once, in no particular order.
    pub fn available_ids(&self) -> (ids: Vec<ClientId>)
        ensures
            ids@.to_set() == self@.free,
            ids@.no_duplicates(),
    {
        let mut ids: Vec<ClientId> = Vec::new();
        let ghost free = spec_hash_keys_iter(&self.id_set).remaining();
        for id in it: self.id_set.iter()
            invariant
                it.seq() == free,
                ids@ == free.unref().take(it.index()),
        {
            ids.push(*id);
            assert(ids@ =~= free.unref().take(it.index() + 1));
        }
        assert(ids@ =~= free.unref());
        assert(ids@.no_duplicates()) by {
            assert forall|i: int, j: int| 0 <= i < ids@.len() && 0 <= j < ids@.len() && i != j implies ids@[i]
                != ids@[j] by {
                assert(free[i] != free[j]);
            }
        }
        ids
    }

    /// Takes `id` out of the pool of free identifiers. It fails exactly when
    /// `id` is not free, and then changes nothing.
    pub fn reserve_id(&mut self, id: ClientId) -> (reserved: Result<ClientId, Error>)
        ensures
            old(self)@.wf() ==> final(self)@.wf(),
            old(self)@.free.contains(id) ==> reserved == Ok::<ClientId, Error>(id),
            !old(self)@.free.contains(id) ==> reserved == Err::<ClientId, Error>(Error::ReserveFailed),
            final(self)@ == old(self)@.step(Change::Reserve(id)),
    {
        proof {
            if old(self)@.wf() {
                lemma_step_wf(old(self)@, Change::Reserve(id));
            }
        }
        if !self.id_set.remove(&id) {
            assert(self.id_set@ =~= old(self).id_set@);
            return Err(Error::ReserveFailed);
        }
        Ok(id)
    }

    /// The lowest free identifier, if any identifier is free.
    fn next_id(&self) -> (next: Option<ClientId>)
        ensures
            match next {
                Some(id) => self@.is_lowest_free(id),
                None => self@.is_full(),
            },
    {
        let mut next: Option<ClientId> = None;
        let ghost free = spec_hash_keys_iter(&self.id_set).remaining();
        for id in it: self.id_set.iter()
            invariant
                it.seq() == free,
                match next {
                    Some(low) => {
                        &&& exists|i: int| 0 <= i < it.index() && *free[i] == low
                        &&& forall|i: int| 0 <= i < it.index() ==> low <= *#[trigger] free[i]
                    },
                    None => it.index() == 0,
                },
        {
            let lower = match next {
                Some(low) => *id < low,
                None => true,
            };
            if lower {
                next = Some(*id);
            }
        }
        proof {
            assert(free.unref().to_set() == self.id_set@);
            match next {
                Some(low) => {
                    let at = choose|i: int| 0 <= i < free.len() && *free[i] == low;
                    assert(free.unref()[at] == low);
                    assert(free.unref().to_set().contains(low));
                    assert forall|other: ClientId| self@.free.contains(other) implies low <= other by {
                        assert(free.unref().to_set().contains(other));
                        let k = choose|k: int| 0 <= k < free.unref().len() && free.unref()[k] == other;
                        assert(*free[k] == other);
                    }
                },
                None => {
                    assert forall|other: ClientId| !self@.free.contains(other) by {
                        if self@.free.contains(other) {
                            assert(free.unref().to_set().contains(other));
                        }
                    }
                },
            }
        }
        next
    }

    /// Binds the lowest free identifier to `meta`, starts its expiry clock
    /// and returns it. It fails exactly when no identifier is free, and then
    /// changes nothing.
    pub fn insert_client(&mut self, meta: &ClientMetadata) -> (bound: Result<ClientId, Error>)
        ensures
            old(self)@.wf() ==> final(self)@.wf(),
            match bound {
                Ok(id) => {
                    &&& old(self)@.is_lowest_free(id)
                    &&& final(self)@ == old(self)@.bound(id, *meta, final(self)@.stamps[id])
                },
                Err(e) => {
                    &&& e == Error::CapacityExceeded
                    &&& old(self)@.is_full()
                    &&& final(self)@ == old(self)@
                },
            },
            exists|stamp: i64| final(self)@ == #[trigger] old(self)@.step(Change::Bind(*meta, stamp)),
    {
        let id = match self.next_id() {
            Some(id) => id,
            None => {
                assert(self@ == old(self)@.step(Change::Bind(*meta, 0)));
                return Err(Error::CapacityExceeded);
            },
        };
        self.id_set.remove(&id);
        table_insert(&mut self.storage, id, *meta);
        proof {
            let stamp = self@.stamps[id];
            let change = Change::Bind(*meta, stamp);
            let chosen = choose|low: ClientId| old(self)@.is_lowest_free(low);
            lemma_lowest_free_unique(old(self)@, id, chosen);
            if old(self)@.wf() {
                lemma_step_wf(old(self)@, change);
            }
            assert(self@ =~= old(self)@.bound(id, *meta, stamp));
            assert(self@ == old(self)@.step(change));
        }
        Ok(id)
    }

    /// Renews the binding of `id` and restarts its expiry clock. The
    /// identifier must be bound; where it already has metadata, `meta` must
    /// be exactly that, and where it has none yet, `meta` becomes its
    /// metadata. Otherwise the call fails and changes nothing.
    pub fn refresh_client(&mut self, id: ClientId, meta: &ClientMetadata) -> (refreshed: Result<(), Error>)
        ensures
            old(self)@.wf() ==> final(self)@.wf(),
            old(self)@.accepts(id, *meta) ==> refreshed is Ok && final(self)@ == old(self)@.bound(
                id,
                *meta,
                final(self)@.stamps[id],
            ),
            !old(self)@.accepts(id, *meta) ==> refreshed == Err::<(), Error>(Error::UnknownClient)
                && final(self)@ == old(self)@,
            exists|stamp: i64| final(self)@ == #[trigger] old(self)@.step(Change::Refresh(id, *meta, stamp)),
    {
        if id < self.start || id >= self.end || self.id_set.contains(&id) {
            assert(self@ == old(self)@.step(Change::Refresh(id, *meta, 0)));
            return Err(Error::UnknownClient);
        }
        match table_entries(&self.storage).get(&id) {
            Some(stored) => {
                if !(stored.0 == meta.0 && stored.1 == meta.1) {
                    assert(self@ == old(self)@.step(Change::Refresh(id, *meta, 0)));
                    return Err(Error::UnknownClient);
                }
            },
            None => {},
        }
        table_insert(&mut self.storage, id, *meta);
        proof {
            let stamp = self@.stamps[id];
            if old(self)@.wf() {
                lemma_step_wf(old(self)@, Change::Refresh(id, *meta, stamp));
            }
            assert(self@ =~= old(self)@.bound(id, *meta, stamp));
            assert(self@ == old(self)@.step(Change::Refresh(id, *meta, stamp)));
        }
        Ok(())
    }

    /// The metadata of `id`, if it is live. The lookup leaves the expiry
    /// clock as it is.
    pub fn get(&self, id: ClientId) -> (found: Option<&ClientMetadata>)
        ensures
            match found {
                Some(meta) => self@.is_live(id) && *meta == self@.bindings[id],
                None => !self@.is_live(id),
            },
    {
        table_entries(&self.storage).get(&id)
    }

    /// Whether `id` is bound and live with exactly the metadata `meta`: the
    /// same token and the same address.
    pub fn compare_client(&self, id: ClientId, meta: &ClientMetadata) -> (same: bool)
        ensures
            same == (!self@.free.contains(id) && self@.matches(id, *meta)),
            self@.wf() ==> same == self@.matches(id, *meta),
    {
        if self.id_set.contains(&id) {
            return false;
        }
        match table_entries(&self.storage).get(&id) {
            Some(stored) => stored.0 == meta.0 && stored.1 == meta.1,
            None => false,
        }
    }

    /// Unbinds `id` and returns it to the pool. Doing so twice is the same
    /// as doing so once; an identifier outside the range is left alone.
    pub fn remove_client(&mut self, id: ClientId)
        ensures
            old(self)@.wf() ==> final(self)@.wf(),
            final(self)@ == old(self)@.removed(id),
            final(self)@ == old(self)@.step(Change::Remove(id)),
    {
        proof {
            if old(self)@.wf() {
                lemma_step_wf(old(self)@, Change::Remove(id));
            }
        }
        if self.start <= id && id < self.end {
            table_remove(&mut self.storage, id);
            self.id_set.insert(id);
            assert(self@ =~= old(self)@.removed(id));
        }
    }

    /// Sweeps the bindings: reads the clock once, unbinds every identifier
    /// whose binding is overdue at that reading and returns it to the pool.
    pub fn prune(&mut self)
        ensures
            old(self)@.wf() ==> final(self)@.wf(),
            exists|now: i64| final(self)@ == #[trigger] old(self)@.pruned(now),
            exists|now: i64| final(self)@ == #[trigger] old(self)@.step(Change::Prune(now)),
    {
        let removed = table_prune(&mut self.storage);
        let ghost gone = removed@.to_set();
        let ghost table = self.storage;
        let mut i: usize = 0;
        while i < removed.len()
            invariant
                i <= removed.len(),
                gone == removed@.to_set(),
                self.start == old(self).start,
                self.end == old(self).end,
                self.storage == table,
                self.id_set@ == old(self).id_set@.union(removed@.take(i as int).to_set()),
            decreases removed.len() - i,
        {
            self.id_set.insert(removed[i]);
            proof {
                assert(removed@.take(i + 1) =~= removed@.take(i as int).push(removed@[i as int]));
                removed@.take(i as int).lemma_push_to_set_commute(removed@[i as int]);
            }
            i = i + 1;
        }
        proof {
            assert(removed@.take(removed@.len() as int) =~= removed@);
            let now = choose|now: i64| gone == #[trigger] overdue_ids(
                stamps_of(old(self).storage),
                lifetime_of(old(self).storage),
                now,
            );
            assert(gone == old(self)@.expired(now));
            assert(self@.free =~= old(self)@.pruned(now).free);
            assert(self@.bindings =~= old(self)@.pruned(now).bindings);
            assert(self@.stamps =~= old(self)@.pruned(now).stamps);
            assert(self@ =~= old(self)@.pruned(now));
            assert(self@ == old(self)@.step(Change::Prune(now)));
            if old(self)@.wf() {
                lemma_step_wf(old(self)@, Change::Prune(now));
            }
        }
    }
}

} // verus!
