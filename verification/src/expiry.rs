//! The table of live bindings, whose entries expire when they are not
//! refreshed. The table itself is `transient_hashmap::TransientHashMap`;
//! this module states what the registry relies on.

use vstd::prelude::*;
use std::collections::HashMap;
use transient_hashmap::TransientHashMap;
use crate::address::{ClientId, ClientMetadata};

verus! {

/// A `TransientHashMap` from identifiers to metadata, on the system clock.
#[verifier::external_body]
pub struct BindingTable {
    inner: TransientHashMap<ClientId, ClientMetadata>,
}

/// The entries a table holds.
pub uninterp spec fn entries_of(table: BindingTable) -> Map<ClientId, ClientMetadata>;

/// The clock reading, in seconds, taken when each entry was last written.
pub uninterp spec fn stamps_of(table: BindingTable) -> Map<ClientId, i64>;

/// The lifetime, in seconds, a table was made with.
pub uninterp spec fn lifetime_of(table: BindingTable) -> u32;

/// A table without entries.
pub open spec fn no_entries() -> Map<ClientId, ClientMetadata> {
    Map::empty()
}

/// A table without clock readings.
pub open spec fn no_stamps() -> Map<ClientId, i64> {
    Map::empty()
}

/// An entry written at `stamp` is overdue at `now` once `lifetime` seconds
/// have passed.
pub open spec fn overdue(stamp: i64, lifetime: u32, now: i64) -> bool {
    now - stamp >= lifetime
}

/// The identifiers whose entries are overdue at `now`.
pub open spec fn overdue_ids(stamps: Map<ClientId, i64>, lifetime: u32, now: i64) -> Set<ClientId> {
    Set::new(|id: ClientId| stamps.contains_key(id) && overdue(stamps[id], lifetime, now))
}

/// `TransientHashMap::new`: an empty table that remembers `lifetime`.
#[verifier::external_body]
pub(crate) fn table_new(lifetime: u32) -> (table: BindingTable)
    ensures
        entries_of(table) == no_entries(),
        stamps_of(table) == no_stamps(),
        lifetime_of(table) == lifetime,
{
    BindingTable { inner: TransientHashMap::new(lifetime) }
}

/// `TransientHashMap::insert`: writes the entry, overwriting any earlier
/// one, and stamps it with a fresh clock reading. The reading itself is
/// whatever the clock gave; no other entry or stamp changes.
#[verifier::external_body]
pub(crate) fn table_insert(table: &mut BindingTable, id: ClientId, meta: ClientMetadata)
    ensures
        entries_of(*final(table)) == entries_of(*old(table)).insert(id, meta),
        stamps_of(*final(table)) == stamps_of(*old(table)).insert(id, stamps_of(*final(table))[id]),
        lifetime_of(*final(table)) == lifetime_of(*old(table)),
{
    table.inner.insert(id, meta);
}

/// `TransientHashMap::remove`: drops the entry and its stamp, if present.
#[verifier::external_body]
pub(crate) fn table_remove(table: &mut BindingTable, id: ClientId)
    ensures
        entries_of(*final(table)) == entries_of(*old(table)).remove(id),
        stamps_of(*final(table)) == stamps_of(*old(table)).remove(id),
        lifetime_of(*final(table)) == lifetime_of(*old(table)),
{
    table.inner.remove(&id);
}

/// `TransientHashMap::prune`: reads the clock once and drops every entry
/// whose stamp is overdue at that reading, returning the identifiers of the
/// dropped entries, each once, in no particular order. (The map subtracts
/// in `i64`; the claim is for clock readings whose difference fits.)
#[verifier::external_body]
pub(crate) fn table_prune(table: &mut BindingTable) -> (removed: Vec<ClientId>)
    ensures
        exists|now: i64|
            removed@.to_set() == #[trigger] overdue_ids(
                stamps_of(*old(table)),
                lifetime_of(*old(table)),
                now,
            ),
        removed@.no_duplicates(),
        entries_of(*final(table)) == entries_of(*old(table)).remove_keys(removed@.to_set()),
        stamps_of(*final(table)) == stamps_of(*old(table)).remove_keys(removed@.to_set()),
        lifetime_of(*final(table)) == lifetime_of(*old(table)),
{
    table.inner.prune()
}

/// `TransientHashMap::direct`: the map the entries are kept in. Reading it
/// leaves every stamp as it was.
#[verifier::external_body]
pub(crate) fn table_entries(table: &BindingTable) -> (entries: &HashMap<ClientId, ClientMetadata>)
    ensures
        entries@ == entries_of(*table),
{
    table.inner.direct()
}

} // verus!
