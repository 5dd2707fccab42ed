//! The table of queries that were forwarded upstream and not yet answered.

use std::collections::HashMap;
use std::sync::Arc;
use vstd::prelude::*;
use vstd::rwlock::*;
use crate::endpoint::Endpoint;
use crate::sharing::share;

verus! {

broadcast use vstd::std_specs::hash::group_hash_axioms;

/// One query that was sent upstream and waits for its reply.
#[derive(Debug)]
pub struct PendingQuery {
    /// The client that asked, and to which the reply goes.
    pub from: Endpoint,
    /// The client's datagram, byte for byte, with the client's own
    /// transaction identifier in its first two bytes.
    pub query: Vec<u8>,
    /// When the client's datagram was received, in milliseconds on the
    /// caller's monotonic clock. Only diagnostics read it.
    pub received_at: u64,
    /// The transaction identifier under which the query went upstream. The
    /// table is keyed by it.
    pub icann_id: u16,
}

impl Clone for PendingQuery {
    /// A copy that holds the same client, the same bytes, the same time and
    /// the same identifier.
    fn clone(&self) -> (copy: Self)
        ensures
            copy.from == self.from,
            copy.query@ == self.query@,
            copy.received_at == self.received_at,
            copy.icann_id == self.icann_id,
    {
        PendingQuery {
            from: self.from,
            query: self.query.clone(),
            received_at: self.received_at,
            icann_id: self.icann_id,
        }
    }
}

/// Whether every entry of a table sits under the identifier it was sent with.
pub open spec fn keyed_by_id(table: Map<u16, PendingQuery>) -> bool {
    forall|id: u16| #[trigger] table.contains_key(id) ==> table[id].icann_id == id
}

/// What a table answers for `id`: the entry under it, if there is one.
pub open spec fn lookup(table: Map<u16, PendingQuery>, id: u16) -> Option<PendingQuery> {
    if table.contains_key(id) {
        Some(table[id])
    } else {
        None
    }
}

/// A removed key no longer answers, and every other key answers as before.
pub proof fn lemma_removed_is_gone(table: Map<u16, PendingQuery>, id: u16, other: u16)
    ensures
        lookup(table.remove(id), id) is None,
        other != id ==> lookup(table.remove(id), other) == lookup(table, other),
{
}

/// An inserted entry is what its key answers, whatever the key answered
/// before, and every other key answers as before.
pub proof fn lemma_insert_overwrites(
    table: Map<u16, PendingQuery>,
    query: PendingQuery,
    other: u16,
)
    ensures
        lookup(table.insert(query.icann_id, query), query.icann_id) == Some(query),
        other != query.icann_id ==> lookup(table.insert(query.icann_id, query), other) == lookup(
            table,
            other,
        ),
{
}

/// Two entries with different keys are both kept, in whichever order they
/// were inserted.
pub proof fn lemma_no_key_lost(table: Map<u16, PendingQuery>, a: PendingQuery, b: PendingQuery)
    requires
        a.icann_id != b.icann_id,
    ensures
        lookup(table.insert(a.icann_id, a).insert(b.icann_id, b), a.icann_id) == Some(a),
        lookup(table.insert(a.icann_id, a).insert(b.icann_id, b), b.icann_id) == Some(b),
        table.insert(a.icann_id, a).insert(b.icann_id, b) == table.insert(b.icann_id, b).insert(
            a.icann_id,
            a,
        ),
{
    assert(table.insert(a.icann_id, a).insert(b.icann_id, b) =~= table.insert(
        b.icann_id,
        b,
    ).insert(a.icann_id, a));
}

/// An entry that is inserted and removed again leaves the table as it was
/// without the key.
pub proof fn lemma_insert_then_remove(table: Map<u16, PendingQuery>, query: PendingQuery)
    ensures
        table.insert(query.icann_id, query).remove(query.icann_id) == table.remove(
            query.icann_id,
        ),
        !table.contains_key(query.icann_id) ==> table.insert(query.icann_id, query).remove(
            query.icann_id,
        ) == table,
{
    assert(table.insert(query.icann_id, query).remove(query.icann_id) =~= table.remove(
        query.icann_id,
    ));
    if !table.contains_key(query.icann_id) {
        assert(table.remove(query.icann_id) =~= table);
    }
}

/// Inserting and removing keep every entry under the identifier it was sent
/// with.
pub proof fn lemma_keyed_by_id_kept(table: Map<u16, PendingQuery>, query: PendingQuery, id: u16)
    requires
        keyed_by_id(table),
    ensures
        keyed_by_id(table.insert(query.icann_id, query)),
        keyed_by_id(table.remove(id)),
{
}

/// Simple pending query store, for one owner. For multi-threading, use
/// [`ThreadSafeStore`].
#[derive(Debug)]
pub struct SimpleStore {
    pending_queries: HashMap<u16, PendingQuery>,
}

impl View for SimpleStore {
    type V = Map<u16, PendingQuery>;

    closed spec fn view(&self) -> Map<u16, PendingQuery> {
        self.pending_queries@
    }
}

impl SimpleStore {
    #[verifier::type_invariant]
    spec fn well_formed(&self) -> bool {
        keyed_by_id(self.pending_queries@)
    }

    /// An empty store.
    pub fn new() -> (store: Self)
        ensures
            store@ == Map::<u16, PendingQuery>::empty(),
    {
        Self { pending_queries: HashMap::new() }
    }

    /// Stores `query` under its upstream identifier. An entry that was there
    /// under the same identifier is replaced.
    pub fn insert(&mut self, query: PendingQuery)
        ensures
            final(self)@ == old(self)@.insert(query.icann_id, query),
            keyed_by_id(final(self)@),
    {
        proof {
            use_type_invariant(&*self);
        }
        let mut entries: HashMap<u16, PendingQuery> = HashMap::new();
        std::mem::swap(&mut self.pending_queries, &mut entries);
        entries.insert(query.icann_id, query);
        self.pending_queries = entries;
    }

    /// Takes the entry under `id` out of the store and returns it, or returns
    /// `None` and leaves the store as it is when there is none.
    pub fn remove(&mut self, id: &u16) -> (removed: Option<PendingQuery>)
        ensures
            removed == lookup(old(self)@, *id),
            final(self)@ == old(self)@.remove(*id),
            removed matches Some(query) ==> query.icann_id == *id,
            keyed_by_id(final(self)@),
    {
        proof {
            use_type_invariant(&*self);
        }
        let mut entries: HashMap<u16, PendingQuery> = HashMap::new();
        std::mem::swap(&mut self.pending_queries, &mut entries);
        let removed = entries.remove(id);
        self.pending_queries = entries;
        removed
    }

    /// The number of entries.
    pub fn len(&self) -> (len: usize)
        ensures
            len == self@.len(),
    {
        self.pending_queries.len()
    }
}

impl Clone for SimpleStore {
    /// A store of its own with the same entries.
    fn clone(&self) -> (copy: Self)
        ensures
            copy@ == self@,
    {
        proof {
            use_type_invariant(self);
        }
        Self { pending_queries: self.pending_queries.clone() }
    }
}

/// What the lock around the shared table asks of a store that is put back:
/// nothing beyond what every [`SimpleStore`] meets by its construction.
pub struct AnyStore {}

impl RwLockPredicate<SimpleStore> for AnyStore {
    open spec fn inv(self, store: SimpleStore) -> bool {
        true
    }
}

/// Multi-threading safe store. Use `.clone()` to give each thread one handle.
/// The data stays shared: what one handle inserts, another can remove.
///
/// Each operation holds the lock for one change of the table and no longer.
/// Between two operations of one handle the other handles may have changed
/// the table, so an operation promises nothing about what the table holds
/// afterwards, only about the entry it returns.
pub struct ThreadSafeStore {
    pending_queries: Arc<RwLock<SimpleStore, AnyStore>>,
}

impl ThreadSafeStore {
    /// A new, empty table with one handle to it.
    pub fn new() -> Self {
        Self { pending_queries: Arc::new(RwLock::new(SimpleStore::new(), Ghost(AnyStore {}))) }
    }

    /// Stores `query` in the shared table under its upstream identifier,
    /// replacing an entry under the same identifier.
    pub fn insert(&mut self, query: PendingQuery)
        ensures
            *final(self) == *old(self),
    {
        let (mut store, handle) = self.pending_queries.acquire_write();
        store.insert(query);
        handle.release_write(store);
    }

    /// Takes the entry under `id` out of the shared table, if there is one at
    /// the moment of the call. An entry that comes back was stored under `id`.
    pub fn remove(&mut self, id: &u16) -> (removed: Option<PendingQuery>)
        ensures
            *final(self) == *old(self),
            removed matches Some(query) ==> query.icann_id == *id,
    {
        let (mut store, handle) = self.pending_queries.acquire_write();
        let removed = store.remove(id);
        handle.release_write(store);
        removed
    }

    /// The number of entries at the moment of the call.
    pub fn len(&self) -> usize {
        let handle = self.pending_queries.acquire_read();
        let len = handle.borrow().len();
        handle.release_read();
        len
    }
}

impl Clone for ThreadSafeStore {
    /// Another handle to the same table.
    fn clone(&self) -> (other: Self)
        ensures
            other == *self,
    {
        Self { pending_queries: share(&self.pending_queries) }
    }
}

/// A table of pending queries: one that its owner has for itself, or a handle
/// to one that several threads share.
pub enum PendingStore {
    Simple(SimpleStore),
    ThreadSafe(ThreadSafeStore),
}

impl Clone for PendingStore {
    /// Of a table with one owner, a table of its own with the same entries;
    /// of a shared table, another handle to the same table.
    fn clone(&self) -> (copy: Self)
        ensures
            match (*self, copy) {
                (PendingStore::Simple(table), PendingStore::Simple(other)) => other@ == table@,
                (PendingStore::ThreadSafe(table), PendingStore::ThreadSafe(other)) => other
                    == table,
                _ => false,
            },
    {
        match self {
            Self::Simple(store) => Self::Simple(store.clone()),
            Self::ThreadSafe(store) => Self::ThreadSafe(store.clone()),
        }
    }
}

impl PendingStore {
    /// Whether `after` is this table after `query` was stored in it. Of a
    /// table with one owner this fixes every entry; of a shared table it says
    /// that the handle still names the same table.
    pub open spec fn inserted(self, after: PendingStore, query: PendingQuery) -> bool {
        match (self, after) {
            (PendingStore::Simple(earlier), PendingStore::Simple(later)) => later@
                == earlier@.insert(query.icann_id, query),
            (PendingStore::ThreadSafe(earlier), PendingStore::ThreadSafe(later)) => later
                == earlier,
            _ => false,
        }
    }

    /// Whether `after` is this table after the entry under `id` was taken out
    /// and `removed` is what came out. Of a table with one owner this fixes
    /// both; of a shared table it says that the handle still names the same
    /// table and that an entry that came out was stored under `id`.
    pub open spec fn removed(
        self,
        after: PendingStore,
        id: u16,
        removed: Option<PendingQuery>,
    ) -> bool {
        match (self, after) {
            (PendingStore::Simple(earlier), PendingStore::Simple(later)) => {
                &&& removed == lookup(earlier@, id)
                &&& later@ == earlier@.remove(id)
            },
            (PendingStore::ThreadSafe(earlier), PendingStore::ThreadSafe(later)) => {
                &&& later == earlier
                &&& removed matches Some(query) ==> query.icann_id == id
            },
            _ => false,
        }
    }

    /// An empty table for one owner.
    pub fn new_simple() -> (store: Self)
        ensures
            store matches PendingStore::Simple(table) && table@ == Map::<
                u16,
                PendingQuery,
            >::empty(),
    {
        Self::Simple(SimpleStore::new())
    }

    /// A handle to a new, empty shared table.
    pub fn new_thread_safe() -> (store: Self)
        ensures
            store is ThreadSafe,
    {
        Self::ThreadSafe(ThreadSafeStore::new())
    }

    /// The number of entries, of a shared table at the moment of the call.
    pub fn len(&self) -> (len: usize)
        ensures
            self matches PendingStore::Simple(table) ==> len == table@.len(),
    {
        match self {
            Self::Simple(store) => store.len(),
            Self::ThreadSafe(store) => store.len(),
        }
    }

    /// Stores `query` under its upstream identifier, replacing an entry under
    /// the same identifier.
    pub fn insert(&mut self, query: PendingQuery)
        ensures
            old(self).inserted(*final(self), query),
    {
        match self {
            Self::Simple(store) => { store.insert(query) },
            Self::ThreadSafe(store) => { store.insert(query) },
        }
    }

    /// Takes the entry under `id` out of the table and returns it, if there
    /// is one.
    pub fn remove(&mut self, id: &u16) -> (removed: Option<PendingQuery>)
        ensures
            old(self).removed(*final(self), *id, removed),
            removed matches Some(query) ==> query.icann_id == *id,
    {
        match self {
            Self::Simple(store) => { store.remove(id) },
            Self::ThreadSafe(store) => { store.remove(id) },
        }
    }
}

/// In a table with one owner, a key that was removed is not found again.
pub proof fn lemma_removed_key_is_not_found(
    first: PendingStore,
    second: PendingStore,
    third: PendingStore,
    id: u16,
    found_first: Option<PendingQuery>,
    found_second: Option<PendingQuery>,
)
    requires
        first is Simple,
        first.removed(second, id, found_first),
        second.removed(third, id, found_second),
    ensures
        found_second is None,
        third matches PendingStore::Simple(table) && table@ == second->Simple_0@,
{
    assert(second->Simple_0@.remove(id) =~= second->Simple_0@);
}

/// In a table with one owner, the entry that was inserted last under a key
/// is the one that the key gives back.
pub proof fn lemma_last_insert_is_found(
    first: PendingStore,
    second: PendingStore,
    third: PendingStore,
    fourth: PendingStore,
    earlier: PendingQuery,
    later: PendingQuery,
    found: Option<PendingQuery>,
)
    requires
        first is Simple,
        earlier.icann_id == later.icann_id,
        first.inserted(second, earlier),
        second.inserted(third, later),
        third.removed(fourth, later.icann_id, found),
    ensures
        found == Some(later),
{
}

/// In a table with one owner, entries under different keys do not disturb
/// each other: each is found under its key, whatever was inserted or removed
/// under the other.
pub proof fn lemma_other_keys_are_kept(
    first: PendingStore,
    second: PendingStore,
    third: PendingStore,
    fourth: PendingStore,
    fifth: PendingStore,
    kept: PendingQuery,
    other: PendingQuery,
    found_other: Option<PendingQuery>,
    found_kept: Option<PendingQuery>,
)
    requires
        first is Simple,
        kept.icann_id != other.icann_id,
        first.inserted(second, kept),
        second.inserted(third, other),
        third.removed(fourth, other.icann_id, found_other),
        fourth.removed(fifth, kept.icann_id, found_kept),
    ensures
        found_other == Some(other),
        found_kept == Some(kept),
{
}

} // verus!
