//! Transactions on a cached connection.

use crate::cache::StatementCache;
use crate::generic::GenericConnection;
use crate::lru;
use std::sync::Arc;
use vstd::prelude::*;

verus! {

/// The library's side of a transaction: the statement cache of the
/// connection that the transaction runs on, borrowed for as long as the
/// transaction lasts. A transaction owns no cache of its own, and neither
/// does a transaction nested in it.
pub struct Transaction<'a, S> {
    /// The cache of the connection at the root.
    pub statements: &'a mut StatementCache<S>,
}

impl<'a, S> Transaction<'a, S> {
    /// A transaction on the connection that `statements` belongs to.
    pub fn new(statements: &'a mut StatementCache<S>) -> (transaction: Self)
        ensures
            *transaction.statements == *old(statements),
            *final(transaction.statements) == *final(statements),
    {
        Transaction { statements }
    }

    /// A transaction nested in this one. It works on the same cache.
    pub fn transaction(&mut self) -> (nested: Transaction<'_, S>)
        ensures
            *nested.statements == *old(self).statements,
            *final(self).statements == *final(nested.statements),
            *final(final(self).statements) == *final(old(self).statements),
    {
        Transaction { statements: &mut *self.statements }
    }
}

impl<'a, S> GenericConnection<S> for Transaction<'a, S> {
    open spec fn statements(&self) -> Seq<(Seq<char>, Arc<S>)> {
        self.statements@
    }

    open spec fn capacity(&self) -> nat {
        self.statements.capacity() as nat
    }

    /// What is prepared inside a transaction is handed out and not cached:
    /// the cache takes statements from the connection alone.
    open spec fn caches_prepared() -> bool {
        false
    }

    /// Looks `query` up in the cache of the connection at the root. On
    /// `None` the caller prepares it on the driver's transaction.
    fn prepare(&mut self, query: &str) -> (found: Option<Arc<S>>)
        ensures
            *final(final(self).statements) == *final(old(self).statements),
    {
        self.statements.get(query)
    }

    /// Takes what the driver's transaction made of `query`. The cache
    /// stays as it is.
    fn prepared<E>(&mut self, query: &str, outcome: Result<S, E>) -> (prepared: Result<Arc<S>, E>)
        ensures
            *final(self).statements == *old(self).statements,
            *final(final(self).statements) == *final(old(self).statements),
    {
        match outcome {
            Ok(statement) => Ok(Arc::new(statement)),
            Err(error) => Err(error),
        }
    }
}

/// What the connection cached before a transaction began is served inside
/// it. In a cache that keeps anything at all, the statement that was stored
/// under `query` is found under it again, whatever lookups `used` the
/// connection and its transactions, nested or not, made in between: they all
/// work on the one cache, and no lookup evicts.
pub proof fn cached_before_is_served_inside<S>(
    entries: Seq<(Seq<char>, Arc<S>)>,
    capacity: nat,
    query: Seq<char>,
    statement: Arc<S>,
    used: Seq<Seq<char>>,
)
    requires
        lru::well_formed(entries, capacity),
        capacity > 0,
    ensures
        lru::lookup(
            lru::touch_all(lru::insert(entries, capacity, query, statement), used),
            query,
        ) == Some(statement),
{
    lru::hit_after_insert(entries, capacity, query, statement);
    lru::lookups_keep_contents(lru::insert(entries, capacity, query, statement), capacity, used);
}

} // verus!
