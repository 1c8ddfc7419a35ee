//! What a connection and the transactions on it have in common.

use crate::lru;
use std::sync::Arc;
use vstd::prelude::*;

verus! {

/// How a query is prepared, on a connection as on a transaction.
///
/// Preparing is in two halves, because the library does not talk to the
/// server. [`GenericConnection::prepare`] is the lookup in the statement
/// cache of the connection. On a miss the caller asks the server, on the
/// raw connection or on the driver's transaction, and hands the outcome to
/// [`GenericConnection::prepared`]. A hit asks the server nothing.
///
/// A connection and a transaction differ in one thing, which
/// [`GenericConnection::caches_prepared`] tells: what was prepared on the
/// connection is cached, what was prepared inside a transaction is not.
pub trait GenericConnection<S> {
    /// The cached statements by query text, from the least to the most
    /// recently used.
    spec fn statements(&self) -> Seq<(Seq<char>, Arc<S>)>;

    /// The number of statements that the cache holds at most.
    spec fn capacity(&self) -> nat;

    /// Whether a statement that was prepared here is taken into the cache.
    spec fn caches_prepared() -> bool;

    /// The first half: the lookup. `Some` is a handle to the cached
    /// statement, whose entry becomes the most recent one. `None` asks the
    /// caller to prepare the query and to hand over the outcome. The query
    /// text is the key as it stands.
    fn prepare(&mut self, query: &str) -> (found: Option<Arc<S>>)
        ensures
            found == lru::lookup(old(self).statements(), query@),
            final(self).statements() == lru::touch(old(self).statements(), query@),
            final(self).capacity() == old(self).capacity(),
    ;

    /// The second half: what the server made of `query`. A statement is
    /// wrapped in a shared handle, and cached as the most recent entry
    /// where statements are cached here: in place of an older one under the
    /// same text, and at the cost of the least recently used entry of a
    /// full cache; with capacity 0 nothing stays. An error is passed on as
    /// it is and leaves the cache unchanged.
    fn prepared<E>(&mut self, query: &str, outcome: Result<S, E>) -> (prepared: Result<Arc<S>, E>)
        ensures
            match outcome {
                Ok(statement) => prepared matches Ok(handle) && *handle == statement
                    && final(self).statements() == (if Self::caches_prepared() {
                    lru::insert(old(self).statements(), old(self).capacity(), query@, handle)
                } else {
                    old(self).statements()
                }),
                Err(error) => prepared == Err::<Arc<S>, E>(error) && final(self).statements()
                    == old(self).statements(),
            },
            final(self).capacity() == old(self).capacity(),
    ;
}

} // verus!
