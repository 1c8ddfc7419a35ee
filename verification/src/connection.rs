//! A connection together with the statements that were prepared on it.

use crate::cache::StatementCache;
use crate::generic::GenericConnection;
use crate::lru;
use crate::transaction::Transaction;
use std::sync::Arc;
use vstd::prelude::*;

verus! {

/// A raw connection of type `C` and the cache of the statements, of type
/// `S`, that were prepared on it.
///
/// The library decides what is served from the cache and what the cache
/// keeps; talking to the server is the caller's part. A statement is valid
/// only alongside the connection that prepared it, so the cache lives and
/// ends with the connection and is emptied before the raw connection is
/// given up.
pub struct Connection<C, S> {
    stmts: StatementCache<S>,
    conn: C,
}

impl<C, S> Connection<C, S> {
    /// The raw connection.
    pub closed spec fn raw(&self) -> C {
        self.conn
    }

    /// Wraps a raw connection that was just opened. The cache is empty and
    /// holds at most `capacity` statements.
    pub fn new(conn: C, capacity: usize) -> (connection: Self)
        ensures
            connection.raw() == conn,
            connection.capacity() == capacity,
            connection.statements() == Seq::<(Seq<char>, Arc<S>)>::empty(),
    {
        Connection { stmts: StatementCache::new(capacity), conn }
    }

    /// The number of statements in the cache.
    pub fn cached(&self) -> (cached: usize)
        ensures
            cached == self.statements().len(),
            lru::well_formed(self.statements(), self.capacity()),
    {
        self.stmts.len()
    }

    /// The cached query texts, from the least to the most recently used.
    pub fn queries(&self) -> (queries: Vec<String>)
        ensures
            queries@.len() == self.statements().len(),
            forall|i: int|
                0 <= i < self.statements().len() ==> (#[trigger] queries@[i])@
                    == self.statements()[i].0,
    {
        self.stmts.queries()
    }

    /// The raw connection, for what bypasses the cache: batches, bulk
    /// loads, executing a statement.
    pub fn raw_mut(&mut self) -> (raw: &mut C)
        ensures
            *raw == old(self).raw(),
            final(self).raw() == *final(raw),
            final(self).statements() == old(self).statements(),
            final(self).capacity() == old(self).capacity(),
    {
        &mut self.conn
    }

    /// Opens the library's side of a transaction. The raw connection is
    /// handed out for the driver to open its own; the transaction works on
    /// the cache of this connection, which has it back when the transaction
    /// ends.
    pub fn transaction(&mut self) -> (opened: (&mut C, Transaction<'_, S>))
        ensures
            *opened.0 == old(self).raw(),
            final(self).raw() == *final(opened.0),
            opened.1.statements() == old(self).statements(),
            opened.1.capacity() == old(self).capacity(),
            final(self).statements() == final(opened.1.statements)@,
            final(self).capacity() == final(opened.1.statements).capacity(),
    {
        (&mut self.conn, Transaction::new(&mut self.stmts))
    }

    /// Releases every cached statement and disables the cache, by setting
    /// its capacity to 0. This is the first step of giving up a connection;
    /// the raw connection is still there when it is done.
    ///
    /// The cache lets go of its own handles only. Whoever still holds a
    /// handle to a statement keeps that statement alive, and is to let go
    /// of it before the connection is given up.
    pub fn teardown(&mut self)
        ensures
            final(self).statements() == Seq::<(Seq<char>, Arc<S>)>::empty(),
            final(self).capacity() == 0,
            final(self).raw() == old(self).raw(),
    {
        self.stmts.change_capacity(0);
    }

    /// Gives up the raw connection. The statements must have been released
    /// before: only a connection that was torn down can be released.
    pub fn release(self) -> (raw: C)
        requires
            self.statements().len() == 0,
        ensures
            raw == self.raw(),
    {
        self.conn
    }

    /// Ends the connection: releases every cached statement, and only then
    /// gives up the raw connection.
    pub fn close(self) -> (raw: C)
        ensures
            raw == self.raw(),
    {
        let mut connection = self;
        connection.teardown();
        connection.release()
    }
}

impl<C, S> GenericConnection<S> for Connection<C, S> {
    closed spec fn statements(&self) -> Seq<(Seq<char>, Arc<S>)> {
        self.stmts@
    }

    closed spec fn capacity(&self) -> nat {
        self.stmts.capacity() as nat
    }

    /// What is prepared on a connection is cached.
    open spec fn caches_prepared() -> bool {
        true
    }

    /// Looks `query` up in the cache of the connection. On `None` the
    /// caller prepares it on the raw connection.
    fn prepare(&mut self, query: &str) -> (found: Option<Arc<S>>)
        ensures
            final(self).raw() == old(self).raw(),
    {
        self.stmts.get(query)
    }

    /// Takes what the raw connection made of `query`, and caches the
    /// statement.
    fn prepared<E>(&mut self, query: &str, outcome: Result<S, E>) -> (prepared: Result<Arc<S>, E>)
        ensures
            final(self).raw() == old(self).raw(),
    {
        match outcome {
            Ok(statement) => {
                let handle = Arc::new(statement);
                self.stmts.put(query, crate::handle::share(&handle));
                Ok(handle)
            },
            Err(error) => Err(error),
        }
    }
}

/// Connections share no statements. A connection answers from its own
/// cache alone: one that the pool has just opened misses every query, also
/// a query that another connection of the pool holds a statement for, under
/// the very same text. It is prepared on each connection by itself.
pub proof fn connections_share_nothing<C, S>(
    one: Connection<C, S>,
    other: Connection<C, S>,
    query: Seq<char>,
)
    requires
        lru::lookup(one.statements(), query) is Some,
        other.statements() == Seq::<(Seq<char>, Arc<S>)>::empty(),
    ensures
        lru::lookup(other.statements(), query) is None,
        lru::touch(other.statements(), query) == other.statements(),
{
    lru::empty_cache_misses::<Seq<char>, Arc<S>>(query);
}

} // verus!
