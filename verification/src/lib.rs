//! Statement caching for pooled PostgreSQL connections.
//!
//! Every connection that a pool hands out carries a bounded cache of the
//! statements that were prepared on it, so that a query text that is used
//! again is not parsed and planned again by the server.
//!
//! The library holds the rules and leaves the traffic with the server to
//! its caller. [`lru`] is the model of the cache, a sequence in order of
//! use, with the laws that hold of it. [`cache`] is the cache itself.
//! [`generic`], [`connection`] and [`transaction`] say what a connection
//! and the transactions on it serve from the cache and what they take
//! into it.
//! [`manager`] says what a connection pool is told when it opens, checks
//! and takes back a connection. [`driver`] and [`handle`] hold what is
//! taken on trust from the PostgreSQL driver and from `std`.

pub mod cache;
pub mod config;
pub mod connection;
pub mod driver;
pub mod error;
pub mod generic;
pub mod handle;
pub mod lru;
pub mod manager;
pub mod transaction;

pub use crate::cache::StatementCache;
pub use crate::config::Config;
pub use crate::connection::Connection;
pub use crate::error::Error;
pub use crate::generic::GenericConnection;
pub use crate::manager::{PostgresPoolManager, StatementPoolingManager};
pub use crate::transaction::Transaction;
