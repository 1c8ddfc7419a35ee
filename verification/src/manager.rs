//! The pool managers: what a connection pool asks when it opens, checks
//! and takes back a connection.
//!
//! A manager decides; it opens nothing itself. Before the session is
//! opened it says with what, or that it cannot be; afterwards it takes what
//! the driver answered and says what the pool gets.

use crate::config::Config;
use crate::connection::Connection;
use crate::driver::{parse_params, valid_params};
use crate::error::Error;
use crate::generic::GenericConnection;
use crate::handle::share;
use postgres::config::SslMode;
use postgres::Config as ConnectParams;
use postgres::Error as DriverError;
use std::sync::Arc;
use vstd::prelude::*;

verus! {

/// The manager of a pool of plain connections.
pub struct PostgresPoolManager {
    params: Result<ConnectParams, Arc<DriverError>>,
    ssl_mode: SslMode,
}

impl PostgresPoolManager {
    /// The connection parameters as they were parsed when the manager was
    /// made, or the error that parsing them gave.
    pub closed spec fn params(&self) -> Result<ConnectParams, Arc<DriverError>> {
        self.params
    }

    /// The TLS setting that sessions are opened with.
    pub closed spec fn spec_ssl_mode(&self) -> SslMode {
        self.ssl_mode
    }

    /// A manager for the database that `params` names. Malformed
    /// parameters do not fail here: the error is kept and reported by
    /// every attempt to connect.
    pub fn new(params: &str, ssl_mode: SslMode) -> (manager: Self)
        ensures
            manager.params() is Ok <==> valid_params(params@),
            manager.ssl_mode() == ssl_mode,
    {
        let params = match parse_params(params) {
            Ok(parsed) => Ok(parsed),
            Err(error) => Err(Arc::new(error)),
        };
        PostgresPoolManager { params, ssl_mode }
    }

    /// The TLS setting that sessions are opened with.
    #[verifier::when_used_as_spec(spec_ssl_mode)]
    pub fn ssl_mode(&self) -> (ssl_mode: SslMode)
        ensures
            ssl_mode == self.ssl_mode(),
    {
        self.ssl_mode
    }

    /// What to open a session with. Where the parameters were malformed
    /// this is the stored error, as a connect error, and no session is to
    /// be opened; the parameters are not parsed again.
    pub fn connect_params(&self) -> (params: Result<&ConnectParams, Error>)
        ensures
            match self.params() {
                Ok(stored) => params == Ok::<&ConnectParams, Error>(&stored),
                Err(stored) => params == Err::<&ConnectParams, Error>(Error::ConnectError(stored)),
            },
    {
        match &self.params {
            Ok(stored) => Ok(stored),
            Err(stored) => Err(Error::ConnectError(share(stored))),
        }
    }

    /// What the pool gets for an attempt to open a session. With malformed
    /// parameters that is the stored error, whatever `opened` holds.
    /// Otherwise it is the raw connection, or the driver's error as a
    /// connect error.
    pub fn connect<C>(&self, opened: Result<C, DriverError>) -> (connection: Result<C, Error>)
        ensures
            match (self.params(), opened) {
                (Err(stored), _) => connection == Err::<C, Error>(Error::ConnectError(stored)),
                (Ok(_), Ok(raw)) => connection == Ok::<C, Error>(raw),
                (Ok(_), Err(error)) => connection matches Err(Error::ConnectError(payload))
                    && *payload == error,
            },
    {
        match &self.params {
            Err(stored) => Err(Error::ConnectError(share(stored))),
            Ok(_) => match opened {
                Ok(raw) => Ok(raw),
                Err(error) => Err(Error::ConnectError(Arc::new(error))),
            },
        }
    }

    /// The batch that checks a connection: the empty one, a round trip to
    /// the server that does nothing.
    pub fn validation_query(&self) -> (query: &'static str)
        ensures
            query@ == Seq::<char>::empty(),
    {
        proof {
            reveal_strlit("");
        }
        ""
    }

    /// Whether a connection is still usable, from what the driver answered
    /// to the validation batch: it is if the batch succeeded. A failure is
    /// reported as a failure of an established connection.
    pub fn is_valid(&self, round_trip: Result<(), DriverError>) -> (valid: Result<(), Error>)
        ensures
            match round_trip {
                Ok(_) => valid is Ok,
                Err(error) => valid matches Err(Error::OtherError(payload)) && *payload == error,
            },
    {
        match round_trip {
            Ok(_) => Ok(()),
            Err(error) => Err(Error::OtherError(Arc::new(error))),
        }
    }

    /// Whether a connection must be discarded, from the driver's flag for
    /// a session whose protocol state is lost: it must be exactly if the
    /// flag is set. Such a connection is never handed out again.
    pub fn has_broken(&self, desynchronized: bool) -> (broken: bool)
        ensures
            broken == desynchronized,
    {
        desynchronized
    }
}

/// The manager of a pool of connections that cache their statements.
pub struct StatementPoolingManager {
    manager: PostgresPoolManager,
    config: Config,
}

impl StatementPoolingManager {
    /// The manager of plain connections that this one rests on.
    pub closed spec fn spec_manager(&self) -> &PostgresPoolManager {
        &self.manager
    }

    /// The configuration of the pool.
    pub closed spec fn spec_config(&self) -> Config {
        self.config
    }

    /// A manager for the database that `params` names, whose connections
    /// cache statements as `config` says.
    pub fn new(params: &str, ssl_mode: SslMode, config: Config) -> (manager: Self)
        ensures
            manager.manager().params() is Ok <==> valid_params(params@),
            manager.manager().ssl_mode() == ssl_mode,
            manager.config() == config,
    {
        StatementPoolingManager { manager: PostgresPoolManager::new(params, ssl_mode), config }
    }

    /// The manager of plain connections that this one rests on.
    #[verifier::when_used_as_spec(spec_manager)]
    pub fn manager(&self) -> (manager: &PostgresPoolManager)
        ensures
            manager == self.manager(),
    {
        &self.manager
    }

    /// The configuration of the pool.
    #[verifier::when_used_as_spec(spec_config)]
    pub fn config(&self) -> (config: Config)
        ensures
            config == self.config(),
    {
        self.config
    }

    /// What the pool gets for an attempt to open a session: the raw
    /// connection with an empty statement cache of the configured
    /// capacity, or the error that [`PostgresPoolManager::connect`] gives.
    pub fn connect<C, S>(&self, opened: Result<C, DriverError>) -> (connection: Result<
        Connection<C, S>,
        Error,
    >)
        ensures
            match (self.manager().params(), opened) {
                (Err(stored), _) => connection matches Err(Error::ConnectError(payload))
                    && payload == stored,
                (Ok(_), Ok(raw)) => connection matches Ok(cached) && cached.raw() == raw
                    && cached.capacity() == self.config().statement_pool_size
                    && cached.statements() == Seq::<(Seq<char>, Arc<S>)>::empty(),
                (Ok(_), Err(error)) => connection matches Err(Error::ConnectError(payload))
                    && *payload == error,
            },
    {
        match self.manager.connect(opened) {
            Ok(raw) => Ok(Connection::new(raw, self.config.statement_pool_size)),
            Err(error) => Err(error),
        }
    }

    /// Whether a connection is still usable: see
    /// [`PostgresPoolManager::is_valid`].
    pub fn is_valid(&self, round_trip: Result<(), DriverError>) -> (valid: Result<(), Error>)
        ensures
            match round_trip {
                Ok(_) => valid is Ok,
                Err(error) => valid matches Err(Error::OtherError(payload)) && *payload == error,
            },
    {
        self.manager.is_valid(round_trip)
    }

    /// Whether a connection must be discarded: see
    /// [`PostgresPoolManager::has_broken`].
    pub fn has_broken(&self, desynchronized: bool) -> (broken: bool)
        ensures
            broken == desynchronized,
    {
        self.manager.has_broken(desynchronized)
    }
}

} // verus!
