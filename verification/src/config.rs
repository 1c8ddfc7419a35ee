//! Pool configuration.

use vstd::prelude::*;

verus! {

/// What a pool of statement-caching connections is set up with.
#[derive(Clone, Copy, Debug)]
pub struct Config {
    /// The number of prepared statements that each connection caches.
    /// With 0 nothing is cached. Defaults to 10.
    pub statement_pool_size: usize,
}

impl Default for Config {
    fn default() -> (config: Config)
        ensures
            config.statement_pool_size == 10,
    {
        Config { statement_pool_size: 10 }
    }
}

} // verus!
