//! Shared handles to prepared statements.

use std::sync::Arc;
use vstd::prelude::*;

verus! {

/// Another handle to the value that `handle` refers to.
///
/// Trusted: this is `Arc::clone`, which makes a second pointer to the same
/// allocation. Both handles therefore refer to one and the same value.
#[verifier::external_body]
pub(crate) fn share<S>(handle: &Arc<S>) -> (shared: Arc<S>)
    ensures
        shared == *handle,
{
    Arc::clone(handle)
}

} // verus!
