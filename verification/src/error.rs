//! The errors of the pool managers.

use crate::handle::share;
use postgres::Error as DriverError;
use std::sync::Arc;
use vstd::prelude::*;

verus! {

/// What a pool manager reports. The payload is the driver's own error,
/// shared so that a manager can report a stored one again and again.
#[derive(Debug)]
pub enum Error {
    /// The connection parameters are malformed, or the session could not be
    /// established.
    ConnectError(Arc<DriverError>),
    /// A failure on an established connection.
    OtherError(Arc<DriverError>),
}

impl Error {
    /// The driver's error that this one carries.
    pub open spec fn spec_payload(&self) -> &DriverError {
        match self {
            Error::ConnectError(e) => &**e,
            Error::OtherError(e) => &**e,
        }
    }

    /// The driver's error that this one carries.
    #[verifier::when_used_as_spec(spec_payload)]
    pub fn payload(&self) -> (payload: &DriverError)
        ensures
            payload == self.payload(),
    {
        match self {
            Error::ConnectError(e) => &**e,
            Error::OtherError(e) => &**e,
        }
    }

    /// The description of the error: that of the payload, whatever the kind.
    pub fn message(&self) -> (message: String)
        ensures
            vstd::string::to_string_from_display_ensures::<DriverError>(self.payload(), message),
    {
        self.payload().to_string()
    }
}

impl Clone for Error {
    fn clone(&self) -> (copy: Error)
        ensures
            copy == *self,
    {
        match self {
            Error::ConnectError(e) => Error::ConnectError(share(e)),
            Error::OtherError(e) => Error::OtherError(share(e)),
        }
    }
}

} // verus!
