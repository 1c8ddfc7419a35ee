//! The parts of the PostgreSQL driver that the library handles itself.
//!
//! Connections, transactions and statements stay behind type parameters:
//! the library never looks into them. What it does hold is the driver's
//! connection parameters, its TLS setting and its error.

use postgres::config::SslMode;
use postgres::Config as ConnectParams;
use postgres::Error as DriverError;
use vstd::prelude::*;

verus! {

/// The driver's error. Opaque: the library passes it on.
#[verifier::external_type_specification]
#[verifier::external_body]
pub struct ExDriverError(DriverError);

/// The driver's parsed connection parameters. Opaque.
#[verifier::external_type_specification]
#[verifier::external_body]
pub struct ExConnectParams(ConnectParams);

/// The driver's TLS setting. Opaque.
#[verifier::external_type_specification]
#[verifier::external_body]
pub struct ExSslMode(SslMode);

/// Whether the driver accepts `params` as connection parameters, in either
/// of its two forms: a list of `key=value` pairs or a `postgresql://` URL.
pub uninterp spec fn valid_params(params: Seq<char>) -> bool;

/// Parses connection parameters.
///
/// Trusted: this is the `FromStr` implementation of `postgres::Config`. It
/// reads nothing but the text, so whether it succeeds depends on the text
/// alone; that is all the contract claims.
#[verifier::external_body]
pub(crate) fn parse_params(params: &str) -> (parsed: Result<ConnectParams, DriverError>)
    ensures
        parsed is Ok <==> valid_params(params@),
{
    params.parse::<ConnectParams>()
}

} // verus!
