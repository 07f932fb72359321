use crate::params::ParseError;
use vstd::prelude::*;

verus! {

/// Which connection argument a reconnect attempt found unusable.
#[derive(Clone, Copy, Debug, PartialEq, Eq, Structural)]
pub enum Field {
    /// The connection string does not name exactly one TCP host.
    Host,
    /// The connection string names no user.
    User,
    /// The stored SDK configuration carries no region.
    Region,
}

/// Errors surfaced to callers of the connection lifecycle manager.
#[derive(Clone, Debug, PartialEq)]
pub enum Error {
    /// A live handle was requested while none is populated; unreachable under
    /// correct sequencing but guarded defensively.
    Unknown,
    /// A reconnect attempt found a malformed or incomplete argument.
    InvalidArg(Field),
    /// The connection string itself could not be parsed.
    Parse(ParseError),
    /// An error reported by the wire-protocol driver, carried as its message.
    TokioPostgres(String),
    /// The token-signing call failed; the reason is carried verbatim.
    TokenError(String),
    /// TLS was required but no TLS support is available.
    TlsConfig,
}

} // verus!
