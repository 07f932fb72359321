//! The TLS strategy of a manager.
//!
//! The connector object itself — certificate probing, the handshake — is
//! built and driven by the unverified runtime. What is verified here is the
//! choice: which strategy a deployment gets for its requested TLS mode, and
//! that missing TLS support is never downgraded silently — a deployment that
//! requires TLS fails loudly at construction instead.

use crate::error::Error;
use crate::params::SslMode;
use vstd::prelude::*;

verus! {

/// The runtime strategy used to wrap the transport.
#[derive(Clone, Copy, Debug, PartialEq, Eq, Structural)]
pub enum TlsChoice {
    /// Wrap the transport with TLS.
    Secure,
    /// Use the transport as-is. Chosen only when the connection string
    /// explicitly disabled TLS, or preferred it while none is available.
    Plaintext,
}

/// Which strategy a TLS mode yields when TLS support is or is not
/// available; `Err` means construction must fail.
pub open spec fn tls_plan_spec(mode: SslMode, tls_available: bool) -> Result<TlsChoice, ()> {
    match mode {
        SslMode::Disable => Ok(TlsChoice::Plaintext),
        SslMode::Prefer => if tls_available {
            Ok(TlsChoice::Secure)
        } else {
            Ok(TlsChoice::Plaintext)
        },
        SslMode::Require => if tls_available {
            Ok(TlsChoice::Secure)
        } else {
            Err(())
        },
    }
}

/// Chooses the TLS strategy for one manager, built once and reused across
/// its reconnects. TLS that is merely preferred falls back to plaintext
/// when unavailable; TLS that is required fails construction with
/// [`Error::TlsConfig`] instead of downgrading.
pub fn tls_plan(mode: SslMode, tls_available: bool) -> (r: Result<TlsChoice, Error>)
    ensures
        match tls_plan_spec(mode, tls_available) {
            Ok(ch) => r == Ok::<TlsChoice, Error>(ch),
            Err(u) => r == Err::<TlsChoice, Error>(Error::TlsConfig),
        },
{
    match mode {
        SslMode::Disable => Ok(TlsChoice::Plaintext),
        SslMode::Prefer => {
            if tls_available {
                Ok(TlsChoice::Secure)
            } else {
                Ok(TlsChoice::Plaintext)
            }
        },
        SslMode::Require => {
            if tls_available {
                Ok(TlsChoice::Secure)
            } else {
                Err(Error::TlsConfig)
            }
        },
    }
}

} // verus!
