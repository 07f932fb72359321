//! A resilient single-connection client for an IAM-authenticated,
//! PostgreSQL-compatible database service.
//!
//! The service replaces static passwords with short-lived signed tokens, so
//! every new physical connection needs a freshly generated credential. This
//! crate verifies the logic of that lifecycle: parsing connection strings,
//! validating the parameters of a reconnect attempt, choosing the token kind
//! for the connecting user, picking a TLS strategy, and keeping the
//! client/background-task pair of the manager in step. The actual network
//! calls (token signing, TLS handshake, the wire protocol) are performed by
//! an unverified runtime layered on top of these decisions.

pub mod conn;
pub mod error;
pub mod params;
pub mod tls;

pub use conn::Opts;
pub use conn::ReconnectPlan;
pub use conn::SingleConnection;
pub use conn::TokenKind;
pub use error::Error;
pub use error::Field;
pub use params::ConnConfig;
pub use params::Host;
pub use params::ParseError;
pub use params::SslMode;
pub use tls::TlsChoice;
