//! Shared TLS connectors for the shards of one gateway client.
//!
//! A [`TlsContainer`] is built once, from an explicit [`Backend`] choice, and
//! cloned out to every shard. For each connection a shard asks it for the
//! address to dial and a handle to the one connector that all shards share.

pub mod error;
pub mod gateway_url;
pub mod backend;
pub mod container;

pub use backend::{Backend, TrustSource};
pub use container::TlsContainer;
pub use error::{TlsError, TlsErrorSource, TlsErrorType};
pub use gateway_url::GatewayUrl;
