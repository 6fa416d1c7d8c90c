//! HTTP transport core for JSON-RPC clients.
//!
//! Callers obtain an [`HttpHandle`] for a destination address from an
//! [`HttpTransport`], submit byte payloads through it and receive either the
//! response bytes or a [`TransportError`]. The transport owns the producer
//! side of the request queue and the counter that call identifiers are drawn
//! from; the [`Dispatcher`] is the consumer side's bookkeeping: it pairs every
//! accepted request with its response slot and settles each slot exactly once.

pub mod builder;
pub mod channel;
pub mod dispatch;
pub mod error;
pub mod ident;
pub mod request;
pub mod runs;
pub mod transport;

pub use builder::{DefaultClientBuilder, DefaultTlsClientBuilder, HttpTransportBuilder};
pub use dispatch::Dispatcher;
pub use error::{ErrorKind, TransportError};
pub use transport::{HttpHandle, HttpTransport};
