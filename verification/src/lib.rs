//! A typed client library for a JSON-RPC service in the style of the Bitcoin
//! Core daemon's control API.
//!
//! The verified core consists of the wire-value model, the trailing-default
//! elision algorithm for positional arguments, the authentication-credential
//! resolver, the response-envelope classifier of the call dispatcher, and the
//! raw-transaction hex normalization helpers. Network transport and typed
//! (de)serialization are external collaborators, reached from unverified glue
//! that hands plain values to this crate.

pub mod auth;
pub mod dispatch;
pub mod elision;
pub mod error;
pub mod rawtx;
pub mod wire;

pub use auth::Auth;
pub use dispatch::RpcResponse;
pub use elision::{handle_defaults, try_handle_defaults, MissingDefault};
pub use error::{Error, RemoteFault};
pub use rawtx::RawTx;
pub use wire::WireValue;
