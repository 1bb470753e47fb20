//! The library's error taxonomy: every failure of a call is surfaced as a
//! typed, inspectable value of `Error`. A programming-contract violation
//! during argument elision is deliberately not here; it is a defect of the
//! calling code path, not a runtime error (see the elision module).

use vstd::prelude::*;

verus! {

/// An application-level error reported by the remote service inside an
/// otherwise well-formed response envelope, propagated with its code and
/// message and not reinterpreted.
#[derive(Debug, Clone, PartialEq, Eq)]
pub struct RemoteFault {
    pub code: i32,
    pub message: String,
}

/// What can go wrong in a call or while resolving credentials.
#[derive(Debug, Clone, PartialEq, Eq)]
pub enum Error {
    /// The underlying call could not be completed, or the server returned a
    /// malformed envelope. Carries the transport's own description.
    Transport(String),
    /// The server executed the request but reported an application-level
    /// error.
    Rpc(RemoteFault),
    /// The response payload does not match the statically expected shape.
    Decode(String),
    /// The cookie file is missing or unreadable. Carries the I/O error's
    /// description.
    Io(String),
    /// The cookie file's content lacks the required `:` delimiter.
    InvalidCookieFile,
}

} // verus!
