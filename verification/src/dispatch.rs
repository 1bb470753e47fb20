//! The decision core of the typed call dispatcher: classifying a response
//! envelope. The transport performs the actual request/response exchange and
//! hands the envelope back as plain values; decoding the result payload into
//! a statically typed value is likewise the caller's affair and acts on the
//! wire value this classifier yields.

use vstd::prelude::*;

use crate::error::{Error, RemoteFault};
use crate::wire::WireValue;

verus! {

/// A response envelope as the transport reports it: at most one of a result
/// payload and a remote fault.
#[derive(Debug, PartialEq, Eq)]
pub struct RpcResponse {
    pub result: Option<WireValue>,
    pub error: Option<RemoteFault>,
}

/// Classify a response envelope. A remote fault wins over any result
/// payload and is surfaced with its code and message, not reinterpreted; an
/// absent result body stands for a null result.
pub fn extract_result(resp: RpcResponse) -> (r: Result<WireValue, Error>)
    ensures
        (resp.error matches Some(f) ==> r == Err::<WireValue, Error>(Error::Rpc(f))),
        resp.error is None ==> (resp.result matches Some(v) ==> r == Ok::<WireValue, Error>(v)),
        resp.error is None && resp.result is None ==> r == Ok::<WireValue, Error>(
            WireValue::Null,
        ),
{
    match resp.error {
        Some(f) => Err(Error::Rpc(f)),
        None => match resp.result {
            Some(v) => Ok(v),
            None => Ok(WireValue::Null),
        },
    }
}

} // verus!
