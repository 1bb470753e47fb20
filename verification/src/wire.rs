//! The wire value: the generic, dynamically typed structured representation
//! (null / bool / number / string / array / object) in which arguments are
//! sent and results come back. A null slot in an argument list means either
//! "defaulted" or "intentionally not supplied"; the elision algorithm
//! disambiguates by position.

use vstd::prelude::*;

verus! {

/// A generic structured value as it appears on the wire. Numbers are carried
/// as signed or unsigned integers; fractional amounts are an affair of the
/// remote service's own value types and stay outside the verified core.
#[derive(Debug, PartialEq, Eq)]
pub enum WireValue {
    Null,
    Bool(bool),
    Int(i64),
    UInt(u64),
    Str(String),
    Array(Vec<WireValue>),
    Object(Vec<(String, WireValue)>),
}

impl WireValue {
    /// True exactly on the explicit null marker.
    pub fn is_null(&self) -> (r: bool)
        ensures
            r == (*self is Null),
    {
        match self {
            WireValue::Null => true,
            _ => false,
        }
    }
}

/// The explicit null marker.
pub fn null() -> (r: WireValue)
    ensures
        r is Null,
{
    WireValue::Null
}

/// An empty wire array.
pub fn empty_arr() -> (r: WireValue)
    ensures
        (r matches WireValue::Array(v) && v@ == Seq::<WireValue>::empty()),
{
    WireValue::Array(Vec::new())
}

/// An empty wire object.
pub fn empty_obj() -> (r: WireValue)
    ensures
        (r matches WireValue::Object(v) && v@ == Seq::<(String, WireValue)>::empty()),
{
    WireValue::Object(Vec::new())
}

/// Place an optional argument into its slot: an absent value becomes the
/// explicit null marker, a present value is passed through unchanged.
pub fn opt_arg(opt: Option<WireValue>) -> (r: WireValue)
    ensures
        opt is None ==> r is Null,
        opt matches Some(v) ==> r == v,
{
    match opt {
        Some(v) => v,
        None => WireValue::Null,
    }
}

/// The wire object form of a transaction output reference: the referenced
/// transaction's id and the output's index under the keys `txid` and
/// `vout`.
pub fn out_point(txid: String, vout: u32) -> (r: WireValue)
    ensures
        (r matches WireValue::Object(o) ==> {
            &&& o@.len() == 2
            &&& o@[0].0@ == "txid"@
            &&& o@[0].1 == WireValue::Str(txid)
            &&& o@[1].0@ == "vout"@
            &&& o@[1].1 == WireValue::UInt(vout as u64)
        }),
        r is Object,
{
    let mut fields: Vec<(String, WireValue)> = Vec::new();
    fields.push(("txid".to_owned(), WireValue::Str(txid)));
    fields.push(("vout".to_owned(), WireValue::UInt(vout as u64)));
    WireValue::Object(fields)
}

/// Read a possibly-null result: a null body means "no such object" and
/// becomes an absent value; anything else is present, unchanged.
pub fn opt_result(result: WireValue) -> (r: Option<WireValue>)
    ensures
        result is Null ==> r is None,
        !(result is Null) ==> r == Some(result),
{
    match result {
        WireValue::Null => None,
        v => Some(v),
    }
}

} // verus!
