//! Raw-transaction payloads. Several source representations (a hex string,
//! an owned string, a raw byte buffer) converge on one canonical lowercase
//! hex form before transmission; nothing about the transaction's structure
//! is validated here, that is the remote service's responsibility.

use vstd::prelude::*;

verus! {

/// The lowercase hexadecimal digit of a nibble.
pub open spec fn hex_digit(n: u8) -> char
    recommends
        n < 16,
{
    if n < 10 {
        ((n + 48) as char)
    } else {
        ((n + 87) as char)
    }
}

/// The lowercase hexadecimal rendering of a byte string: two digits per
/// byte, high nibble first, in input order.
pub open spec fn hex_of(bytes: Seq<u8>) -> Seq<char> {
    Seq::new(
        bytes.len() * 2,
        |i: int|
            if i % 2 == 0 {
                hex_digit(bytes[i / 2] >> 4u8)
            } else {
                hex_digit(bytes[i / 2] & 0x0fu8)
            },
    )
}

/// Relies on hex::encode: it renders each input byte, in order, as two
/// lowercase hexadecimal digits, high nibble first.
#[verifier::external_body]
fn hex_encode(bytes: &[u8]) -> (r: String)
    ensures
        r@ == hex_of(bytes@),
{
    hex::encode(bytes)
}

/// Used to pass raw transactions into the API: anything that can be
/// rendered to the canonical hex form.
pub trait RawTx: Sized {
    /// The canonical hex string this value normalizes to.
    spec fn hex_view(&self) -> Seq<char>;

    /// Normalize to the canonical hex string.
    fn raw_hex(self) -> (r: String)
        ensures
            r@ == self.hex_view(),
    ;
}

/// An already-hex string is its own canonical form: normalization returns
/// it unchanged.
impl RawTx for String {
    open spec fn hex_view(&self) -> Seq<char> {
        self@
    }

    fn raw_hex(self) -> (r: String) {
        self
    }
}

/// A borrowed hex string is its own canonical form, copied as given.
impl<'a> RawTx for &'a str {
    open spec fn hex_view(&self) -> Seq<char> {
        self@
    }

    fn raw_hex(self) -> (r: String) {
        self.to_owned()
    }
}

/// A raw byte buffer normalizes to its hex rendering.
impl<'a> RawTx for &'a [u8] {
    open spec fn hex_view(&self) -> Seq<char> {
        hex_of(self@)
    }

    fn raw_hex(self) -> (r: String) {
        hex_encode(self)
    }
}

/// An owned byte buffer normalizes to its hex rendering.
impl<'a> RawTx for &'a Vec<u8> {
    open spec fn hex_view(&self) -> Seq<char> {
        hex_of(self@)
    }

    fn raw_hex(self) -> (r: String) {
        hex_encode(self.as_slice())
    }
}

} // verus!
