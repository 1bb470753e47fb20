use bitcoincore_rpc::rawtx::RawTx;
use bitcoincore_rpc::wire::{empty_arr, empty_obj, null, opt_arg, opt_result, out_point, WireValue};

#[test]
fn owned_hex_string_is_already_canonical() {
    assert_eq!(String::from("deadbeef").raw_hex(), "deadbeef");
}

#[test]
fn borrowed_hex_string_is_already_canonical() {
    assert_eq!("deadbeef".raw_hex(), "deadbeef");
}

#[test]
fn normalization_is_idempotent() {
    // normalizing an already-canonical hex string returns it unchanged
    let bytes: Vec<u8> = vec![0xde, 0xad, 0xbe, 0xef];
    let once = (&bytes).raw_hex();
    let twice = once.clone().raw_hex();
    assert_eq!(once, twice);
}

#[test]
fn byte_buffer_normalizes_to_lowercase_hex() {
    let bytes: Vec<u8> = vec![0xde, 0xad, 0xbe, 0xef];
    assert_eq!((&bytes).raw_hex(), "deadbeef");
    assert_eq!(bytes.as_slice().raw_hex(), "deadbeef");
}

#[test]
fn hex_digits_pair_up_high_nibble_first() {
    let bytes: Vec<u8> = vec![1, 2, 3, 15, 16];
    assert_eq!((&bytes).raw_hex(), "0102030f10");
}

#[test]
fn empty_buffer_normalizes_to_empty_string() {
    let bytes: Vec<u8> = vec![];
    assert_eq!((&bytes).raw_hex(), "");
}

#[test]
fn wire_constructors() {
    assert!(null().is_null());
    assert_eq!(empty_arr(), WireValue::Array(vec![]));
    assert_eq!(empty_obj(), WireValue::Object(vec![]));
}

#[test]
fn out_point_carries_txid_and_vout() {
    assert_eq!(
        out_point(String::from("cafe"), 7),
        WireValue::Object(vec![
            (String::from("txid"), WireValue::Str(String::from("cafe"))),
            (String::from("vout"), WireValue::UInt(7)),
        ])
    );
}

#[test]
fn absent_optional_argument_becomes_null() {
    assert_eq!(opt_arg(None), WireValue::Null);
    assert_eq!(opt_arg(Some(WireValue::Bool(true))), WireValue::Bool(true));
}

#[test]
fn null_result_means_no_such_object() {
    assert_eq!(opt_result(WireValue::Null), None);
    assert_eq!(
        opt_result(WireValue::Str(String::from("tx"))),
        Some(WireValue::Str(String::from("tx")))
    );
}
