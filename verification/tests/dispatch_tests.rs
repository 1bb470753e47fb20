use bitcoincore_rpc::dispatch::{extract_result, RpcResponse};
use bitcoincore_rpc::error::{Error, RemoteFault};
use bitcoincore_rpc::wire::WireValue;

#[test]
fn remote_fault_wins_over_result() {
    // the envelope signals a fault: its code and message surface, the
    // result payload is never looked at
    let resp = RpcResponse {
        result: Some(WireValue::Int(42)),
        error: Some(RemoteFault {
            code: -32601,
            message: String::from("Method not found"),
        }),
    };
    assert_eq!(
        extract_result(resp),
        Err(Error::Rpc(RemoteFault {
            code: -32601,
            message: String::from("Method not found"),
        }))
    );
}

#[test]
fn result_payload_comes_through() {
    let resp = RpcResponse {
        result: Some(WireValue::UInt(500000)),
        error: None,
    };
    assert_eq!(extract_result(resp), Ok(WireValue::UInt(500000)));
}

#[test]
fn absent_result_body_is_null() {
    let resp = RpcResponse {
        result: None,
        error: None,
    };
    assert_eq!(extract_result(resp), Ok(WireValue::Null));
}
