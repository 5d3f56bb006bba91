use zela_std::constants::error_codes;
use zela_std::host::{
    call_rpc, decode_rpc_error, encode_params, invalid_input, sys_err, HostReply, HostRpcError,
    IoError, RpcError,
};

type JsonResult<T> = Result<T, serde_json::Error>;

fn number(bytes: Vec<u8>) -> JsonResult<u64> {
    serde_json::from_slice(&bytes)
}

fn text(bytes: Vec<u8>) -> JsonResult<String> {
    serde_json::from_slice(&bytes)
}

fn json_error() -> serde_json::Error {
    number(b"{".to_vec()).unwrap_err()
}

fn host_error(data: Option<&[u8]>) -> HostRpcError {
    HostRpcError { code: -7, message: "no".to_string(), data: data.map(|d| d.to_vec()) }
}

#[test]
fn a_successful_call_is_decoded() {
    let reply: HostReply = Ok(Ok(b"42".to_vec()));
    assert_eq!(call_rpc(reply, number, text).unwrap().unwrap(), 42);
}

#[test]
fn a_malformed_result_is_a_transport_failure() {
    let reply: HostReply = Ok(Ok(b"forty-two".to_vec()));
    assert!(matches!(call_rpc(reply, number, text), Err(IoError::InvalidInput(_))));
}

#[test]
fn a_server_error_is_the_inner_layer() {
    let reply: HostReply = Ok(Err(host_error(Some(b"\"why\""))));
    let err = call_rpc(reply, number, text).unwrap().unwrap_err();
    assert_eq!(err, RpcError { code: -7, message: "no".to_string(), data: Some("why".to_string()) });
}

#[test]
fn a_server_error_without_data_is_not_decoded() {
    let reply: HostReply = Ok(Err(host_error(None)));
    let err = call_rpc(reply, number, text).unwrap().unwrap_err();
    assert_eq!(err, RpcError { code: -7, message: "no".to_string(), data: None });
}

#[test]
fn malformed_error_data_is_a_transport_failure() {
    let reply: HostReply = Ok(Err(host_error(Some(b"{"))));
    assert!(matches!(call_rpc(reply, number, text), Err(IoError::InvalidInput(_))));
}

#[test]
fn an_operating_system_error_is_the_outer_layer() {
    let reply: HostReply = Err(111);
    assert!(matches!(call_rpc(reply, number, text), Err(IoError::Os(111))));
}

#[test]
fn rpc_errors_are_typed() {
    let err = decode_rpc_error(host_error(Some(b"5")), number).unwrap();
    assert_eq!((err.code, err.message.as_str(), err.data), (-7, "no", Some(5)));
    assert!(decode_rpc_error(host_error(Some(b"x")), number).is_err());
    assert_eq!(decode_rpc_error(host_error(None), number).unwrap().data, None);
}

#[test]
fn parameters_are_encoded_or_invalid() {
    assert_eq!(encode_params(Ok(b"[1]".to_vec())).unwrap(), b"[1]");
    assert!(matches!(encode_params(Err(json_error())), Err(IoError::InvalidInput(_))));
    assert!(matches!(invalid_input(json_error()), IoError::InvalidInput(_)));
}

#[test]
fn sdk_errors_have_no_data() {
    let err = sys_err(error_codes::DESERIALIZE_PARAMS, "m".to_string());
    assert_eq!(err, HostRpcError { code: 10400, message: "m".to_string(), data: None });
}

#[test]
fn rpc_error_text() {
    let err: RpcError<()> = RpcError { code: -32002, message: "failed".to_string(), data: None };
    assert_eq!(err.to_text(), "RPC error -32002: failed");
    let err: RpcError = RpcError { code: 7, message: String::new(), data: None };
    assert_eq!(err.to_text(), "RPC error 7: ");
}

#[test]
fn error_codes_are_stable() {
    assert_eq!(error_codes::DESERIALIZE_PARAMS, 10400);
    assert_eq!(error_codes::SERIALIZE_SUCCESS, 10500);
    assert_eq!(error_codes::SERIALIZE_ERROR_DATA, 10501);
    assert_eq!(error_codes::HOST_TRANSPORT, 10502);
    assert_eq!(error_codes::BUSY_LOOP_BUDGET, 10508);
}
