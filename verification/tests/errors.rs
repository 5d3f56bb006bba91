use solana_rpc_client_types::request as wire;
use solana_rpc_client_types::response::{RpcSimulateTransactionResult, TransactionError};

use zela_std::host::{IoError, RpcError};
use zela_std::rpc_client::error::{ClientRpcError, Error, ErrorKind, RpcResponseErrorData};
use zela_std::rpc_client::request::RpcRequest;

fn json_error() -> serde_json::Error {
    serde_json::from_str::<u64>("x").unwrap_err()
}

struct BrokenReader;

impl std::io::Read for BrokenReader {
    fn read(&mut self, _: &mut [u8]) -> std::io::Result<usize> {
        Err(std::io::Error::from_raw_os_error(5))
    }
}

fn json_io_error() -> serde_json::Error {
    serde_json::from_reader::<_, u64>(BrokenReader).unwrap_err()
}

fn preflight(json: &str) -> RpcSimulateTransactionResult {
    serde_json::from_str(json).unwrap()
}

fn response_error(data: RpcResponseErrorData) -> ErrorKind {
    ErrorKind::RpcError(ClientRpcError::RpcResponseError {
        code: -32002,
        message: "m".to_string(),
        data,
    })
}

#[test]
fn errors_keep_their_request() {
    let err = Error::new_with_request(ErrorKind::Custom("x".to_string()), RpcRequest::GetSlot);
    assert_eq!(err.request(), Some(&RpcRequest::GetSlot));
    assert!(matches!(err.kind(), ErrorKind::Custom(s) if s == "x"));
    let err = err.into_with_request(RpcRequest::GetBlock);
    assert_eq!(err.request(), Some(&RpcRequest::GetBlock));
    assert!(matches!(err.kind(), ErrorKind::Custom(s) if s == "x"));
    assert_eq!(Error::from(IoError::Os(1)).request(), None);
}

#[test]
fn conversions_into_errors() {
    assert!(matches!(Error::from(IoError::Os(1)).kind, ErrorKind::Io(IoError::Os(1))));
    let err = Error::from(ClientRpcError::ForUser("u".to_string()));
    assert!(matches!(err.kind, ErrorKind::RpcError(ClientRpcError::ForUser(_))));
    assert!(matches!(Error::from(json_error()).kind, ErrorKind::SerdeJson(_)));
    let err = Error::from(TransactionError::AccountInUse);
    assert!(matches!(err.kind, ErrorKind::TransactionError(TransactionError::AccountInUse)));
    assert!(matches!(Error::from(ErrorKind::Custom("c".to_string())).kind, ErrorKind::Custom(_)));
    assert!(matches!(ErrorKind::from(IoError::Os(1)), ErrorKind::Io(_)));
    assert!(matches!(ErrorKind::from(json_error()), ErrorKind::SerdeJson(_)));
    let kind = ErrorKind::from(ClientRpcError::ParseError("p".to_string()));
    assert!(matches!(kind, ErrorKind::RpcError(ClientRpcError::ParseError(_))));
    let kind = ErrorKind::from(TransactionError::AccountInUse);
    assert!(matches!(kind, ErrorKind::TransactionError(_)));
}

#[test]
fn on_chain_errors_are_found() {
    let err = Error::from(TransactionError::AccountInUse);
    assert_eq!(err.get_transaction_error(), Some(TransactionError::AccountInUse));
    let failed = preflight("{\"err\":\"BlockhashNotFound\"}");
    let kind = response_error(RpcResponseErrorData::SendTransactionPreflightFailure(failed));
    assert_eq!(kind.get_transaction_error(), Some(TransactionError::BlockhashNotFound));
    let passed = preflight("{\"err\":null}");
    let kind = response_error(RpcResponseErrorData::SendTransactionPreflightFailure(passed));
    assert_eq!(kind.get_transaction_error(), None);
    assert_eq!(response_error(RpcResponseErrorData::Empty).get_transaction_error(), None);
    let unhealthy = RpcResponseErrorData::NodeUnhealthy { num_slots_behind: Some(1) };
    assert_eq!(response_error(unhealthy).get_transaction_error(), None);
    assert_eq!(ErrorKind::Custom("c".to_string()).get_transaction_error(), None);
    assert_eq!(Error::from(json_error()).get_transaction_error(), None);
}

#[test]
fn rpc_error_texts_are_those_of_the_node_types() {
    let s = || "x".to_string();
    assert_eq!(
        ClientRpcError::RpcRequestError(s()).to_text(),
        wire::RpcError::RpcRequestError(s()).to_string()
    );
    assert_eq!(
        ClientRpcError::ParseError(s()).to_text(),
        wire::RpcError::ParseError(s()).to_string()
    );
    assert_eq!(ClientRpcError::ForUser(s()).to_text(), wire::RpcError::ForUser(s()).to_string());
    let simulation = "{\"err\":null,\"logs\":[\"a\",\"b\"]}";
    let ours = ClientRpcError::RpcResponseError {
        code: -32002,
        message: s(),
        data: RpcResponseErrorData::SendTransactionPreflightFailure(preflight(simulation)),
    };
    let theirs = wire::RpcError::RpcResponseError {
        code: -32002,
        message: s(),
        data: wire::RpcResponseErrorData::SendTransactionPreflightFailure(preflight(simulation)),
    };
    assert_eq!(ours.to_text(), theirs.to_string());
    let ours = ClientRpcError::RpcResponseError {
        code: 7,
        message: s(),
        data: RpcResponseErrorData::NodeUnhealthy { num_slots_behind: Some(3) },
    };
    let theirs = wire::RpcError::RpcResponseError {
        code: 7,
        message: s(),
        data: wire::RpcResponseErrorData::NodeUnhealthy { num_slots_behind: Some(3) },
    };
    assert_eq!(ours.to_text(), theirs.to_string());
    assert_eq!(ours.to_text(), "RPC response error 7: x; ");
}

#[test]
fn error_texts() {
    assert_eq!(Error::from(json_error()).to_text(), json_error().to_string());
    let err = Error::from(IoError::InvalidInput(json_error()));
    assert_eq!(err.to_text(), json_error().to_string());
    let err = Error::from(TransactionError::AccountInUse);
    assert_eq!(err.to_text(), TransactionError::AccountInUse.to_string());
    assert_eq!(Error::from(ErrorKind::Custom("c".to_string())).to_text(), "Custom: c");
    assert_eq!(
        Error::from(IoError::Os(13)).to_text(),
        std::io::Error::from_raw_os_error(13).to_string()
    );
}

#[test]
fn texts_of_the_operating_system() {
    let system = std::io::Error::from_raw_os_error(5).to_string();
    assert!(!system.is_empty());
    assert!(json_io_error().is_io());
    assert_eq!(IoError::Os(5).to_text(), system);
    assert_eq!(IoError::InvalidInput(json_io_error()).to_text(), system);
    assert_eq!(Error::from(json_io_error()).to_text(), system);
    let err: RpcError<u8> = RpcError::from(Error::from(IoError::Os(5)));
    assert_eq!(err, RpcError { code: 10502, message: system, data: None });
}

#[test]
fn client_errors_become_procedure_errors() {
    let err: RpcError<u8> = RpcError::from(Error::from(ErrorKind::Custom("c".to_string())));
    assert_eq!(err, RpcError { code: 10502, message: "Custom: c".to_string(), data: None });
}
