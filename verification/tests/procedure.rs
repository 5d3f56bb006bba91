use std::cell::Cell;
use std::future::{pending, ready, Future};

use zela_std::host::{HostRpcError, RpcError};
use zela_std::poll::BusyLoopBudgetExceeded;
use zela_std::procedure::{
    decoded_params, error_reply, log_line, polled_result, run, success_reply,
};

type JsonResult<T> = Result<T, serde_json::Error>;
type Outcome = Result<u64, RpcError<String>>;

fn params(bytes: Vec<u8>) -> JsonResult<u64> {
    serde_json::from_slice(&bytes)
}

fn encode_u64(v: u64) -> JsonResult<Vec<u8>> {
    serde_json::to_vec(&v)
}

fn encode_string(v: String) -> JsonResult<Vec<u8>> {
    serde_json::to_vec(&v)
}

fn json_error() -> serde_json::Error {
    params(b"\"x\"".to_vec()).unwrap_err()
}

fn run_with<F: Future<Output = Outcome>>(
    bytes: &[u8],
    procedure: impl FnOnce(u64) -> F,
) -> Result<Vec<u8>, HostRpcError> {
    run(bytes.to_vec(), params, procedure, encode_u64, encode_string)
}

#[test]
fn a_run_replies_with_the_encoded_result() {
    assert_eq!(run_with(b"20", |p| ready(Ok(p + 1))).unwrap(), b"21");
}

#[test]
fn a_run_replies_with_the_procedure_error() {
    let err = run_with(b"20", |_| {
        ready(Err(RpcError { code: 3, message: "no".to_string(), data: Some("d".to_string()) }))
    });
    assert_eq!(
        err.unwrap_err(),
        HostRpcError { code: 3, message: "no".to_string(), data: Some(b"\"d\"".to_vec()) }
    );
    let err = run_with(b"20", |_| {
        ready(Err(RpcError { code: 3, message: "no".to_string(), data: None }))
    });
    assert_eq!(err.unwrap_err(), HostRpcError { code: 3, message: "no".to_string(), data: None });
}

#[test]
fn malformed_params_do_not_start_the_procedure() {
    let started = Cell::new(false);
    let err = run_with(b"\"x\"", |_| {
        started.set(true);
        ready(Ok(0))
    })
    .unwrap_err();
    assert!(!started.get());
    assert_eq!(err.code, 10400);
    assert_eq!(err.message, format!("Failed to deserialize params: {}", json_error()));
    assert_eq!(err.data, None);
}

#[test]
fn a_runaway_procedure_is_aborted() {
    let err = run_with(b"1", |_| pending::<Outcome>()).unwrap_err();
    assert_eq!(
        err,
        HostRpcError {
            code: 10508,
            message: "procedure exceeded busy-loop budget of 1000000 Pending polls".to_string(),
            data: None,
        }
    );
}

#[test]
fn an_error_with_the_busy_loop_code_is_handed_on() {
    let own = || RpcError { code: 10508, message: "mine".to_string(), data: None };
    let err = run_with(b"1", |_| ready(Err(own()))).unwrap_err();
    assert_eq!(err, HostRpcError { code: 10508, message: "mine".to_string(), data: None });
}

#[test]
fn a_result_that_does_not_encode() {
    let refuse = |_: u64| -> JsonResult<Vec<u8>> { Err(json_error()) };
    let err = run(b"1".to_vec(), params, |p| ready::<Outcome>(Ok(p)), refuse, encode_string);
    let err = err.unwrap_err();
    assert_eq!(err.code, 10500);
    assert_eq!(err.message, format!("Failed to serialize success data: {}", json_error()));
}

#[test]
fn error_data_that_does_not_encode() {
    let refuse = |_: String| -> JsonResult<Vec<u8>> { Err(json_error()) };
    let failing = |_: u64| {
        ready::<Outcome>(Err(RpcError {
            code: 3,
            message: "no".to_string(),
            data: Some("d".to_string()),
        }))
    };
    let err = run(b"1".to_vec(), params, failing, encode_u64, refuse).unwrap_err();
    assert_eq!(err.code, 10501);
    assert_eq!(err.message, format!("Failed to serialize error data: {}", json_error()));
    assert_eq!(err.data, None);
}

#[test]
fn the_steps_of_a_run() {
    assert_eq!(decoded_params(Ok(5)).unwrap(), 5);
    assert_eq!(decoded_params::<u8>(Err(json_error())).unwrap_err().code, 10400);
    assert_eq!(polled_result(Ok('c')).unwrap(), 'c');
    assert_eq!(polled_result::<u8>(Err(BusyLoopBudgetExceeded)).unwrap_err().code, 10508);
    assert_eq!(success_reply(Ok(vec![1])).unwrap(), vec![1]);
    assert_eq!(success_reply(Err(json_error())).unwrap_err().code, 10500);
    let plain = error_reply(9, "m".to_string(), None);
    assert_eq!(plain, HostRpcError { code: 9, message: "m".to_string(), data: None });
    let with_data = error_reply(9, "m".to_string(), Some(Ok(vec![2])));
    assert_eq!(with_data, HostRpcError { code: 9, message: "m".to_string(), data: Some(vec![2]) });
    assert_eq!(error_reply(9, "m".to_string(), Some(Err(json_error()))).code, 10501);
}

#[test]
fn log_records_become_lines() {
    assert_eq!(log_line("INFO", "zela", "started"), "INFO zela: started");
}

#[test]
fn an_echo_replies_with_its_params() {
    let json = b"{\"a\":[1,null,\"x\"]}";
    let decode = |bytes: Vec<u8>| serde_json::from_slice::<serde_json::Value>(&bytes);
    let echo = |p: serde_json::Value| ready::<Result<serde_json::Value, RpcError<()>>>(Ok(p));
    let reply = run(
        json.to_vec(),
        decode,
        echo,
        |v: serde_json::Value| serde_json::to_vec(&v),
        |v: ()| serde_json::to_vec(&v),
    );
    assert_eq!(reply.unwrap(), json);
}
