//! One run of a procedure.

use core::future::Future;
use serde_json::Error as JsonError;
use vstd::prelude::*;
use vstd::string::*;

use crate::constants::error_codes::{
    BUSY_LOOP_BUDGET, DESERIALIZE_PARAMS, SERIALIZE_ERROR_DATA, SERIALIZE_SUCCESS,
};
use crate::constants::POLL_BUDGET;
use crate::host::{
    json_error_displays, json_error_message, sys_err, HostRpcError, HostRpcErrorView, RpcError,
};
use crate::poll::{is_awaited, poll_await, BusyLoopBudgetExceeded};
use crate::text::{joined, decimal, decimal_text};

verus! {

/// A run's outcome, its bytes as a sequence.
pub open spec fn run_view(r: Result<Vec<u8>, HostRpcError>) -> Result<Seq<u8>, HostRpcErrorView> {
    match r {
        Ok(bytes) => Ok(bytes@),
        Err(e) => Err(e@),
    }
}

/// An SDK error: a code, a message and no data.
pub open spec fn sdk_error(code: i32, message: Seq<char>) -> HostRpcErrorView {
    HostRpcErrorView { code, message, data: None }
}

/// Whether `r` is the SDK error with this code whose message is `text` and then the text of a JSON
/// error.
pub open spec fn is_sdk_error_of(
    code: i32,
    text: Seq<char>,
    e: JsonError,
    r: HostRpcErrorView,
) -> bool {
    exists|detail: Seq<char>| #[trigger]
        json_error_displays(e, detail) && r == sdk_error(code, text + detail)
}

/// Whether `r` is the reply to parameters that do not decode.
pub open spec fn is_params_error(e: JsonError, r: HostRpcErrorView) -> bool {
    is_sdk_error_of(DESERIALIZE_PARAMS, "Failed to deserialize params: "@, e, r)
}

/// The reply where the procedure is still pending when the poll budget is spent.
pub open spec fn budget_error() -> HostRpcErrorView {
    sdk_error(
        BUSY_LOOP_BUDGET,
        "procedure exceeded busy-loop budget of "@ + decimal(POLL_BUDGET as nat)
            + " Pending polls"@,
    )
}

/// Whether `r` is the reply where the procedure's result does not encode.
pub open spec fn is_success_error(e: JsonError, r: HostRpcErrorView) -> bool {
    is_sdk_error_of(SERIALIZE_SUCCESS, "Failed to serialize success data: "@, e, r)
}

/// Whether `r` is the reply where the data of the procedure's error does not encode.
pub open spec fn is_error_data_error(e: JsonError, r: HostRpcErrorView) -> bool {
    is_sdk_error_of(SERIALIZE_ERROR_DATA, "Failed to serialize error data: "@, e, r)
}

fn sys_err_of(code: i32, text: &str, err: &JsonError) -> (r: HostRpcError)
    ensures
        is_sdk_error_of(code, text@, *err, r@),
{
    sys_err(code, joined(text, json_error_message(err).as_str()))
}

/// The procedure's parameters, given what decoding them returned.
pub fn decoded_params<P>(decoded: Result<P, JsonError>) -> (r: Result<P, HostRpcError>)
    ensures
        match decoded {
            Ok(p) => r == Ok::<P, HostRpcError>(p),
            Err(e) => r matches Err(x) && is_params_error(e, x@),
        },
{
    match decoded {
        Ok(p) => Ok(p),
        Err(e) => Err(sys_err_of(DESERIALIZE_PARAMS, "Failed to deserialize params: ", &e)),
    }
}

/// The procedure's outcome, given what polling it returned.
pub fn polled_result<T>(polled: Result<T, BusyLoopBudgetExceeded>) -> (r: Result<T, HostRpcError>)
    ensures
        match polled {
            Ok(v) => r == Ok::<T, HostRpcError>(v),
            Err(_) => r matches Err(x) && x@ == budget_error(),
        },
{
    match polled {
        Ok(v) => Ok(v),
        Err(_) => {
            let mut message = joined(
                "procedure exceeded busy-loop budget of ",
                decimal_text(POLL_BUDGET as u128).as_str(),
            );
            message.append(" Pending polls");
            Err(sys_err(BUSY_LOOP_BUDGET, message))
        },
    }
}

/// The reply to a successful run, given what encoding its result returned.
pub fn success_reply(encoded: Result<Vec<u8>, JsonError>) -> (r: Result<Vec<u8>, HostRpcError>)
    ensures
        match encoded {
            Ok(bytes) => run_view(r) == Ok::<Seq<u8>, HostRpcErrorView>(bytes@),
            Err(e) => run_view(r) matches Err(x) && is_success_error(e, x),
        },
{
    match encoded {
        Ok(bytes) => Ok(bytes),
        Err(e) => Err(sys_err_of(SERIALIZE_SUCCESS, "Failed to serialize success data: ", &e)),
    }
}

/// The reply to a run that failed with `code` and `message`, given what encoding the error's data
/// returned, where it has data.
pub fn error_reply(
    code: i32,
    message: String,
    encoded: Option<Result<Vec<u8>, JsonError>>,
) -> (r: HostRpcError)
    ensures
        match encoded {
            None => r@ == sdk_error(code, message@),
            Some(Ok(bytes)) => r@ == (HostRpcErrorView {
                code,
                message: message@,
                data: Some(bytes@),
            }),
            Some(Err(e)) => is_error_data_error(e, r@),
        },
{
    match encoded {
        None => HostRpcError { code, message, data: None },
        Some(Ok(bytes)) => HostRpcError { code, message, data: Some(bytes) },
        Some(Err(e)) => {
            sys_err_of(SERIALIZE_ERROR_DATA, "Failed to serialize error data: ", &e)
        },
    }
}

/// Whether `r` is the reply to a procedure whose outcome is `outcome`.
pub open spec fn replies<
    S,
    E,
    ES: FnOnce(S) -> Result<Vec<u8>, JsonError>,
    EE: FnOnce(E) -> Result<Vec<u8>, JsonError>,
>(
    outcome: Result<S, RpcError<E>>,
    encode_success: ES,
    encode_error: EE,
    r: Result<Seq<u8>, HostRpcErrorView>,
) -> bool {
    match outcome {
        Ok(v) => exists|x: Result<Vec<u8>, JsonError>| #[trigger]
            call_ensures(encode_success, (v,), x) && match x {
                Ok(bytes) => r == Ok::<Seq<u8>, HostRpcErrorView>(bytes@),
                Err(e) => r matches Err(h) && is_success_error(e, h),
            },
        Err(err) => match err.data {
            None => r == Err::<Seq<u8>, HostRpcErrorView>(sdk_error(err.code, err.message@)),
            Some(data) => exists|x: Result<Vec<u8>, JsonError>| #[trigger]
                call_ensures(encode_error, (data,), x) && match x {
                    Ok(bytes) => r == Err::<Seq<u8>, HostRpcErrorView>(
                        HostRpcErrorView {
                            code: err.code,
                            message: err.message@,
                            data: Some(bytes@),
                        },
                    ),
                    Err(e) => r matches Err(h) && is_error_data_error(e, h),
                },
        },
    }
}

/// One run: decodes the parameters, drives the procedure within the poll budget and encodes its
/// outcome. The procedure is not started where the parameters do not decode. Its outcome is what
/// polling the future that it returned came to; the busy-loop error stands for a future that was
/// pending for the whole budget, and for nothing else.
pub fn run<
    P,
    S,
    E,
    D: FnOnce(Vec<u8>) -> Result<P, JsonError>,
    Fut: Future<Output = Result<S, RpcError<E>>>,
    C: FnOnce(P) -> Fut,
    ES: FnOnce(S) -> Result<Vec<u8>, JsonError>,
    EE: FnOnce(E) -> Result<Vec<u8>, JsonError>,
>(params: Vec<u8>, decode: D, procedure: C, encode_success: ES, encode_error: EE) -> (r: Result<
    Vec<u8>,
    HostRpcError,
>)
    requires
        call_requires(decode, (params,)),
        forall|p: P| call_requires(procedure, (p,)),
        forall|v: S| call_requires(encode_success, (v,)),
        forall|v: E| call_requires(encode_error, (v,)),
    ensures
        exists|d: Result<P, JsonError>| #[trigger]
            call_ensures(decode, (params,), d) && match d {
                Err(e) => run_view(r) matches Err(x) && is_params_error(e, x),
                Ok(p) => exists|
                    fut: Fut,
                    polled: Result<Result<S, RpcError<E>>, BusyLoopBudgetExceeded>,
                | #[trigger]
                    call_ensures(procedure, (p,), fut) && #[trigger] is_awaited(fut, polled)
                        && match polled {
                        Err(_) => run_view(r) == Err::<Seq<u8>, HostRpcErrorView>(budget_error()),
                        Ok(outcome) => replies(outcome, encode_success, encode_error, run_view(r)),
                    },
            },
{
    let p = match decoded_params(decode(params)) {
        Ok(p) => p,
        Err(e) => return Err(e),
    };
    let outcome = match polled_result(poll_await(procedure(p))) {
        Ok(outcome) => outcome,
        Err(e) => return Err(e),
    };
    match outcome {
        Ok(v) => success_reply(encode_success(v)),
        Err(RpcError { code, message, data }) => {
            let encoded = match data {
                Some(data) => Some(encode_error(data)),
                None => None,
            };
            Err(error_reply(code, message, encoded))
        },
    }
}

/// The line that a log record becomes, unless a procedure formats its own.
pub fn log_line(level: &str, target: &str, message: &str) -> (r: String)
    ensures
        r@ == level@ + " "@ + target@ + ": "@ + message@,
{
    let mut r = joined(level, " ");
    r.append(target);
    r.append(": ");
    r.append(message);
    r
}

} // verus!
