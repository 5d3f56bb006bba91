//! Replies of the host.
//!
//! The host answers a call in two layers: the outer one is transport, the inner one is the RPC
//! server's answer. Both carry JSON as raw bytes.

use serde_json::{Error as JsonError, Value};
use vstd::prelude::*;
use vstd::string::*;

use crate::bindings::{
    json_error_is_io, json_error_text, json_error_to_string, os_error_to_string,
};
use crate::text::{joined, signed_decimal, signed_decimal_text};

verus! {

/// An RPC error as the host hands it over: its data is JSON text.
#[derive(Debug, Clone, PartialEq, Eq)]
pub struct HostRpcError {
    pub code: i32,
    pub message: String,
    pub data: Option<Vec<u8>>,
}

/// An RPC error of the host, its strings and bytes as sequences.
pub ghost struct HostRpcErrorView {
    pub code: i32,
    pub message: Seq<char>,
    pub data: Option<Seq<u8>>,
}

impl View for HostRpcError {
    type V = HostRpcErrorView;

    open spec fn view(&self) -> HostRpcErrorView {
        HostRpcErrorView {
            code: self.code,
            message: self.message@,
            data: match self.data {
                Some(bytes) => Some(bytes@),
                None => None,
            },
        }
    }
}

/// What the host's `call-rpc` import returns: an operating-system error code where the transport
/// failed, else the server's error or its result as JSON text.
pub type HostReply = Result<Result<Vec<u8>, HostRpcError>, i32>;

/// A transport failure.
#[derive(Debug)]
pub enum IoError {
    /// The data is not the JSON that was expected.
    InvalidInput(JsonError),
    /// The host reported an operating-system error code.
    Os(i32),
}

/// Whether `text` is what a JSON error that holds an I/O error displayed when it was asked. The same
/// error may display another text elsewhere: it can be the operating system's.
pub closed spec fn json_io_error_displays(err: JsonError, text: Seq<char>) -> bool {
    exists|r: Result<String, String>| #[trigger]
        call_ensures(json_error_to_string, (&err,), r) && r is Err && r->Err_0@ == text
}

/// Whether `text` is the text of a JSON error.
pub open spec fn json_error_displays(err: JsonError, text: Seq<char>) -> bool {
    if json_error_is_io(err) {
        json_io_error_displays(err, text)
    } else {
        text == json_error_text(err)
    }
}

/// Whether `text` is what the operating system said of an error code when it was asked.
pub closed spec fn os_error_displays(code: i32, text: Seq<char>) -> bool {
    exists|r: String| #[trigger] call_ensures(os_error_to_string, (code,), r) && r@ == text
}

/// Whether `text` is the text of a transport failure.
pub open spec fn io_error_displays(err: IoError, text: Seq<char>) -> bool {
    match err {
        IoError::InvalidInput(e) => json_error_displays(e, text),
        IoError::Os(code) => os_error_displays(code, text),
    }
}

/// The text of a JSON error.
pub(crate) fn json_error_message(err: &JsonError) -> (r: String)
    ensures
        json_error_displays(*err, r@),
{
    let to_string = json_error_to_string;
    match to_string(err) {
        Ok(text) => text,
        Err(text) => text,
    }
}

impl IoError {
    /// The failure as text. An operating-system error has the text that the system gives it.
    pub fn to_text(&self) -> (r: String)
        ensures
            io_error_displays(*self, r@),
    {
        let os_text = os_error_to_string;
        match self {
            IoError::InvalidInput(e) => json_error_message(e),
            IoError::Os(code) => os_text(*code),
        }
    }
}

/// Error emitted by a procedure or by the SDK. See
/// [`error_codes`](crate::constants::error_codes) for the `1XXXX` SDK-reserved range.
#[derive(Debug, Clone, PartialEq, Eq)]
pub struct RpcError<E = Value> {
    pub code: i32,
    pub message: String,
    pub data: Option<E>,
}

impl<E> RpcError<E> {
    /// The error as one line of text.
    pub fn to_text(&self) -> (r: String)
        ensures
            r@ == "RPC error "@ + signed_decimal(self.code as int) + ": "@ + self.message@,
    {
        let mut r = joined("RPC error ", signed_decimal_text(self.code as i64).as_str());
        r.append(": ");
        r.append(self.message.as_str());
        r
    }
}

/// The transport failure that malformed JSON counts as.
pub fn invalid_input(err: JsonError) -> (r: IoError)
    ensures
        r == IoError::InvalidInput(err),
{
    IoError::InvalidInput(err)
}

/// The bytes of a request's parameters, given what encoding them as JSON returned.
pub fn encode_params(encoded: Result<Vec<u8>, JsonError>) -> (r: Result<Vec<u8>, IoError>)
    ensures
        r == match encoded {
            Ok(bytes) => Ok::<Vec<u8>, IoError>(bytes),
            Err(e) => Err(IoError::InvalidInput(e)),
        },
{
    match encoded {
        Ok(bytes) => Ok(bytes),
        Err(e) => Err(invalid_input(e)),
    }
}

/// An SDK error without data.
pub fn sys_err(code: i32, message: String) -> (r: HostRpcError)
    ensures
        r == (HostRpcError { code, message, data: None }),
{
    HostRpcError { code, message, data: None }
}

/// The typed form of a host error whose data decoded to `decoded`.
pub open spec fn rpc_error_with<E>(err: HostRpcError, decoded: Result<E, JsonError>) -> Result<
    RpcError<E>,
    IoError,
> {
    match decoded {
        Ok(v) => Ok(RpcError { code: err.code, message: err.message, data: Some(v) }),
        Err(e) => Err(IoError::InvalidInput(e)),
    }
}

/// The typed form of a host error without data.
pub open spec fn rpc_error_without<E>(err: HostRpcError) -> RpcError<E> {
    RpcError { code: err.code, message: err.message, data: None }
}

/// Whether `r` is the typed form of `err`, its data decoded with `decode`.
pub open spec fn decodes_rpc_error<E, G: FnOnce(Vec<u8>) -> Result<E, JsonError>>(
    err: HostRpcError,
    decode: G,
    r: Result<RpcError<E>, IoError>,
) -> bool {
    match err.data {
        None => r == Ok::<RpcError<E>, IoError>(rpc_error_without(err)),
        Some(bytes) => exists|d: Result<E, JsonError>| #[trigger]
            call_ensures(decode, (bytes,), d) && r == rpc_error_with(err, d),
    }
}

/// Host-side error (bytes in `data`) to a typed [`RpcError`], its data decoded with `decode`.
pub fn decode_rpc_error<E, G: FnOnce(Vec<u8>) -> Result<E, JsonError>>(
    err: HostRpcError,
    decode: G,
) -> (r: Result<RpcError<E>, IoError>)
    requires
        forall|bytes: Vec<u8>| call_requires(decode, (bytes,)),
    ensures
        decodes_rpc_error(err, decode, r),
{
    let HostRpcError { code, message, data } = err;
    match data {
        None => Ok(RpcError { code, message, data: None }),
        Some(bytes) => match decode(bytes) {
            Ok(v) => Ok(RpcError { code, message, data: Some(v) }),
            Err(e) => Err(invalid_input(e)),
        },
    }
}

/// The result of a raw JSON-RPC call, made of the host's reply. Two layers, as in the host's
/// interface: the outer `Err` is transport, the inner `Err` is an error that the server returned,
/// `Ok(Ok(_))` is success. For Solana methods use
/// [`RpcClient`](crate::rpc_client::client::RpcClient), which flattens both layers.
pub fn call_rpc<
    Rs,
    Re,
    F: FnOnce(Vec<u8>) -> Result<Rs, JsonError>,
    G: FnOnce(Vec<u8>) -> Result<Re, JsonError>,
>(reply: HostReply, decode: F, decode_data: G) -> (r: Result<Result<Rs, RpcError<Re>>, IoError>)
    requires
        forall|bytes: Vec<u8>| call_requires(decode, (bytes,)),
        forall|bytes: Vec<u8>| call_requires(decode_data, (bytes,)),
    ensures
        match reply {
            Err(code) => r == Err::<Result<Rs, RpcError<Re>>, IoError>(IoError::Os(code)),
            Ok(Ok(bytes)) => exists|d: Result<Rs, JsonError>| #[trigger]
                call_ensures(decode, (bytes,), d) && r == match d {
                    Ok(v) => Ok::<Result<Rs, RpcError<Re>>, IoError>(Ok(v)),
                    Err(e) => Err(IoError::InvalidInput(e)),
                },
            Ok(Err(err)) => exists|d: Result<RpcError<Re>, IoError>| #[trigger]
                decodes_rpc_error(err, decode_data, d) && r == match d {
                    Ok(v) => Ok::<Result<Rs, RpcError<Re>>, IoError>(Err(v)),
                    Err(e) => Err(e),
                },
        },
{
    match reply {
        Ok(Ok(bytes)) => match decode(bytes) {
            Ok(v) => Ok(Ok(v)),
            Err(e) => Err(invalid_input(e)),
        },
        Ok(Err(err)) => match decode_rpc_error(err, decode_data) {
            Ok(v) => Ok(Err(v)),
            Err(e) => Err(e),
        },
        Err(code) => Err(IoError::Os(code)),
    }
}

/// The text of an I/O error is what that very error displayed, that of an error code what the
/// system said of that very code.
pub(crate) proof fn system_texts_are_of_their_errors(err: JsonError, code: i32, text: Seq<char>)
    ensures
        json_io_error_displays(err, text) ==> exists|r: Result<String, String>| #[trigger]
            call_ensures(json_error_to_string, (&err,), r) && r is Err && r->Err_0@ == text,
        os_error_displays(code, text) ==> exists|r: String| #[trigger]
            call_ensures(os_error_to_string, (code,), r) && r@ == text,
{
}

} // verus!
