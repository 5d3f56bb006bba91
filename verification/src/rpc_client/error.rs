//! Client errors.

use serde_json::Error as JsonError;
use solana_rpc_client_types::response::{RpcSimulateTransactionResult, TransactionError};
use vstd::prelude::*;
use vstd::std_specs::convert::FromSpecImpl;
use vstd::string::*;

use crate::bindings::{
    clone_transaction_error, error_data_text, error_data_to_string, get_simulation_error,
    simulation_error, transaction_error_text, transaction_error_to_string,
};
use crate::constants::error_codes::HOST_TRANSPORT;
use crate::host::{
    io_error_displays, json_error_displays, json_error_message, IoError, RpcError,
};
use crate::rpc_client::request::RpcRequest;
use crate::text::{joined, signed_decimal, signed_decimal_text};

verus! {

/// Structured data of a JSON-RPC error.
#[derive(Debug)]
pub enum RpcResponseErrorData {
    Empty,
    SendTransactionPreflightFailure(RpcSimulateTransactionResult),
    NodeUnhealthy { num_slots_behind: Option<u64> },
}

/// An error of a JSON-RPC exchange.
#[derive(Debug)]
pub enum ClientRpcError {
    RpcRequestError(String),
    RpcResponseError { code: i64, message: String, data: RpcResponseErrorData },
    ParseError(String),
    ForUser(String),
}

/// An error of a JSON-RPC exchange, its strings as sequences of characters.
pub ghost enum ClientRpcErrorView {
    RpcRequestError(Seq<char>),
    RpcResponseError { code: i64, message: Seq<char>, data: RpcResponseErrorData },
    ParseError(Seq<char>),
    ForUser(Seq<char>),
}

impl View for ClientRpcError {
    type V = ClientRpcErrorView;

    open spec fn view(&self) -> ClientRpcErrorView {
        match *self {
            ClientRpcError::RpcRequestError(s) => ClientRpcErrorView::RpcRequestError(s@),
            ClientRpcError::RpcResponseError { code, message, data } => {
                ClientRpcErrorView::RpcResponseError { code, message: message@, data }
            },
            ClientRpcError::ParseError(s) => ClientRpcErrorView::ParseError(s@),
            ClientRpcError::ForUser(s) => ClientRpcErrorView::ForUser(s@),
        }
    }
}

/// What kind of failure the [`Error`] wraps.
#[derive(Debug)]
pub enum ErrorKind {
    Io(IoError),
    RpcError(ClientRpcError),
    SerdeJson(JsonError),
    TransactionError(TransactionError),
    Custom(String),
}

/// A failure, its strings as sequences of characters.
pub ghost enum ErrorKindView {
    Io(IoError),
    RpcError(ClientRpcErrorView),
    SerdeJson(JsonError),
    TransactionError(TransactionError),
    Custom(Seq<char>),
}

impl View for ErrorKind {
    type V = ErrorKindView;

    open spec fn view(&self) -> ErrorKindView {
        match *self {
            ErrorKind::Io(e) => ErrorKindView::Io(e),
            ErrorKind::RpcError(e) => ErrorKindView::RpcError(e@),
            ErrorKind::SerdeJson(e) => ErrorKindView::SerdeJson(e),
            ErrorKind::TransactionError(e) => ErrorKindView::TransactionError(e),
            ErrorKind::Custom(s) => ErrorKindView::Custom(s@),
        }
    }
}

/// A client error and the request that it answers, where one is known.
#[derive(Debug)]
pub struct Error {
    pub request: Option<RpcRequest>,
    pub kind: ErrorKind,
}

/// A client error, its strings as sequences of characters.
pub ghost struct ErrorView {
    pub request: Option<RpcRequest>,
    pub kind: ErrorKindView,
}

impl View for Error {
    type V = ErrorView;

    open spec fn view(&self) -> ErrorView {
        ErrorView { request: self.request, kind: self.kind@ }
    }
}

/// `Result` of a client call.
pub type ClientResult<T> = core::result::Result<T, Error>;

/// The result of a client call, its error's strings as sequences of characters.
pub open spec fn client_view<T>(r: ClientResult<T>) -> core::result::Result<T, ErrorView> {
    match r {
        Ok(v) => Ok(v),
        Err(e) => Err(e@),
    }
}

/// An error with a message for the user and no request.
pub open spec fn for_user(message: Seq<char>) -> ErrorView {
    ErrorView { request: None, kind: ErrorKindView::RpcError(ClientRpcErrorView::ForUser(message)) }
}

/// An error with a message of the client's own and no request.
pub open spec fn custom(message: Seq<char>) -> ErrorView {
    ErrorView { request: None, kind: ErrorKindView::Custom(message) }
}

/// A reply that is not what was expected, without a request.
pub open spec fn parse_error(expected: Seq<char>) -> ErrorView {
    ErrorView {
        request: None,
        kind: ErrorKindView::RpcError(ClientRpcErrorView::ParseError(expected)),
    }
}

/// JSON that does not decode, without a request.
pub open spec fn json_error(err: JsonError) -> ErrorView {
    ErrorView { request: None, kind: ErrorKindView::SerdeJson(err) }
}

impl ErrorView {
    /// The same failure, as the answer to `request`.
    pub open spec fn with_request(self, request: RpcRequest) -> ErrorView {
        ErrorView { request: Some(request), kind: self.kind }
    }

    /// The same failure, without the data that the server sent with it.
    pub open spec fn without_data(self) -> ErrorView {
        match self.kind {
            ErrorKindView::RpcError(
                ClientRpcErrorView::RpcResponseError { code, message, .. },
            ) => ErrorView {
                request: self.request,
                kind: ErrorKindView::RpcError(
                    ClientRpcErrorView::RpcResponseError {
                        code,
                        message,
                        data: RpcResponseErrorData::Empty,
                    },
                ),
            },
            _ => self,
        }
    }
}

/// The on-chain error in a failure, where it holds one.
pub open spec fn transaction_error(kind: ErrorKindView) -> Option<TransactionError> {
    match kind {
        ErrorKindView::TransactionError(e) => Some(e),
        ErrorKindView::RpcError(
            ClientRpcErrorView::RpcResponseError {
                data: RpcResponseErrorData::SendTransactionPreflightFailure(result),
                ..
            },
        ) => simulation_error(result),
        _ => None,
    }
}

impl ErrorKind {
    /// The on-chain error behind this failure: the error itself, or the one that a failed
    /// preflight simulation reports.
    pub fn get_transaction_error(&self) -> (r: Option<TransactionError>)
        ensures
            r == transaction_error(self@),
    {
        match self {
            ErrorKind::TransactionError(e) => Some(clone_transaction_error(e)),
            ErrorKind::RpcError(ClientRpcError::RpcResponseError { data, .. }) => match data {
                RpcResponseErrorData::SendTransactionPreflightFailure(result) => {
                    get_simulation_error(result)
                },
                _ => None,
            },
            _ => None,
        }
    }
}

impl Error {
    /// A failure, as the answer to `request`.
    pub fn new_with_request(kind: ErrorKind, request: RpcRequest) -> (r: Error)
        ensures
            r == (Error { request: Some(request), kind }),
    {
        Error { request: Some(request), kind }
    }

    /// The same failure, as the answer to `request`.
    pub fn into_with_request(self, request: RpcRequest) -> (r: Error)
        ensures
            r == (Error { request: Some(request), kind: self.kind }),
            r@ == self@.with_request(request),
    {
        Error { request: Some(request), kind: self.kind }
    }

    /// The same failure, without the data that the server sent with it.
    pub(crate) fn without_data(self) -> (r: Error)
        ensures
            r@ == self@.without_data(),
    {
        let Error { request, kind } = self;
        match kind {
            ErrorKind::RpcError(ClientRpcError::RpcResponseError { code, message, .. }) => {
                let data = RpcResponseErrorData::Empty;
                let err = ClientRpcError::RpcResponseError { code, message, data };
                Error { request, kind: ErrorKind::RpcError(err) }
            },
            kind => Error { request, kind },
        }
    }

    /// The request that this error answers, where it is known.
    pub fn request(&self) -> (r: Option<&RpcRequest>)
        ensures
            r == match self.request {
                Some(request) => Some(&request),
                None => None,
            },
    {
        match &self.request {
            Some(request) => Some(request),
            None => None,
        }
    }

    /// What kind of failure this is.
    pub fn kind(&self) -> (r: &ErrorKind)
        ensures
            *r == self.kind,
    {
        &self.kind
    }

    /// The on-chain error behind this error, where there is one.
    pub fn get_transaction_error(&self) -> (r: Option<TransactionError>)
        ensures
            r == transaction_error(self@.kind),
    {
        self.kind.get_transaction_error()
    }
}

impl From<IoError> for ErrorKind {
    fn from(err: IoError) -> (r: ErrorKind) {
        ErrorKind::Io(err)
    }
}

impl FromSpecImpl<IoError> for ErrorKind {
    open spec fn obeys_from_spec() -> bool {
        true
    }

    open spec fn from_spec(err: IoError) -> ErrorKind {
        ErrorKind::Io(err)
    }
}

impl From<ClientRpcError> for ErrorKind {
    fn from(err: ClientRpcError) -> (r: ErrorKind) {
        ErrorKind::RpcError(err)
    }
}

impl FromSpecImpl<ClientRpcError> for ErrorKind {
    open spec fn obeys_from_spec() -> bool {
        true
    }

    open spec fn from_spec(err: ClientRpcError) -> ErrorKind {
        ErrorKind::RpcError(err)
    }
}

impl From<JsonError> for ErrorKind {
    fn from(err: JsonError) -> (r: ErrorKind) {
        ErrorKind::SerdeJson(err)
    }
}

impl FromSpecImpl<JsonError> for ErrorKind {
    open spec fn obeys_from_spec() -> bool {
        true
    }

    open spec fn from_spec(err: JsonError) -> ErrorKind {
        ErrorKind::SerdeJson(err)
    }
}

impl From<TransactionError> for ErrorKind {
    fn from(err: TransactionError) -> (r: ErrorKind) {
        ErrorKind::TransactionError(err)
    }
}

impl FromSpecImpl<TransactionError> for ErrorKind {
    open spec fn obeys_from_spec() -> bool {
        true
    }

    open spec fn from_spec(err: TransactionError) -> ErrorKind {
        ErrorKind::TransactionError(err)
    }
}

impl From<ErrorKind> for Error {
    fn from(kind: ErrorKind) -> (r: Error) {
        Error { request: None, kind }
    }
}

impl FromSpecImpl<ErrorKind> for Error {
    open spec fn obeys_from_spec() -> bool {
        true
    }

    open spec fn from_spec(kind: ErrorKind) -> Error {
        Error { request: None, kind }
    }
}

impl From<IoError> for Error {
    fn from(err: IoError) -> (r: Error) {
        Error { request: None, kind: ErrorKind::Io(err) }
    }
}

impl FromSpecImpl<IoError> for Error {
    open spec fn obeys_from_spec() -> bool {
        true
    }

    open spec fn from_spec(err: IoError) -> Error {
        Error { request: None, kind: ErrorKind::Io(err) }
    }
}

impl From<ClientRpcError> for Error {
    fn from(err: ClientRpcError) -> (r: Error) {
        Error { request: None, kind: ErrorKind::RpcError(err) }
    }
}

impl FromSpecImpl<ClientRpcError> for Error {
    open spec fn obeys_from_spec() -> bool {
        true
    }

    open spec fn from_spec(err: ClientRpcError) -> Error {
        Error { request: None, kind: ErrorKind::RpcError(err) }
    }
}

impl From<JsonError> for Error {
    fn from(err: JsonError) -> (r: Error) {
        Error { request: None, kind: ErrorKind::SerdeJson(err) }
    }
}

impl FromSpecImpl<JsonError> for Error {
    open spec fn obeys_from_spec() -> bool {
        true
    }

    open spec fn from_spec(err: JsonError) -> Error {
        Error { request: None, kind: ErrorKind::SerdeJson(err) }
    }
}

impl From<TransactionError> for Error {
    fn from(err: TransactionError) -> (r: Error) {
        Error { request: None, kind: ErrorKind::TransactionError(err) }
    }
}

impl FromSpecImpl<TransactionError> for Error {
    open spec fn obeys_from_spec() -> bool {
        true
    }

    open spec fn from_spec(err: TransactionError) -> Error {
        Error { request: None, kind: ErrorKind::TransactionError(err) }
    }
}

/// The text of an error of a JSON-RPC exchange.
pub open spec fn rpc_error_text(err: ClientRpcErrorView) -> Seq<char> {
    match err {
        ClientRpcErrorView::RpcRequestError(s) => "RPC request error: "@ + s,
        ClientRpcErrorView::RpcResponseError { code, message, data } => "RPC response error "@
            + signed_decimal(code as int) + ": "@ + message + "; "@ + error_data_text(data),
        ClientRpcErrorView::ParseError(s) => "parse error: expected "@ + s,
        ClientRpcErrorView::ForUser(s) => s,
    }
}

/// Whether `text` is the text of a failure. That of an operating-system error is the system's own.
pub open spec fn kind_displays(kind: ErrorKindView, text: Seq<char>) -> bool {
    match kind {
        ErrorKindView::Io(e) => io_error_displays(e, text),
        ErrorKindView::RpcError(e) => text == rpc_error_text(e),
        ErrorKindView::SerdeJson(e) => json_error_displays(e, text),
        ErrorKindView::TransactionError(e) => text == transaction_error_text(e),
        ErrorKindView::Custom(s) => text == "Custom: "@ + s,
    }
}

impl ClientRpcError {
    /// The error as text.
    pub fn to_text(&self) -> (r: String)
        ensures
            r@ == rpc_error_text(self@),
    {
        match self {
            ClientRpcError::RpcRequestError(s) => joined("RPC request error: ", s.as_str()),
            ClientRpcError::RpcResponseError { code, message, data } => {
                let mut r = joined("RPC response error ", signed_decimal_text(*code).as_str());
                r.append(": ");
                r.append(message.as_str());
                r.append("; ");
                r.append(error_data_to_string(data).as_str());
                r
            },
            ClientRpcError::ParseError(s) => joined("parse error: expected ", s.as_str()),
            ClientRpcError::ForUser(s) => s.as_str().to_owned(),
        }
    }
}

impl ErrorKind {
    /// The failure as text. An operating-system error has the text that the system gives it.
    pub fn to_text(&self) -> (r: String)
        ensures
            kind_displays(self@, r@),
    {
        match self {
            ErrorKind::Io(e) => e.to_text(),
            ErrorKind::RpcError(e) => e.to_text(),
            ErrorKind::SerdeJson(e) => json_error_message(e),
            ErrorKind::TransactionError(e) => transaction_error_to_string(e),
            ErrorKind::Custom(s) => joined("Custom: ", s.as_str()),
        }
    }
}

impl Error {
    /// The error as text: that of its kind.
    pub fn to_text(&self) -> (r: String)
        ensures
            kind_displays(self@.kind, r@),
    {
        self.kind.to_text()
    }
}

impl<T> From<Error> for RpcError<T> {
    /// The error that a procedure replies with where a client call failed. Its message is the text
    /// of that error.
    fn from(err: Error) -> (r: RpcError<T>)
        ensures
            r.code == HOST_TRANSPORT,
            kind_displays(err@.kind, r.message@),
            r.data is None,
    {
        RpcError { code: HOST_TRANSPORT, message: err.to_text(), data: None }
    }
}

/// What `from` returns is stated at `from` itself, over views.
impl<T> FromSpecImpl<Error> for RpcError<T> {
    open spec fn obeys_from_spec() -> bool {
        false
    }

    open spec fn from_spec(err: Error) -> RpcError<T> {
        arbitrary()
    }
}

/// An error with a message for the user and no request.
pub(crate) fn for_user_error(message: String) -> (r: Error)
    ensures
        r@ == for_user(message@),
{
    Error::from(ClientRpcError::ForUser(message))
}

/// An error with a message of the client's own and no request.
pub(crate) fn custom_error(message: String) -> (r: Error)
    ensures
        r@ == custom(message@),
{
    Error::from(ErrorKind::Custom(message))
}

/// A reply that is not what was expected, without a request.
pub(crate) fn parse_failure(expected: String) -> (r: Error)
    ensures
        r@ == parse_error(expected@),
{
    Error::from(ClientRpcError::ParseError(expected))
}

} // verus!
