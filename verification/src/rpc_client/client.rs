//! The client, and the choke point through which every reply goes.

use core::time::Duration;
use serde_json::{Error as JsonError, Value};
use solana_rpc_client_types::response::RpcSimulateTransactionResult;
use vstd::prelude::*;

use crate::bindings::{
    is_json_object, json_as_array, json_document, json_elements, json_get, json_is_object,
    json_member, json_optional_u64, json_simulation, optional_u64_from_json, parse_json,
    simulation_error, simulation_from_json,
};
use crate::host::{call_rpc, HostReply, HostRpcErrorView, IoError, RpcError};
use crate::rpc_client::config::CommitmentConfig;
use crate::rpc_client::error::{
    client_view, transaction_error, ClientResult, ClientRpcError, ClientRpcErrorView, Error,
    ErrorKind, ErrorKindView, ErrorView, RpcResponseErrorData,
};
use crate::rpc_client::request::RpcRequest;
use crate::rpc_client::response::Response;

verus! {

/// JSON-RPC error code of a node that refused a transaction because its simulation failed.
pub const SEND_TRANSACTION_PREFLIGHT_FAILURE: i64 = -32002;

/// JSON-RPC error code of a node that has fallen behind.
pub const NODE_UNHEALTHY: i64 = -32005;

/// `Result` whose success carries a [`Response`] (context and value).
pub type RpcResult<T> = ClientResult<Response<T>>;

/// Defaults of a client.
pub struct RpcClientConfig {
    /// The commitment of every call that is not given one.
    pub commitment_config: CommitmentConfig,
    pub confirm_transaction_initial_timeout: Option<Duration>,
}

impl Default for RpcClientConfig {
    fn default() -> (r: RpcClientConfig)
        ensures
            r.commitment_config == CommitmentConfig::spec_finalized(),
            r.confirm_transaction_initial_timeout is None,
    {
        RpcClientConfig {
            commitment_config: CommitmentConfig::default(),
            confirm_transaction_initial_timeout: None,
        }
    }
}

impl RpcClientConfig {
    /// The defaults, but for the commitment.
    pub fn with_commitment(commitment_config: CommitmentConfig) -> (r: RpcClientConfig)
        ensures
            r.commitment_config == commitment_config,
            r.confirm_transaction_initial_timeout is None,
    {
        RpcClientConfig { commitment_config, confirm_transaction_initial_timeout: None }
    }
}

/// A client of a Solana node, reached through the host.
pub struct RpcClient {
    config: RpcClientConfig,
    tx_debug: bool,
}

impl Default for RpcClient {
    fn default() -> (r: RpcClient)
        ensures
            r.spec_commitment() == CommitmentConfig::spec_finalized(),
            !r.spec_tx_debug(),
    {
        RpcClient::new()
    }
}

impl RpcClient {
    /// The defaults that the client was made with.
    pub closed spec fn spec_config(&self) -> RpcClientConfig {
        self.config
    }

    /// The commitment of every call that is not given one.
    pub open spec fn spec_commitment(&self) -> CommitmentConfig {
        self.spec_config().commitment_config
    }

    /// Whether the data of a JSON-RPC error is decoded.
    pub closed spec fn spec_tx_debug(&self) -> bool {
        self.tx_debug
    }

    /// A client whose default commitment is `Finalized`.
    pub fn new() -> (r: RpcClient)
        ensures
            r.spec_commitment() == CommitmentConfig::spec_finalized(),
            r.spec_config().confirm_transaction_initial_timeout is None,
            !r.spec_tx_debug(),
    {
        RpcClient::new_with_commitment(CommitmentConfig::default())
    }

    /// A client with the given default commitment.
    pub fn new_with_commitment(commitment_config: CommitmentConfig) -> (r: RpcClient)
        ensures
            r.spec_commitment() == commitment_config,
            r.spec_config().confirm_transaction_initial_timeout is None,
            !r.spec_tx_debug(),
    {
        RpcClient { config: RpcClientConfig::with_commitment(commitment_config), tx_debug: false }
    }

    /// A client with the given defaults.
    pub fn new_with_config(config: RpcClientConfig) -> (r: RpcClient)
        ensures
            r.spec_config() == config,
            !r.spec_tx_debug(),
    {
        RpcClient { config, tx_debug: false }
    }

    /// The same client, but for whether it decodes the data of JSON-RPC errors. Without that every
    /// error has empty data and [`Error::get_transaction_error`] finds nothing in it. It is off
    /// unless switched on here.
    pub fn with_tx_debug(self, tx_debug: bool) -> (r: RpcClient)
        ensures
            r.spec_config() == self.spec_config(),
            r.spec_tx_debug() == tx_debug,
    {
        RpcClient { config: self.config, tx_debug }
    }

    /// The commitment of every call that is not given one.
    pub fn commitment(&self) -> (r: CommitmentConfig)
        ensures
            r == self.spec_commitment(),
    {
        self.config.commitment_config
    }
}

/// The slots that a node says it is behind, read from the data of its error: `None` where the
/// data does not decode. The data is an object whose member `numSlotsBehind` is a number, `null` or
/// absent, or an array that holds just that number or `null`.
pub open spec fn slots_behind(data: Value) -> Option<Option<u64>> {
    if is_json_object(data) {
        match json_member(data, "numSlotsBehind"@) {
            None => Some(None),
            Some(field) => json_optional_u64(field).ok(),
        }
    } else {
        match json_elements(data) {
            Some(list) => if list.len() == 1 {
                json_optional_u64(list[0]).ok()
            } else {
                None
            },
            None => None,
        }
    }
}

/// The structured data of a JSON-RPC error.
pub open spec fn response_error_data(
    tx_debug: bool,
    code: int,
    data: Option<Value>,
) -> RpcResponseErrorData {
    match data {
        Some(data) => if !tx_debug {
            RpcResponseErrorData::Empty
        } else if code == SEND_TRANSACTION_PREFLIGHT_FAILURE {
            match json_simulation(data) {
                Ok(result) => RpcResponseErrorData::SendTransactionPreflightFailure(result),
                Err(_) => RpcResponseErrorData::Empty,
            }
        } else if code == NODE_UNHEALTHY {
            match slots_behind(data) {
                Some(num_slots_behind) => RpcResponseErrorData::NodeUnhealthy { num_slots_behind },
                None => RpcResponseErrorData::Empty,
            }
        } else {
            RpcResponseErrorData::Empty
        },
        None => RpcResponseErrorData::Empty,
    }
}

/// The data of a failed preflight, given what decoding it returned.
pub fn preflight_failure_data(decoded: Result<RpcSimulateTransactionResult, JsonError>) -> (r:
    RpcResponseErrorData)
    ensures
        r == match decoded {
            Ok(result) => RpcResponseErrorData::SendTransactionPreflightFailure(result),
            Err(_) => RpcResponseErrorData::Empty,
        },
{
    match decoded {
        Ok(result) => RpcResponseErrorData::SendTransactionPreflightFailure(result),
        Err(_) => RpcResponseErrorData::Empty,
    }
}

/// The data of a node that is behind, given the slots that it reported, where they decoded.
pub fn node_unhealthy_data(decoded: Option<Option<u64>>) -> (r: RpcResponseErrorData)
    ensures
        r == match decoded {
            Some(num_slots_behind) => RpcResponseErrorData::NodeUnhealthy { num_slots_behind },
            None => RpcResponseErrorData::Empty,
        },
{
    match decoded {
        Some(num_slots_behind) => RpcResponseErrorData::NodeUnhealthy { num_slots_behind },
        None => RpcResponseErrorData::Empty,
    }
}

/// The slots in a field that decoded to `field`; an absent field says nothing about them.
pub fn slots_behind_field(field: Option<Result<Option<u64>, JsonError>>) -> (r: Option<Option<u64>>)
    ensures
        r == match field {
            None => Some(None::<u64>),
            Some(Ok(n)) => Some(n),
            Some(Err(_)) => None,
        },
{
    match field {
        None => Some(None),
        Some(Ok(n)) => Some(n),
        Some(Err(_)) => None,
    }
}

fn decode_slots_behind(data: Value) -> (r: Option<Option<u64>>)
    ensures
        r == slots_behind(data),
{
    if json_is_object(&data) {
        match json_get(&data, "numSlotsBehind") {
            None => slots_behind_field(None),
            Some(field) => slots_behind_field(Some(optional_u64_from_json(field))),
        }
    } else {
        match json_as_array(&data) {
            Some(mut list) => {
                if list.len() == 1 {
                    let ghost elements = list@;
                    let field = list.pop();
                    assert(field == Some(elements[0]));
                    match field {
                        Some(field) => slots_behind_field(Some(optional_u64_from_json(field))),
                        None => None,
                    }
                } else {
                    None
                }
            },
            None => None,
        }
    }
}

/// The structured data of the JSON-RPC error `code`, decoded from the JSON that came with it.
/// Without `tx_debug` it is always empty.
pub fn decode_response_error_data(tx_debug: bool, code: i64, data: Option<Value>) -> (r:
    RpcResponseErrorData)
    ensures
        r == response_error_data(tx_debug, code as int, data),
{
    if !tx_debug {
        return RpcResponseErrorData::Empty;
    }
    match data {
        Some(data) => if code == SEND_TRANSACTION_PREFLIGHT_FAILURE {
            preflight_failure_data(simulation_from_json(data))
        } else if code == NODE_UNHEALTHY {
            node_unhealthy_data(decode_slots_behind(data))
        } else {
            RpcResponseErrorData::Empty
        },
        None => RpcResponseErrorData::Empty,
    }
}

/// The transport failure of a call, as the answer to `request`.
pub open spec fn io_error(request: RpcRequest, err: IoError) -> ErrorView {
    ErrorView { request: Some(request), kind: ErrorKindView::Io(err) }
}

/// The client error for an error that the server returned. Its data is JSON text, which is decoded
/// first: data that is no JSON is a transport failure.
pub open spec fn server_error(
    tx_debug: bool,
    request: RpcRequest,
    err: HostRpcErrorView,
) -> ErrorView {
    let decoded = match err.data {
        None => Ok(None),
        Some(bytes) => match json_document(bytes) {
            Ok(data) => Ok(Some(data)),
            Err(e) => Err(e),
        },
    };
    match decoded {
        Err(e) => io_error(request, IoError::InvalidInput(e)),
        Ok(data) => ErrorView {
            request: Some(request),
            kind: ErrorKindView::RpcError(
                ClientRpcErrorView::RpcResponseError {
                    code: err.code as i64,
                    message: err.message,
                    data: response_error_data(tx_debug, err.code as int, data),
                },
            ),
        },
    }
}

/// The JSON text of a successful reply; of no interest in any other.
pub open spec fn reply_bytes(reply: HostReply) -> Seq<u8> {
    match reply {
        Ok(Ok(bytes)) => bytes@,
        _ => Seq::empty(),
    }
}

/// The result of a call: `decoded` is what its reply decodes to where the reply is a success.
pub open spec fn sent<V>(
    tx_debug: bool,
    request: RpcRequest,
    reply: HostReply,
    decoded: Result<V, JsonError>,
) -> Result<V, ErrorView> {
    match reply {
        Ok(Ok(_)) => match decoded {
            Ok(v) => Ok(v),
            Err(e) => Err(io_error(request, IoError::InvalidInput(e))),
        },
        Ok(Err(err)) => Err(server_error(tx_debug, request, err@)),
        Err(code) => Err(io_error(request, IoError::Os(code))),
    }
}

/// The client error for an error of the server, its data decoded.
pub fn rpc_response_error(tx_debug: bool, request: RpcRequest, err: RpcError<Value>) -> (r: Error)
    ensures
        r@ == (ErrorView {
            request: Some(request),
            kind: ErrorKindView::RpcError(
                ClientRpcErrorView::RpcResponseError {
                    code: err.code as i64,
                    message: err.message@,
                    data: response_error_data(tx_debug, err.code as int, err.data),
                },
            ),
        }),
{
    let RpcError { code, message, data } = err;
    let code: i64 = code as i64;
    let data = decode_response_error_data(tx_debug, code, data);
    Error {
        request: Some(request),
        kind: ErrorKind::RpcError(ClientRpcError::RpcResponseError { code, message, data }),
    }
}

impl RpcClient {
    /// The result of a call, made of the host's reply: both error layers become one client error
    /// that names the request, and the reply of a successful call is decoded with `decode`.
    pub fn send<T, F: FnOnce(Vec<u8>) -> Result<T, JsonError>>(
        &self,
        request: RpcRequest,
        reply: HostReply,
        decode: F,
    ) -> (r: ClientResult<T>)
        requires
            forall|bytes: Vec<u8>| call_requires(decode, (bytes,)),
        ensures
            match reply {
                Ok(Ok(bytes)) => exists|d: Result<T, JsonError>| #[trigger]
                    call_ensures(decode, (bytes,), d) && client_view(r) == sent(
                        self.spec_tx_debug(),
                        request,
                        reply,
                        d,
                    ),
                Ok(Err(err)) => client_view(r) == Err::<T, ErrorView>(
                    server_error(self.spec_tx_debug(), request, err@),
                ),
                Err(code) => client_view(r) == Err::<T, ErrorView>(
                    io_error(request, IoError::Os(code)),
                ),
            },
    {
        match call_rpc(reply, decode, parse_json) {
            Ok(Ok(v)) => Ok(v),
            Ok(Err(err)) => Err(rpc_response_error(self.tx_debug, request, err)),
            Err(err) => Err(Error { request: Some(request), kind: ErrorKind::Io(err) }),
        }
    }
}

// ---------------------------------------------------------------------------------------------
// Laws
// ---------------------------------------------------------------------------------------------

/// Every error of a call names the call's request.
pub proof fn errors_name_their_request<V>(
    tx_debug: bool,
    request: RpcRequest,
    reply: HostReply,
    decoded: Result<V, JsonError>,
)
    ensures
        sent(tx_debug, request, reply, decoded) matches Err(e) ==> e.request == Some(request),
{
}

/// A call succeeds just where the host and the server report success and the reply decodes.
pub proof fn success_is_decoded<V>(
    tx_debug: bool,
    request: RpcRequest,
    reply: HostReply,
    decoded: Result<V, JsonError>,
)
    ensures
        sent(tx_debug, request, reply, decoded) is Ok <==> reply is Ok && reply->Ok_0 is Ok
            && decoded is Ok,
        sent(tx_debug, request, reply, decoded) matches Ok(v) ==> decoded == Ok::<V, JsonError>(v),
{
}

/// Where the data of errors is not decoded, no error of a server holds an on-chain error.
pub proof fn no_transaction_error_without_tx_debug(request: RpcRequest, err: HostRpcErrorView)
    ensures
        transaction_error(server_error(false, request, err).kind) is None,
{
}

/// Where it is decoded, the on-chain error of a failed preflight is the one that its simulation
/// reports.
pub proof fn preflight_failure_holds_transaction_error(
    request: RpcRequest,
    err: HostRpcErrorView,
    data: Value,
    result: RpcSimulateTransactionResult,
)
    ensures
        err.code == SEND_TRANSACTION_PREFLIGHT_FAILURE && err.data is Some && json_document(
            err.data->Some_0,
        ) == Ok::<Value, JsonError>(data) && json_simulation(data) == Ok::<
            RpcSimulateTransactionResult,
            JsonError,
        >(result) ==> transaction_error(server_error(true, request, err).kind)
            == simulation_error(result),
{
}

/// Only the two error codes above are decoded: every other error has empty data.
pub proof fn other_codes_have_no_data(tx_debug: bool, code: int, data: Option<Value>)
    requires
        code != SEND_TRANSACTION_PREFLIGHT_FAILURE,
        code != NODE_UNHEALTHY,
    ensures
        response_error_data(tx_debug, code, data) == RpcResponseErrorData::Empty,
{
}

} // verus!
