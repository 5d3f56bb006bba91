//! What the library is for, stated over the arguments and the results of its functions.
//!
//! Each law speaks of what a function may return for given arguments (`call_ensures`), field by
//! field, and of what the functions of other crates make of its input. It does not go through the
//! definitions in which the modules state their contracts. The few that the laws do speak of, such
//! as the numeral of a number or the run of a confirmation, have laws of their own here.

pub mod errors;
pub mod parts;
pub mod replies;
pub mod requests;
pub mod runs;
pub mod transactions;
pub mod waits;

use serde_json::Error as JsonError;
use vstd::prelude::*;

use crate::bindings::json_document;
use crate::host::{HostReply, IoError};
use crate::rpc_client::client::response_error_data;
use crate::rpc_client::error::{ClientRpcError, Error, ErrorKind};
use crate::rpc_client::request::{Param, RpcCall, RpcRequest};

verus! {

/// Whether a call is the request with just these parameters.
pub open spec fn asks(call: RpcCall, request: RpcRequest, params: Seq<Param>) -> bool {
    call.request == request && call.params is List && call.params->List_0@ == params
}

/// Whether a parameter is just this text.
pub open spec fn is_text(param: Param, text: Seq<char>) -> bool {
    param is Text && param->Text_0@ == text
}

/// Whether a call is the request with a text and then just these parameters.
pub open spec fn asks_about(
    call: RpcCall,
    request: RpcRequest,
    text: Seq<char>,
    rest: Seq<Param>,
) -> bool {
    &&& call.request == request
    &&& call.params is List
    &&& call.params->List_0@.len() == 1 + rest.len()
    &&& is_text(call.params->List_0@[0], text)
    &&& call.params->List_0@.skip(1) == rest
}

/// Whether a call is the request with a list of texts and then just these parameters.
pub open spec fn asks_about_all(
    call: RpcCall,
    request: RpcRequest,
    texts: Seq<Seq<char>>,
    rest: Seq<Param>,
) -> bool {
    &&& call.request == request
    &&& call.params is List
    &&& call.params->List_0@.len() == 1 + rest.len()
    &&& call.params->List_0@[0] is Texts
    &&& call.params->List_0@[0]->Texts_0@.len() == texts.len()
    &&& forall|i: int|
        0 <= i < texts.len() ==> (#[trigger] call.params->List_0@[0]->Texts_0@[i])@ == texts[i]
    &&& call.params->List_0@.skip(1) == rest
}

/// The view of a request is made of the views of its parameters, each at its position.
pub proof fn view_is_params(call: RpcCall)
    ensures
        call@.request == call.request,
        call.params is Null <==> call@.params is None,
        call.params is List ==> {
            &&& call@.params->Some_0.len() == call.params->List_0@.len()
            &&& forall|i: int|
                0 <= i < call.params->List_0@.len() ==> call@.params->Some_0[i] == (
                #[trigger] call.params->List_0@[i])@
        },
{
}

/// A list of texts, seen as sequences of characters, keeps its length and its order.
pub proof fn view_is_texts(param: Param)
    requires
        param is Texts,
    ensures
        param@ is Texts,
        param@->Texts_0.len() == param->Texts_0@.len(),
        forall|i: int|
            0 <= i < param->Texts_0@.len() ==> param@->Texts_0[i] == (
            #[trigger] param->Texts_0@[i])@,
{
}

/// Whether the host and the server report success.
pub open spec fn is_success(reply: HostReply) -> bool {
    reply is Ok && reply->Ok_0 is Ok
}

/// The JSON text of a successful reply.
pub open spec fn body(reply: HostReply) -> Seq<u8> {
    reply->Ok_0->Ok_0@
}

/// Whether `e` is the failure of a call that the host answered with `reply`: it names the request,
/// and it carries what the host, the server or the decoder said.
pub open spec fn is_failure(
    tx_debug: bool,
    request: RpcRequest,
    reply: HostReply,
    e: Error,
) -> bool {
    &&& e.request == Some(request)
    &&& match reply {
        Err(code) => e.kind == ErrorKind::Io(IoError::Os(code)),
        Ok(Err(err)) => if err.data is Some && json_document(err.data->Some_0@) is Err {
            e.kind == ErrorKind::Io(
                IoError::InvalidInput(json_document(err.data->Some_0@)->Err_0),
            )
        } else {
            &&& e.kind is RpcError
            &&& e.kind->RpcError_0 matches ClientRpcError::RpcResponseError { code, message, data }
                && code == err.code && message@ == err.message@ && data == response_error_data(
                tx_debug,
                err.code as int,
                match err.data {
                    Some(bytes) => Some(json_document(bytes@)->Ok_0),
                    None => None,
                },
            )
        },
        Ok(Ok(_)) => e.kind is Io && e.kind->Io_0 is InvalidInput,
    }
}

/// Whether `r` is what a call comes to whose successful reply holds `decoded`: a success just where
/// the reply is one and decodes, and then with just what it decodes to.
pub open spec fn is_answer<T>(
    tx_debug: bool,
    request: RpcRequest,
    reply: HostReply,
    decoded: Result<T, JsonError>,
    r: Result<T, Error>,
) -> bool {
    &&& r is Ok <==> is_success(reply) && decoded is Ok
    &&& r is Ok ==> r->Ok_0 == decoded->Ok_0
    &&& r is Err ==> is_failure(tx_debug, request, reply, r->Err_0)
    &&& r is Err && is_success(reply) ==> r->Err_0.kind == ErrorKind::Io(
        IoError::InvalidInput(decoded->Err_0),
    )
}

} // verus!
