//! Errors, what they hold and what they say, and the numerals in their texts.

use serde_json::{Error as JsonError, Value};
use solana_rpc_client_types::response::TransactionError;
use vstd::prelude::*;

use crate::bindings::{
    error_data_text, is_json_object, json_elements, json_error_is_io, json_error_text, json_member,
    json_optional_u64, json_simulation, simulation_error, transaction_error_text,
};
use crate::host::{json_io_error_displays, os_error_displays, IoError, RpcError};
use crate::rpc_client::client::{decode_response_error_data, response_error_data};
use crate::rpc_client::error::{
    kind_displays, ClientRpcError, Error, ErrorKind, RpcResponseErrorData,
};
use crate::rpc_client::pubsub::PubsubClientError;
use crate::rpc_client::request::RpcRequest;
use crate::text::{decimal, decimal_text, joined, signed_decimal, signed_decimal_text};

verus! {

// ---------------------------------------------------------------------------------------------
// Numerals
// ---------------------------------------------------------------------------------------------

/// The value of a decimal digit.
pub open spec fn digit_value(c: char) -> int {
    c as int - '0' as int
}

/// The value of a numeral.
pub open spec fn numeral_value(text: Seq<char>) -> int
    decreases text.len(),
{
    if text.len() == 0 {
        0
    } else {
        10 * numeral_value(text.drop_last()) + digit_value(text.last())
    }
}

/// A numeral has the value of its number. It is made of digits, at least one, and starts with `0`
/// only where the number is below ten.
pub proof fn numerals_have_their_value(n: nat)
    ensures
        numeral_value(decimal(n)) == n,
        decimal(n).len() > 0,
        forall|i: int|
            0 <= i < decimal(n).len() ==> '0' <= #[trigger] decimal(n)[i] && decimal(n)[i] <= '9',
        n >= 10 ==> decimal(n)[0] != '0',
        n > 0 ==> decimal(n)[0] != '0',
    decreases n,
{
    if n < 10 {
        assert(decimal(n).drop_last() =~= Seq::<char>::empty());
        assert(numeral_value(Seq::<char>::empty()) == 0);
    } else {
        let front = decimal(n / 10);
        numerals_have_their_value(n / 10);
        let last = decimal(n).last();
        assert(decimal(n).drop_last() =~= front);
        assert(decimal(n)[0] == front[0]);
        assert forall|i: int| 0 <= i < decimal(n).len() implies '0' <= #[trigger] decimal(n)[i]
            && decimal(n)[i] <= '9' by {
            if i < front.len() {
                assert(decimal(n)[i] == front[i]);
            }
        }
    }
}

/// A negative number has a sign and then the numeral of its size, any other number just its
/// numeral.
pub proof fn signs_are_written(n: int)
    ensures
        n >= 0 ==> signed_decimal(n) == decimal(n as nat),
        n < 0 ==> signed_decimal(n).len() > 1 && signed_decimal(n)[0] == '-' && numeral_value(
            signed_decimal(n).skip(1),
        ) == -n,
{
    if n < 0 {
        numerals_have_their_value((-n) as nat);
        assert(signed_decimal(n).skip(1) =~= decimal((-n) as nat));
    }
}

/// Numerals are written out as they are, and texts are joined without loss.
pub proof fn texts_are_written_out(n: u128, m: i64, a: &str, b: &str, r: String)
    ensures
        call_ensures(decimal_text, (n,), r) ==> numeral_value(r@) == n && r@ == decimal(n as nat),
        call_ensures(signed_decimal_text, (m,), r) ==> r@ == signed_decimal(m as int),
        call_ensures(joined, (a, b), r) ==> r@.len() == a@.len() + b@.len() && r@.take(
            a@.len() as int,
        ) == a@ && r@.skip(a@.len() as int) == b@,
{
    numerals_have_their_value(n as nat);
    if call_ensures(joined, (a, b), r) {
        assert(r@.take(a@.len() as int) =~= a@);
        assert(r@.skip(a@.len() as int) =~= b@);
    }
}

// ---------------------------------------------------------------------------------------------
// Data of a server's error
// ---------------------------------------------------------------------------------------------

/// The data of a server's error is decoded only where that is switched on and there is data. A
/// failed preflight keeps its whole simulation, a node that is behind the slots that it reported,
/// as an object or as a list of one. Whatever does not decode, and every other code, leaves
/// nothing.
pub proof fn error_data_is_decoded(tx_debug: bool, code: i64, data: Option<Value>)
    ensures
        !tx_debug || data is None ==> response_error_data(tx_debug, code as int, data) is Empty,
        code != -32002 && code != -32005 ==> response_error_data(
            tx_debug,
            code as int,
            data,
        ) is Empty,
        tx_debug && data is Some && code == -32002 ==> match json_simulation(data->Some_0) {
            Ok(result) => response_error_data(tx_debug, code as int, data)
                == RpcResponseErrorData::SendTransactionPreflightFailure(result),
            Err(_) => response_error_data(tx_debug, code as int, data) is Empty,
        },
        tx_debug && data is Some && code == -32005 && is_json_object(data->Some_0)
            ==> match json_member(
            data->Some_0,
            "numSlotsBehind"@,
        ) {
            None => response_error_data(tx_debug, code as int, data)
                == (RpcResponseErrorData::NodeUnhealthy { num_slots_behind: None }),
            Some(slots) => match json_optional_u64(slots) {
                Ok(num_slots_behind) => response_error_data(tx_debug, code as int, data)
                    == (RpcResponseErrorData::NodeUnhealthy { num_slots_behind }),
                Err(_) => response_error_data(tx_debug, code as int, data) is Empty,
            },
        },
        tx_debug && data is Some && code == -32005 && !is_json_object(data->Some_0) ==> {
            let list = json_elements(data->Some_0);
            if list is Some && list->Some_0.len() == 1 && json_optional_u64(
                list->Some_0[0],
            ) is Ok {
                response_error_data(tx_debug, code as int, data)
                    == (RpcResponseErrorData::NodeUnhealthy {
                    num_slots_behind: json_optional_u64(list->Some_0[0])->Ok_0,
                })
            } else {
                response_error_data(tx_debug, code as int, data) is Empty
            }
        },
        forall|r: RpcResponseErrorData|
            call_ensures(decode_response_error_data, (tx_debug, code, data), r) ==> r
                == response_error_data(tx_debug, code as int, data),
{
}

// ---------------------------------------------------------------------------------------------
// What an error holds
// ---------------------------------------------------------------------------------------------

/// The on-chain error of a failure is the failure itself, or what a failed preflight reports, or
/// there is none.
pub proof fn on_chain_errors_are_found(
    kind: ErrorKind,
    err: Error,
    r: Option<TransactionError>,
)
    requires
        call_ensures(ErrorKind::get_transaction_error, (&kind,), r) || (err.kind == kind
            && call_ensures(Error::get_transaction_error, (&err,), r)),
    ensures
        kind matches ErrorKind::TransactionError(e) ==> r == Some(e),
        kind matches ErrorKind::RpcError(ClientRpcError::RpcResponseError { data, .. })
            ==> match data {
            RpcResponseErrorData::SendTransactionPreflightFailure(result) => r == simulation_error(
                result,
            ),
            _ => r is None,
        },
        kind is Io || kind is SerdeJson || kind is Custom ==> r is None,
        kind matches ErrorKind::RpcError(e) && !(e is RpcResponseError) ==> r is None,
{
}

/// An error keeps its failure and the request that it is given.
pub proof fn errors_keep_their_parts(
    kind: ErrorKind,
    request: RpcRequest,
    err: Error,
    made: Error,
    known: Option<&RpcRequest>,
    held: &ErrorKind,
)
    ensures
        call_ensures(Error::new_with_request, (kind, request), made) ==> made.request == Some(
            request,
        ) && made.kind == kind,
        call_ensures(Error::into_with_request, (err, request), made) ==> made.request == Some(
            request,
        ) && made.kind == err.kind,
        call_ensures(Error::request, (&err,), known) ==> {
            &&& known is Some <==> err.request is Some
            &&& known is Some ==> *known->Some_0 == err.request->Some_0
        },
        call_ensures(Error::kind, (&err,), held) ==> *held == err.kind,
{
}

// ---------------------------------------------------------------------------------------------
// What an error says
// ---------------------------------------------------------------------------------------------

/// The text of a JSON error is what its crate displays.
pub open spec fn displays_json_error(err: JsonError, text: Seq<char>) -> bool {
    if json_error_is_io(err) {
        json_io_error_displays(err, text)
    } else {
        text == json_error_text(err)
    }
}

/// The text of a transport failure.
pub open spec fn displays_io_error(err: IoError, text: Seq<char>) -> bool {
    match err {
        IoError::InvalidInput(e) => displays_json_error(e, text),
        IoError::Os(code) => os_error_displays(code, text),
    }
}

/// The text of an error of a JSON-RPC exchange.
pub open spec fn displays_rpc_error(err: ClientRpcError, text: Seq<char>) -> bool {
    match err {
        ClientRpcError::RpcRequestError(s) => text == "RPC request error: "@ + s@,
        ClientRpcError::RpcResponseError { code, message, data } => text == "RPC response error "@
            + signed_decimal(code as int) + ": "@ + message@ + "; "@ + error_data_text(data),
        ClientRpcError::ParseError(s) => text == "parse error: expected "@ + s@,
        ClientRpcError::ForUser(s) => text == s@,
    }
}

/// An error says what its failure says, whole: the message of the server, of the client, of the
/// JSON crate, of the chain or of the operating system.
pub proof fn errors_say_what_failed(kind: ErrorKind, text: Seq<char>)
    requires
        kind_displays(kind@, text),
    ensures
        match kind {
            ErrorKind::Io(e) => displays_io_error(e, text),
            ErrorKind::RpcError(e) => displays_rpc_error(e, text),
            ErrorKind::SerdeJson(e) => displays_json_error(e, text),
            ErrorKind::TransactionError(e) => text == transaction_error_text(e),
            ErrorKind::Custom(s) => text == "Custom: "@ + s@,
        },
{
}

/// The functions that turn an error into text give that text.
pub proof fn texts_of_errors(
    kind: ErrorKind,
    err: Error,
    rpc: ClientRpcError,
    io: IoError,
    reported: RpcError<Value>,
    r: String,
)
    ensures
        call_ensures(ErrorKind::to_text, (&kind,), r) ==> kind_displays(kind@, r@),
        call_ensures(Error::to_text, (&err,), r) ==> kind_displays(err.kind@, r@),
        call_ensures(ClientRpcError::to_text, (&rpc,), r) ==> displays_rpc_error(rpc, r@),
        call_ensures(IoError::to_text, (&io,), r) ==> displays_io_error(io, r@),
        call_ensures(RpcError::<Value>::to_text, (&reported,), r) ==> r@ == "RPC error "@
            + signed_decimal(reported.code as int) + ": "@ + reported.message@,
{
}

/// A refused subscription says its code and its message, a failed one what the transport says.
pub proof fn texts_of_subscription_errors(err: PubsubClientError, r: String)
    requires
        call_ensures(PubsubClientError::to_text, (&err,), r),
    ensures
        err matches PubsubClientError::SubscribeFailed { code, message, .. } ==> r@
            == "subscribe failed: "@ + signed_decimal(code as int) + " "@ + message@,
        err matches PubsubClientError::Io(e) ==> displays_io_error(e, r@),
{
}

/// A client error that a procedure passes on keeps its text and gets the code of the host's
/// transport.
pub proof fn client_errors_are_passed_on<T>(err: Error, r: RpcError<T>)
    requires
        call_ensures(<RpcError<T> as From<Error>>::from, (err,), r),
    ensures
        r.code == 10502,
        r.data is None,
        kind_displays(err.kind@, r.message@),
{
}

} // verus!
