//! Sending transactions and following them.

use bincode::ErrorKind as BincodeErrorKind;
use serde_json::Error as JsonError;
use solana_rpc_client_types::response::{RpcResponseContext, TransactionError};
use vstd::prelude::*;

use crate::bindings::{
    base58_bytes, base64_bytes, bincode_error_is_io, bincode_error_text, json_fee_response,
    json_statuses, json_string, parsed_signature, signature_text,
};
use crate::host::HostReply;
use crate::laws::replies::{as_seq_in_context, tells_user};
use crate::laws::{body, is_answer, is_failure, is_success, view_is_params};
use crate::rpc_client::client::RpcClient;
use crate::rpc_client::config::{
    CommitmentConfig, CommitmentLevel, RpcSendTransactionConfig, RpcSimulateTransactionConfig,
    UiTransactionEncoding,
};
use crate::rpc_client::error::Error;
use crate::rpc_client::keys::Signature;
use crate::rpc_client::request::{Param, RpcCall, RpcRequest};
use crate::rpc_client::response::{Response, TransactionConfirmationStatus, TransactionStatus};
use crate::rpc_client::transactions::{
    bincode_error_displays, bincode_io_error_displays, decode_serialized, num_confirmations,
    serialize_and_encode,
};

verus! {

// ---------------------------------------------------------------------------------------------
// Sending
// ---------------------------------------------------------------------------------------------

/// Whether a text carries just these bytes: in base 64 or in base 58.
pub open spec fn carries(text: Seq<char>, encoding: UiTransactionEncoding, bytes: Seq<u8>) -> bool {
    match encoding {
        UiTransactionEncoding::Base64 => base64_bytes(text) == Some(bytes),
        UiTransactionEncoding::Base58 => base58_bytes(text) == Some(bytes),
        _ => false,
    }
}

/// Whether an encoding carries bytes.
pub open spec fn is_binary(encoding: UiTransactionEncoding) -> bool {
    encoding == UiTransactionEncoding::Base64 || encoding == UiTransactionEncoding::Base58
}

/// Whether `e` says why bytes could not be sent: they could not be serialized, or the encoding
/// carries none.
pub open spec fn is_refused(
    serialized: Result<Vec<u8>, Box<BincodeErrorKind>>,
    encoding: UiTransactionEncoding,
    e: Error,
) -> bool {
    &&& e.request is None
    &&& e.kind is Custom
    &&& match serialized {
        Err(cause) => exists|text: Seq<char>| #[trigger]
            bincode_error_displays(*cause, text) && e.kind->Custom_0@ == "Serialization failed: "@
                + text,
        Ok(_) => e.kind->Custom_0@ == "unsupported encoding: "@ + encoding.name()
            + ". Supported encodings: base58, base64"@,
    }
}

/// The text of a serialization error is what its crate displays, whole.
pub proof fn serialization_errors_say_what_failed(err: BincodeErrorKind, text: Seq<char>)
    requires
        bincode_error_displays(err, text),
    ensures
        bincode_error_is_io(err) ==> bincode_io_error_displays(err, text),
        !bincode_error_is_io(err) ==> text == bincode_error_text(err),
{
}

/// Whatever the bytes are, they are encoded just where they could be serialized and the encoding
/// carries bytes, and then into a text that carries just these bytes.
pub proof fn encoding_carries_the_bytes(
    serialized: Result<Vec<u8>, Box<BincodeErrorKind>>,
    encoding: UiTransactionEncoding,
    r: Result<String, Error>,
)
    requires
        call_ensures(serialize_and_encode, (serialized, encoding), r),
    ensures
        r is Ok <==> serialized is Ok && is_binary(encoding),
        r is Ok ==> carries(r->Ok_0@, encoding, serialized->Ok_0@),
        r is Err ==> is_refused(serialized, encoding, r->Err_0),
{
}

/// A text that carries bytes is decoded to just these bytes, by whichever encoding carries them.
pub proof fn decoding_finds_the_bytes(
    text: &str,
    encoding: UiTransactionEncoding,
    bytes: Seq<u8>,
    r: Option<Vec<u8>>,
)
    requires
        call_ensures(decode_serialized, (text, encoding), r),
    ensures
        carries(text@, encoding, bytes) <==> r is Some && r->Some_0@ == bytes,
        !is_binary(encoding) ==> r is None,
{
}

/// The encoding that was given, or base 64.
pub open spec fn given_or_base64(encoding: Option<UiTransactionEncoding>) -> UiTransactionEncoding {
    if encoding is Some {
        encoding->Some_0
    } else {
        UiTransactionEncoding::Base64
    }
}

/// A transaction is sent just where its bytes can be, and then these bytes and nothing else go out,
/// in the encoding that the options announce. Options that a caller gave are not changed.
pub proof fn sending_sends_the_transaction(
    client: RpcClient,
    serialized: Result<Vec<u8>, Box<BincodeErrorKind>>,
    config: RpcSendTransactionConfig,
    r: Result<RpcCall, Error>,
)
    requires
        call_ensures(RpcClient::send_transaction_with_config, (&client, serialized, config), r),
    ensures
        r is Ok <==> serialized is Ok && is_binary(given_or_base64(config.encoding)),
        r is Err ==> is_refused(serialized, given_or_base64(config.encoding), r->Err_0),
        r is Ok ==> {
            let call = r->Ok_0;
            &&& call.request == RpcRequest::SendTransaction
            &&& call.params is List
            &&& call.params->List_0@.len() == 2
            &&& call.params->List_0@[0] is Text
            &&& carries(
                call.params->List_0@[0]->Text_0@,
                given_or_base64(config.encoding),
                serialized->Ok_0@,
            )
            &&& call.params->List_0@[1] matches Param::SendTransaction(given) && {
                &&& given.encoding == Some(given_or_base64(config.encoding))
                &&& given.preflight_commitment is Some
                &&& config.preflight_commitment is Some ==> given.preflight_commitment
                    == config.preflight_commitment
                &&& config.preflight_commitment is None ==> given.preflight_commitment == Some(
                    CommitmentLevel::Finalized,
                )
                &&& given.skip_preflight == config.skip_preflight
                &&& given.max_retries == config.max_retries
                &&& given.min_context_slot == config.min_context_slot
            }
        },
{
    if r is Ok {
        view_is_params(r->Ok_0);
    }
}

/// Without options a transaction goes out in base 64, with a preflight at the client's commitment.
pub proof fn sending_by_default(
    client: RpcClient,
    serialized: Result<Vec<u8>, Box<BincodeErrorKind>>,
    r: Result<RpcCall, Error>,
)
    requires
        call_ensures(RpcClient::send_transaction, (&client, serialized), r),
    ensures
        r is Ok <==> serialized is Ok,
        r is Err ==> is_refused(serialized, UiTransactionEncoding::Base64, r->Err_0),
        r is Ok ==> {
            let call = r->Ok_0;
            &&& call.request == RpcRequest::SendTransaction
            &&& call.params is List
            &&& call.params->List_0@.len() == 2
            &&& call.params->List_0@[0] is Text
            &&& base64_bytes(call.params->List_0@[0]->Text_0@) == Some(serialized->Ok_0@)
            &&& call.params->List_0@[1] == Param::SendTransaction(
                RpcSendTransactionConfig {
                    skip_preflight: false,
                    preflight_commitment: Some(client.spec_commitment().commitment),
                    encoding: Some(UiTransactionEncoding::Base64),
                    max_retries: None,
                    min_context_slot: None,
                },
            )
        },
{
    if r is Ok {
        view_is_params(r->Ok_0);
    }
}

/// A simulation is asked for with the bytes of the transaction and nothing else, in the encoding
/// that the options announce. Options that a caller gave are not changed.
pub proof fn simulating_sends_the_transaction(
    client: RpcClient,
    serialized: Result<Vec<u8>, Box<BincodeErrorKind>>,
    config: RpcSimulateTransactionConfig,
    r: Result<RpcCall, Error>,
)
    requires
        call_ensures(RpcClient::simulate_transaction_with_config, (&client, serialized, config), r),
    ensures
        r is Ok <==> serialized is Ok && is_binary(given_or_base64(config.encoding)),
        r is Err ==> is_refused(serialized, given_or_base64(config.encoding), r->Err_0),
        r is Ok ==> {
            let call = r->Ok_0;
            &&& call.request == RpcRequest::SimulateTransaction
            &&& call.params is List
            &&& call.params->List_0@.len() == 2
            &&& call.params->List_0@[0] is Text
            &&& carries(
                call.params->List_0@[0]->Text_0@,
                given_or_base64(config.encoding),
                serialized->Ok_0@,
            )
            &&& call.params->List_0@[1] matches Param::SimulateTransaction(given) && {
                &&& given.encoding == Some(given_or_base64(config.encoding))
                &&& given.commitment is Some
                &&& config.commitment is Some ==> given.commitment == config.commitment
                &&& config.commitment is None ==> given.commitment->Some_0.commitment
                    == CommitmentLevel::Finalized
                &&& given.sig_verify == config.sig_verify
                &&& given.replace_recent_blockhash == config.replace_recent_blockhash
                &&& given.accounts == config.accounts
                &&& given.min_context_slot == config.min_context_slot
                &&& given.inner_instructions == config.inner_instructions
            }
        },
{
    if r is Ok {
        view_is_params(r->Ok_0);
    }
}

/// Without options a simulation runs in base 64 at the client's commitment.
pub proof fn simulating_by_default(
    client: RpcClient,
    serialized: Result<Vec<u8>, Box<BincodeErrorKind>>,
    r: Result<RpcCall, Error>,
)
    requires
        call_ensures(RpcClient::simulate_transaction, (&client, serialized), r),
    ensures
        r is Ok <==> serialized is Ok,
        r is Err ==> is_refused(serialized, UiTransactionEncoding::Base64, r->Err_0),
        r is Ok ==> {
            let call = r->Ok_0;
            &&& call.request == RpcRequest::SimulateTransaction
            &&& call.params is List
            &&& call.params->List_0@.len() == 2
            &&& call.params->List_0@[0] is Text
            &&& base64_bytes(call.params->List_0@[0]->Text_0@) == Some(serialized->Ok_0@)
            &&& call.params->List_0@[1] matches Param::SimulateTransaction(given) && {
                &&& given.encoding == Some(UiTransactionEncoding::Base64)
                &&& given.commitment == Some(client.spec_commitment())
                &&& !given.sig_verify
                &&& !given.replace_recent_blockhash
                &&& given.accounts is None
                &&& given.min_context_slot is None
                &&& !given.inner_instructions
            }
        },
{
    if r is Ok {
        view_is_params(r->Ok_0);
    }
}

/// The fee of a message is asked for with the bytes of the message, at the client's commitment.
pub proof fn fees_are_asked_for_the_message(
    client: RpcClient,
    serialized: Result<Vec<u8>, Box<BincodeErrorKind>>,
    r: Result<RpcCall, Error>,
)
    requires
        call_ensures(RpcClient::get_fee_for_message, (&client, serialized), r),
    ensures
        r is Ok <==> serialized is Ok,
        r is Err ==> is_refused(serialized, UiTransactionEncoding::Base64, r->Err_0),
        r is Ok ==> {
            let call = r->Ok_0;
            &&& call.request == RpcRequest::GetFeeForMessage
            &&& call.params is List
            &&& call.params->List_0@.len() == 2
            &&& call.params->List_0@[0] is Text
            &&& base64_bytes(call.params->List_0@[0]->Text_0@) == Some(serialized->Ok_0@)
            &&& call.params->List_0@[1] == Param::Commitment(client.spec_commitment())
        },
{
    if r is Ok {
        view_is_params(r->Ok_0);
    }
}

/// A sent transaction is accepted just where the node answers with its own signature, and then
/// under that signature. A node that answers with another one is told apart from one whose answer
/// is no signature.
pub proof fn only_the_own_signature_is_accepted(
    client: RpcClient,
    expected: Signature,
    reply: HostReply,
    r: Result<Signature, Error>,
)
    requires
        call_ensures(RpcClient::send_transaction_reply, (&client, &expected, reply), r),
    ensures
        r is Ok <==> is_success(reply) && json_string(body(reply)) is Ok && parsed_signature(
            json_string(body(reply))->Ok_0,
        ) == Ok::<Signature, Seq<char>>(expected),
        r is Ok ==> r->Ok_0 == expected,
        is_success(reply) && json_string(body(reply)) == Ok::<Seq<char>, JsonError>(
            signature_text(expected),
        ) ==> r is Ok,
        !is_success(reply) || json_string(body(reply)) is Err ==> is_failure(
            client.spec_tx_debug(),
            RpcRequest::SendTransaction,
            reply,
            r->Err_0,
        ),
        is_success(reply) && json_string(body(reply)) is Ok ==> match parsed_signature(
            json_string(body(reply))->Ok_0,
        ) {
            Ok(other) => other != expected ==> {
                &&& r->Err_0.request is None
                &&& r->Err_0.kind is RpcError
                &&& r->Err_0.kind->RpcError_0 is RpcRequestError
                &&& r->Err_0.kind->RpcError_0->RpcRequestError_0@
                    == "RPC node returned mismatched signature "@ + signature_text(other)
                    + ", expected "@ + signature_text(expected)
            },
            Err(why) => {
                &&& r->Err_0.request is None
                &&& r->Err_0.kind is RpcError
                &&& r->Err_0.kind->RpcError_0 is ParseError
                &&& r->Err_0.kind->RpcError_0->ParseError_0@ == why
            },
        },
{
}

/// The fee is the number that the node sent; a message that has none has an expired blockhash.
pub proof fn fees_are_handed_on(client: RpcClient, reply: HostReply, r: Result<u64, Error>)
    requires
        call_ensures(RpcClient::get_fee_for_message_reply, (&client, reply), r),
    ensures
        r is Ok <==> is_success(reply) && json_fee_response(body(reply)) is Ok && json_fee_response(
            body(reply),
        )->Ok_0.value is Some,
        r is Ok ==> Some(r->Ok_0) == json_fee_response(body(reply))->Ok_0.value,
        !is_success(reply) || json_fee_response(body(reply)) is Err ==> is_failure(
            client.spec_tx_debug(),
            RpcRequest::GetFeeForMessage,
            reply,
            r->Err_0,
        ),
        r is Err && is_success(reply) && json_fee_response(body(reply)) is Ok ==> {
            &&& r->Err_0.request is None
            &&& r->Err_0.kind is Custom
            &&& r->Err_0.kind->Custom_0@ == "Invalid blockhash"@
        },
{
}

/// An airdrop succeeds just where the node answers with a signature, and then with that one. Every
/// other outcome is told the user in the same words.
pub proof fn airdrops_succeed_with_a_signature(
    client: RpcClient,
    reply: HostReply,
    r: Result<Signature, Error>,
)
    requires
        call_ensures(RpcClient::request_airdrop_reply, (&client, reply), r),
    ensures
        r is Ok <==> is_success(reply) && json_string(body(reply)) is Ok && parsed_signature(
            json_string(body(reply))->Ok_0,
        ) is Ok,
        r is Ok ==> parsed_signature(json_string(body(reply))->Ok_0) == Ok::<Signature, Seq<char>>(
            r->Ok_0,
        ),
        r is Err ==> tells_user(
            r->Err_0,
            "airdrop request failed. This can happen when the rate limit is reached."@,
        ),
{
}

// ---------------------------------------------------------------------------------------------
// Statuses
// ---------------------------------------------------------------------------------------------

/// Statuses are handed on whole and in the order in which the node sent them.
pub proof fn statuses_are_handed_on(
    client: RpcClient,
    reply: HostReply,
    r: Result<Response<Vec<Option<TransactionStatus>>>, Error>,
)
    requires
        call_ensures(RpcClient::get_signature_statuses_reply, (&client, reply), r),
    ensures
        is_answer(
            client.spec_tx_debug(),
            RpcRequest::GetSignatureStatuses,
            reply,
            json_statuses(body(reply)),
            as_seq_in_context(r),
        ),
{
}

/// A transaction is finalized once it is rooted, confirmed once the node says so or, where the node
/// says nothing, once more than one block has confirmed it, and processed once it has a status.
pub proof fn commitments_are_reached(
    status: TransactionStatus,
    config: CommitmentConfig,
    r: bool,
)
    requires
        call_ensures(TransactionStatus::satisfies_commitment, (&status, config), r),
    ensures
        config.commitment == CommitmentLevel::Processed ==> r,
        config.commitment == CommitmentLevel::Finalized ==> (r <==> status.confirmations is None),
        config.commitment == CommitmentLevel::Confirmed && status.confirmation_status is Some ==> (r
            <==> status.confirmation_status->Some_0 == TransactionConfirmationStatus::Confirmed
            || status.confirmation_status->Some_0 == TransactionConfirmationStatus::Finalized),
        config.commitment == CommitmentLevel::Confirmed && status.confirmation_status is None ==> (r
            <==> status.confirmations is None || status.confirmations->Some_0 >= 2),
{
}

/// Whether a status has reached a commitment.
pub open spec fn has_reached(status: TransactionStatus, config: CommitmentConfig) -> bool {
    match config.commitment {
        CommitmentLevel::Processed => true,
        CommitmentLevel::Finalized => status.confirmations is None,
        CommitmentLevel::Confirmed => if status.confirmation_status is Some {
            status.confirmation_status->Some_0 != TransactionConfirmationStatus::Processed
        } else {
            status.confirmations is None || status.confirmations->Some_0 >= 2
        },
    }
}

/// Whether `r` is the outcome of the one transaction that was asked about: that of its status, just
/// where there is one and it has reached the commitment.
pub open spec fn is_outcome(
    tx_debug: bool,
    config: CommitmentConfig,
    reply: HostReply,
    r: Option<Result<Option<Result<(), TransactionError>>, Error>>,
) -> bool {
    if !is_success(reply) || json_statuses(body(reply)) is Err {
        r matches Some(Err(e)) && is_failure(tx_debug, RpcRequest::GetSignatureStatuses, reply, e)
    } else {
        let statuses = json_statuses(body(reply))->Ok_0.1;
        if statuses.len() == 0 {
            r is None
        } else {
            r matches Some(Ok(outcome)) && {
                &&& outcome is Some <==> statuses[0] is Some && has_reached(
                    statuses[0]->Some_0,
                    config,
                )
                &&& outcome is Some ==> outcome->Some_0 == statuses[0]->Some_0.status
            }
        }
    }
}

/// The outcome of a transaction is that of the first status of the reply, at the client's
/// commitment or at the one that was given.
pub proof fn outcomes_are_those_of_the_status(
    client: RpcClient,
    config: CommitmentConfig,
    reply: HostReply,
    r: Option<Result<Option<Result<(), TransactionError>>, Error>>,
)
    ensures
        call_ensures(RpcClient::get_signature_status_reply, (&client, reply), r) ==> is_outcome(
            client.spec_tx_debug(),
            client.spec_commitment(),
            reply,
            r,
        ),
        call_ensures(
            RpcClient::get_signature_status_with_commitment_reply,
            (&client, config, reply),
            r,
        ) ==> is_outcome(client.spec_tx_debug(), config, reply, r),
{
}

/// A transaction is confirmed just where it has a status, the status has reached the commitment and
/// it says that the transaction succeeded.
pub proof fn confirmed_is_succeeded(
    client: RpcClient,
    config: CommitmentConfig,
    reply: HostReply,
    context: RpcResponseContext,
    statuses: Seq<Option<TransactionStatus>>,
    bare: Option<Result<bool, Error>>,
    in_context: Option<Result<Response<bool>, Error>>,
)
    requires
        is_success(reply),
        json_statuses(body(reply)) == Ok::<
            (RpcResponseContext, Seq<Option<TransactionStatus>>),
            JsonError,
        >((context, statuses)),
    ensures
        call_ensures(RpcClient::confirm_transaction_reply, (&client, reply), bare) ==> {
            &&& bare is None <==> statuses.len() == 0
            &&& bare matches Some(x) ==> x is Ok && (x->Ok_0 <==> statuses[0] is Some
                && has_reached(statuses[0]->Some_0, client.spec_commitment())
                && statuses[0]->Some_0.status is Ok)
        },
        call_ensures(
            RpcClient::confirm_transaction_with_commitment_reply,
            (&client, config, reply),
            in_context,
        ) ==> {
            &&& in_context is None <==> statuses.len() == 0
            &&& in_context matches Some(x) ==> x is Ok && x->Ok_0.context == context && (
            x->Ok_0.value <==> statuses[0] is Some && has_reached(statuses[0]->Some_0, config)
                && statuses[0]->Some_0.status is Ok)
        },
{
}

/// Whether `r` is the number of blocks that have confirmed a transaction: the number that the node
/// sent, but never more than 32, which is what a rooted transaction has.
pub open spec fn is_count(status: Option<TransactionStatus>, r: Result<usize, Error>) -> bool {
    match status {
        Some(status) => r is Ok && r->Ok_0 <= 32 && match status.confirmations {
            Some(n) => n <= 32 ==> r->Ok_0 == n,
            None => r->Ok_0 == 32,
        } && (status.confirmations matches Some(n) && n > 32 ==> r->Ok_0 == 32),
        None => {
            &&& r is Err
            &&& r->Err_0.request == Some(RpcRequest::GetSignatureStatuses)
            &&& r->Err_0.kind is Custom
            &&& r->Err_0.kind->Custom_0@ == "signature not found"@
        },
    }
}

/// The blocks that have confirmed a transaction are counted up to 32.
pub proof fn confirmations_are_counted(
    client: RpcClient,
    reply: HostReply,
    statuses: Vec<Option<TransactionStatus>>,
    counted: Result<usize, Error>,
    r: Option<Result<usize, Error>>,
)
    ensures
        statuses@.len() > 0 && call_ensures(num_confirmations, (statuses,), counted) ==> is_count(
            statuses@[0],
            counted,
        ),
        call_ensures(
            RpcClient::get_num_blocks_since_signature_confirmation_reply,
            (&client, reply),
            r,
        ) ==> if !is_success(reply) || json_statuses(body(reply)) is Err {
            r matches Some(Err(e)) && is_failure(
                client.spec_tx_debug(),
                RpcRequest::GetSignatureStatuses,
                reply,
                e,
            )
        } else {
            let statuses = json_statuses(body(reply))->Ok_0.1;
            &&& r is None <==> statuses.len() == 0
            &&& r matches Some(x) ==> is_count(statuses[0], x)
        },
{
}

/// A failed question about a transaction is answered with the failure of the call.
pub proof fn failed_questions_about_transactions(
    client: RpcClient,
    config: CommitmentConfig,
    reply: HostReply,
    bare: Option<Result<bool, Error>>,
    in_context: Option<Result<Response<bool>, Error>>,
)
    requires
        !is_success(reply) || json_statuses(body(reply)) is Err,
    ensures
        call_ensures(RpcClient::confirm_transaction_reply, (&client, reply), bare) ==> (
        bare matches Some(Err(e)) && is_failure(
            client.spec_tx_debug(),
            RpcRequest::GetSignatureStatuses,
            reply,
            e,
        )),
        call_ensures(
            RpcClient::confirm_transaction_with_commitment_reply,
            (&client, config, reply),
            in_context,
        ) ==> (in_context matches Some(Err(e)) && is_failure(
            client.spec_tx_debug(),
            RpcRequest::GetSignatureStatuses,
            reply,
            e,
        )),
{
}

} // verus!
