//! Sending, simulating and following transactions.

use bincode::ErrorKind as BincodeErrorKind;
use serde_json::Error as JsonError;
use solana_rpc_client_types::response::{
    RpcResponseContext, RpcSimulateTransactionResult, TransactionError,
};
use vstd::prelude::*;
use vstd::string::*;

use crate::bindings::{
    base58_bytes, base58_decode, base58_encode, base58_text, base64_bytes, base64_decode,
    base64_encode, base64_text, bincode_error_is_io, bincode_error_text, bincode_error_to_string,
    hash_text, hash_to_string, json_fee_response, json_statuses, json_string, list_option,
    parse_fee_response, parse_statuses, parse_string, parsed_signature, pubkey_text,
    pubkey_to_string, signature_from_str, signature_text, signature_to_string, text_err,
    transaction_encoding_to_string,
};
use crate::bindings::replies::{json_simulation_response_reply, parse_simulation_response};
use crate::host::HostReply;
use crate::rpc_client::client::{reply_bytes, sent, RpcClient, RpcResult};
use crate::rpc_client::config::{
    commitment_or_default, CommitmentConfig, CommitmentLevel, RpcRequestAirdropConfig,
    RpcSendTransactionConfig, RpcSignatureStatusConfig, RpcSimulateTransactionConfig,
    UiTransactionEncoding,
};
use crate::rpc_client::error::{
    client_view, custom, custom_error, for_user, for_user_error, parse_error, parse_failure,
    ClientResult, ClientRpcError, ClientRpcErrorView, Error, ErrorKind, ErrorKindView, ErrorView,
};
use crate::rpc_client::keys::{Blockhash, Pubkey, Signature};
use crate::rpc_client::request::{
    call_view, call_with, text_option, texts, Param, ParamView, RpcCall, RpcCallView, RpcRequest,
};
use crate::rpc_client::response::{Response, TransactionStatus};
use crate::text::joined;

verus! {

/// Confirmations beyond which a node keeps no count.
pub const MAX_LOCKOUT_HISTORY: usize = 31;

// ---------------------------------------------------------------------------------------------
// Encoding a transaction
// ---------------------------------------------------------------------------------------------

/// Whether a transaction's bytes can be sent in this encoding.
pub open spec fn is_binary_encoding(encoding: UiTransactionEncoding) -> bool {
    encoding == UiTransactionEncoding::Base58 || encoding == UiTransactionEncoding::Base64
}

/// The text in which bytes are sent, or why they cannot be sent.
pub open spec fn encoded(bytes: Seq<u8>, encoding: UiTransactionEncoding) -> Result<
    Seq<char>,
    ErrorView,
> {
    match encoding {
        UiTransactionEncoding::Base58 => Ok(base58_text(bytes)),
        UiTransactionEncoding::Base64 => Ok(base64_text(bytes)),
        _ => Err(
            custom(
                "unsupported encoding: "@ + encoding.name()
                    + ". Supported encodings: base58, base64"@,
            ),
        ),
    }
}

/// The bytes that a text stands for in an encoding, where it stands for any.
pub open spec fn decoded(text: Seq<char>, encoding: UiTransactionEncoding) -> Option<Seq<u8>> {
    match encoding {
        UiTransactionEncoding::Base58 => base58_bytes(text),
        UiTransactionEncoding::Base64 => base64_bytes(text),
        _ => None,
    }
}

/// Whether `text` is what a serialization error that holds an I/O error displayed when it was asked.
/// The same error may display another text elsewhere: it can be the operating system's.
pub closed spec fn bincode_io_error_displays(err: BincodeErrorKind, text: Seq<char>) -> bool {
    exists|r: Result<String, String>| #[trigger]
        call_ensures(bincode_error_to_string, (&err,), r) && r is Err && r->Err_0@ == text
}

/// Whether `text` is the text of a serialization error.
pub open spec fn bincode_error_displays(err: BincodeErrorKind, text: Seq<char>) -> bool {
    if bincode_error_is_io(err) {
        bincode_io_error_displays(err, text)
    } else {
        text == bincode_error_text(err)
    }
}

/// Whether `r` is the text in which serialized bytes are sent, or why they cannot be sent. The text
/// decodes to just these bytes.
pub open spec fn is_encoded(
    serialized: Result<Vec<u8>, Box<BincodeErrorKind>>,
    encoding: UiTransactionEncoding,
    r: Result<Seq<char>, ErrorView>,
) -> bool {
    match serialized {
        Ok(bytes) => {
            &&& r == encoded(bytes@, encoding)
            &&& r matches Ok(text) ==> decoded(text, encoding) == Some(bytes@)
        },
        Err(e) => exists|text: Seq<char>| #[trigger]
            bincode_error_displays(*e, text) && r == Err::<Seq<char>, ErrorView>(
                custom("Serialization failed: "@ + text),
            ),
    }
}

/// The result of a call that returns a string.
pub open spec fn text_view(r: ClientResult<String>) -> Result<Seq<char>, ErrorView> {
    match r {
        Ok(s) => Ok(s@),
        Err(e) => Err(e@),
    }
}

/// The text of a serialization error.
fn bincode_error_message(err: &BincodeErrorKind) -> (r: String)
    ensures
        bincode_error_displays(*err, r@),
{
    let to_string = bincode_error_to_string;
    match to_string(err) {
        Ok(text) => text,
        Err(text) => text,
    }
}

/// The text in which a transaction or a message is sent, given what serializing it returned. Only
/// base 58 and base 64 carry bytes; any other encoding is refused. [`decode_serialized`] gives the
/// bytes back.
pub fn serialize_and_encode(
    serialized: Result<Vec<u8>, Box<BincodeErrorKind>>,
    encoding: UiTransactionEncoding,
) -> (r: ClientResult<String>)
    ensures
        is_encoded(serialized, encoding, text_view(r)),
{
    let bytes = match serialized {
        Ok(bytes) => bytes,
        Err(e) => {
            let text = bincode_error_message(&*e);
            return Err(custom_error(joined("Serialization failed: ", text.as_str())));
        },
    };
    match encoding {
        UiTransactionEncoding::Base58 => Ok(base58_encode(bytes.as_slice())),
        UiTransactionEncoding::Base64 => Ok(base64_encode(bytes.as_slice())),
        _ => {
            let name = transaction_encoding_to_string(encoding);
            let mut message = joined("unsupported encoding: ", name.as_str());
            message.append(". Supported encodings: base58, base64");
            Err(custom_error(message))
        },
    }
}

/// The bytes of a transaction or a message, given the text in which it was sent: none where the text
/// is malformed or the encoding carries no bytes.
pub fn decode_serialized(text: &str, encoding: UiTransactionEncoding) -> (r: Option<Vec<u8>>)
    ensures
        list_option(r) == decoded(text@, encoding),
{
    match encoding {
        UiTransactionEncoding::Base58 => base58_decode(text),
        UiTransactionEncoding::Base64 => base64_decode(text),
        _ => None,
    }
}

// ---------------------------------------------------------------------------------------------
// Sending
// ---------------------------------------------------------------------------------------------

/// The encoding that stands where none was given.
pub open spec fn encoding_or_base64(
    encoding: Option<UiTransactionEncoding>,
) -> UiTransactionEncoding {
    match encoding {
        Some(e) => e,
        None => UiTransactionEncoding::Base64,
    }
}

/// The commitment level that stands where none was given.
pub open spec fn level_or_default(level: Option<CommitmentLevel>) -> CommitmentLevel {
    match level {
        Some(l) => l,
        None => CommitmentLevel::Finalized,
    }
}

/// The options that are sent with a transaction: no encoding and no preflight commitment is left
/// for the node to choose.
pub open spec fn full_send_config(config: RpcSendTransactionConfig) -> RpcSendTransactionConfig {
    RpcSendTransactionConfig {
        encoding: Some(encoding_or_base64(config.encoding)),
        preflight_commitment: Some(level_or_default(config.preflight_commitment)),
        ..config
    }
}

/// The request that sends a transaction, given the text in which it is sent.
pub open spec fn send_transaction_call(
    encoded: Result<Seq<char>, ErrorView>,
    config: RpcSendTransactionConfig,
) -> Result<RpcCallView, ErrorView> {
    match encoded {
        Ok(text) => Ok(
            call_with(
                RpcRequest::SendTransaction,
                seq![ParamView::Text(text), ParamView::SendTransaction(full_send_config(config))],
            ),
        ),
        Err(e) => Err(e),
    }
}

/// Whether `r` is the request that sends a transaction, given what serializing it returned.
pub open spec fn sends_transaction(
    serialized: Result<Vec<u8>, Box<BincodeErrorKind>>,
    config: RpcSendTransactionConfig,
    r: Result<RpcCallView, ErrorView>,
) -> bool {
    exists|text: Result<Seq<char>, ErrorView>| #[trigger]
        is_encoded(serialized, encoding_or_base64(config.encoding), text) && r
            == send_transaction_call(text, config)
}

/// What the client makes of the signature that a node returned for a transaction whose signature
/// is `expected`.
pub open spec fn accepted(
    returned: Result<Signature, Seq<char>>,
    expected: Signature,
) -> Result<Signature, ErrorView> {
    match returned {
        Err(e) => Err(parse_error(e)),
        Ok(signature) => if signature == expected {
            Ok(expected)
        } else {
            Err(
                ErrorView {
                    request: None,
                    kind: ErrorKindView::RpcError(
                        ClientRpcErrorView::RpcRequestError(
                            "RPC node returned mismatched signature "@ + signature_text(signature)
                                + ", expected "@ + signature_text(expected),
                        ),
                    ),
                },
            )
        },
    }
}

/// The signature of a transaction that a node accepted, given what parsing the node's reply
/// returned. A node that returns another signature is not trusted: the transaction may or may not
/// have landed under that one, so it must not be passed on to confirmation.
pub fn accepted_signature(returned: Result<Signature, String>, expected: &Signature) -> (r:
    ClientResult<Signature>)
    ensures
        client_view(r) == accepted(text_err(returned), *expected),
{
    match returned {
        Err(e) => Err(parse_failure(e)),
        Ok(signature) => if signature.same(expected) {
            Ok(*expected)
        } else {
            let mut message = joined(
                "RPC node returned mismatched signature ",
                signature_to_string(&signature).as_str(),
            );
            message.append(", expected ");
            message.append(signature_to_string(expected).as_str());
            Err(Error::from(ClientRpcError::RpcRequestError(message)))
        },
    }
}

impl RpcClient {
    /// Submits a signed transaction, given its serialized bytes, with the client's commitment as
    /// the preflight commitment.
    pub fn send_transaction(&self, serialized: Result<Vec<u8>, Box<BincodeErrorKind>>) -> (r:
        ClientResult<RpcCall>)
        ensures
            sends_transaction(
                serialized,
                RpcSendTransactionConfig {
                    skip_preflight: false,
                    preflight_commitment: Some(self.spec_commitment().commitment),
                    encoding: None,
                    max_retries: None,
                    min_context_slot: None,
                },
                call_view(r),
            ),
    {
        let config = RpcSendTransactionConfig {
            preflight_commitment: Some(self.commitment().commitment),
            ..RpcSendTransactionConfig::default()
        };
        self.send_transaction_with_config(serialized, config)
    }

    /// Submits a signed transaction, given its serialized bytes. It is sent in base 64 and with the
    /// preflight commitment `Finalized` unless `config` says otherwise.
    pub fn send_transaction_with_config(
        &self,
        serialized: Result<Vec<u8>, Box<BincodeErrorKind>>,
        config: RpcSendTransactionConfig,
    ) -> (r: ClientResult<RpcCall>)
        ensures
            sends_transaction(serialized, config, call_view(r)),
    {
        let encoding = match config.encoding {
            Some(e) => e,
            None => UiTransactionEncoding::Base64,
        };
        let level = match config.preflight_commitment {
            Some(l) => l,
            None => CommitmentConfig::default().commitment,
        };
        let config = RpcSendTransactionConfig {
            encoding: Some(encoding),
            preflight_commitment: Some(level),
            ..config
        };
        match serialize_and_encode(serialized, encoding) {
            Ok(text) => Ok(
                RpcCall::with2(
                    RpcRequest::SendTransaction,
                    Param::Text(text),
                    Param::SendTransaction(config),
                ),
            ),
            Err(e) => Err(e),
        }
    }

    /// The reply to [`send_transaction`](Self::send_transaction) and
    /// [`send_transaction_with_config`](Self::send_transaction_with_config) of a transaction whose
    /// signature is `expected`. A node that echoes the signature is believed; one that returns
    /// another is not.
    pub fn send_transaction_reply(&self, expected: &Signature, reply: HostReply) -> (r:
        ClientResult<Signature>)
        ensures
            client_view(r) == match sent(
                self.spec_tx_debug(),
                RpcRequest::SendTransaction,
                reply,
                json_string(reply_bytes(reply)),
            ) {
                Ok(text) => accepted(parsed_signature(text), *expected),
                Err(e) => Err(e),
            },
            reply matches Ok(Ok(bytes)) && json_string(bytes@) == Ok::<Seq<char>, JsonError>(
                signature_text(*expected),
            ) ==> r == Ok::<Signature, Error>(*expected),
    {
        // The text of a signature parses to that signature.
        let _echo = signature_to_string(expected);
        match self.send(RpcRequest::SendTransaction, reply, parse_string) {
            Ok(text) => accepted_signature(signature_from_str(text.as_str()), expected),
            Err(e) => Err(e),
        }
    }
}

// ---------------------------------------------------------------------------------------------
// Simulating
// ---------------------------------------------------------------------------------------------

/// The request that simulates a transaction, given the text in which it is sent.
pub open spec fn simulate_transaction_call(
    encoded: Result<Seq<char>, ErrorView>,
    config: RpcSimulateTransactionConfig,
) -> Result<RpcCallView, ErrorView> {
    match encoded {
        Ok(text) => Ok(
            call_with(
                RpcRequest::SimulateTransaction,
                seq![
                    ParamView::Text(text),
                    ParamView::SimulateTransaction(
                        RpcSimulateTransactionConfig {
                            encoding: Some(encoding_or_base64(config.encoding)),
                            commitment: Some(commitment_or_default(config.commitment)),
                            ..config
                        },
                    ),
                ],
            ),
        ),
        Err(e) => Err(e),
    }
}

/// Whether `r` is the request that simulates a transaction, given what serializing it returned.
pub open spec fn simulates_transaction(
    serialized: Result<Vec<u8>, Box<BincodeErrorKind>>,
    config: RpcSimulateTransactionConfig,
    r: Result<RpcCallView, ErrorView>,
) -> bool {
    exists|text: Result<Seq<char>, ErrorView>| #[trigger]
        is_encoded(serialized, encoding_or_base64(config.encoding), text) && r
            == simulate_transaction_call(text, config)
}

impl RpcClient {
    /// Runs a transaction through the node's simulator without broadcasting it, at the client's
    /// commitment.
    pub fn simulate_transaction(&self, serialized: Result<Vec<u8>, Box<BincodeErrorKind>>) -> (r:
        ClientResult<RpcCall>)
        ensures
            simulates_transaction(
                serialized,
                RpcSimulateTransactionConfig {
                    sig_verify: false,
                    replace_recent_blockhash: false,
                    commitment: Some(self.spec_commitment()),
                    encoding: None,
                    accounts: None,
                    min_context_slot: None,
                    inner_instructions: false,
                },
                call_view(r),
            ),
    {
        let config = RpcSimulateTransactionConfig {
            commitment: Some(self.commitment()),
            ..RpcSimulateTransactionConfig::default()
        };
        self.simulate_transaction_with_config(serialized, config)
    }

    /// Runs a transaction through the node's simulator with the given options. It is sent in base
    /// 64 and simulated at `Finalized` unless `config` says otherwise.
    pub fn simulate_transaction_with_config(
        &self,
        serialized: Result<Vec<u8>, Box<BincodeErrorKind>>,
        config: RpcSimulateTransactionConfig,
    ) -> (r: ClientResult<RpcCall>)
        ensures
            simulates_transaction(serialized, config, call_view(r)),
    {
        let encoding = match config.encoding {
            Some(e) => e,
            None => UiTransactionEncoding::Base64,
        };
        let commitment = CommitmentConfig::or_default(config.commitment);
        let config = RpcSimulateTransactionConfig {
            encoding: Some(encoding),
            commitment: Some(commitment),
            ..config
        };
        match serialize_and_encode(serialized, encoding) {
            Ok(text) => Ok(
                RpcCall::with2(
                    RpcRequest::SimulateTransaction,
                    Param::Text(text),
                    Param::SimulateTransaction(config),
                ),
            ),
            Err(e) => Err(e),
        }
    }

    /// The reply to [`simulate_transaction`](Self::simulate_transaction) and
    /// [`simulate_transaction_with_config`](Self::simulate_transaction_with_config).
    pub fn simulate_transaction_reply(&self, reply: HostReply) -> (r: RpcResult<
        RpcSimulateTransactionResult,
    >)
        ensures
            client_view(r) == sent(
                self.spec_tx_debug(),
                RpcRequest::SimulateTransaction,
                reply,
                json_simulation_response_reply(reply_bytes(reply)),
            ),
    {
        self.send(RpcRequest::SimulateTransaction, reply, parse_simulation_response)
    }
}

// ---------------------------------------------------------------------------------------------
// Statuses
// ---------------------------------------------------------------------------------------------

/// The base-58 texts of signatures.
pub open spec fn signature_texts(signatures: Seq<Signature>) -> Seq<Seq<char>> {
    Seq::new(signatures.len(), |i: int| signature_text(signatures[i]))
}

/// Whether the text of each of these signatures parses to that very signature.
pub open spec fn texts_parse_back(signatures: Seq<Signature>) -> bool {
    forall|i: int|
        0 <= i < signatures.len() ==> parsed_signature(signature_text(#[trigger] signatures[i]))
            == Ok::<Signature, Seq<char>>(signatures[i])
}

fn signature_strings(signatures: &[Signature]) -> (r: Vec<String>)
    ensures
        texts(r@) == signature_texts(signatures@),
        texts_parse_back(signatures@),
{
    let mut r: Vec<String> = Vec::new();
    let mut i: usize = 0;
    while i < signatures.len()
        invariant
            i <= signatures@.len(),
            r@.len() == i,
            forall|j: int| 0 <= j < i ==> (#[trigger] r@[j])@ == signature_text(signatures@[j]),
            texts_parse_back(signatures@.take(i as int)),
        decreases signatures@.len() - i,
    {
        let ghost before = signatures@.take(i as int);
        r.push(signature_to_string(&signatures[i]));
        assert(texts_parse_back(signatures@.take(i + 1))) by {
            assert(forall|j: int| 0 <= j < i ==> before[j] == #[trigger] signatures@.take(i + 1)[j]);
        }
        i = i + 1;
    }
    assert(texts(r@) =~= signature_texts(signatures@));
    assert(signatures@.take(signatures@.len() as int) =~= signatures@);
    r
}

/// The request for the statuses of signatures. The node looks beyond its recent statuses only where
/// `search_history` says so.
pub open spec fn signature_statuses_call(
    signatures: Seq<Signature>,
    search_history: Option<bool>,
) -> RpcCallView {
    let texts = ParamView::Texts(signature_texts(signatures));
    match search_history {
        None => call_with(RpcRequest::GetSignatureStatuses, seq![texts]),
        Some(search_transaction_history) => call_with(
            RpcRequest::GetSignatureStatuses,
            seq![
                texts,
                ParamView::SignatureStatus(RpcSignatureStatusConfig { search_transaction_history }),
            ],
        ),
    }
}

fn signature_statuses_request(signatures: &[Signature], search_history: Option<bool>) -> (r: RpcCall)
    ensures
        r@ == signature_statuses_call(signatures@, search_history),
        texts_parse_back(signatures@),
{
    let texts = Param::Texts(signature_strings(signatures));
    match search_history {
        None => RpcCall::with1(RpcRequest::GetSignatureStatuses, texts),
        Some(search_transaction_history) => RpcCall::with2(
            RpcRequest::GetSignatureStatuses,
            texts,
            Param::SignatureStatus(RpcSignatureStatusConfig { search_transaction_history }),
        ),
    }
}

/// The reply to a request for statuses, its list as a sequence.
pub open spec fn statuses_view(r: RpcResult<Vec<Option<TransactionStatus>>>) -> Result<
    (RpcResponseContext, Seq<Option<TransactionStatus>>),
    ErrorView,
> {
    match r {
        Ok(reply) => Ok((reply.context, reply.value@)),
        Err(e) => Err(e@),
    }
}

/// What a reply says of the statuses that were asked for.
pub open spec fn sent_statuses(tx_debug: bool, reply: HostReply) -> Result<
    (RpcResponseContext, Seq<Option<TransactionStatus>>),
    ErrorView,
> {
    sent(
        tx_debug,
        RpcRequest::GetSignatureStatuses,
        reply,
        json_statuses(reply_bytes(reply)),
    )
}

/// Whether a status has reached `commitment` and is a success.
pub open spec fn is_confirmed(
    status: Option<TransactionStatus>,
    commitment: CommitmentConfig,
) -> bool {
    match status {
        Some(status) => status.spec_satisfies_commitment(commitment) && status.status is Ok,
        None => false,
    }
}

/// The outcome of a transaction, where its status has reached `commitment`.
pub open spec fn outcome_at(
    status: Option<TransactionStatus>,
    commitment: CommitmentConfig,
) -> Option<Result<(), TransactionError>> {
    match status {
        Some(status) => if status.spec_satisfies_commitment(commitment) {
            Some(status.status)
        } else {
            None
        },
        None => None,
    }
}

/// How many blocks have confirmed a transaction. The count stops at one more than a node keeps count
/// of; a rooted transaction has that count.
pub open spec fn confirmations(status: Option<TransactionStatus>) -> Result<usize, ErrorView> {
    match status {
        None => Err(
            custom("signature not found"@).with_request(RpcRequest::GetSignatureStatuses),
        ),
        Some(status) => match status.confirmations {
            Some(n) => Ok(
                if n <= MAX_LOCKOUT_HISTORY + 1 {
                    n
                } else {
                    (MAX_LOCKOUT_HISTORY + 1) as usize
                },
            ),
            None => Ok((MAX_LOCKOUT_HISTORY + 1) as usize),
        },
    }
}

/// The first status of a list.
fn first_status(statuses: Vec<Option<TransactionStatus>>) -> (r: Option<TransactionStatus>)
    requires
        statuses@.len() > 0,
    ensures
        r == statuses@[0],
{
    let mut statuses = statuses;
    statuses.swap_remove(0)
}

/// Whether the one signature that was asked about has reached `commitment_config` and succeeded.
/// `false` both where it was not found and where it failed.
pub fn confirmed(
    statuses: Response<Vec<Option<TransactionStatus>>>,
    commitment_config: CommitmentConfig,
) -> (r: Response<bool>)
    requires
        statuses.value@.len() > 0,
    ensures
        r == (Response {
            context: statuses.context,
            value: is_confirmed(statuses.value@[0], commitment_config),
        }),
{
    let Response { context, value } = statuses;
    let value = match first_status(value) {
        Some(status) => status.satisfies_commitment(commitment_config) && status.status.is_ok(),
        None => false,
    };
    Response { context, value }
}

/// The outcome of the one transaction that was asked about, where it has reached
/// `commitment_config`.
pub fn signature_outcome(
    statuses: Vec<Option<TransactionStatus>>,
    commitment_config: CommitmentConfig,
) -> (r: Option<Result<(), TransactionError>>)
    requires
        statuses@.len() > 0,
    ensures
        r == outcome_at(statuses@[0], commitment_config),
{
    match first_status(statuses) {
        Some(status) => if status.satisfies_commitment(commitment_config) {
            Some(status.status)
        } else {
            None
        },
        None => None,
    }
}

/// The confirmation count of the one transaction that was asked about.
pub fn num_confirmations(statuses: Vec<Option<TransactionStatus>>) -> (r: ClientResult<usize>)
    requires
        statuses@.len() > 0,
    ensures
        client_view(r) == confirmations(statuses@[0]),
{
    match first_status(statuses) {
        Some(status) => match status.confirmations {
            Some(n) => if n <= MAX_LOCKOUT_HISTORY + 1 {
                Ok(n)
            } else {
                Ok(MAX_LOCKOUT_HISTORY + 1)
            },
            None => Ok(MAX_LOCKOUT_HISTORY + 1),
        },
        None => Err(
            Error::new_with_request(
                ErrorKind::Custom("signature not found".to_owned()),
                RpcRequest::GetSignatureStatuses,
            ),
        ),
    }
}

impl RpcClient {
    /// Statuses of up to 256 signatures, out of the node's recent ones.
    pub fn get_signature_statuses(&self, signatures: &[Signature]) -> (r: RpcCall)
        ensures
            r@ == signature_statuses_call(signatures@, None),
            texts_parse_back(signatures@),
    {
        signature_statuses_request(signatures, None)
    }

    /// Statuses of up to 256 signatures; the node searches its history for them.
    pub fn get_signature_statuses_with_history(&self, signatures: &[Signature]) -> (r: RpcCall)
        ensures
            r@ == signature_statuses_call(signatures@, Some(true)),
            texts_parse_back(signatures@),
    {
        signature_statuses_request(signatures, Some(true))
    }

    /// The reply to [`get_signature_statuses`](Self::get_signature_statuses) and
    /// [`get_signature_statuses_with_history`](Self::get_signature_statuses_with_history).
    pub fn get_signature_statuses_reply(&self, reply: HostReply) -> (r: RpcResult<
        Vec<Option<TransactionStatus>>,
    >)
        ensures
            statuses_view(r) == sent_statuses(self.spec_tx_debug(), reply),
    {
        self.send(RpcRequest::GetSignatureStatuses, reply, parse_statuses)
    }

    /// The status of one signature at the client's commitment.
    pub fn get_signature_status(&self, signature: &Signature) -> (r: RpcCall)
        ensures
            r@ == signature_statuses_call(seq![*signature], None),
    {
        self.get_signature_status_with_commitment(signature, self.commitment())
    }

    /// The status of one signature at `commitment_config`, which is not sent: the reply is filtered
    /// by it.
    pub fn get_signature_status_with_commitment(
        &self,
        signature: &Signature,
        commitment_config: CommitmentConfig,
    ) -> (r: RpcCall)
        ensures
            r@ == signature_statuses_call(seq![*signature], None),
    {
        let one = [*signature];
        assert(one@ =~= seq![*signature]);
        signature_statuses_request(one.as_slice(), None)
    }

    /// The status of one signature; the node searches its history where
    /// `search_transaction_history` says so. The reply is filtered by `commitment_config`.
    pub fn get_signature_status_with_commitment_and_history(
        &self,
        signature: &Signature,
        commitment_config: CommitmentConfig,
        search_transaction_history: bool,
    ) -> (r: RpcCall)
        ensures
            r@ == signature_statuses_call(seq![*signature], Some(search_transaction_history)),
    {
        let one = [*signature];
        assert(one@ =~= seq![*signature]);
        signature_statuses_request(one.as_slice(), Some(search_transaction_history))
    }

    /// The reply to [`get_signature_status`](Self::get_signature_status). `None` where the node
    /// returned no status, not even an empty one.
    pub fn get_signature_status_reply(&self, reply: HostReply) -> (r: Option<
        ClientResult<Option<Result<(), TransactionError>>>,
    >)
        ensures
            match sent_statuses(self.spec_tx_debug(), reply) {
                Ok((_, statuses)) => if statuses.len() == 0 {
                    r is None
                } else {
                    r matches Some(Ok(outcome)) && outcome == outcome_at(
                        statuses[0],
                        self.spec_commitment(),
                    )
                },
                Err(e) => r matches Some(Err(x)) && x@ == e,
            },
    {
        self.get_signature_status_with_commitment_reply(self.commitment(), reply)
    }

    /// The reply to
    /// [`get_signature_status_with_commitment`](Self::get_signature_status_with_commitment) and
    /// `get_signature_status_with_commitment_and_history`: the outcome of the transaction
    /// where it has reached `commitment_config`, or none. `None` where the node returned no status,
    /// not even an empty one.
    pub fn get_signature_status_with_commitment_reply(
        &self,
        commitment_config: CommitmentConfig,
        reply: HostReply,
    ) -> (r: Option<ClientResult<Option<Result<(), TransactionError>>>>)
        ensures
            match sent_statuses(self.spec_tx_debug(), reply) {
                Ok((_, statuses)) => if statuses.len() == 0 {
                    r is None
                } else {
                    r matches Some(Ok(outcome)) && outcome == outcome_at(
                        statuses[0],
                        commitment_config,
                    )
                },
                Err(e) => r matches Some(Err(x)) && x@ == e,
            },
    {
        match self.get_signature_statuses_reply(reply) {
            Ok(Response { context: _, value }) => if value.len() == 0 {
                None
            } else {
                Some(Ok(signature_outcome(value, commitment_config)))
            },
            Err(e) => Some(Err(e)),
        }
    }

    /// Whether a signature has reached the client's commitment and succeeded.
    pub fn confirm_transaction(&self, signature: &Signature) -> (r: RpcCall)
        ensures
            r@ == signature_statuses_call(seq![*signature], None),
    {
        self.confirm_transaction_with_commitment(signature, self.commitment())
    }

    /// Whether a signature has reached `commitment_config`, which is not sent, and succeeded.
    pub fn confirm_transaction_with_commitment(
        &self,
        signature: &Signature,
        commitment_config: CommitmentConfig,
    ) -> (r: RpcCall)
        ensures
            r@ == signature_statuses_call(seq![*signature], None),
    {
        let one = [*signature];
        assert(one@ =~= seq![*signature]);
        self.get_signature_statuses(one.as_slice())
    }

    /// The reply to [`confirm_transaction`](Self::confirm_transaction). `None` where the node
    /// returned no status, not even an empty one.
    pub fn confirm_transaction_reply(&self, reply: HostReply) -> (r: Option<ClientResult<bool>>)
        ensures
            match sent_statuses(self.spec_tx_debug(), reply) {
                Ok((_, statuses)) => if statuses.len() == 0 {
                    r is None
                } else {
                    r matches Some(Ok(b)) && b == is_confirmed(statuses[0], self.spec_commitment())
                },
                Err(e) => r matches Some(Err(x)) && x@ == e,
            },
    {
        match self.confirm_transaction_with_commitment_reply(self.commitment(), reply) {
            Some(Ok(Response { context: _, value })) => Some(Ok(value)),
            Some(Err(e)) => Some(Err(e)),
            None => None,
        }
    }

    /// The reply to
    /// [`confirm_transaction_with_commitment`](Self::confirm_transaction_with_commitment), with its
    /// context. `None` where the node returned no status, not even an empty one.
    pub fn confirm_transaction_with_commitment_reply(
        &self,
        commitment_config: CommitmentConfig,
        reply: HostReply,
    ) -> (r: Option<RpcResult<bool>>)
        ensures
            match sent_statuses(self.spec_tx_debug(), reply) {
                Ok((context, statuses)) => if statuses.len() == 0 {
                    r is None
                } else {
                    r matches Some(Ok(x)) && x == (Response {
                        context,
                        value: is_confirmed(statuses[0], commitment_config),
                    })
                },
                Err(e) => r matches Some(Err(x)) && x@ == e,
            },
    {
        match self.get_signature_statuses_reply(reply) {
            Ok(statuses) => if statuses.value.len() == 0 {
                None
            } else {
                Some(Ok(confirmed(statuses, commitment_config)))
            },
            Err(e) => Some(Err(e)),
        }
    }

    /// How many blocks have confirmed a transaction.
    pub fn get_num_blocks_since_signature_confirmation(&self, signature: &Signature) -> (r: RpcCall)
        ensures
            r@ == signature_statuses_call(seq![*signature], None),
    {
        let one = [*signature];
        assert(one@ =~= seq![*signature]);
        signature_statuses_request(one.as_slice(), None)
    }

    /// The reply to `get_num_blocks_since_signature_confirmation`. `None` where the node returned no
    /// status, not even an empty one.
    pub fn get_num_blocks_since_signature_confirmation_reply(&self, reply: HostReply) -> (r: Option<
        ClientResult<usize>,
    >)
        ensures
            match sent_statuses(self.spec_tx_debug(), reply) {
                Ok((_, statuses)) => if statuses.len() == 0 {
                    r is None
                } else {
                    r matches Some(x) && client_view(x) == confirmations(statuses[0])
                },
                Err(e) => r matches Some(Err(x)) && x@ == e,
            },
    {
        match self.get_signature_statuses_reply(reply) {
            Ok(Response { context: _, value }) => if value.len() == 0 {
                None
            } else {
                Some(num_confirmations(value))
            },
            Err(e) => Some(Err(e)),
        }
    }
}

// ---------------------------------------------------------------------------------------------
// Fees and airdrops
// ---------------------------------------------------------------------------------------------

/// The fee of a message, given what the node said of it: nothing is said of a message whose
/// blockhash has expired.
pub fn message_fee(fee: Option<u64>) -> (r: ClientResult<u64>)
    ensures
        client_view(r) == match fee {
            Some(fee) => Ok::<u64, ErrorView>(fee),
            None => Err(custom("Invalid blockhash"@)),
        },
{
    match fee {
        Some(fee) => Ok(fee),
        None => Err(custom_error("Invalid blockhash".to_owned())),
    }
}

/// The one error of a failed airdrop, whatever its cause.
pub open spec fn airdrop_failed() -> ErrorView {
    for_user("airdrop request failed. This can happen when the rate limit is reached."@)
}

fn airdrop_failure() -> (r: Error)
    ensures
        r@ == airdrop_failed(),
{
    for_user_error(
        "airdrop request failed. This can happen when the rate limit is reached.".to_owned(),
    )
}

/// The signature of an airdrop, given what parsing the node's reply returned.
pub fn airdrop_signature(returned: Result<Signature, String>) -> (r: ClientResult<Signature>)
    ensures
        client_view(r) == match text_err(returned) {
            Ok(signature) => Ok::<Signature, ErrorView>(signature),
            Err(_) => Err(airdrop_failed()),
        },
{
    match returned {
        Ok(signature) => Ok(signature),
        Err(_) => Err(airdrop_failure()),
    }
}

/// The request for an airdrop.
pub open spec fn airdrop_call(
    pubkey: Pubkey,
    lamports: u64,
    recent_blockhash: Option<Seq<char>>,
    commitment: CommitmentConfig,
) -> RpcCallView {
    call_with(
        RpcRequest::RequestAirdrop,
        seq![
            ParamView::Text(pubkey_text(pubkey)),
            ParamView::Number(lamports),
            ParamView::Airdrop { recent_blockhash, commitment: Some(commitment) },
        ],
    )
}

/// The request for the fee of a message, given the text in which it is sent.
pub open spec fn fee_for_message_call(
    encoded: Result<Seq<char>, ErrorView>,
    commitment: CommitmentConfig,
) -> Result<RpcCallView, ErrorView> {
    match encoded {
        Ok(text) => Ok(
            call_with(
                RpcRequest::GetFeeForMessage,
                seq![ParamView::Text(text), ParamView::Commitment(commitment)],
            ),
        ),
        Err(e) => Err(e),
    }
}

impl RpcClient {
    /// The fee that the network would charge for a message, given its serialized bytes.
    pub fn get_fee_for_message(&self, serialized: Result<Vec<u8>, Box<BincodeErrorKind>>) -> (r:
        ClientResult<RpcCall>)
        ensures
            exists|text: Result<Seq<char>, ErrorView>| #[trigger]
                is_encoded(serialized, UiTransactionEncoding::Base64, text) && call_view(r)
                    == fee_for_message_call(text, self.spec_commitment()),
    {
        match serialize_and_encode(serialized, UiTransactionEncoding::Base64) {
            Ok(text) => Ok(
                RpcCall::with2(
                    RpcRequest::GetFeeForMessage,
                    Param::Text(text),
                    Param::Commitment(self.commitment()),
                ),
            ),
            Err(e) => Err(e),
        }
    }

    /// The reply to [`get_fee_for_message`](Self::get_fee_for_message).
    pub fn get_fee_for_message_reply(&self, reply: HostReply) -> (r: ClientResult<u64>)
        ensures
            client_view(r) == match sent(
                self.spec_tx_debug(),
                RpcRequest::GetFeeForMessage,
                reply,
                json_fee_response(reply_bytes(reply)),
            ) {
                Ok(Response { context: _, value: Some(fee) }) => Ok::<u64, ErrorView>(fee),
                Ok(_) => Err(custom("Invalid blockhash"@)),
                Err(e) => Err(e),
            },
    {
        match self.send(RpcRequest::GetFeeForMessage, reply, parse_fee_response) {
            Ok(Response { context: _, value }) => message_fee(value),
            Err(e) => Err(e),
        }
    }

    /// An airdrop at the client's commitment.
    pub fn request_airdrop(&self, pubkey: &Pubkey, lamports: u64) -> (r: RpcCall)
        ensures
            r@ == airdrop_call(*pubkey, lamports, None, self.spec_commitment()),
    {
        let config = RpcRequestAirdropConfig {
            commitment: Some(self.commitment()),
            ..RpcRequestAirdropConfig::default()
        };
        self.request_airdrop_with_config(pubkey, lamports, config)
    }

    /// An airdrop at the client's commitment, with a given recent blockhash.
    pub fn request_airdrop_with_blockhash(
        &self,
        pubkey: &Pubkey,
        lamports: u64,
        recent_blockhash: &Blockhash,
    ) -> (r: RpcCall)
        ensures
            r@ == airdrop_call(
                *pubkey,
                lamports,
                Some(hash_text(*recent_blockhash)),
                self.spec_commitment(),
            ),
    {
        let config = RpcRequestAirdropConfig {
            commitment: Some(self.commitment()),
            recent_blockhash: Some(hash_to_string(recent_blockhash)),
        };
        self.request_airdrop_with_config(pubkey, lamports, config)
    }

    /// An airdrop with the given options; at `Finalized` unless `config` says otherwise.
    pub fn request_airdrop_with_config(
        &self,
        pubkey: &Pubkey,
        lamports: u64,
        config: RpcRequestAirdropConfig,
    ) -> (r: RpcCall)
        ensures
            r@ == airdrop_call(
                *pubkey,
                lamports,
                text_option(config.recent_blockhash),
                commitment_or_default(config.commitment),
            ),
    {
        let commitment = CommitmentConfig::or_default(config.commitment);
        let config = RpcRequestAirdropConfig { commitment: Some(commitment), ..config };
        RpcCall::with3(
            RpcRequest::RequestAirdrop,
            Param::Text(pubkey_to_string(pubkey)),
            Param::Number(lamports),
            Param::Airdrop(config),
        )
    }

    /// The reply to the three airdrop requests. Any failure, of the call or of its reply, becomes
    /// one message for the user: the common cause is rate limiting.
    pub fn request_airdrop_reply(&self, reply: HostReply) -> (r: ClientResult<Signature>)
        ensures
            client_view(r) == match sent(
                self.spec_tx_debug(),
                RpcRequest::RequestAirdrop,
                reply,
                json_string(reply_bytes(reply)),
            ) {
                Ok(text) => match parsed_signature(text) {
                    Ok(signature) => Ok::<Signature, ErrorView>(signature),
                    Err(_) => Err(airdrop_failed()),
                },
                Err(_) => Err(airdrop_failed()),
            },
    {
        match self.send(RpcRequest::RequestAirdrop, reply, parse_string) {
            Ok(text) => airdrop_signature(signature_from_str(text.as_str())),
            Err(_) => Err(airdrop_failure()),
        }
    }
}

// ---------------------------------------------------------------------------------------------
// Laws
// ---------------------------------------------------------------------------------------------

/// Bytes are sent just in the two encodings that carry bytes.
pub proof fn only_binary_encodings(
    bytes: Vec<u8>,
    encoding: UiTransactionEncoding,
    r: Result<Seq<char>, ErrorView>,
)
    requires
        is_encoded(Ok(bytes), encoding, r),
    ensures
        r is Ok <==> is_binary_encoding(encoding),
{
}

/// Decoding undoes encoding: what is sent stands for just the bytes that were serialized.
pub proof fn decoding_undoes_encoding(
    serialized: Result<Vec<u8>, Box<BincodeErrorKind>>,
    encoding: UiTransactionEncoding,
    text: Seq<char>,
)
    requires
        is_encoded(serialized, encoding, Ok(text)),
    ensures
        serialized matches Ok(bytes) && decoded(text, encoding) == Some(bytes@),
{
}

/// A transaction goes out in the encoding that its options name, and its bytes come back by that
/// encoding.
pub proof fn sent_as_announced(
    bytes: Vec<u8>,
    config: RpcSendTransactionConfig,
    call: RpcCallView,
)
    requires
        sends_transaction(Ok(bytes), config, Ok(call)),
    ensures
        call.params matches Some(params) && params.len() == 2,
        call.params->Some_0[0] is Text,
        call.params->Some_0[1] matches ParamView::SendTransaction(announced) && (
        announced.encoding matches Some(encoding) && is_binary_encoding(encoding) && decoded(
            call.params->Some_0[0]->Text_0,
            encoding,
        ) == Some(bytes@)),
{
}

/// The options that are sent leave nothing more to fill in.
pub proof fn full_send_config_is_full(config: RpcSendTransactionConfig)
    ensures
        full_send_config(config).encoding is Some,
        full_send_config(config).preflight_commitment is Some,
        full_send_config(full_send_config(config)) == full_send_config(config),
{
}

/// A signature is accepted just where it is the one that was expected.
pub proof fn accepted_is_expected(returned: Result<Signature, Seq<char>>, expected: Signature)
    ensures
        accepted(returned, expected) is Ok <==> returned == Ok::<Signature, Seq<char>>(expected),
        accepted(returned, expected) matches Ok(signature) ==> signature == expected,
{
}

/// Confirming a transaction and asking for its status agree: it is confirmed just where its outcome
/// at that commitment is a success.
pub proof fn confirmed_is_successful_outcome(
    status: Option<TransactionStatus>,
    commitment: CommitmentConfig,
)
    ensures
        is_confirmed(status, commitment) <==> (outcome_at(status, commitment) matches Some(
            outcome,
        ) && outcome is Ok),
{
}

/// An outcome at a commitment is that of a status that has reached it.
pub proof fn outcome_has_reached_commitment(
    status: Option<TransactionStatus>,
    commitment: CommitmentConfig,
)
    ensures
        outcome_at(status, commitment) matches Some(outcome) ==> {
            &&& status is Some
            &&& status->Some_0.spec_satisfies_commitment(commitment)
            &&& status->Some_0.status == outcome
        },
{
}

/// The text of a serialization error that holds an I/O error is what that very error displayed.
pub(crate) proof fn serialization_texts_are_of_their_errors(err: BincodeErrorKind, text: Seq<char>)
    ensures
        bincode_io_error_displays(err, text) ==> exists|r: Result<String, String>| #[trigger]
            call_ensures(bincode_error_to_string, (&err,), r) && r is Err && r->Err_0@ == text,
{
}

} // verus!
