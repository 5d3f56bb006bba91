//! Functions of other crates that the library calls.
//!
//! Nothing in this module is proved. Each item says what the library assumes of the function that
//! it calls, and where that function comes from. A result that takes more than a few lines to
//! describe has a name instead: a function without a definition, of which the library knows only
//! that equal arguments have equal results.

pub mod replies;

use base64::prelude::BASE64_STANDARD;
use base64::Engine;
use bincode::ErrorKind as BincodeErrorKind;
use core::future::Future;
use core::pin::Pin;
use core::str::FromStr;
use core::task::{Context, Poll, Waker};
use serde_json::{Error as JsonError, Value};
use solana_account_decoder_client_types::token::UiTokenAccount;
use solana_account_decoder_client_types::{token, UiAccountData};
use solana_rpc_client_types::response::{
    OptionalContext, RpcBlockhash, RpcIdentity, RpcKeyedAccount, RpcResponseContext,
    RpcSimulateTransactionResult, TransactionError, UiAccount,
};
use solana_rpc_client_types::{request, response};
use solana_sdk::bs58;
use solana_transaction_status_client_types as status;
use solana_transaction_status_client_types::{
    TransactionConfirmationStatus as WireLevel, TransactionStatus as WireStatus,
};
use vstd::future::FutureAdditionalSpecFns;
use vstd::prelude::*;

use crate::rpc_client::config::UiTransactionEncoding;
use crate::rpc_client::error::RpcResponseErrorData;
use crate::rpc_client::keys::{Blockhash, Pubkey, Signature};
use crate::rpc_client::request::texts;
use crate::rpc_client::response::{
    Account, AccountView, Response, TokenAccountType, TransactionConfirmationStatus,
    TransactionStatus,
};

verus! {

/// `serde_json::Value`: any JSON value.
#[verifier::external_type_specification]
#[verifier::external_body]
pub struct ExValue(Value);

/// `serde_json::Error`: why JSON could not be read or written.
#[verifier::external_type_specification]
#[verifier::external_body]
pub struct ExJsonError(JsonError);

/// `solana_transaction_error::TransactionError`: why a transaction failed on chain.
#[verifier::external_type_specification]
#[verifier::external_body]
pub struct ExTransactionError(TransactionError);

/// `solana_rpc_client_types::response::RpcResponseContext`: where a node stood when it replied.
#[verifier::external_type_specification]
#[verifier::external_body]
pub struct ExRpcResponseContext(RpcResponseContext);

/// `solana_rpc_client_types::response::RpcSimulateTransactionResult`: a transaction simulation.
#[verifier::external_type_specification]
#[verifier::external_body]
pub struct ExRpcSimulateTransactionResult(RpcSimulateTransactionResult);

/// `solana_account_decoder_client_types::UiAccount`: an account as a node encodes it.
#[verifier::external_type_specification]
#[verifier::external_body]
pub struct ExUiAccount(UiAccount);

/// `solana_account_decoder_client_types::token::UiTokenAccount`: a token account as a node
/// describes it.
#[verifier::external_type_specification]
#[verifier::external_body]
pub struct ExUiTokenAccount(UiTokenAccount);

/// Whether a `serde_json::Error` holds an I/O error.
pub uninterp spec fn json_error_is_io(err: JsonError) -> bool;

/// What a `serde_json::Error` displays that holds no I/O error.
pub uninterp spec fn json_error_text(err: JsonError) -> Seq<char>;

/// `Display` of `serde_json::Error`, through `to_string`; in `Ok` unless
/// `serde_json::Error::is_io` says that the error holds an I/O error. The text of an I/O error can be
/// the operating system's, so nothing is stated of it.
#[verifier::external_body]
pub(crate) fn json_error_to_string(err: &JsonError) -> (r: Result<String, String>)
    ensures
        r is Err == json_error_is_io(*err),
        r is Ok ==> r->Ok_0@ == json_error_text(*err),
{
    if err.is_io() {
        Err(err.to_string())
    } else {
        Ok(err.to_string())
    }
}

/// `core::pin::Pin`: a pinned future, carried from one poll to the next.
#[verifier::external_type_specification]
#[verifier::external_body]
#[verifier::reject_recursive_types(P)]
pub struct ExPin<P>(Pin<P>);

/// `Box::pin`: moves a future to the heap and pins it there. What the pinned future yields is not
/// stated: of two pinned copies of a future, each may yield something else.
#[verifier::external_body]
pub(crate) fn pin_future<F: Future>(f: F) -> (r: Pin<Box<F>>) {
    Box::pin(f)
}

/// `Future::poll` with a waker that does nothing. A poll that is ready hands out the future's
/// output and uses the future up, so that it is not polled again; one that is pending hands the
/// future back. Which of the two it is is not stated, that is for the future to decide.
#[verifier::external_body]
pub(crate) fn poll_once<F: Future>(fut: Pin<Box<F>>) -> (r: Result<F::Output, Pin<Box<F>>>)
    ensures
        r is Ok ==> r->Ok_0 == fut@,
        r is Err ==> r->Err_0@ == fut@,
{
    let mut fut = fut;
    let mut ctx = Context::from_waker(Waker::noop());
    match fut.as_mut().poll(&mut ctx) {
        Poll::Ready(v) => Ok(v),
        Poll::Pending => Err(fut),
    }
}

/// A result whose error is text, the text as a sequence of characters.
pub open spec fn text_err<T>(r: Result<T, String>) -> Result<T, Seq<char>> {
    match r {
        Ok(v) => Ok(v),
        Err(s) => Err(s@),
    }
}

// ---------------------------------------------------------------------------------------------
// Keys, signatures and hashes
// ---------------------------------------------------------------------------------------------

/// The base-58 text of a pubkey.
pub uninterp spec fn pubkey_text(pubkey: Pubkey) -> Seq<char>;

/// `Display` of `solana_address::Address`, through `to_string`: the base-58 text of its bytes.
#[verifier::external_body]
pub(crate) fn pubkey_to_string(pubkey: &Pubkey) -> (r: String)
    ensures
        r@ == pubkey_text(*pubkey),
{
    solana_sdk::pubkey::Pubkey::from(pubkey.bytes).to_string()
}

/// The pubkey that a base-58 text stands for, or why it stands for none.
pub uninterp spec fn parsed_pubkey(text: Seq<char>) -> Result<Pubkey, Seq<char>>;

/// `FromStr` of `solana_address::Address`; the error as the text that it displays.
#[verifier::external_body]
pub(crate) fn pubkey_from_str(text: &str) -> (r: Result<Pubkey, String>)
    ensures
        text_err(r) == parsed_pubkey(text@),
{
    match solana_sdk::pubkey::Pubkey::from_str(text) {
        Ok(key) => Ok(Pubkey { bytes: key.to_bytes() }),
        Err(err) => Err(err.to_string()),
    }
}

/// The base-58 text of a signature.
pub uninterp spec fn signature_text(signature: Signature) -> Seq<char>;

/// `Display` of `solana_signature::Signature`, through `to_string`: the base-58 text of its
/// bytes. Parsing that text gives the signature back.
#[verifier::external_body]
pub(crate) fn signature_to_string(signature: &Signature) -> (r: String)
    ensures
        r@ == signature_text(*signature),
        parsed_signature(r@) is Ok,
        parsed_signature(r@)->Ok_0 == *signature,
{
    solana_sdk::signature::Signature::from(signature.bytes).to_string()
}

/// The signature that a base-58 text stands for, or why it stands for none.
pub uninterp spec fn parsed_signature(text: Seq<char>) -> Result<Signature, Seq<char>>;

/// `FromStr` of `solana_signature::Signature`; the error as the text that it displays.
#[verifier::external_body]
pub(crate) fn signature_from_str(text: &str) -> (r: Result<Signature, String>)
    ensures
        text_err(r) == parsed_signature(text@),
{
    match solana_sdk::signature::Signature::from_str(text) {
        Ok(signature) => Ok(Signature { bytes: signature.into() }),
        Err(err) => Err(err.to_string()),
    }
}

/// The base-58 text of a hash.
pub uninterp spec fn hash_text(hash: Blockhash) -> Seq<char>;

/// `Display` of `solana_hash::Hash`, through `to_string`: the base-58 text of its bytes.
#[verifier::external_body]
pub(crate) fn hash_to_string(hash: &Blockhash) -> (r: String)
    ensures
        r@ == hash_text(*hash),
{
    solana_sdk::hash::Hash::new_from_array(hash.bytes).to_string()
}

/// The hash that a base-58 text stands for, or why it stands for none.
pub uninterp spec fn parsed_hash(text: Seq<char>) -> Result<Blockhash, Seq<char>>;

/// `FromStr` of `solana_hash::Hash`; the error as the text that it displays.
#[verifier::external_body]
pub(crate) fn hash_from_str(text: &str) -> (r: Result<Blockhash, String>)
    ensures
        text_err(r) == parsed_hash(text@),
{
    match solana_sdk::hash::Hash::from_str(text) {
        Ok(hash) => Ok(Blockhash { bytes: hash.to_bytes() }),
        Err(err) => Err(err.to_string()),
    }
}

// ---------------------------------------------------------------------------------------------
// Transaction bytes
// ---------------------------------------------------------------------------------------------

/// `bincode::ErrorKind`: why a value could not be serialized.
#[verifier::external_type_specification]
#[verifier::external_body]
pub struct ExBincodeErrorKind(BincodeErrorKind);

/// Whether a `bincode::ErrorKind` is the variant that holds an I/O error.
pub uninterp spec fn bincode_error_is_io(err: BincodeErrorKind) -> bool;

/// What a `bincode::ErrorKind` displays that holds no I/O error.
pub uninterp spec fn bincode_error_text(err: BincodeErrorKind) -> Seq<char>;

/// `Display` of `bincode::ErrorKind`, through `to_string`; in `Ok` unless the error is the variant
/// `Io`. The text of an I/O error can be the operating system's, so nothing is stated of it.
#[verifier::external_body]
pub(crate) fn bincode_error_to_string(err: &BincodeErrorKind) -> (r: Result<String, String>)
    ensures
        r is Err == bincode_error_is_io(*err),
        r is Ok ==> r->Ok_0@ == bincode_error_text(*err),
{
    match err {
        BincodeErrorKind::Io(_) => Err(err.to_string()),
        _ => Ok(err.to_string()),
    }
}

/// The base-58 text of a string of bytes.
pub uninterp spec fn base58_text(bytes: Seq<u8>) -> Seq<char>;

/// `bs58::encode(..).into_string()`, with the default (Bitcoin) alphabet. Decoding that text gives
/// the bytes back.
#[verifier::external_body]
pub(crate) fn base58_encode(bytes: &[u8]) -> (r: String)
    ensures
        r@ == base58_text(bytes@),
        base58_bytes(r@) == Some(bytes@),
{
    bs58::encode(bytes).into_string()
}

/// The bytes that a base-58 text stands for, where it is one.
pub uninterp spec fn base58_bytes(text: Seq<char>) -> Option<Seq<u8>>;

/// `bs58::decode(..).into_vec()`, with the default (Bitcoin) alphabet, its error dropped.
#[verifier::external_body]
pub(crate) fn base58_decode(text: &str) -> (r: Option<Vec<u8>>)
    ensures
        list_option(r) == base58_bytes(text@),
{
    bs58::decode(text).into_vec().ok()
}

/// The base-64 text of a string of bytes.
pub uninterp spec fn base64_text(bytes: Seq<u8>) -> Seq<char>;

/// `BASE64_STANDARD.encode` of the `base64` crate: the standard alphabet, with padding. Decoding that
/// text gives the bytes back.
#[verifier::external_body]
pub(crate) fn base64_encode(bytes: &[u8]) -> (r: String)
    ensures
        r@ == base64_text(bytes@),
        base64_bytes(r@) == Some(bytes@),
{
    BASE64_STANDARD.encode(bytes)
}

/// The bytes that a base-64 text stands for, where it is one.
pub uninterp spec fn base64_bytes(text: Seq<char>) -> Option<Seq<u8>>;

/// `BASE64_STANDARD.decode` of the `base64` crate, its error dropped.
#[verifier::external_body]
pub(crate) fn base64_decode(text: &str) -> (r: Option<Vec<u8>>)
    ensures
        list_option(r) == base64_bytes(text@),
{
    BASE64_STANDARD.decode(text).ok()
}

/// `Display` of `solana_transaction_status_client_types::UiTransactionEncoding`, through
/// `to_string`: the encoding's name on the wire, in camel case.
#[verifier::external_body]
pub(crate) fn transaction_encoding_to_string(encoding: UiTransactionEncoding) -> (r: String)
    ensures
        r@ == encoding.name(),
{
    match encoding {
        UiTransactionEncoding::Binary => status::UiTransactionEncoding::Binary.to_string(),
        UiTransactionEncoding::Base64 => status::UiTransactionEncoding::Base64.to_string(),
        UiTransactionEncoding::Base58 => status::UiTransactionEncoding::Base58.to_string(),
        UiTransactionEncoding::Json => status::UiTransactionEncoding::Json.to_string(),
        UiTransactionEncoding::JsonParsed => status::UiTransactionEncoding::JsonParsed.to_string(),
    }
}

// ---------------------------------------------------------------------------------------------
// JSON values
// ---------------------------------------------------------------------------------------------

/// The JSON value that a text holds, or why it holds none.
pub uninterp spec fn json_document(json: Seq<u8>) -> Result<Value, JsonError>;

/// `serde_json::from_slice::<serde_json::Value>`.
#[verifier::external_body]
pub(crate) fn parse_json(json: Vec<u8>) -> (r: Result<Value, JsonError>)
    ensures
        r == json_document(json@),
{
    serde_json::from_slice(&json)
}

/// Whether a JSON value is `null`.
pub uninterp spec fn is_json_null(value: Value) -> bool;

/// `serde_json::Value::is_null`.
#[verifier::external_body]
pub(crate) fn json_is_null(value: &Value) -> (r: bool)
    ensures
        r == is_json_null(*value),
{
    value.is_null()
}

/// Whether a JSON value is an object.
pub uninterp spec fn is_json_object(value: Value) -> bool;

/// `serde_json::Value::is_object`.
#[verifier::external_body]
pub(crate) fn json_is_object(value: &Value) -> (r: bool)
    ensures
        r == is_json_object(*value),
{
    value.is_object()
}

/// The member of a JSON object by that name, where there is one.
pub uninterp spec fn json_member(value: Value, name: Seq<char>) -> Option<Value>;

/// `serde_json::Value::get` with a string, the member cloned.
#[verifier::external_body]
pub(crate) fn json_get(value: &Value, name: &str) -> (r: Option<Value>)
    ensures
        r == json_member(*value, name@),
{
    value.get(name).cloned()
}

/// The elements of a JSON array, where the value is one.
pub uninterp spec fn json_elements(value: Value) -> Option<Seq<Value>>;

/// An optional list, as a sequence.
pub open spec fn list_option<T>(list: Option<Vec<T>>) -> Option<Seq<T>> {
    match list {
        Some(list) => Some(list@),
        None => None,
    }
}

/// `serde_json::Value::as_array`, the array cloned.
#[verifier::external_body]
pub(crate) fn json_as_array(value: &Value) -> (r: Option<Vec<Value>>)
    ensures
        list_option(r) == json_elements(*value),
{
    value.as_array().cloned()
}

/// The unsigned number or `null` that a JSON value is, or why it is neither.
pub uninterp spec fn json_optional_u64(value: Value) -> Result<Option<u64>, JsonError>;

/// `serde_json::from_value::<Option<u64>>`.
#[verifier::external_body]
pub(crate) fn optional_u64_from_json(value: Value) -> (r: Result<Option<u64>, JsonError>)
    ensures
        r == json_optional_u64(value),
{
    serde_json::from_value(value)
}

/// The unsigned number that a JSON value is, or why it is none.
pub uninterp spec fn json_u64(value: Value) -> Result<u64, JsonError>;

/// `serde_json::from_value::<u64>`.
#[verifier::external_body]
pub(crate) fn u64_from_json(value: Value) -> (r: Result<u64, JsonError>)
    ensures
        r == json_u64(value),
{
    serde_json::from_value(value)
}

/// The signed number that a JSON value is, or why it is none.
pub uninterp spec fn json_i64(value: Value) -> Result<i64, JsonError>;

/// `serde_json::from_value::<i64>`.
#[verifier::external_body]
pub(crate) fn i64_from_json(value: Value) -> (r: Result<i64, JsonError>)
    ensures
        r == json_i64(value),
{
    serde_json::from_value(value)
}

// ---------------------------------------------------------------------------------------------
// Replies of a node
// ---------------------------------------------------------------------------------------------

/// A decoded string, as a sequence of characters.
pub open spec fn text_ok(r: Result<String, JsonError>) -> Result<Seq<char>, JsonError> {
    match r {
        Ok(s) => Ok(s@),
        Err(e) => Err(e),
    }
}

/// The string that a JSON text holds, or why it holds none.
pub uninterp spec fn json_string(json: Seq<u8>) -> Result<Seq<char>, JsonError>;

/// `serde_json::from_slice::<String>`.
#[verifier::external_body]
pub(crate) fn parse_string(json: Vec<u8>) -> (r: Result<String, JsonError>)
    ensures
        text_ok(r) == json_string(json@),
{
    serde_json::from_slice(&json)
}

/// A decoded list of strings, each as a sequence of characters.
pub open spec fn texts_ok(r: Result<Vec<String>, JsonError>) -> Result<Seq<Seq<char>>, JsonError> {
    match r {
        Ok(list) => Ok(texts(list@)),
        Err(e) => Err(e),
    }
}

/// The list of strings that a JSON text holds, or why it holds none.
pub uninterp spec fn json_strings(json: Seq<u8>) -> Result<Seq<Seq<char>>, JsonError>;

/// `serde_json::from_slice::<Vec<String>>`.
#[verifier::external_body]
pub(crate) fn parse_strings(json: Vec<u8>) -> (r: Result<Vec<String>, JsonError>)
    ensures
        texts_ok(r) == json_strings(json@),
{
    serde_json::from_slice(&json)
}

/// The identity in a `getIdentity` reply, or why there is none.
pub uninterp spec fn json_identity(json: Seq<u8>) -> Result<Seq<char>, JsonError>;

/// `serde_json::from_slice::<RpcIdentity>`, and its one field.
#[verifier::external_body]
pub(crate) fn parse_identity(json: Vec<u8>) -> (r: Result<String, JsonError>)
    ensures
        text_ok(r) == json_identity(json@),
{
    serde_json::from_slice::<RpcIdentity>(&json).map(|reply| reply.identity)
}

/// The flag in a reply, or why there is none.
pub uninterp spec fn json_bool_response(json: Seq<u8>) -> Result<Response<bool>, JsonError>;

/// `serde_json::from_slice::<solana_rpc_client_types::response::Response<bool>>`.
#[verifier::external_body]
pub(crate) fn parse_bool_response(json: Vec<u8>) -> (r: Result<Response<bool>, JsonError>)
    ensures
        r == json_bool_response(json@),
{
    let reply: response::Response<bool> = serde_json::from_slice(&json)?;
    Ok(Response { context: reply.context, value: reply.value })
}

/// The number in a reply, or why there is none.
pub uninterp spec fn json_u64_response(json: Seq<u8>) -> Result<Response<u64>, JsonError>;

/// `serde_json::from_slice::<solana_rpc_client_types::response::Response<u64>>`.
#[verifier::external_body]
pub(crate) fn parse_u64_response(json: Vec<u8>) -> (r: Result<Response<u64>, JsonError>)
    ensures
        r == json_u64_response(json@),
{
    let reply: response::Response<u64> = serde_json::from_slice(&json)?;
    Ok(Response { context: reply.context, value: reply.value })
}

/// The number or `null` in a reply, or why there is neither.
pub uninterp spec fn json_fee_response(json: Seq<u8>) -> Result<Response<Option<u64>>, JsonError>;

/// `serde_json::from_slice::<solana_rpc_client_types::response::Response<Option<u64>>>`.
#[verifier::external_body]
pub(crate) fn parse_fee_response(json: Vec<u8>) -> (r: Result<Response<Option<u64>>, JsonError>)
    ensures
        r == json_fee_response(json@),
{
    let reply: response::Response<Option<u64>> = serde_json::from_slice(&json)?;
    Ok(Response { context: reply.context, value: reply.value })
}

/// A decoded `getLatestBlockhash` reply: the blockhash as text and its last valid block height.
pub open spec fn blockhash_ok(r: Result<(String, u64), JsonError>) -> Result<
    (Seq<char>, u64),
    JsonError,
> {
    match r {
        Ok(reply) => Ok((reply.0@, reply.1)),
        Err(e) => Err(e),
    }
}

/// The blockhash text and the last valid block height in a `getLatestBlockhash` reply.
pub uninterp spec fn json_blockhash(json: Seq<u8>) -> Result<(Seq<char>, u64), JsonError>;

/// `serde_json::from_slice::<solana_rpc_client_types::response::Response<RpcBlockhash>>`, and the
/// fields of its value.
#[verifier::external_body]
pub(crate) fn parse_blockhash(json: Vec<u8>) -> (r: Result<(String, u64), JsonError>)
    ensures
        blockhash_ok(r) == json_blockhash(json@),
{
    let reply: response::Response<RpcBlockhash> = serde_json::from_slice(&json)?;
    Ok((reply.value.blockhash, reply.value.last_valid_block_height))
}

/// A decoded `getSignatureStatuses` reply, its list as a sequence.
pub open spec fn statuses_ok(
    r: Result<Response<Vec<Option<TransactionStatus>>>, JsonError>,
) -> Result<(RpcResponseContext, Seq<Option<TransactionStatus>>), JsonError> {
    match r {
        Ok(reply) => Ok((reply.context, reply.value@)),
        Err(e) => Err(e),
    }
}

/// The context and the statuses in a `getSignatureStatuses` reply.
pub uninterp spec fn json_statuses(json: Seq<u8>) -> Result<
    (RpcResponseContext, Seq<Option<TransactionStatus>>),
    JsonError,
>;

/// `serde_json::from_slice` of a list of optional
/// `solana_transaction_status_client_types::TransactionStatus` in a `Response`.
#[verifier::external_body]
pub(crate) fn parse_statuses(json: Vec<u8>) -> (r: Result<
    Response<Vec<Option<TransactionStatus>>>,
    JsonError,
>)
    ensures
        statuses_ok(r) == json_statuses(json@),
{
    let reply: response::Response<Vec<Option<WireStatus>>> = serde_json::from_slice(&json)?;
    let level = |c: WireLevel| match c {
        WireLevel::Processed => TransactionConfirmationStatus::Processed,
        WireLevel::Confirmed => TransactionConfirmationStatus::Confirmed,
        WireLevel::Finalized => TransactionConfirmationStatus::Finalized,
    };
    let own = |s: WireStatus| TransactionStatus {
        slot: s.slot,
        confirmations: s.confirmations,
        status: s.status,
        err: s.err,
        confirmation_status: s.confirmation_status.map(level),
    };
    let value = reply.value.into_iter().map(|s| s.map(own)).collect();
    Ok(Response { context: reply.context, value })
}

/// The context and the account in a `getAccountInfo` reply.
pub uninterp spec fn json_account(value: Value) -> Result<Response<Option<UiAccount>>, JsonError>;

/// `serde_json::from_value::<solana_rpc_client_types::response::Response<Option<UiAccount>>>`.
#[verifier::external_body]
pub(crate) fn account_from_json(value: Value) -> (r: Result<
    Response<Option<UiAccount>>,
    JsonError,
>)
    ensures
        r == json_account(value),
{
    let reply: response::Response<Option<UiAccount>> = serde_json::from_value(value)?;
    Ok(Response { context: reply.context, value: reply.value })
}

/// A decoded `getMultipleAccounts` reply, its list as a sequence.
pub open spec fn accounts_ok(r: Result<Response<Vec<Option<UiAccount>>>, JsonError>) -> Result<
    (RpcResponseContext, Seq<Option<UiAccount>>),
    JsonError,
> {
    match r {
        Ok(reply) => Ok((reply.context, reply.value@)),
        Err(e) => Err(e),
    }
}

/// The context and the accounts in a `getMultipleAccounts` reply.
pub uninterp spec fn json_accounts(value: Value) -> Result<
    (RpcResponseContext, Seq<Option<UiAccount>>),
    JsonError,
>;

/// `serde_json::from_value::<solana_rpc_client_types::response::Response<Vec<Option<UiAccount>>>>`.
#[verifier::external_body]
pub(crate) fn accounts_from_json(value: Value) -> (r: Result<
    Response<Vec<Option<UiAccount>>>,
    JsonError,
>)
    ensures
        accounts_ok(r) == json_accounts(value),
{
    let reply: response::Response<Vec<Option<UiAccount>>> = serde_json::from_value(value)?;
    Ok(Response { context: reply.context, value: reply.value })
}

/// Decoded accounts with the text of their addresses, as sequences.
pub open spec fn keyed_accounts_ok(r: Result<Vec<(String, UiAccount)>, JsonError>) -> Result<
    Seq<(Seq<char>, UiAccount)>,
    JsonError,
> {
    match r {
        Ok(list) => Ok(list@.map_values(|a: (String, UiAccount)| (a.0@, a.1))),
        Err(e) => Err(e),
    }
}

/// The accounts in a `getProgramAccounts` reply, each with the text of its address.
pub uninterp spec fn json_keyed_accounts(json: Seq<u8>) -> Result<
    Seq<(Seq<char>, UiAccount)>,
    JsonError,
>;

/// `serde_json::from_slice::<OptionalContext<Vec<RpcKeyedAccount>>>`, then
/// `OptionalContext::parse_value`, which drops the context where the node sent one.
#[verifier::external_body]
pub(crate) fn parse_keyed_accounts_json(json: Vec<u8>) -> (r: Result<
    Vec<(String, UiAccount)>,
    JsonError,
>)
    ensures
        keyed_accounts_ok(r) == json_keyed_accounts(json@),
{
    let reply: OptionalContext<Vec<RpcKeyedAccount>> = serde_json::from_slice(&json)?;
    Ok(reply.parse_value().into_iter().map(|a| (a.pubkey, a.account)).collect())
}

/// An optional account, its data as a sequence of bytes.
pub open spec fn account_option(account: Option<Account>) -> Option<AccountView> {
    match account {
        Some(a) => Some(a@),
        None => None,
    }
}

/// The account that a node's encoding of it stands for, where it stands for one.
pub uninterp spec fn decoded_account(account: UiAccount) -> Option<AccountView>;

/// `UiAccount::decode` of `solana_account_decoder_client_types`, into `solana_account::Account`.
#[verifier::external_body]
pub(crate) fn decode_account(account: &UiAccount) -> (r: Option<Account>)
    ensures
        account_option(r) == decoded_account(*account),
{
    let account: solana_sdk::account::Account = account.decode()?;
    Some(Account {
        lamports: account.lamports,
        data: account.data,
        owner: Pubkey { bytes: account.owner.to_bytes() },
        executable: account.executable,
        rent_epoch: account.rent_epoch,
    })
}

/// The parsed form of an account's data, where the node sent it parsed.
pub uninterp spec fn account_parsed_data(account: UiAccount) -> Option<Value>;

/// The field `data` of `UiAccount`, where it is the variant `Json` of
/// `solana_account_decoder_client_types::UiAccountData`.
#[verifier::external_body]
pub(crate) fn account_into_parsed_data(account: UiAccount) -> (r: Option<Value>)
    ensures
        r == account_parsed_data(account),
{
    match account.data {
        UiAccountData::Json(data) => Some(data.parsed),
        UiAccountData::LegacyBinary(_) => None,
        UiAccountData::Binary(_, _) => None,
    }
}

/// What the token program's parsed data says the account is, or why it says nothing.
pub uninterp spec fn json_token_account(value: Value) -> Result<TokenAccountType, JsonError>;

/// `serde_json::from_value::<TokenAccountType>` of
/// `solana_account_decoder_client_types::token`.
#[verifier::external_body]
pub(crate) fn token_account_from_json(value: Value) -> (r: Result<TokenAccountType, JsonError>)
    ensures
        r == json_token_account(value),
{
    match serde_json::from_value(value)? {
        token::TokenAccountType::Account(account) => Ok(TokenAccountType::Account(account)),
        token::TokenAccountType::Mint(_) => Ok(TokenAccountType::Mint),
        token::TokenAccountType::Multisig(_) => Ok(TokenAccountType::Multisig),
    }
}

/// The simulation that a JSON value describes, or why it describes none.
pub uninterp spec fn json_simulation(value: Value) -> Result<
    RpcSimulateTransactionResult,
    JsonError,
>;

/// `serde_json::from_value::<RpcSimulateTransactionResult>`.
#[verifier::external_body]
pub(crate) fn simulation_from_json(value: Value) -> (r: Result<
    RpcSimulateTransactionResult,
    JsonError,
>)
    ensures
        r == json_simulation(value),
{
    serde_json::from_value(value)
}

/// Why a simulated transaction failed, where it failed.
pub uninterp spec fn simulation_error(result: RpcSimulateTransactionResult) -> Option<
    TransactionError,
>;

/// `From<UiTransactionError>` of `solana_transaction_error::TransactionError`, on a copy of the field
/// `err` of `RpcSimulateTransactionResult`.
#[verifier::external_body]
pub(crate) fn get_simulation_error(result: &RpcSimulateTransactionResult) -> (r: Option<
    TransactionError,
>)
    ensures
        r == simulation_error(*result),
{
    result.err.clone().map(TransactionError::from)
}

// ---------------------------------------------------------------------------------------------
// Errors
// ---------------------------------------------------------------------------------------------

/// `Clone` of `solana_transaction_error::TransactionError`: a copy.
#[verifier::external_body]
pub(crate) fn clone_transaction_error(err: &TransactionError) -> (r: TransactionError)
    ensures
        r == *err,
{
    err.clone()
}

/// What `solana_transaction_error::TransactionError` displays.
pub uninterp spec fn transaction_error_text(err: TransactionError) -> Seq<char>;

/// `Display` of `solana_transaction_error::TransactionError`, through `to_string`.
#[verifier::external_body]
pub(crate) fn transaction_error_to_string(err: &TransactionError) -> (r: String)
    ensures
        r@ == transaction_error_text(*err),
{
    err.to_string()
}

/// What the structured data of an RPC error displays: the log of a failed preflight simulation.
pub uninterp spec fn error_data_text(data: RpcResponseErrorData) -> Seq<char>;

/// `Display` of `solana_rpc_client_types::request::RpcResponseErrorData`, through `to_string`.
#[verifier::external_body]
pub(crate) fn error_data_to_string(data: &RpcResponseErrorData) -> (r: String)
    ensures
        r@ == error_data_text(*data),
        data is Empty ==> r@.len() == 0,
        data is NodeUnhealthy ==> r@.len() == 0,
{
    match data {
        RpcResponseErrorData::Empty => request::RpcResponseErrorData::Empty.to_string(),
        RpcResponseErrorData::SendTransactionPreflightFailure(result) => {
            let result = result.clone();
            request::RpcResponseErrorData::SendTransactionPreflightFailure(result).to_string()
        },
        RpcResponseErrorData::NodeUnhealthy { num_slots_behind } => {
            let num_slots_behind = *num_slots_behind;
            request::RpcResponseErrorData::NodeUnhealthy { num_slots_behind }.to_string()
        },
    }
}

/// `std::io::Error::from_raw_os_error`, and what it displays. The text is the operating system's,
/// so nothing is stated of it.
#[verifier::external_body]
pub(crate) fn os_error_to_string(code: i32) -> (r: String) {
    std::io::Error::from_raw_os_error(code).to_string()
}

} // verus!
