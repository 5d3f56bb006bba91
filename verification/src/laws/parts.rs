//! The functions that the requests and the replies are made of, and the options that stand where
//! none were given.

use serde_json::{Error as JsonError, Value};
use solana_account_decoder_client_types::token::UiTokenAccount;
use solana_rpc_client_types::response::{
    RpcResponseContext, RpcSimulateTransactionResult, TransactionError, UiAccount,
};
use vstd::prelude::*;

use crate::bindings::{pubkey_text, signature_text};
use crate::host::{invalid_input, HostReply, IoError, RpcError};
use crate::laws::replies::{
    collected_accounts_are_keyed, collected_leaders_are_parsed, decoded_at_its_position,
    expected_other, is_decoded, is_keyed_answer, is_leaders_answer, tells_user,
};
use crate::laws::transactions::has_reached;
use crate::laws::{is_failure, view_is_params};
use crate::rpc_client::accounts::{
    account_failure, account_reply, accounts_reply, found_account, keyed_account, keyed_texts,
    number_reply, parse_keyed_accounts,
};
use crate::rpc_client::client::{
    node_unhealthy_data, preflight_failure_data, response_error_data, rpc_response_error,
    slots_behind_field, RpcClient, RpcClientConfig,
};
use crate::rpc_client::cluster::{parse_slot_leaders, parsed_reply, slot_leader};
use crate::rpc_client::config::{
    CommitmentConfig, GetConfirmedSignaturesForAddress2Config, RpcAccountInfoConfig,
    RpcGetVoteAccountsConfig, RpcLeaderScheduleConfig, RpcProgramAccountsConfig,
    RpcRequestAirdropConfig, RpcSendTransactionConfig, RpcSimulateTransactionConfig,
    UiTransactionEncoding,
};
use crate::rpc_client::error::{
    kind_displays, ClientRpcError, Error, ErrorKind, RpcResponseErrorData,
};
use crate::rpc_client::keys::{Blockhash, Pubkey, Signature};
use crate::rpc_client::ledger::block_time;
use crate::rpc_client::pubsub::PubsubClientError;
use crate::rpc_client::request::{texts, Param, RpcCall, RpcRequest};
use crate::rpc_client::response::{Account, Response, TokenAccountType, TransactionStatus};
use crate::rpc_client::tokens::token_account;
use crate::rpc_client::transactions::{
    accepted_signature, airdrop_signature, confirmed, message_fee, signature_outcome,
};
use crate::text::decimal;

verus! {

// ---------------------------------------------------------------------------------------------
// Requests
// ---------------------------------------------------------------------------------------------

/// A request goes to the host under the name that the node knows it by; a custom one under the name
/// that it was given.
pub proof fn methods_have_their_names(request: RpcRequest, call: RpcCall, r: &'static str)
    requires
        call_ensures(RpcRequest::method, (&request,), r) || (call.request == request
            && call_ensures(RpcCall::method, (&call,), r)),
    ensures
        match request {
            RpcRequest::GetAccountInfo => r@ == "getAccountInfo"@,
            RpcRequest::GetBalance => r@ == "getBalance"@,
            RpcRequest::GetBlock => r@ == "getBlock"@,
            RpcRequest::GetBlockHeight => r@ == "getBlockHeight"@,
            RpcRequest::GetBlockProduction => r@ == "getBlockProduction"@,
            RpcRequest::GetBlocks => r@ == "getBlocks"@,
            RpcRequest::GetBlocksWithLimit => r@ == "getBlocksWithLimit"@,
            RpcRequest::GetBlockTime => r@ == "getBlockTime"@,
            RpcRequest::GetClusterNodes => r@ == "getClusterNodes"@,
            RpcRequest::GetEpochInfo => r@ == "getEpochInfo"@,
            RpcRequest::GetEpochSchedule => r@ == "getEpochSchedule"@,
            RpcRequest::GetFeeForMessage => r@ == "getFeeForMessage"@,
            RpcRequest::GetFirstAvailableBlock => r@ == "getFirstAvailableBlock"@,
            RpcRequest::GetGenesisHash => r@ == "getGenesisHash"@,
            RpcRequest::GetHealth => r@ == "getHealth"@,
            RpcRequest::GetIdentity => r@ == "getIdentity"@,
            RpcRequest::GetInflationGovernor => r@ == "getInflationGovernor"@,
            RpcRequest::GetInflationRate => r@ == "getInflationRate"@,
            RpcRequest::GetInflationReward => r@ == "getInflationReward"@,
            RpcRequest::GetLargestAccounts => r@ == "getLargestAccounts"@,
            RpcRequest::GetLatestBlockhash => r@ == "getLatestBlockhash"@,
            RpcRequest::GetLeaderSchedule => r@ == "getLeaderSchedule"@,
            RpcRequest::GetMaxRetransmitSlot => r@ == "getMaxRetransmitSlot"@,
            RpcRequest::GetMaxShredInsertSlot => r@ == "getMaxShredInsertSlot"@,
            RpcRequest::GetMinimumBalanceForRentExemption => r@
                == "getMinimumBalanceForRentExemption"@,
            RpcRequest::GetMultipleAccounts => r@ == "getMultipleAccounts"@,
            RpcRequest::GetProgramAccounts => r@ == "getProgramAccounts"@,
            RpcRequest::GetRecentPerformanceSamples => r@ == "getRecentPerformanceSamples"@,
            RpcRequest::GetRecentPrioritizationFees => r@ == "getRecentPrioritizationFees"@,
            RpcRequest::GetHighestSnapshotSlot => r@ == "getHighestSnapshotSlot"@,
            RpcRequest::GetSignaturesForAddress => r@ == "getSignaturesForAddress"@,
            RpcRequest::GetSignatureStatuses => r@ == "getSignatureStatuses"@,
            RpcRequest::GetSlot => r@ == "getSlot"@,
            RpcRequest::GetSlotLeaders => r@ == "getSlotLeaders"@,
            RpcRequest::GetStakeMinimumDelegation => r@ == "getStakeMinimumDelegation"@,
            RpcRequest::GetSupply => r@ == "getSupply"@,
            RpcRequest::GetTokenAccountBalance => r@ == "getTokenAccountBalance"@,
            RpcRequest::GetTokenAccountsByDelegate => r@ == "getTokenAccountsByDelegate"@,
            RpcRequest::GetTokenAccountsByOwner => r@ == "getTokenAccountsByOwner"@,
            RpcRequest::GetTokenLargestAccounts => r@ == "getTokenLargestAccounts"@,
            RpcRequest::GetTokenSupply => r@ == "getTokenSupply"@,
            RpcRequest::GetTransaction => r@ == "getTransaction"@,
            RpcRequest::GetTransactionCount => r@ == "getTransactionCount"@,
            RpcRequest::GetVersion => r@ == "getVersion"@,
            RpcRequest::GetVoteAccounts => r@ == "getVoteAccounts"@,
            RpcRequest::IsBlockhashValid => r@ == "isBlockhashValid"@,
            RpcRequest::MinimumLedgerSlot => r@ == "minimumLedgerSlot"@,
            RpcRequest::RequestAirdrop => r@ == "requestAirdrop"@,
            RpcRequest::SendTransaction => r@ == "sendTransaction"@,
            RpcRequest::SimulateTransaction => r@ == "simulateTransaction"@,
            RpcRequest::DeregisterNode => r@ == "deregisterNode"@,
            RpcRequest::GetSlotLeader => r@ == "getSlotLeader"@,
            RpcRequest::GetSlotsPerSegment => r@ == "getSlotsPerSegment"@,
            RpcRequest::GetStoragePubkeysForSlot => r@ == "getStoragePubkeysForSlot"@,
            RpcRequest::GetStorageTurn => r@ == "getStorageTurn"@,
            RpcRequest::GetStorageTurnRate => r@ == "getStorageTurnRate"@,
            RpcRequest::RegisterNode => r@ == "registerNode"@,
            RpcRequest::SignVote => r@ == "signVote"@,
            RpcRequest::Custom { method } => r@ == method@,
        },
{
}

/// An encoding has the name that the node knows it by.
pub proof fn encodings_have_their_names(encoding: UiTransactionEncoding)
    ensures
        match encoding {
            UiTransactionEncoding::Binary => encoding.name() == "binary"@,
            UiTransactionEncoding::Base64 => encoding.name() == "base64"@,
            UiTransactionEncoding::Base58 => encoding.name() == "base58"@,
            UiTransactionEncoding::Json => encoding.name() == "json"@,
            UiTransactionEncoding::JsonParsed => encoding.name() == "jsonParsed"@,
        },
{
}

/// A request is made of just the parameters that it is given, in their order.
pub proof fn requests_hold_their_parameters(
    request: RpcRequest,
    a: Param,
    b: Param,
    c: Param,
    r: RpcCall,
)
    ensures
        call_ensures(RpcCall::bare, (request,), r) ==> r.request == request && r.params is Null,
        call_ensures(RpcCall::with1, (request, a), r) ==> {
            &&& r.request == request
            &&& r.params is List
            &&& r.params->List_0@.len() == 1
            &&& r.params->List_0@[0]@ == a@
        },
        call_ensures(RpcCall::with2, (request, a, b), r) ==> {
            &&& r.request == request
            &&& r.params is List
            &&& r.params->List_0@.len() == 2
            &&& r.params->List_0@[0]@ == a@
            &&& r.params->List_0@[1]@ == b@
        },
        call_ensures(RpcCall::with3, (request, a, b, c), r) ==> {
            &&& r.request == request
            &&& r.params is List
            &&& r.params->List_0@.len() == 3
            &&& r.params->List_0@[0]@ == a@
            &&& r.params->List_0@[1]@ == b@
            &&& r.params->List_0@[2]@ == c@
        },
{
    view_is_params(r);
}

/// The commitments are those that they are named after; where none is given, it is `Finalized`.
pub proof fn commitments_are_as_named(given: Option<CommitmentConfig>, r: CommitmentConfig)
    ensures
        call_ensures(CommitmentConfig::processed, (), r) ==> r.commitment is Processed,
        call_ensures(CommitmentConfig::finalized, (), r) ==> r.commitment is Finalized,
        call_ensures(<CommitmentConfig as Default>::default, (), r) ==> r.commitment is Finalized,
        call_ensures(CommitmentConfig::or_default, (given,), r) ==> if given is Some {
            r == given->Some_0
        } else {
            r.commitment is Finalized
        },
{
}

/// Options that nobody gave are absent or switched off, and the client's commitment is `Finalized`.
pub proof fn defaults_are_empty(
    commitment: CommitmentConfig,
    client: RpcClient,
    config: RpcClientConfig,
    send: RpcSendTransactionConfig,
    simulate: RpcSimulateTransactionConfig,
    airdrop: RpcRequestAirdropConfig,
    schedule: RpcLeaderScheduleConfig,
    votes: RpcGetVoteAccountsConfig,
    account: RpcAccountInfoConfig,
    program: RpcProgramAccountsConfig,
    signatures: GetConfirmedSignaturesForAddress2Config,
)
    ensures
        call_ensures(<RpcClient as Default>::default, (), client)
            ==> client.spec_commitment().commitment is Finalized && !client.spec_tx_debug(),
        call_ensures(<RpcClientConfig as Default>::default, (), config)
            ==> config.commitment_config.commitment is Finalized
            && config.confirm_transaction_initial_timeout is None,
        call_ensures(RpcClientConfig::with_commitment, (commitment,), config)
            ==> config.commitment_config == commitment
            && config.confirm_transaction_initial_timeout is None,
        call_ensures(<RpcSendTransactionConfig as Default>::default, (), send) ==> {
            &&& !send.skip_preflight
            &&& send.preflight_commitment is None
            &&& send.encoding is None
            &&& send.max_retries is None
            &&& send.min_context_slot is None
        },
        call_ensures(<RpcSimulateTransactionConfig as Default>::default, (), simulate) ==> {
            &&& !simulate.sig_verify
            &&& !simulate.replace_recent_blockhash
            &&& simulate.commitment is None
            &&& simulate.encoding is None
            &&& simulate.accounts is None
            &&& simulate.min_context_slot is None
            &&& !simulate.inner_instructions
        },
        call_ensures(<RpcRequestAirdropConfig as Default>::default, (), airdrop)
            ==> airdrop.recent_blockhash is None && airdrop.commitment is None,
        call_ensures(<RpcLeaderScheduleConfig as Default>::default, (), schedule)
            ==> schedule.identity is None && schedule.commitment is None,
        call_ensures(<RpcGetVoteAccountsConfig as Default>::default, (), votes) ==> {
            &&& votes.vote_pubkey is None
            &&& votes.commitment is None
            &&& votes.keep_unstaked_delinquents is None
            &&& votes.delinquent_slot_distance is None
        },
        call_ensures(<RpcAccountInfoConfig as Default>::default, (), account) ==> {
            &&& account.encoding is None
            &&& account.data_slice is None
            &&& account.commitment is None
            &&& account.min_context_slot is None
        },
        call_ensures(<RpcProgramAccountsConfig as Default>::default, (), program) ==> {
            &&& program.filters is None
            &&& program.account_config.encoding is None
            &&& program.account_config.data_slice is None
            &&& program.account_config.commitment is None
            &&& program.account_config.min_context_slot is None
            &&& program.with_context is None
            &&& program.sort_results is None
        },
        call_ensures(
            <GetConfirmedSignaturesForAddress2Config as Default>::default,
            (),
            signatures,
        ) ==> {
            &&& signatures.before is None
            &&& signatures.until is None
            &&& signatures.limit is None
            &&& signatures.commitment is None
        },
{
}

/// Two signatures, or two hashes, are the same just where all their bytes are.
pub proof fn sameness_is_that_of_the_bytes(
    a: Signature,
    b: Signature,
    x: Blockhash,
    y: Blockhash,
    r: bool,
)
    ensures
        call_ensures(Signature::same, (&a, &b), r) ==> (r <==> forall|i: int|
            0 <= i < 64 ==> #[trigger] a.bytes@[i] == b.bytes@[i]),
        call_ensures(Blockhash::same, (&x, &y), r) ==> (r <==> forall|i: int|
            0 <= i < 32 ==> #[trigger] x.bytes@[i] == y.bytes@[i]),
{
    if forall|i: int| 0 <= i < 64 ==> #[trigger] a.bytes@[i] == b.bytes@[i] {
        assert(a.bytes@ =~= b.bytes@);
        assert(a.bytes =~= b.bytes);
    }
    if forall|i: int| 0 <= i < 32 ==> #[trigger] x.bytes@[i] == y.bytes@[i] {
        assert(x.bytes@ =~= y.bytes@);
        assert(x.bytes =~= y.bytes);
    }
}

// ---------------------------------------------------------------------------------------------
// Errors
// ---------------------------------------------------------------------------------------------

/// Whether an error is this failure and names no request.
pub open spec fn is_bare(e: Error, kind: ErrorKind) -> bool {
    e.request is None && e.kind == kind
}

/// Whether an error is the client's own, says just this and names no request.
pub open spec fn says(e: Error, message: Seq<char>) -> bool {
    e.request is None && e.kind is Custom && e.kind->Custom_0@ == message
}

/// A failure that becomes an error is kept as it is, and no request is made up for it.
pub proof fn failures_become_errors(
    io: IoError,
    rpc: ClientRpcError,
    json: JsonError,
    tx: TransactionError,
    kind: ErrorKind,
    made: ErrorKind,
    r: Error,
    failure: IoError,
    refused: PubsubClientError,
)
    ensures
        call_ensures(<ErrorKind as From<IoError>>::from, (io,), made) ==> made == ErrorKind::Io(io),
        call_ensures(<ErrorKind as From<ClientRpcError>>::from, (rpc,), made) ==> made
            == ErrorKind::RpcError(rpc),
        call_ensures(<ErrorKind as From<JsonError>>::from, (json,), made) ==> made
            == ErrorKind::SerdeJson(json),
        call_ensures(<ErrorKind as From<TransactionError>>::from, (tx,), made) ==> made
            == ErrorKind::TransactionError(tx),
        call_ensures(<Error as From<ErrorKind>>::from, (kind,), r) ==> is_bare(r, kind),
        call_ensures(<Error as From<IoError>>::from, (io,), r) ==> is_bare(r, ErrorKind::Io(io)),
        call_ensures(<Error as From<ClientRpcError>>::from, (rpc,), r) ==> is_bare(
            r,
            ErrorKind::RpcError(rpc),
        ),
        call_ensures(<Error as From<JsonError>>::from, (json,), r) ==> is_bare(
            r,
            ErrorKind::SerdeJson(json),
        ),
        call_ensures(<Error as From<TransactionError>>::from, (tx,), r) ==> is_bare(
            r,
            ErrorKind::TransactionError(tx),
        ),
        call_ensures(invalid_input, (json,), failure) ==> failure == IoError::InvalidInput(json),
        call_ensures(<PubsubClientError as From<IoError>>::from, (io,), refused) ==> refused
            == PubsubClientError::Io(io),
{
}

/// The data of an error is what it decodes to; what does not decode leaves nothing. A field that is
/// absent says nothing about the slots, one that does not decode spoils the data.
pub proof fn decoded_data_is_kept(
    simulation: Result<RpcSimulateTransactionResult, JsonError>,
    slots: Option<Option<u64>>,
    field: Option<Result<Option<u64>, JsonError>>,
    r: RpcResponseErrorData,
    found: Option<Option<u64>>,
)
    ensures
        call_ensures(preflight_failure_data, (simulation,), r) ==> match simulation {
            Ok(x) => r == RpcResponseErrorData::SendTransactionPreflightFailure(x),
            Err(_) => r is Empty,
        },
        call_ensures(node_unhealthy_data, (slots,), r) ==> match slots {
            Some(x) => r == (RpcResponseErrorData::NodeUnhealthy { num_slots_behind: x }),
            None => r is Empty,
        },
        call_ensures(slots_behind_field, (field,), found) ==> match field {
            Some(Ok(x)) => found == Some(x),
            Some(Err(_)) => found is None,
            None => found == Some(None::<u64>),
        },
{
}

/// An error of the server keeps its code and its message and names the request.
pub proof fn server_errors_name_the_request(
    tx_debug: bool,
    request: RpcRequest,
    err: RpcError<Value>,
    r: Error,
)
    requires
        call_ensures(rpc_response_error, (tx_debug, request, err), r),
    ensures
        r.request == Some(request),
        r.kind is RpcError,
        r.kind->RpcError_0 matches ClientRpcError::RpcResponseError { code, message, data } && code
            == err.code && message@ == err.message@ && data == response_error_data(
            tx_debug,
            err.code as int,
            err.data,
        ),
{
}

/// Every reply goes the same way: a result is handed on as it decodes, anything else is an error
/// that names the request.
pub proof fn replies_are_handed_on<T, F: FnOnce(Vec<u8>) -> Result<T, JsonError>>(
    client: RpcClient,
    request: RpcRequest,
    reply: HostReply,
    decode: F,
    decoded: Result<T, JsonError>,
    r: Result<T, Error>,
)
    requires
        call_ensures(RpcClient::send::<T, F>, (&client, request, reply, decode), r),
        reply matches Ok(Ok(bytes)) ==> forall|d: Result<T, JsonError>| #[trigger]
            call_ensures(decode, (bytes,), d) ==> d == decoded,
    ensures
        reply matches Ok(Ok(_)) ==> match decoded {
            Ok(v) => r == Ok::<T, Error>(v),
            Err(e) => r is Err && r->Err_0.request == Some(request) && r->Err_0.kind
                == ErrorKind::Io(IoError::InvalidInput(e)),
        },
        !(reply matches Ok(Ok(_))) ==> r is Err && is_failure(
            client.spec_tx_debug(),
            request,
            reply,
            r->Err_0,
        ),
{
}

// ---------------------------------------------------------------------------------------------
// Replies
// ---------------------------------------------------------------------------------------------

/// An account that is there is handed on. One that is not is an error that names its address, and
/// so is a failed request, whose text is added.
pub proof fn accounts_are_handed_on(
    pubkey: Pubkey,
    err: Error,
    failure: Error,
    decoded: Option<Result<Response<Option<UiAccount>>, JsonError>>,
    document: Result<Response<Option<UiAccount>>, Error>,
    account: Option<Account>,
    found: Result<Account, Error>,
)
    ensures
        call_ensures(account_failure, (&pubkey, err), failure) ==> exists|text: Seq<char>|
            #[trigger] kind_displays(err.kind@, text) && tells_user(
                failure,
                "AccountNotFound: pubkey="@ + pubkey_text(pubkey) + ": "@ + text,
            ),
        call_ensures(account_reply, (&pubkey, decoded), document) ==> match decoded {
            Some(Ok(x)) => document == Ok::<Response<Option<UiAccount>>, Error>(x),
            Some(Err(e)) => document is Err && is_bare(document->Err_0, ErrorKind::SerdeJson(e)),
            None => document is Err && tells_user(
                document->Err_0,
                "AccountNotFound: pubkey="@ + pubkey_text(pubkey),
            ),
        },
        call_ensures(found_account, (&pubkey, account), found) ==> match account {
            Some(x) => found == Ok::<Account, Error>(x),
            None => found is Err && tells_user(
                found->Err_0,
                "AccountNotFound: pubkey="@ + pubkey_text(pubkey),
            ),
        },
{
}

/// Several accounts are handed on as they decode, each at its position.
pub proof fn lists_of_accounts_are_handed_on(
    decoded: Result<Response<Vec<Option<UiAccount>>>, JsonError>,
    r: Result<Response<Vec<Option<Account>>>, Error>,
)
    requires
        call_ensures(accounts_reply, (decoded,), r),
    ensures
        decoded matches Err(e) ==> r is Err && is_bare(r->Err_0, ErrorKind::SerdeJson(e)),
        decoded matches Ok(sent) ==> {
            &&& r is Ok
            &&& r->Ok_0.context == sent.context
            &&& r->Ok_0.value@.len() == sent.value@.len()
            &&& forall|i: int|
                0 <= i < sent.value@.len() ==> if sent.value@[i] is Some {
                    is_decoded(#[trigger] r->Ok_0.value@[i], sent.value@[i]->Some_0)
                } else {
                    r->Ok_0.value@[i] is None
                }
        },
{
    if decoded is Ok {
        decoded_at_its_position(r->Ok_0.value@, decoded->Ok_0.value@);
    }
}

/// An account with its address is had where the address parses and the account decodes; a list of
/// them where all do.
pub proof fn accounts_keep_their_addresses(
    pubkey: Result<Pubkey, String>,
    account: Option<Account>,
    request: RpcRequest,
    pair: Result<(Pubkey, Account), Error>,
    accounts: Vec<(String, UiAccount)>,
    sent: Seq<(Seq<char>, UiAccount)>,
    list: Result<Vec<(Pubkey, Account)>, Error>,
)
    ensures
        call_ensures(keyed_account, (pubkey, account, request), pair) ==> {
            &&& pair is Ok <==> pubkey is Ok && account is Some
            &&& pair is Ok ==> pair->Ok_0.0 == pubkey->Ok_0 && pair->Ok_0.1@ == account->Some_0@
            &&& pubkey is Err ==> expected_other(pair->Err_0, "Pubkey"@, request)
            &&& pubkey is Ok && account is None ==> expected_other(
                pair->Err_0,
                "Account from rpc"@,
                request,
            )
        },
        call_ensures(parse_keyed_accounts, (accounts, request), list) && sent.len()
            == accounts@.len() && (forall|i: int|
            0 <= i < sent.len() ==> #[trigger] sent[i] == (accounts@[i].0@, accounts@[i].1))
            ==> is_keyed_answer(sent, request, list),
{
    if call_ensures(parse_keyed_accounts, (accounts, request), list) && sent.len()
        == accounts@.len() && (forall|i: int|
        0 <= i < sent.len() ==> #[trigger] sent[i] == (accounts@[i].0@, accounts@[i].1)) {
        assert(sent =~= keyed_texts(accounts@));
        collected_accounts_are_keyed(sent, request, list);
    }
}

/// A slot leader is had where its identity parses; a list of them where all do.
pub proof fn leaders_are_parsed(
    parsed: Result<Pubkey, String>,
    leader: Result<Pubkey, Error>,
    leaders: Vec<String>,
    sent: Seq<Seq<char>>,
    list: Result<Vec<Pubkey>, Error>,
)
    ensures
        call_ensures(slot_leader, (parsed,), leader) ==> match parsed {
            Ok(x) => leader == Ok::<Pubkey, Error>(x),
            Err(e) => leader is Err && says(leader->Err_0, "pubkey deserialization failed: "@ + e@),
        },
        call_ensures(parse_slot_leaders, (leaders,), list) && sent.len() == leaders@.len() && (
        forall|i: int| 0 <= i < sent.len() ==> #[trigger] sent[i] == leaders@[i]@)
            ==> is_leaders_answer(sent, list),
{
    if call_ensures(parse_slot_leaders, (leaders,), list) && sent.len() == leaders@.len() && (
    forall|i: int| 0 <= i < sent.len() ==> #[trigger] sent[i] == leaders@[i]@) {
        assert(sent =~= texts(leaders@));
        collected_leaders_are_parsed(sent, list);
    }
}

/// A value is handed on as it decodes or parses, whatever it is. What does not is an error that
/// names the request.
pub proof fn values_are_handed_on<T>(
    decoded: Result<T, JsonError>,
    parsed: Result<T, String>,
    expected: &str,
    request: RpcRequest,
    r: Result<T, Error>,
    answer: Result<Response<T>, JsonError>,
    value: Result<T, JsonError>,
)
    ensures
        call_ensures(number_reply::<T>, (decoded, request), r) ==> match decoded {
            Ok(x) => r == Ok::<T, Error>(x),
            Err(e) => r is Err && r->Err_0.request == Some(request) && r->Err_0.kind
                == ErrorKind::SerdeJson(e),
        },
        call_ensures(parsed_reply::<T>, (parsed, expected, request), r) ==> match parsed {
            Ok(x) => r == Ok::<T, Error>(x),
            Err(_) => r is Err && expected_other(r->Err_0, expected@, request),
        },
        call_ensures(Response::<T>::unwrap_value::<JsonError>, (answer,), value) ==> match answer {
            Ok(x) => value == Ok::<T, JsonError>(x.value),
            Err(e) => value == Err::<T, JsonError>(e),
        },
{
}

/// The time of a block is the number that the node sent; a slot without a block is an error that
/// names the slot.
pub proof fn times_are_handed_on(
    slot: u64,
    decoded: Option<Result<i64, JsonError>>,
    r: Result<i64, Error>,
)
    requires
        call_ensures(block_time, (slot, decoded), r),
    ensures
        match decoded {
            Some(Ok(x)) => r == Ok::<i64, Error>(x),
            Some(Err(e)) => r is Err && r->Err_0.request == Some(RpcRequest::GetBlockTime)
                && r->Err_0.kind == ErrorKind::SerdeJson(e),
            None => r is Err && tells_user(
                r->Err_0,
                "Block Not Found: slot="@ + decimal(slot as nat),
            ),
        },
{
}

/// An account is a token account just where the token program says so; one that is not there is an
/// error.
pub proof fn token_accounts_are_told_apart(
    pubkey: Pubkey,
    context: RpcResponseContext,
    account: Option<Option<Result<TokenAccountType, JsonError>>>,
    r: Result<Response<Option<UiTokenAccount>>, Error>,
)
    requires
        call_ensures(token_account, (&pubkey, context, account), r),
    ensures
        r is Ok ==> r->Ok_0.context == context,
        match account {
            Some(Some(Ok(TokenAccountType::Account(token)))) => r is Ok && r->Ok_0.value == Some(
                token,
            ),
            Some(Some(Err(e))) => r is Err && is_bare(r->Err_0, ErrorKind::SerdeJson(e)),
            Some(_) => r is Ok && r->Ok_0.value is None,
            None => r is Err && tells_user(
                r->Err_0,
                "Account could not be parsed as token account: pubkey="@ + pubkey_text(pubkey),
            ),
        },
{
}

/// The node's signature is accepted just where it is the transaction's own; an airdrop has
/// whichever the node returned. A fee is the number that the node sent.
pub proof fn signatures_and_fees_are_handed_on(
    returned: Result<Signature, String>,
    expected: Signature,
    accepted: Result<Signature, Error>,
    airdrop: Result<Signature, Error>,
    fee: Option<u64>,
    paid: Result<u64, Error>,
)
    ensures
        call_ensures(accepted_signature, (returned, &expected), accepted) ==> {
            &&& accepted is Ok <==> returned == Ok::<Signature, String>(expected)
            &&& accepted is Ok ==> accepted->Ok_0 == expected
            &&& accepted is Err ==> accepted->Err_0.request is None
                && accepted->Err_0.kind is RpcError
            &&& returned matches Err(e) ==> (
            accepted->Err_0.kind->RpcError_0 matches ClientRpcError::ParseError(s) && s@ == e@)
            &&& accepted is Err && returned is Ok ==> (
            accepted->Err_0.kind->RpcError_0 matches ClientRpcError::RpcRequestError(s) && s@
                == "RPC node returned mismatched signature "@ + signature_text(returned->Ok_0)
                + ", expected "@ + signature_text(expected))
        },
        call_ensures(airdrop_signature, (returned,), airdrop) ==> match returned {
            Ok(x) => airdrop == Ok::<Signature, Error>(x),
            Err(_) => airdrop is Err && tells_user(
                airdrop->Err_0,
                "airdrop request failed. This can happen when the rate limit is reached."@,
            ),
        },
        call_ensures(message_fee, (fee,), paid) ==> match fee {
            Some(x) => paid == Ok::<u64, Error>(x),
            None => paid is Err && says(paid->Err_0, "Invalid blockhash"@),
        },
{
}

/// The first status decides: a transaction has its outcome once that status has reached the
/// commitment, and is confirmed where the outcome is a success.
pub proof fn the_first_status_decides(
    statuses: Response<Vec<Option<TransactionStatus>>>,
    config: CommitmentConfig,
    r: Response<bool>,
    outcome: Option<Result<(), TransactionError>>,
)
    requires
        statuses.value@.len() > 0,
    ensures
        call_ensures(confirmed, (statuses, config), r) ==> {
            &&& r.context == statuses.context
            &&& r.value <==> statuses.value@[0] is Some && has_reached(
                statuses.value@[0]->Some_0,
                config,
            ) && statuses.value@[0]->Some_0.status is Ok
        },
        call_ensures(signature_outcome, (statuses.value, config), outcome) ==> {
            &&& outcome is Some <==> statuses.value@[0] is Some && has_reached(
                statuses.value@[0]->Some_0,
                config,
            )
            &&& outcome is Some ==> outcome->Some_0 == statuses.value@[0]->Some_0.status
        },
{
}

} // verus!
