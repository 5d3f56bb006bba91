//! What the replies come to.

use serde_json::{Error as JsonError, Value};
use solana_account_decoder_client_types::token::{UiTokenAccount, UiTokenAmount};
use solana_rpc_client_types::response::{
    RpcAccountBalance, RpcConfirmedTransactionStatusWithSignature, RpcContactInfo,
    RpcInflationGovernor, RpcInflationRate, RpcInflationReward, RpcKeyedAccount, RpcLeaderSchedule,
    RpcPerfSample, RpcPrioritizationFee, RpcResponseContext, RpcSimulateTransactionResult,
    RpcSnapshotSlotInfo, RpcSupply, RpcTokenAccountBalance, RpcVersionInfo, RpcVoteAccountStatus,
    UiAccount,
};
use solana_sdk::epoch_info::EpochInfo;
use solana_sdk::epoch_schedule::EpochSchedule;
use solana_transaction_status_client_types::{
    EncodedConfirmedBlock, EncodedConfirmedTransactionWithStatusMeta, UiConfirmedBlock,
};
use vstd::prelude::*;

use crate::bindings::replies::{
    json_account_balances_reply, json_block_production_reply, json_block_reply,
    json_contact_infos_reply, json_encoded_block_reply, json_epoch_info_reply,
    json_epoch_schedule_reply, json_inflation_governor_reply, json_inflation_rate_reply,
    json_inflation_rewards_reply, json_leader_schedule_reply, json_perf_samples_reply,
    json_prioritization_fees_reply, json_signature_infos_reply, json_simulation_response_reply,
    json_slots_reply, json_snapshot_slots_reply, json_supply_reply, json_token_accounts_reply,
    json_token_amount_reply, json_token_balances_reply, json_transaction_reply, json_u64_reply,
    json_version_reply, json_vote_accounts_reply,
};
use crate::bindings::{
    account_option, account_parsed_data, decoded_account, error_data_text, is_json_null,
    json_account, json_accounts, json_blockhash, json_bool_response, json_document, json_i64,
    json_identity, json_keyed_accounts, json_string, json_strings, json_token_account, json_u64,
    json_u64_response, parsed_hash, parsed_pubkey, pubkey_text,
};
use crate::host::{json_error_displays, os_error_displays, HostReply, IoError};
use crate::laws::{body, is_answer, is_failure, is_success};
use crate::rpc_client::accounts::{
    account_views, decoded_accounts, decoded_option, keyed_account_results,
    keyed_accounts_all_or_nothing, keyed_accounts_view, keyed_views,
};
use crate::rpc_client::client::{response_error_data, sent, RpcClient};
use crate::rpc_client::cluster::{list_view, slot_leader_results, slot_leaders_all_or_nothing};
use crate::rpc_client::error::{kind_displays, ClientRpcError, Error, ErrorKind};
use crate::rpc_client::keys::{Blockhash, Pubkey};
use crate::rpc_client::request::RpcRequest;
use crate::rpc_client::response::{
    collected, collected_ok, Account, AccountView, Response, RpcBlockProduction,
    RpcBlockProductionView, TokenAccountType,
};
use crate::text::{decimal, signed_decimal};

verus! {

/// A number is handed on as the node sent it.
pub proof fn numbers_are_handed_on(
    client: RpcClient,
    reply: HostReply,
    r: Result<u64, Error>,
)
    ensures
        call_ensures(RpcClient::get_slot_reply, (&client, reply), r)
            ==> is_answer(
                client.spec_tx_debug(),
                RpcRequest::GetSlot,
                reply,
                json_u64_reply(body(reply)),
                r,
            ),
        call_ensures(RpcClient::get_block_height_reply, (&client, reply), r)
            ==> is_answer(
                client.spec_tx_debug(),
                RpcRequest::GetBlockHeight,
                reply,
                json_u64_reply(body(reply)),
                r,
            ),
        call_ensures(RpcClient::get_transaction_count_reply, (&client, reply), r)
            ==> is_answer(
                client.spec_tx_debug(),
                RpcRequest::GetTransactionCount,
                reply,
                json_u64_reply(body(reply)),
                r,
            ),
        call_ensures(RpcClient::minimum_ledger_slot_reply, (&client, reply), r)
            ==> is_answer(
                client.spec_tx_debug(),
                RpcRequest::MinimumLedgerSlot,
                reply,
                json_u64_reply(body(reply)),
                r,
            ),
        call_ensures(RpcClient::get_max_retransmit_slot_reply, (&client, reply), r)
            ==> is_answer(
                client.spec_tx_debug(),
                RpcRequest::GetMaxRetransmitSlot,
                reply,
                json_u64_reply(body(reply)),
                r,
            ),
        call_ensures(RpcClient::get_max_shred_insert_slot_reply, (&client, reply), r)
            ==> is_answer(
                client.spec_tx_debug(),
                RpcRequest::GetMaxShredInsertSlot,
                reply,
                json_u64_reply(body(reply)),
                r,
            ),
        call_ensures(RpcClient::get_first_available_block_reply, (&client, reply), r)
            ==> is_answer(
                client.spec_tx_debug(),
                RpcRequest::GetFirstAvailableBlock,
                reply,
                json_u64_reply(body(reply)),
                r,
            ),
{
}

/// What a reply with a context decodes to, without the context.
pub open spec fn value_in<T>(decoded: Result<Response<T>, JsonError>) -> Result<T, JsonError> {
    match decoded {
        Ok(reply) => Ok(reply.value),
        Err(e) => Err(e),
    }
}

/// A list, as a sequence.
pub open spec fn as_seq<T>(r: Result<Vec<T>, Error>) -> Result<Seq<T>, Error> {
    match r {
        Ok(list) => Ok(list@),
        Err(e) => Err(e),
    }
}

/// A list with its context, as a sequence.
pub open spec fn as_seq_in_context<T>(r: Result<Response<Vec<T>>, Error>) -> Result<
    (RpcResponseContext, Seq<T>),
    Error,
> {
    match r {
        Ok(reply) => Ok((reply.context, reply.value@)),
        Err(e) => Err(e),
    }
}

/// A list without its context.
pub open spec fn list_in<T>(decoded: Result<(RpcResponseContext, Seq<T>), JsonError>) -> Result<
    Seq<T>,
    JsonError,
> {
    match decoded {
        Ok((_, list)) => Ok(list),
        Err(e) => Err(e),
    }
}

/// A number that comes with a context is handed on as the node sent it.
pub proof fn amounts_are_handed_on(
    client: RpcClient,
    reply: HostReply,
    r: Result<u64, Error>,
)
    ensures
        call_ensures(RpcClient::get_balance_reply, (&client, reply), r)
            ==> is_answer(
                client.spec_tx_debug(),
                RpcRequest::GetBalance,
                reply,
                value_in(json_u64_response(body(reply))),
                r,
            ),
        call_ensures(RpcClient::get_stake_minimum_delegation_reply, (&client, reply), r)
            ==> is_answer(
                client.spec_tx_debug(),
                RpcRequest::GetStakeMinimumDelegation,
                reply,
                value_in(json_u64_response(body(reply))),
                r,
            ),
{
}

/// A balance with its context is handed on as the node sent it.
pub proof fn balances_are_handed_on(
    client: RpcClient,
    reply: HostReply,
    r: Result<Response<u64>, Error>,
)
    ensures
        call_ensures(RpcClient::get_balance_with_commitment_reply, (&client, reply), r)
            ==> is_answer(
                client.spec_tx_debug(),
                RpcRequest::GetBalance,
                reply,
                json_u64_response(body(reply)),
                r,
            ),
{
}

/// Whether a blockhash is valid is for the node to say.
pub proof fn validity_is_handed_on(
    client: RpcClient,
    reply: HostReply,
    r: Result<bool, Error>,
)
    ensures
        call_ensures(RpcClient::is_blockhash_valid_reply, (&client, reply), r)
            ==> is_answer(
                client.spec_tx_debug(),
                RpcRequest::IsBlockhashValid,
                reply,
                value_in(json_bool_response(body(reply))),
                r,
            ),
{
}

/// Reports on the cluster, blocks, transactions and simulations are handed on as the node sent
/// them.
pub proof fn reports_are_handed_on(
    client: RpcClient,
    reply: HostReply,
    highest_snapshot_slot: Result<RpcSnapshotSlotInfo, Error>,
    epoch_info: Result<EpochInfo, Error>,
    epoch_schedule: Result<EpochSchedule, Error>,
    inflation_governor: Result<RpcInflationGovernor, Error>,
    inflation_rate: Result<RpcInflationRate, Error>,
    vote_accounts: Result<RpcVoteAccountStatus, Error>,
    version: Result<RpcVersionInfo, Error>,
    block: Result<EncodedConfirmedBlock, Error>,
    block_with_config: Result<UiConfirmedBlock, Error>,
    transaction: Result<EncodedConfirmedTransactionWithStatusMeta, Error>,
    supply: Result<Response<RpcSupply>, Error>,
    simulate_transaction: Result<Response<RpcSimulateTransactionResult>, Error>,
)
    ensures
        call_ensures(
            RpcClient::get_highest_snapshot_slot_reply,
            (&client, reply),
            highest_snapshot_slot,
        )
            ==> is_answer(
                client.spec_tx_debug(),
                RpcRequest::GetHighestSnapshotSlot,
                reply,
                json_snapshot_slots_reply(body(reply)),
                highest_snapshot_slot,
            ),
        call_ensures(RpcClient::get_epoch_info_reply, (&client, reply), epoch_info)
            ==> is_answer(
                client.spec_tx_debug(),
                RpcRequest::GetEpochInfo,
                reply,
                json_epoch_info_reply(body(reply)),
                epoch_info,
            ),
        call_ensures(RpcClient::get_epoch_schedule_reply, (&client, reply), epoch_schedule)
            ==> is_answer(
                client.spec_tx_debug(),
                RpcRequest::GetEpochSchedule,
                reply,
                json_epoch_schedule_reply(body(reply)),
                epoch_schedule,
            ),
        call_ensures(RpcClient::get_inflation_governor_reply, (&client, reply), inflation_governor)
            ==> is_answer(
                client.spec_tx_debug(),
                RpcRequest::GetInflationGovernor,
                reply,
                json_inflation_governor_reply(body(reply)),
                inflation_governor,
            ),
        call_ensures(RpcClient::get_inflation_rate_reply, (&client, reply), inflation_rate)
            ==> is_answer(
                client.spec_tx_debug(),
                RpcRequest::GetInflationRate,
                reply,
                json_inflation_rate_reply(body(reply)),
                inflation_rate,
            ),
        call_ensures(RpcClient::get_vote_accounts_reply, (&client, reply), vote_accounts)
            ==> is_answer(
                client.spec_tx_debug(),
                RpcRequest::GetVoteAccounts,
                reply,
                json_vote_accounts_reply(body(reply)),
                vote_accounts,
            ),
        call_ensures(RpcClient::get_version_reply, (&client, reply), version)
            ==> is_answer(
                client.spec_tx_debug(),
                RpcRequest::GetVersion,
                reply,
                json_version_reply(body(reply)),
                version,
            ),
        call_ensures(RpcClient::get_block_reply, (&client, reply), block)
            ==> is_answer(
                client.spec_tx_debug(),
                RpcRequest::GetBlock,
                reply,
                json_encoded_block_reply(body(reply)),
                block,
            ),
        call_ensures(RpcClient::get_block_with_config_reply, (&client, reply), block_with_config)
            ==> is_answer(
                client.spec_tx_debug(),
                RpcRequest::GetBlock,
                reply,
                json_block_reply(body(reply)),
                block_with_config,
            ),
        call_ensures(RpcClient::get_transaction_reply, (&client, reply), transaction)
            ==> is_answer(
                client.spec_tx_debug(),
                RpcRequest::GetTransaction,
                reply,
                json_transaction_reply(body(reply)),
                transaction,
            ),
        call_ensures(RpcClient::supply_reply, (&client, reply), supply)
            ==> is_answer(
                client.spec_tx_debug(),
                RpcRequest::GetSupply,
                reply,
                json_supply_reply(body(reply)),
                supply,
            ),
        call_ensures(RpcClient::simulate_transaction_reply, (&client, reply), simulate_transaction)
            ==> is_answer(
                client.spec_tx_debug(),
                RpcRequest::SimulateTransaction,
                reply,
                json_simulation_response_reply(body(reply)),
                simulate_transaction,
            ),
{
}

/// Lists are handed on whole and in the order in which the node sent them.
pub proof fn lists_are_handed_on(
    client: RpcClient,
    reply: HostReply,
    blocks: Result<Vec<u64>, Error>,
    blocks_with_limit: Result<Vec<u64>, Error>,
    signatures_for_address: Result<Vec<RpcConfirmedTransactionStatusWithSignature>, Error>,
    inflation_reward: Result<Vec<Option<RpcInflationReward>>, Error>,
    cluster_nodes: Result<Vec<RpcContactInfo>, Error>,
    recent_performance_samples: Result<Vec<RpcPerfSample>, Error>,
    recent_prioritization_fees: Result<Vec<RpcPrioritizationFee>, Error>,
)
    ensures
        call_ensures(RpcClient::get_blocks_reply, (&client, reply), blocks)
            ==> is_answer(
                client.spec_tx_debug(),
                RpcRequest::GetBlocks,
                reply,
                json_slots_reply(body(reply)),
                as_seq(blocks),
            ),
        call_ensures(RpcClient::get_blocks_with_limit_reply, (&client, reply), blocks_with_limit)
            ==> is_answer(
                client.spec_tx_debug(),
                RpcRequest::GetBlocksWithLimit,
                reply,
                json_slots_reply(body(reply)),
                as_seq(blocks_with_limit),
            ),
        call_ensures(
            RpcClient::get_signatures_for_address_reply,
            (&client, reply),
            signatures_for_address,
        )
            ==> is_answer(
                client.spec_tx_debug(),
                RpcRequest::GetSignaturesForAddress,
                reply,
                json_signature_infos_reply(body(reply)),
                as_seq(signatures_for_address),
            ),
        call_ensures(RpcClient::get_inflation_reward_reply, (&client, reply), inflation_reward)
            ==> is_answer(
                client.spec_tx_debug(),
                RpcRequest::GetInflationReward,
                reply,
                json_inflation_rewards_reply(body(reply)),
                as_seq(inflation_reward),
            ),
        call_ensures(RpcClient::get_cluster_nodes_reply, (&client, reply), cluster_nodes)
            ==> is_answer(
                client.spec_tx_debug(),
                RpcRequest::GetClusterNodes,
                reply,
                json_contact_infos_reply(body(reply)),
                as_seq(cluster_nodes),
            ),
        call_ensures(
            RpcClient::get_recent_performance_samples_reply,
            (&client, reply),
            recent_performance_samples,
        )
            ==> is_answer(
                client.spec_tx_debug(),
                RpcRequest::GetRecentPerformanceSamples,
                reply,
                json_perf_samples_reply(body(reply)),
                as_seq(recent_performance_samples),
            ),
        call_ensures(
            RpcClient::get_recent_prioritization_fees_reply,
            (&client, reply),
            recent_prioritization_fees,
        )
            ==> is_answer(
                client.spec_tx_debug(),
                RpcRequest::GetRecentPrioritizationFees,
                reply,
                json_prioritization_fees_reply(body(reply)),
                as_seq(recent_prioritization_fees),
            ),
{
}

/// Lists of accounts and holders are handed on whole and in the order in which the node sent them,
/// with their context or without it.
pub proof fn holders_are_handed_on(
    client: RpcClient,
    reply: HostReply,
    largest_accounts_with_config: Result<Response<Vec<RpcAccountBalance>>, Error>,
    token_accounts_by_delegate_with_commitment: Result<Response<Vec<RpcKeyedAccount>>, Error>,
    token_accounts_by_owner_with_commitment: Result<Response<Vec<RpcKeyedAccount>>, Error>,
    token_largest_accounts_with_commitment: Result<Response<Vec<RpcTokenAccountBalance>>, Error>,
    token_accounts_by_delegate: Result<Vec<RpcKeyedAccount>, Error>,
    token_accounts_by_owner: Result<Vec<RpcKeyedAccount>, Error>,
    token_largest_accounts: Result<Vec<RpcTokenAccountBalance>, Error>,
)
    ensures
        call_ensures(
            RpcClient::get_largest_accounts_with_config_reply,
            (&client, reply),
            largest_accounts_with_config,
        )
            ==> is_answer(
                client.spec_tx_debug(),
                RpcRequest::GetLargestAccounts,
                reply,
                json_account_balances_reply(body(reply)),
                as_seq_in_context(largest_accounts_with_config),
            ),
        call_ensures(
            RpcClient::get_token_accounts_by_delegate_with_commitment_reply,
            (&client, reply),
            token_accounts_by_delegate_with_commitment,
        )
            ==> is_answer(
                client.spec_tx_debug(),
                RpcRequest::GetTokenAccountsByDelegate,
                reply,
                json_token_accounts_reply(body(reply)),
                as_seq_in_context(token_accounts_by_delegate_with_commitment),
            ),
        call_ensures(
            RpcClient::get_token_accounts_by_owner_with_commitment_reply,
            (&client, reply),
            token_accounts_by_owner_with_commitment,
        )
            ==> is_answer(
                client.spec_tx_debug(),
                RpcRequest::GetTokenAccountsByOwner,
                reply,
                json_token_accounts_reply(body(reply)),
                as_seq_in_context(token_accounts_by_owner_with_commitment),
            ),
        call_ensures(
            RpcClient::get_token_largest_accounts_with_commitment_reply,
            (&client, reply),
            token_largest_accounts_with_commitment,
        )
            ==> is_answer(
                client.spec_tx_debug(),
                RpcRequest::GetTokenLargestAccounts,
                reply,
                json_token_balances_reply(body(reply)),
                as_seq_in_context(token_largest_accounts_with_commitment),
            ),
        call_ensures(
            RpcClient::get_token_accounts_by_delegate_reply,
            (&client, reply),
            token_accounts_by_delegate,
        )
            ==> is_answer(
                client.spec_tx_debug(),
                RpcRequest::GetTokenAccountsByDelegate,
                reply,
                list_in(json_token_accounts_reply(body(reply))),
                as_seq(token_accounts_by_delegate),
            ),
        call_ensures(
            RpcClient::get_token_accounts_by_owner_reply,
            (&client, reply),
            token_accounts_by_owner,
        )
            ==> is_answer(
                client.spec_tx_debug(),
                RpcRequest::GetTokenAccountsByOwner,
                reply,
                list_in(json_token_accounts_reply(body(reply))),
                as_seq(token_accounts_by_owner),
            ),
        call_ensures(
            RpcClient::get_token_largest_accounts_reply,
            (&client, reply),
            token_largest_accounts,
        )
            ==> is_answer(
                client.spec_tx_debug(),
                RpcRequest::GetTokenLargestAccounts,
                reply,
                list_in(json_token_balances_reply(body(reply))),
                as_seq(token_largest_accounts),
            ),
{
}

/// Amounts of a token are handed on as the node sent them.
pub proof fn token_amounts_are_handed_on(
    client: RpcClient,
    reply: HostReply,
    token_account_balance: Result<UiTokenAmount, Error>,
    token_account_balance_in_context: Result<Response<UiTokenAmount>, Error>,
    token_supply: Result<UiTokenAmount, Error>,
    token_supply_in_context: Result<Response<UiTokenAmount>, Error>,
)
    ensures
        call_ensures(
            RpcClient::get_token_account_balance_reply,
            (&client, reply),
            token_account_balance,
        )
            ==> is_answer(
                client.spec_tx_debug(),
                RpcRequest::GetTokenAccountBalance,
                reply,
                value_in(json_token_amount_reply(body(reply))),
                token_account_balance,
            ),
        call_ensures(
            RpcClient::get_token_account_balance_with_commitment_reply,
            (&client, reply),
            token_account_balance_in_context,
        )
            ==> is_answer(
                client.spec_tx_debug(),
                RpcRequest::GetTokenAccountBalance,
                reply,
                json_token_amount_reply(body(reply)),
                token_account_balance_in_context,
            ),
        call_ensures(RpcClient::get_token_supply_reply, (&client, reply), token_supply)
            ==> is_answer(
                client.spec_tx_debug(),
                RpcRequest::GetTokenSupply,
                reply,
                value_in(json_token_amount_reply(body(reply))),
                token_supply,
            ),
        call_ensures(
            RpcClient::get_token_supply_with_commitment_reply,
            (&client, reply),
            token_supply_in_context,
        )
            ==> is_answer(
                client.spec_tx_debug(),
                RpcRequest::GetTokenSupply,
                reply,
                json_token_amount_reply(body(reply)),
                token_supply_in_context,
            ),
{
}

/// The blocks of validators and the leader schedule are handed on as the maps that the node sent.
pub proof fn maps_are_handed_on(
    client: RpcClient,
    reply: HostReply,
    production: Result<Response<RpcBlockProduction>, Error>,
    schedule: Result<Option<RpcLeaderSchedule>, Error>,
)
    ensures
        call_ensures(RpcClient::get_block_production_reply, (&client, reply), production)
            ==> is_answer(
            client.spec_tx_debug(),
            RpcRequest::GetBlockProduction,
            reply,
            json_block_production_reply(body(reply)),
            match production {
                Ok(x) => Ok(
                    (
                        x.context,
                        RpcBlockProductionView {
                            by_identity: x.value.by_identity.deep_view(),
                            range: x.value.range,
                        },
                    ),
                ),
                Err(e) => Err(e),
            },
        ),
        call_ensures(RpcClient::get_leader_schedule_reply, (&client, reply), schedule)
            ==> is_answer(
            client.spec_tx_debug(),
            RpcRequest::GetLeaderSchedule,
            reply,
            json_leader_schedule_reply(body(reply)),
            match schedule {
                Ok(Some(x)) => Ok(Some(x.deep_view())),
                Ok(None) => Ok(None),
                Err(e) => Err(e),
            },
        ),
{
}

/// Whether a decoded account is, field by field, the one that a node sent.
pub open spec fn is_same_account(account: Account, sent: AccountView) -> bool {
    &&& account.lamports == sent.lamports
    &&& account.data@ == sent.data
    &&& account.owner == sent.owner
    &&& account.executable == sent.executable
    &&& account.rent_epoch == sent.rent_epoch
}

/// Whether what is handed out is just what decoding an account that a node sent gives.
pub open spec fn is_decoded(account: Option<Account>, sent: UiAccount) -> bool {
    &&& account is Some <==> decoded_account(sent) is Some
    &&& account is Some ==> is_same_account(account->Some_0, decoded_account(sent)->Some_0)
}

/// Whether an error tells the user just this.
pub open spec fn tells_user(e: Error, message: Seq<char>) -> bool {
    &&& e.request is None
    &&& e.kind is RpcError
    &&& e.kind->RpcError_0 is ForUser
    &&& e.kind->RpcError_0->ForUser_0@ == message
}

/// An account that the node returned is handed out just as it decodes, whatever it holds. It counts
/// as missing only where the node returned none or where it does not decode.
pub proof fn accounts_are_handed_out_as_decoded(
    client: RpcClient,
    pubkey: Pubkey,
    reply: HostReply,
    json: Value,
    answer: Response<Option<UiAccount>>,
    in_context: Result<Response<Option<Account>>, Error>,
    account: Result<Account, Error>,
    data: Result<Vec<u8>, Error>,
)
    requires
        is_success(reply),
        json_document(body(reply)) == Ok::<Value, JsonError>(json),
        !is_json_null(json),
        json_account(json) == Ok::<Response<Option<UiAccount>>, JsonError>(answer),
    ensures
        call_ensures(
            RpcClient::get_account_with_config_reply,
            (&client, &pubkey, reply),
            in_context,
        ) ==> {
            &&& in_context is Ok
            &&& in_context->Ok_0.context == answer.context
            &&& answer.value is None ==> in_context->Ok_0.value is None
            &&& answer.value is Some ==> is_decoded(in_context->Ok_0.value, answer.value->Some_0)
        },
        call_ensures(RpcClient::get_account_reply, (&client, &pubkey, reply), account) ==> {
            &&& account is Ok
                <==> answer.value is Some && decoded_account(answer.value->Some_0) is Some
            &&& account is Ok ==> is_same_account(
                account->Ok_0,
                decoded_account(answer.value->Some_0)->Some_0,
            )
            &&& account is Err ==> tells_user(
                account->Err_0,
                "AccountNotFound: pubkey="@ + pubkey_text(pubkey),
            )
        },
        call_ensures(RpcClient::get_account_data_reply, (&client, &pubkey, reply), data) ==> {
            &&& data is Ok
                <==> answer.value is Some && decoded_account(answer.value->Some_0) is Some
            &&& data is Ok ==> data->Ok_0@ == decoded_account(answer.value->Some_0)->Some_0.data
            &&& data is Err ==> tells_user(
                data->Err_0,
                "AccountNotFound: pubkey="@ + pubkey_text(pubkey),
            )
        },
{
}

/// Whether `text` is the text of the failure of a call that the host answered with `reply`.
pub open spec fn displays_failure(tx_debug: bool, reply: HostReply, text: Seq<char>) -> bool {
    match reply {
        Err(code) => os_error_displays(code, text),
        Ok(Ok(bytes)) => json_error_displays(json_document(bytes@)->Err_0, text),
        Ok(Err(err)) => if err.data is Some && json_document(err.data->Some_0@) is Err {
            json_error_displays(json_document(err.data->Some_0@)->Err_0, text)
        } else {
            text == "RPC response error "@ + signed_decimal(err.code as int) + ": "@ + err.message@
                + "; "@ + error_data_text(
                response_error_data(
                    tx_debug,
                    err.code as int,
                    match err.data {
                        Some(bytes) => Some(json_document(bytes@)->Ok_0),
                        None => None,
                    },
                ),
            )
        },
    }
}

/// Whether `e` is the error of a reply that holds no account: that the account is not there where
/// the node said `null` or the call failed, what the decoder said where the reply is malformed.
pub open spec fn is_account_error(
    tx_debug: bool,
    pubkey: Pubkey,
    reply: HostReply,
    e: Error,
) -> bool {
    if !is_success(reply) || json_document(body(reply)) is Err {
        exists|text: Seq<char>| #[trigger]
            displays_failure(tx_debug, reply, text) && tells_user(
                e,
                "AccountNotFound: pubkey="@ + pubkey_text(pubkey) + ": "@ + text,
            )
    } else if is_json_null(json_document(body(reply))->Ok_0) {
        tells_user(e, "AccountNotFound: pubkey="@ + pubkey_text(pubkey))
    } else {
        e.request is None && e.kind == ErrorKind::SerdeJson(
            json_account(json_document(body(reply))->Ok_0)->Err_0,
        )
    }
}

/// A reply that holds no account is an error for whoever asked.
pub proof fn missing_accounts_are_errors(
    client: RpcClient,
    pubkey: Pubkey,
    reply: HostReply,
    in_context: Result<Response<Option<Account>>, Error>,
    account: Result<Account, Error>,
    data: Result<Vec<u8>, Error>,
    token: Result<Response<Option<UiTokenAccount>>, Error>,
    bare_token: Result<Option<UiTokenAccount>, Error>,
)
    requires
        is_success(reply) && json_document(body(reply)) is Ok && !is_json_null(
            json_document(body(reply))->Ok_0,
        ) ==> json_account(json_document(body(reply))->Ok_0) is Err,
    ensures
        call_ensures(
            RpcClient::get_account_with_config_reply,
            (&client, &pubkey, reply),
            in_context,
        ) ==> in_context is Err && is_account_error(
            client.spec_tx_debug(),
            pubkey,
            reply,
            in_context->Err_0,
        ),
        call_ensures(RpcClient::get_account_reply, (&client, &pubkey, reply), account)
            ==> account is Err && is_account_error(
            client.spec_tx_debug(),
            pubkey,
            reply,
            account->Err_0,
        ),
        call_ensures(RpcClient::get_account_data_reply, (&client, &pubkey, reply), data)
            ==> data is Err && is_account_error(
            client.spec_tx_debug(),
            pubkey,
            reply,
            data->Err_0,
        ),
        call_ensures(
            RpcClient::get_token_account_with_commitment_reply,
            (&client, &pubkey, reply),
            token,
        ) ==> token is Err && is_account_error(
            client.spec_tx_debug(),
            pubkey,
            reply,
            token->Err_0,
        ),
        call_ensures(RpcClient::get_token_account_reply, (&client, &pubkey, reply), bare_token)
            ==> bare_token is Err && is_account_error(
            client.spec_tx_debug(),
            pubkey,
            reply,
            bare_token->Err_0,
        ),
{
    if !is_success(reply) || json_document(body(reply)) is Err {
        let failure = sent(
            client.spec_tx_debug(),
            RpcRequest::GetAccountInfo,
            reply,
            json_document(body(reply)),
        )->Err_0;
        assert forall|text: Seq<char>| #[trigger]
            kind_displays(failure.kind, text) implies displays_failure(
            client.spec_tx_debug(),
            reply,
            text,
        ) by {}
    }
}

/// A token account that the node returned is handed out as it decodes. An account that is there but
/// is no token account is none, not an error; one that is not there, or whose parsed data does not
/// decode, is an error.
pub proof fn token_accounts_are_handed_out_as_decoded(
    client: RpcClient,
    pubkey: Pubkey,
    reply: HostReply,
    json: Value,
    answer: Response<Option<UiAccount>>,
    token: Result<Response<Option<UiTokenAccount>>, Error>,
    bare: Result<Option<UiTokenAccount>, Error>,
)
    requires
        is_success(reply),
        json_document(body(reply)) == Ok::<Value, JsonError>(json),
        !is_json_null(json),
        json_account(json) == Ok::<Response<Option<UiAccount>>, JsonError>(answer),
    ensures
        call_ensures(
            RpcClient::get_token_account_with_commitment_reply,
            (&client, &pubkey, reply),
            token,
        ) ==> is_token_answer(pubkey, answer.value, value_only(token)) && (token is Ok
            ==> token->Ok_0.context == answer.context),
        call_ensures(RpcClient::get_token_account_reply, (&client, &pubkey, reply), bare)
            ==> is_token_answer(pubkey, answer.value, bare),
{
}

/// A result without its context.
pub open spec fn value_only<T>(r: Result<Response<T>, Error>) -> Result<T, Error> {
    match r {
        Ok(reply) => Ok(reply.value),
        Err(e) => Err(e),
    }
}

/// Whether `r` is what an account that a node returned is as a token account.
pub open spec fn is_token_answer(
    pubkey: Pubkey,
    account: Option<UiAccount>,
    r: Result<Option<UiTokenAccount>, Error>,
) -> bool {
    if account is None {
        r is Err && tells_user(
            r->Err_0,
            "Account could not be parsed as token account: pubkey="@ + pubkey_text(pubkey),
        )
    } else if account_parsed_data(account->Some_0) is None {
        r == Ok::<Option<UiTokenAccount>, Error>(None)
    } else {
        match json_token_account(account_parsed_data(account->Some_0)->Some_0) {
            Ok(TokenAccountType::Account(token)) => r == Ok::<Option<UiTokenAccount>, Error>(
                Some(token),
            ),
            Ok(_) => r == Ok::<Option<UiTokenAccount>, Error>(None),
            Err(e) => r is Err && r->Err_0.request is None && r->Err_0.kind == ErrorKind::SerdeJson(
                e,
            ),
        }
    }
}

/// Of several accounts, the one at a position is just what decoding the account at that position of
/// the reply gives, and there are as many as the node returned.
pub proof fn several_accounts_keep_their_positions(
    client: RpcClient,
    reply: HostReply,
    json: Value,
    context: RpcResponseContext,
    accounts: Seq<Option<UiAccount>>,
    in_context: Result<Response<Vec<Option<Account>>>, Error>,
    bare: Result<Vec<Option<Account>>, Error>,
)
    requires
        is_success(reply),
        json_document(body(reply)) == Ok::<Value, JsonError>(json),
        json_accounts(json) == Ok::<(RpcResponseContext, Seq<Option<UiAccount>>), JsonError>(
            (context, accounts),
        ),
    ensures
        call_ensures(
            RpcClient::get_multiple_accounts_with_config_reply,
            (&client, reply),
            in_context,
        ) ==> {
            &&& in_context is Ok
            &&& in_context->Ok_0.context == context
            &&& in_context->Ok_0.value@.len() == accounts.len()
            &&& forall|i: int|
                0 <= i < accounts.len() ==> if accounts[i] is Some {
                    is_decoded(#[trigger] in_context->Ok_0.value@[i], accounts[i]->Some_0)
                } else {
                    in_context->Ok_0.value@[i] is None
                }
        },
        call_ensures(RpcClient::get_multiple_accounts_reply, (&client, reply), bare) ==> {
            &&& bare is Ok
            &&& bare->Ok_0@.len() == accounts.len()
            &&& forall|i: int|
                0 <= i < accounts.len() ==> if accounts[i] is Some {
                    is_decoded(#[trigger] bare->Ok_0@[i], accounts[i]->Some_0)
                } else {
                    bare->Ok_0@[i] is None
                }
        },
{
    if call_ensures(
        RpcClient::get_multiple_accounts_with_config_reply,
        (&client, reply),
        in_context,
    ) {
        decoded_at_its_position(in_context->Ok_0.value@, accounts);
    }
    if call_ensures(RpcClient::get_multiple_accounts_reply, (&client, reply), bare) {
        decoded_at_its_position(bare->Ok_0@, accounts);
    }
}

/// What is handed out stands at its position.
pub(crate) proof fn decoded_at_its_position(
    handed: Seq<Option<Account>>,
    accounts: Seq<Option<UiAccount>>,
)
    requires
        account_views(handed) == decoded_accounts(accounts),
    ensures
        handed.len() == accounts.len(),
        forall|i: int|
            0 <= i < accounts.len() ==> if accounts[i] is Some {
                is_decoded(#[trigger] handed[i], accounts[i]->Some_0)
            } else {
                handed[i] is None
            },
{
    assert(account_views(handed).len() == handed.len());
    assert(decoded_accounts(accounts).len() == accounts.len());
    assert forall|i: int| 0 <= i < accounts.len() implies if accounts[i] is Some {
        is_decoded(#[trigger] handed[i], accounts[i]->Some_0)
    } else {
        handed[i] is None
    } by {
        assert(account_views(handed)[i] == account_option(handed[i]));
        assert(decoded_accounts(accounts)[i] == decoded_option(accounts[i]));
    }
}

/// A reply about several accounts that holds none is an error: the call's, or the decoder's.
pub proof fn several_accounts_fail_as_one(
    client: RpcClient,
    reply: HostReply,
    in_context: Result<Response<Vec<Option<Account>>>, Error>,
    bare: Result<Vec<Option<Account>>, Error>,
)
    ensures
        call_ensures(
            RpcClient::get_multiple_accounts_with_config_reply,
            (&client, reply),
            in_context,
        ) ==> is_accounts_failure(client.spec_tx_debug(), reply, value_only(in_context)),
        call_ensures(RpcClient::get_multiple_accounts_reply, (&client, reply), bare)
            ==> is_accounts_failure(client.spec_tx_debug(), reply, bare),
{
}

/// Whether `r` fails just where the call failed or its reply holds no list of accounts, and with
/// the error of that.
pub open spec fn is_accounts_failure(
    tx_debug: bool,
    reply: HostReply,
    r: Result<Vec<Option<Account>>, Error>,
) -> bool {
    if !is_success(reply) || json_document(body(reply)) is Err {
        &&& r is Err
        &&& is_failure(tx_debug, RpcRequest::GetMultipleAccounts, reply, r->Err_0)
        &&& is_success(reply) ==> r->Err_0.kind == ErrorKind::Io(
            IoError::InvalidInput(json_document(body(reply))->Err_0),
        )
    } else {
        match json_accounts(json_document(body(reply))->Ok_0) {
            Ok(_) => r is Ok,
            Err(e) => r is Err
                && r->Err_0.request is None
                && r->Err_0.kind == ErrorKind::SerdeJson(e),
        }
    }
}

/// Whether an error says that something other than `expected` stood in a reply to `request`.
pub open spec fn expected_other(e: Error, expected: Seq<char>, request: RpcRequest) -> bool {
    &&& e.request == Some(request)
    &&& e.kind is RpcError
    &&& e.kind->RpcError_0 is ParseError
    &&& e.kind->RpcError_0->ParseError_0@ == expected
}

/// Whether an address parses and its account decodes.
pub open spec fn is_usable(account: (Seq<char>, UiAccount)) -> bool {
    parsed_pubkey(account.0) is Ok && decoded_account(account.1) is Some
}

/// Whether `r` is what a list of accounts with their addresses comes to: all of them, in order,
/// each with its own address, just where every address parses and every account decodes. Else it is
/// the error of the first that does not.
pub open spec fn is_keyed_answer(
    accounts: Seq<(Seq<char>, UiAccount)>,
    request: RpcRequest,
    r: Result<Vec<(Pubkey, Account)>, Error>,
) -> bool {
    &&& r is Ok <==> forall|i: int| 0 <= i < accounts.len() ==> is_usable(#[trigger] accounts[i])
    &&& r is Ok ==> r->Ok_0@.len() == accounts.len()
    &&& r is Ok ==> forall|i: int|
        0 <= i < accounts.len() ==> (#[trigger] r->Ok_0@[i]).0 == parsed_pubkey(
            accounts[i].0,
        )->Ok_0 && is_same_account(r->Ok_0@[i].1, decoded_account(accounts[i].1)->Some_0)
    &&& r is Err ==> exists|k: int|
        0 <= k < accounts.len() && !is_usable(#[trigger] accounts[k]) && (forall|i: int|
            0 <= i < k ==> is_usable(#[trigger] accounts[i])) && expected_other(
            r->Err_0,
            if parsed_pubkey(accounts[k].0) is Err {
                "Pubkey"@
            } else {
                "Account from rpc"@
            },
            request,
        )
}

/// What the collected accounts of a reply are, field by field.
pub(crate) proof fn collected_accounts_are_keyed(
    accounts: Seq<(Seq<char>, UiAccount)>,
    request: RpcRequest,
    r: Result<Vec<(Pubkey, Account)>, Error>,
)
    requires
        keyed_accounts_view(r) == collected(keyed_account_results(accounts, request)),
    ensures
        is_keyed_answer(accounts, request, r),
{
    let results = keyed_account_results(accounts, request);
    keyed_accounts_all_or_nothing(accounts, request);
    if r is Ok {
        let list = r->Ok_0@;
        assert(keyed_views(list) == collected(results)->Ok_0);
        assert forall|i: int| 0 <= i < accounts.len() implies (#[trigger] list[i]).0
            == parsed_pubkey(accounts[i].0)->Ok_0 && is_same_account(
            list[i].1,
            decoded_account(accounts[i].1)->Some_0,
        ) by {
            assert(keyed_views(list)[i] == (list[i].0, list[i].1@));
        }
    } else {
        let k = first_failure(results);
        assert(!is_usable(accounts[k]));
        assert forall|i: int| 0 <= i < k implies is_usable(#[trigger] accounts[i]) by {
            assert(results[i] is Ok);
        }
    }
}

/// The accounts of a program are had just where every address parses and every account decodes, and
/// then all of them, in order, each with its own address. Else the first that does not is the
/// error.
pub proof fn program_accounts_are_complete(
    client: RpcClient,
    reply: HostReply,
    accounts: Seq<(Seq<char>, UiAccount)>,
    r: Result<Vec<(Pubkey, Account)>, Error>,
)
    requires
        is_success(reply),
        json_keyed_accounts(body(reply)) == Ok::<Seq<(Seq<char>, UiAccount)>, JsonError>(accounts),
        call_ensures(RpcClient::get_program_accounts_reply, (&client, reply), r),
    ensures
        is_keyed_answer(accounts, RpcRequest::GetProgramAccounts, r),
{
    collected_accounts_are_keyed(accounts, RpcRequest::GetProgramAccounts, r);
}

/// A failure of the call for the accounts of a program is handed on.
pub proof fn program_accounts_failures(
    client: RpcClient,
    reply: HostReply,
    r: Result<Vec<(Pubkey, Account)>, Error>,
)
    requires
        call_ensures(RpcClient::get_program_accounts_reply, (&client, reply), r),
        !is_success(reply) || json_keyed_accounts(body(reply)) is Err,
    ensures
        r is Err,
        is_failure(client.spec_tx_debug(), RpcRequest::GetProgramAccounts, reply, r->Err_0),
        is_success(reply) ==> r->Err_0.kind == ErrorKind::Io(
            IoError::InvalidInput(json_keyed_accounts(body(reply))->Err_0),
        ),
{
}

/// The position of the error with which collecting fails: the first of them.
proof fn first_failure<T, E>(results: Seq<Result<T, E>>) -> (k: int)
    requires
        collected(results) is Err,
    ensures
        0 <= k < results.len(),
        results[k] == Err::<T, E>(collected(results)->Err_0),
        forall|i: int| 0 <= i < k ==> (#[trigger] results[i]) is Ok,
    decreases results.len(),
{
    let front = results.drop_last();
    assert(forall|i: int| 0 <= i < front.len() ==> front[i] == results[i]);
    if collected(front) is Err {
        first_failure(front)
    } else {
        collected_ok(front);
        assert(results[results.len() - 1] == results.last());
        results.len() - 1
    }
}

/// Whether `r` is what a list of slot leaders comes to: all of them, in order, just where every
/// identity parses. Else it is the error of the first that does not.
pub open spec fn is_leaders_answer(leaders: Seq<Seq<char>>, r: Result<Vec<Pubkey>, Error>) -> bool {
    &&& r is Ok <==> forall|i: int|
        0 <= i < leaders.len() ==> parsed_pubkey(#[trigger] leaders[i]) is Ok
    &&& r is Ok ==> r->Ok_0@.len() == leaders.len()
    &&& r is Ok ==> forall|i: int|
        0 <= i < leaders.len() ==> (#[trigger] r->Ok_0@[i]) == parsed_pubkey(leaders[i])->Ok_0
    &&& r is Err ==> exists|k: int|
        0 <= k < leaders.len() && parsed_pubkey(#[trigger] leaders[k]) is Err && (forall|i: int|
            0 <= i < k ==> parsed_pubkey(#[trigger] leaders[i]) is Ok) && r->Err_0.request is None
            && r->Err_0.kind is Custom && r->Err_0.kind->Custom_0@
            == "pubkey deserialization failed: "@ + parsed_pubkey(leaders[k])->Err_0
}

/// What the collected slot leaders of a reply are.
pub(crate) proof fn collected_leaders_are_parsed(
    leaders: Seq<Seq<char>>,
    r: Result<Vec<Pubkey>, Error>,
)
    requires
        list_view(r) == collected(slot_leader_results(leaders)),
    ensures
        is_leaders_answer(leaders, r),
{
    let results = slot_leader_results(leaders);
    slot_leaders_all_or_nothing(leaders);
    if r is Err {
        let k = first_failure(results);
        assert(parsed_pubkey(leaders[k]) is Err);
        assert forall|i: int| 0 <= i < k implies parsed_pubkey(#[trigger] leaders[i]) is Ok by {
            assert(results[i] is Ok);
        }
    }
}

/// Slot leaders are had just where every identity parses, and then all of them in order.
pub proof fn slot_leaders_are_complete(
    client: RpcClient,
    reply: HostReply,
    r: Result<Vec<Pubkey>, Error>,
)
    requires
        call_ensures(RpcClient::get_slot_leaders_reply, (&client, reply), r),
    ensures
        !is_success(reply) || json_strings(body(reply)) is Err ==> r is Err && is_failure(
            client.spec_tx_debug(),
            RpcRequest::GetSlotLeaders,
            reply,
            r->Err_0,
        ),
        is_success(reply) && json_strings(body(reply)) is Ok ==> is_leaders_answer(
            json_strings(body(reply))->Ok_0,
            r,
        ),
{
    if is_success(reply) && json_strings(body(reply)) is Ok {
        collected_leaders_are_parsed(json_strings(body(reply))->Ok_0, r);
    }
}

/// An identity or a hash that the node sent as text is handed out as it parses; a text that does
/// not parse is a parse error that names the request.
pub proof fn texts_are_handed_out_as_parsed(
    client: RpcClient,
    reply: HostReply,
    identity: Result<Pubkey, Error>,
    genesis: Result<Blockhash, Error>,
)
    ensures
        call_ensures(RpcClient::get_identity_reply, (&client, reply), identity) ==> {
            &&& !is_success(reply) || json_identity(body(reply)) is Err ==> identity is Err
                && is_failure(
                client.spec_tx_debug(),
                RpcRequest::GetIdentity,
                reply,
                identity->Err_0,
            )
            &&& is_success(reply) && json_identity(body(reply)) is Ok ==> match parsed_pubkey(
                json_identity(body(reply))->Ok_0,
            ) {
                Ok(pubkey) => identity == Ok::<Pubkey, Error>(pubkey),
                Err(_) => identity is Err && expected_other(
                    identity->Err_0,
                    "Pubkey"@,
                    RpcRequest::GetIdentity,
                ),
            }
        },
        call_ensures(RpcClient::get_genesis_hash_reply, (&client, reply), genesis) ==> {
            &&& !is_success(reply) || json_string(body(reply)) is Err ==> genesis is Err
                && is_failure(
                client.spec_tx_debug(),
                RpcRequest::GetGenesisHash,
                reply,
                genesis->Err_0,
            )
            &&& is_success(reply) && json_string(body(reply)) is Ok ==> match parsed_hash(
                json_string(body(reply))->Ok_0,
            ) {
                Ok(hash) => genesis == Ok::<Blockhash, Error>(hash),
                Err(_) => genesis is Err && expected_other(
                    genesis->Err_0,
                    "Hash"@,
                    RpcRequest::GetGenesisHash,
                ),
            }
        },
{
}

/// The latest blockhash is handed out as it parses, with the block height that came with it or
/// without.
pub proof fn blockhashes_are_handed_out_as_parsed(
    client: RpcClient,
    reply: HostReply,
    latest: Result<(Blockhash, u64), Error>,
    bare: Result<Blockhash, Error>,
)
    ensures
        !is_success(reply) || json_blockhash(body(reply)) is Err ==> {
            &&& call_ensures(
                RpcClient::get_latest_blockhash_with_commitment_reply,
                (&client, reply),
                latest,
            ) ==> latest is Err && is_failure(
                client.spec_tx_debug(),
                RpcRequest::GetLatestBlockhash,
                reply,
                latest->Err_0,
            )
            &&& call_ensures(RpcClient::get_latest_blockhash_reply, (&client, reply), bare)
                ==> bare is Err && is_failure(
                client.spec_tx_debug(),
                RpcRequest::GetLatestBlockhash,
                reply,
                bare->Err_0,
            )
        },
        is_success(reply) && json_blockhash(body(reply)) is Ok ==> {
            let (text, height) = json_blockhash(body(reply))->Ok_0;
            &&& call_ensures(
                RpcClient::get_latest_blockhash_with_commitment_reply,
                (&client, reply),
                latest,
            ) ==> match parsed_hash(text) {
                Ok(hash) => latest == Ok::<(Blockhash, u64), Error>((hash, height)),
                Err(_) => latest is Err && expected_other(
                    latest->Err_0,
                    "Hash"@,
                    RpcRequest::GetLatestBlockhash,
                ),
            }
            &&& call_ensures(RpcClient::get_latest_blockhash_reply, (&client, reply), bare)
                ==> match parsed_hash(text) {
                Ok(hash) => bare == Ok::<Blockhash, Error>(hash),
                Err(_) => bare is Err && expected_other(
                    bare->Err_0,
                    "Hash"@,
                    RpcRequest::GetLatestBlockhash,
                ),
            }
        },
{
}

/// The time of a block is the number that the node sent. `null` is an error that names the slot.
pub proof fn block_times_are_handed_on(
    client: RpcClient,
    slot: u64,
    reply: HostReply,
    r: Result<i64, Error>,
)
    requires
        call_ensures(RpcClient::get_block_time_reply, (&client, slot, reply), r),
    ensures
        !is_success(reply) || json_document(body(reply)) is Err ==> r is Err && is_failure(
            client.spec_tx_debug(),
            RpcRequest::GetBlockTime,
            reply,
            r->Err_0,
        ),
        is_success(reply) && json_document(body(reply)) is Ok ==> {
            let json = json_document(body(reply))->Ok_0;
            if is_json_null(json) {
                r is Err && tells_user(
                    r->Err_0,
                    "Block Not Found: slot="@ + decimal(slot as nat),
                )
            } else {
                match json_i64(json) {
                    Ok(time) => r == Ok::<i64, Error>(time),
                    Err(e) => r is Err && r->Err_0.request == Some(RpcRequest::GetBlockTime)
                        && r->Err_0.kind == ErrorKind::SerdeJson(e),
                }
            }
        },
{
}

/// The rent-exempt balance is the number that the node sent.
pub proof fn rent_exemptions_are_handed_on(
    client: RpcClient,
    reply: HostReply,
    r: Result<u64, Error>,
)
    requires
        call_ensures(RpcClient::get_minimum_balance_for_rent_exemption_reply, (&client, reply), r),
    ensures
        !is_success(reply) || json_document(body(reply)) is Err ==> r is Err && is_failure(
            client.spec_tx_debug(),
            RpcRequest::GetMinimumBalanceForRentExemption,
            reply,
            r->Err_0,
        ),
        is_success(reply) && json_document(body(reply)) is Ok ==> match json_u64(
            json_document(body(reply))->Ok_0,
        ) {
            Ok(n) => r == Ok::<u64, Error>(n),
            Err(e) => r is Err && r->Err_0.request == Some(
                RpcRequest::GetMinimumBalanceForRentExemption,
            ) && r->Err_0.kind == ErrorKind::SerdeJson(e),
        },
{
}

/// A node is healthy just where it answers with a string. An error that it sends instead keeps its
/// code and its message and loses its data.
pub proof fn health_is_a_string(client: RpcClient, reply: HostReply, r: Result<(), Error>)
    requires
        call_ensures(RpcClient::get_health_reply, (&client, reply), r),
    ensures
        r is Ok <==> is_success(reply) && json_string(body(reply)) is Ok,
        r is Err ==> r->Err_0.request == Some(RpcRequest::GetHealth),
        reply matches Err(code) ==> r is Err && r->Err_0.kind == ErrorKind::Io(IoError::Os(code)),
        reply matches Ok(Ok(bytes)) ==> (json_string(bytes@) matches Err(e) ==> r->Err_0.kind
            == ErrorKind::Io(IoError::InvalidInput(e))),
        reply matches Ok(Err(err)) ==> if err.data is Some && json_document(
            err.data->Some_0@,
        ) is Err {
            r->Err_0.kind == ErrorKind::Io(
                IoError::InvalidInput(json_document(err.data->Some_0@)->Err_0),
            )
        } else {
            r->Err_0.kind is RpcError && (r->Err_0.kind->RpcError_0
                matches ClientRpcError::RpcResponseError { code, message, data } && code == err.code
                && message@ == err.message@ && data is Empty)
        },
{
}

} // verus!
