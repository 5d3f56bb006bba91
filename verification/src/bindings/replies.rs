//! Replies that the client hands on as they are.
//!
//! Each is decoded by `serde_json::from_slice` into a type of another crate. The library looks inside
//! none of them but for the stakes of vote accounts and for the maps in two of them, whose order is
//! not fixed.

use serde_json::Error as JsonError;
use solana_account_decoder_client_types::token::UiTokenAmount;
use solana_rpc_client_types::response;
use solana_rpc_client_types::response::{
    RpcAccountBalance, RpcConfirmedTransactionStatusWithSignature, RpcContactInfo,
    RpcInflationGovernor, RpcInflationRate, RpcInflationReward, RpcKeyedAccount,
    RpcLeaderSchedule, RpcPerfSample, RpcPrioritizationFee, RpcResponseContext,
    RpcSimulateTransactionResult, RpcSnapshotSlotInfo, RpcSupply, RpcTokenAccountBalance,
    RpcVersionInfo, RpcVoteAccountInfo, RpcVoteAccountStatus,
};
use solana_sdk::epoch_info::EpochInfo;
use solana_sdk::epoch_schedule::EpochSchedule;
use solana_transaction_status_client_types::{
    EncodedConfirmedBlock, EncodedConfirmedTransactionWithStatusMeta, UiConfirmedBlock,
};
use vstd::prelude::*;

use crate::rpc_client::response::{
    Response, RpcBlockProduction, RpcBlockProductionRange, RpcBlockProductionView,
};

verus! {

/// A decoded list, as a sequence.
pub open spec fn list_ok<T>(r: Result<Vec<T>, JsonError>) -> Result<Seq<T>, JsonError> {
    match r {
        Ok(list) => Ok(list@),
        Err(e) => Err(e),
    }
}

/// A decoded list with its context, the list as a sequence.
pub open spec fn response_list_ok<T>(r: Result<Response<Vec<T>>, JsonError>) -> Result<
    (RpcResponseContext, Seq<T>),
    JsonError,
> {
    match r {
        Ok(reply) => Ok((reply.context, reply.value@)),
        Err(e) => Err(e),
    }
}

/// `solana_epoch_info::EpochInfo`: progress within an epoch.
#[verifier::external_type_specification]
#[verifier::external_body]
pub struct ExEpochInfo(EpochInfo);

/// `solana_epoch_schedule::EpochSchedule`: the lengths of epochs.
#[verifier::external_type_specification]
#[verifier::external_body]
pub struct ExEpochSchedule(EpochSchedule);

/// `solana_rpc_client_types::response::RpcSnapshotSlotInfo`: slots of a node's snapshots.
#[verifier::external_type_specification]
#[verifier::external_body]
pub struct ExRpcSnapshotSlotInfo(RpcSnapshotSlotInfo);

/// `solana_rpc_client_types::response::RpcVoteAccountStatus`: current and delinquent vote accounts.
#[verifier::external_type_specification]
#[verifier::external_body]
pub struct ExRpcVoteAccountStatus(RpcVoteAccountStatus);

/// `solana_transaction_status_client_types::EncodedConfirmedBlock`: a block.
#[verifier::external_type_specification]
#[verifier::external_body]
pub struct ExEncodedConfirmedBlock(EncodedConfirmedBlock);

/// `solana_transaction_status_client_types::UiConfirmedBlock`: a block, parts of which may be absent.
#[verifier::external_type_specification]
#[verifier::external_body]
pub struct ExUiConfirmedBlock(UiConfirmedBlock);

/// `solana_transaction_status_client_types::EncodedConfirmedTransactionWithStatusMeta`: a transaction with its status.
#[verifier::external_type_specification]
#[verifier::external_body]
pub struct ExEncodedConfirmedTransactionWithStatusMeta(EncodedConfirmedTransactionWithStatusMeta);

/// `solana_rpc_client_types::response::RpcInflationGovernor`: inflation parameters.
#[verifier::external_type_specification]
#[verifier::external_body]
pub struct ExRpcInflationGovernor(RpcInflationGovernor);

/// `solana_rpc_client_types::response::RpcInflationRate`: inflation of an epoch.
#[verifier::external_type_specification]
#[verifier::external_body]
pub struct ExRpcInflationRate(RpcInflationRate);

/// `solana_rpc_client_types::response::RpcVersionInfo`: a node's software version.
#[verifier::external_type_specification]
#[verifier::external_body]
pub struct ExRpcVersionInfo(RpcVersionInfo);

/// `solana_rpc_client_types::response::RpcContactInfo`: where a node is reached.
#[verifier::external_type_specification]
#[verifier::external_body]
pub struct ExRpcContactInfo(RpcContactInfo);

/// `solana_rpc_client_types::response::RpcConfirmedTransactionStatusWithSignature`: a signature in an address's history.
#[verifier::external_type_specification]
#[verifier::external_body]
pub struct ExRpcConfirmedTransactionStatusWithSignature(RpcConfirmedTransactionStatusWithSignature);

/// `solana_rpc_client_types::response::RpcPerfSample`: a performance sample.
#[verifier::external_type_specification]
#[verifier::external_body]
pub struct ExRpcPerfSample(RpcPerfSample);

/// `solana_rpc_client_types::response::RpcPrioritizationFee`: the prioritization fee of a slot.
#[verifier::external_type_specification]
#[verifier::external_body]
pub struct ExRpcPrioritizationFee(RpcPrioritizationFee);

/// `solana_rpc_client_types::response::RpcInflationReward`: an inflation reward.
#[verifier::external_type_specification]
#[verifier::external_body]
pub struct ExRpcInflationReward(RpcInflationReward);

/// `solana_rpc_client_types::response::RpcSupply`: the native supply.
#[verifier::external_type_specification]
#[verifier::external_body]
pub struct ExRpcSupply(RpcSupply);

/// `solana_account_decoder_client_types::token::UiTokenAmount`: an amount of a token.
#[verifier::external_type_specification]
#[verifier::external_body]
pub struct ExUiTokenAmount(UiTokenAmount);

/// `solana_rpc_client_types::response::RpcAccountBalance`: an address and its balance.
#[verifier::external_type_specification]
#[verifier::external_body]
pub struct ExRpcAccountBalance(RpcAccountBalance);

/// `solana_rpc_client_types::response::RpcKeyedAccount`: an account with its address.
#[verifier::external_type_specification]
#[verifier::external_body]
pub struct ExRpcKeyedAccount(RpcKeyedAccount);

/// `solana_rpc_client_types::response::RpcTokenAccountBalance`: a token account's address and amount.
#[verifier::external_type_specification]
#[verifier::external_body]
pub struct ExRpcTokenAccountBalance(RpcTokenAccountBalance);

/// What a JSON text says of a bare number, or why it says nothing.
pub uninterp spec fn json_u64_reply(json: Seq<u8>) -> Result<u64, JsonError>;

/// `serde_json::from_slice::<u64>`.
#[verifier::external_body]
pub(crate) fn parse_u64(json: Vec<u8>) -> (r: Result<u64, JsonError>)
    ensures
        r == json_u64_reply(json@),
{
    serde_json::from_slice(&json)
}

/// What a JSON text says of an epoch's progress, or why it says nothing.
pub uninterp spec fn json_epoch_info_reply(json: Seq<u8>) -> Result<EpochInfo, JsonError>;

/// `serde_json::from_slice::<EpochInfo>`.
#[verifier::external_body]
pub(crate) fn parse_epoch_info(json: Vec<u8>) -> (r: Result<EpochInfo, JsonError>)
    ensures
        r == json_epoch_info_reply(json@),
{
    serde_json::from_slice(&json)
}

/// What a JSON text says of the epoch schedule, or why it says nothing.
pub uninterp spec fn json_epoch_schedule_reply(json: Seq<u8>) -> Result<EpochSchedule, JsonError>;

/// `serde_json::from_slice::<EpochSchedule>`.
#[verifier::external_body]
pub(crate) fn parse_epoch_schedule(json: Vec<u8>) -> (r: Result<EpochSchedule, JsonError>)
    ensures
        r == json_epoch_schedule_reply(json@),
{
    serde_json::from_slice(&json)
}

/// What a JSON text says of the snapshot slots, or why it says nothing.
pub uninterp spec fn json_snapshot_slots_reply(json: Seq<u8>) -> Result<RpcSnapshotSlotInfo, JsonError>;

/// `serde_json::from_slice::<RpcSnapshotSlotInfo>`.
#[verifier::external_body]
pub(crate) fn parse_snapshot_slots(json: Vec<u8>) -> (r: Result<RpcSnapshotSlotInfo, JsonError>)
    ensures
        r == json_snapshot_slots_reply(json@),
{
    serde_json::from_slice(&json)
}

/// What a JSON text says of the vote accounts, or why it says nothing.
pub uninterp spec fn json_vote_accounts_reply(json: Seq<u8>) -> Result<RpcVoteAccountStatus, JsonError>;

/// `serde_json::from_slice::<RpcVoteAccountStatus>`.
#[verifier::external_body]
pub(crate) fn parse_vote_accounts(json: Vec<u8>) -> (r: Result<RpcVoteAccountStatus, JsonError>)
    ensures
        r == json_vote_accounts_reply(json@),
{
    serde_json::from_slice(&json)
}

/// What a JSON text says of a confirmed block, or why it says nothing.
pub uninterp spec fn json_encoded_block_reply(json: Seq<u8>) -> Result<EncodedConfirmedBlock, JsonError>;

/// `serde_json::from_slice::<EncodedConfirmedBlock>`.
#[verifier::external_body]
pub(crate) fn parse_encoded_block(json: Vec<u8>) -> (r: Result<EncodedConfirmedBlock, JsonError>)
    ensures
        r == json_encoded_block_reply(json@),
{
    serde_json::from_slice(&json)
}

/// What a JSON text says of a confirmed block, as far as it was asked for, or why it says nothing.
pub uninterp spec fn json_block_reply(json: Seq<u8>) -> Result<UiConfirmedBlock, JsonError>;

/// `serde_json::from_slice::<UiConfirmedBlock>`.
#[verifier::external_body]
pub(crate) fn parse_block(json: Vec<u8>) -> (r: Result<UiConfirmedBlock, JsonError>)
    ensures
        r == json_block_reply(json@),
{
    serde_json::from_slice(&json)
}

/// What a JSON text says of a confirmed transaction, or why it says nothing.
pub uninterp spec fn json_transaction_reply(json: Seq<u8>) -> Result<EncodedConfirmedTransactionWithStatusMeta, JsonError>;

/// `serde_json::from_slice::<EncodedConfirmedTransactionWithStatusMeta>`.
#[verifier::external_body]
pub(crate) fn parse_transaction(json: Vec<u8>) -> (r: Result<EncodedConfirmedTransactionWithStatusMeta, JsonError>)
    ensures
        r == json_transaction_reply(json@),
{
    serde_json::from_slice(&json)
}

/// What a JSON text says of the inflation governor, or why it says nothing.
pub uninterp spec fn json_inflation_governor_reply(json: Seq<u8>) -> Result<RpcInflationGovernor, JsonError>;

/// `serde_json::from_slice::<RpcInflationGovernor>`.
#[verifier::external_body]
pub(crate) fn parse_inflation_governor(json: Vec<u8>) -> (r: Result<RpcInflationGovernor, JsonError>)
    ensures
        r == json_inflation_governor_reply(json@),
{
    serde_json::from_slice(&json)
}

/// What a JSON text says of the inflation rate, or why it says nothing.
pub uninterp spec fn json_inflation_rate_reply(json: Seq<u8>) -> Result<RpcInflationRate, JsonError>;

/// `serde_json::from_slice::<RpcInflationRate>`.
#[verifier::external_body]
pub(crate) fn parse_inflation_rate(json: Vec<u8>) -> (r: Result<RpcInflationRate, JsonError>)
    ensures
        r == json_inflation_rate_reply(json@),
{
    serde_json::from_slice(&json)
}

/// What a JSON text says of the node's version, or why it says nothing.
pub uninterp spec fn json_version_reply(json: Seq<u8>) -> Result<RpcVersionInfo, JsonError>;

/// `serde_json::from_slice::<RpcVersionInfo>`.
#[verifier::external_body]
pub(crate) fn parse_version(json: Vec<u8>) -> (r: Result<RpcVersionInfo, JsonError>)
    ensures
        r == json_version_reply(json@),
{
    serde_json::from_slice(&json)
}

/// What a JSON text says of a list of slots, or why it says nothing.
pub uninterp spec fn json_slots_reply(json: Seq<u8>) -> Result<Seq<u64>, JsonError>;

/// `serde_json::from_slice::<Vec<u64>>`.
#[verifier::external_body]
pub(crate) fn parse_slots(json: Vec<u8>) -> (r: Result<Vec<u64>, JsonError>)
    ensures
        list_ok(r) == json_slots_reply(json@),
{
    serde_json::from_slice(&json)
}

/// What a JSON text says of the cluster's nodes, or why it says nothing.
pub uninterp spec fn json_contact_infos_reply(json: Seq<u8>) -> Result<Seq<RpcContactInfo>, JsonError>;

/// `serde_json::from_slice::<Vec<RpcContactInfo>>`.
#[verifier::external_body]
pub(crate) fn parse_contact_infos(json: Vec<u8>) -> (r: Result<Vec<RpcContactInfo>, JsonError>)
    ensures
        list_ok(r) == json_contact_infos_reply(json@),
{
    serde_json::from_slice(&json)
}

/// What a JSON text says of the signatures that touched an address, or why it says nothing.
pub uninterp spec fn json_signature_infos_reply(json: Seq<u8>) -> Result<Seq<RpcConfirmedTransactionStatusWithSignature>, JsonError>;

/// `serde_json::from_slice::<Vec<RpcConfirmedTransactionStatusWithSignature>>`.
#[verifier::external_body]
pub(crate) fn parse_signature_infos(json: Vec<u8>) -> (r: Result<Vec<RpcConfirmedTransactionStatusWithSignature>, JsonError>)
    ensures
        list_ok(r) == json_signature_infos_reply(json@),
{
    serde_json::from_slice(&json)
}

/// What a JSON text says of performance samples, or why it says nothing.
pub uninterp spec fn json_perf_samples_reply(json: Seq<u8>) -> Result<Seq<RpcPerfSample>, JsonError>;

/// `serde_json::from_slice::<Vec<RpcPerfSample>>`.
#[verifier::external_body]
pub(crate) fn parse_perf_samples(json: Vec<u8>) -> (r: Result<Vec<RpcPerfSample>, JsonError>)
    ensures
        list_ok(r) == json_perf_samples_reply(json@),
{
    serde_json::from_slice(&json)
}

/// What a JSON text says of prioritization fees, or why it says nothing.
pub uninterp spec fn json_prioritization_fees_reply(json: Seq<u8>) -> Result<Seq<RpcPrioritizationFee>, JsonError>;

/// `serde_json::from_slice::<Vec<RpcPrioritizationFee>>`.
#[verifier::external_body]
pub(crate) fn parse_prioritization_fees(json: Vec<u8>) -> (r: Result<Vec<RpcPrioritizationFee>, JsonError>)
    ensures
        list_ok(r) == json_prioritization_fees_reply(json@),
{
    serde_json::from_slice(&json)
}

/// What a JSON text says of inflation rewards, or why it says nothing.
pub uninterp spec fn json_inflation_rewards_reply(json: Seq<u8>) -> Result<Seq<Option<RpcInflationReward>>, JsonError>;

/// `serde_json::from_slice::<Vec<Option<RpcInflationReward>>>`.
#[verifier::external_body]
pub(crate) fn parse_inflation_rewards(json: Vec<u8>) -> (r: Result<Vec<Option<RpcInflationReward>>, JsonError>)
    ensures
        list_ok(r) == json_inflation_rewards_reply(json@),
{
    serde_json::from_slice(&json)
}

/// What a JSON text says of the supply and its context, or why it says nothing.
pub uninterp spec fn json_supply_reply(json: Seq<u8>) -> Result<Response<RpcSupply>, JsonError>;

/// `serde_json::from_slice` of a `Response<RpcSupply>`.
#[verifier::external_body]
pub(crate) fn parse_supply(json: Vec<u8>) -> (r: Result<Response<RpcSupply>, JsonError>)
    ensures
        r == json_supply_reply(json@),
{
    let reply: response::Response<RpcSupply> = serde_json::from_slice(&json)?;
    Ok(Response { context: reply.context, value: reply.value })
}

/// What a JSON text says of a token amount and its context, or why it says nothing.
pub uninterp spec fn json_token_amount_reply(json: Seq<u8>) -> Result<Response<UiTokenAmount>, JsonError>;

/// `serde_json::from_slice` of a `Response<UiTokenAmount>`.
#[verifier::external_body]
pub(crate) fn parse_token_amount(json: Vec<u8>) -> (r: Result<Response<UiTokenAmount>, JsonError>)
    ensures
        r == json_token_amount_reply(json@),
{
    let reply: response::Response<UiTokenAmount> = serde_json::from_slice(&json)?;
    Ok(Response { context: reply.context, value: reply.value })
}

/// What a JSON text says of a transaction simulation and its context, or why it says nothing.
pub uninterp spec fn json_simulation_response_reply(json: Seq<u8>) -> Result<Response<RpcSimulateTransactionResult>, JsonError>;

/// `serde_json::from_slice` of a `Response<RpcSimulateTransactionResult>`.
#[verifier::external_body]
pub(crate) fn parse_simulation_response(json: Vec<u8>) -> (r: Result<Response<RpcSimulateTransactionResult>, JsonError>)
    ensures
        r == json_simulation_response_reply(json@),
{
    let reply: response::Response<RpcSimulateTransactionResult> = serde_json::from_slice(&json)?;
    Ok(Response { context: reply.context, value: reply.value })
}

/// What a JSON text says of the largest accounts and their context, or why it says nothing.
pub uninterp spec fn json_account_balances_reply(json: Seq<u8>) -> Result<
    (RpcResponseContext, Seq<RpcAccountBalance>),
    JsonError,
>;

/// `serde_json::from_slice` of a `Response<Vec<RpcAccountBalance>>`.
#[verifier::external_body]
pub(crate) fn parse_account_balances(json: Vec<u8>) -> (r: Result<Response<Vec<RpcAccountBalance>>, JsonError>)
    ensures
        response_list_ok(r) == json_account_balances_reply(json@),
{
    let reply: response::Response<Vec<RpcAccountBalance>> = serde_json::from_slice(&json)?;
    Ok(Response { context: reply.context, value: reply.value })
}

/// What a JSON text says of token accounts and their context, or why it says nothing.
pub uninterp spec fn json_token_accounts_reply(json: Seq<u8>) -> Result<
    (RpcResponseContext, Seq<RpcKeyedAccount>),
    JsonError,
>;

/// `serde_json::from_slice` of a `Response<Vec<RpcKeyedAccount>>`.
#[verifier::external_body]
pub(crate) fn parse_token_accounts(json: Vec<u8>) -> (r: Result<Response<Vec<RpcKeyedAccount>>, JsonError>)
    ensures
        response_list_ok(r) == json_token_accounts_reply(json@),
{
    let reply: response::Response<Vec<RpcKeyedAccount>> = serde_json::from_slice(&json)?;
    Ok(Response { context: reply.context, value: reply.value })
}

/// What a JSON text says of the largest token accounts and their context, or why it says nothing.
pub uninterp spec fn json_token_balances_reply(json: Seq<u8>) -> Result<
    (RpcResponseContext, Seq<RpcTokenAccountBalance>),
    JsonError,
>;

/// `serde_json::from_slice` of a `Response<Vec<RpcTokenAccountBalance>>`.
#[verifier::external_body]
pub(crate) fn parse_token_balances(json: Vec<u8>) -> (r: Result<Response<Vec<RpcTokenAccountBalance>>, JsonError>)
    ensures
        response_list_ok(r) == json_token_balances_reply(json@),
{
    let reply: response::Response<Vec<RpcTokenAccountBalance>> = serde_json::from_slice(&json)?;
    Ok(Response { context: reply.context, value: reply.value })
}

/// A decoded `getBlockProduction` reply, its blocks as a map from validator identities.
pub open spec fn block_production_ok(r: Result<Response<RpcBlockProduction>, JsonError>) -> Result<
    (RpcResponseContext, RpcBlockProductionView),
    JsonError,
> {
    match r {
        Ok(reply) => Ok((reply.context, reply.value@)),
        Err(e) => Err(e),
    }
}

/// The context and the blocks in a `getBlockProduction` reply, or why there are none.
pub uninterp spec fn json_block_production_reply(json: Seq<u8>) -> Result<
    (RpcResponseContext, RpcBlockProductionView),
    JsonError,
>;

/// `serde_json::from_slice` of a `Response<RpcBlockProduction>` of `solana_rpc_client_types`, and the
/// fields of its value.
#[verifier::external_body]
pub(crate) fn parse_block_production(json: Vec<u8>) -> (r: Result<
    Response<RpcBlockProduction>,
    JsonError,
>)
    ensures
        block_production_ok(r) == json_block_production_reply(json@),
{
    let reply: response::Response<response::RpcBlockProduction> = serde_json::from_slice(&json)?;
    let range = RpcBlockProductionRange {
        first_slot: reply.value.range.first_slot,
        last_slot: reply.value.range.last_slot,
    };
    let value = RpcBlockProduction { by_identity: reply.value.by_identity, range };
    Ok(Response { context: reply.context, value })
}

/// A decoded leader schedule, as a map from validator identities to slot indices.
pub open spec fn schedule_ok(r: Result<Option<RpcLeaderSchedule>, JsonError>) -> Result<
    Option<Map<Seq<char>, Seq<usize>>>,
    JsonError,
> {
    match r {
        Ok(Some(schedule)) => Ok(Some(schedule.deep_view())),
        Ok(None) => Ok(None),
        Err(e) => Err(e),
    }
}

/// The leader schedule that a JSON text holds, `None` for `null`, or why it holds neither.
pub uninterp spec fn json_leader_schedule_reply(json: Seq<u8>) -> Result<
    Option<Map<Seq<char>, Seq<usize>>>,
    JsonError,
>;

/// `serde_json::from_slice::<Option<RpcLeaderSchedule>>`.
#[verifier::external_body]
pub(crate) fn parse_leader_schedule(json: Vec<u8>) -> (r: Result<
    Option<RpcLeaderSchedule>,
    JsonError,
>)
    ensures
        schedule_ok(r) == json_leader_schedule_reply(json@),
{
    serde_json::from_slice(&json)
}

/// The activated stake of each current vote account and of each delinquent one.
pub uninterp spec fn activated_stakes(accounts: RpcVoteAccountStatus) -> (Seq<u64>, Seq<u64>);

/// The field `activated_stake` of each account in `current`, and of each in `delinquent`, of
/// `solana_rpc_client_types::response::RpcVoteAccountStatus`.
#[verifier::external_body]
pub(crate) fn vote_account_stakes(accounts: &RpcVoteAccountStatus) -> (r: (Vec<u64>, Vec<u64>))
    ensures
        (r.0@, r.1@) == activated_stakes(*accounts),
{
    let stake = |account: &RpcVoteAccountInfo| account.activated_stake;
    (accounts.current.iter().map(stake).collect(), accounts.delinquent.iter().map(stake).collect())
}

} // verus!
