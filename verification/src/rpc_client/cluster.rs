//! The cluster: slots, leaders, epochs, supply, validators and nodes.

use solana_rpc_client_types::response::{
    RpcAccountBalance, RpcContactInfo, RpcInflationGovernor, RpcInflationRate, RpcInflationReward,
    RpcLeaderSchedule, RpcPerfSample, RpcPrioritizationFee, RpcResponseContext,
    RpcSnapshotSlotInfo, RpcSupply, RpcVersionInfo, RpcVoteAccountStatus,
};
use solana_sdk::epoch_info::EpochInfo;
use solana_sdk::epoch_schedule::EpochSchedule;
use vstd::prelude::*;
use vstd::string::*;

use crate::bindings::replies::{
    json_account_balances_reply, json_block_production_reply, json_contact_infos_reply,
    json_epoch_info_reply, json_epoch_schedule_reply, json_inflation_governor_reply,
    json_inflation_rate_reply, json_inflation_rewards_reply, json_leader_schedule_reply,
    json_perf_samples_reply, json_prioritization_fees_reply, json_snapshot_slots_reply,
    json_supply_reply, json_u64_reply, json_version_reply, json_vote_accounts_reply,
    parse_account_balances, parse_block_production, parse_contact_infos, parse_epoch_info,
    parse_epoch_schedule, parse_inflation_governor, parse_inflation_rate, parse_inflation_rewards,
    parse_leader_schedule, parse_perf_samples, parse_prioritization_fees, parse_snapshot_slots,
    parse_supply, parse_u64, parse_version, parse_vote_accounts,
};
use crate::bindings::{
    json_identity, json_string, json_strings, json_u64_response, parse_identity, parse_string,
    parse_strings, parse_u64_response, parsed_pubkey, pubkey_from_str, text_err,
};
use crate::host::HostReply;
use crate::rpc_client::accounts::{pubkey_strings, pubkey_texts};
use crate::rpc_client::client::{reply_bytes, sent, RpcClient, RpcResult};
use crate::rpc_client::config::{
    commitment_or_default, CommitmentConfig, RpcBlockProductionConfig, RpcEpochConfig,
    RpcGetVoteAccountsConfig, RpcLargestAccountsConfig, RpcLeaderScheduleConfig,
};
use crate::rpc_client::error::{
    client_view, custom, custom_error, parse_error, parse_failure, ClientResult, ErrorView,
};
use crate::rpc_client::keys::Pubkey;
use crate::rpc_client::request::{
    bare_call, call_with, texts, Param, ParamView, RpcCall, RpcCallView, RpcRequest,
};
use crate::rpc_client::response::{
    collected, collected_first_error, collected_ok, value_of, Response, RpcBlockProduction,
    RpcBlockProductionView,
};
use crate::rpc_client::tokens::response_list_view;
use crate::text::joined;

verus! {

// ---------------------------------------------------------------------------------------------
// Slots and counters
// ---------------------------------------------------------------------------------------------

/// A request at a commitment.
pub open spec fn commitment_call(request: RpcRequest, commitment: CommitmentConfig) -> RpcCallView {
    call_with(request, seq![ParamView::Commitment(commitment)])
}

/// What a reply says of the number that was asked for.
pub open spec fn sent_u64(tx_debug: bool, request: RpcRequest, reply: HostReply) -> Result<
    u64,
    ErrorView,
> {
    sent(tx_debug, request, reply, json_u64_reply(reply_bytes(reply)))
}

impl RpcClient {
    /// The current slot, at the client's commitment.
    pub fn get_slot(&self) -> (r: RpcCall)
        ensures
            r@ == commitment_call(RpcRequest::GetSlot, self.spec_commitment()),
    {
        self.get_slot_with_commitment(self.commitment())
    }

    /// The current slot, at `commitment_config`.
    pub fn get_slot_with_commitment(&self, commitment_config: CommitmentConfig) -> (r: RpcCall)
        ensures
            r@ == commitment_call(RpcRequest::GetSlot, commitment_config),
    {
        RpcCall::with1(RpcRequest::GetSlot, Param::Commitment(commitment_config))
    }

    /// The reply to [`get_slot`](Self::get_slot) and
    /// [`get_slot_with_commitment`](Self::get_slot_with_commitment).
    pub fn get_slot_reply(&self, reply: HostReply) -> (r: ClientResult<u64>)
        ensures
            client_view(r) == sent_u64(self.spec_tx_debug(), RpcRequest::GetSlot, reply),
    {
        self.send(RpcRequest::GetSlot, reply, parse_u64)
    }

    /// The current block height, at the client's commitment.
    pub fn get_block_height(&self) -> (r: RpcCall)
        ensures
            r@ == commitment_call(RpcRequest::GetBlockHeight, self.spec_commitment()),
    {
        self.get_block_height_with_commitment(self.commitment())
    }

    /// The current block height, at `commitment_config`.
    pub fn get_block_height_with_commitment(&self, commitment_config: CommitmentConfig) -> (r: RpcCall)
        ensures
            r@ == commitment_call(RpcRequest::GetBlockHeight, commitment_config),
    {
        RpcCall::with1(RpcRequest::GetBlockHeight, Param::Commitment(commitment_config))
    }

    /// The reply to [`get_block_height`](Self::get_block_height) and
    /// [`get_block_height_with_commitment`](Self::get_block_height_with_commitment).
    pub fn get_block_height_reply(&self, reply: HostReply) -> (r: ClientResult<u64>)
        ensures
            client_view(r) == sent_u64(self.spec_tx_debug(), RpcRequest::GetBlockHeight, reply),
    {
        self.send(RpcRequest::GetBlockHeight, reply, parse_u64)
    }

    /// How many transactions the node has seen since genesis, at the client's commitment.
    pub fn get_transaction_count(&self) -> (r: RpcCall)
        ensures
            r@ == commitment_call(RpcRequest::GetTransactionCount, self.spec_commitment()),
    {
        self.get_transaction_count_with_commitment(self.commitment())
    }

    /// How many transactions the node has seen since genesis, at `commitment_config`.
    pub fn get_transaction_count_with_commitment(&self, commitment_config: CommitmentConfig) -> (r: RpcCall)
        ensures
            r@ == commitment_call(RpcRequest::GetTransactionCount, commitment_config),
    {
        RpcCall::with1(RpcRequest::GetTransactionCount, Param::Commitment(commitment_config))
    }

    /// The reply to [`get_transaction_count`](Self::get_transaction_count) and
    /// [`get_transaction_count_with_commitment`](Self::get_transaction_count_with_commitment).
    pub fn get_transaction_count_reply(&self, reply: HostReply) -> (r: ClientResult<u64>)
        ensures
            client_view(r) == sent_u64(self.spec_tx_debug(), RpcRequest::GetTransactionCount, reply),
    {
        self.send(RpcRequest::GetTransactionCount, reply, parse_u64)
    }

    /// The oldest slot of which the node has the ledger.
    pub fn minimum_ledger_slot(&self) -> (r: RpcCall)
        ensures
            r@ == bare_call(RpcRequest::MinimumLedgerSlot),
    {
        RpcCall::bare(RpcRequest::MinimumLedgerSlot)
    }

    /// The reply to [`minimum_ledger_slot`](Self::minimum_ledger_slot).
    pub fn minimum_ledger_slot_reply(&self, reply: HostReply) -> (r: ClientResult<u64>)
        ensures
            client_view(r) == sent_u64(self.spec_tx_debug(), RpcRequest::MinimumLedgerSlot, reply),
    {
        self.send(RpcRequest::MinimumLedgerSlot, reply, parse_u64)
    }

    /// The highest slot whose shreds the node has retransmitted.
    pub fn get_max_retransmit_slot(&self) -> (r: RpcCall)
        ensures
            r@ == bare_call(RpcRequest::GetMaxRetransmitSlot),
    {
        RpcCall::bare(RpcRequest::GetMaxRetransmitSlot)
    }

    /// The reply to [`get_max_retransmit_slot`](Self::get_max_retransmit_slot).
    pub fn get_max_retransmit_slot_reply(&self, reply: HostReply) -> (r: ClientResult<u64>)
        ensures
            client_view(r) == sent_u64(self.spec_tx_debug(), RpcRequest::GetMaxRetransmitSlot, reply),
    {
        self.send(RpcRequest::GetMaxRetransmitSlot, reply, parse_u64)
    }

    /// The highest slot whose shreds the node has inserted.
    pub fn get_max_shred_insert_slot(&self) -> (r: RpcCall)
        ensures
            r@ == bare_call(RpcRequest::GetMaxShredInsertSlot),
    {
        RpcCall::bare(RpcRequest::GetMaxShredInsertSlot)
    }

    /// The reply to [`get_max_shred_insert_slot`](Self::get_max_shred_insert_slot).
    pub fn get_max_shred_insert_slot_reply(&self, reply: HostReply) -> (r: ClientResult<u64>)
        ensures
            client_view(r) == sent_u64(self.spec_tx_debug(), RpcRequest::GetMaxShredInsertSlot, reply),
    {
        self.send(RpcRequest::GetMaxShredInsertSlot, reply, parse_u64)
    }

    /// The lowest slot that still has a confirmed block.
    pub fn get_first_available_block(&self) -> (r: RpcCall)
        ensures
            r@ == bare_call(RpcRequest::GetFirstAvailableBlock),
    {
        RpcCall::bare(RpcRequest::GetFirstAvailableBlock)
    }

    /// The reply to [`get_first_available_block`](Self::get_first_available_block).
    pub fn get_first_available_block_reply(&self, reply: HostReply) -> (r: ClientResult<u64>)
        ensures
            client_view(r) == sent_u64(self.spec_tx_debug(), RpcRequest::GetFirstAvailableBlock, reply),
    {
        self.send(RpcRequest::GetFirstAvailableBlock, reply, parse_u64)
    }

    /// The highest slots that the node has snapshots of.
    pub fn get_highest_snapshot_slot(&self) -> (r: RpcCall)
        ensures
            r@ == bare_call(RpcRequest::GetHighestSnapshotSlot),
    {
        RpcCall::bare(RpcRequest::GetHighestSnapshotSlot)
    }

    /// The reply to [`get_highest_snapshot_slot`](Self::get_highest_snapshot_slot).
    pub fn get_highest_snapshot_slot_reply(&self, reply: HostReply) -> (r: ClientResult<RpcSnapshotSlotInfo>)
        ensures
            client_view(r) == sent(
                self.spec_tx_debug(),
                RpcRequest::GetHighestSnapshotSlot,
                reply,
                json_snapshot_slots_reply(reply_bytes(reply)),
            ),
    {
        self.send(RpcRequest::GetHighestSnapshotSlot, reply, parse_snapshot_slots)
    }
}

// ---------------------------------------------------------------------------------------------
// Leaders and block production
// ---------------------------------------------------------------------------------------------

/// A slot leader, given what parsing its identity returned.
pub open spec fn slot_leader_result(parsed: Result<Pubkey, Seq<char>>) -> Result<
    Pubkey,
    ErrorView,
> {
    match parsed {
        Ok(pubkey) => Ok(pubkey),
        Err(e) => Err(custom("pubkey deserialization failed: "@ + e)),
    }
}

/// Each slot leader of a reply.
pub open spec fn slot_leader_results(leaders: Seq<Seq<char>>) -> Seq<Result<Pubkey, ErrorView>> {
    Seq::new(leaders.len(), |i: int| slot_leader_result(parsed_pubkey(leaders[i])))
}

/// A slot leader, given what parsing its identity returned.
pub fn slot_leader(parsed: Result<Pubkey, String>) -> (r: ClientResult<Pubkey>)
    ensures
        client_view(r) == slot_leader_result(text_err(parsed)),
{
    match parsed {
        Ok(pubkey) => Ok(pubkey),
        Err(e) => Err(custom_error(joined("pubkey deserialization failed: ", e.as_str()))),
    }
}

/// The result of a call that returns a list, as a sequence.
pub open spec fn list_view<T>(r: ClientResult<Vec<T>>) -> Result<Seq<T>, ErrorView> {
    match r {
        Ok(list) => Ok(list@),
        Err(e) => Err(e@),
    }
}

/// The slot leaders of a reply. One malformed identity fails the whole.
pub fn parse_slot_leaders(leaders: Vec<String>) -> (r: ClientResult<Vec<Pubkey>>)
    ensures
        list_view(r) == collected(slot_leader_results(texts(leaders@))),
{
    let ghost results = slot_leader_results(texts(leaders@));
    let mut r: Vec<Pubkey> = Vec::new();
    let mut i: usize = 0;
    while i < leaders.len()
        invariant
            i <= leaders@.len(),
            r@.len() == i,
            results == slot_leader_results(texts(leaders@)),
            forall|j: int|
                0 <= j < i ==> #[trigger] results[j] == Ok::<Pubkey, ErrorView>(r@[j]),
        decreases leaders@.len() - i,
    {
        match slot_leader(pubkey_from_str(leaders[i].as_str())) {
            Ok(pubkey) => r.push(pubkey),
            Err(e) => {
                proof {
                    collected_first_error(results, i as int);
                }
                return Err(e);
            },
        }
        i = i + 1;
    }
    proof {
        collected_ok(results);
        assert(collected(results)->Ok_0 =~= r@);
    }
    Ok(r)
}

/// The request for a leader schedule.
pub open spec fn leader_schedule_call(
    slot: Option<u64>,
    config: RpcLeaderScheduleConfig,
) -> RpcCallView {
    call_with(
        RpcRequest::GetLeaderSchedule,
        seq![ParamView::OptionalNumber(slot), ParamView::LeaderSchedule(config)],
    )
}

/// The result of a call that returns a leader schedule, as a map.
pub open spec fn schedule_view(r: ClientResult<Option<RpcLeaderSchedule>>) -> Result<
    Option<Map<Seq<char>, Seq<usize>>>,
    ErrorView,
> {
    match r {
        Ok(Some(schedule)) => Ok(Some(schedule.deep_view())),
        Ok(None) => Ok(None),
        Err(e) => Err(e@),
    }
}

/// The result of a call that returns the blocks of validators, as a map with its context.
pub open spec fn block_production_view(r: RpcResult<RpcBlockProduction>) -> Result<
    (RpcResponseContext, RpcBlockProductionView),
    ErrorView,
> {
    match r {
        Ok(reply) => Ok((reply.context, reply.value@)),
        Err(e) => Err(e@),
    }
}

impl RpcClient {
    /// The leaders of up to `limit` slots from `start_slot` on.
    pub fn get_slot_leaders(&self, start_slot: u64, limit: u64) -> (r: RpcCall)
        ensures
            r@ == call_with(
                RpcRequest::GetSlotLeaders,
                seq![ParamView::Number(start_slot), ParamView::Number(limit)],
            ),
    {
        RpcCall::with2(
            RpcRequest::GetSlotLeaders,
            Param::Number(start_slot),
            Param::Number(limit),
        )
    }

    /// The reply to [`get_slot_leaders`](Self::get_slot_leaders).
    pub fn get_slot_leaders_reply(&self, reply: HostReply) -> (r: ClientResult<Vec<Pubkey>>)
        ensures
            list_view(r) == match sent(
                self.spec_tx_debug(),
                RpcRequest::GetSlotLeaders,
                reply,
                json_strings(reply_bytes(reply)),
            ) {
                Ok(leaders) => collected(slot_leader_results(leaders)),
                Err(e) => Err(e),
            },
    {
        match self.send(RpcRequest::GetSlotLeaders, reply, parse_strings) {
            Ok(leaders) => parse_slot_leaders(leaders),
            Err(e) => Err(e),
        }
    }

    /// Blocks scheduled and produced per validator, in the current epoch.
    pub fn get_block_production(&self) -> (r: RpcCall)
        ensures
            r@ == bare_call(RpcRequest::GetBlockProduction),
    {
        RpcCall::bare(RpcRequest::GetBlockProduction)
    }

    /// Blocks scheduled and produced per validator, with the given options.
    pub fn get_block_production_with_config(&self, config: RpcBlockProductionConfig) -> (r: RpcCall)
        ensures
            r@ == call_with(
                RpcRequest::GetBlockProduction,
                seq![ParamView::BlockProduction(config)],
            ),
    {
        RpcCall::with1(RpcRequest::GetBlockProduction, Param::BlockProduction(config))
    }

    /// The reply to [`get_block_production`](Self::get_block_production) and
    /// [`get_block_production_with_config`](Self::get_block_production_with_config).
    pub fn get_block_production_reply(&self, reply: HostReply) -> (r: RpcResult<RpcBlockProduction>)
        ensures
            block_production_view(r) == sent(
                self.spec_tx_debug(),
                RpcRequest::GetBlockProduction,
                reply,
                json_block_production_reply(reply_bytes(reply)),
            ),
    {
        self.send(RpcRequest::GetBlockProduction, reply, parse_block_production)
    }

    /// The leader schedule of the epoch of `slot`, or of the current one, at the client's
    /// commitment.
    pub fn get_leader_schedule(&self, slot: Option<u64>) -> (r: RpcCall)
        ensures
            r@ == leader_schedule_call(
                slot,
                RpcLeaderScheduleConfig {
                    identity: None,
                    commitment: Some(self.spec_commitment()),
                },
            ),
    {
        self.get_leader_schedule_with_commitment(slot, self.commitment())
    }

    /// The leader schedule of the epoch of `slot`, or of the current one, at `commitment_config`.
    pub fn get_leader_schedule_with_commitment(
        &self,
        slot: Option<u64>,
        commitment_config: CommitmentConfig,
    ) -> (r: RpcCall)
        ensures
            r@ == leader_schedule_call(
                slot,
                RpcLeaderScheduleConfig { identity: None, commitment: Some(commitment_config) },
            ),
    {
        let config = RpcLeaderScheduleConfig {
            commitment: Some(commitment_config),
            ..RpcLeaderScheduleConfig::default()
        };
        self.get_leader_schedule_with_config(slot, config)
    }

    /// The leader schedule of the epoch of `slot`, or of the current one, with the given options.
    pub fn get_leader_schedule_with_config(
        &self,
        slot: Option<u64>,
        config: RpcLeaderScheduleConfig,
    ) -> (r: RpcCall)
        ensures
            r@ == leader_schedule_call(slot, config),
    {
        RpcCall::with2(
            RpcRequest::GetLeaderSchedule,
            Param::OptionalNumber(slot),
            Param::LeaderSchedule(config),
        )
    }

    /// The reply to the three requests for a leader schedule: none where the epoch is not scheduled
    /// yet.
    pub fn get_leader_schedule_reply(&self, reply: HostReply) -> (r: ClientResult<
        Option<RpcLeaderSchedule>,
    >)
        ensures
            schedule_view(r) == sent(
                self.spec_tx_debug(),
                RpcRequest::GetLeaderSchedule,
                reply,
                json_leader_schedule_reply(reply_bytes(reply)),
            ),
    {
        self.send(RpcRequest::GetLeaderSchedule, reply, parse_leader_schedule)
    }
}

// ---------------------------------------------------------------------------------------------
// Epochs, inflation and supply
// ---------------------------------------------------------------------------------------------

impl RpcClient {
    /// The current epoch and the progress within it, at the client's commitment.
    pub fn get_epoch_info(&self) -> (r: RpcCall)
        ensures
            r@ == commitment_call(RpcRequest::GetEpochInfo, self.spec_commitment()),
    {
        self.get_epoch_info_with_commitment(self.commitment())
    }

    /// The current epoch and the progress within it, at `commitment_config`.
    pub fn get_epoch_info_with_commitment(&self, commitment_config: CommitmentConfig) -> (r: RpcCall)
        ensures
            r@ == commitment_call(RpcRequest::GetEpochInfo, commitment_config),
    {
        RpcCall::with1(RpcRequest::GetEpochInfo, Param::Commitment(commitment_config))
    }

    /// The reply to [`get_epoch_info`](Self::get_epoch_info) and
    /// [`get_epoch_info_with_commitment`](Self::get_epoch_info_with_commitment).
    pub fn get_epoch_info_reply(&self, reply: HostReply) -> (r: ClientResult<EpochInfo>)
        ensures
            client_view(r) == sent(
                self.spec_tx_debug(),
                RpcRequest::GetEpochInfo,
                reply,
                json_epoch_info_reply(reply_bytes(reply)),
            ),
    {
        self.send(RpcRequest::GetEpochInfo, reply, parse_epoch_info)
    }

    /// The epoch schedule of the cluster.
    pub fn get_epoch_schedule(&self) -> (r: RpcCall)
        ensures
            r@ == bare_call(RpcRequest::GetEpochSchedule),
    {
        RpcCall::bare(RpcRequest::GetEpochSchedule)
    }

    /// The reply to [`get_epoch_schedule`](Self::get_epoch_schedule).
    pub fn get_epoch_schedule_reply(&self, reply: HostReply) -> (r: ClientResult<EpochSchedule>)
        ensures
            client_view(r) == sent(
                self.spec_tx_debug(),
                RpcRequest::GetEpochSchedule,
                reply,
                json_epoch_schedule_reply(reply_bytes(reply)),
            ),
    {
        self.send(RpcRequest::GetEpochSchedule, reply, parse_epoch_schedule)
    }

    /// The inflation parameters.
    pub fn get_inflation_governor(&self) -> (r: RpcCall)
        ensures
            r@ == bare_call(RpcRequest::GetInflationGovernor),
    {
        RpcCall::bare(RpcRequest::GetInflationGovernor)
    }

    /// The reply to [`get_inflation_governor`](Self::get_inflation_governor).
    pub fn get_inflation_governor_reply(&self, reply: HostReply) -> (r: ClientResult<RpcInflationGovernor>)
        ensures
            client_view(r) == sent(
                self.spec_tx_debug(),
                RpcRequest::GetInflationGovernor,
                reply,
                json_inflation_governor_reply(reply_bytes(reply)),
            ),
    {
        self.send(RpcRequest::GetInflationGovernor, reply, parse_inflation_governor)
    }

    /// The inflation of the current epoch.
    pub fn get_inflation_rate(&self) -> (r: RpcCall)
        ensures
            r@ == bare_call(RpcRequest::GetInflationRate),
    {
        RpcCall::bare(RpcRequest::GetInflationRate)
    }

    /// The reply to [`get_inflation_rate`](Self::get_inflation_rate).
    pub fn get_inflation_rate_reply(&self, reply: HostReply) -> (r: ClientResult<RpcInflationRate>)
        ensures
            client_view(r) == sent(
                self.spec_tx_debug(),
                RpcRequest::GetInflationRate,
                reply,
                json_inflation_rate_reply(reply_bytes(reply)),
            ),
    {
        self.send(RpcRequest::GetInflationRate, reply, parse_inflation_rate)
    }

    /// The inflation rewards of addresses in an epoch, or in the latest rewarded one, at the client's
    /// commitment.
    pub fn get_inflation_reward(&self, addresses: &[Pubkey], epoch: Option<u64>) -> (r: RpcCall)
        ensures
            r@ == call_with(
                RpcRequest::GetInflationReward,
                seq![
                    ParamView::Texts(pubkey_texts(addresses@)),
                    ParamView::Epoch(
                        RpcEpochConfig {
                            epoch,
                            commitment: Some(self.spec_commitment()),
                            min_context_slot: None,
                        },
                    ),
                ],
            ),
    {
        let config = RpcEpochConfig {
            epoch,
            commitment: Some(self.commitment()),
            min_context_slot: None,
        };
        RpcCall::with2(
            RpcRequest::GetInflationReward,
            Param::Texts(pubkey_strings(addresses)),
            Param::Epoch(config),
        )
    }

    /// The reply to [`get_inflation_reward`](Self::get_inflation_reward).
    pub fn get_inflation_reward_reply(&self, reply: HostReply) -> (r: ClientResult<Vec<Option<RpcInflationReward>>>)
        ensures
            list_view(r) == sent(
                self.spec_tx_debug(),
                RpcRequest::GetInflationReward,
                reply,
                json_inflation_rewards_reply(reply_bytes(reply)),
            ),
    {
        self.send(RpcRequest::GetInflationReward, reply, parse_inflation_rewards)
    }

    /// The native supply, at the client's commitment.
    pub fn supply(&self) -> (r: RpcCall)
        ensures
            r@ == commitment_call(RpcRequest::GetSupply, self.spec_commitment()),
    {
        self.supply_with_commitment(self.commitment())
    }

    /// The native supply, at `commitment_config`.
    pub fn supply_with_commitment(&self, commitment_config: CommitmentConfig) -> (r: RpcCall)
        ensures
            r@ == commitment_call(RpcRequest::GetSupply, commitment_config),
    {
        RpcCall::with1(RpcRequest::GetSupply, Param::Commitment(commitment_config))
    }

    /// The reply to [`supply`](Self::supply) and
    /// [`supply_with_commitment`](Self::supply_with_commitment).
    pub fn supply_reply(&self, reply: HostReply) -> (r: RpcResult<RpcSupply>)
        ensures
            client_view(r) == sent(
                self.spec_tx_debug(),
                RpcRequest::GetSupply,
                reply,
                json_supply_reply(reply_bytes(reply)),
            ),
    {
        self.send(RpcRequest::GetSupply, reply, parse_supply)
    }

    /// The accounts with the largest balances; at `Finalized` unless `config` says otherwise.
    pub fn get_largest_accounts_with_config(&self, config: RpcLargestAccountsConfig) -> (r: RpcCall)
        ensures
            r@ == call_with(
                RpcRequest::GetLargestAccounts,
                seq![
                    ParamView::LargestAccounts(
                        RpcLargestAccountsConfig {
                            commitment: Some(commitment_or_default(config.commitment)),
                            ..config
                        },
                    ),
                ],
            ),
    {
        let commitment = CommitmentConfig::or_default(config.commitment);
        let config = RpcLargestAccountsConfig { commitment: Some(commitment), ..config };
        RpcCall::with1(RpcRequest::GetLargestAccounts, Param::LargestAccounts(config))
    }

    /// The reply to [`get_largest_accounts_with_config`](Self::get_largest_accounts_with_config).
    pub fn get_largest_accounts_with_config_reply(&self, reply: HostReply) -> (r: RpcResult<Vec<RpcAccountBalance>>)
        ensures
            response_list_view(r) == sent(
                self.spec_tx_debug(),
                RpcRequest::GetLargestAccounts,
                reply,
                json_account_balances_reply(reply_bytes(reply)),
            ),
    {
        self.send(RpcRequest::GetLargestAccounts, reply, parse_account_balances)
    }

    /// The smallest stake delegation in lamports, at the client's commitment.
    pub fn get_stake_minimum_delegation(&self) -> (r: RpcCall)
        ensures
            r@ == commitment_call(RpcRequest::GetStakeMinimumDelegation, self.spec_commitment()),
    {
        self.get_stake_minimum_delegation_with_commitment(self.commitment())
    }

    /// The smallest stake delegation in lamports, at `commitment_config`.
    pub fn get_stake_minimum_delegation_with_commitment(
        &self,
        commitment_config: CommitmentConfig,
    ) -> (r: RpcCall)
        ensures
            r@ == commitment_call(RpcRequest::GetStakeMinimumDelegation, commitment_config),
    {
        RpcCall::with1(
            RpcRequest::GetStakeMinimumDelegation,
            Param::Commitment(commitment_config),
        )
    }

    /// The reply to [`get_stake_minimum_delegation`](Self::get_stake_minimum_delegation) and
    /// `get_stake_minimum_delegation_with_commitment`.
    pub fn get_stake_minimum_delegation_reply(&self, reply: HostReply) -> (r: ClientResult<u64>)
        ensures
            client_view(r) == value_of(
                sent(
                    self.spec_tx_debug(),
                    RpcRequest::GetStakeMinimumDelegation,
                    reply,
                    json_u64_response(reply_bytes(reply)),
                ),
            ),
    {
        Response::unwrap_value(
            self.send(RpcRequest::GetStakeMinimumDelegation, reply, parse_u64_response),
        )
    }
}

// ---------------------------------------------------------------------------------------------
// Validators and nodes
// ---------------------------------------------------------------------------------------------

/// The request for vote accounts.
pub open spec fn vote_accounts_call(config: RpcGetVoteAccountsConfig) -> RpcCallView {
    call_with(RpcRequest::GetVoteAccounts, seq![ParamView::VoteAccounts(config)])
}

/// The options of all vote accounts at `commitment`.
pub open spec fn all_vote_accounts(commitment: CommitmentConfig) -> RpcGetVoteAccountsConfig {
    RpcGetVoteAccountsConfig {
        vote_pubkey: None,
        commitment: Some(commitment),
        keep_unstaked_delinquents: None,
        delinquent_slot_distance: None,
    }
}

/// A value that stands in a reply as text, given what parsing the text returned.
pub open spec fn parsed_result<T>(
    parsed: Result<T, Seq<char>>,
    expected: Seq<char>,
    request: RpcRequest,
) -> Result<T, ErrorView> {
    match parsed {
        Ok(v) => Ok(v),
        Err(_) => Err(parse_error(expected).with_request(request)),
    }
}

/// A value that stands in a reply as text, given what parsing the text returned. `expected` says
/// what the text should have been.
pub fn parsed_reply<T>(parsed: Result<T, String>, expected: &str, request: RpcRequest) -> (r:
    ClientResult<T>)
    ensures
        client_view(r) == parsed_result(text_err(parsed), expected@, request),
{
    match parsed {
        Ok(v) => Ok(v),
        Err(_) => Err(parse_failure(expected.to_owned()).into_with_request(request)),
    }
}

impl RpcClient {
    /// Current and delinquent vote accounts, at the client's commitment.
    pub fn get_vote_accounts(&self) -> (r: RpcCall)
        ensures
            r@ == vote_accounts_call(all_vote_accounts(self.spec_commitment())),
    {
        self.get_vote_accounts_with_commitment(self.commitment())
    }

    /// Current and delinquent vote accounts, at `commitment_config`.
    pub fn get_vote_accounts_with_commitment(&self, commitment_config: CommitmentConfig) -> (r:
        RpcCall)
        ensures
            r@ == vote_accounts_call(all_vote_accounts(commitment_config)),
    {
        let config = RpcGetVoteAccountsConfig {
            commitment: Some(commitment_config),
            ..RpcGetVoteAccountsConfig::default()
        };
        self.get_vote_accounts_with_config(config)
    }

    /// Current and delinquent vote accounts, with the given options.
    pub fn get_vote_accounts_with_config(&self, config: RpcGetVoteAccountsConfig) -> (r: RpcCall)
        ensures
            r@ == vote_accounts_call(config),
    {
        RpcCall::with1(RpcRequest::GetVoteAccounts, Param::VoteAccounts(config))
    }

    /// The reply to [`get_vote_accounts`](Self::get_vote_accounts) and
    /// [`get_vote_accounts_with_commitment`](Self::get_vote_accounts_with_commitment) and
    /// [`get_vote_accounts_with_config`](Self::get_vote_accounts_with_config).
    pub fn get_vote_accounts_reply(&self, reply: HostReply) -> (r: ClientResult<RpcVoteAccountStatus>)
        ensures
            client_view(r) == sent(
                self.spec_tx_debug(),
                RpcRequest::GetVoteAccounts,
                reply,
                json_vote_accounts_reply(reply_bytes(reply)),
            ),
    {
        self.send(RpcRequest::GetVoteAccounts, reply, parse_vote_accounts)
    }

    /// Where the nodes of the cluster are reached.
    pub fn get_cluster_nodes(&self) -> (r: RpcCall)
        ensures
            r@ == bare_call(RpcRequest::GetClusterNodes),
    {
        RpcCall::bare(RpcRequest::GetClusterNodes)
    }

    /// The reply to [`get_cluster_nodes`](Self::get_cluster_nodes).
    pub fn get_cluster_nodes_reply(&self, reply: HostReply) -> (r: ClientResult<Vec<RpcContactInfo>>)
        ensures
            list_view(r) == sent(
                self.spec_tx_debug(),
                RpcRequest::GetClusterNodes,
                reply,
                json_contact_infos_reply(reply_bytes(reply)),
            ),
    {
        self.send(RpcRequest::GetClusterNodes, reply, parse_contact_infos)
    }

    /// The software version of the node.
    pub fn get_version(&self) -> (r: RpcCall)
        ensures
            r@ == bare_call(RpcRequest::GetVersion),
    {
        RpcCall::bare(RpcRequest::GetVersion)
    }

    /// The reply to [`get_version`](Self::get_version).
    pub fn get_version_reply(&self, reply: HostReply) -> (r: ClientResult<RpcVersionInfo>)
        ensures
            client_view(r) == sent(
                self.spec_tx_debug(),
                RpcRequest::GetVersion,
                reply,
                json_version_reply(reply_bytes(reply)),
            ),
    {
        self.send(RpcRequest::GetVersion, reply, parse_version)
    }

    /// The identity of the node.
    pub fn get_identity(&self) -> (r: RpcCall)
        ensures
            r@ == bare_call(RpcRequest::GetIdentity),
    {
        RpcCall::bare(RpcRequest::GetIdentity)
    }

    /// The reply to [`get_identity`](Self::get_identity).
    pub fn get_identity_reply(&self, reply: HostReply) -> (r: ClientResult<Pubkey>)
        ensures
            client_view(r) == match sent(
                self.spec_tx_debug(),
                RpcRequest::GetIdentity,
                reply,
                json_identity(reply_bytes(reply)),
            ) {
                Ok(text) => parsed_result(
                    parsed_pubkey(text),
                    "Pubkey"@,
                    RpcRequest::GetIdentity,
                ),
                Err(e) => Err(e),
            },
    {
        match self.send(RpcRequest::GetIdentity, reply, parse_identity) {
            Ok(text) => parsed_reply(
                pubkey_from_str(text.as_str()),
                "Pubkey",
                RpcRequest::GetIdentity,
            ),
            Err(e) => Err(e),
        }
    }

    /// Whether the node considers itself healthy.
    pub fn get_health(&self) -> (r: RpcCall)
        ensures
            r@ == bare_call(RpcRequest::GetHealth),
    {
        RpcCall::bare(RpcRequest::GetHealth)
    }

    /// The reply to [`get_health`](Self::get_health): a healthy node answers with a string. How far
    /// behind an unhealthy one is, which it may send along, is dropped.
    pub fn get_health_reply(&self, reply: HostReply) -> (r: ClientResult<()>)
        ensures
            client_view(r) == match sent(
                self.spec_tx_debug(),
                RpcRequest::GetHealth,
                reply,
                json_string(reply_bytes(reply)),
            ) {
                Ok(_) => Ok::<(), ErrorView>(()),
                Err(e) => Err(e.without_data()),
            },
    {
        match self.send(RpcRequest::GetHealth, reply, parse_string) {
            Ok(_) => Ok(()),
            Err(e) => Err(e.without_data()),
        }
    }

    /// Up to `limit` recent performance samples, or as many as the node keeps.
    pub fn get_recent_performance_samples(&self, limit: Option<usize>) -> (r: RpcCall)
        ensures
            r@ == call_with(
                RpcRequest::GetRecentPerformanceSamples,
                seq![
                    ParamView::OptionalNumber(
                        match limit {
                            Some(n) => Some(n as u64),
                            None => None,
                        },
                    ),
                ],
            ),
    {
        let limit: Option<u64> = match limit {
            Some(n) => Some(n as u64),
            None => None,
        };
        RpcCall::with1(RpcRequest::GetRecentPerformanceSamples, Param::OptionalNumber(limit))
    }

    /// The reply to [`get_recent_performance_samples`](Self::get_recent_performance_samples).
    pub fn get_recent_performance_samples_reply(&self, reply: HostReply) -> (r: ClientResult<Vec<RpcPerfSample>>)
        ensures
            list_view(r) == sent(
                self.spec_tx_debug(),
                RpcRequest::GetRecentPerformanceSamples,
                reply,
                json_perf_samples_reply(reply_bytes(reply)),
            ),
    {
        self.send(RpcRequest::GetRecentPerformanceSamples, reply, parse_perf_samples)
    }

    /// Recent prioritization fees of transactions that write to all of `addresses`.
    pub fn get_recent_prioritization_fees(&self, addresses: &[Pubkey]) -> (r: RpcCall)
        ensures
            r@ == call_with(
                RpcRequest::GetRecentPrioritizationFees,
                seq![ParamView::Texts(pubkey_texts(addresses@))],
            ),
    {
        RpcCall::with1(
            RpcRequest::GetRecentPrioritizationFees,
            Param::Texts(pubkey_strings(addresses)),
        )
    }

    /// The reply to [`get_recent_prioritization_fees`](Self::get_recent_prioritization_fees).
    pub fn get_recent_prioritization_fees_reply(&self, reply: HostReply) -> (r: ClientResult<Vec<RpcPrioritizationFee>>)
        ensures
            list_view(r) == sent(
                self.spec_tx_debug(),
                RpcRequest::GetRecentPrioritizationFees,
                reply,
                json_prioritization_fees_reply(reply_bytes(reply)),
            ),
    {
        self.send(RpcRequest::GetRecentPrioritizationFees, reply, parse_prioritization_fees)
    }
}

// ---------------------------------------------------------------------------------------------
// Laws
// ---------------------------------------------------------------------------------------------

/// Slot leaders are had just where every identity parses, and then all of them in order.
pub proof fn slot_leaders_all_or_nothing(leaders: Seq<Seq<char>>)
    ensures
        collected(slot_leader_results(leaders)) is Ok <==> forall|i: int|
            0 <= i < leaders.len() ==> parsed_pubkey(#[trigger] leaders[i]) is Ok,
        collected(slot_leader_results(leaders)) matches Ok(pubkeys) ==> pubkeys.len()
            == leaders.len() && forall|i: int|
            0 <= i < leaders.len() ==> (#[trigger] pubkeys[i]) == parsed_pubkey(leaders[i])->Ok_0,
{
    let results = slot_leader_results(leaders);
    collected_ok(results);
    assert(forall|i: int|
        0 <= i < leaders.len() ==> (results[i] is Ok <==> parsed_pubkey(
            #[trigger] leaders[i],
        ) is Ok));
    if collected(results) is Ok {
        assert forall|i: int| 0 <= i < leaders.len() implies parsed_pubkey(
            #[trigger] leaders[i],
        ) is Ok by {
            assert(results[i] is Ok);
        }
    }
}

} // verus!
