//! What the requests carry.

use vstd::prelude::*;

use crate::bindings::{hash_text, parsed_signature, pubkey_text, signature_text};
use crate::laws::{asks, asks_about, asks_about_all, is_text, view_is_params, view_is_texts};
use crate::rpc_client::client::{RpcClient, RpcClientConfig};
use crate::rpc_client::config::{
    CommitmentConfig, CommitmentLevel, GetConfirmedSignaturesForAddress2Config,
    RpcAccountInfoConfig, RpcBlockConfig, RpcBlockProductionConfig, RpcBlockSubscribeConfig,
    RpcBlockSubscribeFilter, RpcEpochConfig, RpcGetVoteAccountsConfig, RpcLargestAccountsConfig,
    RpcLeaderScheduleConfig, RpcProgramAccountsConfig, RpcRequestAirdropConfig,
    RpcSignatureStatusConfig, RpcSignatureSubscribeConfig, RpcTokenAccountsFilter,
    RpcTransactionConfig, RpcTransactionLogsConfig, RpcTransactionLogsFilter, TokenAccountsFilter,
    UiAccountEncoding, UiTransactionEncoding,
};
use crate::rpc_client::keys::{Blockhash, Pubkey, Signature};
use crate::rpc_client::pubsub::{PubsubClient, SubscribeCall};
use crate::rpc_client::request::{Param, RpcCall, RpcRequest};

verus! {

/// A request that asks about the node or the cluster as a whole carries no parameters.
pub proof fn bare_requests(
    client: RpcClient,
    r: RpcCall,
)
    ensures
        call_ensures(RpcClient::minimum_ledger_slot, (&client,), r)
            ==> r.request == RpcRequest::MinimumLedgerSlot && r.params is Null,
        call_ensures(RpcClient::get_max_retransmit_slot, (&client,), r)
            ==> r.request == RpcRequest::GetMaxRetransmitSlot && r.params is Null,
        call_ensures(RpcClient::get_max_shred_insert_slot, (&client,), r)
            ==> r.request == RpcRequest::GetMaxShredInsertSlot && r.params is Null,
        call_ensures(RpcClient::get_first_available_block, (&client,), r)
            ==> r.request == RpcRequest::GetFirstAvailableBlock && r.params is Null,
        call_ensures(RpcClient::get_highest_snapshot_slot, (&client,), r)
            ==> r.request == RpcRequest::GetHighestSnapshotSlot && r.params is Null,
        call_ensures(RpcClient::get_block_production, (&client,), r)
            ==> r.request == RpcRequest::GetBlockProduction && r.params is Null,
        call_ensures(RpcClient::get_epoch_schedule, (&client,), r)
            ==> r.request == RpcRequest::GetEpochSchedule && r.params is Null,
        call_ensures(RpcClient::get_inflation_governor, (&client,), r)
            ==> r.request == RpcRequest::GetInflationGovernor && r.params is Null,
        call_ensures(RpcClient::get_inflation_rate, (&client,), r)
            ==> r.request == RpcRequest::GetInflationRate && r.params is Null,
        call_ensures(RpcClient::get_cluster_nodes, (&client,), r)
            ==> r.request == RpcRequest::GetClusterNodes && r.params is Null,
        call_ensures(RpcClient::get_version, (&client,), r)
            ==> r.request == RpcRequest::GetVersion && r.params is Null,
        call_ensures(RpcClient::get_identity, (&client,), r)
            ==> r.request == RpcRequest::GetIdentity && r.params is Null,
        call_ensures(RpcClient::get_health, (&client,), r)
            ==> r.request == RpcRequest::GetHealth && r.params is Null,
        call_ensures(RpcClient::get_genesis_hash, (&client,), r)
            ==> r.request == RpcRequest::GetGenesisHash && r.params is Null,
{
    view_is_params(r);
}

/// A request at a commitment carries just that commitment: the one that was given, or else the
/// client's own.
pub proof fn commitment_requests(
    client: RpcClient,
    commitment: CommitmentConfig,
    r: RpcCall,
)
    ensures
        call_ensures(RpcClient::get_slot, (&client,), r)
            ==> asks(r, RpcRequest::GetSlot, seq![Param::Commitment(client.spec_commitment())]),
        call_ensures(RpcClient::get_block_height, (&client,), r)
            ==> asks(
                r,
                RpcRequest::GetBlockHeight,
                seq![Param::Commitment(client.spec_commitment())],
            ),
        call_ensures(RpcClient::get_transaction_count, (&client,), r)
            ==> asks(
                r,
                RpcRequest::GetTransactionCount,
                seq![Param::Commitment(client.spec_commitment())],
            ),
        call_ensures(RpcClient::get_epoch_info, (&client,), r)
            ==> asks(
                r,
                RpcRequest::GetEpochInfo,
                seq![Param::Commitment(client.spec_commitment())],
            ),
        call_ensures(RpcClient::supply, (&client,), r)
            ==> asks(r, RpcRequest::GetSupply, seq![Param::Commitment(client.spec_commitment())]),
        call_ensures(RpcClient::get_stake_minimum_delegation, (&client,), r)
            ==> asks(
                r,
                RpcRequest::GetStakeMinimumDelegation,
                seq![Param::Commitment(client.spec_commitment())],
            ),
        call_ensures(RpcClient::get_latest_blockhash, (&client,), r)
            ==> asks(
                r,
                RpcRequest::GetLatestBlockhash,
                seq![Param::Commitment(client.spec_commitment())],
            ),
        call_ensures(RpcClient::get_slot_with_commitment, (&client, commitment), r)
            ==> asks(r, RpcRequest::GetSlot, seq![Param::Commitment(commitment)]),
        call_ensures(RpcClient::get_block_height_with_commitment, (&client, commitment), r)
            ==> asks(r, RpcRequest::GetBlockHeight, seq![Param::Commitment(commitment)]),
        call_ensures(RpcClient::get_transaction_count_with_commitment, (&client, commitment), r)
            ==> asks(r, RpcRequest::GetTransactionCount, seq![Param::Commitment(commitment)]),
        call_ensures(RpcClient::get_epoch_info_with_commitment, (&client, commitment), r)
            ==> asks(r, RpcRequest::GetEpochInfo, seq![Param::Commitment(commitment)]),
        call_ensures(RpcClient::supply_with_commitment, (&client, commitment), r)
            ==> asks(r, RpcRequest::GetSupply, seq![Param::Commitment(commitment)]),
        call_ensures(
            RpcClient::get_stake_minimum_delegation_with_commitment,
            (&client, commitment),
            r,
        )
            ==> asks(r, RpcRequest::GetStakeMinimumDelegation, seq![Param::Commitment(commitment)]),
        call_ensures(RpcClient::get_latest_blockhash_with_commitment, (&client, commitment), r)
            ==> asks(r, RpcRequest::GetLatestBlockhash, seq![Param::Commitment(commitment)]),
{
    view_is_params(r);
    if r.params is List {
        assert(r.params->List_0@ =~= seq![r.params->List_0@[0]] || r.params->List_0@.len() != 1);
    }
}

/// A request about an address names that address and the commitment: the one that was given, or
/// else the client's own.
pub proof fn address_requests(
    client: RpcClient,
    pubkey: Pubkey,
    commitment: CommitmentConfig,
    r: RpcCall,
)
    ensures
        call_ensures(RpcClient::get_balance, (&client, &pubkey), r)
            ==> asks_about(
                r,
                RpcRequest::GetBalance,
                pubkey_text(pubkey),
                seq![Param::Commitment(client.spec_commitment())],
            ),
        call_ensures(RpcClient::get_token_account_balance, (&client, &pubkey), r)
            ==> asks_about(
                r,
                RpcRequest::GetTokenAccountBalance,
                pubkey_text(pubkey),
                seq![Param::Commitment(client.spec_commitment())],
            ),
        call_ensures(RpcClient::get_token_supply, (&client, &pubkey), r)
            ==> asks_about(
                r,
                RpcRequest::GetTokenSupply,
                pubkey_text(pubkey),
                seq![Param::Commitment(client.spec_commitment())],
            ),
        call_ensures(RpcClient::get_token_largest_accounts, (&client, &pubkey), r)
            ==> asks_about(
                r,
                RpcRequest::GetTokenLargestAccounts,
                pubkey_text(pubkey),
                seq![Param::Commitment(client.spec_commitment())],
            ),
        call_ensures(RpcClient::get_balance_with_commitment, (&client, &pubkey, commitment), r)
            ==> asks_about(
                r,
                RpcRequest::GetBalance,
                pubkey_text(pubkey),
                seq![Param::Commitment(commitment)],
            ),
        call_ensures(
            RpcClient::get_token_account_balance_with_commitment,
            (&client, &pubkey, commitment),
            r,
        )
            ==> asks_about(
                r,
                RpcRequest::GetTokenAccountBalance,
                pubkey_text(pubkey),
                seq![Param::Commitment(commitment)],
            ),
        call_ensures(RpcClient::get_token_supply_with_commitment, (&client, &pubkey, commitment), r)
            ==> asks_about(
                r,
                RpcRequest::GetTokenSupply,
                pubkey_text(pubkey),
                seq![Param::Commitment(commitment)],
            ),
        call_ensures(
            RpcClient::get_token_largest_accounts_with_commitment,
            (&client, &pubkey, commitment),
            r,
        )
            ==> asks_about(
                r,
                RpcRequest::GetTokenLargestAccounts,
                pubkey_text(pubkey),
                seq![Param::Commitment(commitment)],
            ),
{
    view_is_params(r);
    if r.params is List && r.params->List_0@.len() == 2 {
        assert(r.params->List_0@.skip(1) =~= seq![r.params->List_0@[1]]);
    }
}

/// A request for an account names its address and asks for the whole of it: compressed bytes for an
/// account, parsed data for a token account.
pub proof fn account_requests(
    client: RpcClient,
    pubkey: Pubkey,
    commitment: CommitmentConfig,
    r: RpcCall,
)
    ensures
        call_ensures(RpcClient::get_account, (&client, &pubkey), r)
            ==> asks_about(
                r,
                RpcRequest::GetAccountInfo,
                pubkey_text(pubkey),
                seq![
                    Param::AccountInfo(
                        RpcAccountInfoConfig {
                            encoding: Some(UiAccountEncoding::Base64Zstd),
                            commitment: Some(client.spec_commitment()),
                            data_slice: None,
                            min_context_slot: None,
                        },
                    ),
                ],
            ),
        call_ensures(RpcClient::get_account_data, (&client, &pubkey), r)
            ==> asks_about(
                r,
                RpcRequest::GetAccountInfo,
                pubkey_text(pubkey),
                seq![
                    Param::AccountInfo(
                        RpcAccountInfoConfig {
                            encoding: Some(UiAccountEncoding::Base64Zstd),
                            commitment: Some(client.spec_commitment()),
                            data_slice: None,
                            min_context_slot: None,
                        },
                    ),
                ],
            ),
        call_ensures(RpcClient::get_token_account, (&client, &pubkey), r)
            ==> asks_about(
                r,
                RpcRequest::GetAccountInfo,
                pubkey_text(pubkey),
                seq![
                    Param::AccountInfo(
                        RpcAccountInfoConfig {
                            encoding: Some(UiAccountEncoding::JsonParsed),
                            commitment: Some(client.spec_commitment()),
                            data_slice: None,
                            min_context_slot: None,
                        },
                    ),
                ],
            ),
        call_ensures(RpcClient::get_account_with_commitment, (&client, &pubkey, commitment), r)
            ==> asks_about(
                r,
                RpcRequest::GetAccountInfo,
                pubkey_text(pubkey),
                seq![
                    Param::AccountInfo(
                        RpcAccountInfoConfig {
                            encoding: Some(UiAccountEncoding::Base64Zstd),
                            commitment: Some(commitment),
                            data_slice: None,
                            min_context_slot: None,
                        },
                    ),
                ],
            ),
        call_ensures(
            RpcClient::get_token_account_with_commitment,
            (&client, &pubkey, commitment),
            r,
        )
            ==> asks_about(
                r,
                RpcRequest::GetAccountInfo,
                pubkey_text(pubkey),
                seq![
                    Param::AccountInfo(
                        RpcAccountInfoConfig {
                            encoding: Some(UiAccountEncoding::JsonParsed),
                            commitment: Some(commitment),
                            data_slice: None,
                            min_context_slot: None,
                        },
                    ),
                ],
            ),
{
    view_is_params(r);
    if r.params is List && r.params->List_0@.len() == 2 {
        assert(r.params->List_0@.skip(1) =~= seq![r.params->List_0@[1]]);
    }
}

/// The options that a caller gives for an account are sent as they are; only an absent encoding is
/// filled in.
pub proof fn account_options(
    client: RpcClient,
    pubkey: Pubkey,
    config: RpcAccountInfoConfig,
    r: RpcCall,
)
    ensures
        call_ensures(RpcClient::get_account_with_config, (&client, &pubkey, config), r) ==> {
            &&& r.request == RpcRequest::GetAccountInfo
            &&& r.params is List
            &&& r.params->List_0@.len() == 2
            &&& is_text(r.params->List_0@[0], pubkey_text(pubkey))
            &&& r.params->List_0@[1] matches Param::AccountInfo(given) && {
                &&& given.commitment == config.commitment
                &&& given.data_slice == config.data_slice
                &&& given.min_context_slot == config.min_context_slot
                &&& given.encoding is Some
                &&& config.encoding is Some ==> given.encoding == config.encoding
                &&& config.encoding is None ==> given.encoding == Some(
                    UiAccountEncoding::Base64Zstd,
                )
            }
        },
{
    view_is_params(r);
}

/// A request about several addresses names each of them, in the order in which they were given.
pub proof fn addresses_requests(
    client: RpcClient,
    pubkeys: &[Pubkey],
    commitment: CommitmentConfig,
    epoch: Option<u64>,
    r: RpcCall,
)
    ensures
        call_ensures(RpcClient::get_multiple_accounts, (&client, pubkeys), r)
            ==> asks_about_all(
                r,
                RpcRequest::GetMultipleAccounts,
                Seq::new(pubkeys@.len(), |i: int| pubkey_text(pubkeys@[i])),
                seq![
                    Param::AccountInfo(
                        RpcAccountInfoConfig {
                            encoding: Some(UiAccountEncoding::Base64Zstd),
                            commitment: Some(client.spec_commitment()),
                            data_slice: None,
                            min_context_slot: None,
                        },
                    ),
                ],
            ),
        call_ensures(
            RpcClient::get_multiple_accounts_with_commitment,
            (&client, pubkeys, commitment),
            r,
        )
            ==> asks_about_all(
                r,
                RpcRequest::GetMultipleAccounts,
                Seq::new(pubkeys@.len(), |i: int| pubkey_text(pubkeys@[i])),
                seq![
                    Param::AccountInfo(
                        RpcAccountInfoConfig {
                            encoding: Some(UiAccountEncoding::Base64Zstd),
                            commitment: Some(commitment),
                            data_slice: None,
                            min_context_slot: None,
                        },
                    ),
                ],
            ),
        call_ensures(RpcClient::get_recent_prioritization_fees, (&client, pubkeys), r)
            ==> asks_about_all(
                r,
                RpcRequest::GetRecentPrioritizationFees,
                Seq::new(pubkeys@.len(), |i: int| pubkey_text(pubkeys@[i])),
                seq![],
            ),
        call_ensures(RpcClient::get_inflation_reward, (&client, pubkeys, epoch), r)
            ==> asks_about_all(
                r,
                RpcRequest::GetInflationReward,
                Seq::new(pubkeys@.len(), |i: int| pubkey_text(pubkeys@[i])),
                seq![
                    Param::Epoch(
                        RpcEpochConfig {
                            epoch,
                            commitment: Some(client.spec_commitment()),
                            min_context_slot: None,
                        },
                    ),
                ],
            ),
{
    view_is_params(r);
    if r.params is List && r.params->List_0@.len() > 0 && r.params->List_0@[0] is Texts {
        view_is_texts(r.params->List_0@[0]);
        assert(r.params->List_0@.len() == 1 ==> r.params->List_0@.skip(1) =~= seq![]);
        assert(r.params->List_0@.len() == 2 ==> r.params->List_0@.skip(1) =~= seq![
            r.params->List_0@[1],
        ]);
    }
}

/// The options that a caller gives for several accounts are sent as they are; only an absent
/// commitment is filled in, with the client's own.
pub proof fn accounts_options(
    client: RpcClient,
    pubkeys: &[Pubkey],
    config: RpcAccountInfoConfig,
    r: RpcCall,
)
    ensures
        call_ensures(RpcClient::get_multiple_accounts_with_config, (&client, pubkeys, config), r)
            ==> asks_about_all(
                r,
                RpcRequest::GetMultipleAccounts,
                Seq::new(pubkeys@.len(), |i: int| pubkey_text(pubkeys@[i])),
                seq![
                    Param::AccountInfo(
                        RpcAccountInfoConfig {
                            encoding: config.encoding,
                            commitment: Some(
                                if config.commitment is Some {
                                    config.commitment->Some_0
                                } else { client.spec_commitment() },
                            ),
                            data_slice: config.data_slice,
                            min_context_slot: config.min_context_slot,
                        },
                    ),
                ],
            ),
{
    view_is_params(r);
    if r.params is List && r.params->List_0@.len() > 0 && r.params->List_0@[0] is Texts {
        view_is_texts(r.params->List_0@[0]);
        assert(r.params->List_0@.len() == 1 ==> r.params->List_0@.skip(1) =~= seq![]);
        assert(r.params->List_0@.len() == 2 ==> r.params->List_0@.skip(1) =~= seq![
            r.params->List_0@[1],
        ]);
    }
}

/// The accounts of a program are asked for by its address. Filters and options go out as they were
/// given; only an absent commitment is filled in.
pub proof fn program_account_requests(
    client: RpcClient,
    pubkey: Pubkey,
    config: RpcProgramAccountsConfig,
    r: RpcCall,
)
    ensures
        call_ensures(RpcClient::get_program_accounts, (&client, &pubkey), r) ==> asks_about(
            r,
            RpcRequest::GetProgramAccounts,
            pubkey_text(pubkey),
            seq![
                Param::ProgramAccounts(
                    RpcProgramAccountsConfig {
                        filters: None,
                        account_config: RpcAccountInfoConfig {
                            encoding: Some(UiAccountEncoding::Base64Zstd),
                            commitment: Some(client.spec_commitment()),
                            data_slice: None,
                            min_context_slot: None,
                        },
                        with_context: None,
                        sort_results: None,
                    },
                ),
            ],
        ),
        call_ensures(RpcClient::get_program_accounts_with_config, (&client, &pubkey, config), r)
            ==> {
            &&& r.request == RpcRequest::GetProgramAccounts
            &&& r.params is List
            &&& r.params->List_0@.len() == 2
            &&& is_text(r.params->List_0@[0], pubkey_text(pubkey))
            &&& r.params->List_0@[1] matches Param::ProgramAccounts(given) && {
                &&& given.filters == config.filters
                &&& given.with_context == config.with_context
                &&& given.sort_results == config.sort_results
                &&& given.account_config.encoding == config.account_config.encoding
                &&& given.account_config.data_slice == config.account_config.data_slice
                &&& given.account_config.min_context_slot == config.account_config.min_context_slot
                &&& given.account_config.commitment is Some
                &&& config.account_config.commitment is Some ==> given.account_config.commitment
                    == config.account_config.commitment
                &&& config.account_config.commitment is None ==> given.account_config.commitment
                    == Some(client.spec_commitment())
            }
        },
{
    view_is_params(r);
    if r.params is List && r.params->List_0@.len() == 2 {
        assert(r.params->List_0@.skip(1) =~= seq![r.params->List_0@[1]]);
    }
}

/// Whether a parameter is the filter that a caller gave: by that mint, or by that token program.
pub open spec fn is_filter(param: Param, filter: TokenAccountsFilter) -> bool {
    param is TokenAccountsFilter && match (param->TokenAccountsFilter_0, filter) {
        (RpcTokenAccountsFilter::Mint(text), TokenAccountsFilter::Mint(mint)) => text@
            == pubkey_text(mint),
        (RpcTokenAccountsFilter::ProgramId(text), TokenAccountsFilter::ProgramId(program_id)) => {
            text@ == pubkey_text(program_id)
        },
        _ => false,
    }
}

/// The token accounts of a delegate are asked for by the delegate, those of an owner by the owner,
/// and the filter is the one that was given.
pub proof fn token_account_requests(
    client: RpcClient,
    pubkey: Pubkey,
    filter: TokenAccountsFilter,
    commitment: CommitmentConfig,
    r: RpcCall,
)
    ensures
        call_ensures(RpcClient::get_token_accounts_by_delegate, (&client, &pubkey, filter), r) ==> {
            &&& r.request == RpcRequest::GetTokenAccountsByDelegate
            &&& r.params is List
            &&& r.params->List_0@.len() == 3
            &&& is_text(r.params->List_0@[0], pubkey_text(pubkey))
            &&& is_filter(r.params->List_0@[1], filter)
            &&& r.params->List_0@[2] == Param::AccountInfo(
                RpcAccountInfoConfig {
                    encoding: Some(UiAccountEncoding::JsonParsed),
                    commitment: Some(client.spec_commitment()),
                    data_slice: None,
                    min_context_slot: None,
                },
            )
        },
        call_ensures(
            RpcClient::get_token_accounts_by_delegate_with_commitment,
            (&client, &pubkey, filter, commitment),
            r,
        ) ==> {
            &&& r.request == RpcRequest::GetTokenAccountsByDelegate
            &&& r.params is List
            &&& r.params->List_0@.len() == 3
            &&& is_text(r.params->List_0@[0], pubkey_text(pubkey))
            &&& is_filter(r.params->List_0@[1], filter)
            &&& r.params->List_0@[2] == Param::AccountInfo(
                RpcAccountInfoConfig {
                    encoding: Some(UiAccountEncoding::JsonParsed),
                    commitment: Some(commitment),
                    data_slice: None,
                    min_context_slot: None,
                },
            )
        },
        call_ensures(RpcClient::get_token_accounts_by_owner, (&client, &pubkey, filter), r) ==> {
            &&& r.request == RpcRequest::GetTokenAccountsByOwner
            &&& r.params is List
            &&& r.params->List_0@.len() == 3
            &&& is_text(r.params->List_0@[0], pubkey_text(pubkey))
            &&& is_filter(r.params->List_0@[1], filter)
            &&& r.params->List_0@[2] == Param::AccountInfo(
                RpcAccountInfoConfig {
                    encoding: Some(UiAccountEncoding::JsonParsed),
                    commitment: Some(client.spec_commitment()),
                    data_slice: None,
                    min_context_slot: None,
                },
            )
        },
        call_ensures(
            RpcClient::get_token_accounts_by_owner_with_commitment,
            (&client, &pubkey, filter, commitment),
            r,
        ) ==> {
            &&& r.request == RpcRequest::GetTokenAccountsByOwner
            &&& r.params is List
            &&& r.params->List_0@.len() == 3
            &&& is_text(r.params->List_0@[0], pubkey_text(pubkey))
            &&& is_filter(r.params->List_0@[1], filter)
            &&& r.params->List_0@[2] == Param::AccountInfo(
                RpcAccountInfoConfig {
                    encoding: Some(UiAccountEncoding::JsonParsed),
                    commitment: Some(commitment),
                    data_slice: None,
                    min_context_slot: None,
                },
            )
        },
{
    view_is_params(r);
}

/// A request for blocks carries the slots that were given, the limit that was given and, where
/// there is one, the commitment that was given.
pub proof fn block_requests(
    client: RpcClient,
    slot: u64,
    end_slot: Option<u64>,
    limit: usize,
    encoding: UiTransactionEncoding,
    config: RpcBlockConfig,
    commitment: CommitmentConfig,
    r: RpcCall,
)
    ensures
        call_ensures(RpcClient::get_block, (&client, slot), r)
            ==> asks(
                r,
                RpcRequest::GetBlock,
                seq![Param::Number(slot), Param::TransactionEncoding(UiTransactionEncoding::Json)],
            ),
        call_ensures(RpcClient::get_block_with_encoding, (&client, slot, encoding), r)
            ==> asks(
                r,
                RpcRequest::GetBlock,
                seq![Param::Number(slot), Param::TransactionEncoding(encoding)],
            ),
        call_ensures(RpcClient::get_block_with_config, (&client, slot, config), r)
            ==> asks(r, RpcRequest::GetBlock, seq![Param::Number(slot), Param::Block(config)]),
        call_ensures(RpcClient::get_blocks, (&client, slot, end_slot), r)
            ==> asks(
                r,
                RpcRequest::GetBlocks,
                seq![Param::Number(slot), Param::OptionalNumber(end_slot)],
            ),
        call_ensures(
            RpcClient::get_blocks_with_commitment,
            (&client, slot, end_slot, commitment),
            r,
        )
            ==> asks(
                r,
                RpcRequest::GetBlocks,
                if end_slot is Some {
                    seq![
                        Param::Number(slot),
                        Param::Number(end_slot->Some_0),
                        Param::Commitment(commitment),
                    ]
                } else { seq![Param::Number(slot), Param::Commitment(commitment)] },
            ),
        call_ensures(RpcClient::get_blocks_with_limit, (&client, slot, limit), r)
            ==> asks(
                r,
                RpcRequest::GetBlocksWithLimit,
                seq![Param::Number(slot), Param::Number(limit as u64)],
            ),
        call_ensures(
            RpcClient::get_blocks_with_limit_and_commitment,
            (&client, slot, limit, commitment),
            r,
        )
            ==> asks(
                r,
                RpcRequest::GetBlocksWithLimit,
                seq![
                    Param::Number(slot),
                    Param::Number(limit as u64),
                    Param::Commitment(commitment),
                ],
            ),
        call_ensures(RpcClient::get_block_time, (&client, slot), r)
            ==> asks(r, RpcRequest::GetBlockTime, seq![Param::Number(slot)]),
{
    view_is_params(r);
    if r.params is List {
        assert(r.params->List_0@.len() == 1 ==> r.params->List_0@ =~= seq![r.params->List_0@[0]]);
        assert(r.params->List_0@.len() == 2 ==> r.params->List_0@ =~= seq![
            r.params->List_0@[0],
            r.params->List_0@[1],
        ]);
        assert(r.params->List_0@.len() == 3 ==> r.params->List_0@ =~= seq![
            r.params->List_0@[0],
            r.params->List_0@[1],
            r.params->List_0@[2],
        ]);
    }
}

/// Limits, slots and options of the other requests go out as they were given.
pub proof fn other_requests(
    client: RpcClient,
    slot: u64,
    limit: u64,
    samples: Option<usize>,
    data_len: usize,
    production: RpcBlockProductionConfig,
    largest: RpcLargestAccountsConfig,
    r: RpcCall,
)
    ensures
        call_ensures(RpcClient::get_slot_leaders, (&client, slot, limit), r)
            ==> asks(
                r,
                RpcRequest::GetSlotLeaders,
                seq![Param::Number(slot), Param::Number(limit)],
            ),
        call_ensures(RpcClient::get_recent_performance_samples, (&client, samples), r)
            ==> r.request == RpcRequest::GetRecentPerformanceSamples
                && r.params is List
                && r.params->List_0@.len() == 1
                && r.params->List_0@[0] is OptionalNumber
                && (r.params->List_0@[0]->OptionalNumber_0 is Some <==> samples is Some)
                && (
                    samples is Some
                        ==> r.params->List_0@[0]->OptionalNumber_0->Some_0 == samples->Some_0
                ),
        call_ensures(RpcClient::get_minimum_balance_for_rent_exemption, (&client, data_len), r)
            ==> asks(
                r,
                RpcRequest::GetMinimumBalanceForRentExemption,
                seq![Param::Number(data_len as u64)],
            ),
        call_ensures(RpcClient::get_block_production_with_config, (&client, production), r)
            ==> asks(r, RpcRequest::GetBlockProduction, seq![Param::BlockProduction(production)]),
        call_ensures(RpcClient::get_largest_accounts_with_config, (&client, largest), r) ==> {
            &&& r.request == RpcRequest::GetLargestAccounts
            &&& r.params is List
            &&& r.params->List_0@.len() == 1
            &&& r.params->List_0@[0] matches Param::LargestAccounts(given) && {
                &&& given.commitment is Some
                &&& largest.commitment is Some ==> given.commitment == largest.commitment
                &&& largest.commitment is None ==> given.commitment->Some_0.commitment
                    == CommitmentLevel::Finalized
                &&& given.filter == largest.filter
                &&& given.sort_results == largest.sort_results
            }
        },
{
    view_is_params(r);
    if r.params is List {
        assert(r.params->List_0@.len() == 1 ==> r.params->List_0@ =~= seq![r.params->List_0@[0]]);
        assert(r.params->List_0@.len() == 2 ==> r.params->List_0@ =~= seq![
            r.params->List_0@[0],
            r.params->List_0@[1],
        ]);
        assert(r.params->List_0@.len() == 3 ==> r.params->List_0@ =~= seq![
            r.params->List_0@[0],
            r.params->List_0@[1],
            r.params->List_0@[2],
        ]);
    }
}

/// A leader schedule is asked for by the slot that was given and with the options that were given;
/// the commitment is the one that was given, or else the client's own.
pub proof fn leader_schedule_requests(
    client: RpcClient,
    slot: Option<u64>,
    commitment: CommitmentConfig,
    config: RpcLeaderScheduleConfig,
    r: RpcCall,
)
    ensures
        call_ensures(RpcClient::get_leader_schedule, (&client, slot), r)
            ==> asks(
                r,
                RpcRequest::GetLeaderSchedule,
                seq![
                    Param::OptionalNumber(slot),
                    Param::LeaderSchedule(
                        RpcLeaderScheduleConfig {
                            identity: None,
                            commitment: Some(client.spec_commitment()),
                        },
                    ),
                ],
            ),
        call_ensures(RpcClient::get_leader_schedule_with_commitment, (&client, slot, commitment), r)
            ==> asks(
                r,
                RpcRequest::GetLeaderSchedule,
                seq![
                    Param::OptionalNumber(slot),
                    Param::LeaderSchedule(
                        RpcLeaderScheduleConfig { identity: None, commitment: Some(commitment) },
                    ),
                ],
            ),
        call_ensures(RpcClient::get_leader_schedule_with_config, (&client, slot, config), r)
            ==> asks(
                r,
                RpcRequest::GetLeaderSchedule,
                seq![Param::OptionalNumber(slot), Param::LeaderSchedule(config)],
            ),
{
    view_is_params(r);
    if r.params is List {
        assert(r.params->List_0@.len() == 1 ==> r.params->List_0@ =~= seq![r.params->List_0@[0]]);
        assert(r.params->List_0@.len() == 2 ==> r.params->List_0@ =~= seq![
            r.params->List_0@[0],
            r.params->List_0@[1],
        ]);
        assert(r.params->List_0@.len() == 3 ==> r.params->List_0@ =~= seq![
            r.params->List_0@[0],
            r.params->List_0@[1],
            r.params->List_0@[2],
        ]);
    }
}

/// Vote accounts are asked for all, at a commitment, or with the options that were given.
pub proof fn vote_account_requests(
    client: RpcClient,
    commitment: CommitmentConfig,
    config: RpcGetVoteAccountsConfig,
    r: RpcCall,
)
    ensures
        call_ensures(RpcClient::get_vote_accounts, (&client,), r)
            ==> asks(
                r,
                RpcRequest::GetVoteAccounts,
                seq![
                    Param::VoteAccounts(
                        RpcGetVoteAccountsConfig {
                            vote_pubkey: None,
                            commitment: Some(client.spec_commitment()),
                            keep_unstaked_delinquents: None,
                            delinquent_slot_distance: None,
                        },
                    ),
                ],
            ),
        call_ensures(RpcClient::get_vote_accounts_with_commitment, (&client, commitment), r)
            ==> asks(
                r,
                RpcRequest::GetVoteAccounts,
                seq![
                    Param::VoteAccounts(
                        RpcGetVoteAccountsConfig {
                            vote_pubkey: None,
                            commitment: Some(commitment),
                            keep_unstaked_delinquents: None,
                            delinquent_slot_distance: None,
                        },
                    ),
                ],
            ),
        call_ensures(RpcClient::get_vote_accounts_with_config, (&client, config), r)
            ==> asks(r, RpcRequest::GetVoteAccounts, seq![Param::VoteAccounts(config)]),
{
    view_is_params(r);
    if r.params is List {
        assert(r.params->List_0@.len() == 1 ==> r.params->List_0@ =~= seq![r.params->List_0@[0]]);
        assert(r.params->List_0@.len() == 2 ==> r.params->List_0@ =~= seq![
            r.params->List_0@[0],
            r.params->List_0@[1],
        ]);
        assert(r.params->List_0@.len() == 3 ==> r.params->List_0@ =~= seq![
            r.params->List_0@[0],
            r.params->List_0@[1],
            r.params->List_0@[2],
        ]);
    }
}

/// The history of an address is asked for by that address, from the cursors that were given and
/// with the limit and the commitment that were given.
pub proof fn history_requests(
    client: RpcClient,
    address: Pubkey,
    config: GetConfirmedSignaturesForAddress2Config,
    r: RpcCall,
)
    ensures
        call_ensures(RpcClient::get_signatures_for_address, (&client, &address), r) ==> {
            &&& r.request == RpcRequest::GetSignaturesForAddress
            &&& r.params is List
            &&& r.params->List_0@.len() == 2
            &&& is_text(r.params->List_0@[0], pubkey_text(address))
            &&& r.params->List_0@[1] matches Param::SignaturesForAddress(given) && {
                &&& given.before is None
                &&& given.until is None
                &&& given.limit is None
                &&& given.commitment is None
                &&& given.min_context_slot is None
            }
        },
        call_ensures(
            RpcClient::get_signatures_for_address_with_config,
            (&client, &address, config),
            r,
        ) ==> {
            &&& r.request == RpcRequest::GetSignaturesForAddress
            &&& r.params is List
            &&& r.params->List_0@.len() == 2
            &&& is_text(r.params->List_0@[0], pubkey_text(address))
            &&& r.params->List_0@[1] matches Param::SignaturesForAddress(given) && {
                &&& given.before is Some <==> config.before is Some
                &&& config.before is Some ==> given.before->Some_0@ == signature_text(
                    config.before->Some_0,
                )
                &&& given.until is Some <==> config.until is Some
                &&& config.until is Some ==> given.until->Some_0@ == signature_text(
                    config.until->Some_0,
                )
                &&& given.limit == config.limit
                &&& given.commitment == config.commitment
                &&& given.min_context_slot is None
            }
        },
{
    view_is_params(r);
}

/// A transaction is asked for by its signature, a blockhash by its text.
pub proof fn lookup_requests(
    client: RpcClient,
    signature: Signature,
    blockhash: Blockhash,
    encoding: UiTransactionEncoding,
    config: RpcTransactionConfig,
    commitment: CommitmentConfig,
    r: RpcCall,
)
    ensures
        call_ensures(RpcClient::get_transaction, (&client, &signature, encoding), r)
            ==> asks_about(
                r,
                RpcRequest::GetTransaction,
                signature_text(signature),
                seq![Param::TransactionEncoding(encoding)],
            ),
        call_ensures(RpcClient::get_transaction_with_config, (&client, &signature, config), r)
            ==> asks_about(
                r,
                RpcRequest::GetTransaction,
                signature_text(signature),
                seq![Param::Transaction(config)],
            ),
        call_ensures(RpcClient::is_blockhash_valid, (&client, &blockhash, commitment), r)
            ==> asks_about(
                r,
                RpcRequest::IsBlockhashValid,
                hash_text(blockhash),
                seq![Param::Commitment(commitment)],
            ),
{
    view_is_params(r);
    if r.params is List && r.params->List_0@.len() == 2 {
        assert(r.params->List_0@.skip(1) =~= seq![r.params->List_0@[1]]);
    }
}

/// A request for statuses names every signature, in the order in which they were given: the i-th
/// text is that of the i-th signature. The history is searched just where it was asked for.
pub proof fn statuses_requests(
    client: RpcClient,
    signatures: &[Signature],
    r: RpcCall,
)
    ensures
        call_ensures(RpcClient::get_signature_statuses, (&client, signatures), r)
            ==> asks_about_all(
                r,
                RpcRequest::GetSignatureStatuses,
                Seq::new(signatures@.len(), |i: int| signature_text(signatures@[i])),
                seq![],
            ),
        call_ensures(RpcClient::get_signature_statuses_with_history, (&client, signatures), r)
            ==> asks_about_all(
                r,
                RpcRequest::GetSignatureStatuses,
                Seq::new(signatures@.len(), |i: int| signature_text(signatures@[i])),
                seq![
                    Param::SignatureStatus(
                        RpcSignatureStatusConfig { search_transaction_history: true },
                    ),
                ],
            ),
{
    view_is_params(r);
    if r.params is List && r.params->List_0@.len() > 0 && r.params->List_0@[0] is Texts {
        view_is_texts(r.params->List_0@[0]);
        assert(r.params->List_0@.len() == 1 ==> r.params->List_0@.skip(1) =~= seq![]);
        assert(r.params->List_0@.len() == 2 ==> r.params->List_0@.skip(1) =~= seq![
            r.params->List_0@[1],
        ]);
    }
}

/// Who reads the i-th text of a request for statuses reads the i-th signature, and there is no
/// other text.
pub proof fn statuses_requests_can_be_read(client: RpcClient, signatures: &[Signature], r: RpcCall)
    requires
        call_ensures(RpcClient::get_signature_statuses, (&client, signatures), r) || call_ensures(
            RpcClient::get_signature_statuses_with_history,
            (&client, signatures),
            r,
        ),
    ensures
        r.params is List,
        r.params->List_0@[0] is Texts,
        r.params->List_0@[0]->Texts_0@.len() == signatures@.len(),
        forall|i: int|
            0 <= i < signatures@.len() ==> parsed_signature(
                (#[trigger] r.params->List_0@[0]->Texts_0@[i])@,
            ) == Ok::<Signature, Seq<char>>(signatures@[i]),
{
    statuses_requests(client, signatures, r);
    let list = r.params->List_0@[0]->Texts_0@;
    assert forall|i: int| 0 <= i < signatures@.len() implies parsed_signature((#[trigger] list[i])@)
        == Ok::<Signature, Seq<char>>(signatures@[i]) by {
        assert(list[i]@ == signature_text(signatures@[i]));
    }
}

/// A request for one status names just that signature.
pub proof fn status_requests(
    client: RpcClient,
    signature: Signature,
    commitment: CommitmentConfig,
    history: bool,
    r: RpcCall,
)
    ensures
        call_ensures(RpcClient::get_signature_status, (&client, &signature), r)
            ==> asks_about_all(
                r,
                RpcRequest::GetSignatureStatuses,
                seq![signature_text(signature)],
                seq![],
            ),
        call_ensures(
            RpcClient::get_signature_status_with_commitment,
            (&client, &signature, commitment),
            r,
        )
            ==> asks_about_all(
                r,
                RpcRequest::GetSignatureStatuses,
                seq![signature_text(signature)],
                seq![],
            ),
        call_ensures(
            RpcClient::get_signature_status_with_commitment_and_history,
            (&client, &signature, commitment, history),
            r,
        )
            ==> asks_about_all(
                r,
                RpcRequest::GetSignatureStatuses,
                seq![signature_text(signature)],
                seq![
                    Param::SignatureStatus(
                        RpcSignatureStatusConfig { search_transaction_history: history },
                    ),
                ],
            ),
        call_ensures(RpcClient::confirm_transaction, (&client, &signature), r)
            ==> asks_about_all(
                r,
                RpcRequest::GetSignatureStatuses,
                seq![signature_text(signature)],
                seq![],
            ),
        call_ensures(
            RpcClient::confirm_transaction_with_commitment,
            (&client, &signature, commitment),
            r,
        )
            ==> asks_about_all(
                r,
                RpcRequest::GetSignatureStatuses,
                seq![signature_text(signature)],
                seq![],
            ),
        call_ensures(
            RpcClient::get_num_blocks_since_signature_confirmation,
            (&client, &signature),
            r,
        )
            ==> asks_about_all(
                r,
                RpcRequest::GetSignatureStatuses,
                seq![signature_text(signature)],
                seq![],
            ),
{
    view_is_params(r);
    if r.params is List && r.params->List_0@.len() > 0 && r.params->List_0@[0] is Texts {
        view_is_texts(r.params->List_0@[0]);
        assert(r.params->List_0@.len() == 1 ==> r.params->List_0@.skip(1) =~= seq![]);
        assert(r.params->List_0@.len() == 2 ==> r.params->List_0@.skip(1) =~= seq![
            r.params->List_0@[1],
        ]);
    }
}

/// An airdrop is asked for the address and the lamports that were given, with the blockhash that
/// was given, where there is one.
pub proof fn airdrop_requests(
    client: RpcClient,
    pubkey: Pubkey,
    lamports: u64,
    blockhash: Blockhash,
    config: RpcRequestAirdropConfig,
    r: RpcCall,
)
    ensures
        call_ensures(RpcClient::request_airdrop, (&client, &pubkey, lamports), r) ==> {
            &&& r.request == RpcRequest::RequestAirdrop
            &&& r.params is List
            &&& r.params->List_0@.len() == 3
            &&& is_text(r.params->List_0@[0], pubkey_text(pubkey))
            &&& r.params->List_0@[1] == Param::Number(lamports)
            &&& r.params->List_0@[2] matches Param::Airdrop(given)
                && given.recent_blockhash is None
                && given.commitment == Some(client.spec_commitment())
        },
        call_ensures(
            RpcClient::request_airdrop_with_blockhash,
            (&client, &pubkey, lamports, &blockhash),
            r,
        ) ==> {
            &&& r.request == RpcRequest::RequestAirdrop
            &&& r.params is List
            &&& r.params->List_0@.len() == 3
            &&& is_text(r.params->List_0@[0], pubkey_text(pubkey))
            &&& r.params->List_0@[1] == Param::Number(lamports)
            &&& r.params->List_0@[2] matches Param::Airdrop(given)
                && given.recent_blockhash is Some
                && given.recent_blockhash->Some_0@ == hash_text(blockhash)
                && given.commitment == Some(client.spec_commitment())
        },
        call_ensures(
            RpcClient::request_airdrop_with_config,
            (&client, &pubkey, lamports, config),
            r,
        ) ==> {
            &&& r.request == RpcRequest::RequestAirdrop
            &&& r.params is List
            &&& r.params->List_0@.len() == 3
            &&& is_text(r.params->List_0@[0], pubkey_text(pubkey))
            &&& r.params->List_0@[1] == Param::Number(lamports)
            &&& r.params->List_0@[2] matches Param::Airdrop(given)
                && (given.recent_blockhash is Some <==> config.recent_blockhash is Some)
                && (
                    config.recent_blockhash is Some
                        ==> given.recent_blockhash->Some_0@ == config.recent_blockhash->Some_0@
                )
                && given.commitment is Some
                && given.commitment->Some_0 == if config.commitment is Some {
                config.commitment->Some_0
            } else {
                CommitmentConfig { commitment: CommitmentLevel::Finalized }
            }
        },
{
    view_is_params(r);
}

/// A subscription names its method, the address or the signature that was given, and the filter and
/// the options that were given.
pub proof fn subscription_requests(
    client: PubsubClient,
    pubkey: Pubkey,
    signature: Signature,
    account: Option<RpcAccountInfoConfig>,
    blocks: RpcBlockSubscribeFilter,
    block: Option<RpcBlockSubscribeConfig>,
    filter: RpcTransactionLogsFilter,
    logs: RpcTransactionLogsConfig,
    program: Option<RpcProgramAccountsConfig>,
    outcome: Option<RpcSignatureSubscribeConfig>,
    r: SubscribeCall,
)
    ensures
        call_ensures(PubsubClient::account_subscribe, (&client, &pubkey, account), r)
            ==> r.method@ == "account"@
                && r.params@.len() == 2
                && is_text(r.params@[0], pubkey_text(pubkey))
                && r.params@[1] == Param::OptionalAccountInfo(account),
        call_ensures(PubsubClient::block_subscribe, (&client, blocks, block), r)
            ==> r.method@ == "block"@
                && r.params@.len() == 2
                && r.params@[0] == Param::BlockFilter(blocks)
                && r.params@[1] == Param::OptionalBlockSubscribe(block),
        call_ensures(PubsubClient::logs_subscribe, (&client, filter, logs), r)
            ==> r.method@ == "logs"@
                && r.params@.len() == 2
                && r.params@[0] == Param::LogsFilter(filter)
                && r.params@[1] == Param::Logs(logs),
        call_ensures(PubsubClient::program_subscribe, (&client, &pubkey, program), r)
            ==> r.method@ == "program"@
                && r.params@.len() == 2
                && is_text(r.params@[0], pubkey_text(pubkey))
                && r.params@[1] == Param::OptionalProgramAccounts(program),
        call_ensures(PubsubClient::signature_subscribe, (&client, &signature, outcome), r)
            ==> r.method@ == "signature"@
                && r.params@.len() == 2
                && is_text(r.params@[0], signature_text(signature))
                && r.params@[1] == Param::OptionalSignatureSubscribe(outcome),
        call_ensures(PubsubClient::vote_subscribe, (&client,), r)
            ==> r.method@ == "vote"@ && r.params@.len() == 0,
        call_ensures(PubsubClient::root_subscribe, (&client,), r)
            ==> r.method@ == "root"@ && r.params@.len() == 0,
        call_ensures(PubsubClient::slot_subscribe, (&client,), r)
            ==> r.method@ == "slot"@ && r.params@.len() == 0,
        call_ensures(PubsubClient::slot_updates_subscribe, (&client,), r)
            ==> r.method@ == "slotsUpdates"@ && r.params@.len() == 0,
{
    assert(r@.params.len() == r.params@.len());
    if r.params@.len() == 2 {
        assert(r@.params[0] == r.params@[0]@);
        assert(r@.params[1] == r.params@[1]@);
    }
}

/// A client asks at the commitment that it was made with, and decodes the data of errors just where
/// that was switched on.
pub proof fn clients_keep_their_settings(
    commitment: CommitmentConfig,
    config: RpcClientConfig,
    flag: bool,
    client: RpcClient,
    made: RpcClient,
)
    ensures
        call_ensures(RpcClient::new, (), made) ==> {
            &&& made.spec_commitment().commitment == CommitmentLevel::Finalized
            &&& made.spec_config().confirm_transaction_initial_timeout is None
            &&& !made.spec_tx_debug()
        },
        call_ensures(RpcClient::new_with_commitment, (commitment,), made) ==> {
            &&& made.spec_commitment() == commitment
            &&& made.spec_config().confirm_transaction_initial_timeout is None
            &&& !made.spec_tx_debug()
        },
        call_ensures(RpcClient::new_with_config, (config,), made) ==> {
            &&& made.spec_commitment() == config.commitment_config
            &&& made.spec_config().confirm_transaction_initial_timeout
                == config.confirm_transaction_initial_timeout
            &&& !made.spec_tx_debug()
        },
        call_ensures(RpcClient::with_tx_debug, (client, flag), made) ==> {
            &&& made.spec_commitment() == client.spec_commitment()
            &&& made.spec_config() == client.spec_config()
            &&& made.spec_tx_debug() == flag
        },
        forall|asked: CommitmentConfig|
            call_ensures(RpcClient::commitment, (&client,), asked) ==> asked
                == client.spec_commitment(),
{
}

} // verus!
