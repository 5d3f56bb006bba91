use solana_rpc_client_types::request::RpcRequest as WireRequest;

use zela_std::rpc_client::client::RpcClient;
use zela_std::rpc_client::config::{
    CommitmentConfig, CommitmentLevel, GetConfirmedSignaturesForAddress2Config,
    RpcAccountInfoConfig, RpcBlockConfig, RpcBlockProductionConfig, RpcEpochConfig,
    RpcGetVoteAccountsConfig, RpcLargestAccountsConfig, RpcLargestAccountsFilter,
    RpcLeaderScheduleConfig, RpcProgramAccountsConfig, RpcRequestAirdropConfig,
    RpcSendTransactionConfig, RpcSignatureStatusConfig, RpcSignaturesForAddressConfig,
    RpcSimulateTransactionConfig, RpcTokenAccountsFilter, RpcTransactionConfig,
    TokenAccountsFilter, UiAccountEncoding, UiDataSliceConfig, UiTransactionEncoding,
};
use zela_std::rpc_client::keys::{Blockhash, Pubkey, Signature};
use zela_std::rpc_client::request::{Param, Params, RpcCall, RpcRequest};

const KEY: Pubkey = Pubkey { bytes: [0; 32] };
const KEY_TEXT: &str = "11111111111111111111111111111111";
const OTHER: Pubkey = Pubkey { bytes: [1; 32] };
const OTHER_TEXT: &str = "4vJ9JU1bJJE96FWSJKvHsmmFADCg4gpZQff4P3bkLKi";
const CONFIRMED: CommitmentConfig = CommitmentConfig { commitment: CommitmentLevel::Confirmed };
const PROCESSED: CommitmentConfig = CommitmentConfig { commitment: CommitmentLevel::Processed };
const FINALIZED: CommitmentConfig = CommitmentConfig { commitment: CommitmentLevel::Finalized };

fn client() -> RpcClient {
    RpcClient::new_with_commitment(CONFIRMED)
}

fn signature() -> Signature {
    Signature { bytes: [0; 64] }
}

fn signature_text() -> String {
    "1".repeat(64)
}

fn text(s: &str) -> Param {
    Param::Text(s.to_string())
}

fn check(call: RpcCall, request: RpcRequest, params: Vec<Param>) {
    assert_eq!(call, RpcCall { request, params: Params::List(params) });
}

fn bare(call: RpcCall, request: RpcRequest) {
    assert_eq!(call, RpcCall { request, params: Params::Null });
}

fn whole(encoding: UiAccountEncoding, commitment: CommitmentConfig) -> Param {
    Param::AccountInfo(RpcAccountInfoConfig {
        encoding: Some(encoding),
        commitment: Some(commitment),
        data_slice: None,
        min_context_slot: None,
    })
}

#[test]
fn method_names_are_those_of_the_node() {
    let pairs = [
        (RpcRequest::GetAccountInfo, WireRequest::GetAccountInfo),
        (RpcRequest::GetBalance, WireRequest::GetBalance),
        (RpcRequest::GetBlock, WireRequest::GetBlock),
        (RpcRequest::GetBlockHeight, WireRequest::GetBlockHeight),
        (RpcRequest::GetBlockProduction, WireRequest::GetBlockProduction),
        (RpcRequest::GetBlocks, WireRequest::GetBlocks),
        (RpcRequest::GetBlocksWithLimit, WireRequest::GetBlocksWithLimit),
        (RpcRequest::GetBlockTime, WireRequest::GetBlockTime),
        (RpcRequest::GetClusterNodes, WireRequest::GetClusterNodes),
        (RpcRequest::GetEpochInfo, WireRequest::GetEpochInfo),
        (RpcRequest::GetEpochSchedule, WireRequest::GetEpochSchedule),
        (RpcRequest::GetFeeForMessage, WireRequest::GetFeeForMessage),
        (RpcRequest::GetFirstAvailableBlock, WireRequest::GetFirstAvailableBlock),
        (RpcRequest::GetGenesisHash, WireRequest::GetGenesisHash),
        (RpcRequest::GetHealth, WireRequest::GetHealth),
        (RpcRequest::GetIdentity, WireRequest::GetIdentity),
        (RpcRequest::GetInflationGovernor, WireRequest::GetInflationGovernor),
        (RpcRequest::GetInflationRate, WireRequest::GetInflationRate),
        (RpcRequest::GetInflationReward, WireRequest::GetInflationReward),
        (RpcRequest::GetLargestAccounts, WireRequest::GetLargestAccounts),
        (RpcRequest::GetLatestBlockhash, WireRequest::GetLatestBlockhash),
        (RpcRequest::GetLeaderSchedule, WireRequest::GetLeaderSchedule),
        (RpcRequest::GetMaxRetransmitSlot, WireRequest::GetMaxRetransmitSlot),
        (RpcRequest::GetMaxShredInsertSlot, WireRequest::GetMaxShredInsertSlot),
        (RpcRequest::GetMinimumBalanceForRentExemption, WireRequest::GetMinimumBalanceForRentExemption),
        (RpcRequest::GetMultipleAccounts, WireRequest::GetMultipleAccounts),
        (RpcRequest::GetProgramAccounts, WireRequest::GetProgramAccounts),
        (RpcRequest::GetRecentPerformanceSamples, WireRequest::GetRecentPerformanceSamples),
        (RpcRequest::GetRecentPrioritizationFees, WireRequest::GetRecentPrioritizationFees),
        (RpcRequest::GetHighestSnapshotSlot, WireRequest::GetHighestSnapshotSlot),
        (RpcRequest::GetSignaturesForAddress, WireRequest::GetSignaturesForAddress),
        (RpcRequest::GetSignatureStatuses, WireRequest::GetSignatureStatuses),
        (RpcRequest::GetSlot, WireRequest::GetSlot),
        (RpcRequest::GetSlotLeaders, WireRequest::GetSlotLeaders),
        (RpcRequest::GetStakeMinimumDelegation, WireRequest::GetStakeMinimumDelegation),
        (RpcRequest::GetSupply, WireRequest::GetSupply),
        (RpcRequest::GetTokenAccountBalance, WireRequest::GetTokenAccountBalance),
        (RpcRequest::GetTokenAccountsByDelegate, WireRequest::GetTokenAccountsByDelegate),
        (RpcRequest::GetTokenAccountsByOwner, WireRequest::GetTokenAccountsByOwner),
        (RpcRequest::GetTokenLargestAccounts, WireRequest::GetTokenLargestAccounts),
        (RpcRequest::GetTokenSupply, WireRequest::GetTokenSupply),
        (RpcRequest::GetTransaction, WireRequest::GetTransaction),
        (RpcRequest::GetTransactionCount, WireRequest::GetTransactionCount),
        (RpcRequest::GetVersion, WireRequest::GetVersion),
        (RpcRequest::GetVoteAccounts, WireRequest::GetVoteAccounts),
        (RpcRequest::IsBlockhashValid, WireRequest::IsBlockhashValid),
        (RpcRequest::MinimumLedgerSlot, WireRequest::MinimumLedgerSlot),
        (RpcRequest::RequestAirdrop, WireRequest::RequestAirdrop),
        (RpcRequest::SendTransaction, WireRequest::SendTransaction),
        (RpcRequest::SimulateTransaction, WireRequest::SimulateTransaction),
        (RpcRequest::DeregisterNode, WireRequest::DeregisterNode),
        (RpcRequest::GetSlotLeader, WireRequest::GetSlotLeader),
        (RpcRequest::GetSlotsPerSegment, WireRequest::GetSlotsPerSegment),
        (RpcRequest::GetStoragePubkeysForSlot, WireRequest::GetStoragePubkeysForSlot),
        (RpcRequest::GetStorageTurn, WireRequest::GetStorageTurn),
        (RpcRequest::GetStorageTurnRate, WireRequest::GetStorageTurnRate),
        (RpcRequest::RegisterNode, WireRequest::RegisterNode),
        (RpcRequest::SignVote, WireRequest::SignVote),
    ];
    for (request, wire) in pairs {
        assert_eq!(request.method(), wire.to_string());
        assert_eq!(RpcCall::bare(request).method(), wire.to_string());
    }
    let custom = RpcRequest::Custom { method: "getEverything" };
    assert_eq!(custom.method(), WireRequest::Custom { method: "getEverything" }.to_string());
}

#[test]
fn clients_have_a_default_commitment() {
    assert_eq!(RpcClient::new().commitment(), FINALIZED);
    assert_eq!(RpcClient::default().commitment(), FINALIZED);
    assert_eq!(client().commitment(), CONFIRMED);
    assert_eq!(client().with_tx_debug(true).commitment(), CONFIRMED);
    let config = zela_std::rpc_client::client::RpcClientConfig::with_commitment(PROCESSED);
    assert!(config.confirm_transaction_initial_timeout.is_none());
    assert_eq!(RpcClient::new_with_config(config).commitment(), PROCESSED);
}

#[test]
fn requests_without_parameters() {
    let c = client();
    bare(c.get_highest_snapshot_slot(), RpcRequest::GetHighestSnapshotSlot);
    bare(c.get_block_production(), RpcRequest::GetBlockProduction);
    bare(c.get_cluster_nodes(), RpcRequest::GetClusterNodes);
    bare(c.get_epoch_schedule(), RpcRequest::GetEpochSchedule);
    bare(c.get_inflation_governor(), RpcRequest::GetInflationGovernor);
    bare(c.get_inflation_rate(), RpcRequest::GetInflationRate);
    bare(c.get_version(), RpcRequest::GetVersion);
    bare(c.minimum_ledger_slot(), RpcRequest::MinimumLedgerSlot);
    bare(c.get_max_retransmit_slot(), RpcRequest::GetMaxRetransmitSlot);
    bare(c.get_max_shred_insert_slot(), RpcRequest::GetMaxShredInsertSlot);
    bare(c.get_first_available_block(), RpcRequest::GetFirstAvailableBlock);
    bare(c.get_identity(), RpcRequest::GetIdentity);
    bare(c.get_genesis_hash(), RpcRequest::GetGenesisHash);
    bare(c.get_health(), RpcRequest::GetHealth);
}

#[test]
fn requests_at_a_commitment() {
    let c = client();
    let one = |p: CommitmentConfig| vec![Param::Commitment(p)];
    check(c.get_slot(), RpcRequest::GetSlot, one(CONFIRMED));
    check(c.get_slot_with_commitment(PROCESSED), RpcRequest::GetSlot, one(PROCESSED));
    check(c.get_block_height(), RpcRequest::GetBlockHeight, one(CONFIRMED));
    check(
        c.get_block_height_with_commitment(PROCESSED),
        RpcRequest::GetBlockHeight,
        one(PROCESSED),
    );
    check(c.get_epoch_info(), RpcRequest::GetEpochInfo, one(CONFIRMED));
    check(c.get_epoch_info_with_commitment(PROCESSED), RpcRequest::GetEpochInfo, one(PROCESSED));
    check(c.supply(), RpcRequest::GetSupply, one(CONFIRMED));
    check(c.supply_with_commitment(PROCESSED), RpcRequest::GetSupply, one(PROCESSED));
    check(c.get_transaction_count(), RpcRequest::GetTransactionCount, one(CONFIRMED));
    check(
        c.get_transaction_count_with_commitment(PROCESSED),
        RpcRequest::GetTransactionCount,
        one(PROCESSED),
    );
    check(c.get_stake_minimum_delegation(), RpcRequest::GetStakeMinimumDelegation, one(CONFIRMED));
    check(
        c.get_stake_minimum_delegation_with_commitment(PROCESSED),
        RpcRequest::GetStakeMinimumDelegation,
        one(PROCESSED),
    );
    check(c.get_latest_blockhash(), RpcRequest::GetLatestBlockhash, one(CONFIRMED));
    check(
        c.get_latest_blockhash_with_commitment(PROCESSED),
        RpcRequest::GetLatestBlockhash,
        one(PROCESSED),
    );
}

#[test]
fn requests_about_an_address() {
    let c = client();
    let two = |p: CommitmentConfig| vec![text(KEY_TEXT), Param::Commitment(p)];
    check(c.get_balance(&KEY), RpcRequest::GetBalance, two(CONFIRMED));
    check(c.get_balance_with_commitment(&KEY, PROCESSED), RpcRequest::GetBalance, two(PROCESSED));
    check(c.get_token_account_balance(&KEY), RpcRequest::GetTokenAccountBalance, two(CONFIRMED));
    check(
        c.get_token_account_balance_with_commitment(&KEY, PROCESSED),
        RpcRequest::GetTokenAccountBalance,
        two(PROCESSED),
    );
    check(c.get_token_supply(&KEY), RpcRequest::GetTokenSupply, two(CONFIRMED));
    check(
        c.get_token_supply_with_commitment(&KEY, PROCESSED),
        RpcRequest::GetTokenSupply,
        two(PROCESSED),
    );
    check(c.get_token_largest_accounts(&KEY), RpcRequest::GetTokenLargestAccounts, two(CONFIRMED));
    check(
        c.get_token_largest_accounts_with_commitment(&KEY, PROCESSED),
        RpcRequest::GetTokenLargestAccounts,
        two(PROCESSED),
    );
}

#[test]
fn requests_for_accounts() {
    let c = client();
    let zstd = |p| vec![text(KEY_TEXT), whole(UiAccountEncoding::Base64Zstd, p)];
    check(c.get_account(&KEY), RpcRequest::GetAccountInfo, zstd(CONFIRMED));
    check(c.get_account_data(&KEY), RpcRequest::GetAccountInfo, zstd(CONFIRMED));
    check(
        c.get_account_with_commitment(&KEY, PROCESSED),
        RpcRequest::GetAccountInfo,
        zstd(PROCESSED),
    );
    let json = |p| vec![text(KEY_TEXT), whole(UiAccountEncoding::JsonParsed, p)];
    check(c.get_token_account(&KEY), RpcRequest::GetAccountInfo, json(CONFIRMED));
    check(
        c.get_token_account_with_commitment(&KEY, PROCESSED),
        RpcRequest::GetAccountInfo,
        json(PROCESSED),
    );
    let slice = RpcAccountInfoConfig {
        data_slice: Some(UiDataSliceConfig { offset: 8, length: 32 }),
        min_context_slot: Some(7),
        ..RpcAccountInfoConfig::default()
    };
    let zstd_slice = RpcAccountInfoConfig { encoding: Some(UiAccountEncoding::Base64Zstd), ..slice };
    check(
        c.get_account_with_config(&KEY, slice),
        RpcRequest::GetAccountInfo,
        vec![text(KEY_TEXT), Param::AccountInfo(zstd_slice)],
    );
    let base58 = RpcAccountInfoConfig { encoding: Some(UiAccountEncoding::Base58), ..slice };
    check(
        c.get_account_with_config(&KEY, base58),
        RpcRequest::GetAccountInfo,
        vec![text(KEY_TEXT), Param::AccountInfo(base58)],
    );
}

#[test]
fn requests_for_many_accounts() {
    let c = client();
    let keys = Param::Texts(vec![OTHER_TEXT.to_string(), KEY_TEXT.to_string()]);
    let zstd = |p| vec![keys.clone(), whole(UiAccountEncoding::Base64Zstd, p)];
    check(c.get_multiple_accounts(&[OTHER, KEY]), RpcRequest::GetMultipleAccounts, zstd(CONFIRMED));
    check(
        c.get_multiple_accounts_with_commitment(&[OTHER, KEY], PROCESSED),
        RpcRequest::GetMultipleAccounts,
        zstd(PROCESSED),
    );
    let none = RpcAccountInfoConfig::default();
    let filled = RpcAccountInfoConfig { commitment: Some(CONFIRMED), ..none };
    check(
        c.get_multiple_accounts_with_config(&[], none),
        RpcRequest::GetMultipleAccounts,
        vec![Param::Texts(vec![]), Param::AccountInfo(filled)],
    );
    let given = RpcAccountInfoConfig { commitment: Some(PROCESSED), ..none };
    check(
        c.get_multiple_accounts_with_config(&[KEY], given),
        RpcRequest::GetMultipleAccounts,
        vec![Param::Texts(vec![KEY_TEXT.to_string()]), Param::AccountInfo(given)],
    );
}

#[test]
fn requests_for_program_accounts() {
    let c = client();
    let account_config = RpcAccountInfoConfig {
        encoding: Some(UiAccountEncoding::Base64Zstd),
        commitment: Some(CONFIRMED),
        ..RpcAccountInfoConfig::default()
    };
    let all = RpcProgramAccountsConfig { account_config, ..RpcProgramAccountsConfig::default() };
    check(
        c.get_program_accounts(&KEY),
        RpcRequest::GetProgramAccounts,
        vec![text(KEY_TEXT), Param::ProgramAccounts(all)],
    );
    let given = RpcProgramAccountsConfig {
        account_config: RpcAccountInfoConfig {
            commitment: Some(PROCESSED),
            ..RpcAccountInfoConfig::default()
        },
        with_context: Some(true),
        ..RpcProgramAccountsConfig::default()
    };
    check(
        c.get_program_accounts_with_config(&KEY, given.clone()),
        RpcRequest::GetProgramAccounts,
        vec![text(KEY_TEXT), Param::ProgramAccounts(given)],
    );
    let filled = RpcProgramAccountsConfig {
        account_config: RpcAccountInfoConfig {
            commitment: Some(CONFIRMED),
            ..RpcAccountInfoConfig::default()
        },
        ..RpcProgramAccountsConfig::default()
    };
    check(
        c.get_program_accounts_with_config(&KEY, RpcProgramAccountsConfig::default()),
        RpcRequest::GetProgramAccounts,
        vec![text(KEY_TEXT), Param::ProgramAccounts(filled)],
    );
}

#[test]
fn delegated_token_accounts_are_not_owned_ones() {
    let c = client();
    let by = |filter: RpcTokenAccountsFilter, p| {
        vec![
            text(KEY_TEXT),
            Param::TokenAccountsFilter(filter),
            whole(UiAccountEncoding::JsonParsed, p),
        ]
    };
    let mint = || RpcTokenAccountsFilter::Mint(OTHER_TEXT.to_string());
    let program = || RpcTokenAccountsFilter::ProgramId(OTHER_TEXT.to_string());
    check(
        c.get_token_accounts_by_delegate(&KEY, TokenAccountsFilter::Mint(OTHER)),
        RpcRequest::GetTokenAccountsByDelegate,
        by(mint(), CONFIRMED),
    );
    check(
        c.get_token_accounts_by_delegate_with_commitment(
            &KEY,
            TokenAccountsFilter::ProgramId(OTHER),
            PROCESSED,
        ),
        RpcRequest::GetTokenAccountsByDelegate,
        by(program(), PROCESSED),
    );
    check(
        c.get_token_accounts_by_owner(&KEY, TokenAccountsFilter::ProgramId(OTHER)),
        RpcRequest::GetTokenAccountsByOwner,
        by(program(), CONFIRMED),
    );
    check(
        c.get_token_accounts_by_owner_with_commitment(
            &KEY,
            TokenAccountsFilter::Mint(OTHER),
            PROCESSED,
        ),
        RpcRequest::GetTokenAccountsByOwner,
        by(mint(), PROCESSED),
    );
}

#[test]
fn requests_for_statuses() {
    let c = client();
    let one = || Param::Texts(vec![signature_text()]);
    let history = |b| {
        Param::SignatureStatus(RpcSignatureStatusConfig { search_transaction_history: b })
    };
    let request = RpcRequest::GetSignatureStatuses;
    check(c.get_signature_status(&signature()), request, vec![one()]);
    check(
        c.get_signature_status_with_commitment(&signature(), PROCESSED),
        request,
        vec![one()],
    );
    check(c.confirm_transaction(&signature()), request, vec![one()]);
    check(
        c.confirm_transaction_with_commitment(&signature(), PROCESSED),
        request,
        vec![one()],
    );
    check(c.get_num_blocks_since_signature_confirmation(&signature()), request, vec![one()]);
    check(
        c.get_signature_status_with_commitment_and_history(&signature(), PROCESSED, false),
        request,
        vec![one(), history(false)],
    );
    let two = Param::Texts(vec![signature_text(), signature_text()]);
    check(
        c.get_signature_statuses(&[signature(), signature()]),
        request,
        vec![two.clone()],
    );
    check(
        c.get_signature_statuses_with_history(&[signature(), signature()]),
        request,
        vec![two, history(true)],
    );
}

#[test]
fn requests_for_leaders_and_production() {
    let c = client();
    check(
        c.get_slot_leaders(5, 10),
        RpcRequest::GetSlotLeaders,
        vec![Param::Number(5), Param::Number(10)],
    );
    let config = RpcBlockProductionConfig {
        identity: Some("id".to_string()),
        range: None,
        commitment: None,
    };
    check(
        c.get_block_production_with_config(config.clone()),
        RpcRequest::GetBlockProduction,
        vec![Param::BlockProduction(config)],
    );
    let schedule = |slot, commitment| {
        vec![
            Param::OptionalNumber(slot),
            Param::LeaderSchedule(RpcLeaderScheduleConfig {
                identity: None,
                commitment: Some(commitment),
            }),
        ]
    };
    check(
        c.get_leader_schedule(None),
        RpcRequest::GetLeaderSchedule,
        schedule(None, CONFIRMED),
    );
    check(
        c.get_leader_schedule_with_commitment(Some(9), PROCESSED),
        RpcRequest::GetLeaderSchedule,
        schedule(Some(9), PROCESSED),
    );
    let config = RpcLeaderScheduleConfig { identity: Some("v".to_string()), commitment: None };
    check(
        c.get_leader_schedule_with_config(Some(9), config.clone()),
        RpcRequest::GetLeaderSchedule,
        vec![Param::OptionalNumber(Some(9)), Param::LeaderSchedule(config)],
    );
}

#[test]
fn requests_for_vote_accounts() {
    let c = client();
    let all = |commitment| RpcGetVoteAccountsConfig {
        commitment: Some(commitment),
        ..RpcGetVoteAccountsConfig::default()
    };
    let request = RpcRequest::GetVoteAccounts;
    check(c.get_vote_accounts(), request, vec![Param::VoteAccounts(all(CONFIRMED))]);
    check(
        c.get_vote_accounts_with_commitment(PROCESSED),
        request,
        vec![Param::VoteAccounts(all(PROCESSED))],
    );
    let config = RpcGetVoteAccountsConfig {
        vote_pubkey: Some("v".to_string()),
        ..RpcGetVoteAccountsConfig::default()
    };
    check(
        c.get_vote_accounts_with_config(config.clone()),
        request,
        vec![Param::VoteAccounts(config)],
    );
}

#[test]
fn requests_for_the_largest_accounts_have_a_commitment() {
    let c = client();
    let open = RpcLargestAccountsConfig {
        commitment: None,
        filter: Some(RpcLargestAccountsFilter::Circulating),
        sort_results: None,
    };
    check(
        c.get_largest_accounts_with_config(open),
        RpcRequest::GetLargestAccounts,
        vec![Param::LargestAccounts(RpcLargestAccountsConfig {
            commitment: Some(FINALIZED),
            ..open
        })],
    );
    let given = RpcLargestAccountsConfig { commitment: Some(PROCESSED), ..open };
    check(
        c.get_largest_accounts_with_config(given),
        RpcRequest::GetLargestAccounts,
        vec![Param::LargestAccounts(given)],
    );
}

#[test]
fn requests_for_blocks() {
    let c = client();
    check(
        c.get_block(3),
        RpcRequest::GetBlock,
        vec![Param::Number(3), Param::TransactionEncoding(UiTransactionEncoding::Json)],
    );
    check(
        c.get_block_with_encoding(3, UiTransactionEncoding::Base64),
        RpcRequest::GetBlock,
        vec![Param::Number(3), Param::TransactionEncoding(UiTransactionEncoding::Base64)],
    );
    let config = RpcBlockConfig {
        encoding: None,
        transaction_details: None,
        rewards: Some(false),
        commitment: None,
        max_supported_transaction_version: Some(0),
    };
    check(
        c.get_block_with_config(3, config),
        RpcRequest::GetBlock,
        vec![Param::Number(3), Param::Block(config)],
    );
    check(
        c.get_blocks(3, None),
        RpcRequest::GetBlocks,
        vec![Param::Number(3), Param::OptionalNumber(None)],
    );
    check(
        c.get_blocks(3, Some(8)),
        RpcRequest::GetBlocks,
        vec![Param::Number(3), Param::OptionalNumber(Some(8))],
    );
    check(
        c.get_blocks_with_commitment(3, None, PROCESSED),
        RpcRequest::GetBlocks,
        vec![Param::Number(3), Param::Commitment(PROCESSED)],
    );
    check(
        c.get_blocks_with_commitment(3, Some(8), PROCESSED),
        RpcRequest::GetBlocks,
        vec![Param::Number(3), Param::Number(8), Param::Commitment(PROCESSED)],
    );
    check(
        c.get_blocks_with_limit(3, 5),
        RpcRequest::GetBlocksWithLimit,
        vec![Param::Number(3), Param::Number(5)],
    );
    check(
        c.get_blocks_with_limit_and_commitment(3, 5, PROCESSED),
        RpcRequest::GetBlocksWithLimit,
        vec![Param::Number(3), Param::Number(5), Param::Commitment(PROCESSED)],
    );
    check(c.get_block_time(3), RpcRequest::GetBlockTime, vec![Param::Number(3)]);
}

#[test]
fn requests_for_history() {
    let c = client();
    let open = RpcSignaturesForAddressConfig {
        before: None,
        until: None,
        limit: None,
        commitment: None,
        min_context_slot: None,
    };
    check(
        c.get_signatures_for_address(&KEY),
        RpcRequest::GetSignaturesForAddress,
        vec![text(KEY_TEXT), Param::SignaturesForAddress(open.clone())],
    );
    check(
        c.get_signatures_for_address_with_config(
            &KEY,
            GetConfirmedSignaturesForAddress2Config {
                before: Some(signature()),
                until: None,
                limit: Some(10),
                commitment: Some(PROCESSED),
            },
        ),
        RpcRequest::GetSignaturesForAddress,
        vec![
            text(KEY_TEXT),
            Param::SignaturesForAddress(RpcSignaturesForAddressConfig {
                before: Some(signature_text()),
                limit: Some(10),
                commitment: Some(PROCESSED),
                ..open
            }),
        ],
    );
    check(
        c.get_transaction(&signature(), UiTransactionEncoding::Json),
        RpcRequest::GetTransaction,
        vec![
            text(&signature_text()),
            Param::TransactionEncoding(UiTransactionEncoding::Json),
        ],
    );
    let config = RpcTransactionConfig {
        encoding: None,
        commitment: None,
        max_supported_transaction_version: Some(0),
    };
    check(
        c.get_transaction_with_config(&signature(), config),
        RpcRequest::GetTransaction,
        vec![text(&signature_text()), Param::Transaction(config)],
    );
}

#[test]
fn other_requests() {
    let c = client();
    check(
        c.get_recent_performance_samples(None),
        RpcRequest::GetRecentPerformanceSamples,
        vec![Param::OptionalNumber(None)],
    );
    check(
        c.get_recent_performance_samples(Some(4)),
        RpcRequest::GetRecentPerformanceSamples,
        vec![Param::OptionalNumber(Some(4))],
    );
    check(
        c.get_recent_prioritization_fees(&[KEY]),
        RpcRequest::GetRecentPrioritizationFees,
        vec![Param::Texts(vec![KEY_TEXT.to_string()])],
    );
    check(
        c.get_inflation_reward(&[KEY, OTHER], Some(2)),
        RpcRequest::GetInflationReward,
        vec![
            Param::Texts(vec![KEY_TEXT.to_string(), OTHER_TEXT.to_string()]),
            Param::Epoch(RpcEpochConfig {
                epoch: Some(2),
                commitment: Some(CONFIRMED),
                min_context_slot: None,
            }),
        ],
    );
    check(
        c.get_minimum_balance_for_rent_exemption(165),
        RpcRequest::GetMinimumBalanceForRentExemption,
        vec![Param::Number(165)],
    );
    check(
        c.is_blockhash_valid(&Blockhash { bytes: [0; 32] }, PROCESSED),
        RpcRequest::IsBlockhashValid,
        vec![text(KEY_TEXT), Param::Commitment(PROCESSED)],
    );
}

#[test]
fn transactions_are_sent_in_base64() {
    let c = client();
    let config = RpcSendTransactionConfig {
        encoding: Some(UiTransactionEncoding::Base64),
        preflight_commitment: Some(CommitmentLevel::Confirmed),
        ..RpcSendTransactionConfig::default()
    };
    check(
        c.send_transaction(Ok(vec![1, 2, 3])).unwrap(),
        RpcRequest::SendTransaction,
        vec![text("AQID"), Param::SendTransaction(config)],
    );
    let config = RpcSendTransactionConfig {
        preflight_commitment: Some(CommitmentLevel::Finalized),
        skip_preflight: true,
        ..config
    };
    check(
        c.send_transaction_with_config(
            Ok(vec![1, 2, 3, 4]),
            RpcSendTransactionConfig {
                skip_preflight: true,
                ..RpcSendTransactionConfig::default()
            },
        )
        .unwrap(),
        RpcRequest::SendTransaction,
        vec![text("AQIDBA=="), Param::SendTransaction(config)],
    );
}

#[test]
fn transactions_are_sent_in_base58() {
    let config = RpcSendTransactionConfig {
        encoding: Some(UiTransactionEncoding::Base58),
        preflight_commitment: Some(CommitmentLevel::Processed),
        ..RpcSendTransactionConfig::default()
    };
    check(
        client().send_transaction_with_config(Ok(vec![0, 0, 1]), config).unwrap(),
        RpcRequest::SendTransaction,
        vec![text("112"), Param::SendTransaction(config)],
    );
}

#[test]
fn other_encodings_are_refused() {
    for (encoding, name) in [
        (UiTransactionEncoding::Json, "json"),
        (UiTransactionEncoding::JsonParsed, "jsonParsed"),
        (UiTransactionEncoding::Binary, "binary"),
    ] {
        let config = RpcSendTransactionConfig {
            encoding: Some(encoding),
            ..RpcSendTransactionConfig::default()
        };
        let err = client().send_transaction_with_config(Ok(vec![1]), config).unwrap_err();
        assert_eq!(
            err.to_text(),
            format!("Custom: unsupported encoding: {name}. Supported encodings: base58, base64")
        );
        assert!(err.request().is_none());
        let config = RpcSimulateTransactionConfig {
            encoding: Some(encoding),
            ..RpcSimulateTransactionConfig::default()
        };
        assert!(client().simulate_transaction_with_config(Ok(vec![1]), config).is_err());
    }
}

#[test]
fn a_transaction_that_does_not_serialize() {
    let failure = || -> Result<Vec<u8>, Box<bincode::ErrorKind>> {
        Err(Box::new(bincode::ErrorKind::SizeLimit))
    };
    let err = client().send_transaction(failure()).unwrap_err();
    assert_eq!(
        err.to_text(),
        format!("Custom: Serialization failed: {}", bincode::ErrorKind::SizeLimit)
    );
    assert!(client().simulate_transaction(failure()).is_err());
    assert!(client().get_fee_for_message(failure()).is_err());
}

#[test]
fn simulations_have_an_encoding_and_a_commitment() {
    let c = client();
    let config = RpcSimulateTransactionConfig {
        encoding: Some(UiTransactionEncoding::Base64),
        commitment: Some(CONFIRMED),
        ..RpcSimulateTransactionConfig::default()
    };
    check(
        c.simulate_transaction(Ok(vec![1, 2, 3])).unwrap(),
        RpcRequest::SimulateTransaction,
        vec![text("AQID"), Param::SimulateTransaction(config)],
    );
    let config = RpcSimulateTransactionConfig {
        encoding: Some(UiTransactionEncoding::Base58),
        commitment: Some(FINALIZED),
        sig_verify: true,
        ..RpcSimulateTransactionConfig::default()
    };
    check(
        c.simulate_transaction_with_config(
            Ok(vec![1]),
            RpcSimulateTransactionConfig { commitment: None, ..config.clone() },
        )
        .unwrap(),
        RpcRequest::SimulateTransaction,
        vec![text("2"), Param::SimulateTransaction(config)],
    );
}

#[test]
fn fees_are_asked_for_in_base64() {
    check(
        client().get_fee_for_message(Ok(vec![255])).unwrap(),
        RpcRequest::GetFeeForMessage,
        vec![text("/w=="), Param::Commitment(CONFIRMED)],
    );
}

#[test]
fn airdrops_have_a_commitment() {
    let c = client();
    let drop = |recent_blockhash: Option<&str>, commitment| {
        vec![
            text(KEY_TEXT),
            Param::Number(50),
            Param::Airdrop(RpcRequestAirdropConfig {
                recent_blockhash: recent_blockhash.map(|s| s.to_string()),
                commitment: Some(commitment),
            }),
        ]
    };
    check(c.request_airdrop(&KEY, 50), RpcRequest::RequestAirdrop, drop(None, CONFIRMED));
    check(
        c.request_airdrop_with_blockhash(&KEY, 50, &Blockhash { bytes: [1; 32] }),
        RpcRequest::RequestAirdrop,
        drop(Some(OTHER_TEXT), CONFIRMED),
    );
    check(
        c.request_airdrop_with_config(&KEY, 50, RpcRequestAirdropConfig::default()),
        RpcRequest::RequestAirdrop,
        drop(None, FINALIZED),
    );
}
