//! Options of the client's requests.

use vstd::prelude::*;

use crate::rpc_client::keys::{Pubkey, Signature};

verus! {

/// How finalized the state is that a request asks about.
#[derive(Debug, Clone, Copy, PartialEq, Eq, Structural)]
pub enum CommitmentLevel {
    Processed,
    Confirmed,
    Finalized,
}

/// A commitment level, as a request option.
#[derive(Debug, Clone, Copy, PartialEq, Eq, Structural)]
pub struct CommitmentConfig {
    pub commitment: CommitmentLevel,
}

impl CommitmentConfig {
    /// The commitment `Processed`.
    pub open spec fn spec_processed() -> CommitmentConfig {
        CommitmentConfig { commitment: CommitmentLevel::Processed }
    }

    /// The commitment `Finalized`.
    pub open spec fn spec_finalized() -> CommitmentConfig {
        CommitmentConfig { commitment: CommitmentLevel::Finalized }
    }

    /// The commitment `Processed`.
    pub fn processed() -> (r: CommitmentConfig)
        ensures
            r == CommitmentConfig::spec_processed(),
    {
        CommitmentConfig { commitment: CommitmentLevel::Processed }
    }

    /// The commitment `Finalized`, which is the default.
    pub fn finalized() -> (r: CommitmentConfig)
        ensures
            r == CommitmentConfig::spec_finalized(),
    {
        CommitmentConfig { commitment: CommitmentLevel::Finalized }
    }
}

impl Default for CommitmentConfig {
    fn default() -> (r: CommitmentConfig)
        ensures
            r == CommitmentConfig::spec_finalized(),
    {
        CommitmentConfig::finalized()
    }
}

/// The commitment that stands where none was given.
pub open spec fn commitment_or_default(commitment: Option<CommitmentConfig>) -> CommitmentConfig {
    match commitment {
        Some(c) => c,
        None => CommitmentConfig::spec_finalized(),
    }
}

impl CommitmentConfig {
    /// `commitment` where one is given, else the default.
    pub fn or_default(commitment: Option<CommitmentConfig>) -> (r: CommitmentConfig)
        ensures
            r == commitment_or_default(commitment),
    {
        match commitment {
            Some(c) => c,
            None => CommitmentConfig::default(),
        }
    }
}

/// Encoding of a transaction in a request or a reply.
#[derive(Debug, Clone, Copy, PartialEq, Eq, Structural)]
pub enum UiTransactionEncoding {
    Binary,
    Base64,
    Base58,
    Json,
    JsonParsed,
}

impl UiTransactionEncoding {
    /// The name of the encoding on the wire.
    pub open spec fn name(self) -> Seq<char> {
        match self {
            UiTransactionEncoding::Binary => "binary"@,
            UiTransactionEncoding::Base64 => "base64"@,
            UiTransactionEncoding::Base58 => "base58"@,
            UiTransactionEncoding::Json => "json"@,
            UiTransactionEncoding::JsonParsed => "jsonParsed"@,
        }
    }
}

/// Encoding of account data in a reply.
#[derive(Debug, Clone, Copy, PartialEq, Eq, Structural)]
pub enum UiAccountEncoding {
    Binary,
    Base58,
    Base64,
    JsonParsed,
    Base64Zstd,
}

/// How much of each transaction a block reply holds.
#[derive(Debug, Clone, Copy, PartialEq, Eq, Structural)]
pub enum TransactionDetails {
    Full,
    Signatures,
    Nothing,
    Accounts,
}

/// A window of an account's data.
#[derive(Debug, Clone, Copy, PartialEq, Eq, Structural)]
pub struct UiDataSliceConfig {
    pub offset: usize,
    pub length: usize,
}

/// Options of `sendTransaction`.
#[derive(Debug, Clone, Copy, PartialEq, Eq, Structural)]
pub struct RpcSendTransactionConfig {
    pub skip_preflight: bool,
    pub preflight_commitment: Option<CommitmentLevel>,
    pub encoding: Option<UiTransactionEncoding>,
    pub max_retries: Option<usize>,
    pub min_context_slot: Option<u64>,
}

impl Default for RpcSendTransactionConfig {
    fn default() -> (r: RpcSendTransactionConfig)
        ensures
            r == (RpcSendTransactionConfig {
                skip_preflight: false,
                preflight_commitment: None,
                encoding: None,
                max_retries: None,
                min_context_slot: None,
            }),
    {
        RpcSendTransactionConfig {
            skip_preflight: false,
            preflight_commitment: None,
            encoding: None,
            max_retries: None,
            min_context_slot: None,
        }
    }
}

/// The accounts that a simulation returns.
#[derive(Debug, Clone, PartialEq, Eq)]
pub struct RpcSimulateTransactionAccountsConfig {
    pub encoding: Option<UiAccountEncoding>,
    pub addresses: Vec<String>,
}

/// Options of `simulateTransaction`.
#[derive(Debug, Clone, PartialEq, Eq)]
pub struct RpcSimulateTransactionConfig {
    pub sig_verify: bool,
    pub replace_recent_blockhash: bool,
    pub commitment: Option<CommitmentConfig>,
    pub encoding: Option<UiTransactionEncoding>,
    pub accounts: Option<RpcSimulateTransactionAccountsConfig>,
    pub min_context_slot: Option<u64>,
    pub inner_instructions: bool,
}

impl Default for RpcSimulateTransactionConfig {
    fn default() -> (r: RpcSimulateTransactionConfig)
        ensures
            r == (RpcSimulateTransactionConfig {
                sig_verify: false,
                replace_recent_blockhash: false,
                commitment: None,
                encoding: None,
                accounts: None,
                min_context_slot: None,
                inner_instructions: false,
            }),
    {
        RpcSimulateTransactionConfig {
            sig_verify: false,
            replace_recent_blockhash: false,
            commitment: None,
            encoding: None,
            accounts: None,
            min_context_slot: None,
            inner_instructions: false,
        }
    }
}

/// Options of `requestAirdrop`.
#[derive(Debug, Clone, PartialEq, Eq)]
pub struct RpcRequestAirdropConfig {
    pub recent_blockhash: Option<String>,
    pub commitment: Option<CommitmentConfig>,
}

impl Default for RpcRequestAirdropConfig {
    fn default() -> (r: RpcRequestAirdropConfig)
        ensures
            r == (RpcRequestAirdropConfig {
                recent_blockhash: None,
                commitment: None,
            }),
    {
        RpcRequestAirdropConfig {
            recent_blockhash: None,
            commitment: None,
        }
    }
}

/// Options of `getLeaderSchedule`.
#[derive(Debug, Clone, PartialEq, Eq)]
pub struct RpcLeaderScheduleConfig {
    pub identity: Option<String>,
    pub commitment: Option<CommitmentConfig>,
}

impl Default for RpcLeaderScheduleConfig {
    fn default() -> (r: RpcLeaderScheduleConfig)
        ensures
            r == (RpcLeaderScheduleConfig {
                identity: None,
                commitment: None,
            }),
    {
        RpcLeaderScheduleConfig {
            identity: None,
            commitment: None,
        }
    }
}

/// A range of slots; up to the latest one where `last_slot` is absent.
#[derive(Debug, Clone, Copy, PartialEq, Eq, Structural)]
pub struct RpcBlockProductionConfigRange {
    pub first_slot: u64,
    pub last_slot: Option<u64>,
}

/// Options of `getBlockProduction`.
#[derive(Debug, Clone, PartialEq, Eq)]
pub struct RpcBlockProductionConfig {
    pub identity: Option<String>,
    pub range: Option<RpcBlockProductionConfigRange>,
    pub commitment: Option<CommitmentConfig>,
}

/// Options of `getVoteAccounts`.
#[derive(Debug, Clone, PartialEq, Eq)]
pub struct RpcGetVoteAccountsConfig {
    pub vote_pubkey: Option<String>,
    pub commitment: Option<CommitmentConfig>,
    pub keep_unstaked_delinquents: Option<bool>,
    pub delinquent_slot_distance: Option<u64>,
}

impl Default for RpcGetVoteAccountsConfig {
    fn default() -> (r: RpcGetVoteAccountsConfig)
        ensures
            r == (RpcGetVoteAccountsConfig {
                vote_pubkey: None,
                commitment: None,
                keep_unstaked_delinquents: None,
                delinquent_slot_distance: None,
            }),
    {
        RpcGetVoteAccountsConfig {
            vote_pubkey: None,
            commitment: None,
            keep_unstaked_delinquents: None,
            delinquent_slot_distance: None,
        }
    }
}

/// Which accounts `getLargestAccounts` ranks.
#[derive(Debug, Clone, Copy, PartialEq, Eq, Structural)]
pub enum RpcLargestAccountsFilter {
    Circulating,
    NonCirculating,
}

/// Options of `getLargestAccounts`.
#[derive(Debug, Clone, Copy, PartialEq, Eq, Structural)]
pub struct RpcLargestAccountsConfig {
    pub commitment: Option<CommitmentConfig>,
    pub filter: Option<RpcLargestAccountsFilter>,
    pub sort_results: Option<bool>,
}

/// Options of `getInflationReward`.
#[derive(Debug, Clone, Copy, PartialEq, Eq, Structural)]
pub struct RpcEpochConfig {
    pub epoch: Option<u64>,
    pub commitment: Option<CommitmentConfig>,
    pub min_context_slot: Option<u64>,
}

/// Options of `getAccountInfo` and `getMultipleAccounts`.
#[derive(Debug, Clone, Copy, PartialEq, Eq, Structural)]
pub struct RpcAccountInfoConfig {
    pub encoding: Option<UiAccountEncoding>,
    pub data_slice: Option<UiDataSliceConfig>,
    pub commitment: Option<CommitmentConfig>,
    pub min_context_slot: Option<u64>,
}

impl Default for RpcAccountInfoConfig {
    fn default() -> (r: RpcAccountInfoConfig)
        ensures
            r == (RpcAccountInfoConfig {
                encoding: None,
                data_slice: None,
                commitment: None,
                min_context_slot: None,
            }),
    {
        RpcAccountInfoConfig {
            encoding: None,
            data_slice: None,
            commitment: None,
            min_context_slot: None,
        }
    }
}

/// The bytes that a [`RpcFilterType::Memcmp`] filter compares with.
#[derive(Debug, Clone, PartialEq, Eq)]
pub enum MemcmpEncodedBytes {
    Base58(String),
    Base64(String),
    Bytes(Vec<u8>),
}

/// A filter of `getProgramAccounts`.
#[derive(Debug, Clone, PartialEq, Eq)]
pub enum RpcFilterType {
    DataSize(u64),
    Memcmp { offset: usize, bytes: MemcmpEncodedBytes },
    TokenAccountState,
}

/// Options of `getProgramAccounts`.
#[derive(Debug, Clone, PartialEq, Eq)]
pub struct RpcProgramAccountsConfig {
    pub filters: Option<Vec<RpcFilterType>>,
    pub account_config: RpcAccountInfoConfig,
    pub with_context: Option<bool>,
    pub sort_results: Option<bool>,
}

impl Default for RpcProgramAccountsConfig {
    fn default() -> (r: RpcProgramAccountsConfig)
        ensures
            r.filters is None,
            r.account_config == (RpcAccountInfoConfig {
                encoding: None,
                data_slice: None,
                commitment: None,
                min_context_slot: None,
            }),
            r.with_context is None,
            r.sort_results is None,
    {
        RpcProgramAccountsConfig {
            filters: None,
            account_config: RpcAccountInfoConfig::default(),
            with_context: None,
            sort_results: None,
        }
    }
}

/// Options of `getSignatureStatuses`.
#[derive(Debug, Clone, Copy, PartialEq, Eq, Structural)]
pub struct RpcSignatureStatusConfig {
    pub search_transaction_history: bool,
}

/// Cursors and options of `get_signatures_for_address_with_config`.
#[derive(Debug, Clone, Copy, PartialEq, Eq)]
pub struct GetConfirmedSignaturesForAddress2Config {
    pub before: Option<Signature>,
    pub until: Option<Signature>,
    pub limit: Option<usize>,
    pub commitment: Option<CommitmentConfig>,
}

impl Default for GetConfirmedSignaturesForAddress2Config {
    fn default() -> (r: GetConfirmedSignaturesForAddress2Config)
        ensures
            r == (GetConfirmedSignaturesForAddress2Config {
                before: None,
                until: None,
                limit: None,
                commitment: None,
            }),
    {
        GetConfirmedSignaturesForAddress2Config {
            before: None,
            until: None,
            limit: None,
            commitment: None,
        }
    }
}

/// Options of `getSignaturesForAddress`.
#[derive(Debug, Clone, PartialEq, Eq)]
pub struct RpcSignaturesForAddressConfig {
    pub before: Option<String>,
    pub until: Option<String>,
    pub limit: Option<usize>,
    pub commitment: Option<CommitmentConfig>,
    pub min_context_slot: Option<u64>,
}

/// Options of `getBlock`.
#[derive(Debug, Clone, Copy, PartialEq, Eq, Structural)]
pub struct RpcBlockConfig {
    pub encoding: Option<UiTransactionEncoding>,
    pub transaction_details: Option<TransactionDetails>,
    pub rewards: Option<bool>,
    pub commitment: Option<CommitmentConfig>,
    pub max_supported_transaction_version: Option<u8>,
}

/// Options of `getTransaction`.
#[derive(Debug, Clone, Copy, PartialEq, Eq, Structural)]
pub struct RpcTransactionConfig {
    pub encoding: Option<UiTransactionEncoding>,
    pub commitment: Option<CommitmentConfig>,
    pub max_supported_transaction_version: Option<u8>,
}

/// Which token accounts a query returns: those of a mint or those of a token program.
#[derive(Debug, Clone, Copy, PartialEq, Eq)]
pub enum TokenAccountsFilter {
    Mint(Pubkey),
    ProgramId(Pubkey),
}

/// Which token accounts a query returns: those of a mint or those of a token program, by its
/// base-58 text.
#[derive(Debug, Clone, PartialEq, Eq)]
pub enum RpcTokenAccountsFilter {
    Mint(String),
    ProgramId(String),
}

/// Which blocks a block subscription reports.
#[derive(Debug, Clone, PartialEq, Eq)]
pub enum RpcBlockSubscribeFilter {
    All,
    MentionsAccountOrProgram(String),
}

/// Options of a block subscription.
#[derive(Debug, Clone, Copy, PartialEq, Eq, Structural)]
pub struct RpcBlockSubscribeConfig {
    pub commitment: Option<CommitmentConfig>,
    pub encoding: Option<UiTransactionEncoding>,
    pub transaction_details: Option<TransactionDetails>,
    pub show_rewards: Option<bool>,
    pub max_supported_transaction_version: Option<u8>,
}

/// Which transactions a logs subscription reports.
#[derive(Debug, Clone, PartialEq, Eq)]
pub enum RpcTransactionLogsFilter {
    All,
    AllWithVotes,
    Mentions(Vec<String>),
}

/// Options of a logs subscription.
#[derive(Debug, Clone, Copy, PartialEq, Eq, Structural)]
pub struct RpcTransactionLogsConfig {
    pub commitment: Option<CommitmentConfig>,
}

/// Options of a signature subscription.
#[derive(Debug, Clone, Copy, PartialEq, Eq, Structural)]
pub struct RpcSignatureSubscribeConfig {
    pub commitment: Option<CommitmentConfig>,
    pub enable_received_notification: Option<bool>,
}

} // verus!
