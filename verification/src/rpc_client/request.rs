//! Requests: a JSON-RPC method and its parameters.

use vstd::prelude::*;

use crate::rpc_client::config::{
    CommitmentConfig, RpcAccountInfoConfig, RpcBlockConfig, RpcBlockProductionConfig,
    RpcBlockSubscribeConfig, RpcBlockSubscribeFilter, RpcEpochConfig, RpcGetVoteAccountsConfig,
    RpcLargestAccountsConfig, RpcLeaderScheduleConfig, RpcProgramAccountsConfig,
    RpcRequestAirdropConfig, RpcSendTransactionConfig, RpcSignatureStatusConfig,
    RpcSignatureSubscribeConfig, RpcSignaturesForAddressConfig, RpcSimulateTransactionConfig,
    RpcTokenAccountsFilter, RpcTransactionConfig, RpcTransactionLogsConfig,
    RpcTransactionLogsFilter, UiTransactionEncoding,
};
use crate::rpc_client::error::{ClientResult, ErrorView};

verus! {

/// A JSON-RPC method of a Solana node.
#[derive(Debug, Clone, Copy, PartialEq, Eq)]
pub enum RpcRequest {
    /// A method that has no variant of its own.
    Custom { method: &'static str },
    GetAccountInfo,
    GetBalance,
    GetBlock,
    GetBlockHeight,
    GetBlockProduction,
    GetBlocks,
    GetBlocksWithLimit,
    GetBlockTime,
    GetClusterNodes,
    GetEpochInfo,
    GetEpochSchedule,
    GetFeeForMessage,
    GetFirstAvailableBlock,
    GetGenesisHash,
    GetHealth,
    GetIdentity,
    GetInflationGovernor,
    GetInflationRate,
    GetInflationReward,
    GetLargestAccounts,
    GetLatestBlockhash,
    GetLeaderSchedule,
    GetMaxRetransmitSlot,
    GetMaxShredInsertSlot,
    GetMinimumBalanceForRentExemption,
    GetMultipleAccounts,
    GetProgramAccounts,
    GetRecentPerformanceSamples,
    GetRecentPrioritizationFees,
    GetHighestSnapshotSlot,
    GetSignaturesForAddress,
    GetSignatureStatuses,
    GetSlot,
    GetSlotLeaders,
    GetStakeMinimumDelegation,
    GetSupply,
    GetTokenAccountBalance,
    GetTokenAccountsByDelegate,
    GetTokenAccountsByOwner,
    GetTokenLargestAccounts,
    GetTokenSupply,
    GetTransaction,
    GetTransactionCount,
    GetVersion,
    GetVoteAccounts,
    IsBlockhashValid,
    MinimumLedgerSlot,
    RequestAirdrop,
    SendTransaction,
    SimulateTransaction,
    DeregisterNode,
    GetSlotLeader,
    GetSlotsPerSegment,
    GetStoragePubkeysForSlot,
    GetStorageTurn,
    GetStorageTurnRate,
    RegisterNode,
    SignVote,
}

impl RpcRequest {
    /// The method's name on the wire.
    pub open spec fn name(self) -> Seq<char> {
        match self {
            RpcRequest::GetAccountInfo => "getAccountInfo"@,
            RpcRequest::GetBalance => "getBalance"@,
            RpcRequest::GetBlock => "getBlock"@,
            RpcRequest::GetBlockHeight => "getBlockHeight"@,
            RpcRequest::GetBlockProduction => "getBlockProduction"@,
            RpcRequest::GetBlocks => "getBlocks"@,
            RpcRequest::GetBlocksWithLimit => "getBlocksWithLimit"@,
            RpcRequest::GetBlockTime => "getBlockTime"@,
            RpcRequest::GetClusterNodes => "getClusterNodes"@,
            RpcRequest::GetEpochInfo => "getEpochInfo"@,
            RpcRequest::GetEpochSchedule => "getEpochSchedule"@,
            RpcRequest::GetFeeForMessage => "getFeeForMessage"@,
            RpcRequest::GetFirstAvailableBlock => "getFirstAvailableBlock"@,
            RpcRequest::GetGenesisHash => "getGenesisHash"@,
            RpcRequest::GetHealth => "getHealth"@,
            RpcRequest::GetIdentity => "getIdentity"@,
            RpcRequest::GetInflationGovernor => "getInflationGovernor"@,
            RpcRequest::GetInflationRate => "getInflationRate"@,
            RpcRequest::GetInflationReward => "getInflationReward"@,
            RpcRequest::GetLargestAccounts => "getLargestAccounts"@,
            RpcRequest::GetLatestBlockhash => "getLatestBlockhash"@,
            RpcRequest::GetLeaderSchedule => "getLeaderSchedule"@,
            RpcRequest::GetMaxRetransmitSlot => "getMaxRetransmitSlot"@,
            RpcRequest::GetMaxShredInsertSlot => "getMaxShredInsertSlot"@,
            RpcRequest::GetMinimumBalanceForRentExemption => "getMinimumBalanceForRentExemption"@,
            RpcRequest::GetMultipleAccounts => "getMultipleAccounts"@,
            RpcRequest::GetProgramAccounts => "getProgramAccounts"@,
            RpcRequest::GetRecentPerformanceSamples => "getRecentPerformanceSamples"@,
            RpcRequest::GetRecentPrioritizationFees => "getRecentPrioritizationFees"@,
            RpcRequest::GetHighestSnapshotSlot => "getHighestSnapshotSlot"@,
            RpcRequest::GetSignaturesForAddress => "getSignaturesForAddress"@,
            RpcRequest::GetSignatureStatuses => "getSignatureStatuses"@,
            RpcRequest::GetSlot => "getSlot"@,
            RpcRequest::GetSlotLeaders => "getSlotLeaders"@,
            RpcRequest::GetStakeMinimumDelegation => "getStakeMinimumDelegation"@,
            RpcRequest::GetSupply => "getSupply"@,
            RpcRequest::GetTokenAccountBalance => "getTokenAccountBalance"@,
            RpcRequest::GetTokenAccountsByDelegate => "getTokenAccountsByDelegate"@,
            RpcRequest::GetTokenAccountsByOwner => "getTokenAccountsByOwner"@,
            RpcRequest::GetTokenLargestAccounts => "getTokenLargestAccounts"@,
            RpcRequest::GetTokenSupply => "getTokenSupply"@,
            RpcRequest::GetTransaction => "getTransaction"@,
            RpcRequest::GetTransactionCount => "getTransactionCount"@,
            RpcRequest::GetVersion => "getVersion"@,
            RpcRequest::GetVoteAccounts => "getVoteAccounts"@,
            RpcRequest::IsBlockhashValid => "isBlockhashValid"@,
            RpcRequest::MinimumLedgerSlot => "minimumLedgerSlot"@,
            RpcRequest::RequestAirdrop => "requestAirdrop"@,
            RpcRequest::SendTransaction => "sendTransaction"@,
            RpcRequest::SimulateTransaction => "simulateTransaction"@,
            RpcRequest::DeregisterNode => "deregisterNode"@,
            RpcRequest::GetSlotLeader => "getSlotLeader"@,
            RpcRequest::GetSlotsPerSegment => "getSlotsPerSegment"@,
            RpcRequest::GetStoragePubkeysForSlot => "getStoragePubkeysForSlot"@,
            RpcRequest::GetStorageTurn => "getStorageTurn"@,
            RpcRequest::GetStorageTurnRate => "getStorageTurnRate"@,
            RpcRequest::RegisterNode => "registerNode"@,
            RpcRequest::SignVote => "signVote"@,
            RpcRequest::Custom { method } => method@,
        }
    }

    /// The method's name on the wire.
    pub fn method(&self) -> (r: &'static str)
        ensures
            r@ == self.name(),
    {
        match self {
            RpcRequest::GetAccountInfo => "getAccountInfo",
            RpcRequest::GetBalance => "getBalance",
            RpcRequest::GetBlock => "getBlock",
            RpcRequest::GetBlockHeight => "getBlockHeight",
            RpcRequest::GetBlockProduction => "getBlockProduction",
            RpcRequest::GetBlocks => "getBlocks",
            RpcRequest::GetBlocksWithLimit => "getBlocksWithLimit",
            RpcRequest::GetBlockTime => "getBlockTime",
            RpcRequest::GetClusterNodes => "getClusterNodes",
            RpcRequest::GetEpochInfo => "getEpochInfo",
            RpcRequest::GetEpochSchedule => "getEpochSchedule",
            RpcRequest::GetFeeForMessage => "getFeeForMessage",
            RpcRequest::GetFirstAvailableBlock => "getFirstAvailableBlock",
            RpcRequest::GetGenesisHash => "getGenesisHash",
            RpcRequest::GetHealth => "getHealth",
            RpcRequest::GetIdentity => "getIdentity",
            RpcRequest::GetInflationGovernor => "getInflationGovernor",
            RpcRequest::GetInflationRate => "getInflationRate",
            RpcRequest::GetInflationReward => "getInflationReward",
            RpcRequest::GetLargestAccounts => "getLargestAccounts",
            RpcRequest::GetLatestBlockhash => "getLatestBlockhash",
            RpcRequest::GetLeaderSchedule => "getLeaderSchedule",
            RpcRequest::GetMaxRetransmitSlot => "getMaxRetransmitSlot",
            RpcRequest::GetMaxShredInsertSlot => "getMaxShredInsertSlot",
            RpcRequest::GetMinimumBalanceForRentExemption => "getMinimumBalanceForRentExemption",
            RpcRequest::GetMultipleAccounts => "getMultipleAccounts",
            RpcRequest::GetProgramAccounts => "getProgramAccounts",
            RpcRequest::GetRecentPerformanceSamples => "getRecentPerformanceSamples",
            RpcRequest::GetRecentPrioritizationFees => "getRecentPrioritizationFees",
            RpcRequest::GetHighestSnapshotSlot => "getHighestSnapshotSlot",
            RpcRequest::GetSignaturesForAddress => "getSignaturesForAddress",
            RpcRequest::GetSignatureStatuses => "getSignatureStatuses",
            RpcRequest::GetSlot => "getSlot",
            RpcRequest::GetSlotLeaders => "getSlotLeaders",
            RpcRequest::GetStakeMinimumDelegation => "getStakeMinimumDelegation",
            RpcRequest::GetSupply => "getSupply",
            RpcRequest::GetTokenAccountBalance => "getTokenAccountBalance",
            RpcRequest::GetTokenAccountsByDelegate => "getTokenAccountsByDelegate",
            RpcRequest::GetTokenAccountsByOwner => "getTokenAccountsByOwner",
            RpcRequest::GetTokenLargestAccounts => "getTokenLargestAccounts",
            RpcRequest::GetTokenSupply => "getTokenSupply",
            RpcRequest::GetTransaction => "getTransaction",
            RpcRequest::GetTransactionCount => "getTransactionCount",
            RpcRequest::GetVersion => "getVersion",
            RpcRequest::GetVoteAccounts => "getVoteAccounts",
            RpcRequest::IsBlockhashValid => "isBlockhashValid",
            RpcRequest::MinimumLedgerSlot => "minimumLedgerSlot",
            RpcRequest::RequestAirdrop => "requestAirdrop",
            RpcRequest::SendTransaction => "sendTransaction",
            RpcRequest::SimulateTransaction => "simulateTransaction",
            RpcRequest::DeregisterNode => "deregisterNode",
            RpcRequest::GetSlotLeader => "getSlotLeader",
            RpcRequest::GetSlotsPerSegment => "getSlotsPerSegment",
            RpcRequest::GetStoragePubkeysForSlot => "getStoragePubkeysForSlot",
            RpcRequest::GetStorageTurn => "getStorageTurn",
            RpcRequest::GetStorageTurnRate => "getStorageTurnRate",
            RpcRequest::RegisterNode => "registerNode",
            RpcRequest::SignVote => "signVote",
            RpcRequest::Custom { method } => method,
        }
    }
}

/// One positional parameter of a request.
#[derive(Debug, Clone, PartialEq, Eq)]
pub enum Param {
    /// A number.
    Number(u64),
    /// A number, or `null`.
    OptionalNumber(Option<u64>),
    /// A string.
    Text(String),
    /// A list of strings.
    Texts(Vec<String>),
    Commitment(CommitmentConfig),
    TransactionEncoding(UiTransactionEncoding),
    SendTransaction(RpcSendTransactionConfig),
    SimulateTransaction(RpcSimulateTransactionConfig),
    SignatureStatus(RpcSignatureStatusConfig),
    BlockProduction(RpcBlockProductionConfig),
    LargestAccounts(RpcLargestAccountsConfig),
    VoteAccounts(RpcGetVoteAccountsConfig),
    Block(RpcBlockConfig),
    SignaturesForAddress(RpcSignaturesForAddressConfig),
    Transaction(RpcTransactionConfig),
    LeaderSchedule(RpcLeaderScheduleConfig),
    Epoch(RpcEpochConfig),
    AccountInfo(RpcAccountInfoConfig),
    ProgramAccounts(RpcProgramAccountsConfig),
    TokenAccountsFilter(RpcTokenAccountsFilter),
    Airdrop(RpcRequestAirdropConfig),
    /// Account options, or `null`.
    OptionalAccountInfo(Option<RpcAccountInfoConfig>),
    /// Program-account options, or `null`.
    OptionalProgramAccounts(Option<RpcProgramAccountsConfig>),
    BlockFilter(RpcBlockSubscribeFilter),
    /// Block-subscription options, or `null`.
    OptionalBlockSubscribe(Option<RpcBlockSubscribeConfig>),
    LogsFilter(RpcTransactionLogsFilter),
    Logs(RpcTransactionLogsConfig),
    /// Signature-subscription options, or `null`.
    OptionalSignatureSubscribe(Option<RpcSignatureSubscribeConfig>),
}

/// One positional parameter. Text that the client itself writes stands as a sequence of
/// characters; options that a caller gave stand as given.
pub ghost enum ParamView {
    Number(u64),
    OptionalNumber(Option<u64>),
    Text(Seq<char>),
    Texts(Seq<Seq<char>>),
    Commitment(CommitmentConfig),
    TransactionEncoding(UiTransactionEncoding),
    SendTransaction(RpcSendTransactionConfig),
    SimulateTransaction(RpcSimulateTransactionConfig),
    SignatureStatus(RpcSignatureStatusConfig),
    BlockProduction(RpcBlockProductionConfig),
    LargestAccounts(RpcLargestAccountsConfig),
    VoteAccounts(RpcGetVoteAccountsConfig),
    Block(RpcBlockConfig),
    SignaturesForAddress {
        before: Option<Seq<char>>,
        until: Option<Seq<char>>,
        limit: Option<usize>,
        commitment: Option<CommitmentConfig>,
        min_context_slot: Option<u64>,
    },
    Transaction(RpcTransactionConfig),
    LeaderSchedule(RpcLeaderScheduleConfig),
    Epoch(RpcEpochConfig),
    AccountInfo(RpcAccountInfoConfig),
    ProgramAccounts(RpcProgramAccountsConfig),
    Mint(Seq<char>),
    ProgramId(Seq<char>),
    Airdrop { recent_blockhash: Option<Seq<char>>, commitment: Option<CommitmentConfig> },
    OptionalAccountInfo(Option<RpcAccountInfoConfig>),
    OptionalProgramAccounts(Option<RpcProgramAccountsConfig>),
    BlockFilter(RpcBlockSubscribeFilter),
    OptionalBlockSubscribe(Option<RpcBlockSubscribeConfig>),
    LogsFilter(RpcTransactionLogsFilter),
    Logs(RpcTransactionLogsConfig),
    OptionalSignatureSubscribe(Option<RpcSignatureSubscribeConfig>),
}

/// The characters of an optional string.
pub open spec fn text_option(s: Option<String>) -> Option<Seq<char>> {
    match s {
        Some(s) => Some(s@),
        None => None,
    }
}

/// The characters of each string of a list.
pub open spec fn texts(list: Seq<String>) -> Seq<Seq<char>> {
    list.map_values(|s: String| s@)
}

impl View for Param {
    type V = ParamView;

    open spec fn view(&self) -> ParamView {
        match *self {
            Param::Number(n) => ParamView::Number(n),
            Param::OptionalNumber(n) => ParamView::OptionalNumber(n),
            Param::Text(s) => ParamView::Text(s@),
            Param::Texts(list) => ParamView::Texts(texts(list@)),
            Param::Commitment(c) => ParamView::Commitment(c),
            Param::TransactionEncoding(e) => ParamView::TransactionEncoding(e),
            Param::SendTransaction(c) => ParamView::SendTransaction(c),
            Param::SimulateTransaction(c) => ParamView::SimulateTransaction(c),
            Param::SignatureStatus(c) => ParamView::SignatureStatus(c),
            Param::BlockProduction(c) => ParamView::BlockProduction(c),
            Param::LargestAccounts(c) => ParamView::LargestAccounts(c),
            Param::VoteAccounts(c) => ParamView::VoteAccounts(c),
            Param::Block(c) => ParamView::Block(c),
            Param::SignaturesForAddress(c) => ParamView::SignaturesForAddress {
                before: text_option(c.before),
                until: text_option(c.until),
                limit: c.limit,
                commitment: c.commitment,
                min_context_slot: c.min_context_slot,
            },
            Param::Transaction(c) => ParamView::Transaction(c),
            Param::LeaderSchedule(c) => ParamView::LeaderSchedule(c),
            Param::Epoch(c) => ParamView::Epoch(c),
            Param::AccountInfo(c) => ParamView::AccountInfo(c),
            Param::ProgramAccounts(c) => ParamView::ProgramAccounts(c),
            Param::TokenAccountsFilter(RpcTokenAccountsFilter::Mint(s)) => ParamView::Mint(s@),
            Param::TokenAccountsFilter(RpcTokenAccountsFilter::ProgramId(s)) => {
                ParamView::ProgramId(s@)
            },
            Param::Airdrop(c) => ParamView::Airdrop {
                recent_blockhash: text_option(c.recent_blockhash),
                commitment: c.commitment,
            },
            Param::OptionalAccountInfo(c) => ParamView::OptionalAccountInfo(c),
            Param::OptionalProgramAccounts(c) => ParamView::OptionalProgramAccounts(c),
            Param::BlockFilter(c) => ParamView::BlockFilter(c),
            Param::OptionalBlockSubscribe(c) => ParamView::OptionalBlockSubscribe(c),
            Param::LogsFilter(c) => ParamView::LogsFilter(c),
            Param::Logs(c) => ParamView::Logs(c),
            Param::OptionalSignatureSubscribe(c) => ParamView::OptionalSignatureSubscribe(c),
        }
    }
}

/// The parameters of a request. They are `null` or an array, nothing else.
#[derive(Debug, Clone, PartialEq, Eq)]
pub enum Params {
    Null,
    List(Vec<Param>),
}

/// The parameters of a request: `None` for `null`, else what the array holds.
pub open spec fn params_view(params: Params) -> Option<Seq<ParamView>> {
    match params {
        Params::Null => None,
        Params::List(list) => Some(list@.map_values(|p: Param| p@)),
    }
}

/// A JSON-RPC request: what goes to the host.
#[derive(Debug, Clone, PartialEq, Eq)]
pub struct RpcCall {
    pub request: RpcRequest,
    pub params: Params,
}

/// A JSON-RPC request: its method and its parameters.
pub ghost struct RpcCallView {
    pub request: RpcRequest,
    pub params: Option<Seq<ParamView>>,
}

impl View for RpcCall {
    type V = RpcCallView;

    open spec fn view(&self) -> RpcCallView {
        RpcCallView { request: self.request, params: params_view(self.params) }
    }
}

/// A request with an array of parameters.
pub open spec fn call_with(request: RpcRequest, params: Seq<ParamView>) -> RpcCallView {
    RpcCallView { request, params: Some(params) }
}

/// A request without parameters.
pub open spec fn bare_call(request: RpcRequest) -> RpcCallView {
    RpcCallView { request, params: None }
}

impl RpcCall {
    /// A request without parameters: they are sent as `null`.
    pub fn bare(request: RpcRequest) -> (r: RpcCall)
        ensures
            r@ == bare_call(request),
    {
        RpcCall { request, params: Params::Null }
    }

    /// A request with one parameter.
    pub fn with1(request: RpcRequest, a: Param) -> (r: RpcCall)
        ensures
            r@ == call_with(request, seq![a@]),
    {
        let r = RpcCall { request, params: Params::List(vec![a]) };
        assert(r@.params.unwrap() =~= seq![a@]);
        r
    }

    /// A request with two parameters.
    pub fn with2(request: RpcRequest, a: Param, b: Param) -> (r: RpcCall)
        ensures
            r@ == call_with(request, seq![a@, b@]),
    {
        let r = RpcCall { request, params: Params::List(vec![a, b]) };
        assert(r@.params.unwrap() =~= seq![a@, b@]);
        r
    }

    /// A request with three parameters.
    pub fn with3(request: RpcRequest, a: Param, b: Param, c: Param) -> (r: RpcCall)
        ensures
            r@ == call_with(request, seq![a@, b@, c@]),
    {
        let r = RpcCall { request, params: Params::List(vec![a, b, c]) };
        assert(r@.params.unwrap() =~= seq![a@, b@, c@]);
        r
    }

    /// The name of the method that the host is asked to call.
    pub fn method(&self) -> (r: &'static str)
        ensures
            r@ == self@.request.name(),
    {
        self.request.method()
    }
}

/// A request that may have failed to take shape.
pub open spec fn call_view(r: ClientResult<RpcCall>) -> Result<RpcCallView, ErrorView> {
    match r {
        Ok(call) => Ok(call@),
        Err(e) => Err(e@),
    }
}

} // verus!
