//! The ledger: blocks, past transactions and hashes.

use serde_json::Error as JsonError;
use solana_rpc_client_types::response::RpcConfirmedTransactionStatusWithSignature;
use solana_transaction_status_client_types::{
    EncodedConfirmedBlock, EncodedConfirmedTransactionWithStatusMeta, UiConfirmedBlock,
};
use vstd::prelude::*;

use crate::bindings::replies::{
    json_block_reply, json_encoded_block_reply, json_signature_infos_reply, json_slots_reply,
    json_transaction_reply, parse_block, parse_encoded_block, parse_signature_infos, parse_slots,
    parse_transaction,
};
use crate::bindings::{
    hash_from_str, hash_text, hash_to_string, i64_from_json, is_json_null, json_blockhash,
    json_bool_response, json_document, json_i64, json_is_null, json_string, parse_blockhash,
    parse_bool_response, parse_json, parse_string, parsed_hash, pubkey_text, pubkey_to_string,
    signature_text, signature_to_string,
};
use crate::host::HostReply;
use crate::rpc_client::accounts::number_reply;
use crate::rpc_client::client::{reply_bytes, sent, RpcClient};
use crate::rpc_client::cluster::{commitment_call, list_view, parsed_reply, parsed_result};
use crate::rpc_client::config::{
    CommitmentConfig, GetConfirmedSignaturesForAddress2Config, RpcBlockConfig,
    RpcSignaturesForAddressConfig, RpcTransactionConfig, UiTransactionEncoding,
};
use crate::rpc_client::error::{
    client_view, for_user, for_user_error, json_error, ClientResult, ErrorView,
};
use crate::rpc_client::keys::{Blockhash, Pubkey, Signature};
use crate::rpc_client::request::{
    bare_call, call_with, text_option, Param, ParamView, RpcCall, RpcCallView, RpcRequest,
};
use crate::rpc_client::response::{value_of, Response};
use crate::text::{joined, decimal, decimal_text};

verus! {

// ---------------------------------------------------------------------------------------------
// Blocks
// ---------------------------------------------------------------------------------------------

/// The request for the slots of blocks from `start_slot` on. An absent end is left out where a
/// commitment follows: some nodes refuse `null` there.
pub open spec fn blocks_call(
    start_slot: u64,
    end_slot: Option<u64>,
    commitment: CommitmentConfig,
) -> RpcCallView {
    call_with(
        RpcRequest::GetBlocks,
        match end_slot {
            Some(end_slot) => seq![
                ParamView::Number(start_slot),
                ParamView::Number(end_slot),
                ParamView::Commitment(commitment),
            ],
            None => seq![ParamView::Number(start_slot), ParamView::Commitment(commitment)],
        },
    )
}

/// The estimated time of a block, given what the reply decoded to: `None` for `null`.
pub open spec fn block_time_result(
    slot: u64,
    decoded: Option<Result<i64, JsonError>>,
) -> Result<i64, ErrorView> {
    match decoded {
        None => Err(for_user("Block Not Found: slot="@ + decimal(slot as nat))),
        Some(Ok(time)) => Ok(time),
        Some(Err(e)) => Err(json_error(e).with_request(RpcRequest::GetBlockTime)),
    }
}

/// The estimated time of a block, given what the reply decoded to: `None` for `null`, which a node
/// answers for a slot without a block.
pub fn block_time(slot: u64, decoded: Option<Result<i64, JsonError>>) -> (r: ClientResult<i64>)
    ensures
        client_view(r) == block_time_result(slot, decoded),
{
    match decoded {
        None => Err(
            for_user_error(
                joined("Block Not Found: slot=", decimal_text(slot as u128).as_str()),
            ),
        ),
        Some(decoded) => number_reply(decoded, RpcRequest::GetBlockTime),
    }
}

impl RpcClient {
    /// The block of a slot, its transactions as JSON.
    pub fn get_block(&self, slot: u64) -> (r: RpcCall)
        ensures
            r@ == call_with(
                RpcRequest::GetBlock,
                seq![
                    ParamView::Number(slot),
                    ParamView::TransactionEncoding(UiTransactionEncoding::Json),
                ],
            ),
    {
        self.get_block_with_encoding(slot, UiTransactionEncoding::Json)
    }

    /// The block of a slot, its transactions in `encoding`.
    pub fn get_block_with_encoding(&self, slot: u64, encoding: UiTransactionEncoding) -> (r: RpcCall)
        ensures
            r@ == call_with(
                RpcRequest::GetBlock,
                seq![ParamView::Number(slot), ParamView::TransactionEncoding(encoding)],
            ),
    {
        RpcCall::with2(
            RpcRequest::GetBlock,
            Param::Number(slot),
            Param::TransactionEncoding(encoding),
        )
    }

    /// The reply to [`get_block`](Self::get_block) and
    /// [`get_block_with_encoding`](Self::get_block_with_encoding).
    pub fn get_block_reply(&self, reply: HostReply) -> (r: ClientResult<EncodedConfirmedBlock>)
        ensures
            client_view(r) == sent(
                self.spec_tx_debug(),
                RpcRequest::GetBlock,
                reply,
                json_encoded_block_reply(reply_bytes(reply)),
            ),
    {
        self.send(RpcRequest::GetBlock, reply, parse_encoded_block)
    }

    /// The block of a slot, with the given options.
    pub fn get_block_with_config(&self, slot: u64, config: RpcBlockConfig) -> (r: RpcCall)
        ensures
            r@ == call_with(
                RpcRequest::GetBlock,
                seq![ParamView::Number(slot), ParamView::Block(config)],
            ),
    {
        RpcCall::with2(RpcRequest::GetBlock, Param::Number(slot), Param::Block(config))
    }

    /// The reply to [`get_block_with_config`](Self::get_block_with_config).
    pub fn get_block_with_config_reply(&self, reply: HostReply) -> (r: ClientResult<UiConfirmedBlock>)
        ensures
            client_view(r) == sent(
                self.spec_tx_debug(),
                RpcRequest::GetBlock,
                reply,
                json_block_reply(reply_bytes(reply)),
            ),
    {
        self.send(RpcRequest::GetBlock, reply, parse_block)
    }

    /// The slots of confirmed blocks from `start_slot` to `end_slot`, or to the latest.
    pub fn get_blocks(&self, start_slot: u64, end_slot: Option<u64>) -> (r: RpcCall)
        ensures
            r@ == call_with(
                RpcRequest::GetBlocks,
                seq![ParamView::Number(start_slot), ParamView::OptionalNumber(end_slot)],
            ),
    {
        RpcCall::with2(
            RpcRequest::GetBlocks,
            Param::Number(start_slot),
            Param::OptionalNumber(end_slot),
        )
    }

    /// The slots of blocks from `start_slot` to `end_slot`, or to the latest, at
    /// `commitment_config`.
    pub fn get_blocks_with_commitment(
        &self,
        start_slot: u64,
        end_slot: Option<u64>,
        commitment_config: CommitmentConfig,
    ) -> (r: RpcCall)
        ensures
            r@ == blocks_call(start_slot, end_slot, commitment_config),
    {
        match end_slot {
            Some(end_slot) => RpcCall::with3(
                RpcRequest::GetBlocks,
                Param::Number(start_slot),
                Param::Number(end_slot),
                Param::Commitment(commitment_config),
            ),
            None => RpcCall::with2(
                RpcRequest::GetBlocks,
                Param::Number(start_slot),
                Param::Commitment(commitment_config),
            ),
        }
    }

    /// The reply to [`get_blocks`](Self::get_blocks) and
    /// [`get_blocks_with_commitment`](Self::get_blocks_with_commitment).
    pub fn get_blocks_reply(&self, reply: HostReply) -> (r: ClientResult<Vec<u64>>)
        ensures
            list_view(r) == sent(
                self.spec_tx_debug(),
                RpcRequest::GetBlocks,
                reply,
                json_slots_reply(reply_bytes(reply)),
            ),
    {
        self.send(RpcRequest::GetBlocks, reply, parse_slots)
    }

    /// The slots of at most `limit` confirmed blocks from `start_slot` on.
    pub fn get_blocks_with_limit(&self, start_slot: u64, limit: usize) -> (r: RpcCall)
        ensures
            r@ == call_with(
                RpcRequest::GetBlocksWithLimit,
                seq![ParamView::Number(start_slot), ParamView::Number(limit as u64)],
            ),
    {
        RpcCall::with2(
            RpcRequest::GetBlocksWithLimit,
            Param::Number(start_slot),
            Param::Number(limit as u64),
        )
    }

    /// The slots of at most `limit` blocks from `start_slot` on, at `commitment_config`.
    pub fn get_blocks_with_limit_and_commitment(
        &self,
        start_slot: u64,
        limit: usize,
        commitment_config: CommitmentConfig,
    ) -> (r: RpcCall)
        ensures
            r@ == call_with(
                RpcRequest::GetBlocksWithLimit,
                seq![
                    ParamView::Number(start_slot),
                    ParamView::Number(limit as u64),
                    ParamView::Commitment(commitment_config),
                ],
            ),
    {
        RpcCall::with3(
            RpcRequest::GetBlocksWithLimit,
            Param::Number(start_slot),
            Param::Number(limit as u64),
            Param::Commitment(commitment_config),
        )
    }

    /// The reply to [`get_blocks_with_limit`](Self::get_blocks_with_limit) and
    /// [`get_blocks_with_limit_and_commitment`](Self::get_blocks_with_limit_and_commitment).
    pub fn get_blocks_with_limit_reply(&self, reply: HostReply) -> (r: ClientResult<Vec<u64>>)
        ensures
            list_view(r) == sent(
                self.spec_tx_debug(),
                RpcRequest::GetBlocksWithLimit,
                reply,
                json_slots_reply(reply_bytes(reply)),
            ),
    {
        self.send(RpcRequest::GetBlocksWithLimit, reply, parse_slots)
    }

    /// The estimated time of the block of a slot, in seconds since the Unix epoch.
    pub fn get_block_time(&self, slot: u64) -> (r: RpcCall)
        ensures
            r@ == call_with(RpcRequest::GetBlockTime, seq![ParamView::Number(slot)]),
    {
        RpcCall::with1(RpcRequest::GetBlockTime, Param::Number(slot))
    }

    /// The reply to [`get_block_time`](Self::get_block_time).
    pub fn get_block_time_reply(&self, slot: u64, reply: HostReply) -> (r: ClientResult<i64>)
        ensures
            client_view(r) == match sent(
                self.spec_tx_debug(),
                RpcRequest::GetBlockTime,
                reply,
                json_document(reply_bytes(reply)),
            ) {
                Ok(json) => block_time_result(
                    slot,
                    if is_json_null(json) {
                        None
                    } else {
                        Some(json_i64(json))
                    },
                ),
                Err(e) => Err(e),
            },
    {
        match self.send(RpcRequest::GetBlockTime, reply, parse_json) {
            Ok(json) => if json_is_null(&json) {
                block_time(slot, None)
            } else {
                block_time(slot, Some(i64_from_json(json)))
            },
            Err(e) => Err(e.into_with_request(RpcRequest::GetBlockTime)),
        }
    }
}

// ---------------------------------------------------------------------------------------------
// History of an address
// ---------------------------------------------------------------------------------------------

/// The request for the signatures that touched an address.
pub open spec fn signatures_for_address_call(
    address: Pubkey,
    config: GetConfirmedSignaturesForAddress2Config,
) -> RpcCallView {
    call_with(
        RpcRequest::GetSignaturesForAddress,
        seq![
            ParamView::Text(pubkey_text(address)),
            ParamView::SignaturesForAddress {
                before: signature_text_option(config.before),
                until: signature_text_option(config.until),
                limit: config.limit,
                commitment: config.commitment,
                min_context_slot: None,
            },
        ],
    )
}

/// The text of an optional signature.
pub open spec fn signature_text_option(signature: Option<Signature>) -> Option<Seq<char>> {
    match signature {
        Some(signature) => Some(signature_text(signature)),
        None => None,
    }
}

fn signature_string_option(signature: Option<Signature>) -> (r: Option<String>)
    ensures
        text_option(r) == signature_text_option(signature),
{
    match signature {
        Some(signature) => Some(signature_to_string(&signature)),
        None => None,
    }
}

impl RpcClient {
    /// The signatures that touched an address, the latest first.
    pub fn get_signatures_for_address(&self, address: &Pubkey) -> (r: RpcCall)
        ensures
            r@ == signatures_for_address_call(
                *address,
                GetConfirmedSignaturesForAddress2Config {
                    before: None,
                    until: None,
                    limit: None,
                    commitment: None,
                },
            ),
    {
        self.get_signatures_for_address_with_config(
            address,
            GetConfirmedSignaturesForAddress2Config::default(),
        )
    }

    /// The signatures that touched an address, between two cursors and at most so many.
    pub fn get_signatures_for_address_with_config(
        &self,
        address: &Pubkey,
        config: GetConfirmedSignaturesForAddress2Config,
    ) -> (r: RpcCall)
        ensures
            r@ == signatures_for_address_call(*address, config),
    {
        let config = RpcSignaturesForAddressConfig {
            before: signature_string_option(config.before),
            until: signature_string_option(config.until),
            limit: config.limit,
            commitment: config.commitment,
            min_context_slot: None,
        };
        RpcCall::with2(
            RpcRequest::GetSignaturesForAddress,
            Param::Text(pubkey_to_string(address)),
            Param::SignaturesForAddress(config),
        )
    }

    /// The reply to [`get_signatures_for_address`](Self::get_signatures_for_address) and
    /// [`get_signatures_for_address_with_config`](Self::get_signatures_for_address_with_config).
    pub fn get_signatures_for_address_reply(&self, reply: HostReply) -> (r: ClientResult<Vec<RpcConfirmedTransactionStatusWithSignature>>)
        ensures
            list_view(r) == sent(
                self.spec_tx_debug(),
                RpcRequest::GetSignaturesForAddress,
                reply,
                json_signature_infos_reply(reply_bytes(reply)),
            ),
    {
        self.send(RpcRequest::GetSignaturesForAddress, reply, parse_signature_infos)
    }

    /// A confirmed transaction, in `encoding`.
    pub fn get_transaction(&self, signature: &Signature, encoding: UiTransactionEncoding) -> (r:
        RpcCall)
        ensures
            r@ == call_with(
                RpcRequest::GetTransaction,
                seq![
                    ParamView::Text(signature_text(*signature)),
                    ParamView::TransactionEncoding(encoding),
                ],
            ),
    {
        RpcCall::with2(
            RpcRequest::GetTransaction,
            Param::Text(signature_to_string(signature)),
            Param::TransactionEncoding(encoding),
        )
    }

    /// A confirmed transaction, with the given options.
    pub fn get_transaction_with_config(
        &self,
        signature: &Signature,
        config: RpcTransactionConfig,
    ) -> (r: RpcCall)
        ensures
            r@ == call_with(
                RpcRequest::GetTransaction,
                seq![
                    ParamView::Text(signature_text(*signature)),
                    ParamView::Transaction(config),
                ],
            ),
    {
        RpcCall::with2(
            RpcRequest::GetTransaction,
            Param::Text(signature_to_string(signature)),
            Param::Transaction(config),
        )
    }

    /// The reply to [`get_transaction`](Self::get_transaction) and
    /// [`get_transaction_with_config`](Self::get_transaction_with_config).
    pub fn get_transaction_reply(&self, reply: HostReply) -> (r: ClientResult<EncodedConfirmedTransactionWithStatusMeta>)
        ensures
            client_view(r) == sent(
                self.spec_tx_debug(),
                RpcRequest::GetTransaction,
                reply,
                json_transaction_reply(reply_bytes(reply)),
            ),
    {
        self.send(RpcRequest::GetTransaction, reply, parse_transaction)
    }
}

// ---------------------------------------------------------------------------------------------
// Hashes
// ---------------------------------------------------------------------------------------------

/// What a reply says of the latest blockhash and the last block height at which it is valid.
pub open spec fn sent_blockhash(tx_debug: bool, reply: HostReply) -> Result<
    (Blockhash, u64),
    ErrorView,
> {
    match sent(
        tx_debug,
        RpcRequest::GetLatestBlockhash,
        reply,
        json_blockhash(reply_bytes(reply)),
    ) {
        Ok((text, height)) => match parsed_result(
            parsed_hash(text),
            "Hash"@,
            RpcRequest::GetLatestBlockhash,
        ) {
            Ok(blockhash) => Ok((blockhash, height)),
            Err(e) => Err(e),
        },
        Err(e) => Err(e),
    }
}

impl RpcClient {
    /// The genesis hash of the cluster.
    pub fn get_genesis_hash(&self) -> (r: RpcCall)
        ensures
            r@ == bare_call(RpcRequest::GetGenesisHash),
    {
        RpcCall::bare(RpcRequest::GetGenesisHash)
    }

    /// The reply to [`get_genesis_hash`](Self::get_genesis_hash).
    pub fn get_genesis_hash_reply(&self, reply: HostReply) -> (r: ClientResult<Blockhash>)
        ensures
            client_view(r) == match sent(
                self.spec_tx_debug(),
                RpcRequest::GetGenesisHash,
                reply,
                json_string(reply_bytes(reply)),
            ) {
                Ok(text) => parsed_result(
                    parsed_hash(text),
                    "Hash"@,
                    RpcRequest::GetGenesisHash,
                ),
                Err(e) => Err(e),
            },
    {
        match self.send(RpcRequest::GetGenesisHash, reply, parse_string) {
            Ok(text) => parsed_reply(
                hash_from_str(text.as_str()),
                "Hash",
                RpcRequest::GetGenesisHash,
            ),
            Err(e) => Err(e),
        }
    }

    /// The latest blockhash, at the client's commitment.
    pub fn get_latest_blockhash(&self) -> (r: RpcCall)
        ensures
            r@ == commitment_call(RpcRequest::GetLatestBlockhash, self.spec_commitment()),
    {
        self.get_latest_blockhash_with_commitment(self.commitment())
    }

    /// The latest blockhash and the last block height at which it is valid, at `commitment`.
    pub fn get_latest_blockhash_with_commitment(&self, commitment: CommitmentConfig) -> (r: RpcCall)
        ensures
            r@ == commitment_call(RpcRequest::GetLatestBlockhash, commitment),
    {
        RpcCall::with1(RpcRequest::GetLatestBlockhash, Param::Commitment(commitment))
    }

    /// The reply to
    /// [`get_latest_blockhash_with_commitment`](Self::get_latest_blockhash_with_commitment).
    pub fn get_latest_blockhash_with_commitment_reply(&self, reply: HostReply) -> (r: ClientResult<
        (Blockhash, u64),
    >)
        ensures
            client_view(r) == sent_blockhash(self.spec_tx_debug(), reply),
    {
        match self.send(RpcRequest::GetLatestBlockhash, reply, parse_blockhash) {
            Ok((text, height)) => match parsed_reply(
                hash_from_str(text.as_str()),
                "Hash",
                RpcRequest::GetLatestBlockhash,
            ) {
                Ok(blockhash) => Ok((blockhash, height)),
                Err(e) => Err(e),
            },
            Err(e) => Err(e),
        }
    }

    /// The reply to [`get_latest_blockhash`](Self::get_latest_blockhash).
    pub fn get_latest_blockhash_reply(&self, reply: HostReply) -> (r: ClientResult<Blockhash>)
        ensures
            client_view(r) == match sent_blockhash(self.spec_tx_debug(), reply) {
                Ok((blockhash, _)) => Ok::<Blockhash, ErrorView>(blockhash),
                Err(e) => Err(e),
            },
    {
        match self.get_latest_blockhash_with_commitment_reply(reply) {
            Ok((blockhash, _)) => Ok(blockhash),
            Err(e) => Err(e),
        }
    }

    /// Whether a blockhash is still recent, at `commitment`.
    pub fn is_blockhash_valid(&self, blockhash: &Blockhash, commitment: CommitmentConfig) -> (r:
        RpcCall)
        ensures
            r@ == call_with(
                RpcRequest::IsBlockhashValid,
                seq![
                    ParamView::Text(hash_text(*blockhash)),
                    ParamView::Commitment(commitment),
                ],
            ),
    {
        RpcCall::with2(
            RpcRequest::IsBlockhashValid,
            Param::Text(hash_to_string(blockhash)),
            Param::Commitment(commitment),
        )
    }

    /// The reply to [`is_blockhash_valid`](Self::is_blockhash_valid).
    pub fn is_blockhash_valid_reply(&self, reply: HostReply) -> (r: ClientResult<bool>)
        ensures
            client_view(r) == value_of(
                sent(
                    self.spec_tx_debug(),
                    RpcRequest::IsBlockhashValid,
                    reply,
                    json_bool_response(reply_bytes(reply)),
                ),
            ),
    {
        Response::unwrap_value(
            self.send(RpcRequest::IsBlockhashValid, reply, parse_bool_response),
        )
    }
}

// ---------------------------------------------------------------------------------------------
// Laws
// ---------------------------------------------------------------------------------------------

/// A request for blocks at a commitment never sends `null`.
pub proof fn blocks_call_sends_no_null(
    start_slot: u64,
    end_slot: Option<u64>,
    commitment: CommitmentConfig,
)
    ensures
        blocks_call(start_slot, end_slot, commitment).params matches Some(params) && forall|i: int|
            0 <= i < params.len() ==> !((#[trigger] params[i]) is OptionalNumber),
{
}

} // verus!
