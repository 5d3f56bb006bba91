//! What the client reads out of a node's replies.

use solana_account_decoder_client_types::token::UiTokenAccount;
use solana_rpc_client_types::response::{RpcResponseContext, TransactionError};
use std::collections::HashMap;
use vstd::prelude::*;

use crate::rpc_client::config::{CommitmentConfig, CommitmentLevel};
use crate::rpc_client::keys::Pubkey;

verus! {

/// A reply's value with the context in which the node answered.
#[derive(Debug)]
pub struct Response<T> {
    pub context: RpcResponseContext,
    pub value: T,
}

/// The slots that a report covers.
#[derive(Debug, Clone, Copy, PartialEq, Eq)]
pub struct RpcBlockProductionRange {
    pub first_slot: u64,
    pub last_slot: u64,
}

/// The blocks that validators were to produce and have produced.
#[derive(Debug)]
pub struct RpcBlockProduction {
    /// The leader slots and the produced blocks of each validator, by its base-58 identity.
    pub by_identity: HashMap<String, (usize, usize)>,
    pub range: RpcBlockProductionRange,
}

/// The blocks of validators, as a map.
pub ghost struct RpcBlockProductionView {
    pub by_identity: Map<Seq<char>, (usize, usize)>,
    pub range: RpcBlockProductionRange,
}

impl View for RpcBlockProduction {
    type V = RpcBlockProductionView;

    open spec fn view(&self) -> RpcBlockProductionView {
        RpcBlockProductionView { by_identity: self.by_identity.deep_view(), range: self.range }
    }
}

/// How far a transaction is confirmed.
#[derive(Debug, Clone, Copy, PartialEq, Eq, Structural)]
pub enum TransactionConfirmationStatus {
    Processed,
    Confirmed,
    Finalized,
}

/// The status of a transaction that the node has seen.
#[derive(Debug)]
pub struct TransactionStatus {
    pub slot: u64,
    /// `None` once the transaction is rooted.
    pub confirmations: Option<usize>,
    pub status: Result<(), TransactionError>,
    pub err: Option<TransactionError>,
    pub confirmation_status: Option<TransactionConfirmationStatus>,
}

impl TransactionStatus {
    /// Whether the transaction has reached a commitment. A node that reports no confirmation
    /// status is judged by its count of confirmations: more than one is `Confirmed`.
    pub open spec fn spec_satisfies_commitment(self, commitment_config: CommitmentConfig) -> bool {
        match commitment_config.commitment {
            CommitmentLevel::Finalized => self.confirmations is None,
            CommitmentLevel::Confirmed => match self.confirmation_status {
                Some(status) => status != TransactionConfirmationStatus::Processed,
                None => match self.confirmations {
                    Some(n) => n > 1,
                    None => true,
                },
            },
            CommitmentLevel::Processed => true,
        }
    }

    /// Whether the transaction has reached `commitment_config`.
    pub fn satisfies_commitment(&self, commitment_config: CommitmentConfig) -> (r: bool)
        ensures
            r == self.spec_satisfies_commitment(commitment_config),
    {
        match commitment_config.commitment {
            CommitmentLevel::Finalized => self.confirmations.is_none(),
            CommitmentLevel::Confirmed => match self.confirmation_status {
                Some(status) => status != TransactionConfirmationStatus::Processed,
                None => match self.confirmations {
                    Some(n) => n > 1,
                    None => true,
                },
            },
            CommitmentLevel::Processed => true,
        }
    }
}

/// A decoded account.
#[derive(Debug, Clone, PartialEq, Eq)]
pub struct Account {
    pub lamports: u64,
    pub data: Vec<u8>,
    pub owner: Pubkey,
    pub executable: bool,
    pub rent_epoch: u64,
}

/// A decoded account, its data as a sequence of bytes.
pub ghost struct AccountView {
    pub lamports: u64,
    pub data: Seq<u8>,
    pub owner: Pubkey,
    pub executable: bool,
    pub rent_epoch: u64,
}

impl View for Account {
    type V = AccountView;

    open spec fn view(&self) -> AccountView {
        AccountView {
            lamports: self.lamports,
            data: self.data@,
            owner: self.owner,
            executable: self.executable,
            rent_epoch: self.rent_epoch,
        }
    }
}

/// What the token program says an account is.
#[derive(Debug)]
pub enum TokenAccountType {
    Account(UiTokenAccount),
    Mint,
    Multisig,
}

/// The value of a reply, without its context.
pub open spec fn value_of<T, E>(r: Result<Response<T>, E>) -> Result<T, E> {
    match r {
        Ok(reply) => Ok(reply.value),
        Err(e) => Err(e),
    }
}

impl<T> Response<T> {
    /// The value of a reply, without its context.
    pub fn unwrap_value<E>(r: Result<Response<T>, E>) -> (value: Result<T, E>)
        ensures
            value == value_of(r),
    {
        match r {
            Ok(Response { context: _, value }) => Ok(value),
            Err(e) => Err(e),
        }
    }
}

/// The values of a list of results, or the error of the first that is one.
pub open spec fn collected<T, E>(results: Seq<Result<T, E>>) -> Result<Seq<T>, E>
    decreases results.len(),
{
    if results.len() == 0 {
        Ok(Seq::empty())
    } else {
        match collected(results.drop_last()) {
            Err(e) => Err(e),
            Ok(values) => match results.last() {
                Ok(v) => Ok(values.push(v)),
                Err(e) => Err(e),
            },
        }
    }
}

/// Collecting succeeds just where every result is a success, and then keeps their number, their
/// order and their values.
pub proof fn collected_ok<T, E>(results: Seq<Result<T, E>>)
    ensures
        collected(results) is Ok <==> forall|i: int|
            0 <= i < results.len() ==> (#[trigger] results[i]) is Ok,
        collected(results) matches Ok(values) ==> {
            &&& values.len() == results.len()
            &&& forall|i: int|
                0 <= i < results.len() ==> results[i] == Ok::<T, E>(#[trigger] values[i])
        },
    decreases results.len(),
{
    if results.len() > 0 {
        let front = results.drop_last();
        collected_ok(front);
        assert(forall|i: int| 0 <= i < front.len() ==> front[i] == results[i]);
        if collected(front) is Err {
            let i = choose|i: int| 0 <= i < front.len() && (#[trigger] front[i]) is Err;
            assert(results[i] is Err);
        } else {
            assert(results.last() == results[results.len() - 1]);
        }
    }
}

/// Collecting fails with the first error: nothing after it matters.
pub proof fn collected_first_error<T, E>(results: Seq<Result<T, E>>, k: int)
    requires
        0 <= k < results.len(),
        results[k] is Err,
        forall|i: int| 0 <= i < k ==> (#[trigger] results[i]) is Ok,
    ensures
        collected(results) == Err::<Seq<T>, E>(results[k]->Err_0),
    decreases results.len(),
{
    let front = results.drop_last();
    assert(forall|i: int| 0 <= i < front.len() ==> front[i] == results[i]);
    if k < front.len() {
        collected_first_error(front, k);
    } else {
        collected_ok(front);
    }
}

impl TransactionStatus {
    /// What has reached a commitment has reached the weaker ones, but for a node that calls a rooted
    /// transaction merely processed.
    pub proof fn stronger_commitment_implies_weaker(self)
        requires
            self.confirmations is None ==> self.confirmation_status != Some(
                TransactionConfirmationStatus::Processed,
            ),
        ensures
            self.spec_satisfies_commitment(
                CommitmentConfig { commitment: CommitmentLevel::Finalized },
            ) ==> self.spec_satisfies_commitment(
                CommitmentConfig { commitment: CommitmentLevel::Confirmed },
            ),
            self.spec_satisfies_commitment(
                CommitmentConfig { commitment: CommitmentLevel::Processed },
            ),
    {
    }
}

} // verus!
