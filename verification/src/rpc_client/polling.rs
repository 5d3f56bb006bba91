//! Waiting for signatures, blockhashes, balances and stakes.
//!
//! Each wait says which request to make next and, given its result and the time that has passed,
//! whether the wait is over. Nothing here reads a clock or sleeps: elapsed times come in and pauses
//! go out.

use solana_rpc_client_types::response::{RpcVoteAccountStatus, TransactionError};
use vstd::prelude::*;
use vstd::string::*;

use crate::bindings::replies::{activated_stakes, vote_account_stakes};
use crate::bindings::{hash_text, hash_to_string};
use crate::rpc_client::accounts::pubkey_call;
use crate::rpc_client::client::{RpcClient, RpcResult};
use crate::rpc_client::cluster::{all_vote_accounts, commitment_call, vote_accounts_call};
use crate::rpc_client::config::CommitmentConfig;
use crate::rpc_client::error::{
    custom, custom_error, for_user, for_user_error, ClientResult, Error, ErrorView,
};
use crate::rpc_client::keys::{Blockhash, Pubkey, Signature};
use crate::rpc_client::request::{RpcCall, RpcRequest};
use crate::rpc_client::response::Response;
use crate::rpc_client::transactions::signature_statuses_call;
use crate::text::{joined, decimal, decimal_text};

verus! {

/// What follows from the result of a request.
#[derive(Debug)]
pub enum Wait<T> {
    /// Let so many milliseconds pass, then make the next request.
    Sleep(u64),
    /// The wait is over.
    Done(ClientResult<T>),
}

/// What follows from the result of a request, errors by their content.
pub ghost enum WaitView<T> {
    Sleep(u64),
    Done(Result<T, ErrorView>),
}

impl<T> View for Wait<T> {
    type V = WaitView<T>;

    open spec fn view(&self) -> WaitView<T> {
        match *self {
            Wait::Sleep(ms) => WaitView::Sleep(ms),
            Wait::Done(Ok(v)) => WaitView::Done(Ok(v)),
            Wait::Done(Err(e)) => WaitView::Done(Err(e@)),
        }
    }
}

// ---------------------------------------------------------------------------------------------
// A signature
// ---------------------------------------------------------------------------------------------

/// Milliseconds between two questions about a signature.
pub const SIGNATURE_POLL_MS: u64 = 250;

/// Whole seconds after which a signature without a status is given up.
pub const SIGNATURE_TIMEOUT_SECS: u64 = 15;

/// Whole seconds without a new confirmation after which a signature is given up.
pub const CONFIRMATION_TIMEOUT_SECS: u64 = 20;

/// The error of a signature that was not seen in time.
pub open spec fn signature_not_found(secs: nat) -> ErrorView {
    for_user("signature not found after "@ + decimal(secs) + " seconds"@)
}

fn signature_not_found_error(secs: u128) -> (r: Error)
    ensures
        r@ == signature_not_found(secs as nat),
{
    let mut message = joined("signature not found after ", decimal_text(secs).as_str());
    message.append(" seconds");
    for_user_error(message)
}

/// A wait for a signature to have any status, good or bad.
#[derive(Debug, Clone, Copy, PartialEq, Eq)]
pub struct SignatureWait {
    pub signature: Signature,
    pub commitment_config: CommitmentConfig,
}

impl SignatureWait {
    /// The next request; its reply is read with
    /// [`RpcClient::get_signature_status_with_commitment_reply`].
    pub fn request(&self, client: &RpcClient) -> (r: RpcCall)
        ensures
            r@ == signature_statuses_call(seq![self.signature], None),
    {
        client.get_signature_status_with_commitment(&self.signature, self.commitment_config)
    }

    /// What follows from a status, `elapsed_secs` whole seconds after the start. A failed request
    /// counts as no status.
    pub fn step(
        &self,
        status: ClientResult<Option<Result<(), TransactionError>>>,
        elapsed_secs: u64,
    ) -> (r: Wait<()>)
        ensures
            r@ == if status matches Ok(Some(_)) {
                WaitView::Done(Ok::<(), ErrorView>(()))
            } else if elapsed_secs >= SIGNATURE_TIMEOUT_SECS {
                WaitView::Done(Err(signature_not_found(elapsed_secs as nat)))
            } else {
                WaitView::Sleep(SIGNATURE_POLL_MS)
            },
    {
        if let Ok(Some(_)) = status {
            return Wait::Done(Ok(()));
        }
        if elapsed_secs >= SIGNATURE_TIMEOUT_SECS {
            return Wait::Done(Err(signature_not_found_error(elapsed_secs as u128)));
        }
        Wait::Sleep(SIGNATURE_POLL_MS)
    }
}

/// A wait for a signature to have so many confirmations. The clock of its timeout starts again at
/// every change of their number.
#[derive(Debug, Clone, Copy, PartialEq, Eq)]
pub struct ConfirmationWait {
    pub signature: Signature,
    pub min_confirmed_blocks: usize,
    /// The confirmations that the node last reported.
    pub confirmed_blocks: usize,
    /// When their number last changed, in nanoseconds since the start.
    pub since_nanos: u128,
    /// Whether the node has reported the signature, with any number of confirmations.
    pub seen: bool,
}

/// Nanoseconds in a second.
pub const NANOS_PER_SEC: u128 = 1_000_000_000;

/// Whole seconds from one time in nanoseconds to a later one; none where the later is earlier.
pub open spec fn secs_between(from_nanos: u128, to_nanos: u128) -> int {
    if to_nanos >= from_nanos {
        (to_nanos - from_nanos) / (NANOS_PER_SEC as int)
    } else {
        0
    }
}

impl ConfirmationWait {
    /// The wait after a reply that came in at `now_nanos`.
    pub open spec fn after(self, count: Result<usize, Error>, now_nanos: u128) -> ConfirmationWait {
        match count {
            Ok(count) => ConfirmationWait {
                confirmed_blocks: count,
                since_nanos: if count != self.confirmed_blocks {
                    now_nanos
                } else {
                    self.since_nanos
                },
                seen: true,
                ..self
            },
            Err(_) => self,
        }
    }

    /// What follows from a reply that came in at `now_nanos`.
    pub open spec fn spec_step(self, count: Result<usize, Error>, now_nanos: u128) -> WaitView<usize> {
        let next = self.after(count, now_nanos);
        let secs = secs_between(next.since_nanos, now_nanos);
        if count is Ok && count->Ok_0 >= self.min_confirmed_blocks {
            WaitView::Done(Ok(count->Ok_0))
        } else if secs >= CONFIRMATION_TIMEOUT_SECS {
            if next.seen {
                WaitView::Done(Ok(next.confirmed_blocks))
            } else {
                WaitView::Done(Err(signature_not_found(secs as nat)))
            }
        } else {
            WaitView::Sleep(SIGNATURE_POLL_MS)
        }
    }

    /// The next request; its reply is read with
    /// [`RpcClient::get_num_blocks_since_signature_confirmation_reply`].
    pub fn request(&self, client: &RpcClient) -> (r: RpcCall)
        ensures
            r@ == signature_statuses_call(seq![self.signature], None),
    {
        client.get_num_blocks_since_signature_confirmation(&self.signature)
    }

    /// What follows from a reply that came in `now_nanos` nanoseconds after the start. A failed
    /// request changes nothing. A wait that times out ends with the confirmations that there are, be
    /// it none yet; it fails only where the node never reported the signature.
    pub fn step(&mut self, count: ClientResult<usize>, now_nanos: u128) -> (r: Wait<usize>)
        ensures
            *final(self) == old(self).after(count, now_nanos),
            r@ == old(self).spec_step(count, now_nanos),
    {
        if let Ok(count) = count {
            self.seen = true;
            if self.confirmed_blocks != count {
                self.since_nanos = now_nanos;
                self.confirmed_blocks = count;
            }
            if count >= self.min_confirmed_blocks {
                return Wait::Done(Ok(count));
            }
        }
        let secs: u128 = if now_nanos >= self.since_nanos {
            (now_nanos - self.since_nanos) / NANOS_PER_SEC
        } else {
            0
        };
        if secs >= CONFIRMATION_TIMEOUT_SECS as u128 {
            if self.seen {
                return Wait::Done(Ok(self.confirmed_blocks));
            }
            return Wait::Done(Err(signature_not_found_error(secs)));
        }
        Wait::Sleep(SIGNATURE_POLL_MS)
    }
}

impl RpcClient {
    /// A wait for a signature to have any status at the client's commitment.
    pub fn poll_for_signature(&self, signature: &Signature) -> (r: SignatureWait)
        ensures
            r == (SignatureWait {
                signature: *signature,
                commitment_config: self.spec_commitment(),
            }),
    {
        self.poll_for_signature_with_commitment(signature, self.commitment())
    }

    /// A wait for a signature to have any status at `commitment_config`.
    pub fn poll_for_signature_with_commitment(
        &self,
        signature: &Signature,
        commitment_config: CommitmentConfig,
    ) -> (r: SignatureWait)
        ensures
            r == (SignatureWait { signature: *signature, commitment_config }),
    {
        SignatureWait { signature: *signature, commitment_config }
    }

    /// A wait for a signature to have `min_confirmed_blocks` confirmations.
    pub fn poll_for_signature_confirmation(
        &self,
        signature: &Signature,
        min_confirmed_blocks: usize,
    ) -> (r: ConfirmationWait)
        ensures
            r == (ConfirmationWait {
                signature: *signature,
                min_confirmed_blocks,
                confirmed_blocks: 0,
                since_nanos: 0,
                seen: false,
            }),
    {
        ConfirmationWait {
            signature: *signature,
            min_confirmed_blocks,
            confirmed_blocks: 0,
            since_nanos: 0,
            seen: false,
        }
    }
}

// ---------------------------------------------------------------------------------------------
// A new blockhash
// ---------------------------------------------------------------------------------------------

/// Milliseconds of a slot.
pub const DEFAULT_MS_PER_SLOT: u64 = 400;

/// Milliseconds between two questions about the latest blockhash: about twice a slot.
pub const BLOCKHASH_POLL_MS: u64 = DEFAULT_MS_PER_SLOT / 2;

/// Milliseconds after which a blockhash that does not change is given up.
pub const BLOCKHASH_TIMEOUT_MS: u128 = 5_000;

/// A wait for a blockhash other than a given one.
#[derive(Debug, Clone, Copy, PartialEq, Eq)]
pub struct BlockhashWait {
    pub blockhash: Blockhash,
    /// Requests that did not bring another blockhash.
    pub num_retries: u64,
}

/// The error of a blockhash that did not change in time.
pub open spec fn stuck_blockhash(elapsed_ms: nat, num_retries: nat, blockhash: Blockhash) -> ErrorView {
    for_user(
        "Unable to get new blockhash after "@ + decimal(elapsed_ms) + "ms (retried "@ + decimal(
            num_retries,
        ) + " times), stuck at "@ + hash_text(blockhash),
    )
}

impl BlockhashWait {
    /// The next request, `elapsed_ms` milliseconds after the start, or the error with which the wait
    /// is over. The reply is read with [`RpcClient::get_latest_blockhash_reply`].
    pub fn request(&self, client: &RpcClient, elapsed_ms: u128) -> (r: ClientResult<RpcCall>)
        ensures
            if elapsed_ms < BLOCKHASH_TIMEOUT_MS {
                r matches Ok(call) && call@ == commitment_call(
                    RpcRequest::GetLatestBlockhash,
                    client.spec_commitment(),
                )
            } else {
                r matches Err(e) && e@ == stuck_blockhash(
                    elapsed_ms as nat,
                    self.num_retries as nat,
                    self.blockhash,
                )
            },
    {
        if elapsed_ms < BLOCKHASH_TIMEOUT_MS {
            return Ok(client.get_latest_blockhash());
        }
        let mut message = joined(
            "Unable to get new blockhash after ",
            decimal_text(elapsed_ms).as_str(),
        );
        message.append("ms (retried ");
        message.append(decimal_text(self.num_retries as u128).as_str());
        message.append(" times), stuck at ");
        message.append(hash_to_string(&self.blockhash).as_str());
        Err(for_user_error(message))
    }

    /// What follows from a reply: the wait is over where it brings another blockhash, and never with
    /// an error.
    pub fn step(&mut self, latest: ClientResult<Blockhash>) -> (r: Wait<Blockhash>)
        requires
            old(self).num_retries < u64::MAX,
        ensures
            final(self).blockhash == old(self).blockhash,
            if latest is Ok && latest->Ok_0 != old(self).blockhash {
                &&& r@ == WaitView::Done(Ok::<Blockhash, ErrorView>(latest->Ok_0))
                &&& final(self).num_retries == old(self).num_retries
            } else {
                &&& r@ == WaitView::<Blockhash>::Sleep(BLOCKHASH_POLL_MS)
                &&& final(self).num_retries == old(self).num_retries + 1
            },
    {
        if let Ok(latest) = latest {
            if !latest.same(&self.blockhash) {
                return Wait::Done(Ok(latest));
            }
        }
        self.num_retries = self.num_retries + 1;
        Wait::Sleep(BLOCKHASH_POLL_MS)
    }
}

impl RpcClient {
    /// A wait for a blockhash other than `blockhash`, at the client's commitment.
    pub fn get_new_latest_blockhash(&self, blockhash: &Blockhash) -> (r: BlockhashWait)
        ensures
            r == (BlockhashWait { blockhash: *blockhash, num_retries: 0 }),
    {
        BlockhashWait { blockhash: *blockhash, num_retries: 0 }
    }
}

// ---------------------------------------------------------------------------------------------
// A balance
// ---------------------------------------------------------------------------------------------

/// Milliseconds between two reads of a balance.
pub const BALANCE_POLL_MS: u64 = 100;

/// Milliseconds after which a balance that cannot be read is given up.
pub const BALANCE_TIMEOUT_MS: u64 = 1_000;

/// Failed reads after which an expected balance is given up.
pub const MAX_FAILED_READS: u32 = 30;

/// What follows from a read of a balance.
#[derive(Debug)]
pub enum BalanceRead {
    /// The balance.
    Done(u64),
    /// The read failed: let so many milliseconds pass, then see [`BalancePoll::after_pause`].
    Pause(u64, Error),
}

/// A wait for a balance to be readable.
#[derive(Debug, Clone, Copy, PartialEq, Eq)]
pub struct BalancePoll {
    pub pubkey: Pubkey,
    pub polling_frequency_ms: u64,
    pub timeout_nanos: u128,
    pub commitment_config: CommitmentConfig,
}

impl BalancePoll {
    /// The next request; its reply is read with
    /// [`RpcClient::get_balance_with_commitment_reply`].
    pub fn request(&self, client: &RpcClient) -> (r: RpcCall)
        ensures
            r@ == pubkey_call(RpcRequest::GetBalance, self.pubkey, self.commitment_config),
    {
        client.get_balance_with_commitment(&self.pubkey, self.commitment_config)
    }

    /// What follows from a read: the first that succeeds ends the wait.
    pub fn step(&self, read: RpcResult<u64>) -> (r: BalanceRead)
        ensures
            r == match read {
                Ok(balance) => BalanceRead::Done(balance.value),
                Err(e) => BalanceRead::Pause(self.polling_frequency_ms, e),
            },
    {
        match read {
            Ok(Response { context: _, value }) => BalanceRead::Done(value),
            Err(e) => BalanceRead::Pause(self.polling_frequency_ms, e),
        }
    }

    /// What follows from a failed read once the pause after it is over, `elapsed_nanos` nanoseconds
    /// after the start: its error where the wait is over, nothing where the balance is to be read
    /// again.
    pub fn after_pause(&self, err: Error, elapsed_nanos: u128) -> (r: Option<Error>)
        ensures
            r == if elapsed_nanos > self.timeout_nanos {
                Some(err)
            } else {
                None
            },
    {
        if elapsed_nanos > self.timeout_nanos {
            Some(err)
        } else {
            None
        }
    }
}

/// A wait for a balance to be a given one, or for any balance.
#[derive(Debug, Clone, Copy, PartialEq, Eq)]
pub struct BalanceWait {
    pub pubkey: Pubkey,
    pub expected_balance: Option<u64>,
    pub commitment_config: CommitmentConfig,
    /// Reads that have failed.
    pub failed_reads: u32,
}

impl BalanceWait {
    /// Whether a balance is what is waited for.
    pub open spec fn expects(self, balance: u64) -> bool {
        match self.expected_balance {
            Some(expected) => balance == expected,
            None => true,
        }
    }

    /// What follows from a read.
    pub open spec fn spec_step(self, balance: ClientResult<u64>) -> Option<ClientResult<u64>> {
        match balance {
            Ok(balance) => if self.expects(balance) {
                Some(Ok(balance))
            } else {
                None
            },
            Err(e) => if self.failed_reads + 1 >= MAX_FAILED_READS {
                Some(Err(e))
            } else {
                None
            },
        }
    }

    /// The wait after a read that did not end it.
    pub open spec fn spec_next(self, balance: ClientResult<u64>) -> BalanceWait {
        match balance {
            Ok(_) => self,
            Err(_) => BalanceWait { failed_reads: (self.failed_reads + 1) as u32, ..self },
        }
    }

    /// The read that comes next.
    pub fn poll(&self, client: &RpcClient) -> (r: BalancePoll)
        ensures
            r == (BalancePoll {
                pubkey: self.pubkey,
                polling_frequency_ms: BALANCE_POLL_MS,
                timeout_nanos: (BALANCE_TIMEOUT_MS * 1_000_000) as u128,
                commitment_config: self.commitment_config,
            }),
    {
        client.poll_get_balance_with_commitment(&self.pubkey, self.commitment_config)
    }

    /// What follows from a read: the result where the wait is over. The expected balance ends it, or
    /// any balance where none is expected; so does the last failed read.
    pub fn step(&mut self, balance: ClientResult<u64>) -> (r: Option<ClientResult<u64>>)
        ensures
            r == old(self).spec_step(balance),
            r is None ==> *final(self) == old(self).spec_next(balance),
            r is Some ==> *final(self) == *old(self),
    {
        match balance {
            Ok(balance) => {
                let expected = match self.expected_balance {
                    Some(expected) => balance == expected,
                    None => true,
                };
                if expected {
                    Some(Ok(balance))
                } else {
                    None
                }
            },
            Err(e) => if self.failed_reads >= MAX_FAILED_READS - 1 {
                Some(Err(e))
            } else {
                self.failed_reads = self.failed_reads + 1;
                None
            },
        }
    }
}

impl RpcClient {
    /// A wait for a balance to be readable, with a pause after each failed read. It is given up once
    /// the timeout has passed.
    pub fn poll_balance_with_timeout_and_commitment(
        &self,
        pubkey: &Pubkey,
        polling_frequency_ms: u64,
        timeout_nanos: u128,
        commitment_config: CommitmentConfig,
    ) -> (r: BalancePoll)
        ensures
            r == (BalancePoll {
                pubkey: *pubkey,
                polling_frequency_ms,
                timeout_nanos,
                commitment_config,
            }),
    {
        BalancePoll { pubkey: *pubkey, polling_frequency_ms, timeout_nanos, commitment_config }
    }

    /// A wait for a balance to be readable: every 100 ms for up to a second.
    pub fn poll_get_balance_with_commitment(
        &self,
        pubkey: &Pubkey,
        commitment_config: CommitmentConfig,
    ) -> (r: BalancePoll)
        ensures
            r == (BalancePoll {
                pubkey: *pubkey,
                polling_frequency_ms: BALANCE_POLL_MS,
                timeout_nanos: (BALANCE_TIMEOUT_MS * 1_000_000) as u128,
                commitment_config,
            }),
    {
        self.poll_balance_with_timeout_and_commitment(
            pubkey,
            BALANCE_POLL_MS,
            BALANCE_TIMEOUT_MS as u128 * 1_000_000,
            commitment_config,
        )
    }

    /// A wait for a balance to be `expected_balance`, or for any balance.
    pub fn wait_for_balance_with_commitment(
        &self,
        pubkey: &Pubkey,
        expected_balance: Option<u64>,
        commitment_config: CommitmentConfig,
    ) -> (r: BalanceWait)
        ensures
            r == (BalanceWait {
                pubkey: *pubkey,
                expected_balance,
                commitment_config,
                failed_reads: 0,
            }),
    {
        BalanceWait { pubkey: *pubkey, expected_balance, commitment_config, failed_reads: 0 }
    }
}

// ---------------------------------------------------------------------------------------------
// Stake
// ---------------------------------------------------------------------------------------------

/// Milliseconds between two looks at the stakes.
pub const STAKE_POLL_MS: u64 = 5_000;

/// The sum of a list of stakes.
pub open spec fn total_stake(stakes: Seq<u64>) -> nat
    decreases stakes.len(),
{
    if stakes.len() == 0 {
        0
    } else {
        total_stake(stakes.drop_last()) + stakes.last() as nat
    }
}

/// The largest of a list of stakes; 0 where there is none.
pub open spec fn max_stake(stakes: Seq<u64>) -> u64
    decreases stakes.len(),
{
    if stakes.len() == 0 {
        0
    } else if stakes.last() > max_stake(stakes.drop_last()) {
        stakes.last()
    } else {
        max_stake(stakes.drop_last())
    }
}

/// No stake is larger than the largest one, which is one of them.
pub proof fn max_stake_is_largest(stakes: Seq<u64>)
    ensures
        forall|i: int| 0 <= i < stakes.len() ==> #[trigger] stakes[i] <= max_stake(stakes),
        stakes.len() > 0 ==> stakes.contains(max_stake(stakes)),
        max_stake(stakes) <= total_stake(stakes),
    decreases stakes.len(),
{
    if stakes.len() > 0 {
        let front = stakes.drop_last();
        max_stake_is_largest(front);
        assert forall|i: int| 0 <= i < stakes.len() implies #[trigger] stakes[i] <= max_stake(
            stakes,
        ) by {
            if i < front.len() {
                assert(front[i] == stakes[i]);
            }
        }
        if stakes.last() > max_stake(front) || front.len() == 0 {
            assert(stakes[stakes.len() - 1] == max_stake(stakes));
        } else {
            let i = choose|i: int| 0 <= i < front.len() && front[i] == max_stake(front);
            assert(stakes[i] == max_stake(stakes));
        }
    }
}

proof fn total_stake_grows(stakes: Seq<u64>, n: int)
    requires
        0 <= n <= stakes.len(),
    ensures
        total_stake(stakes.take(n)) <= total_stake(stakes),
    decreases stakes.len() - n,
{
    if n < stakes.len() {
        total_stake_grows(stakes, n + 1);
        assert(stakes.take(n + 1).drop_last() =~= stakes.take(n));
    } else {
        assert(stakes.take(n) =~= stakes);
    }
}

/// The largest and the total of the stakes of current and delinquent vote accounts. `None` where
/// the total is no 64-bit number.
pub fn max_and_total_stake(current: &Vec<u64>, delinquent: &Vec<u64>) -> (r: Option<(u64, u64)>)
    ensures
        r == if total_stake(current@ + delinquent@) <= u64::MAX {
            Some((max_stake(current@ + delinquent@), total_stake(current@ + delinquent@) as u64))
        } else {
            None
        },
{
    let ghost stakes = current@ + delinquent@;
    let mut max: u64 = 0;
    let mut total: u64 = 0;
    let mut i: usize = 0;
    while i < current.len()
        invariant
            stakes == current@ + delinquent@,
            i <= current@.len(),
            max == max_stake(stakes.take(i as int)),
            total == total_stake(stakes.take(i as int)),
        decreases current@.len() - i,
    {
        let stake: u64 = current[i];
        proof {
            assert(stakes.take(i + 1).drop_last() =~= stakes.take(i as int));
            assert(stakes.take(i + 1).last() == stake);
            total_stake_grows(stakes, i + 1);
        }
        if stake > max {
            max = stake;
        }
        match total.checked_add(stake) {
            Some(sum) => {
                total = sum;
            },
            None => return None,
        }
        i = i + 1;
    }
    let mut j: usize = 0;
    while j < delinquent.len()
        invariant
            stakes == current@ + delinquent@,
            j <= delinquent@.len(),
            max == max_stake(stakes.take(current@.len() + j)),
            total == total_stake(stakes.take(current@.len() + j)),
        decreases delinquent@.len() - j,
    {
        let stake: u64 = delinquent[j];
        let ghost n = current@.len() + j;
        proof {
            assert(stakes.take(n + 1).drop_last() =~= stakes.take(n));
            assert(stakes.take(n + 1).last() == stake);
            total_stake_grows(stakes, n + 1);
        }
        if stake > max {
            max = stake;
        }
        match total.checked_add(stake) {
            Some(sum) => {
                total = sum;
            },
            None => return None,
        }
        j = j + 1;
    }
    assert(stakes.take(stakes.len() as int) =~= stakes);
    Some((max, total))
}

/// The largest and the total of the stakes of vote accounts. `None` where the total is no 64-bit
/// number.
pub fn vote_account_max_and_total(accounts: &RpcVoteAccountStatus) -> (r: Option<(u64, u64)>)
    ensures
        ({
            let (current, delinquent) = activated_stakes(*accounts);
            let stakes = current + delinquent;
            r == if total_stake(stakes) <= u64::MAX {
                Some((max_stake(stakes), total_stake(stakes) as u64))
            } else {
                None
            }
        }),
{
    let (current, delinquent) = vote_account_stakes(accounts);
    max_and_total_stake(&current, &delinquent)
}

/// A wait for no validator to hold too large a share of the stake.
#[derive(Debug, Clone, Copy, PartialEq, Eq)]
pub struct StakeWait {
    pub commitment: CommitmentConfig,
    /// When the wait is given up; never where it is absent.
    pub timeout_nanos: Option<u128>,
}

impl StakeWait {
    /// The next request; its reply is read with [`RpcClient::get_vote_accounts_reply`].
    pub fn request(&self, client: &RpcClient) -> (r: RpcCall)
        ensures
            r@ == vote_accounts_call(all_vote_accounts(self.commitment)),
    {
        client.get_vote_accounts_with_commitment(self.commitment)
    }

    /// What follows from a look at the stakes, `elapsed_nanos` nanoseconds after the start, where
    /// the largest share is below the threshold or not.
    pub fn step(&self, below_threshold: bool, elapsed_nanos: u128) -> (r: Wait<()>)
        ensures
            r@ == if below_threshold {
                WaitView::Done(Ok::<(), ErrorView>(()))
            } else if self.timeout_nanos matches Some(timeout) && elapsed_nanos > timeout {
                WaitView::Done(Err(custom("timed out waiting for max stake to drop"@)))
            } else {
                WaitView::Sleep(STAKE_POLL_MS)
            },
    {
        if below_threshold {
            return Wait::Done(Ok(()));
        }
        if let Some(timeout) = self.timeout_nanos {
            if elapsed_nanos > timeout {
                return Wait::Done(
                    Err(custom_error("timed out waiting for max stake to drop".to_owned())),
                );
            }
        }
        Wait::Sleep(STAKE_POLL_MS)
    }
}

impl RpcClient {
    /// A wait without end for no validator to hold too large a share of the stake.
    pub fn wait_for_max_stake(&self, commitment: CommitmentConfig) -> (r: StakeWait)
        ensures
            r == (StakeWait { commitment, timeout_nanos: None }),
    {
        StakeWait { commitment, timeout_nanos: None }
    }

    /// The same wait, given up once `timeout_nanos` nanoseconds have passed.
    pub fn wait_for_max_stake_below_threshold_with_timeout(
        &self,
        commitment: CommitmentConfig,
        timeout_nanos: u128,
    ) -> (r: StakeWait)
        ensures
            r == (StakeWait { commitment, timeout_nanos: Some(timeout_nanos) }),
    {
        StakeWait { commitment, timeout_nanos: Some(timeout_nanos) }
    }
}

// ---------------------------------------------------------------------------------------------
// Laws
// ---------------------------------------------------------------------------------------------

/// A wait for confirmations ends with the number that the node last reported, it fails only where
/// the node has not reported the signature, and it is given up only after 20 seconds without a change
/// of that number.
pub proof fn confirmation_wait_keeps_progress(
    wait: ConfirmationWait,
    count: ClientResult<usize>,
    now_nanos: u128,
)
    ensures
        wait.spec_step(count, now_nanos) matches WaitView::Done(Err(_)) ==> count is Err
            && !wait.seen,
        wait.spec_step(count, now_nanos) matches WaitView::Done(Ok(n)) ==> n
            == wait.after(count, now_nanos).confirmed_blocks,
        wait.spec_step(count, now_nanos) is Done ==> count matches Ok(n) && n
            >= wait.min_confirmed_blocks || secs_between(
            wait.after(count, now_nanos).since_nanos,
            now_nanos,
        ) >= CONFIRMATION_TIMEOUT_SECS,
        count matches Ok(n) && n != wait.confirmed_blocks && n < wait.min_confirmed_blocks
            ==> wait.spec_step(count, now_nanos) is Sleep,
{
}

/// The confirmations in the last of a list of replies that is not a failure. Each reply comes with
/// the time at which it came in.
pub open spec fn last_count(replies: Seq<(ClientResult<usize>, u128)>) -> Option<usize>
    decreases replies.len(),
{
    if replies.len() == 0 {
        None
    } else {
        match replies.last().0 {
            Ok(count) => Some(count),
            Err(_) => last_count(replies.drop_last()),
        }
    }
}

/// A wait for confirmations after a list of replies, where it is not over.
pub open spec fn confirmation_wait_after(
    wait: ConfirmationWait,
    replies: Seq<(ClientResult<usize>, u128)>,
) -> Option<ConfirmationWait>
    decreases replies.len(),
{
    if replies.len() == 0 {
        Some(wait)
    } else {
        let (count, now_nanos) = replies.last();
        match confirmation_wait_after(wait, replies.drop_last()) {
            None => None,
            Some(at) => match at.spec_step(count, now_nanos) {
                WaitView::Done(_) => None,
                WaitView::Sleep(_) => Some(at.after(count, now_nanos)),
            },
        }
    }
}

/// The wait with which the confirmations of a signature are waited for.
pub open spec fn starting_wait(
    signature: Signature,
    min_confirmed_blocks: usize,
) -> ConfirmationWait {
    ConfirmationWait {
        signature,
        min_confirmed_blocks,
        confirmed_blocks: 0,
        since_nanos: 0,
        seen: false,
    }
}

proof fn wait_holds_last_count(
    signature: Signature,
    min_confirmed_blocks: usize,
    replies: Seq<(ClientResult<usize>, u128)>,
)
    ensures
        confirmation_wait_after(
            starting_wait(signature, min_confirmed_blocks),
            replies,
        ) matches Some(at) ==> {
            &&& at.min_confirmed_blocks == min_confirmed_blocks
            &&& at.seen <==> last_count(replies) is Some
            &&& last_count(replies) matches Some(count) ==> at.confirmed_blocks == count
        },
        last_count(replies) is None <==> forall|i: int|
            0 <= i < replies.len() ==> (#[trigger] replies[i]).0 is Err,
    decreases replies.len(),
{
    if replies.len() > 0 {
        let front = replies.drop_last();
        wait_holds_last_count(signature, min_confirmed_blocks, front);
        assert(replies.last() == replies[replies.len() - 1]);
        assert(forall|i: int| 0 <= i < front.len() ==> front[i] == replies[i]);
    }
}

/// Where the last of a list of replies ends a wait for confirmations, the wait fails just where no
/// reply, from the first on, reported the signature. Else it ends with the number of confirmations
/// that was last reported.
pub proof fn confirmation_wait_fails_only_unseen(
    signature: Signature,
    min_confirmed_blocks: usize,
    replies: Seq<(ClientResult<usize>, u128)>,
    at: ConfirmationWait,
    r: Result<usize, ErrorView>,
)
    requires
        replies.len() > 0,
        confirmation_wait_after(
            starting_wait(signature, min_confirmed_blocks),
            replies.drop_last(),
        ) == Some(at),
        at.spec_step(replies.last().0, replies.last().1) == WaitView::Done(r),
    ensures
        r is Err <==> forall|i: int| 0 <= i < replies.len() ==> (#[trigger] replies[i]).0 is Err,
        r matches Ok(count) ==> last_count(replies) == Some(count),
{
    let front = replies.drop_last();
    wait_holds_last_count(signature, min_confirmed_blocks, front);
    wait_holds_last_count(signature, min_confirmed_blocks, replies);
    assert(replies.last() == replies[replies.len() - 1]);
}

/// How many of a list of reads have failed.
pub open spec fn failures(reads: Seq<ClientResult<u64>>) -> nat
    decreases reads.len(),
{
    if reads.len() == 0 {
        0
    } else {
        failures(reads.drop_last()) + (if reads.last() is Err {
            1nat
        } else {
            0
        })
    }
}

/// A wait for a balance after a list of reads, where it is not over.
pub open spec fn balance_wait_after(wait: BalanceWait, reads: Seq<ClientResult<u64>>) -> Option<
    BalanceWait,
>
    decreases reads.len(),
{
    if reads.len() == 0 {
        Some(wait)
    } else {
        match balance_wait_after(wait, reads.drop_last()) {
            None => None,
            Some(at) => match at.spec_step(reads.last()) {
                Some(_) => None,
                None => Some(at.spec_next(reads.last())),
            },
        }
    }
}

/// A wait for a balance goes on just as long as no read has found what is waited for and fewer than
/// 30 reads have failed.
pub proof fn balance_wait_goes_on(
    pubkey: Pubkey,
    expected_balance: Option<u64>,
    commitment_config: CommitmentConfig,
    reads: Seq<ClientResult<u64>>,
)
    ensures
        ({
            let start = BalanceWait { pubkey, expected_balance, commitment_config, failed_reads: 0 };
            &&& balance_wait_after(start, reads) is Some <==> failures(reads) < MAX_FAILED_READS
                && forall|i: int|
                0 <= i < reads.len() ==> !((#[trigger] reads[i]) matches Ok(balance)
                    && start.expects(balance))
            &&& balance_wait_after(start, reads) matches Some(at) ==> at == (BalanceWait {
                failed_reads: failures(reads) as u32,
                ..start
            })
        }),
    decreases reads.len(),
{
    if reads.len() > 0 {
        let front = reads.drop_last();
        let start = BalanceWait { pubkey, expected_balance, commitment_config, failed_reads: 0 };
        balance_wait_goes_on(pubkey, expected_balance, commitment_config, front);
        assert(forall|i: int| 0 <= i < front.len() ==> front[i] == reads[i]);
        assert(reads.last() == reads[reads.len() - 1]);
        if balance_wait_after(start, front) is None && failures(front) < MAX_FAILED_READS {
            let i = choose|i: int|
                0 <= i < front.len() && ((#[trigger] front[i]) matches Ok(balance)
                    && start.expects(balance));
            assert(reads[i] == front[i]);
        }
    }
}

} // verus!
