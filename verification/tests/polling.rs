use solana_rpc_client_types::response::{
    RpcResponseContext, RpcVoteAccountStatus, TransactionError,
};

use zela_std::host::IoError;
use zela_std::rpc_client::client::RpcClient;
use zela_std::rpc_client::config::{CommitmentConfig, CommitmentLevel};
use zela_std::rpc_client::error::{ClientResult, Error, ErrorKind};
use zela_std::rpc_client::keys::{Blockhash, Pubkey, Signature};
use zela_std::rpc_client::polling::{
    max_and_total_stake, vote_account_max_and_total, BalancePoll, BalanceRead, BlockhashWait,
    StakeWait, Wait, BLOCKHASH_POLL_MS, DEFAULT_MS_PER_SLOT,
};
use zela_std::rpc_client::response::Response;

const KEY: Pubkey = Pubkey { bytes: [0; 32] };
const SIGNATURE: Signature = Signature { bytes: [3; 64] };
const OLD: Blockhash = Blockhash { bytes: [0; 32] };
const NEW: Blockhash = Blockhash { bytes: [2; 32] };
const PROCESSED: CommitmentConfig = CommitmentConfig { commitment: CommitmentLevel::Processed };
const SEC: u128 = 1_000_000_000;

fn client() -> RpcClient {
    RpcClient::new_with_commitment(CommitmentConfig { commitment: CommitmentLevel::Confirmed })
}

fn failure() -> Error {
    Error::from(IoError::Os(5))
}

fn done<T: std::fmt::Debug>(wait: Wait<T>) -> ClientResult<T> {
    match wait {
        Wait::Done(r) => r,
        other => panic!("{other:?}"),
    }
}

#[test]
fn a_signature_is_waited_for() {
    let c = client();
    let wait = c.poll_for_signature(&SIGNATURE);
    assert_eq!(wait.commitment_config, c.commitment());
    let wait = c.poll_for_signature_with_commitment(&SIGNATURE, PROCESSED);
    assert_eq!(wait.commitment_config, PROCESSED);
    assert_eq!(wait.request(&c), c.get_signature_status(&SIGNATURE));
    assert!(done(wait.step(Ok(Some(Ok(()))), 0)).is_ok());
    assert!(done(wait.step(Ok(Some(Err(TransactionError::AccountInUse))), 99)).is_ok());
    assert!(matches!(wait.step(Ok(None), 0), Wait::Sleep(250)));
    assert!(matches!(wait.step(Ok(None), 14), Wait::Sleep(250)));
    assert!(matches!(wait.step(Err(failure()), 14), Wait::Sleep(250)));
    let err = done(wait.step(Ok(None), 15)).unwrap_err();
    assert_eq!(err.to_text(), "signature not found after 15 seconds");
    assert!(done(wait.step(Err(failure()), 15)).is_err());
    assert!(done(wait.step(Ok(Some(Ok(()))), 15)).is_ok());
}

#[test]
fn confirmations_are_waited_for() {
    let c = client();
    let mut wait = c.poll_for_signature_confirmation(&SIGNATURE, 5);
    assert_eq!(wait.request(&c), c.get_num_blocks_since_signature_confirmation(&SIGNATURE));
    assert!(matches!(wait.step(Err(failure()), SEC), Wait::Sleep(250)));
    assert!(matches!(wait.step(Ok(2), 20 * SEC), Wait::Sleep(250)));
    assert_eq!((wait.confirmed_blocks, wait.since_nanos), (2, 20 * SEC));
    assert!(matches!(wait.step(Ok(2), 40 * SEC - 1), Wait::Sleep(250)));
    assert_eq!(wait.since_nanos, 20 * SEC);
    assert_eq!(done(wait.step(Ok(5), 90 * SEC)).unwrap(), 5);
    assert_eq!(done(wait.step(Ok(9), 90 * SEC)).unwrap(), 9);
}

#[test]
fn partial_confirmations_are_kept_on_timeout() {
    let mut wait = client().poll_for_signature_confirmation(&SIGNATURE, 5);
    assert!(matches!(wait.step(Ok(2), SEC), Wait::Sleep(250)));
    assert!(matches!(wait.step(Ok(2), 21 * SEC - 1), Wait::Sleep(250)));
    assert_eq!(done(wait.step(Err(failure()), 21 * SEC)).unwrap(), 2);
}

#[test]
fn a_signature_without_confirmations_times_out() {
    let mut wait = client().poll_for_signature_confirmation(&SIGNATURE, 5);
    assert!(matches!(wait.step(Err(failure()), 20 * SEC - 1), Wait::Sleep(250)));
    let err = done(wait.step(Err(failure()), 20 * SEC)).unwrap_err();
    assert_eq!(err.to_text(), "signature not found after 20 seconds");
    let mut none = client().poll_for_signature_confirmation(&SIGNATURE, 0);
    assert_eq!(done(none.step(Ok(0), 0)).unwrap(), 0);
}

#[test]
fn a_signature_that_was_seen_is_not_lost() {
    let mut wait = client().poll_for_signature_confirmation(&SIGNATURE, 5);
    assert!(!wait.seen);
    assert!(matches!(wait.step(Ok(0), 0), Wait::Sleep(250)));
    assert!(wait.seen);
    assert!(matches!(wait.step(Ok(0), 20 * SEC - 1), Wait::Sleep(250)));
    assert_eq!(wait.since_nanos, 0);
    let mut failing = wait;
    assert_eq!(done(wait.step(Ok(0), 20 * SEC)).unwrap(), 0);
    assert_eq!(done(failing.step(Err(failure()), 20 * SEC)).unwrap(), 0);
    let mut late = client().poll_for_signature_confirmation(&SIGNATURE, 5);
    assert!(matches!(late.step(Err(failure()), SEC), Wait::Sleep(250)));
    assert_eq!(done(late.step(Ok(0), 20 * SEC)).unwrap(), 0);
}

#[test]
fn a_new_blockhash_is_waited_for() {
    assert_eq!(DEFAULT_MS_PER_SLOT, solana_sdk::clock::DEFAULT_MS_PER_SLOT);
    assert_eq!(BLOCKHASH_POLL_MS, 200);
    let c = client();
    let mut wait = c.get_new_latest_blockhash(&OLD);
    assert_eq!(wait, BlockhashWait { blockhash: OLD, num_retries: 0 });
    assert_eq!(wait.request(&c, 4999).unwrap(), c.get_latest_blockhash());
    assert!(matches!(wait.step(Ok(OLD)), Wait::Sleep(200)));
    assert!(matches!(wait.step(Err(failure())), Wait::Sleep(200)));
    assert_eq!(wait.num_retries, 2);
    let err = wait.request(&c, 5000).unwrap_err();
    assert_eq!(
        err.to_text(),
        "Unable to get new blockhash after 5000ms (retried 2 times), stuck at \
         11111111111111111111111111111111"
    );
    assert_eq!(done(wait.step(Ok(NEW))).unwrap(), NEW);
    assert_eq!(wait.num_retries, 2);
}

#[test]
fn a_balance_is_polled() {
    let c = client();
    let poll = c.poll_get_balance_with_commitment(&KEY, PROCESSED);
    assert_eq!(
        poll,
        BalancePoll {
            pubkey: KEY,
            polling_frequency_ms: 100,
            timeout_nanos: SEC,
            commitment_config: PROCESSED,
        }
    );
    assert_eq!(poll.request(&c), c.get_balance_with_commitment(&KEY, PROCESSED));
    let read = Response { context: RpcResponseContext { slot: 1, api_version: None }, value: 8 };
    assert!(matches!(poll.step(Ok(read)), BalanceRead::Done(8)));
    assert!(matches!(poll.step(Err(failure())), BalanceRead::Pause(100, _)));
    assert!(poll.after_pause(failure(), SEC).is_none());
    assert!(poll.after_pause(failure(), SEC + 1).is_some());
    let own = c.poll_balance_with_timeout_and_commitment(&KEY, 7, 9, PROCESSED);
    assert!(matches!(own.step(Err(failure())), BalanceRead::Pause(7, _)));
    assert_eq!(own.timeout_nanos, 9);
}

#[test]
fn any_balance_ends_a_wait_without_expectation() {
    let c = client();
    let mut wait = c.wait_for_balance_with_commitment(&KEY, None, PROCESSED);
    assert_eq!(wait.poll(&c), c.poll_get_balance_with_commitment(&KEY, PROCESSED));
    assert!(wait.step(Err(failure())).is_none());
    assert_eq!(wait.step(Ok(3)).unwrap().unwrap(), 3);
    for _ in 0..28 {
        assert!(wait.step(Err(failure())).is_none());
    }
    assert!(wait.step(Err(failure())).unwrap().is_err());
}

#[test]
fn a_given_balance_is_waited_for() {
    let mut wait = client().wait_for_balance_with_commitment(&KEY, Some(10), PROCESSED);
    for _ in 0..100 {
        assert!(wait.step(Ok(9)).is_none());
    }
    for _ in 0..29 {
        assert!(wait.step(Err(failure())).is_none());
    }
    assert!(wait.step(Ok(11)).is_none());
    assert_eq!(wait.failed_reads, 29);
    let mut lucky = wait;
    assert_eq!(lucky.step(Ok(10)).unwrap().unwrap(), 10);
    assert!(wait.step(Err(failure())).unwrap().is_err());
}

#[test]
fn stakes_are_summed_up() {
    assert_eq!(max_and_total_stake(&vec![], &vec![]), Some((0, 0)));
    assert_eq!(max_and_total_stake(&vec![5, 9], &vec![7]), Some((9, 21)));
    assert_eq!(max_and_total_stake(&vec![1], &vec![2, 30]), Some((30, 33)));
    assert_eq!(max_and_total_stake(&vec![u64::MAX], &vec![]), Some((u64::MAX, u64::MAX)));
    assert_eq!(max_and_total_stake(&vec![u64::MAX], &vec![1]), None);
    assert_eq!(max_and_total_stake(&vec![u64::MAX, 1], &vec![]), None);
}

fn vote_account(stake: u64) -> String {
    format!(
        "{{\"votePubkey\":\"v\",\"nodePubkey\":\"n\",\"activatedStake\":{stake},\
         \"commission\":1,\"epochVoteAccount\":true,\"epochCredits\":[],\"lastVote\":0,\
         \"rootSlot\":0}}"
    )
}

#[test]
fn stakes_of_vote_accounts() {
    let json = format!(
        "{{\"current\":[{},{}],\"delinquent\":[{}]}}",
        vote_account(5),
        vote_account(9),
        vote_account(7)
    );
    let accounts: RpcVoteAccountStatus = serde_json::from_str(&json).unwrap();
    assert_eq!(vote_account_max_and_total(&accounts), Some((9, 21)));
}

#[test]
fn stake_is_waited_for() {
    let c = client();
    let forever = c.wait_for_max_stake(PROCESSED);
    assert_eq!(forever, StakeWait { commitment: PROCESSED, timeout_nanos: None });
    assert_eq!(forever.request(&c), c.get_vote_accounts_with_commitment(PROCESSED));
    assert!(done(forever.step(true, 0)).is_ok());
    assert!(matches!(forever.step(false, u128::MAX), Wait::Sleep(5000)));
    let bounded = c.wait_for_max_stake_below_threshold_with_timeout(PROCESSED, SEC);
    assert!(matches!(bounded.step(false, SEC), Wait::Sleep(5000)));
    assert!(done(bounded.step(true, 2 * SEC)).is_ok());
    let err = done(bounded.step(false, SEC + 1)).unwrap_err();
    assert!(matches!(err.kind(), ErrorKind::Custom(_)));
    assert_eq!(err.to_text(), "Custom: timed out waiting for max stake to drop");
}
