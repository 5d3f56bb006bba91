use solana_rpc_client_types::response::TransactionError;

use zela_std::host::IoError;
use zela_std::rpc_client::client::RpcClient;
use zela_std::rpc_client::config::CommitmentConfig;
use zela_std::rpc_client::confirm::{
    ConfirmAction, ConfirmEvent, ConfirmStep, Confirmation, Phase, GET_STATUS_RETRIES,
};
use zela_std::rpc_client::error::{ClientResult, Error, ErrorKind};
use zela_std::rpc_client::keys::{Blockhash, Signature};

const SIGNATURE: Signature = Signature { bytes: [3; 64] };
const OWN: Blockhash = Blockhash { bytes: [1; 32] };
const LATEST: Blockhash = Blockhash { bytes: [2; 32] };
const UNCONFIRMED: &str = "unable to confirm transaction. This can happen in situations such as \
                           transaction expiration and insufficient fee-payer funds";

fn failure() -> Error {
    Error::from(IoError::Os(5))
}

/// A node that answers `Some` status after so many questions.
struct Node {
    silent: u32,
    status: Result<(), TransactionError>,
    valid: bool,
    sends: u32,
    statuses: u32,
    checks: u32,
    sleeps: u32,
}

impl Node {
    fn new(silent: u32, status: Result<(), TransactionError>, valid: bool) -> Node {
        Node { silent, status, valid, sends: 0, statuses: 0, checks: 0, sleeps: 0 }
    }

    fn answer(&mut self, action: ConfirmAction) -> ConfirmEvent {
        match action {
            ConfirmAction::Send => {
                self.sends += 1;
                ConfirmEvent::Sent(Ok(SIGNATURE))
            }
            ConfirmAction::LatestBlockhash(_) => ConfirmEvent::LatestBlockhash(Ok((LATEST, 9))),
            ConfirmAction::Status(_) => {
                self.statuses += 1;
                let found = self.statuses > self.silent;
                ConfirmEvent::Status(Ok(if found { Some(self.status.clone()) } else { None }))
            }
            ConfirmAction::BlockhashValid(_) => {
                self.checks += 1;
                ConfirmEvent::BlockhashValid(Ok(self.valid))
            }
            ConfirmAction::Sleep(ms) => {
                assert_eq!(ms, 500);
                self.sleeps += 1;
                ConfirmEvent::Slept
            }
        }
    }

    fn run(&mut self, uses_durable_nonce: bool) -> ClientResult<Signature> {
        let client = RpcClient::new();
        let mut at = client.send_and_confirm_transaction(&OWN, uses_durable_nonce);
        loop {
            let event = self.answer(at.action(&client));
            match at.step(event) {
                ConfirmStep::Continue(next) => at = next,
                ConfirmStep::Done(r) => return r,
            }
        }
    }
}

#[test]
fn a_confirmed_transaction() {
    let mut node = Node::new(0, Ok(()), true);
    assert_eq!(node.run(false).unwrap(), SIGNATURE);
    assert_eq!((node.sends, node.statuses, node.checks, node.sleeps), (1, 1, 0, 0));
}

#[test]
fn a_transaction_that_takes_its_time() {
    let mut node = Node::new(119, Ok(()), true);
    assert_eq!(node.run(true).unwrap(), SIGNATURE);
    assert_eq!((node.sends, node.statuses, node.checks, node.sleeps), (1, 120, 119, 119));
}

#[test]
fn a_transaction_that_never_shows_up() {
    assert_eq!(GET_STATUS_RETRIES, 120);
    let mut node = Node::new(1000, Ok(()), true);
    let err = node.run(false).unwrap_err();
    assert_eq!(err.to_text(), UNCONFIRMED);
    assert!(err.request().is_none());
    assert_eq!((node.sends, node.statuses, node.checks, node.sleeps), (1, 120, 120, 119));
}

#[test]
fn a_transaction_whose_blockhash_expires() {
    let mut node = Node::new(1000, Ok(()), false);
    assert_eq!(node.run(false).unwrap_err().to_text(), UNCONFIRMED);
    assert_eq!((node.sends, node.statuses, node.checks, node.sleeps), (1, 1, 1, 0));
}

#[test]
fn a_transaction_that_fails_on_chain() {
    let mut node = Node::new(1, Err(TransactionError::AccountInUse), true);
    let err = node.run(false).unwrap_err();
    assert!(matches!(err.kind(), ErrorKind::TransactionError(TransactionError::AccountInUse)));
}

fn at(phase: Phase) -> Confirmation {
    Confirmation { recent_blockhash: OWN, uses_durable_nonce: true, phase }
}

fn done(step: ConfirmStep) -> ClientResult<Signature> {
    match step {
        ConfirmStep::Done(r) => r,
        ConfirmStep::Continue(next) => panic!("{next:?}"),
    }
}

fn next(step: ConfirmStep) -> Phase {
    match step {
        ConfirmStep::Continue(next) => next.phase,
        ConfirmStep::Done(r) => panic!("{r:?}"),
    }
}

#[test]
fn failed_requests_end_a_confirmation() {
    let polling = Phase::Polling { signature: SIGNATURE, blockhash: OWN, polls: 0 };
    let checking = Phase::Checking { signature: SIGNATURE, blockhash: OWN, polls: 0 };
    let fetching = Phase::Fetching { signature: SIGNATURE };
    for (phase, event) in [
        (Phase::Sending, ConfirmEvent::Sent(Err(failure()))),
        (fetching, ConfirmEvent::LatestBlockhash(Err(failure()))),
        (polling, ConfirmEvent::Status(Err(failure()))),
        (checking, ConfirmEvent::BlockhashValid(Err(failure()))),
    ] {
        let err = done(at(phase).step(event)).unwrap_err();
        assert!(matches!(err.kind(), ErrorKind::Io(IoError::Os(5))));
    }
}

#[test]
fn a_durable_nonce_borrows_the_latest_blockhash() {
    let fetching = next(at(Phase::Sending).step(ConfirmEvent::Sent(Ok(SIGNATURE))));
    assert_eq!(fetching, Phase::Fetching { signature: SIGNATURE });
    let event = ConfirmEvent::LatestBlockhash(Ok((LATEST, 1)));
    let polling = next(at(fetching).step(event));
    assert_eq!(polling, Phase::Polling { signature: SIGNATURE, blockhash: LATEST, polls: 0 });
    let plain = Confirmation { uses_durable_nonce: false, ..at(Phase::Sending) };
    let polling = next(plain.step(ConfirmEvent::Sent(Ok(SIGNATURE))));
    assert_eq!(polling, Phase::Polling { signature: SIGNATURE, blockhash: OWN, polls: 0 });
}

#[test]
fn each_phase_makes_its_request() {
    let client = RpcClient::new();
    assert_eq!(at(Phase::Sending).action(&client), ConfirmAction::Send);
    assert_eq!(
        at(Phase::Fetching { signature: SIGNATURE }).action(&client),
        ConfirmAction::LatestBlockhash(
            client.get_latest_blockhash_with_commitment(CommitmentConfig::processed())
        )
    );
    assert_eq!(
        at(Phase::Polling { signature: SIGNATURE, blockhash: OWN, polls: 3 }).action(&client),
        ConfirmAction::Status(client.get_signature_status(&SIGNATURE))
    );
    assert_eq!(
        at(Phase::Checking { signature: SIGNATURE, blockhash: OWN, polls: 3 }).action(&client),
        ConfirmAction::BlockhashValid(
            client.is_blockhash_valid(&OWN, CommitmentConfig::processed())
        )
    );
    assert_eq!(
        at(Phase::Sleeping { signature: SIGNATURE, blockhash: OWN, polls: 3 }).action(&client),
        ConfirmAction::Sleep(500)
    );
}

#[test]
fn no_pause_follows_the_last_status() {
    let checking = |polls| Phase::Checking { signature: SIGNATURE, blockhash: OWN, polls };
    let sleeping = next(at(checking(118)).step(ConfirmEvent::BlockhashValid(Ok(true))));
    assert_eq!(sleeping, Phase::Sleeping { signature: SIGNATURE, blockhash: OWN, polls: 118 });
    let polling = next(at(sleeping).step(ConfirmEvent::Slept));
    assert_eq!(polling, Phase::Polling { signature: SIGNATURE, blockhash: OWN, polls: 119 });
    let err = done(at(checking(119)).step(ConfirmEvent::BlockhashValid(Ok(true)))).unwrap_err();
    assert_eq!(err.to_text(), UNCONFIRMED);
}

#[test]
fn an_event_that_is_not_waited_for_changes_nothing() {
    let start = at(Phase::Sending);
    assert_eq!(next(start.step(ConfirmEvent::Slept)), Phase::Sending);
    assert_eq!(next(start.step(ConfirmEvent::Status(Ok(Some(Ok(())))))), Phase::Sending);
}
