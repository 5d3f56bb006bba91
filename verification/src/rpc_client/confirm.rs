//! Sending a transaction and waiting for its outcome.
//!
//! A [`Confirmation`] is at every moment waiting for one event. [`Confirmation::action`] says what
//! to do to bring that event about, [`Confirmation::step`] says what follows from it.

use solana_rpc_client_types::response::TransactionError;
use vstd::prelude::*;
use vstd::string::*;

use crate::bindings::hash_text;
use crate::rpc_client::client::RpcClient;
use crate::rpc_client::cluster::commitment_call;
use crate::rpc_client::config::CommitmentConfig;
use crate::rpc_client::error::{
    for_user, for_user_error, ClientResult, Error, ErrorKindView, ErrorView,
};
use crate::rpc_client::keys::{Blockhash, Signature};
use crate::rpc_client::request::{call_with, ParamView, RpcCall, RpcCallView, RpcRequest};
use crate::rpc_client::transactions::signature_statuses_call;

verus! {

/// How often the status of a sent transaction is asked for.
pub const GET_STATUS_RETRIES: u32 = 120;

/// Milliseconds between two such questions.
pub const STATUS_POLL_MS: u64 = 500;

/// What a confirmation is waiting for.
#[derive(Debug, Clone, Copy, PartialEq, Eq)]
pub enum Phase {
    /// The transaction is being sent.
    Sending,
    /// The transaction uses a durable nonce: the latest blockhash stands for its own.
    Fetching { signature: Signature },
    /// The status of the transaction is asked for, after `polls` earlier questions.
    Polling { signature: Signature, blockhash: Blockhash, polls: u32 },
    /// The transaction has no status yet: its blockhash is checked.
    Checking { signature: Signature, blockhash: Blockhash, polls: u32 },
    /// The blockhash is valid and there is another question to ask: time passes.
    Sleeping { signature: Signature, blockhash: Blockhash, polls: u32 },
}

/// A transaction on its way to an outcome.
#[derive(Debug, Clone, Copy, PartialEq, Eq)]
pub struct Confirmation {
    /// The blockhash that the transaction names.
    pub recent_blockhash: Blockhash,
    pub uses_durable_nonce: bool,
    pub phase: Phase,
}

/// What to do next.
#[derive(Debug, Clone, PartialEq, Eq)]
pub enum ConfirmAction {
    /// Send the transaction, as by [`RpcClient::send_transaction`].
    Send,
    /// Ask for the latest blockhash.
    LatestBlockhash(RpcCall),
    /// Ask for the status of the transaction.
    Status(RpcCall),
    /// Ask whether the blockhash is still valid.
    BlockhashValid(RpcCall),
    /// Let so many milliseconds pass.
    Sleep(u64),
}

/// What to do next, requests by their content.
pub ghost enum ConfirmActionView {
    Send,
    LatestBlockhash(RpcCallView),
    Status(RpcCallView),
    BlockhashValid(RpcCallView),
    Sleep(u64),
}

impl View for ConfirmAction {
    type V = ConfirmActionView;

    open spec fn view(&self) -> ConfirmActionView {
        match *self {
            ConfirmAction::Send => ConfirmActionView::Send,
            ConfirmAction::LatestBlockhash(call) => ConfirmActionView::LatestBlockhash(call@),
            ConfirmAction::Status(call) => ConfirmActionView::Status(call@),
            ConfirmAction::BlockhashValid(call) => ConfirmActionView::BlockhashValid(call@),
            ConfirmAction::Sleep(ms) => ConfirmActionView::Sleep(ms),
        }
    }
}

/// What came of an action.
#[derive(Debug)]
pub enum ConfirmEvent {
    Sent(ClientResult<Signature>),
    LatestBlockhash(ClientResult<(Blockhash, u64)>),
    Status(ClientResult<Option<Result<(), TransactionError>>>),
    BlockhashValid(ClientResult<bool>),
    Slept,
}

/// What follows from an event.
#[derive(Debug)]
pub enum ConfirmStep {
    Continue(Confirmation),
    Done(ClientResult<Signature>),
}

/// What follows from an event, errors by their content.
pub ghost enum ConfirmStepView {
    Continue(Confirmation),
    Done(Result<Signature, ErrorView>),
}

impl View for ConfirmStep {
    type V = ConfirmStepView;

    open spec fn view(&self) -> ConfirmStepView {
        match *self {
            ConfirmStep::Continue(next) => ConfirmStepView::Continue(next),
            ConfirmStep::Done(Ok(signature)) => ConfirmStepView::Done(Ok(signature)),
            ConfirmStep::Done(Err(e)) => ConfirmStepView::Done(Err(e@)),
        }
    }
}

/// The error of a transaction that got no status in time.
pub open spec fn unconfirmed() -> ErrorView {
    for_user(
        "unable to confirm transaction. This can happen in situations such as transaction expiration and insufficient fee-payer funds"@,
    )
}

fn unconfirmed_error() -> (r: Error)
    ensures
        r@ == unconfirmed(),
{
    for_user_error(
        "unable to confirm transaction. This can happen in situations such as transaction expiration and insufficient fee-payer funds".to_owned(),
    )
}

impl Confirmation {
    /// The number of questions asked so far is within the limit.
    pub open spec fn wf(self) -> bool {
        match self.phase {
            Phase::Sending => true,
            Phase::Fetching { .. } => true,
            Phase::Polling { polls, .. } => polls < GET_STATUS_RETRIES,
            Phase::Checking { polls, .. } => polls < GET_STATUS_RETRIES,
            Phase::Sleeping { polls, .. } => polls + 1 < GET_STATUS_RETRIES,
        }
    }

    /// Whether `event` is the one that is waited for.
    pub open spec fn awaits(self, event: ConfirmEvent) -> bool {
        match self.phase {
            Phase::Sending => event is Sent,
            Phase::Fetching { .. } => event is LatestBlockhash,
            Phase::Polling { .. } => event is Status,
            Phase::Checking { .. } => event is BlockhashValid,
            Phase::Sleeping { .. } => event is Slept,
        }
    }

    /// The confirmation in another phase.
    pub open spec fn in_phase(self, phase: Phase) -> Confirmation {
        Confirmation { phase, ..self }
    }

    /// What to do next.
    pub open spec fn spec_action(self) -> ConfirmActionView {
        match self.phase {
            Phase::Sending => ConfirmActionView::Send,
            Phase::Fetching { .. } => ConfirmActionView::LatestBlockhash(
                commitment_call(
                    RpcRequest::GetLatestBlockhash,
                    CommitmentConfig::spec_processed(),
                ),
            ),
            Phase::Polling { signature, .. } => ConfirmActionView::Status(
                signature_statuses_call(seq![signature], None),
            ),
            Phase::Checking { blockhash, .. } => ConfirmActionView::BlockhashValid(
                call_with(
                    RpcRequest::IsBlockhashValid,
                    seq![
                        ParamView::Text(hash_text(blockhash)),
                        ParamView::Commitment(CommitmentConfig::spec_processed()),
                    ],
                ),
            ),
            Phase::Sleeping { .. } => ConfirmActionView::Sleep(STATUS_POLL_MS),
        }
    }

    /// What follows from an event. An event that is not waited for changes nothing.
    pub open spec fn spec_step(self, event: ConfirmEvent) -> ConfirmStepView {
        match (self.phase, event) {
            (Phase::Sending, ConfirmEvent::Sent(Ok(signature))) => ConfirmStepView::Continue(
                self.in_phase(
                    if self.uses_durable_nonce {
                        Phase::Fetching { signature }
                    } else {
                        Phase::Polling { signature, blockhash: self.recent_blockhash, polls: 0 }
                    },
                ),
            ),
            (Phase::Sending, ConfirmEvent::Sent(Err(e))) => ConfirmStepView::Done(Err(e@)),
            (
                Phase::Fetching { signature },
                ConfirmEvent::LatestBlockhash(Ok((blockhash, _))),
            ) => ConfirmStepView::Continue(
                self.in_phase(Phase::Polling { signature, blockhash, polls: 0 }),
            ),
            (Phase::Fetching { .. }, ConfirmEvent::LatestBlockhash(Err(e))) => {
                ConfirmStepView::Done(Err(e@))
            },
            (Phase::Polling { signature, blockhash, polls }, ConfirmEvent::Status(Ok(outcome))) => {
                match outcome {
                    Some(Ok(())) => ConfirmStepView::Done(Ok(signature)),
                    Some(Err(e)) => ConfirmStepView::Done(
                        Err(ErrorView { request: None, kind: ErrorKindView::TransactionError(e) }),
                    ),
                    None => ConfirmStepView::Continue(
                        self.in_phase(Phase::Checking { signature, blockhash, polls }),
                    ),
                }
            },
            (Phase::Polling { .. }, ConfirmEvent::Status(Err(e))) => {
                ConfirmStepView::Done(Err(e@))
            },
            (
                Phase::Checking { signature, blockhash, polls },
                ConfirmEvent::BlockhashValid(Ok(valid)),
            ) => if valid && polls + 1 < GET_STATUS_RETRIES {
                ConfirmStepView::Continue(
                    self.in_phase(Phase::Sleeping { signature, blockhash, polls }),
                )
            } else {
                ConfirmStepView::Done(Err(unconfirmed()))
            },
            (Phase::Checking { .. }, ConfirmEvent::BlockhashValid(Err(e))) => {
                ConfirmStepView::Done(Err(e@))
            },
            (Phase::Sleeping { signature, blockhash, polls }, ConfirmEvent::Slept) => {
                if polls + 1 < GET_STATUS_RETRIES {
                    ConfirmStepView::Continue(
                        self.in_phase(
                            Phase::Polling { signature, blockhash, polls: (polls + 1) as u32 },
                        ),
                    )
                } else {
                    ConfirmStepView::Done(Err(unconfirmed()))
                }
            },
            _ => ConfirmStepView::Continue(self),
        }
    }

    /// What to do next.
    pub fn action(&self, client: &RpcClient) -> (r: ConfirmAction)
        ensures
            r@ == self.spec_action(),
    {
        match &self.phase {
            Phase::Sending => ConfirmAction::Send,
            Phase::Fetching { .. } => ConfirmAction::LatestBlockhash(
                client.get_latest_blockhash_with_commitment(CommitmentConfig::processed()),
            ),
            Phase::Polling { signature, .. } => ConfirmAction::Status(
                client.get_signature_status(signature),
            ),
            Phase::Checking { blockhash, .. } => ConfirmAction::BlockhashValid(
                client.is_blockhash_valid(blockhash, CommitmentConfig::processed()),
            ),
            Phase::Sleeping { .. } => ConfirmAction::Sleep(STATUS_POLL_MS),
        }
    }

    /// What follows from an event. An event that is not waited for changes nothing.
    pub fn step(self, event: ConfirmEvent) -> (r: ConfirmStep)
        ensures
            r@ == self.spec_step(event),
            self.wf() && r is Continue ==> r->Continue_0.wf(),
    {
        match (self.phase, event) {
            (Phase::Sending, ConfirmEvent::Sent(sent)) => match sent {
                Ok(signature) => {
                    let phase = if self.uses_durable_nonce {
                        Phase::Fetching { signature }
                    } else {
                        Phase::Polling { signature, blockhash: self.recent_blockhash, polls: 0 }
                    };
                    ConfirmStep::Continue(Confirmation { phase, ..self })
                },
                Err(e) => ConfirmStep::Done(Err(e)),
            },
            (Phase::Fetching { signature }, ConfirmEvent::LatestBlockhash(latest)) => match latest {
                Ok((blockhash, _)) => {
                    let phase = Phase::Polling { signature, blockhash, polls: 0 };
                    ConfirmStep::Continue(Confirmation { phase, ..self })
                },
                Err(e) => ConfirmStep::Done(Err(e)),
            },
            (Phase::Polling { signature, blockhash, polls }, ConfirmEvent::Status(status)) => {
                match status {
                    Ok(Some(Ok(()))) => ConfirmStep::Done(Ok(signature)),
                    Ok(Some(Err(e))) => ConfirmStep::Done(Err(Error::from(e))),
                    Ok(None) => {
                        let phase = Phase::Checking { signature, blockhash, polls };
                        ConfirmStep::Continue(Confirmation { phase, ..self })
                    },
                    Err(e) => ConfirmStep::Done(Err(e)),
                }
            },
            (
                Phase::Checking { signature, blockhash, polls },
                ConfirmEvent::BlockhashValid(valid),
            ) => match valid {
                Ok(valid) => if valid && polls < GET_STATUS_RETRIES - 1 {
                    let phase = Phase::Sleeping { signature, blockhash, polls };
                    ConfirmStep::Continue(Confirmation { phase, ..self })
                } else {
                    ConfirmStep::Done(Err(unconfirmed_error()))
                },
                Err(e) => ConfirmStep::Done(Err(e)),
            },
            (Phase::Sleeping { signature, blockhash, polls }, ConfirmEvent::Slept) => {
                if polls < GET_STATUS_RETRIES - 1 {
                    let phase = Phase::Polling { signature, blockhash, polls: polls + 1 };
                    ConfirmStep::Continue(Confirmation { phase, ..self })
                } else {
                    ConfirmStep::Done(Err(unconfirmed_error()))
                }
            },
            _ => ConfirmStep::Continue(self),
        }
    }
}

impl RpcClient {
    /// Sends a signed transaction and asks for its status until there is one, its blockhash expires
    /// or a minute has passed. The transaction itself goes out with [`ConfirmAction::Send`].
    pub fn send_and_confirm_transaction(
        &self,
        recent_blockhash: &Blockhash,
        uses_durable_nonce: bool,
    ) -> (r: Confirmation)
        ensures
            r == (Confirmation {
                recent_blockhash: *recent_blockhash,
                uses_durable_nonce,
                phase: Phase::Sending,
            }),
            r.wf(),
    {
        Confirmation { recent_blockhash: *recent_blockhash, uses_durable_nonce, phase: Phase::Sending }
    }
}

// ---------------------------------------------------------------------------------------------
// Laws
// ---------------------------------------------------------------------------------------------

/// Where a confirmation stands after a list of events; once done, it stays done.
pub open spec fn confirm_run(from: Confirmation, events: Seq<ConfirmEvent>) -> ConfirmStepView
    decreases events.len(),
{
    if events.len() == 0 {
        ConfirmStepView::Continue(from)
    } else {
        match confirm_run(from, events.drop_last()) {
            ConfirmStepView::Continue(at) => at.spec_step(events.last()),
            done => done,
        }
    }
}

/// Whether each of a list of events is the one that is waited for when it comes.
pub open spec fn awaited(from: Confirmation, events: Seq<ConfirmEvent>) -> bool
    decreases events.len(),
{
    events.len() == 0 || (awaited(from, events.drop_last()) && match confirm_run(
        from,
        events.drop_last(),
    ) {
        ConfirmStepView::Continue(at) => at.awaits(events.last()),
        _ => true,
    })
}

/// The confirmation with which a transaction starts.
pub open spec fn starting(recent_blockhash: Blockhash, uses_durable_nonce: bool) -> Confirmation {
    Confirmation { recent_blockhash, uses_durable_nonce, phase: Phase::Sending }
}

/// Events that a confirmation in this phase has still to wait for, at most.
pub open spec fn events_left(phase: Phase) -> int {
    match phase {
        Phase::Sending => 3 * GET_STATUS_RETRIES + 1,
        Phase::Fetching { .. } => 3 * GET_STATUS_RETRIES,
        Phase::Polling { polls, .. } => 3 * (GET_STATUS_RETRIES - polls) - 1,
        Phase::Checking { polls, .. } => 3 * (GET_STATUS_RETRIES - polls) - 2,
        Phase::Sleeping { polls, .. } => 3 * (GET_STATUS_RETRIES - polls) - 3,
    }
}

/// Every event that is waited for brings a confirmation closer to its end.
pub proof fn step_brings_closer(at: Confirmation, event: ConfirmEvent)
    requires
        at.wf(),
        at.awaits(event),
    ensures
        at.spec_step(event) matches ConfirmStepView::Continue(next) ==> {
            &&& next.wf()
            &&& 0 < events_left(next.phase) < events_left(at.phase)
            &&& !(next.phase is Sending)
        },
{
}

proof fn run_keeps_wf(from: Confirmation, events: Seq<ConfirmEvent>)
    requires
        from.wf(),
        awaited(from, events),
    ensures
        confirm_run(from, events) matches ConfirmStepView::Continue(at) ==> at.wf() && events_left(
            at.phase,
        ) + events.len() <= events_left(from.phase),
    decreases events.len(),
{
    if events.len() > 0 {
        run_keeps_wf(from, events.drop_last());
        match confirm_run(from, events.drop_last()) {
            ConfirmStepView::Continue(at) => step_brings_closer(at, events.last()),
            _ => {},
        }
    }
}

/// A confirmation ends: whatever the node answers, it is done after the send, one blockhash and 120
/// rounds of a status and a check, with a pause between one round and the next.
pub proof fn confirmation_ends(
    recent_blockhash: Blockhash,
    uses_durable_nonce: bool,
    events: Seq<ConfirmEvent>,
)
    requires
        awaited(starting(recent_blockhash, uses_durable_nonce), events),
        events.len() >= 3 * GET_STATUS_RETRIES + 1,
    ensures
        confirm_run(starting(recent_blockhash, uses_durable_nonce), events) is Done,
{
    let from = starting(recent_blockhash, uses_durable_nonce);
    run_keeps_wf(from, events);
    match confirm_run(from, events) {
        ConfirmStepView::Continue(at) => {
            assert(events_left(at.phase) > 0);
        },
        _ => {},
    }
}

/// The signature that a phase carries, where it carries one.
pub open spec fn phase_signature(phase: Phase) -> Option<Signature> {
    match phase {
        Phase::Sending => None,
        Phase::Fetching { signature } => Some(signature),
        Phase::Polling { signature, .. } => Some(signature),
        Phase::Checking { signature, .. } => Some(signature),
        Phase::Sleeping { signature, .. } => Some(signature),
    }
}

/// The events among a list that are answers to a send.
pub open spec fn sends(events: Seq<ConfirmEvent>) -> int
    decreases events.len(),
{
    if events.len() == 0 {
        0
    } else {
        sends(events.drop_last()) + (if events.last() is Sent {
            1int
        } else {
            0
        })
    }
}

/// While a confirmation is under way past its first event, that event was the answer to the only
/// send, and the signature it carries is the one from that answer.
pub proof fn one_send(
    recent_blockhash: Blockhash,
    uses_durable_nonce: bool,
    events: Seq<ConfirmEvent>,
)
    requires
        awaited(starting(recent_blockhash, uses_durable_nonce), events),
        events.len() > 0,
    ensures
        confirm_run(
            starting(recent_blockhash, uses_durable_nonce),
            events,
        ) matches ConfirmStepView::Continue(at) ==> {
            &&& sends(events) == 1
            &&& phase_signature(at.phase) is Some
            &&& events[0] matches ConfirmEvent::Sent(Ok(signature)) && phase_signature(at.phase)
                == Some(signature)
        },
    decreases events.len(),
{
    let from = starting(recent_blockhash, uses_durable_nonce);
    let front = events.drop_last();
    if front.len() > 0 {
        one_send(recent_blockhash, uses_durable_nonce, front);
        assert(front[0] == events[0]);
    } else {
        assert(confirm_run(from, front) == ConfirmStepView::Continue(from));
        assert(events.last() == events[0]);
        assert(sends(front) == 0);
    }
}

/// A confirmation succeeds only with the signature that the node returned for the send, and only
/// on a status that says that the transaction succeeded.
pub proof fn success_is_confirmed(
    recent_blockhash: Blockhash,
    uses_durable_nonce: bool,
    events: Seq<ConfirmEvent>,
    signature: Signature,
)
    requires
        awaited(starting(recent_blockhash, uses_durable_nonce), events),
        confirm_run(starting(recent_blockhash, uses_durable_nonce), events)
            == ConfirmStepView::Done(Ok(signature)),
    ensures
        events.len() > 0,
        events[0] matches ConfirmEvent::Sent(Ok(sent)) && sent == signature,
        exists|k: int|
            0 < k < events.len() && (#[trigger] events[k]) matches ConfirmEvent::Status(
                Ok(Some(Ok(()))),
            ),
    decreases events.len(),
{
    let from = starting(recent_blockhash, uses_durable_nonce);
    let front = events.drop_last();
    match confirm_run(from, front) {
        ConfirmStepView::Done(_) => {
            success_is_confirmed(recent_blockhash, uses_durable_nonce, front, signature);
            assert(front[0] == events[0]);
            let k = choose|k: int|
                0 < k < front.len() && (#[trigger] front[k]) matches ConfirmEvent::Status(
                    Ok(Some(Ok(()))),
                );
            assert(events[k] == front[k]);
        },
        ConfirmStepView::Continue(at) => {
            if front.len() > 0 {
                one_send(recent_blockhash, uses_durable_nonce, front);
                assert(front[0] == events[0]);
                assert(events.last() == events[events.len() - 1]);
            }
        },
    }
}

} // verus!
