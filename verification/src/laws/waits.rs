//! Waiting: for the outcome of a transaction, for confirmations, blockhashes, balances and stakes.

use solana_rpc_client_types::response::{RpcVoteAccountStatus, TransactionError};
use vstd::prelude::*;

use crate::bindings::replies::activated_stakes;
use crate::bindings::{hash_text, pubkey_text, signature_text};
use crate::laws::replies::tells_user;
use crate::laws::{asks, asks_about, asks_about_all, view_is_params, view_is_texts};
use crate::rpc_client::client::RpcClient;
use crate::rpc_client::config::{CommitmentConfig, CommitmentLevel, RpcGetVoteAccountsConfig};
use crate::rpc_client::confirm::{
    confirm_run, ConfirmAction, ConfirmEvent, ConfirmStep, ConfirmStepView, Confirmation, Phase,
};
use crate::rpc_client::error::{ClientRpcErrorView, Error, ErrorKind, ErrorKindView, ErrorView};
use crate::rpc_client::keys::{Blockhash, Pubkey, Signature};
use crate::rpc_client::polling::{
    balance_wait_after, balance_wait_goes_on, failures, max_and_total_stake, max_stake,
    max_stake_is_largest, total_stake, vote_account_max_and_total, BalancePoll, BalanceRead,
    BalanceWait, BlockhashWait, ConfirmationWait, SignatureWait, StakeWait, Wait, BLOCKHASH_POLL_MS,
    DEFAULT_MS_PER_SLOT,
};
use crate::rpc_client::request::{Param, RpcCall, RpcRequest};
use crate::rpc_client::response::Response;
use crate::text::decimal;

verus! {

// ---------------------------------------------------------------------------------------------
// The outcome of a transaction
// ---------------------------------------------------------------------------------------------

/// Whether a step goes on with the same transaction, now in this phase.
pub open spec fn goes_on(at: Confirmation, phase: Phase, r: ConfirmStep) -> bool {
    r == ConfirmStep::Continue(
        Confirmation {
            recent_blockhash: at.recent_blockhash,
            uses_durable_nonce: at.uses_durable_nonce,
            phase,
        },
    )
}

/// Whether a step ends with the error that an event brought.
pub open spec fn ends_with(r: ConfirmStep, e: Error) -> bool {
    r matches ConfirmStep::Done(Err(x)) && x@ == e@
}

/// Whether a step ends because the transaction could not be confirmed.
pub open spec fn ends_unconfirmed(r: ConfirmStep) -> bool {
    r matches ConfirmStep::Done(Err(x)) && tells_user(
        x,
        "unable to confirm transaction. This can happen in situations such as transaction expiration and insufficient fee-payer funds"@,
    )
}

/// What follows from an event depends on nothing but the event and the phase. A status that tells
/// the outcome ends the wait with that outcome, in whichever round it comes. A transaction without
/// a status is waited for as long as its blockhash is valid and there are rounds left. A failed
/// request ends the wait with its own error. An event that is not waited for changes nothing.
pub proof fn events_have_their_consequences(at: Confirmation, event: ConfirmEvent, r: ConfirmStep)
    requires
        call_ensures(Confirmation::step, (at, event), r),
    ensures
        at.phase is Sending ==> (event matches ConfirmEvent::Sent(sent) ==> match sent {
            Ok(signature) => if at.uses_durable_nonce {
                goes_on(at, Phase::Fetching { signature }, r)
            } else {
                goes_on(
                    at,
                    Phase::Polling { signature, blockhash: at.recent_blockhash, polls: 0 },
                    r,
                )
            },
            Err(e) => ends_with(r, e),
        }),
        at.phase matches Phase::Fetching { signature } ==> (
        event matches ConfirmEvent::LatestBlockhash(latest) ==> match latest {
            Ok((blockhash, _)) => goes_on(at, Phase::Polling { signature, blockhash, polls: 0 }, r),
            Err(e) => ends_with(r, e),
        }),
        at.phase matches Phase::Polling { signature, blockhash, polls } ==> (
        event matches ConfirmEvent::Status(status) ==> match status {
            Ok(Some(Ok(()))) => r == ConfirmStep::Done(Ok::<Signature, Error>(signature)),
            Ok(Some(Err(e))) => r matches ConfirmStep::Done(Err(x)) && x.request is None && x.kind
                == ErrorKind::TransactionError(e),
            Ok(None) => goes_on(at, Phase::Checking { signature, blockhash, polls }, r),
            Err(e) => ends_with(r, e),
        }),
        at.phase matches Phase::Checking { signature, blockhash, polls } ==> (
        event matches ConfirmEvent::BlockhashValid(valid) ==> match valid {
            Ok(true) => if polls < 119 {
                goes_on(at, Phase::Sleeping { signature, blockhash, polls }, r)
            } else {
                ends_unconfirmed(r)
            },
            Ok(false) => ends_unconfirmed(r),
            Err(e) => ends_with(r, e),
        }),
        at.phase matches Phase::Sleeping { signature, blockhash, polls } ==> (event is Slept
            ==> if polls < 119 {
            goes_on(at, Phase::Polling { signature, blockhash, polls: (polls + 1) as u32 }, r)
        } else {
            ends_unconfirmed(r)
        }),
        match at.phase {
            Phase::Sending => !(event is Sent),
            Phase::Fetching { .. } => !(event is LatestBlockhash),
            Phase::Polling { .. } => !(event is Status),
            Phase::Checking { .. } => !(event is BlockhashValid),
            Phase::Sleeping { .. } => !(event is Slept),
        } ==> r == ConfirmStep::Continue(at),
{
}

/// Each phase makes its own request: about the signature that the node returned, about the
/// blockhash that the transaction depends on, or for a pause of half a second.
pub proof fn phases_ask_about_the_transaction(
    client: RpcClient,
    at: Confirmation,
    r: ConfirmAction,
)
    requires
        call_ensures(Confirmation::action, (&at, &client), r),
    ensures
        at.phase is Sending ==> r is Send,
        at.phase is Fetching ==> (r matches ConfirmAction::LatestBlockhash(call) && asks(
            call,
            RpcRequest::GetLatestBlockhash,
            seq![Param::Commitment(CommitmentConfig { commitment: CommitmentLevel::Processed })],
        )),
        at.phase matches Phase::Polling { signature, .. } ==> (
        r matches ConfirmAction::Status(call) && asks_about_all(
            call,
            RpcRequest::GetSignatureStatuses,
            seq![signature_text(signature)],
            seq![],
        )),
        at.phase matches Phase::Checking { blockhash, .. } ==> (
        r matches ConfirmAction::BlockhashValid(call) && asks_about(
            call,
            RpcRequest::IsBlockhashValid,
            hash_text(blockhash),
            seq![Param::Commitment(CommitmentConfig { commitment: CommitmentLevel::Processed })],
        )),
        at.phase is Sleeping ==> r == ConfirmAction::Sleep(500),
{
    match r {
        ConfirmAction::LatestBlockhash(call) => {
            view_is_params(call);
            assert(call.params->List_0@.len() == 1 ==> call.params->List_0@ =~= seq![
                call.params->List_0@[0],
            ]);
        },
        ConfirmAction::Status(call) => {
            view_is_params(call);
            if call.params is List && call.params->List_0@.len() == 1
                && call.params->List_0@[0] is Texts {
                view_is_texts(call.params->List_0@[0]);
                assert(call.params->List_0@.skip(1) =~= seq![]);
            }
        },
        ConfirmAction::BlockhashValid(call) => {
            view_is_params(call);
            if call.params is List && call.params->List_0@.len() == 2 {
                assert(call.params->List_0@.skip(1) =~= seq![call.params->List_0@[1]]);
            }
        },
        _ => {},
    }
}

/// A run is made of the steps: it starts where it starts, and each event takes it where the step on
/// that event does, until it is done.
pub proof fn runs_are_made_of_steps(
    client: RpcClient,
    recent_blockhash: Blockhash,
    uses_durable_nonce: bool,
    first: Confirmation,
    from: Confirmation,
    events: Seq<ConfirmEvent>,
    at: Confirmation,
    event: ConfirmEvent,
    r: ConfirmStep,
)
    ensures
        call_ensures(
            RpcClient::send_and_confirm_transaction,
            (&client, &recent_blockhash, uses_durable_nonce),
            first,
        ) ==> first.recent_blockhash == recent_blockhash && first.uses_durable_nonce
            == uses_durable_nonce && first.phase is Sending,
        confirm_run(from, seq![]) == ConfirmStepView::Continue(from),
        confirm_run(from, events) == ConfirmStepView::Continue(at) && call_ensures(
            Confirmation::step,
            (at, event),
            r,
        ) ==> match r {
            ConfirmStep::Continue(next) => confirm_run(from, events.push(event))
                == ConfirmStepView::Continue(next),
            ConfirmStep::Done(Ok(signature)) => confirm_run(from, events.push(event))
                == ConfirmStepView::Done(Ok(signature)),
            ConfirmStep::Done(Err(e)) => confirm_run(from, events.push(event))
                == ConfirmStepView::Done(Err(e@)),
        },
        confirm_run(from, events) is Done ==> confirm_run(from, events.push(event)) == confirm_run(
            from,
            events,
        ),
{
    assert(events.push(event).drop_last() =~= events);
    assert(events.push(event).last() == event);
}

/// Events before the first status is asked for.
pub open spec fn lead_in(uses_durable_nonce: bool) -> int {
    if uses_durable_nonce {
        2
    } else {
        1
    }
}

/// Whether a list of events starts with a successful send, the latest blockhash where a durable
/// nonce is used, and then `rounds` rounds of no status, a valid blockhash and a pause.
pub open spec fn is_pending_for(
    uses_durable_nonce: bool,
    events: Seq<ConfirmEvent>,
    signature: Signature,
    rounds: int,
) -> bool {
    let n = lead_in(uses_durable_nonce);
    &&& events.len() >= n + 3 * rounds
    &&& events[0] matches ConfirmEvent::Sent(Ok(sent)) && sent == signature
    &&& uses_durable_nonce ==> (events[1] matches ConfirmEvent::LatestBlockhash(Ok(_)))
    &&& forall|j: int|
        0 <= j < rounds ==> {
            &&& (#[trigger] events[n + 3 * j]) matches ConfirmEvent::Status(Ok(None))
            &&& events[n + 3 * j + 1] matches ConfirmEvent::BlockhashValid(Ok(true))
            &&& events[n + 3 * j + 2] is Slept
        }
}

/// Where a confirmation stands after so many rounds: it asks for the status of the signature that
/// the node returned, and it minds the transaction's own blockhash or, for a durable nonce, the
/// latest.
proof fn pending_rounds_lead_on(
    recent_blockhash: Blockhash,
    uses_durable_nonce: bool,
    events: Seq<ConfirmEvent>,
    signature: Signature,
    rounds: int,
)
    requires
        0 <= rounds < 120,
        is_pending_for(uses_durable_nonce, events, signature, rounds),
    ensures
        confirm_run(
            Confirmation { recent_blockhash, uses_durable_nonce, phase: Phase::Sending },
            events.take(lead_in(uses_durable_nonce) + 3 * rounds),
        ) == ConfirmStepView::Continue(
            Confirmation {
                recent_blockhash,
                uses_durable_nonce,
                phase: Phase::Polling {
                    signature,
                    blockhash: if uses_durable_nonce {
                        events[1]->LatestBlockhash_0->Ok_0.0
                    } else {
                        recent_blockhash
                    },
                    polls: rounds as u32,
                },
            },
        ),
    decreases rounds,
{
    let from = Confirmation { recent_blockhash, uses_durable_nonce, phase: Phase::Sending };
    let n = lead_in(uses_durable_nonce);
    if rounds == 0 {
        assert(events.take(1).drop_last() =~= seq![]);
        assert(confirm_run(from, seq![]) == ConfirmStepView::Continue(from));
        assert(events.take(1).last() == events[0]);
        assert(confirm_run(from, events.take(1)) == from.spec_step(events[0]));
        if uses_durable_nonce {
            assert(events.take(2).drop_last() =~= events.take(1));
            assert(events.take(2).last() == events[1]);
        }
    } else {
        let j = rounds - 1;
        pending_rounds_lead_on(recent_blockhash, uses_durable_nonce, events, signature, j);
        let k = n + 3 * j;
        let polling = confirm_run(from, events.take(k))->Continue_0;
        assert(events[n + 3 * j] matches ConfirmEvent::Status(Ok(None)));
        assert(events.take(k + 1).drop_last() =~= events.take(k));
        assert(confirm_run(from, events.take(k + 1)) == polling.spec_step(events[k]));
        let checking = confirm_run(from, events.take(k + 1))->Continue_0;
        assert(events.take(k + 2).drop_last() =~= events.take(k + 1));
        assert(confirm_run(from, events.take(k + 2)) == checking.spec_step(events[k + 1]));
        let sleeping = confirm_run(from, events.take(k + 2))->Continue_0;
        assert(events.take(k + 3).drop_last() =~= events.take(k + 2));
        assert(confirm_run(from, events.take(k + 3)) == sleeping.spec_step(events[k + 2]));
    }
}

/// A transaction that succeeds is confirmed: whatever the number of rounds, up to 119, in which it
/// had no status yet, the status that says that it succeeded ends the wait with the signature that
/// the node returned for the send.
pub proof fn succeeded_transactions_are_confirmed(
    recent_blockhash: Blockhash,
    uses_durable_nonce: bool,
    events: Seq<ConfirmEvent>,
    signature: Signature,
    rounds: int,
)
    requires
        0 <= rounds < 120,
        is_pending_for(uses_durable_nonce, events, signature, rounds),
        events.len() == lead_in(uses_durable_nonce) + 3 * rounds + 1,
        events.last() matches ConfirmEvent::Status(Ok(Some(Ok(())))),
    ensures
        confirm_run(
            Confirmation { recent_blockhash, uses_durable_nonce, phase: Phase::Sending },
            events,
        ) == ConfirmStepView::Done(Ok(signature)),
{
    pending_rounds_lead_on(recent_blockhash, uses_durable_nonce, events, signature, rounds);
    assert(events.drop_last() =~= events.take(lead_in(uses_durable_nonce) + 3 * rounds));
}

/// A transaction that fails on chain ends the wait with the chain's error, in whichever round that
/// shows; a status that cannot be had ends it with that failure.
pub proof fn failed_transactions_are_reported(
    recent_blockhash: Blockhash,
    uses_durable_nonce: bool,
    events: Seq<ConfirmEvent>,
    signature: Signature,
    rounds: int,
)
    requires
        0 <= rounds < 120,
        is_pending_for(uses_durable_nonce, events, signature, rounds),
        events.len() == lead_in(uses_durable_nonce) + 3 * rounds + 1,
    ensures
        events.last() matches ConfirmEvent::Status(Ok(Some(Err(e)))) ==> confirm_run(
            Confirmation { recent_blockhash, uses_durable_nonce, phase: Phase::Sending },
            events,
        ) == ConfirmStepView::Done(
            Err(ErrorView { request: None, kind: ErrorKindView::TransactionError(e) }),
        ),
        events.last() matches ConfirmEvent::Status(Err(e)) ==> confirm_run(
            Confirmation { recent_blockhash, uses_durable_nonce, phase: Phase::Sending },
            events,
        ) == ConfirmStepView::Done(Err(e@)),
{
    pending_rounds_lead_on(recent_blockhash, uses_durable_nonce, events, signature, rounds);
    assert(events.drop_last() =~= events.take(lead_in(uses_durable_nonce) + 3 * rounds));
}

/// A transaction that has no status is given up where its blockhash has expired, or after the last
/// of 120 rounds. Before that, as long as its blockhash is valid, it is waited for.
pub proof fn transactions_without_status_are_given_up(
    recent_blockhash: Blockhash,
    uses_durable_nonce: bool,
    events: Seq<ConfirmEvent>,
    signature: Signature,
    rounds: int,
)
    requires
        0 <= rounds < 120,
        is_pending_for(uses_durable_nonce, events, signature, rounds),
        events.len() == lead_in(uses_durable_nonce) + 3 * rounds + 2,
        events[events.len() - 2] matches ConfirmEvent::Status(Ok(None)),
    ensures
        events.last() matches ConfirmEvent::BlockhashValid(Ok(valid)) ==> {
            let run = confirm_run(
                Confirmation { recent_blockhash, uses_durable_nonce, phase: Phase::Sending },
                events,
            );
            if valid && rounds < 119 {
                run is Continue && run->Continue_0.phase is Sleeping
            } else {
                run == ConfirmStepView::Done(
                    Err::<Signature, ErrorView>(
                        ErrorView {
                            request: None,
                            kind: ErrorKindView::RpcError(
                                ClientRpcErrorView::ForUser(
                                    "unable to confirm transaction. This can happen in situations such as transaction expiration and insufficient fee-payer funds"@,
                                ),
                            ),
                        },
                    ),
                )
            }
        },
{
    let n = lead_in(uses_durable_nonce) + 3 * rounds;
    pending_rounds_lead_on(recent_blockhash, uses_durable_nonce, events, signature, rounds);
    let from = Confirmation { recent_blockhash, uses_durable_nonce, phase: Phase::Sending };
    let front = events.drop_last();
    let polling = confirm_run(from, events.take(n))->Continue_0;
    assert(front.drop_last() =~= events.take(n));
    assert(confirm_run(from, front) == polling.spec_step(events[n]));
}

// ---------------------------------------------------------------------------------------------
// A signature
// ---------------------------------------------------------------------------------------------

/// A wait for a signature asks about that signature. Any status ends it with success, at any time.
/// Without one it goes on for 15 seconds and then fails.
pub proof fn signatures_are_waited_for(
    client: RpcClient,
    wait: SignatureWait,
    status: Result<Option<Result<(), TransactionError>>, Error>,
    elapsed_secs: u64,
    call: RpcCall,
    r: Wait<()>,
)
    ensures
        call_ensures(SignatureWait::request, (&wait, &client), call) ==> asks_about_all(
            call,
            RpcRequest::GetSignatureStatuses,
            seq![signature_text(wait.signature)],
            seq![],
        ),
        call_ensures(SignatureWait::step, (&wait, status, elapsed_secs), r) ==> {
            if status is Ok && status->Ok_0 is Some {
                r == Wait::Done(Ok::<(), Error>(()))
            } else if elapsed_secs < 15 {
                r == Wait::<()>::Sleep(250)
            } else {
                r matches Wait::Done(Err(e)) && tells_user(
                    e,
                    "signature not found after "@ + decimal(elapsed_secs as nat) + " seconds"@,
                )
            }
        },
{
    view_is_params(call);
    if call.params is List && call.params->List_0@.len() == 1 && call.params->List_0@[0] is Texts {
        view_is_texts(call.params->List_0@[0]);
        assert(call.params->List_0@.skip(1) =~= seq![]);
    }
}

/// The waits for a signature are about the signature and at the commitment that were given.
pub proof fn signature_waits_are_as_given(
    client: RpcClient,
    signature: Signature,
    commitment: CommitmentConfig,
    blocks: usize,
    wait: SignatureWait,
    counting: ConfirmationWait,
)
    ensures
        call_ensures(RpcClient::poll_for_signature, (&client, &signature), wait) ==> wait.signature
            == signature && wait.commitment_config == client.spec_commitment(),
        call_ensures(
            RpcClient::poll_for_signature_with_commitment,
            (&client, &signature, commitment),
            wait,
        ) ==> wait.signature == signature && wait.commitment_config == commitment,
        call_ensures(
            RpcClient::poll_for_signature_confirmation,
            (&client, &signature, blocks),
            counting,
        ) ==> counting.signature == signature && counting.min_confirmed_blocks == blocks
            && counting.confirmed_blocks == 0 && counting.since_nanos == 0 && !counting.seen,
{
}

/// A wait for confirmations asks about its signature and ends as soon as there are enough of them,
/// with their number. Otherwise it goes on until their number has not changed for 20 seconds, and
/// then ends with what there is, or fails where the node never reported the signature. It remembers
/// the number that was last reported and when it changed, and forgets nothing on a failed read.
pub proof fn confirmations_are_waited_for(
    client: RpcClient,
    wait: &mut ConfirmationWait,
    count: Result<usize, Error>,
    now_nanos: u128,
    call: RpcCall,
    r: Wait<usize>,
)
    ensures
        call_ensures(ConfirmationWait::request, (&*old(wait), &client), call) ==> asks_about_all(
            call,
            RpcRequest::GetSignatureStatuses,
            seq![signature_text(old(wait).signature)],
            seq![],
        ),
        call_ensures(ConfirmationWait::step, (wait, count, now_nanos), r) ==> {
            &&& final(wait).signature == old(wait).signature
            &&& final(wait).min_confirmed_blocks == old(wait).min_confirmed_blocks
            &&& count is Err ==> *final(wait) == *old(wait)
            &&& count matches Ok(n) ==> {
                &&& final(wait).confirmed_blocks == n
                &&& final(wait).seen
                &&& n == old(wait).confirmed_blocks ==> final(wait).since_nanos == old(
                    wait,
                ).since_nanos
                &&& n != old(wait).confirmed_blocks ==> final(wait).since_nanos == now_nanos
            }
            &&& {
                let still = now_nanos - final(wait).since_nanos;
                if count is Ok && count->Ok_0 >= old(wait).min_confirmed_blocks {
                    r == Wait::Done(Ok::<usize, Error>(count->Ok_0))
                } else if still < 20_000_000_000 {
                    r == Wait::<usize>::Sleep(250)
                } else if count is Ok || old(wait).seen {
                    r == Wait::Done(Ok::<usize, Error>(final(wait).confirmed_blocks))
                } else {
                    r matches Wait::Done(Err(e)) && tells_user(
                        e,
                        "signature not found after "@ + decimal((still / 1_000_000_000) as nat)
                            + " seconds"@,
                    )
                }
            }
        },
{
    view_is_params(call);
    if call.params is List && call.params->List_0@.len() == 1 && call.params->List_0@[0] is Texts {
        view_is_texts(call.params->List_0@[0]);
        assert(call.params->List_0@.skip(1) =~= seq![]);
    }
}

// ---------------------------------------------------------------------------------------------
// A new blockhash
// ---------------------------------------------------------------------------------------------

/// A wait for a new blockhash asks for the latest one for five seconds, ends with the first that is
/// another than the one that it has, and counts the reads that brought none. It never ends with the
/// one that it has.
pub proof fn new_blockhashes_are_waited_for(
    client: RpcClient,
    wait: &mut BlockhashWait,
    elapsed_ms: u128,
    asked: Result<RpcCall, Error>,
    latest: Result<Blockhash, Error>,
    r: Wait<Blockhash>,
)
    requires
        old(wait).num_retries < u64::MAX,
    ensures
        call_ensures(BlockhashWait::request, (&*old(wait), &client, elapsed_ms), asked) ==> {
            if elapsed_ms < 5000 {
                asked is Ok && asks(
                    asked->Ok_0,
                    RpcRequest::GetLatestBlockhash,
                    seq![Param::Commitment(client.spec_commitment())],
                )
            } else {
                asked is Err && tells_user(
                    asked->Err_0,
                    "Unable to get new blockhash after "@ + decimal(elapsed_ms as nat)
                        + "ms (retried "@ + decimal(old(wait).num_retries as nat)
                        + " times), stuck at "@ + hash_text(old(wait).blockhash),
                )
            }
        },
        call_ensures(BlockhashWait::step, (wait, latest), r) ==> {
            &&& final(wait).blockhash == old(wait).blockhash
            &&& if latest is Ok && latest->Ok_0 != old(wait).blockhash {
                r == Wait::Done(Ok::<Blockhash, Error>(latest->Ok_0)) && final(wait).num_retries
                    == old(wait).num_retries
            } else {
                r == Wait::<Blockhash>::Sleep(200) && final(wait).num_retries
                    == old(wait).num_retries + 1
            }
        },
{
    if asked is Ok {
        view_is_params(asked->Ok_0);
        let list = asked->Ok_0.params->List_0@;
        assert(list.len() == 1 ==> list =~= seq![list[0]]);
    }
}

/// The latest blockhash is asked for twice a slot.
pub proof fn blockhashes_are_asked_for_twice_a_slot()
    ensures
        2 * BLOCKHASH_POLL_MS == DEFAULT_MS_PER_SLOT,
{
}

/// The wait for a new blockhash starts with the blockhash that is to be left behind.
pub proof fn blockhash_waits_are_as_given(
    client: RpcClient,
    blockhash: Blockhash,
    wait: BlockhashWait,
)
    requires
        call_ensures(RpcClient::get_new_latest_blockhash, (&client, &blockhash), wait),
    ensures
        wait.blockhash == blockhash,
        wait.num_retries == 0,
{
}

// ---------------------------------------------------------------------------------------------
// A balance
// ---------------------------------------------------------------------------------------------

/// A balance that can be read is handed on as it is. A failed read is followed by a pause of the
/// length that was given, and it is the result once the timeout that was given has passed.
pub proof fn balances_are_polled(
    client: RpcClient,
    poll: BalancePoll,
    read: Result<Response<u64>, Error>,
    call: RpcCall,
    r: BalanceRead,
    err: Error,
    elapsed_nanos: u128,
    last: Option<Error>,
)
    ensures
        call_ensures(BalancePoll::request, (&poll, &client), call) ==> asks_about(
            call,
            RpcRequest::GetBalance,
            pubkey_text(poll.pubkey),
            seq![Param::Commitment(poll.commitment_config)],
        ),
        call_ensures(BalancePoll::step, (&poll, read), r) ==> match read {
            Ok(balance) => r == BalanceRead::Done(balance.value),
            Err(e) => r == BalanceRead::Pause(poll.polling_frequency_ms, e),
        },
        call_ensures(BalancePoll::after_pause, (&poll, err, elapsed_nanos), last) ==> {
            &&& last is Some <==> elapsed_nanos > poll.timeout_nanos
            &&& last is Some ==> last->Some_0 == err
        },
{
    view_is_params(call);
    if call.params is List && call.params->List_0@.len() == 2 {
        assert(call.params->List_0@.skip(1) =~= seq![call.params->List_0@[1]]);
    }
}

/// A wait for a balance ends with a balance only where the read brought that balance and it is the
/// one that is expected, or any where none is. The read that brings the expected balance always
/// ends it. It ends with an error only on the thirtieth failed read, and then with the error of
/// that read.
pub proof fn balances_are_waited_for(
    wait: &mut BalanceWait,
    read: Result<u64, Error>,
    r: Option<Result<u64, Error>>,
)
    requires
        call_ensures(BalanceWait::step, (wait, read), r),
    ensures
        r matches Some(Ok(b)) ==> read == Ok::<u64, Error>(b),
        r matches Some(Ok(b)) ==> (old(wait).expected_balance matches Some(x) ==> b == x),
        read is Ok && (old(wait).expected_balance is None || old(wait).expected_balance == Some(
            read->Ok_0,
        )) ==> r == Some(Ok::<u64, Error>(read->Ok_0)),
        r matches Some(Err(e)) ==> read == Err::<u64, Error>(e) && old(wait).failed_reads >= 29,
        read is Err && old(wait).failed_reads >= 29 ==> r == Some(Err::<u64, Error>(read->Err_0)),
        final(wait).pubkey == old(wait).pubkey,
        final(wait).expected_balance == old(wait).expected_balance,
        final(wait).commitment_config == old(wait).commitment_config,
        r is None && read is Err ==> final(wait).failed_reads == old(wait).failed_reads + 1,
        r is None && read is Ok ==> final(wait).failed_reads == old(wait).failed_reads,
{
}

/// What a read comes to: a wait for a balance of `x` ends with a balance just where the read
/// brought `x`, and then with `x`. A wait for any balance ends with whichever a read brings.
pub proof fn only_the_expected_balance_ends_a_wait(wait: BalanceWait, read: Result<u64, Error>)
    ensures
        wait.spec_step(read) matches Some(Ok(b)) ==> read == Ok::<u64, Error>(b),
        wait.expected_balance matches Some(x) ==> (wait.spec_step(read) matches Some(Ok(b)) ==> b
            == x),
        wait.expected_balance matches Some(x) ==> (read matches Ok(b) ==> {
            &&& b == x ==> wait.spec_step(read) == Some(Ok::<u64, Error>(b))
            &&& b != x ==> wait.spec_step(read) is None
        }),
        wait.expected_balance is None ==> (read matches Ok(b) ==> wait.spec_step(read) == Some(
            Ok::<u64, Error>(b),
        )),
        wait.spec_step(read) matches Some(Err(e)) ==> read == Err::<u64, Error>(e),
{
}

/// A wait for a balance of `x` goes on just as long as no read brought `x` and fewer than 30 have
/// failed; a wait for any balance just as long as all reads failed and fewer than 30 did.
pub proof fn a_wait_for_a_balance_goes_on(
    pubkey: Pubkey,
    expected_balance: Option<u64>,
    commitment_config: CommitmentConfig,
    reads: Seq<Result<u64, Error>>,
)
    ensures
        balance_wait_after(
            BalanceWait { pubkey, expected_balance, commitment_config, failed_reads: 0 },
            reads,
        ) is Some <==> failures(reads) < 30 && match expected_balance {
            Some(x) => forall|i: int|
                0 <= i < reads.len() ==> #[trigger] reads[i] != Ok::<u64, Error>(x),
            None => forall|i: int| 0 <= i < reads.len() ==> (#[trigger] reads[i]) is Err,
        },
{
    let start = BalanceWait { pubkey, expected_balance, commitment_config, failed_reads: 0 };
    balance_wait_goes_on(pubkey, expected_balance, commitment_config, reads);
    if balance_wait_after(start, reads) is None && failures(reads) < 30 {
        let i = choose|i: int|
            0 <= i < reads.len() && ((#[trigger] reads[i]) matches Ok(balance) && start.expects(
                balance,
            ));
        assert(reads[i] is Ok);
    }
}

/// The waits for a balance are about the address, the balance and the times that were given: every
/// tenth of a second for up to a second where none were.
pub proof fn balance_waits_are_as_given(
    client: RpcClient,
    pubkey: Pubkey,
    frequency_ms: u64,
    timeout_nanos: u128,
    expected: Option<u64>,
    commitment: CommitmentConfig,
    poll: BalancePoll,
    wait: BalanceWait,
)
    ensures
        call_ensures(
            RpcClient::poll_balance_with_timeout_and_commitment,
            (&client, &pubkey, frequency_ms, timeout_nanos, commitment),
            poll,
        ) ==> poll.pubkey == pubkey && poll.polling_frequency_ms == frequency_ms
            && poll.timeout_nanos == timeout_nanos && poll.commitment_config == commitment,
        call_ensures(
            RpcClient::poll_get_balance_with_commitment,
            (&client, &pubkey, commitment),
            poll,
        ) ==> poll.pubkey == pubkey && poll.polling_frequency_ms == 100 && poll.timeout_nanos
            == 1_000_000_000 && poll.commitment_config == commitment,
        call_ensures(
            RpcClient::wait_for_balance_with_commitment,
            (&client, &pubkey, expected, commitment),
            wait,
        ) ==> wait.pubkey == pubkey && wait.expected_balance == expected && wait.commitment_config
            == commitment && wait.failed_reads == 0,
        call_ensures(BalanceWait::poll, (&wait, &client), poll) ==> poll.pubkey == wait.pubkey
            && poll.polling_frequency_ms == 100 && poll.timeout_nanos == 1_000_000_000
            && poll.commitment_config == wait.commitment_config,
{
}

// ---------------------------------------------------------------------------------------------
// Stake
// ---------------------------------------------------------------------------------------------

/// A total adds up: nothing is the total of no stakes, a stake that of itself alone, and the total
/// of two lists is the sum of theirs.
pub proof fn totals_add_up(a: Seq<u64>, b: Seq<u64>, stake: u64)
    ensures
        total_stake(seq![]) == 0,
        total_stake(seq![stake]) == stake,
        total_stake(a + b) == total_stake(a) + total_stake(b),
    decreases b.len(),
{
    assert(seq![stake].drop_last() =~= seq![]);
    if b.len() == 0 {
        assert(a + b =~= a);
    } else {
        totals_add_up(a, b.drop_last(), stake);
        assert((a + b).drop_last() =~= a + b.drop_last());
    }
}

/// The largest stake is one of them and none is larger; the total is theirs. All of them count,
/// current or delinquent. There is no result just where the total is no 64-bit number.
pub proof fn stakes_are_summed_up(
    current: Vec<u64>,
    delinquent: Vec<u64>,
    accounts: RpcVoteAccountStatus,
    r: Option<(u64, u64)>,
)
    requires
        call_ensures(max_and_total_stake, (&current, &delinquent), r) || (call_ensures(
            vote_account_max_and_total,
            (&accounts,),
            r,
        ) && activated_stakes(accounts) == (current@, delinquent@)),
    ensures
        r is None <==> total_stake(current@) + total_stake(delinquent@) > u64::MAX,
        r matches Some((max, total)) ==> {
            &&& total == total_stake(current@) + total_stake(delinquent@)
            &&& forall|i: int| 0 <= i < current@.len() ==> #[trigger] current@[i] <= max
            &&& forall|i: int| 0 <= i < delinquent@.len() ==> #[trigger] delinquent@[i] <= max
            &&& max == 0 || current@.contains(max) || delinquent@.contains(max)
        },
{
    let stakes = current@ + delinquent@;
    totals_add_up(current@, delinquent@, 0);
    max_stake_is_largest(stakes);
    assert(forall|i: int| 0 <= i < current@.len() ==> stakes[i] == #[trigger] current@[i]);
    assert(forall|i: int|
        0 <= i < delinquent@.len() ==> stakes[current@.len() + i] == #[trigger] delinquent@[i]);
    if stakes.len() > 0 {
        let i = choose|i: int| 0 <= i < stakes.len() && stakes[i] == max_stake(stakes);
        if i < current@.len() {
            assert(current@[i] == max_stake(stakes));
        } else {
            assert(delinquent@[i - current@.len()] == max_stake(stakes));
        }
    }
}

/// A wait for the stakes asks for all vote accounts at its commitment. It ends with success just
/// where the largest share is small enough, whatever the time, and fails where it is not and the
/// timeout, where there is one, has passed.
pub proof fn stakes_are_waited_for(
    client: RpcClient,
    wait: StakeWait,
    below: bool,
    elapsed_nanos: u128,
    call: RpcCall,
    r: Wait<()>,
)
    ensures
        call_ensures(StakeWait::request, (&wait, &client), call) ==> asks(
            call,
            RpcRequest::GetVoteAccounts,
            seq![
                Param::VoteAccounts(
                    RpcGetVoteAccountsConfig {
                        vote_pubkey: None,
                        commitment: Some(wait.commitment),
                        keep_unstaked_delinquents: None,
                        delinquent_slot_distance: None,
                    },
                ),
            ],
        ),
        call_ensures(StakeWait::step, (&wait, below, elapsed_nanos), r) ==> {
            if below {
                r == Wait::Done(Ok::<(), Error>(()))
            } else if wait.timeout_nanos is Some && elapsed_nanos > wait.timeout_nanos->Some_0 {
                r matches Wait::Done(Err(e)) && e.request is None && e.kind is Custom
                    && e.kind->Custom_0@ == "timed out waiting for max stake to drop"@
            } else {
                r == Wait::<()>::Sleep(5000)
            }
        },
{
    view_is_params(call);
    let list = call.params->List_0@;
    assert(list.len() == 1 ==> list =~= seq![list[0]]);
}

/// The waits for the stakes are at the commitment and with the timeout that were given.
pub proof fn stake_waits_are_as_given(
    client: RpcClient,
    commitment: CommitmentConfig,
    timeout_nanos: u128,
    wait: StakeWait,
)
    ensures
        call_ensures(RpcClient::wait_for_max_stake, (&client, commitment), wait) ==> wait.commitment
            == commitment && wait.timeout_nanos is None,
        call_ensures(
            RpcClient::wait_for_max_stake_below_threshold_with_timeout,
            (&client, commitment, timeout_nanos),
            wait,
        ) ==> wait.commitment == commitment && wait.timeout_nanos == Some(timeout_nanos),
{
}

} // verus!
