//! Bounded busy-polling.
//!
//! Host imports block, so busy-polling is the only way to make progress. The number of polls is
//! bounded by [`POLL_BUDGET`] so that a runaway future cannot hang the executor.

use core::future::Future;
use core::pin::Pin;
use vstd::future::FutureAdditionalSpecFns;
use vstd::prelude::*;

use crate::bindings::{pin_future, poll_once};
use crate::constants::POLL_BUDGET;

verus! {

/// The future was still pending after [`POLL_BUDGET`] polls.
#[derive(Debug, Clone, Copy, PartialEq, Eq, Structural)]
pub struct BusyLoopBudgetExceeded;

/// What to do after one poll.
#[derive(Debug, Clone, Copy, PartialEq, Eq)]
pub enum PollStep<T, P> {
    /// The future is ready: stop with its output.
    Ready(T),
    /// Poll what is pending again; so many polls are spent.
    Again(u32, P),
    /// The budget is spent.
    Exhausted,
}

/// The decision after one poll: `spent` polls came back pending before this one.
pub open spec fn spec_poll_step<T, P>(spent: u32, polled: Result<T, P>) -> PollStep<T, P> {
    match polled {
        Ok(v) => PollStep::Ready(v),
        Err(pending) => if spent + 1 == POLL_BUDGET {
            PollStep::Exhausted
        } else {
            PollStep::Again((spent + 1) as u32, pending)
        },
    }
}

/// The decision after one poll, which was ready with an output or is pending: `spent` polls came
/// back pending before this one.
pub fn poll_step<T, P>(spent: u32, polled: Result<T, P>) -> (r: PollStep<T, P>)
    requires
        spent < POLL_BUDGET,
    ensures
        r == spec_poll_step(spent, polled),
{
    match polled {
        Ok(v) => PollStep::Ready(v),
        Err(pending) => if spent + 1 == POLL_BUDGET {
            PollStep::Exhausted
        } else {
            PollStep::Again(spent + 1, pending)
        },
    }
}

/// Whether `fut` is `f`, pinned.
pub closed spec fn is_pinned<F: Future>(f: F, fut: Pin<Box<F>>) -> bool {
    call_ensures(pin_future::<F>, (f,), fut)
}

/// Whether a poll of `fut` came to `polled`: its output, or the future that is still pending.
pub closed spec fn is_polled<F: Future>(
    fut: Pin<Box<F>>,
    polled: Result<F::Output, Pin<Box<F>>>,
) -> bool {
    call_ensures(poll_once::<F>, (fut,), polled)
}

/// Whether `polls` are what polling `fut` came to, one poll after the other: each poll is of the
/// future that the one before left pending, none follows a poll that is ready, and there are no more
/// of them than the budget allows.
pub open spec fn is_poll_run<F: Future>(
    fut: Pin<Box<F>>,
    polls: Seq<Result<F::Output, Pin<Box<F>>>>,
) -> bool {
    &&& polls.len() <= POLL_BUDGET
    &&& forall|i: int|
        0 <= i < polls.len() ==> is_polled(
            if i == 0 {
                fut
            } else {
                polls[i - 1]->Err_0
            },
            #[trigger] polls[i],
        )
    &&& forall|i: int| 0 <= i < polls.len() - 1 ==> (#[trigger] polls[i]) is Err
}

/// Whether `r` is what polling `f` within the budget came to: the output of the first poll that was
/// ready, or the error where the whole budget came back pending.
pub open spec fn is_awaited<F: Future>(
    f: F,
    r: Result<F::Output, BusyLoopBudgetExceeded>,
) -> bool {
    exists|fut: Pin<Box<F>>, polls: Seq<Result<F::Output, Pin<Box<F>>>>| #[trigger]
        is_pinned(f, fut) && #[trigger] is_poll_run(fut, polls) && poll_outcome(0, polls) == Some(r)
}

/// Polls `f` until it is ready, at most [`POLL_BUDGET`] times. What it returns is what its polls come
/// to: the output of `f` as soon as a poll is ready, the error once the whole budget came back
/// pending. An output is the one that the pinned future yields. Whether `f` is ready within the budget
/// is for `f` to decide.
pub fn poll_await<F: Future>(f: F) -> (r: Result<F::Output, BusyLoopBudgetExceeded>)
    ensures
        is_awaited(f, r),
        r matches Ok(v) ==> exists|fut: Pin<Box<F>>| #[trigger] is_pinned(f, fut) && v == fut@,
{
    let pin = pin_future::<F>;
    let poll = poll_once::<F>;
    let mut fut = pin(f);
    let mut spent: u32 = 0;
    let ghost start = fut;
    let ghost mut polls: Seq<Result<F::Output, Pin<Box<F>>>> = Seq::empty();
    loop
        invariant
            is_pinned(f, start),
            is_poll_run(start, polls),
            polls.len() == spent,
            forall|i: int| 0 <= i < polls.len() ==> (#[trigger] polls[i]) is Err,
            fut == if spent == 0 {
                start
            } else {
                polls[spent - 1]->Err_0
            },
            fut@ == start@,
            spent < POLL_BUDGET,
        decreases POLL_BUDGET - spent,
    {
        let ghost before = polls;
        let polled = poll(fut);
        proof {
            polls = polls.push(polled);
            assert(is_poll_run(start, polls)) by {
                assert(is_polled(fut, polled));
                assert(forall|i: int| 0 <= i < before.len() ==> polls[i] == before[i]);
            }
        }
        match poll_step(spent, polled) {
            PollStep::Ready(v) => {
                proof {
                    ready_after(0, polls, spent as int);
                }
                return Ok(v);
            },
            PollStep::Again(n, pending) => {
                spent = n;
                fut = pending;
            },
            PollStep::Exhausted => {
                proof {
                    exhausted_after(0, polls);
                }
                return Err(BusyLoopBudgetExceeded);
            },
        }
    }
}

/// What polling comes to, given the result of each poll, after `spent` polls came back pending:
/// nothing while the future is still to be polled.
pub open spec fn poll_outcome<T, P>(spent: u32, polls: Seq<Result<T, P>>) -> Option<
    Result<T, BusyLoopBudgetExceeded>,
>
    decreases polls.len(),
{
    if polls.len() == 0 {
        None
    } else {
        match spec_poll_step(spent, polls[0]) {
            PollStep::Ready(v) => Some(Ok(v)),
            PollStep::Again(n, _) => poll_outcome(n, polls.drop_first()),
            PollStep::Exhausted => Some(Err(BusyLoopBudgetExceeded)),
        }
    }
}

proof fn ready_after<T, P>(spent: u32, polls: Seq<Result<T, P>>, k: int)
    requires
        0 <= k < polls.len(),
        spent + k < POLL_BUDGET,
        forall|i: int| 0 <= i < k ==> (#[trigger] polls[i]) is Err,
        polls[k] is Ok,
    ensures
        poll_outcome(spent, polls) == Some(
            Ok::<T, BusyLoopBudgetExceeded>(polls[k]->Ok_0),
        ),
    decreases k,
{
    if k > 0 {
        assert(polls[0] is Err);
        let rest = polls.drop_first();
        assert(forall|i: int| 0 <= i < rest.len() ==> rest[i] == polls[i + 1]);
        ready_after((spent + 1) as u32, rest, k - 1);
    }
}

/// A future that is ready within the budget, after any number of pending polls below it, yields its
/// output.
pub proof fn ready_within_budget<T, P>(polls: Seq<Result<T, P>>, k: int)
    requires
        0 <= k < polls.len(),
        k < POLL_BUDGET,
        forall|i: int| 0 <= i < k ==> (#[trigger] polls[i]) is Err,
        polls[k] is Ok,
    ensures
        poll_outcome(0, polls) == Some(Ok::<T, BusyLoopBudgetExceeded>(polls[k]->Ok_0)),
{
    ready_after(0, polls, k);
}

proof fn exhausted_after<T, P>(spent: u32, polls: Seq<Result<T, P>>)
    requires
        spent < POLL_BUDGET,
        polls.len() >= POLL_BUDGET - spent,
        forall|i: int| 0 <= i < POLL_BUDGET - spent ==> (#[trigger] polls[i]) is Err,
    ensures
        poll_outcome(spent, polls) == Some(
            Err::<T, BusyLoopBudgetExceeded>(BusyLoopBudgetExceeded),
        ),
    decreases POLL_BUDGET - spent,
{
    assert(polls[0] is Err);
    if spent + 1 < POLL_BUDGET {
        let rest = polls.drop_first();
        assert(forall|i: int| 0 <= i < rest.len() ==> rest[i] == polls[i + 1]);
        exhausted_after((spent + 1) as u32, rest);
    }
}

/// A future that is pending for the whole budget is given up.
pub proof fn pending_is_given_up<T, P>(polls: Seq<Result<T, P>>)
    requires
        polls.len() >= POLL_BUDGET,
        forall|i: int| 0 <= i < POLL_BUDGET ==> (#[trigger] polls[i]) is Err,
    ensures
        poll_outcome(0, polls) == Some(Err::<T, BusyLoopBudgetExceeded>(BusyLoopBudgetExceeded)),
{
    exhausted_after(0, polls);
}

/// A pinned future is what pinning that future gave, a poll what polling that pinned future gave.
pub(crate) proof fn pins_and_polls_are_of_the_future<F: Future>(
    f: F,
    fut: Pin<Box<F>>,
    polled: Result<F::Output, Pin<Box<F>>>,
)
    ensures
        is_pinned(f, fut) <==> call_ensures(pin_future::<F>, (f,), fut),
        is_polled(fut, polled) <==> call_ensures(poll_once::<F>, (fut,), polled),
        is_polled(fut, polled) ==> match polled {
            Ok(v) => v == fut@,
            Err(pending) => pending@ == fut@,
        },
{
}

} // verus!
