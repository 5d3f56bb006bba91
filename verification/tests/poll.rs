use std::future::Future;
use std::pin::Pin;
use std::task::{Context, Poll};

use zela_std::constants::POLL_BUDGET;
use zela_std::poll::{poll_await, poll_step, PollStep};

#[test]
fn poll_await_returns_ready_immediately() {
    let fut = std::future::ready(42u32);
    assert_eq!(poll_await(fut).unwrap(), 42);
}

struct AlwaysPending;

impl Future for AlwaysPending {
    type Output = ();
    fn poll(self: Pin<&mut Self>, _: &mut Context<'_>) -> Poll<Self::Output> {
        Poll::Pending
    }
}

#[test]
fn poll_await_aborts_on_busy_loop() {
    assert!(poll_await(AlwaysPending).is_err());
}

struct PendingThenReady(u32);

impl Future for PendingThenReady {
    type Output = u32;
    fn poll(mut self: Pin<&mut Self>, _: &mut Context<'_>) -> Poll<Self::Output> {
        if self.0 == 0 {
            Poll::Ready(99)
        } else {
            self.0 -= 1;
            Poll::Pending
        }
    }
}

#[test]
fn poll_await_tolerates_some_pending() {
    assert_eq!(poll_await(PendingThenReady(10)).unwrap(), 99);
}

#[test]
fn poll_await_is_bounded_by_the_budget() {
    assert_eq!(POLL_BUDGET, 1_000_000);
    assert_eq!(poll_await(PendingThenReady(POLL_BUDGET - 1)).unwrap(), 99);
    assert!(poll_await(PendingThenReady(POLL_BUDGET)).is_err());
}

#[test]
fn poll_step_counts_pending_polls() {
    assert_eq!(poll_step::<u8, ()>(0, Ok(7)), PollStep::Ready(7));
    assert_eq!(poll_step::<u8, char>(0, Err('p')), PollStep::Again(1, 'p'));
    assert_eq!(
        poll_step::<u8, char>(POLL_BUDGET - 2, Err('p')),
        PollStep::Again(POLL_BUDGET - 1, 'p')
    );
    assert_eq!(poll_step::<u8, ()>(POLL_BUDGET - 1, Err(())), PollStep::Exhausted);
    assert_eq!(poll_step::<u8, ()>(POLL_BUDGET - 1, Ok(7)), PollStep::Ready(7));
}
