//! Runs of a procedure, replies of the host and streams of notifications.

use core::future::Future;
use core::pin::Pin;
use serde_json::{Error as JsonError, Value};
use vstd::future::FutureAdditionalSpecFns;
use vstd::prelude::*;

use crate::bindings::json_document;
use crate::host::{
    call_rpc, decode_rpc_error, encode_params, json_error_displays, sys_err, HostReply,
    HostRpcError, IoError, RpcError,
};
use crate::poll::{
    is_awaited, is_pinned, is_poll_run, is_polled, poll_await, poll_outcome, poll_step,
    BusyLoopBudgetExceeded, PollStep,
};
use crate::procedure::{decoded_params, error_reply, log_line, polled_result, run, success_reply};
use crate::rpc_client::pubsub::{subscribe_failed, PubsubClient, PubsubClientError};
use crate::subscription::{Subscription, SubscriptionStream};
use crate::text::decimal;

verus! {

// ---------------------------------------------------------------------------------------------
// Polling
// ---------------------------------------------------------------------------------------------

/// Whether each of a list of polls is of the future that the one before left pending, the first of
/// `fut`.
pub open spec fn is_chain<F: Future>(
    fut: Pin<Box<F>>,
    polls: Seq<Result<F::Output, Pin<Box<F>>>>,
) -> bool {
    forall|i: int|
        0 <= i < polls.len() ==> is_polled(
            if i == 0 {
                fut
            } else {
                polls[i - 1]->Err_0
            },
            #[trigger] polls[i],
        )
}

proof fn outcome_is_the_last_poll<T, P>(
    spent: u32,
    polls: Seq<Result<T, P>>,
    r: Result<T, BusyLoopBudgetExceeded>,
)
    requires
        spent < 1_000_000,
        polls.len() + spent <= 1_000_000,
        forall|i: int| 0 <= i < polls.len() - 1 ==> (#[trigger] polls[i]) is Err,
        poll_outcome(spent, polls) == Some(r),
    ensures
        polls.len() > 0,
        r matches Ok(v) ==> polls.last() == Ok::<T, P>(v),
        r is Err ==> polls.len() + spent == 1_000_000 && polls.last() is Err,
    decreases polls.len(),
{
    if polls.len() > 0 && polls[0] is Err && spent + 1 < 1_000_000 {
        let rest = polls.drop_first();
        assert(forall|i: int| 0 <= i < rest.len() ==> rest[i] == polls[i + 1]);
        outcome_is_the_last_poll((spent + 1) as u32, rest, r);
        assert(rest.last() == polls.last());
    } else if polls.len() > 1 {
        assert(polls[0] is Err);
    }
}

/// Awaiting a future polls it until it is ready, at most a million times. Its output is that of the
/// first poll that is ready; it is given up only after a million polls that were all pending.
pub proof fn awaiting_polls_until_ready<F: Future>(
    f: F,
    r: Result<F::Output, BusyLoopBudgetExceeded>,
)
    requires
        call_ensures(poll_await::<F>, (f,), r) || is_awaited(f, r),
    ensures
        exists|fut: Pin<Box<F>>, polls: Seq<Result<F::Output, Pin<Box<F>>>>| #[trigger]
            is_pinned(f, fut) && #[trigger] is_chain(fut, polls) && 0 < polls.len() <= 1_000_000
                && (forall|i: int| 0 <= i < polls.len() - 1 ==> (#[trigger] polls[i]) is Err)
                && match r {
                Ok(v) => polls.last() == Ok::<F::Output, Pin<Box<F>>>(v),
                Err(_) => polls.len() == 1_000_000 && polls.last() is Err,
            },
{
    let (fut, polls) = choose|fut: Pin<Box<F>>, polls: Seq<Result<F::Output, Pin<Box<F>>>>|
        #[trigger] is_pinned(f, fut) && #[trigger] is_poll_run(fut, polls) && poll_outcome(0, polls)
            == Some(r);
    outcome_is_the_last_poll(0, polls, r);
    assert(is_chain(fut, polls));
}

/// What awaiting a future hands out is what the pinned future yields.
pub proof fn awaiting_hands_out_the_output<F: Future>(
    f: F,
    r: Result<F::Output, BusyLoopBudgetExceeded>,
)
    requires
        call_ensures(poll_await::<F>, (f,), r),
        r is Ok,
    ensures
        exists|fut: Pin<Box<F>>| #[trigger] is_pinned(f, fut) && r->Ok_0 == fut@,
{
}

/// A poll that is ready ends the polling, whatever was spent before; a pending one spends one poll
/// of a million.
pub proof fn polls_are_counted<T, P>(spent: u32, polled: Result<T, P>, r: PollStep<T, P>)
    requires
        spent < 1_000_000,
        call_ensures(poll_step::<T, P>, (spent, polled), r),
    ensures
        polled matches Ok(v) ==> r == PollStep::<T, P>::Ready(v),
        polled matches Err(pending) ==> if spent == 999_999 {
            r is Exhausted
        } else {
            r matches PollStep::Again(n, p) && n == spent + 1 && p == pending
        },
{
}

// ---------------------------------------------------------------------------------------------
// A run
// ---------------------------------------------------------------------------------------------

/// Whether an error is one of the SDK: this code, no data, and a message that is `text` and then
/// what a JSON error says.
pub open spec fn is_own_error(
    err: HostRpcError,
    code: i32,
    text: Seq<char>,
    cause: JsonError,
) -> bool {
    &&& err.code == code
    &&& err.data is None
    &&& exists|detail: Seq<char>| #[trigger]
        json_error_displays(cause, detail) && err.message@ == text + detail
}

/// A run whose parameters do not decode is answered with that, and nothing else happens.
pub proof fn malformed_parameters_are_refused<
    P,
    S,
    E,
    D: FnOnce(Vec<u8>) -> Result<P, JsonError>,
    Fut: Future<Output = Result<S, RpcError<E>>>,
    C: FnOnce(P) -> Fut,
    ES: FnOnce(S) -> Result<Vec<u8>, JsonError>,
    EE: FnOnce(E) -> Result<Vec<u8>, JsonError>,
>(
    params: Vec<u8>,
    decode: D,
    procedure: C,
    encode_success: ES,
    encode_error: EE,
    r: Result<Vec<u8>, HostRpcError>,
    cause: JsonError,
)
    requires
        call_ensures(
            run::<P, S, E, D, Fut, C, ES, EE>,
            (params, decode, procedure, encode_success, encode_error),
            r,
        ),
        forall|d: Result<P, JsonError>| #[trigger]
            call_ensures(decode, (params,), d) ==> d == Err::<P, JsonError>(cause),
    ensures
        r is Err,
        is_own_error(r->Err_0, 10400, "Failed to deserialize params: "@, cause),
{
}

/// A run whose procedure is still pending after a million polls is answered with that.
pub proof fn runaway_procedures_are_aborted<
    P,
    S,
    E,
    D: FnOnce(Vec<u8>) -> Result<P, JsonError>,
    Fut: Future<Output = Result<S, RpcError<E>>>,
    C: FnOnce(P) -> Fut,
    ES: FnOnce(S) -> Result<Vec<u8>, JsonError>,
    EE: FnOnce(E) -> Result<Vec<u8>, JsonError>,
>(
    params: Vec<u8>,
    decode: D,
    procedure: C,
    encode_success: ES,
    encode_error: EE,
    r: Result<Vec<u8>, HostRpcError>,
    p: P,
)
    requires
        call_ensures(
            run::<P, S, E, D, Fut, C, ES, EE>,
            (params, decode, procedure, encode_success, encode_error),
            r,
        ),
        forall|d: Result<P, JsonError>| #[trigger]
            call_ensures(decode, (params,), d) ==> d == Ok::<P, JsonError>(p),
        forall|
            fut: Fut,
            polled: Result<Result<S, RpcError<E>>, BusyLoopBudgetExceeded>,
        | #[trigger]
            call_ensures(procedure, (p,), fut) && #[trigger] is_awaited(fut, polled)
                ==> polled is Err,
    ensures
        r is Err,
        r->Err_0.code == 10508,
        r->Err_0.data is None,
        r->Err_0.message@ == "procedure exceeded busy-loop budget of "@ + decimal(1_000_000)
            + " Pending polls"@,
{
}

/// A run whose procedure succeeds is answered with the bytes that encoding its result gave: all of
/// them and no others. Where the result does not encode, it is answered with that.
pub proof fn success_is_answered_whole<
    P,
    S,
    E,
    D: FnOnce(Vec<u8>) -> Result<P, JsonError>,
    Fut: Future<Output = Result<S, RpcError<E>>>,
    C: FnOnce(P) -> Fut,
    ES: FnOnce(S) -> Result<Vec<u8>, JsonError>,
    EE: FnOnce(E) -> Result<Vec<u8>, JsonError>,
>(
    params: Vec<u8>,
    decode: D,
    procedure: C,
    encode_success: ES,
    encode_error: EE,
    r: Result<Vec<u8>, HostRpcError>,
    p: P,
    v: S,
    encoded: Result<Seq<u8>, JsonError>,
)
    requires
        call_ensures(
            run::<P, S, E, D, Fut, C, ES, EE>,
            (params, decode, procedure, encode_success, encode_error),
            r,
        ),
        forall|d: Result<P, JsonError>| #[trigger]
            call_ensures(decode, (params,), d) ==> d == Ok::<P, JsonError>(p),
        forall|
            fut: Fut,
            polled: Result<Result<S, RpcError<E>>, BusyLoopBudgetExceeded>,
        | #[trigger]
            call_ensures(procedure, (p,), fut) && #[trigger] is_awaited(fut, polled) ==> polled
                == Ok::<Result<S, RpcError<E>>, BusyLoopBudgetExceeded>(Ok(v)),
        forall|x: Result<Vec<u8>, JsonError>| #[trigger]
            call_ensures(encode_success, (v,), x) ==> match x {
                Ok(bytes) => encoded == Ok::<Seq<u8>, JsonError>(bytes@),
                Err(e) => encoded == Err::<Seq<u8>, JsonError>(e),
            },
    ensures
        encoded matches Ok(bytes) ==> r is Ok && r->Ok_0@ == bytes,
        encoded matches Err(cause) ==> r is Err && is_own_error(
            r->Err_0,
            10500,
            "Failed to serialize success data: "@,
            cause,
        ),
{
}

/// Whatever the functions that a run is given do, an answer that is a success holds all the bytes
/// that encoding gave of a result that the procedure came to, on parameters that the run's own
/// bytes decoded to.
pub proof fn answers_are_those_of_the_procedure<
    P,
    S,
    E,
    D: FnOnce(Vec<u8>) -> Result<P, JsonError>,
    Fut: Future<Output = Result<S, RpcError<E>>>,
    C: FnOnce(P) -> Fut,
    ES: FnOnce(S) -> Result<Vec<u8>, JsonError>,
    EE: FnOnce(E) -> Result<Vec<u8>, JsonError>,
>(
    params: Vec<u8>,
    decode: D,
    procedure: C,
    encode_success: ES,
    encode_error: EE,
    r: Result<Vec<u8>, HostRpcError>,
)
    requires
        call_ensures(
            run::<P, S, E, D, Fut, C, ES, EE>,
            (params, decode, procedure, encode_success, encode_error),
            r,
        ),
        r is Ok,
    ensures
        exists|p: P, fut: Fut, v: S, bytes: Vec<u8>|
            call_ensures(decode, (params,), Ok::<P, JsonError>(p)) && #[trigger] call_ensures(
                procedure,
                (p,),
                fut,
            ) && is_awaited(
                fut,
                Ok::<Result<S, RpcError<E>>, BusyLoopBudgetExceeded>(Ok(v)),
            ) && #[trigger] call_ensures(encode_success, (v,), Ok::<Vec<u8>, JsonError>(bytes))
                && r->Ok_0@ == bytes@,
{
    let d = choose|d: Result<P, JsonError>| #[trigger]
        call_ensures(decode, (params,), d) && d is Ok && exists|
            fut: Fut,
            polled: Result<Result<S, RpcError<E>>, BusyLoopBudgetExceeded>,
        | #[trigger]
            call_ensures(procedure, (d->Ok_0,), fut) && #[trigger] is_awaited(fut, polled)
                && polled is Ok && polled->Ok_0 is Ok && exists|x: Result<Vec<u8>, JsonError>|
                #[trigger] call_ensures(encode_success, (polled->Ok_0->Ok_0,), x) && x is Ok
                    && r->Ok_0@ == x->Ok_0@;
    let (fut, polled) = choose|
        fut: Fut,
        polled: Result<Result<S, RpcError<E>>, BusyLoopBudgetExceeded>,
    | #[trigger]
        call_ensures(procedure, (d->Ok_0,), fut) && #[trigger] is_awaited(fut, polled)
            && polled is Ok && polled->Ok_0 is Ok && exists|x: Result<Vec<u8>, JsonError>|
            #[trigger] call_ensures(encode_success, (polled->Ok_0->Ok_0,), x) && x is Ok
                && r->Ok_0@ == x->Ok_0@;
    let x = choose|x: Result<Vec<u8>, JsonError>| #[trigger]
        call_ensures(encode_success, (polled->Ok_0->Ok_0,), x) && x is Ok && r->Ok_0@ == x->Ok_0@;
    assert(call_ensures(decode, (params,), Ok::<P, JsonError>(d->Ok_0)));
    assert(call_ensures(encode_success, (polled->Ok_0->Ok_0,), Ok::<Vec<u8>, JsonError>(x->Ok_0)));
}

/// A run whose procedure fails is answered with the procedure's own code and message and with all
/// the bytes that encoding the error's data gave, where it has data. Where the data does not
/// encode, it is answered with that.
pub proof fn failure_is_answered_whole<
    P,
    S,
    E,
    D: FnOnce(Vec<u8>) -> Result<P, JsonError>,
    Fut: Future<Output = Result<S, RpcError<E>>>,
    C: FnOnce(P) -> Fut,
    ES: FnOnce(S) -> Result<Vec<u8>, JsonError>,
    EE: FnOnce(E) -> Result<Vec<u8>, JsonError>,
>(
    params: Vec<u8>,
    decode: D,
    procedure: C,
    encode_success: ES,
    encode_error: EE,
    r: Result<Vec<u8>, HostRpcError>,
    p: P,
    err: RpcError<E>,
    encoded: Result<Seq<u8>, JsonError>,
)
    requires
        call_ensures(
            run::<P, S, E, D, Fut, C, ES, EE>,
            (params, decode, procedure, encode_success, encode_error),
            r,
        ),
        forall|d: Result<P, JsonError>| #[trigger]
            call_ensures(decode, (params,), d) ==> d == Ok::<P, JsonError>(p),
        forall|
            fut: Fut,
            polled: Result<Result<S, RpcError<E>>, BusyLoopBudgetExceeded>,
        | #[trigger]
            call_ensures(procedure, (p,), fut) && #[trigger] is_awaited(fut, polled) ==> polled
                == Ok::<Result<S, RpcError<E>>, BusyLoopBudgetExceeded>(Err(err)),
        err.data is Some ==> forall|x: Result<Vec<u8>, JsonError>| #[trigger]
            call_ensures(encode_error, (err.data->Some_0,), x) ==> match x {
                Ok(bytes) => encoded == Ok::<Seq<u8>, JsonError>(bytes@),
                Err(e) => encoded == Err::<Seq<u8>, JsonError>(e),
            },
    ensures
        r is Err,
        err.data is None ==> r->Err_0.code == err.code && r->Err_0.message@ == err.message@
            && r->Err_0.data is None,
        err.data is Some ==> (encoded matches Ok(bytes) ==> r->Err_0.code == err.code
            && r->Err_0.message@ == err.message@ && r->Err_0.data is Some
            && r->Err_0.data->Some_0@ == bytes),
        err.data is Some ==> (encoded matches Err(cause) ==> is_own_error(
            r->Err_0,
            10501,
            "Failed to serialize error data: "@,
            cause,
        )),
{
}

/// The steps of a run lose nothing of what they are given.
pub proof fn steps_of_a_run_lose_nothing<P, T>(
    decoded: Result<P, JsonError>,
    params: Result<P, HostRpcError>,
    polled: Result<T, BusyLoopBudgetExceeded>,
    outcome: Result<T, HostRpcError>,
    encoded: Result<Vec<u8>, JsonError>,
    success: Result<Vec<u8>, HostRpcError>,
    code: i32,
    message: String,
    data: Option<Result<Vec<u8>, JsonError>>,
    failure: HostRpcError,
)
    ensures
        call_ensures(decoded_params::<P>, (decoded,), params) ==> match decoded {
            Ok(p) => params == Ok::<P, HostRpcError>(p),
            Err(e) => params is Err && is_own_error(
                params->Err_0,
                10400,
                "Failed to deserialize params: "@,
                e,
            ),
        },
        call_ensures(polled_result::<T>, (polled,), outcome) ==> match polled {
            Ok(v) => outcome == Ok::<T, HostRpcError>(v),
            Err(_) => outcome is Err && outcome->Err_0.code == 10508 && outcome->Err_0.data is None
                && outcome->Err_0.message@ == "procedure exceeded busy-loop budget of "@ + decimal(
                1_000_000,
            ) + " Pending polls"@,
        },
        call_ensures(success_reply, (encoded,), success) ==> match encoded {
            Ok(bytes) => success is Ok && success->Ok_0@ == bytes@,
            Err(e) => success is Err && is_own_error(
                success->Err_0,
                10500,
                "Failed to serialize success data: "@,
                e,
            ),
        },
        call_ensures(error_reply, (code, message, data), failure) ==> match data {
            None => failure.code == code && failure.message@ == message@ && failure.data is None,
            Some(Ok(bytes)) => failure.code == code && failure.message@ == message@
                && failure.data is Some && failure.data->Some_0@ == bytes@,
            Some(Err(e)) => is_own_error(failure, 10501, "Failed to serialize error data: "@, e),
        },
{
}

/// A log line holds the level, the target and the message whole.
pub proof fn log_lines_are_whole(level: &str, target: &str, message: &str, r: String)
    requires
        call_ensures(log_line, (level, target, message), r),
    ensures
        r@ == level@ + " "@ + target@ + ": "@ + message@,
{
}

// ---------------------------------------------------------------------------------------------
// Replies of the host
// ---------------------------------------------------------------------------------------------

/// Whether an error is, field by field, the one that the server sent, with data that decodes to
/// `data`.
pub open spec fn is_typed<E>(err: RpcError<E>, sent: HostRpcError, data: Option<E>) -> bool {
    err.code == sent.code && err.message == sent.message && err.data == data
}

/// A raw call keeps the two layers apart: what the transport reports is the outer error, what the
/// server reports the inner one. A result is handed on as it decodes, and so is the data of an
/// error.
pub proof fn raw_calls_keep_both_layers<
    Rs,
    Re,
    F: FnOnce(Vec<u8>) -> Result<Rs, JsonError>,
    G: FnOnce(Vec<u8>) -> Result<Re, JsonError>,
>(
    reply: HostReply,
    decode: F,
    decode_data: G,
    result: Result<Rs, JsonError>,
    data: Result<Re, JsonError>,
    r: Result<Result<Rs, RpcError<Re>>, IoError>,
)
    requires
        call_ensures(call_rpc::<Rs, Re, F, G>, (reply, decode, decode_data), r),
        reply matches Ok(Ok(bytes)) ==> forall|d: Result<Rs, JsonError>| #[trigger]
            call_ensures(decode, (bytes,), d) ==> d == result,
        reply matches Ok(Err(err)) ==> (err.data matches Some(bytes) ==> forall|
            d: Result<Re, JsonError>,
        | #[trigger]
            call_ensures(decode_data, (bytes,), d) ==> d == data),
    ensures
        reply matches Err(code)
            ==> r == Err::<Result<Rs, RpcError<Re>>, IoError>(IoError::Os(code)),
        reply matches Ok(Ok(_)) ==> match result {
            Ok(v) => r == Ok::<Result<Rs, RpcError<Re>>, IoError>(Ok(v)),
            Err(e) => r == Err::<Result<Rs, RpcError<Re>>, IoError>(IoError::InvalidInput(e)),
        },
        reply matches Ok(Err(err)) ==> if err.data is None {
            r matches Ok(Err(x)) && is_typed(x, err, None)
        } else {
            match data {
                Ok(v) => r matches Ok(Err(x)) && is_typed(x, err, Some(v)),
                Err(e) => r == Err::<Result<Rs, RpcError<Re>>, IoError>(IoError::InvalidInput(e)),
            }
        },
{
}

/// An error of the server keeps its code and its message and gets its data as it decodes.
pub proof fn server_errors_are_typed<E, G: FnOnce(Vec<u8>) -> Result<E, JsonError>>(
    err: HostRpcError,
    decode: G,
    data: Result<E, JsonError>,
    r: Result<RpcError<E>, IoError>,
)
    requires
        call_ensures(decode_rpc_error::<E, G>, (err, decode), r),
        err.data matches Some(bytes) ==> forall|d: Result<E, JsonError>| #[trigger]
            call_ensures(decode, (bytes,), d) ==> d == data,
    ensures
        err.data is None ==> r is Ok && is_typed(r->Ok_0, err, None),
        err.data is Some ==> match data {
            Ok(v) => r is Ok && is_typed(r->Ok_0, err, Some(v)),
            Err(e) => r == Err::<RpcError<E>, IoError>(IoError::InvalidInput(e)),
        },
{
}

/// Encoded parameters go out as they are; an error of the SDK holds what it was given.
pub proof fn parameters_go_out_whole(
    encoded: Result<Vec<u8>, JsonError>,
    r: Result<Vec<u8>, IoError>,
    code: i32,
    message: String,
    err: HostRpcError,
)
    ensures
        call_ensures(encode_params, (encoded,), r) ==> match encoded {
            Ok(bytes) => r == Ok::<Vec<u8>, IoError>(bytes),
            Err(e) => r == Err::<Vec<u8>, IoError>(IoError::InvalidInput(e)),
        },
        call_ensures(sys_err, (code, message), err) ==> err.code == code && err.message == message
            && err.data is None,
{
}

// ---------------------------------------------------------------------------------------------
// Subscriptions
// ---------------------------------------------------------------------------------------------

/// A notification is handed on as it decodes; a failure of the host is its error code.
pub proof fn notifications_are_handed_on<H, N, F: FnOnce(Vec<u8>) -> Result<N, JsonError>>(
    subscription: Subscription<H>,
    received: Result<Vec<u8>, i32>,
    decode: F,
    decoded: Result<N, JsonError>,
    r: Result<N, IoError>,
)
    requires
        call_ensures(Subscription::<H>::recv::<N, F>, (&subscription, received, decode), r),
        received matches Ok(bytes) ==> forall|d: Result<N, JsonError>| #[trigger]
            call_ensures(decode, (bytes,), d) ==> d == decoded,
    ensures
        received matches Err(code) ==> r == Err::<N, IoError>(IoError::Os(code)),
        received is Ok ==> match decoded {
            Ok(v) => r == Ok::<N, IoError>(v),
            Err(e) => r == Err::<N, IoError>(IoError::InvalidInput(e)),
        },
{
}

/// A subscription that the host opened becomes a stream that has not ended; a refused one is an
/// error with the server's code and message and with its data as it decodes.
pub proof fn subscriptions_open_or_say_why<H>(
    client: PubsubClient,
    reply: Result<Result<H, HostRpcError>, i32>,
    r: Result<SubscriptionStream<H>, PubsubClientError>,
)
    requires
        call_ensures(PubsubClient::subscribe::<H>, (&client, reply), r),
    ensures
        reply matches Ok(Ok(handle)) ==> r is Ok && r->Ok_0.subscription.handle == handle
            && !r->Ok_0.done,
        reply matches Err(code) ==> r == Err::<SubscriptionStream<H>, PubsubClientError>(
            PubsubClientError::Io(IoError::Os(code)),
        ),
        reply matches Ok(Err(err)) ==> if err.data is Some && json_document(
            err.data->Some_0@,
        ) is Err {
            r == Err::<SubscriptionStream<H>, PubsubClientError>(
                PubsubClientError::Io(
                    IoError::InvalidInput(json_document(err.data->Some_0@)->Err_0),
                ),
            )
        } else {
            r is Err && (r->Err_0 matches PubsubClientError::SubscribeFailed { code, message, data }
                && code == err.code && message@ == err.message@ && data == match err.data {
                Some(bytes) => Some(json_document(bytes@)->Ok_0),
                None => None::<Value>,
            })
        },
{
}

/// Opening a subscription keeps the two layers of the host's reply apart.
pub proof fn opening_keeps_both_layers<H, Re, G: FnOnce(Vec<u8>) -> Result<Re, JsonError>>(
    reply: Result<Result<H, HostRpcError>, i32>,
    decode_data: G,
    data: Result<Re, JsonError>,
    r: Result<Result<Subscription<H>, RpcError<Re>>, IoError>,
)
    requires
        call_ensures(Subscription::<H>::new::<Re, G>, (reply, decode_data), r),
        reply matches Ok(Err(err)) ==> (err.data matches Some(bytes) ==> forall|
            d: Result<Re, JsonError>,
        | #[trigger]
            call_ensures(decode_data, (bytes,), d) ==> d == data),
    ensures
        reply matches Ok(Ok(handle)) ==> (r matches Ok(Ok(x)) && x.handle == handle),
        reply matches Err(code) ==> r == Err::<Result<Subscription<H>, RpcError<Re>>, IoError>(
            IoError::Os(code),
        ),
        reply matches Ok(Err(err)) ==> if err.data is None {
            r matches Ok(Err(x)) && is_typed(x, err, None)
        } else {
            match data {
                Ok(v) => r matches Ok(Err(x)) && is_typed(x, err, Some(v)),
                Err(e) => r == Err::<Result<Subscription<H>, RpcError<Re>>, IoError>(
                    IoError::InvalidInput(e),
                ),
            }
        },
{
}

/// A stream that has not ended hands on each notification as it decodes and goes on. It hands on a
/// failure too and ends with it, and only with it. One that has ended hands out nothing and stays
/// ended.
pub proof fn streams_end_with_a_failure<H, N, F: FnOnce(Vec<u8>) -> Result<N, JsonError>>(
    stream: &mut SubscriptionStream<H>,
    received: Result<Vec<u8>, i32>,
    decode: F,
    decoded: Result<N, JsonError>,
    r: Option<Result<N, IoError>>,
)
    requires
        call_ensures(SubscriptionStream::<H>::poll_next::<N, F>, (stream, received, decode), r),
        received matches Ok(bytes) ==> forall|d: Result<N, JsonError>| #[trigger]
            call_ensures(decode, (bytes,), d) ==> d == decoded,
    ensures
        final(stream).subscription == old(stream).subscription,
        old(stream).done ==> r is None && final(stream).done,
        !old(stream).done ==> match received {
            Err(code) => r == Some(Err::<N, IoError>(IoError::Os(code))) && final(stream).done,
            Ok(_) => match decoded {
                Ok(v) => r == Some(Ok::<N, IoError>(v)) && !final(stream).done,
                Err(e) => {
                    &&& r == Some(Err::<N, IoError>(IoError::InvalidInput(e)))
                    &&& final(stream).done
                },
            },
        },
{
}

/// A stream starts open and knows whether it has ended; a refusal keeps what the server said.
pub proof fn streams_start_open<H>(
    subscription: Subscription<H>,
    stream: SubscriptionStream<H>,
    done: bool,
    err: RpcError<Value>,
    refused: PubsubClientError,
)
    ensures
        call_ensures(Subscription::<H>::into_stream, (subscription,), stream)
            ==> stream.subscription
            == subscription && !stream.done,
        call_ensures(SubscriptionStream::<H>::is_done, (&stream,), done) ==> done == stream.done,
        call_ensures(subscribe_failed, (err,), refused) ==> (
        refused matches PubsubClientError::SubscribeFailed { code, message, data }
            && code == err.code
            && message == err.message && data == err.data),
{
}

} // verus!
