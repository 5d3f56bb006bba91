//! Host subscriptions and the stream made of one.
//!
//! A subscription is a handle `H` of the host. Opening one and receiving from it are calls of the
//! host; this module says what their results mean.

use serde_json::Error as JsonError;
use vstd::prelude::*;

use crate::host::{
    decode_rpc_error, decodes_rpc_error, invalid_input, HostRpcError, IoError, RpcError,
};

verus! {

/// An open subscription.
#[derive(Debug)]
pub struct Subscription<H> {
    pub handle: H,
}

/// What a notification decodes to: the transport failure where the host reported one or the
/// notification is not the JSON that was expected.
pub open spec fn is_received<N, F: FnOnce(Vec<u8>) -> Result<N, JsonError>>(
    received: Result<Vec<u8>, i32>,
    decode: F,
    r: Result<N, IoError>,
) -> bool {
    match received {
        Err(code) => r == Err::<N, IoError>(IoError::Os(code)),
        Ok(bytes) => exists|d: Result<N, JsonError>| #[trigger]
            call_ensures(decode, (bytes,), d) && r == match d {
                Ok(v) => Ok::<N, IoError>(v),
                Err(e) => Err(IoError::InvalidInput(e)),
            },
    }
}

impl<H> Subscription<H> {
    /// The result of subscribing, made of the host's reply. Two layers, as in the host's interface:
    /// the outer `Err` is transport, the inner `Err` is an error that the server returned.
    pub fn new<Re, G: FnOnce(Vec<u8>) -> Result<Re, JsonError>>(
        reply: Result<Result<H, HostRpcError>, i32>,
        decode_data: G,
    ) -> (r: Result<Result<Subscription<H>, RpcError<Re>>, IoError>)
        requires
            forall|bytes: Vec<u8>| call_requires(decode_data, (bytes,)),
        ensures
            match reply {
                Err(code) => r == Err::<Result<Subscription<H>, RpcError<Re>>, IoError>(
                    IoError::Os(code),
                ),
                Ok(Ok(handle)) => r == Ok::<Result<Subscription<H>, RpcError<Re>>, IoError>(
                    Ok(Subscription { handle }),
                ),
                Ok(Err(err)) => exists|d: Result<RpcError<Re>, IoError>| #[trigger]
                    decodes_rpc_error(err, decode_data, d) && r == match d {
                        Ok(v) => Ok::<Result<Subscription<H>, RpcError<Re>>, IoError>(Err(v)),
                        Err(e) => Err(e),
                    },
            },
    {
        match reply {
            Ok(Ok(handle)) => Ok(Ok(Subscription { handle })),
            Ok(Err(err)) => match decode_rpc_error(err, decode_data) {
                Ok(v) => Ok(Err(v)),
                Err(e) => Err(e),
            },
            Err(code) => Err(IoError::Os(code)),
        }
    }

    /// The notification in what the host's `recv` returned.
    pub fn recv<N, F: FnOnce(Vec<u8>) -> Result<N, JsonError>>(
        &self,
        received: Result<Vec<u8>, i32>,
        decode: F,
    ) -> (r: Result<N, IoError>)
        requires
            forall|bytes: Vec<u8>| call_requires(decode, (bytes,)),
        ensures
            is_received(received, decode, r),
    {
        match received {
            Ok(bytes) => match decode(bytes) {
                Ok(v) => Ok(v),
                Err(e) => Err(invalid_input(e)),
            },
            Err(code) => Err(IoError::Os(code)),
        }
    }

    /// The stream of this subscription's notifications.
    pub fn into_stream(self) -> (r: SubscriptionStream<H>)
        ensures
            r == (SubscriptionStream { subscription: self, done: false }),
    {
        SubscriptionStream { subscription: self, done: false }
    }
}

/// The stream of a subscription's notifications. It ends after the first failure.
#[derive(Debug)]
pub struct SubscriptionStream<H> {
    pub subscription: Subscription<H>,
    /// The stream has ended: there is nothing more to receive.
    pub done: bool,
}

impl<H> SubscriptionStream<H> {
    /// Whether the stream has ended. The host is not asked for more once it has.
    pub fn is_done(&self) -> (r: bool)
        ensures
            r == self.done,
    {
        self.done
    }

    /// The next item, given what the host's `recv` returned: a notification, or a failure, which is
    /// the last item. `None` once the stream has ended.
    pub fn poll_next<N, F: FnOnce(Vec<u8>) -> Result<N, JsonError>>(
        &mut self,
        received: Result<Vec<u8>, i32>,
        decode: F,
    ) -> (r: Option<Result<N, IoError>>)
        requires
            forall|bytes: Vec<u8>| call_requires(decode, (bytes,)),
        ensures
            final(self).subscription == old(self).subscription,
            old(self).done ==> r is None && final(self).done,
            !old(self).done ==> exists|item: Result<N, IoError>| #[trigger]
                is_received(received, decode, item) && (r, final(self).done) == stream_step(
                    false,
                    item,
                ),
    {
        if self.done {
            return None;
        }
        match self.subscription.recv(received, decode) {
            Ok(v) => Some(Ok(v)),
            Err(e) => {
                self.done = true;
                Some(Err(e))
            },
        }
    }
}

/// What an attempt to receive that comes to `item` hands out, and whether the stream has ended then.
pub open spec fn stream_step<N>(done: bool, item: Result<N, IoError>) -> (
    Option<Result<N, IoError>>,
    bool,
) {
    if done {
        (None, true)
    } else {
        (Some(item), item is Err)
    }
}

/// The items of a stream that has or has not ended, given what each attempt to receive comes to.
pub open spec fn stream_items<N>(done: bool, received: Seq<Result<N, IoError>>) -> Seq<
    Option<Result<N, IoError>>,
>
    decreases received.len(),
{
    if received.len() == 0 {
        Seq::empty()
    } else {
        let (item, ended) = stream_step(done, received[0]);
        seq![item] + stream_items(ended, received.drop_first())
    }
}

/// A stream hands out every notification in order up to and with the first failure, and nothing
/// after it.
pub proof fn stream_ends_after_failure<N>(received: Seq<Result<N, IoError>>, k: int)
    requires
        0 <= k < received.len(),
        received[k] is Err,
        forall|i: int| 0 <= i < k ==> (#[trigger] received[i]) is Ok,
    ensures
        stream_items(false, received).len() == received.len(),
        forall|i: int|
            0 <= i <= k ==> (#[trigger] stream_items(false, received)[i]) == Some(received[i]),
        forall|i: int|
            k < i < received.len() ==> (#[trigger] stream_items(false, received)[i]) is None,
    decreases received.len(),
{
    let rest = received.drop_first();
    assert(forall|i: int| 0 <= i < rest.len() ==> rest[i] == received[i + 1]);
    if k == 0 {
        ended_stream_is_empty(rest);
        assert forall|i: int| k < i < received.len() implies (#[trigger] stream_items(
            false,
            received,
        )[i]) is None by {
            assert(stream_items(true, rest)[i - 1] is None);
        }
    } else {
        stream_ends_after_failure(rest, k - 1);
        assert forall|i: int| 0 <= i <= k implies (#[trigger] stream_items(false, received)[i])
            == Some(received[i]) by {
            if i > 0 {
                assert(stream_items(false, rest)[i - 1] == Some(rest[i - 1]));
            }
        }
        assert forall|i: int| k < i < received.len() implies (#[trigger] stream_items(
            false,
            received,
        )[i]) is None by {
            assert(stream_items(false, rest)[i - 1] is None);
        }
    }
}

/// A stream that has ended hands out nothing, whatever the host might send.
pub proof fn ended_stream_is_empty<N>(received: Seq<Result<N, IoError>>)
    ensures
        stream_items(true, received).len() == received.len(),
        forall|i: int|
            0 <= i < received.len() ==> (#[trigger] stream_items(true, received)[i]) is None,
    decreases received.len(),
{
    if received.len() > 0 {
        ended_stream_is_empty(received.drop_first());
        assert forall|i: int| 0 <= i < received.len() implies (#[trigger] stream_items(
            true,
            received,
        )[i]) is None by {
            if i > 0 {
                assert(stream_items(true, received.drop_first())[i - 1] is None);
            }
        }
    }
}

} // verus!
