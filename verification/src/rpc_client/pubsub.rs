//! Subscriptions to a node's notifications.
//!
//! A method of [`PubsubClient`] builds the subscription that goes to the host; what the host
//! answers goes to [`PubsubClient::subscribe`].

use serde_json::Value;
use vstd::prelude::*;
use vstd::std_specs::convert::FromSpecImpl;
use vstd::string::*;

use crate::bindings::{
    json_document, parse_json, pubkey_text, pubkey_to_string, signature_text, signature_to_string,
};
use crate::host::{io_error_displays, HostRpcError, HostRpcErrorView, IoError, RpcError};
use crate::rpc_client::config::{
    RpcAccountInfoConfig, RpcBlockSubscribeConfig, RpcBlockSubscribeFilter,
    RpcProgramAccountsConfig, RpcSignatureSubscribeConfig, RpcTransactionLogsConfig,
    RpcTransactionLogsFilter,
};
use crate::rpc_client::keys::{Pubkey, Signature};
use crate::rpc_client::request::{Param, ParamView};
use crate::subscription::{Subscription, SubscriptionStream};
use crate::text::{joined, signed_decimal, signed_decimal_text};

verus! {

/// Why a subscription could not be opened.
#[derive(Debug)]
pub enum PubsubClientError {
    /// The server refused it.
    SubscribeFailed { code: i32, message: String, data: Option<Value> },
    /// The transport failed.
    Io(IoError),
}

/// Why a subscription could not be opened, strings as sequences of characters.
pub ghost enum PubsubClientErrorView {
    SubscribeFailed { code: i32, message: Seq<char>, data: Option<Value> },
    Io(IoError),
}

impl View for PubsubClientError {
    type V = PubsubClientErrorView;

    open spec fn view(&self) -> PubsubClientErrorView {
        match *self {
            PubsubClientError::SubscribeFailed { code, message, data } => {
                PubsubClientErrorView::SubscribeFailed { code, message: message@, data }
            },
            PubsubClientError::Io(e) => PubsubClientErrorView::Io(e),
        }
    }
}

impl From<IoError> for PubsubClientError {
    fn from(err: IoError) -> (r: PubsubClientError) {
        PubsubClientError::Io(err)
    }
}

impl FromSpecImpl<IoError> for PubsubClientError {
    open spec fn obeys_from_spec() -> bool {
        true
    }

    open spec fn from_spec(err: IoError) -> PubsubClientError {
        PubsubClientError::Io(err)
    }
}

/// Whether `text` is the text of an error. That of an operating-system error is the system's own.
pub open spec fn pubsub_error_displays(err: PubsubClientErrorView, text: Seq<char>) -> bool {
    match err {
        PubsubClientErrorView::SubscribeFailed { code, message, .. } => text
            == "subscribe failed: "@ + signed_decimal(code as int) + " "@ + message,
        PubsubClientErrorView::Io(e) => io_error_displays(e, text),
    }
}

impl PubsubClientError {
    /// The error as text. An operating-system error has the text that the system gives it.
    pub fn to_text(&self) -> (r: String)
        ensures
            pubsub_error_displays(self@, r@),
    {
        match self {
            PubsubClientError::SubscribeFailed { code, message, .. } => {
                let mut r = joined("subscribe failed: ", signed_decimal_text(*code as i64).as_str());
                r.append(" ");
                r.append(message.as_str());
                r
            },
            PubsubClientError::Io(e) => e.to_text(),
        }
    }
}

/// The stream of a subscription's notifications.
pub type PubsubClientStream<H> = SubscriptionStream<H>;

/// A subscription: what goes to the host.
#[derive(Debug, Clone, PartialEq, Eq)]
pub struct SubscribeCall {
    pub method: &'static str,
    pub params: Vec<Param>,
}

/// A subscription: its method and its parameters.
pub ghost struct SubscribeCallView {
    pub method: Seq<char>,
    pub params: Seq<ParamView>,
}

impl View for SubscribeCall {
    type V = SubscribeCallView;

    open spec fn view(&self) -> SubscribeCallView {
        SubscribeCallView {
            method: self.method@,
            params: self.params@.map_values(|p: Param| p@),
        }
    }
}

/// The result of a subscription that the server refused.
pub open spec fn refused(err: HostRpcErrorView) -> PubsubClientErrorView {
    match err.data {
        None => PubsubClientErrorView::SubscribeFailed {
            code: err.code,
            message: err.message,
            data: None,
        },
        Some(bytes) => match json_document(bytes) {
            Ok(data) => PubsubClientErrorView::SubscribeFailed {
                code: err.code,
                message: err.message,
                data: Some(data),
            },
            Err(e) => PubsubClientErrorView::Io(IoError::InvalidInput(e)),
        },
    }
}

/// The error of a subscription that the server refused with `err`.
pub fn subscribe_failed(err: RpcError<Value>) -> (r: PubsubClientError)
    ensures
        r == (PubsubClientError::SubscribeFailed {
            code: err.code,
            message: err.message,
            data: err.data,
        }),
{
    let RpcError { code, message, data } = err;
    PubsubClientError::SubscribeFailed { code, message, data }
}

/// Opens subscriptions through the host.
#[derive(Debug)]
pub struct PubsubClient {
    _priv: (),
}

impl Default for PubsubClient {
    fn default() -> (r: PubsubClient)
        ensures
            r == PubsubClient::spec_new(),
    {
        PubsubClient { _priv: () }
    }
}

fn subscription0(method: &'static str) -> (r: SubscribeCall)
    ensures
        r@ == (SubscribeCallView { method: method@, params: Seq::empty() }),
{
    let r = SubscribeCall { method, params: Vec::new() };
    assert(r@.params =~= Seq::empty());
    r
}

fn subscription2(method: &'static str, a: Param, b: Param) -> (r: SubscribeCall)
    ensures
        r@ == (SubscribeCallView { method: method@, params: seq![a@, b@] }),
{
    let r = SubscribeCall { method, params: vec![a, b] };
    assert(r@.params =~= seq![a@, b@]);
    r
}

impl PubsubClient {
    /// The one client there is: it holds nothing.
    pub closed spec fn spec_new() -> PubsubClient {
        PubsubClient { _priv: () }
    }

    /// A client.
    pub fn new() -> (r: PubsubClient)
        ensures
            r == PubsubClient::spec_new(),
    {
        PubsubClient::default()
    }

    /// The stream of a subscription, made of the host's reply.
    pub fn subscribe<H>(&self, reply: Result<Result<H, HostRpcError>, i32>) -> (r: Result<
        PubsubClientStream<H>,
        PubsubClientError,
    >)
        ensures
            match reply {
                Ok(Ok(handle)) => r == Ok::<SubscriptionStream<H>, PubsubClientError>(
                    SubscriptionStream { subscription: Subscription { handle }, done: false },
                ),
                Ok(Err(err)) => r matches Err(e) && e@ == refused(err@),
                Err(code) => r matches Err(e) && e@ == PubsubClientErrorView::Io(IoError::Os(code)),
            },
    {
        match Subscription::new(reply, parse_json) {
            Ok(Ok(subscription)) => Ok(subscription.into_stream()),
            Ok(Err(err)) => Err(subscribe_failed(err)),
            Err(e) => Err(PubsubClientError::from(e)),
        }
    }

    /// Changes of an account.
    pub fn account_subscribe(&self, pubkey: &Pubkey, config: Option<RpcAccountInfoConfig>) -> (r:
        SubscribeCall)
        ensures
            r@ == (SubscribeCallView {
                method: "account"@,
                params: seq![
                    ParamView::Text(pubkey_text(*pubkey)),
                    ParamView::OptionalAccountInfo(config),
                ],
            }),
    {
        subscription2(
            "account",
            Param::Text(pubkey_to_string(pubkey)),
            Param::OptionalAccountInfo(config),
        )
    }

    /// New blocks.
    pub fn block_subscribe(
        &self,
        filter: RpcBlockSubscribeFilter,
        config: Option<RpcBlockSubscribeConfig>,
    ) -> (r: SubscribeCall)
        ensures
            r@ == (SubscribeCallView {
                method: "block"@,
                params: seq![
                    ParamView::BlockFilter(filter),
                    ParamView::OptionalBlockSubscribe(config),
                ],
            }),
    {
        subscription2(
            "block",
            Param::BlockFilter(filter),
            Param::OptionalBlockSubscribe(config),
        )
    }

    /// Transaction logs.
    pub fn logs_subscribe(
        &self,
        filter: RpcTransactionLogsFilter,
        config: RpcTransactionLogsConfig,
    ) -> (r: SubscribeCall)
        ensures
            r@ == (SubscribeCallView {
                method: "logs"@,
                params: seq![ParamView::LogsFilter(filter), ParamView::Logs(config)],
            }),
    {
        subscription2("logs", Param::LogsFilter(filter), Param::Logs(config))
    }

    /// Changes of the accounts of a program.
    pub fn program_subscribe(
        &self,
        pubkey: &Pubkey,
        config: Option<RpcProgramAccountsConfig>,
    ) -> (r: SubscribeCall)
        ensures
            r@ == (SubscribeCallView {
                method: "program"@,
                params: seq![
                    ParamView::Text(pubkey_text(*pubkey)),
                    ParamView::OptionalProgramAccounts(config),
                ],
            }),
    {
        subscription2(
            "program",
            Param::Text(pubkey_to_string(pubkey)),
            Param::OptionalProgramAccounts(config),
        )
    }

    /// Votes.
    pub fn vote_subscribe(&self) -> (r: SubscribeCall)
        ensures
            r@ == (SubscribeCallView { method: "vote"@, params: Seq::empty() }),
    {
        subscription0("vote")
    }

    /// New roots.
    pub fn root_subscribe(&self) -> (r: SubscribeCall)
        ensures
            r@ == (SubscribeCallView { method: "root"@, params: Seq::empty() }),
    {
        subscription0("root")
    }

    /// The outcome of a transaction.
    pub fn signature_subscribe(
        &self,
        signature: &Signature,
        config: Option<RpcSignatureSubscribeConfig>,
    ) -> (r: SubscribeCall)
        ensures
            r@ == (SubscribeCallView {
                method: "signature"@,
                params: seq![
                    ParamView::Text(signature_text(*signature)),
                    ParamView::OptionalSignatureSubscribe(config),
                ],
            }),
    {
        subscription2(
            "signature",
            Param::Text(signature_to_string(signature)),
            Param::OptionalSignatureSubscribe(config),
        )
    }

    /// New slots.
    pub fn slot_subscribe(&self) -> (r: SubscribeCall)
        ensures
            r@ == (SubscribeCallView { method: "slot"@, params: Seq::empty() }),
    {
        subscription0("slot")
    }

    /// Progress of slots.
    pub fn slot_updates_subscribe(&self) -> (r: SubscribeCall)
        ensures
            r@ == (SubscribeCallView { method: "slotsUpdates"@, params: Seq::empty() }),
    {
        subscription0("slotsUpdates")
    }
}

} // verus!
