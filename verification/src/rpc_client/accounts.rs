//! Accounts and balances.

use serde_json::Error as JsonError;
use solana_rpc_client_types::response::{RpcResponseContext, UiAccount};
use vstd::prelude::*;
use vstd::string::*;

use crate::bindings::{
    account_from_json, account_option, accounts_from_json, accounts_ok, decode_account,
    decoded_account, is_json_null, json_account, json_accounts, json_document, json_is_null,
    json_keyed_accounts, json_u64, json_u64_response, parse_json,
    parse_keyed_accounts_json, parse_u64_response, parsed_pubkey, pubkey_from_str, pubkey_text,
    pubkey_to_string, text_err, u64_from_json,
};
use crate::host::HostReply;
use crate::rpc_client::client::{reply_bytes, sent, RpcClient, RpcResult};
use crate::rpc_client::config::{
    CommitmentConfig, RpcAccountInfoConfig, RpcProgramAccountsConfig, UiAccountEncoding,
};
use crate::rpc_client::error::{
    client_view, for_user, for_user_error, json_error, kind_displays, parse_error, parse_failure,
    ClientResult, Error, ErrorKind, ErrorView,
};
use crate::rpc_client::keys::Pubkey;
use crate::rpc_client::request::{
    call_with, texts, Param, ParamView, RpcCall, RpcCallView, RpcRequest,
};
use crate::rpc_client::response::{
    collected, collected_first_error, collected_ok, value_of, Account, AccountView, Response,
};
use crate::text::joined;

verus! {

// ---------------------------------------------------------------------------------------------
// One account
// ---------------------------------------------------------------------------------------------

/// What the user is told of an account that is not there.
pub open spec fn account_not_found(pubkey: Pubkey) -> Seq<char> {
    "AccountNotFound: pubkey="@ + pubkey_text(pubkey)
}

fn account_not_found_text(pubkey: &Pubkey) -> (r: String)
    ensures
        r@ == account_not_found(*pubkey),
{
    joined("AccountNotFound: pubkey=", pubkey_to_string(pubkey).as_str())
}

/// What the user is told of a request for an account that failed: that the account was not found,
/// and of the failure.
pub open spec fn account_failure_message(pubkey: Pubkey, failure: Seq<char>) -> Seq<char> {
    account_not_found(pubkey) + ": "@ + failure
}

/// Whether `r` is what a failed request for an account becomes. Its message ends with the text of
/// the failure.
pub open spec fn is_account_failure(pubkey: Pubkey, failure: ErrorView, r: ErrorView) -> bool {
    exists|text: Seq<char>| #[trigger]
        kind_displays(failure.kind, text) && r == for_user(account_failure_message(pubkey, text))
}

/// The error of a request for an account that failed with `err`.
pub fn account_failure(pubkey: &Pubkey, err: Error) -> (r: Error)
    ensures
        is_account_failure(*pubkey, err@, r@),
{
    let detail = err.to_text();
    let mut message = account_not_found_text(pubkey);
    message.append(": ");
    message.append(detail.as_str());
    assert(message@ == account_failure_message(*pubkey, detail@));
    for_user_error(message)
}

/// A reply about an account, given what it decoded to: `None` for `null`.
pub open spec fn account_document(
    pubkey: Pubkey,
    decoded: Option<Result<Response<Option<UiAccount>>, JsonError>>,
) -> Result<Response<Option<UiAccount>>, ErrorView> {
    match decoded {
        None => Err(for_user(account_not_found(pubkey))),
        Some(Err(e)) => Err(json_error(e)),
        Some(Ok(reply)) => Ok(reply),
    }
}

/// What the JSON of a reply about an account decodes to: `None` for `null`.
pub open spec fn decoded_document(json: serde_json::Value) -> Option<
    Result<Response<Option<UiAccount>>, JsonError>,
> {
    if is_json_null(json) {
        None
    } else {
        Some(json_account(json))
    }
}

/// A reply about an account, given what it decoded to: `None` for `null`.
pub fn account_reply(
    pubkey: &Pubkey,
    decoded: Option<Result<Response<Option<UiAccount>>, JsonError>>,
) -> (r: RpcResult<Option<UiAccount>>)
    ensures
        client_view(r) == account_document(*pubkey, decoded),
{
    match decoded {
        None => Err(for_user_error(account_not_found_text(pubkey))),
        Some(Err(e)) => Err(Error::from(e)),
        Some(Ok(reply)) => Ok(reply),
    }
}

pub(crate) fn decode_document(json: serde_json::Value) -> (r: Option<
    Result<Response<Option<UiAccount>>, JsonError>,
>)
    ensures
        r == decoded_document(json),
{
    if json_is_null(&json) {
        None
    } else {
        Some(account_from_json(json))
    }
}

/// An account as the node encodes it, decoded; none where it does not decode.
pub open spec fn decoded_option(account: Option<UiAccount>) -> Option<AccountView> {
    match account {
        Some(account) => decoded_account(account),
        None => None,
    }
}

fn decode_option(account: &Option<UiAccount>) -> (r: Option<Account>)
    ensures
        account_option(r) == decoded_option(*account),
{
    match account {
        Some(account) => decode_account(account),
        None => None,
    }
}

/// A reply that holds an account, its data as a sequence of bytes.
pub open spec fn account_view(r: RpcResult<Option<Account>>) -> Result<
    (RpcResponseContext, Option<AccountView>),
    ErrorView,
> {
    match r {
        Ok(reply) => Ok((reply.context, account_option(reply.value))),
        Err(e) => Err(e@),
    }
}

/// What a reply says of the account that was asked for.
pub open spec fn account_result(
    pubkey: Pubkey,
    json: serde_json::Value,
) -> Result<(RpcResponseContext, Option<AccountView>), ErrorView> {
    match account_document(pubkey, decoded_document(json)) {
        Ok(reply) => Ok((reply.context, decoded_option(reply.value))),
        Err(e) => Err(e),
    }
}

/// Whether `r` is the result of a request for an account, given the host's reply.
pub open spec fn is_account_reply(
    tx_debug: bool,
    pubkey: Pubkey,
    reply: HostReply,
    r: Result<(RpcResponseContext, Option<AccountView>), ErrorView>,
) -> bool {
    match sent(
        tx_debug,
        RpcRequest::GetAccountInfo,
        reply,
        json_document(reply_bytes(reply)),
    ) {
        Ok(json) => r == account_result(pubkey, json),
        Err(failure) => r matches Err(e) && is_account_failure(pubkey, failure, e),
    }
}

/// The account, where there is one.
pub fn found_account(pubkey: &Pubkey, account: Option<Account>) -> (r: ClientResult<Account>)
    ensures
        match account {
            Some(account) => r == Ok::<Account, Error>(account),
            None => r matches Err(e) && e@ == for_user(account_not_found(*pubkey)),
        },
{
    match account {
        Some(account) => Ok(account),
        None => Err(for_user_error(account_not_found_text(pubkey))),
    }
}

/// The request for an account.
pub open spec fn account_info_call(pubkey: Pubkey, config: RpcAccountInfoConfig) -> RpcCallView {
    call_with(
        RpcRequest::GetAccountInfo,
        seq![ParamView::Text(pubkey_text(pubkey)), ParamView::AccountInfo(config)],
    )
}

/// The options of a whole account in `encoding` at `commitment`.
pub open spec fn whole_account(
    encoding: UiAccountEncoding,
    commitment: CommitmentConfig,
) -> RpcAccountInfoConfig {
    RpcAccountInfoConfig {
        encoding: Some(encoding),
        commitment: Some(commitment),
        data_slice: None,
        min_context_slot: None,
    }
}

pub(crate) fn whole_account_config(encoding: UiAccountEncoding, commitment: CommitmentConfig) -> (r:
    RpcAccountInfoConfig)
    ensures
        r == whole_account(encoding, commitment),
{
    RpcAccountInfoConfig {
        encoding: Some(encoding),
        commitment: Some(commitment),
        data_slice: None,
        min_context_slot: None,
    }
}

pub(crate) fn account_info_request(pubkey: &Pubkey, config: RpcAccountInfoConfig) -> (r: RpcCall)
    ensures
        r@ == account_info_call(*pubkey, config),
{
    RpcCall::with2(
        RpcRequest::GetAccountInfo,
        Param::Text(pubkey_to_string(pubkey)),
        Param::AccountInfo(config),
    )
}

impl RpcClient {
    /// The account at `pubkey`, at the client's commitment.
    pub fn get_account(&self, pubkey: &Pubkey) -> (r: RpcCall)
        ensures
            r@ == account_info_call(
                *pubkey,
                whole_account(UiAccountEncoding::Base64Zstd, self.spec_commitment()),
            ),
    {
        self.get_account_with_commitment(pubkey, self.commitment())
    }

    /// The account at `pubkey`, at `commitment_config`.
    pub fn get_account_with_commitment(
        &self,
        pubkey: &Pubkey,
        commitment_config: CommitmentConfig,
    ) -> (r: RpcCall)
        ensures
            r@ == account_info_call(
                *pubkey,
                whole_account(UiAccountEncoding::Base64Zstd, commitment_config),
            ),
    {
        let config = whole_account_config(UiAccountEncoding::Base64Zstd, commitment_config);
        self.get_account_with_config(pubkey, config)
    }

    /// The account at `pubkey` with the given options; in `Base64Zstd` unless `config` says
    /// otherwise.
    pub fn get_account_with_config(&self, pubkey: &Pubkey, config: RpcAccountInfoConfig) -> (r:
        RpcCall)
        ensures
            r@ == account_info_call(
                *pubkey,
                RpcAccountInfoConfig {
                    encoding: match config.encoding {
                        Some(e) => Some(e),
                        None => Some(UiAccountEncoding::Base64Zstd),
                    },
                    ..config
                },
            ),
    {
        let encoding = match config.encoding {
            Some(e) => e,
            None => UiAccountEncoding::Base64Zstd,
        };
        account_info_request(pubkey, RpcAccountInfoConfig { encoding: Some(encoding), ..config })
    }

    /// The reply to [`get_account_with_commitment`](Self::get_account_with_commitment) and
    /// [`get_account_with_config`](Self::get_account_with_config): the account, or none where there
    /// is none or it does not decode.
    pub fn get_account_with_config_reply(&self, pubkey: &Pubkey, reply: HostReply) -> (r: RpcResult<
        Option<Account>,
    >)
        ensures
            is_account_reply(self.spec_tx_debug(), *pubkey, reply, account_view(r)),
    {
        match self.send(RpcRequest::GetAccountInfo, reply, parse_json) {
            Ok(json) => match account_reply(pubkey, decode_document(json)) {
                Ok(Response { context, value }) => Ok(
                    Response { context, value: decode_option(&value) },
                ),
                Err(e) => Err(e),
            },
            Err(e) => Err(account_failure(pubkey, e)),
        }
    }

    /// The reply to [`get_account`](Self::get_account): an account that is not there is an error.
    pub fn get_account_reply(&self, pubkey: &Pubkey, reply: HostReply) -> (r: ClientResult<Account>)
        ensures
            exists|found: Result<(RpcResponseContext, Option<AccountView>), ErrorView>|
                #[trigger] is_account_reply(self.spec_tx_debug(), *pubkey, reply, found)
                    && match found {
                    Ok((_, Some(account))) => r matches Ok(x) && x@ == account,
                    Ok((_, None)) => r matches Err(e) && e@ == for_user(account_not_found(*pubkey)),
                    Err(e) => r matches Err(x) && x@ == e,
                },
    {
        let found = self.get_account_with_config_reply(pubkey, reply);
        let ghost view = account_view(found);
        assert(is_account_reply(self.spec_tx_debug(), *pubkey, reply, view));
        match found {
            Ok(Response { context: _, value }) => found_account(pubkey, value),
            Err(e) => Err(e),
        }
    }

    /// The data of the account at `pubkey`, at the client's commitment.
    pub fn get_account_data(&self, pubkey: &Pubkey) -> (r: RpcCall)
        ensures
            r@ == account_info_call(
                *pubkey,
                whole_account(UiAccountEncoding::Base64Zstd, self.spec_commitment()),
            ),
    {
        self.get_account(pubkey)
    }

    /// The reply to [`get_account_data`](Self::get_account_data).
    pub fn get_account_data_reply(&self, pubkey: &Pubkey, reply: HostReply) -> (r: ClientResult<
        Vec<u8>,
    >)
        ensures
            exists|found: Result<(RpcResponseContext, Option<AccountView>), ErrorView>|
                #[trigger] is_account_reply(self.spec_tx_debug(), *pubkey, reply, found)
                    && match found {
                    Ok((_, Some(account))) => r matches Ok(x) && x@ == account.data,
                    Ok((_, None)) => r matches Err(e) && e@ == for_user(account_not_found(*pubkey)),
                    Err(e) => r matches Err(x) && x@ == e,
                },
    {
        match self.get_account_reply(pubkey, reply) {
            Ok(account) => Ok(account.data),
            Err(e) => Err(e),
        }
    }
}

// ---------------------------------------------------------------------------------------------
// Many accounts
// ---------------------------------------------------------------------------------------------

/// The base-58 texts of pubkeys.
pub open spec fn pubkey_texts(pubkeys: Seq<Pubkey>) -> Seq<Seq<char>> {
    Seq::new(pubkeys.len(), |i: int| pubkey_text(pubkeys[i]))
}

pub(crate) fn pubkey_strings(pubkeys: &[Pubkey]) -> (r: Vec<String>)
    ensures
        texts(r@) == pubkey_texts(pubkeys@),
{
    let mut r: Vec<String> = Vec::new();
    let mut i: usize = 0;
    while i < pubkeys.len()
        invariant
            i <= pubkeys@.len(),
            r@.len() == i,
            forall|j: int| 0 <= j < i ==> (#[trigger] r@[j])@ == pubkey_text(pubkeys@[j]),
        decreases pubkeys@.len() - i,
    {
        r.push(pubkey_to_string(&pubkeys[i]));
        i = i + 1;
    }
    assert(texts(r@) =~= pubkey_texts(pubkeys@));
    r
}

/// Accounts, each with its data as a sequence of bytes.
pub open spec fn account_views(accounts: Seq<Option<Account>>) -> Seq<Option<AccountView>> {
    Seq::new(accounts.len(), |i: int| account_option(accounts[i]))
}

/// Accounts as the node encodes them, each decoded at its position.
pub open spec fn decoded_accounts(accounts: Seq<Option<UiAccount>>) -> Seq<Option<AccountView>> {
    Seq::new(accounts.len(), |i: int| decoded_option(accounts[i]))
}

fn decode_accounts(accounts: &Vec<Option<UiAccount>>) -> (r: Vec<Option<Account>>)
    ensures
        account_views(r@) == decoded_accounts(accounts@),
{
    let mut r: Vec<Option<Account>> = Vec::new();
    let mut i: usize = 0;
    while i < accounts.len()
        invariant
            i <= accounts@.len(),
            r@.len() == i,
            forall|j: int|
                0 <= j < i ==> account_option(#[trigger] r@[j]) == decoded_option(accounts@[j]),
        decreases accounts@.len() - i,
    {
        r.push(decode_option(&accounts[i]));
        i = i + 1;
    }
    assert(account_views(r@) =~= decoded_accounts(accounts@));
    r
}

/// The request for several accounts.
pub open spec fn multiple_accounts_call(
    pubkeys: Seq<Pubkey>,
    config: RpcAccountInfoConfig,
) -> RpcCallView {
    call_with(
        RpcRequest::GetMultipleAccounts,
        seq![ParamView::Texts(pubkey_texts(pubkeys)), ParamView::AccountInfo(config)],
    )
}

/// The commitment that stands in for an absent one.
pub open spec fn commitment_or(
    commitment: Option<CommitmentConfig>,
    other: CommitmentConfig,
) -> CommitmentConfig {
    match commitment {
        Some(c) => c,
        None => other,
    }
}

/// The reply that holds several accounts, as sequences.
pub open spec fn accounts_view(r: RpcResult<Vec<Option<Account>>>) -> Result<
    (RpcResponseContext, Seq<Option<AccountView>>),
    ErrorView,
> {
    match r {
        Ok(reply) => Ok((reply.context, account_views(reply.value@))),
        Err(e) => Err(e@),
    }
}

/// What a reply says of the accounts that were asked for: each stands at the position of its
/// address, none where there is none or it does not decode.
pub open spec fn sent_accounts(tx_debug: bool, reply: HostReply) -> Result<
    (RpcResponseContext, Seq<Option<AccountView>>),
    ErrorView,
> {
    match sent(
        tx_debug,
        RpcRequest::GetMultipleAccounts,
        reply,
        json_document(reply_bytes(reply)),
    ) {
        Ok(json) => match json_accounts(json) {
            Ok((context, accounts)) => Ok((context, decoded_accounts(accounts))),
            Err(e) => Err(json_error(e)),
        },
        Err(e) => Err(e),
    }
}

/// The accounts of a reply, given what it decoded to.
pub fn accounts_reply(decoded: Result<Response<Vec<Option<UiAccount>>>, JsonError>) -> (r:
    RpcResult<Vec<Option<Account>>>)
    ensures
        accounts_view(r) == match accounts_ok(decoded) {
            Ok((context, accounts)) => Ok::<
                (RpcResponseContext, Seq<Option<AccountView>>),
                ErrorView,
            >((context, decoded_accounts(accounts))),
            Err(e) => Err(json_error(e)),
        },
{
    match decoded {
        Ok(Response { context, value }) => Ok(Response { context, value: decode_accounts(&value) }),
        Err(e) => Err(Error::from(e)),
    }
}

impl RpcClient {
    /// Up to 100 accounts, at the client's commitment.
    pub fn get_multiple_accounts(&self, pubkeys: &[Pubkey]) -> (r: RpcCall)
        ensures
            r@ == multiple_accounts_call(
                pubkeys@,
                whole_account(UiAccountEncoding::Base64Zstd, self.spec_commitment()),
            ),
    {
        self.get_multiple_accounts_with_commitment(pubkeys, self.commitment())
    }

    /// Up to 100 accounts, at `commitment_config`.
    pub fn get_multiple_accounts_with_commitment(
        &self,
        pubkeys: &[Pubkey],
        commitment_config: CommitmentConfig,
    ) -> (r: RpcCall)
        ensures
            r@ == multiple_accounts_call(
                pubkeys@,
                whole_account(UiAccountEncoding::Base64Zstd, commitment_config),
            ),
    {
        let config = whole_account_config(UiAccountEncoding::Base64Zstd, commitment_config);
        self.get_multiple_accounts_with_config(pubkeys, config)
    }

    /// Up to 100 accounts with the given options; at the client's commitment unless `config` says
    /// otherwise.
    pub fn get_multiple_accounts_with_config(
        &self,
        pubkeys: &[Pubkey],
        config: RpcAccountInfoConfig,
    ) -> (r: RpcCall)
        ensures
            r@ == multiple_accounts_call(
                pubkeys@,
                RpcAccountInfoConfig {
                    commitment: Some(commitment_or(config.commitment, self.spec_commitment())),
                    ..config
                },
            ),
    {
        let commitment = match config.commitment {
            Some(c) => c,
            None => self.commitment(),
        };
        RpcCall::with2(
            RpcRequest::GetMultipleAccounts,
            Param::Texts(pubkey_strings(pubkeys)),
            Param::AccountInfo(RpcAccountInfoConfig { commitment: Some(commitment), ..config }),
        )
    }

    /// The reply to
    /// [`get_multiple_accounts_with_commitment`](Self::get_multiple_accounts_with_commitment) and
    /// [`get_multiple_accounts_with_config`](Self::get_multiple_accounts_with_config). The order of
    /// the accounts is that of the reply.
    pub fn get_multiple_accounts_with_config_reply(&self, reply: HostReply) -> (r: RpcResult<
        Vec<Option<Account>>,
    >)
        ensures
            accounts_view(r) == sent_accounts(self.spec_tx_debug(), reply),
    {
        match self.send(RpcRequest::GetMultipleAccounts, reply, parse_json) {
            Ok(json) => accounts_reply(accounts_from_json(json)),
            Err(e) => Err(e),
        }
    }

    /// The reply to [`get_multiple_accounts`](Self::get_multiple_accounts).
    pub fn get_multiple_accounts_reply(&self, reply: HostReply) -> (r: ClientResult<
        Vec<Option<Account>>,
    >)
        ensures
            match sent_accounts(self.spec_tx_debug(), reply) {
                Ok((_, accounts)) => r matches Ok(x) && account_views(x@) == accounts,
                Err(e) => r matches Err(x) && x@ == e,
            },
    {
        Response::unwrap_value(self.get_multiple_accounts_with_config_reply(reply))
    }
}

// ---------------------------------------------------------------------------------------------
// Accounts of a program
// ---------------------------------------------------------------------------------------------

/// An account with its address, out of a reply: the address as text and the account as the node
/// encodes it.
pub open spec fn keyed_account_result(
    pubkey: Result<Pubkey, Seq<char>>,
    account: Option<AccountView>,
    request: RpcRequest,
) -> Result<(Pubkey, AccountView), ErrorView> {
    match pubkey {
        Err(_) => Err(parse_error("Pubkey"@).with_request(request)),
        Ok(pubkey) => match account {
            Some(account) => Ok((pubkey, account)),
            None => Err(parse_error("Account from rpc"@).with_request(request)),
        },
    }
}

/// Each account of a reply with its address.
pub open spec fn keyed_account_results(
    accounts: Seq<(Seq<char>, UiAccount)>,
    request: RpcRequest,
) -> Seq<Result<(Pubkey, AccountView), ErrorView>> {
    Seq::new(
        accounts.len(),
        |i: int|
            keyed_account_result(
                parsed_pubkey(accounts[i].0),
                decoded_account(accounts[i].1),
                request,
            ),
    )
}

/// Accounts with the text of their addresses.
pub open spec fn keyed_texts(accounts: Seq<(String, UiAccount)>) -> Seq<(Seq<char>, UiAccount)> {
    accounts.map_values(|a: (String, UiAccount)| (a.0@, a.1))
}

/// Accounts with their addresses, their data as sequences of bytes.
pub open spec fn keyed_views(accounts: Seq<(Pubkey, Account)>) -> Seq<(Pubkey, AccountView)> {
    accounts.map_values(|a: (Pubkey, Account)| (a.0, a.1@))
}

/// The result of a call that returns accounts with their addresses.
pub open spec fn keyed_accounts_view(r: ClientResult<Vec<(Pubkey, Account)>>) -> Result<
    Seq<(Pubkey, AccountView)>,
    ErrorView,
> {
    match r {
        Ok(accounts) => Ok(keyed_views(accounts@)),
        Err(e) => Err(e@),
    }
}

/// An account with its address, given what parsing the address and decoding the account returned.
pub fn keyed_account(
    pubkey: Result<Pubkey, String>,
    account: Option<Account>,
    request: RpcRequest,
) -> (r: ClientResult<(Pubkey, Account)>)
    ensures
        match keyed_account_result(text_err(pubkey), account_option(account), request) {
            Ok((pubkey, account)) => r matches Ok(x) && x.0 == pubkey && x.1@ == account,
            Err(e) => r matches Err(x) && x@ == e,
        },
{
    match pubkey {
        Err(_) => Err(parse_failure("Pubkey".to_owned()).into_with_request(request)),
        Ok(pubkey) => match account {
            Some(account) => Ok((pubkey, account)),
            None => Err(parse_failure("Account from rpc".to_owned()).into_with_request(request)),
        },
    }
}

/// The accounts of a reply with their addresses. One malformed address or one account that does not
/// decode fails the whole.
pub fn parse_keyed_accounts(accounts: Vec<(String, UiAccount)>, request: RpcRequest) -> (r:
    ClientResult<Vec<(Pubkey, Account)>>)
    ensures
        keyed_accounts_view(r) == collected(
            keyed_account_results(keyed_texts(accounts@), request),
        ),
{
    let ghost results = keyed_account_results(keyed_texts(accounts@), request);
    let mut r: Vec<(Pubkey, Account)> = Vec::new();
    let mut i: usize = 0;
    while i < accounts.len()
        invariant
            i <= accounts@.len(),
            r@.len() == i,
            results == keyed_account_results(keyed_texts(accounts@), request),
            forall|j: int|
                0 <= j < i ==> #[trigger] results[j] == Ok::<(Pubkey, AccountView), ErrorView>(
                    keyed_views(r@)[j],
                ),
        decreases accounts@.len() - i,
    {
        let pubkey = pubkey_from_str(accounts[i].0.as_str());
        let account = decode_account(&accounts[i].1);
        match keyed_account(pubkey, account, request) {
            Ok(pair) => {
                let ghost before = r@;
                r.push(pair);
                assert(forall|j: int| 0 <= j < i ==> keyed_views(r@)[j] == keyed_views(before)[j]);
            },
            Err(e) => {
                proof {
                    collected_first_error(results, i as int);
                }
                return Err(e);
            },
        }
        i = i + 1;
    }
    proof {
        collected_ok(results);
        assert(collected(results)->Ok_0 =~= keyed_views(r@));
    }
    Ok(r)
}

/// The request for the accounts of a program.
pub open spec fn program_accounts_call(
    pubkey: Pubkey,
    config: RpcProgramAccountsConfig,
) -> RpcCallView {
    call_with(
        RpcRequest::GetProgramAccounts,
        seq![ParamView::Text(pubkey_text(pubkey)), ParamView::ProgramAccounts(config)],
    )
}

impl RpcClient {
    /// All accounts of the program at `pubkey`, at the client's commitment.
    pub fn get_program_accounts(&self, pubkey: &Pubkey) -> (r: RpcCall)
        ensures
            r@ == program_accounts_call(
                *pubkey,
                RpcProgramAccountsConfig {
                    filters: None,
                    account_config: whole_account(
                        UiAccountEncoding::Base64Zstd,
                        self.spec_commitment(),
                    ),
                    with_context: None,
                    sort_results: None,
                },
            ),
    {
        let config = RpcProgramAccountsConfig {
            account_config: RpcAccountInfoConfig {
                encoding: Some(UiAccountEncoding::Base64Zstd),
                ..RpcAccountInfoConfig::default()
            },
            ..RpcProgramAccountsConfig::default()
        };
        self.get_program_accounts_with_config(pubkey, config)
    }

    /// The accounts of the program at `pubkey` that pass the given filters; at the client's
    /// commitment unless `config` says otherwise.
    pub fn get_program_accounts_with_config(
        &self,
        pubkey: &Pubkey,
        config: RpcProgramAccountsConfig,
    ) -> (r: RpcCall)
        ensures
            r@ == program_accounts_call(
                *pubkey,
                RpcProgramAccountsConfig {
                    account_config: RpcAccountInfoConfig {
                        commitment: Some(
                            commitment_or(config.account_config.commitment, self.spec_commitment()),
                        ),
                        ..config.account_config
                    },
                    ..config
                },
            ),
    {
        let commitment = match config.account_config.commitment {
            Some(c) => c,
            None => self.commitment(),
        };
        let account_config = RpcAccountInfoConfig {
            commitment: Some(commitment),
            ..config.account_config
        };
        let config = RpcProgramAccountsConfig { account_config, ..config };
        RpcCall::with2(
            RpcRequest::GetProgramAccounts,
            Param::Text(pubkey_to_string(pubkey)),
            Param::ProgramAccounts(config),
        )
    }

    /// The reply to [`get_program_accounts`](Self::get_program_accounts) and
    /// [`get_program_accounts_with_config`](Self::get_program_accounts_with_config).
    pub fn get_program_accounts_reply(&self, reply: HostReply) -> (r: ClientResult<
        Vec<(Pubkey, Account)>,
    >)
        ensures
            keyed_accounts_view(r) == match sent(
                self.spec_tx_debug(),
                RpcRequest::GetProgramAccounts,
                reply,
                json_keyed_accounts(reply_bytes(reply)),
            ) {
                Ok(accounts) => collected(
                    keyed_account_results(accounts, RpcRequest::GetProgramAccounts),
                ),
                Err(e) => Err(e),
            },
    {
        match self.send(RpcRequest::GetProgramAccounts, reply, parse_keyed_accounts_json) {
            Ok(accounts) => parse_keyed_accounts(accounts, RpcRequest::GetProgramAccounts),
            Err(e) => Err(e),
        }
    }
}

// ---------------------------------------------------------------------------------------------
// Balances
// ---------------------------------------------------------------------------------------------

/// A request about an address at a commitment.
pub open spec fn pubkey_call(
    request: RpcRequest,
    pubkey: Pubkey,
    commitment: CommitmentConfig,
) -> RpcCallView {
    call_with(
        request,
        seq![ParamView::Text(pubkey_text(pubkey)), ParamView::Commitment(commitment)],
    )
}

pub(crate) fn pubkey_request(
    request: RpcRequest,
    pubkey: &Pubkey,
    commitment: CommitmentConfig,
) -> (r: RpcCall)
    ensures
        r@ == pubkey_call(request, *pubkey, commitment),
{
    RpcCall::with2(
        request,
        Param::Text(pubkey_to_string(pubkey)),
        Param::Commitment(commitment),
    )
}

/// A number that a reply holds, given what it decoded to.
pub fn number_reply<T>(decoded: Result<T, JsonError>, request: RpcRequest) -> (r: ClientResult<T>)
    ensures
        client_view(r) == match decoded {
            Ok(n) => Ok::<T, ErrorView>(n),
            Err(e) => Err(json_error(e).with_request(request)),
        },
{
    match decoded {
        Ok(n) => Ok(n),
        Err(e) => Err(Error::new_with_request(ErrorKind::from(e), request)),
    }
}

impl RpcClient {
    /// The balance of an address in lamports, at the client's commitment.
    pub fn get_balance(&self, pubkey: &Pubkey) -> (r: RpcCall)
        ensures
            r@ == pubkey_call(RpcRequest::GetBalance, *pubkey, self.spec_commitment()),
    {
        self.get_balance_with_commitment(pubkey, self.commitment())
    }

    /// The balance of an address in lamports, at `commitment_config`.
    pub fn get_balance_with_commitment(
        &self,
        pubkey: &Pubkey,
        commitment_config: CommitmentConfig,
    ) -> (r: RpcCall)
        ensures
            r@ == pubkey_call(RpcRequest::GetBalance, *pubkey, commitment_config),
    {
        pubkey_request(RpcRequest::GetBalance, pubkey, commitment_config)
    }

    /// The reply to [`get_balance_with_commitment`](Self::get_balance_with_commitment).
    pub fn get_balance_with_commitment_reply(&self, reply: HostReply) -> (r: RpcResult<u64>)
        ensures
            client_view(r) == sent(
                self.spec_tx_debug(),
                RpcRequest::GetBalance,
                reply,
                json_u64_response(reply_bytes(reply)),
            ),
    {
        self.send(RpcRequest::GetBalance, reply, parse_u64_response)
    }

    /// The reply to [`get_balance`](Self::get_balance).
    pub fn get_balance_reply(&self, reply: HostReply) -> (r: ClientResult<u64>)
        ensures
            client_view(r) == value_of(
                sent(
                    self.spec_tx_debug(),
                    RpcRequest::GetBalance,
                    reply,
                    json_u64_response(reply_bytes(reply)),
                ),
            ),
    {
        Response::unwrap_value(self.get_balance_with_commitment_reply(reply))
    }

    /// The lamports that make an account with `data_len` bytes of data rent-exempt.
    pub fn get_minimum_balance_for_rent_exemption(&self, data_len: usize) -> (r: RpcCall)
        ensures
            r@ == call_with(
                RpcRequest::GetMinimumBalanceForRentExemption,
                seq![ParamView::Number(data_len as u64)],
            ),
    {
        RpcCall::with1(
            RpcRequest::GetMinimumBalanceForRentExemption,
            Param::Number(data_len as u64),
        )
    }

    /// The reply to
    /// [`get_minimum_balance_for_rent_exemption`](Self::get_minimum_balance_for_rent_exemption).
    pub fn get_minimum_balance_for_rent_exemption_reply(&self, reply: HostReply) -> (r:
        ClientResult<u64>)
        ensures
            client_view(r) == match sent(
                self.spec_tx_debug(),
                RpcRequest::GetMinimumBalanceForRentExemption,
                reply,
                json_document(reply_bytes(reply)),
            ) {
                Ok(json) => match json_u64(json) {
                    Ok(n) => Ok::<u64, ErrorView>(n),
                    Err(e) => Err(
                        json_error(e).with_request(RpcRequest::GetMinimumBalanceForRentExemption),
                    ),
                },
                Err(e) => Err(e),
            },
    {
        let request = RpcRequest::GetMinimumBalanceForRentExemption;
        match self.send(request, reply, parse_json) {
            Ok(json) => number_reply(u64_from_json(json), request),
            Err(e) => Err(e.into_with_request(request)),
        }
    }
}

// ---------------------------------------------------------------------------------------------
// Laws
// ---------------------------------------------------------------------------------------------

/// A reply about several accounts keeps their number and their order: what becomes of the account at
/// a position depends on that account alone.
pub proof fn accounts_keep_their_positions(accounts: Seq<Option<UiAccount>>)
    ensures
        decoded_accounts(accounts).len() == accounts.len(),
        forall|i: int|
            0 <= i < accounts.len() ==> (#[trigger] decoded_accounts(accounts)[i])
                == decoded_option(accounts[i]),
{
}

/// A list of accounts with addresses is had just where every address parses and every account
/// decodes, and then it is complete and in order.
pub proof fn keyed_accounts_all_or_nothing(
    accounts: Seq<(Seq<char>, UiAccount)>,
    request: RpcRequest,
)
    ensures
        collected(keyed_account_results(accounts, request)) is Ok <==> forall|i: int|
            0 <= i < accounts.len() ==> parsed_pubkey((#[trigger] accounts[i]).0) is Ok
                && decoded_account(accounts[i].1) is Some,
        collected(keyed_account_results(accounts, request)) matches Ok(pairs) ==> pairs.len()
            == accounts.len() && forall|i: int|
            0 <= i < accounts.len() ==> (#[trigger] pairs[i]) == (
                parsed_pubkey(accounts[i].0)->Ok_0,
                decoded_account(accounts[i].1)->Some_0,
            ),
{
    let results = keyed_account_results(accounts, request);
    collected_ok(results);
    assert(forall|i: int|
        0 <= i < accounts.len() ==> (results[i] is Ok <==> parsed_pubkey(
            (#[trigger] accounts[i]).0,
        ) is Ok && decoded_account(accounts[i].1) is Some));
    if collected(results) is Ok {
        assert forall|i: int| 0 <= i < accounts.len() implies parsed_pubkey(
            (#[trigger] accounts[i]).0,
        ) is Ok && decoded_account(accounts[i].1) is Some by {
            assert(results[i] is Ok);
        }
    }
}

} // verus!
