//! Token accounts and supplies.

use serde_json::{Error as JsonError, Value};
use solana_account_decoder_client_types::token::{UiTokenAccount, UiTokenAmount};
use solana_rpc_client_types::response::{
    RpcKeyedAccount, RpcResponseContext, RpcTokenAccountBalance, UiAccount,
};
use vstd::prelude::*;

use crate::bindings::replies::{
    json_token_accounts_reply, json_token_amount_reply, json_token_balances_reply,
    parse_token_accounts, parse_token_amount, parse_token_balances,
};
use crate::bindings::{
    account_into_parsed_data, account_parsed_data, json_document, json_token_account, parse_json,
    pubkey_text, pubkey_to_string, token_account_from_json,
};
use crate::host::HostReply;
use crate::rpc_client::accounts::{
    account_document, account_failure, account_info_call, account_info_request, account_reply,
    decode_document, decoded_document, is_account_failure, pubkey_call, pubkey_request,
    whole_account, whole_account_config,
};
use crate::rpc_client::client::{reply_bytes, sent, RpcClient, RpcResult};
use crate::rpc_client::config::{
    CommitmentConfig, RpcTokenAccountsFilter, TokenAccountsFilter, UiAccountEncoding,
};
use crate::rpc_client::error::{
    client_view, for_user, for_user_error, json_error, ClientResult, Error, ErrorView,
};
use crate::rpc_client::keys::Pubkey;
use crate::rpc_client::request::{
    call_with, Param, ParamView, RpcCall, RpcCallView, RpcRequest,
};
use crate::rpc_client::response::{value_of, Response, TokenAccountType};
use crate::text::joined;

verus! {

// ---------------------------------------------------------------------------------------------
// One token account
// ---------------------------------------------------------------------------------------------

/// What a node says of the data of an account: nothing where it did not parse the data, else what
/// the parsed data decodes to.
pub open spec fn token_data(account: UiAccount) -> Option<Result<TokenAccountType, JsonError>> {
    match account_parsed_data(account) {
        Some(data) => Some(json_token_account(data)),
        None => None,
    }
}

/// The token account at `pubkey`, given the account there and what the node says of its data. An
/// account that is no token account is none; an account that is not there is an error.
pub open spec fn token_account_result(
    pubkey: Pubkey,
    context: RpcResponseContext,
    account: Option<Option<Result<TokenAccountType, JsonError>>>,
) -> Result<Response<Option<UiTokenAccount>>, ErrorView> {
    match account {
        None => Err(
            for_user(
                "Account could not be parsed as token account: pubkey="@ + pubkey_text(pubkey),
            ),
        ),
        Some(Some(Err(e))) => Err(json_error(e)),
        Some(Some(Ok(TokenAccountType::Account(account)))) => Ok(
            Response { context, value: Some(account) },
        ),
        Some(_) => Ok(Response { context, value: None }),
    }
}

/// What a reply says of the token account that was asked for.
pub open spec fn token_account_document(pubkey: Pubkey, json: Value) -> Result<
    Response<Option<UiTokenAccount>>,
    ErrorView,
> {
    match account_document(pubkey, decoded_document(json)) {
        Ok(reply) => token_account_result(
            pubkey,
            reply.context,
            match reply.value {
                Some(account) => Some(token_data(account)),
                None => None,
            },
        ),
        Err(e) => Err(e),
    }
}

/// Whether `r` is the result of a request for a token account, given the host's reply.
pub open spec fn is_token_account_reply(
    tx_debug: bool,
    pubkey: Pubkey,
    reply: HostReply,
    r: Result<Response<Option<UiTokenAccount>>, ErrorView>,
) -> bool {
    match sent(
        tx_debug,
        RpcRequest::GetAccountInfo,
        reply,
        json_document(reply_bytes(reply)),
    ) {
        Ok(json) => r == token_account_document(pubkey, json),
        Err(failure) => r matches Err(e) && is_account_failure(pubkey, failure, e),
    }
}

/// The token account at `pubkey`, given the account there and what the node says of its data.
pub fn token_account(
    pubkey: &Pubkey,
    context: RpcResponseContext,
    account: Option<Option<Result<TokenAccountType, JsonError>>>,
) -> (r: RpcResult<Option<UiTokenAccount>>)
    ensures
        client_view(r) == token_account_result(*pubkey, context, account),
{
    match account {
        None => Err(
            for_user_error(
                joined(
                    "Account could not be parsed as token account: pubkey=",
                    pubkey_to_string(pubkey).as_str(),
                ),
            ),
        ),
        Some(Some(Err(e))) => Err(Error::from(e)),
        Some(Some(Ok(TokenAccountType::Account(account)))) => Ok(
            Response { context, value: Some(account) },
        ),
        Some(_) => Ok(Response { context, value: None }),
    }
}

fn decode_token_data(account: UiAccount) -> (r: Option<Result<TokenAccountType, JsonError>>)
    ensures
        r == token_data(account),
{
    match account_into_parsed_data(account) {
        Some(data) => Some(token_account_from_json(data)),
        None => None,
    }
}

impl RpcClient {
    /// The token account at `pubkey`, at the client's commitment.
    pub fn get_token_account(&self, pubkey: &Pubkey) -> (r: RpcCall)
        ensures
            r@ == account_info_call(
                *pubkey,
                whole_account(UiAccountEncoding::JsonParsed, self.spec_commitment()),
            ),
    {
        self.get_token_account_with_commitment(pubkey, self.commitment())
    }

    /// The token account at `pubkey`, at `commitment_config`. The node parses its data.
    pub fn get_token_account_with_commitment(
        &self,
        pubkey: &Pubkey,
        commitment_config: CommitmentConfig,
    ) -> (r: RpcCall)
        ensures
            r@ == account_info_call(
                *pubkey,
                whole_account(UiAccountEncoding::JsonParsed, commitment_config),
            ),
    {
        let config = whole_account_config(UiAccountEncoding::JsonParsed, commitment_config);
        account_info_request(pubkey, config)
    }

    /// The reply to
    /// [`get_token_account_with_commitment`](Self::get_token_account_with_commitment): none where
    /// the account is there but is no token account.
    pub fn get_token_account_with_commitment_reply(&self, pubkey: &Pubkey, reply: HostReply) -> (r:
        RpcResult<Option<UiTokenAccount>>)
        ensures
            is_token_account_reply(self.spec_tx_debug(), *pubkey, reply, client_view(r)),
    {
        match self.send(RpcRequest::GetAccountInfo, reply, parse_json) {
            Ok(json) => match account_reply(pubkey, decode_document(json)) {
                Ok(Response { context, value }) => {
                    let account = match value {
                        Some(account) => Some(decode_token_data(account)),
                        None => None,
                    };
                    token_account(pubkey, context, account)
                },
                Err(e) => Err(e),
            },
            Err(e) => Err(account_failure(pubkey, e)),
        }
    }

    /// The reply to [`get_token_account`](Self::get_token_account).
    pub fn get_token_account_reply(&self, pubkey: &Pubkey, reply: HostReply) -> (r: ClientResult<
        Option<UiTokenAccount>,
    >)
        ensures
            exists|found: Result<Response<Option<UiTokenAccount>>, ErrorView>|
                #[trigger] is_token_account_reply(self.spec_tx_debug(), *pubkey, reply, found)
                    && client_view(r) == value_of(found),
    {
        let found = self.get_token_account_with_commitment_reply(pubkey, reply);
        let ghost view = client_view(found);
        assert(is_token_account_reply(self.spec_tx_debug(), *pubkey, reply, view));
        Response::unwrap_value(found)
    }
}

// ---------------------------------------------------------------------------------------------
// Token accounts of a delegate or an owner
// ---------------------------------------------------------------------------------------------

/// A filter of token accounts, as it is sent.
pub open spec fn filter_param(filter: TokenAccountsFilter) -> ParamView {
    match filter {
        TokenAccountsFilter::Mint(mint) => ParamView::Mint(pubkey_text(mint)),
        TokenAccountsFilter::ProgramId(program_id) => ParamView::ProgramId(pubkey_text(program_id)),
    }
}

/// The request for the token accounts of an address: of a delegate or of an owner.
pub open spec fn token_accounts_call(
    request: RpcRequest,
    pubkey: Pubkey,
    filter: TokenAccountsFilter,
    commitment: CommitmentConfig,
) -> RpcCallView {
    call_with(
        request,
        seq![
            ParamView::Text(pubkey_text(pubkey)),
            filter_param(filter),
            ParamView::AccountInfo(whole_account(UiAccountEncoding::JsonParsed, commitment)),
        ],
    )
}

fn token_accounts_request(
    request: RpcRequest,
    pubkey: &Pubkey,
    filter: TokenAccountsFilter,
    commitment: CommitmentConfig,
) -> (r: RpcCall)
    ensures
        r@ == token_accounts_call(request, *pubkey, filter, commitment),
{
    let filter = match filter {
        TokenAccountsFilter::Mint(mint) => RpcTokenAccountsFilter::Mint(pubkey_to_string(&mint)),
        TokenAccountsFilter::ProgramId(program_id) => {
            RpcTokenAccountsFilter::ProgramId(pubkey_to_string(&program_id))
        },
    };
    RpcCall::with3(
        request,
        Param::Text(pubkey_to_string(pubkey)),
        Param::TokenAccountsFilter(filter),
        Param::AccountInfo(whole_account_config(UiAccountEncoding::JsonParsed, commitment)),
    )
}

/// A reply that holds a list, as a sequence.
pub open spec fn response_list_view<T>(r: RpcResult<Vec<T>>) -> Result<
    (RpcResponseContext, Seq<T>),
    ErrorView,
> {
    match r {
        Ok(reply) => Ok((reply.context, reply.value@)),
        Err(e) => Err(e@),
    }
}

/// Whether `r` is the list of a reply that holds `list`, without its context.
pub open spec fn is_list_of<T>(
    list: Result<(RpcResponseContext, Seq<T>), ErrorView>,
    r: ClientResult<Vec<T>>,
) -> bool {
    match list {
        Ok((_, list)) => r matches Ok(x) && x@ == list,
        Err(e) => r matches Err(x) && x@ == e,
    }
}

impl RpcClient {
    /// The token accounts of a delegate that pass a filter, at the client's commitment.
    pub fn get_token_accounts_by_delegate(
        &self,
        delegate: &Pubkey,
        token_account_filter: TokenAccountsFilter,
    ) -> (r: RpcCall)
        ensures
            r@ == token_accounts_call(
                RpcRequest::GetTokenAccountsByDelegate,
                *delegate,
                token_account_filter,
                self.spec_commitment(),
            ),
    {
        self.get_token_accounts_by_delegate_with_commitment(
            delegate,
            token_account_filter,
            self.commitment(),
        )
    }

    /// The token accounts of a delegate that pass a filter, at `commitment_config`.
    pub fn get_token_accounts_by_delegate_with_commitment(
        &self,
        delegate: &Pubkey,
        token_account_filter: TokenAccountsFilter,
        commitment_config: CommitmentConfig,
    ) -> (r: RpcCall)
        ensures
            r@ == token_accounts_call(
                RpcRequest::GetTokenAccountsByDelegate,
                *delegate,
                token_account_filter,
                commitment_config,
            ),
    {
        token_accounts_request(
            RpcRequest::GetTokenAccountsByDelegate,
            delegate,
            token_account_filter,
            commitment_config,
        )
    }

    /// The reply to `get_token_accounts_by_delegate_with_commitment`.
    pub fn get_token_accounts_by_delegate_with_commitment_reply(&self, reply: HostReply) -> (r:
        RpcResult<Vec<RpcKeyedAccount>>)
        ensures
            response_list_view(r) == sent(
                self.spec_tx_debug(),
                RpcRequest::GetTokenAccountsByDelegate,
                reply,
                json_token_accounts_reply(reply_bytes(reply)),
            ),
    {
        self.send(RpcRequest::GetTokenAccountsByDelegate, reply, parse_token_accounts)
    }

    /// The reply to [`get_token_accounts_by_delegate`](Self::get_token_accounts_by_delegate).
    pub fn get_token_accounts_by_delegate_reply(&self, reply: HostReply) -> (r: ClientResult<
        Vec<RpcKeyedAccount>,
    >)
        ensures
            is_list_of(
                sent(
                    self.spec_tx_debug(),
                    RpcRequest::GetTokenAccountsByDelegate,
                    reply,
                    json_token_accounts_reply(reply_bytes(reply)),
                ),
                r,
            ),
    {
        Response::unwrap_value(self.get_token_accounts_by_delegate_with_commitment_reply(reply))
    }
}

impl RpcClient {
    /// The token accounts of an owner that pass a filter, at the client's commitment.
    pub fn get_token_accounts_by_owner(
        &self,
        owner: &Pubkey,
        token_account_filter: TokenAccountsFilter,
    ) -> (r: RpcCall)
        ensures
            r@ == token_accounts_call(
                RpcRequest::GetTokenAccountsByOwner,
                *owner,
                token_account_filter,
                self.spec_commitment(),
            ),
    {
        self.get_token_accounts_by_owner_with_commitment(
            owner,
            token_account_filter,
            self.commitment(),
        )
    }

    /// The token accounts of an owner that pass a filter, at `commitment_config`.
    pub fn get_token_accounts_by_owner_with_commitment(
        &self,
        owner: &Pubkey,
        token_account_filter: TokenAccountsFilter,
        commitment_config: CommitmentConfig,
    ) -> (r: RpcCall)
        ensures
            r@ == token_accounts_call(
                RpcRequest::GetTokenAccountsByOwner,
                *owner,
                token_account_filter,
                commitment_config,
            ),
    {
        token_accounts_request(
            RpcRequest::GetTokenAccountsByOwner,
            owner,
            token_account_filter,
            commitment_config,
        )
    }

    /// The reply to `get_token_accounts_by_owner_with_commitment`.
    pub fn get_token_accounts_by_owner_with_commitment_reply(&self, reply: HostReply) -> (r:
        RpcResult<Vec<RpcKeyedAccount>>)
        ensures
            response_list_view(r) == sent(
                self.spec_tx_debug(),
                RpcRequest::GetTokenAccountsByOwner,
                reply,
                json_token_accounts_reply(reply_bytes(reply)),
            ),
    {
        self.send(RpcRequest::GetTokenAccountsByOwner, reply, parse_token_accounts)
    }

    /// The reply to [`get_token_accounts_by_owner`](Self::get_token_accounts_by_owner).
    pub fn get_token_accounts_by_owner_reply(&self, reply: HostReply) -> (r: ClientResult<
        Vec<RpcKeyedAccount>,
    >)
        ensures
            is_list_of(
                sent(
                    self.spec_tx_debug(),
                    RpcRequest::GetTokenAccountsByOwner,
                    reply,
                    json_token_accounts_reply(reply_bytes(reply)),
                ),
                r,
            ),
    {
        Response::unwrap_value(self.get_token_accounts_by_owner_with_commitment_reply(reply))
    }
}

// ---------------------------------------------------------------------------------------------
// Amounts
// ---------------------------------------------------------------------------------------------

impl RpcClient {
    /// The amount in a token account, at the client's commitment.
    pub fn get_token_account_balance(&self, pubkey: &Pubkey) -> (r: RpcCall)
        ensures
            r@ == pubkey_call(RpcRequest::GetTokenAccountBalance, *pubkey, self.spec_commitment()),
    {
        self.get_token_account_balance_with_commitment(pubkey, self.commitment())
    }

    /// The amount in a token account, at `commitment_config`.
    pub fn get_token_account_balance_with_commitment(
        &self,
        pubkey: &Pubkey,
        commitment_config: CommitmentConfig,
    ) -> (r: RpcCall)
        ensures
            r@ == pubkey_call(RpcRequest::GetTokenAccountBalance, *pubkey, commitment_config),
    {
        pubkey_request(RpcRequest::GetTokenAccountBalance, pubkey, commitment_config)
    }

    /// The reply to `get_token_account_balance_with_commitment`.
    pub fn get_token_account_balance_with_commitment_reply(&self, reply: HostReply) -> (r: RpcResult<
        UiTokenAmount,
    >)
        ensures
            client_view(r) == sent(
                self.spec_tx_debug(),
                RpcRequest::GetTokenAccountBalance,
                reply,
                json_token_amount_reply(reply_bytes(reply)),
            ),
    {
        self.send(RpcRequest::GetTokenAccountBalance, reply, parse_token_amount)
    }

    /// The reply to [`get_token_account_balance`](Self::get_token_account_balance).
    pub fn get_token_account_balance_reply(&self, reply: HostReply) -> (r: ClientResult<
        UiTokenAmount,
    >)
        ensures
            client_view(r) == value_of(
                sent(
                    self.spec_tx_debug(),
                    RpcRequest::GetTokenAccountBalance,
                    reply,
                    json_token_amount_reply(reply_bytes(reply)),
                ),
            ),
    {
        Response::unwrap_value(self.get_token_account_balance_with_commitment_reply(reply))
    }
}

impl RpcClient {
    /// The supply of a token, at the client's commitment.
    pub fn get_token_supply(&self, pubkey: &Pubkey) -> (r: RpcCall)
        ensures
            r@ == pubkey_call(RpcRequest::GetTokenSupply, *pubkey, self.spec_commitment()),
    {
        self.get_token_supply_with_commitment(pubkey, self.commitment())
    }

    /// The supply of a token, at `commitment_config`.
    pub fn get_token_supply_with_commitment(
        &self,
        pubkey: &Pubkey,
        commitment_config: CommitmentConfig,
    ) -> (r: RpcCall)
        ensures
            r@ == pubkey_call(RpcRequest::GetTokenSupply, *pubkey, commitment_config),
    {
        pubkey_request(RpcRequest::GetTokenSupply, pubkey, commitment_config)
    }

    /// The reply to `get_token_supply_with_commitment`.
    pub fn get_token_supply_with_commitment_reply(&self, reply: HostReply) -> (r: RpcResult<
        UiTokenAmount,
    >)
        ensures
            client_view(r) == sent(
                self.spec_tx_debug(),
                RpcRequest::GetTokenSupply,
                reply,
                json_token_amount_reply(reply_bytes(reply)),
            ),
    {
        self.send(RpcRequest::GetTokenSupply, reply, parse_token_amount)
    }

    /// The reply to [`get_token_supply`](Self::get_token_supply).
    pub fn get_token_supply_reply(&self, reply: HostReply) -> (r: ClientResult<
        UiTokenAmount,
    >)
        ensures
            client_view(r) == value_of(
                sent(
                    self.spec_tx_debug(),
                    RpcRequest::GetTokenSupply,
                    reply,
                    json_token_amount_reply(reply_bytes(reply)),
                ),
            ),
    {
        Response::unwrap_value(self.get_token_supply_with_commitment_reply(reply))
    }
}

impl RpcClient {
    /// The largest holders of a token, at the client's commitment.
    pub fn get_token_largest_accounts(&self, pubkey: &Pubkey) -> (r: RpcCall)
        ensures
            r@ == pubkey_call(RpcRequest::GetTokenLargestAccounts, *pubkey, self.spec_commitment()),
    {
        self.get_token_largest_accounts_with_commitment(pubkey, self.commitment())
    }

    /// The largest holders of a token, at `commitment_config`.
    pub fn get_token_largest_accounts_with_commitment(
        &self,
        pubkey: &Pubkey,
        commitment_config: CommitmentConfig,
    ) -> (r: RpcCall)
        ensures
            r@ == pubkey_call(RpcRequest::GetTokenLargestAccounts, *pubkey, commitment_config),
    {
        pubkey_request(RpcRequest::GetTokenLargestAccounts, pubkey, commitment_config)
    }

    /// The reply to `get_token_largest_accounts_with_commitment`.
    pub fn get_token_largest_accounts_with_commitment_reply(&self, reply: HostReply) -> (r: RpcResult<
        Vec<RpcTokenAccountBalance>,
    >)
        ensures
            response_list_view(r) == sent(
                self.spec_tx_debug(),
                RpcRequest::GetTokenLargestAccounts,
                reply,
                json_token_balances_reply(reply_bytes(reply)),
            ),
    {
        self.send(RpcRequest::GetTokenLargestAccounts, reply, parse_token_balances)
    }

    /// The reply to [`get_token_largest_accounts`](Self::get_token_largest_accounts).
    pub fn get_token_largest_accounts_reply(&self, reply: HostReply) -> (r: ClientResult<
        Vec<RpcTokenAccountBalance>,
    >)
        ensures
            is_list_of(
                sent(
                    self.spec_tx_debug(),
                    RpcRequest::GetTokenLargestAccounts,
                    reply,
                    json_token_balances_reply(reply_bytes(reply)),
                ),
                r,
            ),
    {
        Response::unwrap_value(self.get_token_largest_accounts_with_commitment_reply(reply))
    }
}

// ---------------------------------------------------------------------------------------------
// Laws
// ---------------------------------------------------------------------------------------------

/// A token account is refused just where there is no account or its parsed data does not decode; any
/// other account is a token account or none.
pub proof fn only_missing_or_garbled_accounts_fail(
    pubkey: Pubkey,
    context: RpcResponseContext,
    account: Option<Option<Result<TokenAccountType, JsonError>>>,
)
    ensures
        token_account_result(pubkey, context, account) is Err <==> {
            ||| account is None
            ||| account matches Some(Some(Err(_)))
        },
        token_account_result(pubkey, context, account) matches Ok(reply) ==> {
            &&& reply.context == context
            &&& reply.value is Some <==> account matches Some(
                Some(Ok(TokenAccountType::Account(_))),
            )
        },
{
}

/// Token accounts of a delegate and of an owner are asked for by different methods.
pub proof fn delegates_are_not_owners(
    pubkey: Pubkey,
    filter: TokenAccountsFilter,
    commitment: CommitmentConfig,
)
    ensures
        token_accounts_call(
            RpcRequest::GetTokenAccountsByDelegate,
            pubkey,
            filter,
            commitment,
        ).request.name() != token_accounts_call(
            RpcRequest::GetTokenAccountsByOwner,
            pubkey,
            filter,
            commitment,
        ).request.name(),
{
    reveal_strlit("getTokenAccountsByDelegate");
    reveal_strlit("getTokenAccountsByOwner");
    assert("getTokenAccountsByDelegate"@.len() != "getTokenAccountsByOwner"@.len());
}

} // verus!
