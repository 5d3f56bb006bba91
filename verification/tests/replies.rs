use solana_commitment_config::CommitmentConfig as WireCommitment;
use solana_rpc_client_types::response::{RpcResponseContext, TransactionError, UiAccount};
use solana_transaction_status_client_types as wire;

use zela_std::host::{HostReply, HostRpcError, IoError};
use zela_std::rpc_client::accounts::{
    account_failure, account_reply, accounts_reply, found_account, keyed_account, number_reply,
    parse_keyed_accounts,
};
use zela_std::rpc_client::client::{
    decode_response_error_data, node_unhealthy_data, preflight_failure_data, rpc_response_error,
    slots_behind_field, RpcClient,
};
use zela_std::rpc_client::cluster::{parse_slot_leaders, parsed_reply, slot_leader};
use zela_std::rpc_client::config::{CommitmentConfig, CommitmentLevel, UiTransactionEncoding};
use zela_std::rpc_client::error::{
    ClientResult, ClientRpcError, Error, ErrorKind, RpcResponseErrorData,
};
use zela_std::rpc_client::keys::{Blockhash, Pubkey, Signature};
use zela_std::rpc_client::ledger::block_time;
use zela_std::rpc_client::request::RpcRequest;
use zela_std::rpc_client::response::{
    Account, Response, TokenAccountType, TransactionConfirmationStatus, TransactionStatus,
};
use zela_std::rpc_client::tokens::token_account;
use zela_std::rpc_client::transactions::{
    accepted_signature, airdrop_signature, confirmed, decode_serialized, message_fee,
    num_confirmations,
    serialize_and_encode, signature_outcome,
};

const KEY: Pubkey = Pubkey { bytes: [0; 32] };
const KEY_TEXT: &str = "11111111111111111111111111111111";
const OTHER: Pubkey = Pubkey { bytes: [1; 32] };
const OTHER_TEXT: &str = "4vJ9JU1bJJE96FWSJKvHsmmFADCg4gpZQff4P3bkLKi";
const CONFIRMED: CommitmentConfig = CommitmentConfig { commitment: CommitmentLevel::Confirmed };
const PROCESSED: CommitmentConfig = CommitmentConfig { commitment: CommitmentLevel::Processed };
const FINALIZED: CommitmentConfig = CommitmentConfig { commitment: CommitmentLevel::Finalized };

fn client() -> RpcClient {
    RpcClient::new_with_commitment(CONFIRMED)
}

fn ok(json: &str) -> HostReply {
    Ok(Ok(json.as_bytes().to_vec()))
}

fn with_context(value: &str) -> HostReply {
    ok(&format!("{{\"context\":{{\"slot\":77}},\"value\":{value}}}"))
}

fn refused(code: i32, data: Option<&str>) -> HostReply {
    Ok(Err(HostRpcError {
        code,
        message: "refused".to_string(),
        data: data.map(|d| d.as_bytes().to_vec()),
    }))
}

fn context() -> RpcResponseContext {
    RpcResponseContext { slot: 77, api_version: None }
}

fn json_error() -> serde_json::Error {
    serde_json::from_str::<u64>("x").unwrap_err()
}

fn message<T: std::fmt::Debug>(r: ClientResult<T>) -> String {
    r.unwrap_err().to_text()
}

// ----- send -------------------------------------------------------------------------------------

fn number(bytes: Vec<u8>) -> Result<u64, serde_json::Error> {
    serde_json::from_slice(&bytes)
}

#[test]
fn sending_flattens_both_error_layers() {
    let c = client();
    let request = RpcRequest::Custom { method: "answer" };
    assert_eq!(c.send(request, ok("42"), number).unwrap(), 42);

    let err = c.send(request, ok("\"42\""), number).unwrap_err();
    assert!(matches!(err.kind(), ErrorKind::Io(IoError::InvalidInput(_))));
    assert_eq!(err.request(), Some(&request));
    assert_eq!(err.to_text(), number(b"\"42\"".to_vec()).unwrap_err().to_string());

    let err = c.send(request, Err(111), number).unwrap_err();
    assert!(matches!(err.kind(), ErrorKind::Io(IoError::Os(111))));
    assert_eq!(err.request(), Some(&request));
    assert_eq!(err.to_text(), std::io::Error::from_raw_os_error(111).to_string());

    let err = c.send(request, refused(-32000, Some("[1]")), number).unwrap_err();
    assert_eq!(err.request(), Some(&request));
    assert_eq!(err.to_text(), "RPC response error -32000: refused; ");

    let err = c.send(request, refused(-32000, Some("[1")), number).unwrap_err();
    assert!(matches!(err.kind(), ErrorKind::Io(IoError::InvalidInput(_))));
    assert_eq!(err.request(), Some(&request));
}

const SIMULATION: &str = "{\"err\":\"AccountNotFound\",\"logs\":[\"first\",\"second\"]}";

fn response_data(client: &RpcClient, reply: HostReply) -> RpcResponseErrorData {
    match client.send(RpcRequest::SendTransaction, reply, number).unwrap_err().kind {
        ErrorKind::RpcError(ClientRpcError::RpcResponseError { data, .. }) => data,
        other => panic!("{other:?}"),
    }
}

#[test]
fn error_data_is_decoded_only_on_demand() {
    let plain = client();
    let err = plain
        .send(RpcRequest::SendTransaction, refused(-32002, Some(SIMULATION)), number)
        .unwrap_err();
    assert!(err.get_transaction_error().is_none());
    assert_eq!(err.to_text(), "RPC response error -32002: refused; ");

    let debug = client().with_tx_debug(true);
    let err = debug
        .send(RpcRequest::SendTransaction, refused(-32002, Some(SIMULATION)), number)
        .unwrap_err();
    assert_eq!(err.get_transaction_error(), Some(TransactionError::AccountNotFound));
    assert_eq!(
        err.to_text(),
        "RPC response error -32002: refused; 2 log messages:\n  first\n  second\n"
    );
}

#[test]
fn preflight_data_that_does_not_decode_is_empty() {
    let debug = client().with_tx_debug(true);
    let data = response_data(&debug, refused(-32002, Some("[]")));
    assert!(matches!(data, RpcResponseErrorData::Empty));
    let data = response_data(&debug, refused(-32002, None));
    assert!(matches!(data, RpcResponseErrorData::Empty));
}

#[test]
fn an_unhealthy_node_tells_how_far_behind_it_is() {
    let debug = client().with_tx_debug(true);
    for (json, expected) in [
        ("{\"numSlotsBehind\":42}", Some(Some(42))),
        ("{\"numSlotsBehind\":null}", Some(None)),
        ("{}", Some(None)),
        ("{\"other\":1}", Some(None)),
        ("[42]", Some(Some(42))),
        ("[null]", Some(None)),
        ("[]", None),
        ("[1,2]", None),
        ("{\"numSlotsBehind\":-1}", None),
        ("{\"numSlotsBehind\":\"42\"}", None),
        ("null", None),
        ("42", None),
        ("\"numSlotsBehind\"", None),
    ] {
        let found = match response_data(&debug, refused(-32005, Some(json))) {
            RpcResponseErrorData::NodeUnhealthy { num_slots_behind } => Some(num_slots_behind),
            RpcResponseErrorData::Empty => None,
            other => panic!("{other:?}"),
        };
        assert_eq!(found, expected, "{json}");
    }
}

#[test]
fn other_error_codes_have_no_data() {
    let debug = client().with_tx_debug(true);
    let data = response_data(&debug, refused(-32000, Some(SIMULATION)));
    assert!(matches!(data, RpcResponseErrorData::Empty));
    let value = || Some(serde_json::from_str(SIMULATION).unwrap());
    assert!(matches!(
        decode_response_error_data(true, -32002, value()),
        RpcResponseErrorData::SendTransactionPreflightFailure(_)
    ));
    assert!(matches!(decode_response_error_data(false, -32002, value()), RpcResponseErrorData::Empty));
    assert!(matches!(decode_response_error_data(true, -32002, None), RpcResponseErrorData::Empty));
}

#[test]
fn parts_of_error_data() {
    assert!(matches!(preflight_failure_data(Err(json_error())), RpcResponseErrorData::Empty));
    assert!(matches!(node_unhealthy_data(None), RpcResponseErrorData::Empty));
    assert!(matches!(
        node_unhealthy_data(Some(Some(3))),
        RpcResponseErrorData::NodeUnhealthy { num_slots_behind: Some(3) }
    ));
    assert_eq!(slots_behind_field(None), Some(None));
    assert_eq!(slots_behind_field(Some(Ok(Some(3)))), Some(Some(3)));
    assert_eq!(slots_behind_field(Some(Err(json_error()))), None);
    let err = zela_std::host::RpcError { code: 5, message: "m".to_string(), data: None };
    let err = rpc_response_error(true, RpcRequest::GetSlot, err);
    assert_eq!(err.to_text(), "RPC response error 5: m; ");
    assert_eq!(err.request(), Some(&RpcRequest::GetSlot));
}

// ----- transactions -----------------------------------------------------------------------------

fn sig(b: u8) -> Signature {
    Signature { bytes: [b; 64] }
}

fn sig_text(b: u8) -> String {
    solana_sdk::signature::Signature::from([b; 64]).to_string()
}

#[test]
fn an_echoed_signature_is_accepted() {
    let reply = ok(&format!("\"{}\"", sig_text(7)));
    assert_eq!(client().send_transaction_reply(&sig(7), reply).unwrap(), sig(7));
}

#[test]
fn a_foreign_signature_is_not_accepted() {
    let reply = ok(&format!("\"{}\"", sig_text(8)));
    let err = client().send_transaction_reply(&sig(7), reply).unwrap_err();
    assert_eq!(
        err.to_text(),
        format!(
            "RPC request error: RPC node returned mismatched signature {}, expected {}",
            sig_text(8),
            sig_text(7)
        )
    );
    assert!(err.request().is_none());
}

#[test]
fn a_malformed_signature_is_a_parse_error() {
    let err = client().send_transaction_reply(&sig(7), ok("\"0OIl\"")).unwrap_err();
    let expected = "0OIl".parse::<solana_sdk::signature::Signature>().unwrap_err();
    assert_eq!(err.to_text(), format!("parse error: expected {expected}"));
    assert!(client().send_transaction_reply(&sig(7), Err(5)).is_err());
    assert!(accepted_signature(Ok(sig(1)), &sig(1)).is_ok());
    assert!(accepted_signature(Ok(sig(1)), &sig(2)).is_err());
    let err = message(accepted_signature(Err("why".to_string()), &sig(2)));
    assert_eq!(err, "parse error: expected why");
}

#[test]
fn bytes_are_encoded() {
    let base58 = serialize_and_encode(Ok(vec![1, 2]), UiTransactionEncoding::Base58).unwrap();
    assert_eq!(base58, solana_sdk::bs58::encode([1, 2]).into_string());
    let base64 = serialize_and_encode(Ok(vec![1, 2]), UiTransactionEncoding::Base64).unwrap();
    assert_eq!(base64, "AQI=");
    for encoding in [
        UiTransactionEncoding::Binary,
        UiTransactionEncoding::Json,
        UiTransactionEncoding::JsonParsed,
    ] {
        assert!(serialize_and_encode(Ok(vec![1, 2]), encoding).is_err());
        assert_eq!(decode_serialized("AQI=", encoding), None);
    }
}

#[test]
fn decoding_gives_the_bytes_back() {
    for bytes in [vec![], vec![0], vec![0, 0, 255], (0..=255).collect::<Vec<u8>>()] {
        for encoding in [UiTransactionEncoding::Base58, UiTransactionEncoding::Base64] {
            let text = serialize_and_encode(Ok(bytes.clone()), encoding).unwrap();
            assert_eq!(decode_serialized(&text, encoding), Some(bytes.clone()));
        }
    }
    assert_eq!(decode_serialized("0OIl", UiTransactionEncoding::Base58), None);
    assert_eq!(decode_serialized("AQI", UiTransactionEncoding::Base64), None);
}

#[test]
fn bytes_that_do_not_serialize_are_not_sent() {
    let failures = || {
        [
            bincode::ErrorKind::SizeLimit,
            bincode::ErrorKind::Custom("why".to_string()),
            bincode::ErrorKind::Io(std::io::Error::from_raw_os_error(5)),
        ]
    };
    for (ours, theirs) in failures().into_iter().zip(failures()) {
        let r = serialize_and_encode(Err(Box::new(ours)), UiTransactionEncoding::Base64);
        assert_eq!(message(r), format!("Custom: Serialization failed: {theirs}"));
    }
}

#[test]
fn simulations_are_handed_on() {
    let reply = with_context("{\"err\":null,\"logs\":[\"l\"],\"unitsConsumed\":9}");
    let r = client().simulate_transaction_reply(reply).unwrap();
    assert_eq!(r.context, context());
    assert_eq!(r.value.units_consumed, Some(9));
    assert!(client().simulate_transaction_reply(ok("1")).is_err());
}

fn status_json(confirmations: &str, status: &str, level: &str) -> String {
    format!(
        "{{\"slot\":5,\"confirmations\":{confirmations},\"status\":{status},\"err\":null,\
         \"confirmationStatus\":{level}}}"
    )
}

const SUCCESS: &str = "{\"Ok\":null}";
const FAILURE: &str = "{\"Err\":\"AccountInUse\"}";

#[test]
fn statuses_are_read() {
    let one = status_json("10", SUCCESS, "\"confirmed\"");
    let two = status_json("null", FAILURE, "\"finalized\"");
    let three = status_json("0", SUCCESS, "\"processed\"");
    let reply = with_context(&format!("[{one},null,{two},{three}]"));
    let r = client().get_signature_statuses_reply(reply).unwrap();
    assert_eq!(r.context, context());
    assert_eq!(r.value.len(), 4);
    let first = r.value[0].as_ref().unwrap();
    assert_eq!((first.slot, first.confirmations), (5, Some(10)));
    assert_eq!(first.status, Ok(()));
    assert_eq!(first.confirmation_status, Some(TransactionConfirmationStatus::Confirmed));
    assert!(r.value[1].is_none());
    let third = r.value[2].as_ref().unwrap();
    assert_eq!(third.confirmations, None);
    assert_eq!(third.status, Err(TransactionError::AccountInUse));
    assert_eq!(third.confirmation_status, Some(TransactionConfirmationStatus::Finalized));
    let fourth = r.value[3].as_ref().unwrap();
    assert_eq!(fourth.confirmation_status, Some(TransactionConfirmationStatus::Processed));
}

#[test]
fn a_status_below_the_commitment_is_no_outcome() {
    let c = client();
    let reply = || with_context(&format!("[{}]", status_json("0", SUCCESS, "\"processed\"")));
    assert_eq!(c.get_signature_status_reply(reply()).unwrap().unwrap(), None);
    let at = |commitment| {
        c.get_signature_status_with_commitment_reply(commitment, reply()).unwrap().unwrap()
    };
    assert_eq!(at(PROCESSED), Some(Ok(())));
    assert_eq!(at(FINALIZED), None);
    let failed = with_context(&format!("[{}]", status_json("null", FAILURE, "\"finalized\"")));
    assert_eq!(
        c.get_signature_status_reply(failed).unwrap().unwrap(),
        Some(Err(TransactionError::AccountInUse))
    );
    assert_eq!(c.get_signature_status_reply(with_context("[null]")).unwrap().unwrap(), None);
    assert!(c.get_signature_status_reply(with_context("[]")).is_none());
    assert!(c.get_signature_status_reply(Err(1)).unwrap().is_err());
}

#[test]
fn a_transaction_is_confirmed_when_it_succeeded() {
    let c = client();
    let good = || with_context(&format!("[{}]", status_json("10", SUCCESS, "\"confirmed\"")));
    let bad = || with_context(&format!("[{}]", status_json("10", FAILURE, "\"confirmed\"")));
    assert!(c.confirm_transaction_reply(good()).unwrap().unwrap());
    assert!(!c.confirm_transaction_reply(bad()).unwrap().unwrap());
    assert!(!c.confirm_transaction_reply(with_context("[null]")).unwrap().unwrap());
    assert!(c.confirm_transaction_reply(with_context("[]")).is_none());
    let r = c.confirm_transaction_with_commitment_reply(FINALIZED, good()).unwrap().unwrap();
    assert_eq!((r.context, r.value), (context(), false));
    assert!(c.confirm_transaction_with_commitment_reply(FINALIZED, Err(1)).unwrap().is_err());
}

#[test]
fn confirmations_are_counted() {
    let c = client();
    let count = |n: &str| {
        let reply = with_context(&format!("[{}]", status_json(n, SUCCESS, "null")));
        c.get_num_blocks_since_signature_confirmation_reply(reply).unwrap().unwrap()
    };
    assert_eq!(count("0"), 0);
    assert_eq!(count("31"), 31);
    assert_eq!(count("32"), 32);
    assert_eq!(count("33"), 32);
    assert_eq!(count("40"), 32);
    assert_eq!(count("null"), 32);
    let err = c
        .get_num_blocks_since_signature_confirmation_reply(with_context("[null]"))
        .unwrap()
        .unwrap_err();
    assert_eq!(err.to_text(), "Custom: signature not found");
    assert_eq!(err.request(), Some(&RpcRequest::GetSignatureStatuses));
    assert!(c.get_num_blocks_since_signature_confirmation_reply(with_context("[]")).is_none());
}

fn status(
    confirmations: Option<usize>,
    confirmation_status: Option<TransactionConfirmationStatus>,
) -> TransactionStatus {
    TransactionStatus { slot: 5, confirmations, status: Ok(()), err: None, confirmation_status }
}

#[test]
fn commitments_are_judged_like_the_node_types_do() {
    let levels = [
        (None, None),
        (
            Some(TransactionConfirmationStatus::Processed),
            Some(wire::TransactionConfirmationStatus::Processed),
        ),
        (
            Some(TransactionConfirmationStatus::Confirmed),
            Some(wire::TransactionConfirmationStatus::Confirmed),
        ),
        (
            Some(TransactionConfirmationStatus::Finalized),
            Some(wire::TransactionConfirmationStatus::Finalized),
        ),
    ];
    let commitments = [
        (PROCESSED, WireCommitment::processed()),
        (CONFIRMED, WireCommitment::confirmed()),
        (FINALIZED, WireCommitment::finalized()),
    ];
    for confirmations in [None, Some(0), Some(1), Some(2), Some(31)] {
        for (level, wire_level) in levels.clone() {
            for (commitment, wire_commitment) in commitments {
                let theirs = wire::TransactionStatus {
                    slot: 5,
                    confirmations,
                    status: Ok(()),
                    err: None,
                    confirmation_status: wire_level.clone(),
                };
                assert_eq!(
                    status(confirmations, level).satisfies_commitment(commitment),
                    theirs.satisfies_commitment(wire_commitment)
                );
            }
        }
    }
}

#[test]
fn outcomes_of_a_status() {
    let rooted = || vec![Some(status(None, None)), None];
    assert_eq!(signature_outcome(rooted(), FINALIZED), Some(Ok(())));
    assert_eq!(num_confirmations(rooted()).unwrap(), 32);
    let r = confirmed(Response { context: context(), value: rooted() }, FINALIZED);
    assert!(r.value);
    assert_eq!(signature_outcome(vec![None], PROCESSED), None);
    assert!(num_confirmations(vec![None]).is_err());
}

#[test]
fn fees_may_be_unknown() {
    assert_eq!(client().get_fee_for_message_reply(with_context("5000")).unwrap(), 5000);
    let err = client().get_fee_for_message_reply(with_context("null")).unwrap_err();
    assert_eq!(err.to_text(), "Custom: Invalid blockhash");
    assert!(err.request().is_none());
    assert!(client().get_fee_for_message_reply(with_context("-1")).is_err());
    assert_eq!(message_fee(Some(1)).unwrap(), 1);
    assert!(message_fee(None).is_err());
}

#[test]
fn any_airdrop_failure_is_one_message() {
    let text = "airdrop request failed. This can happen when the rate limit is reached.";
    let c = client();
    let good = ok(&format!("\"{}\"", sig_text(3)));
    assert_eq!(c.request_airdrop_reply(good).unwrap(), sig(3));
    for reply in [ok("\"not base 58!\""), ok("7"), Err(1), refused(429, None)] {
        let err = c.request_airdrop_reply(reply).unwrap_err();
        assert_eq!(err.to_text(), text);
        assert!(err.request().is_none());
        assert!(matches!(err.kind(), ErrorKind::RpcError(ClientRpcError::ForUser(_))));
    }
    assert_eq!(message(airdrop_signature(Err("x".to_string()))), text);
    assert_eq!(airdrop_signature(Ok(sig(1))).unwrap(), sig(1));
}

// ----- accounts ---------------------------------------------------------------------------------

fn account_json(data: &str, owner: &str) -> String {
    format!(
        "{{\"lamports\":5,\"data\":{data},\"owner\":\"{owner}\",\"executable\":true,\
         \"rentEpoch\":9,\"space\":3}}"
    )
}

fn binary() -> String {
    account_json("[\"AQID\",\"base64\"]", OTHER_TEXT)
}

fn account() -> Account {
    Account { lamports: 5, data: vec![1, 2, 3], owner: OTHER, executable: true, rent_epoch: 9 }
}

fn ui_account(json: &str) -> UiAccount {
    serde_json::from_str(json).unwrap()
}

#[test]
fn an_account_is_decoded() {
    let c = client();
    let reply = || with_context(&binary());
    let r = c.get_account_with_config_reply(&KEY, reply()).unwrap();
    assert_eq!((r.context, r.value), (context(), Some(account())));
    assert_eq!(c.get_account_reply(&KEY, reply()).unwrap(), account());
    assert_eq!(c.get_account_data_reply(&KEY, reply()).unwrap(), vec![1, 2, 3]);
}

#[test]
fn an_account_that_does_not_exist() {
    let c = client();
    let none = || with_context("null");
    assert_eq!(c.get_account_with_config_reply(&KEY, none()).unwrap().value, None);
    let expected = format!("AccountNotFound: pubkey={KEY_TEXT}");
    assert_eq!(message(c.get_account_reply(&KEY, none())), expected);
    assert_eq!(message(c.get_account_data_reply(&KEY, none())), expected);
    assert_eq!(message(c.get_account_with_config_reply(&KEY, ok("null"))), expected);
    assert_eq!(message(found_account(&KEY, None)), expected);
    assert_eq!(found_account(&KEY, Some(account())).unwrap(), account());
}

#[test]
fn an_account_that_does_not_decode_is_none() {
    let c = client();
    for json in [
        account_json("[\"?\",\"base64\"]", OTHER_TEXT),
        account_json("[\"AQID\",\"base64\"]", "no key"),
        account_json("{\"program\":\"p\",\"parsed\":{},\"space\":0}", OTHER_TEXT),
    ] {
        let r = c.get_account_with_config_reply(&KEY, with_context(&json)).unwrap();
        assert_eq!(r.value, None);
    }
}

#[test]
fn a_failed_account_request_tells_why() {
    let c = client();
    let err = c.get_account_with_config_reply(&KEY, refused(-32004, None)).unwrap_err();
    assert_eq!(
        err.to_text(),
        format!("AccountNotFound: pubkey={KEY_TEXT}: RPC response error -32004: refused; ")
    );
    assert!(err.request().is_none());
    let err = c.get_account_with_config_reply(&KEY, Err(2)).unwrap_err();
    let os = std::io::Error::from_raw_os_error(2);
    assert_eq!(err.to_text(), format!("AccountNotFound: pubkey={KEY_TEXT}: {os}"));
    let err = account_failure(&KEY, Error::from(ErrorKind::Custom("x".to_string())));
    assert_eq!(err.to_text(), format!("AccountNotFound: pubkey={KEY_TEXT}: Custom: x"));
}

#[test]
fn a_malformed_account_reply_is_a_json_error() {
    let err = client().get_account_with_config_reply(&KEY, ok("[]")).unwrap_err();
    assert!(matches!(err.kind(), ErrorKind::SerdeJson(_)));
    assert!(err.request().is_none());
    let err = account_reply(&KEY, Some(Err(json_error()))).unwrap_err();
    assert_eq!(err.to_text(), json_error().to_string());
    assert!(account_reply(&KEY, None).is_err());
    let reply = Response { context: context(), value: Some(ui_account(&binary())) };
    assert_eq!(account_reply(&KEY, Some(Ok(reply))).unwrap().value.unwrap().lamports, 5);
}

#[test]
fn many_accounts_keep_their_positions() {
    let c = client();
    let garbled = account_json("[\"?\",\"base64\"]", OTHER_TEXT);
    let reply = || with_context(&format!("[null,{},{garbled},{}]", binary(), binary()));
    let r = c.get_multiple_accounts_with_config_reply(reply()).unwrap();
    assert_eq!(r.context, context());
    assert_eq!(r.value, vec![None, Some(account()), None, Some(account())]);
    assert_eq!(
        c.get_multiple_accounts_reply(reply()).unwrap(),
        vec![None, Some(account()), None, Some(account())]
    );
    let err = c.get_multiple_accounts_reply(ok("{}")).unwrap_err();
    assert!(matches!(err.kind(), ErrorKind::SerdeJson(_)));
    assert!(err.request().is_none());
    let err = c.get_multiple_accounts_reply(Err(3)).unwrap_err();
    assert_eq!(err.request(), Some(&RpcRequest::GetMultipleAccounts));
    assert!(accounts_reply(Err(json_error())).is_err());
    let one = Response { context: context(), value: vec![Some(ui_account(&binary()))] };
    assert_eq!(accounts_reply(Ok(one)).unwrap().value, vec![Some(account())]);
}

#[test]
fn program_accounts_come_with_their_addresses() {
    let c = client();
    let list = format!(
        "[{{\"pubkey\":\"{KEY_TEXT}\",\"account\":{}}},{{\"pubkey\":\"{OTHER_TEXT}\",\
         \"account\":{}}}]",
        binary(),
        binary()
    );
    let expected = vec![(KEY, account()), (OTHER, account())];
    assert_eq!(c.get_program_accounts_reply(ok(&list)).unwrap(), expected);
    assert_eq!(c.get_program_accounts_reply(with_context(&list)).unwrap(), expected);
    assert!(c.get_program_accounts_reply(ok("7")).is_err());
}

#[test]
fn one_bad_program_account_fails_the_whole() {
    let good = || (KEY_TEXT.to_string(), ui_account(&binary()));
    let request = RpcRequest::GetProgramAccounts;
    let bad_key = || ("?".to_string(), ui_account(&binary()));
    let garbled = account_json("[\"?\",\"base64\"]", OTHER_TEXT);
    let bad_account = || (KEY_TEXT.to_string(), ui_account(&garbled));
    assert!(parse_keyed_accounts(vec![], request).unwrap().is_empty());
    let err = parse_keyed_accounts(vec![good(), bad_key(), bad_account()], request).unwrap_err();
    assert_eq!(err.to_text(), "parse error: expected Pubkey");
    assert_eq!(err.request(), Some(&request));
    let err = parse_keyed_accounts(vec![good(), bad_account(), bad_key()], request).unwrap_err();
    assert_eq!(err.to_text(), "parse error: expected Account from rpc");
    assert_eq!(err.request(), Some(&request));
    assert!(keyed_account(Ok(KEY), None, request).is_err());
    assert!(keyed_account(Err("x".to_string()), Some(account()), request).is_err());
    assert_eq!(keyed_account(Ok(KEY), Some(account()), request).unwrap(), (KEY, account()));
}

#[test]
fn balances_and_rent() {
    let c = client();
    assert_eq!(c.get_balance_reply(with_context("12")).unwrap(), 12);
    let r = c.get_balance_with_commitment_reply(with_context("12")).unwrap();
    assert_eq!((r.context, r.value), (context(), 12));
    assert_eq!(c.get_minimum_balance_for_rent_exemption_reply(ok("890880")).unwrap(), 890880);
    let err = c.get_minimum_balance_for_rent_exemption_reply(ok("-1")).unwrap_err();
    assert!(matches!(err.kind(), ErrorKind::SerdeJson(_)));
    assert_eq!(err.request(), Some(&RpcRequest::GetMinimumBalanceForRentExemption));
    let err = c.get_minimum_balance_for_rent_exemption_reply(ok("{")).unwrap_err();
    assert!(matches!(err.kind(), ErrorKind::Io(IoError::InvalidInput(_))));
    assert_eq!(number_reply(Ok(4), RpcRequest::GetSlot).unwrap(), 4);
    let err = number_reply::<u8>(Err(json_error()), RpcRequest::GetSlot).unwrap_err();
    assert_eq!(err.request(), Some(&RpcRequest::GetSlot));
}

// ----- tokens -----------------------------------------------------------------------------------

const AMOUNT: &str =
    "{\"uiAmount\":1.5,\"decimals\":1,\"amount\":\"15\",\"uiAmountString\":\"1.5\"}";

fn token_json(parsed: &str) -> String {
    account_json(
        &format!("{{\"program\":\"spl-token\",\"parsed\":{parsed},\"space\":165}}"),
        OTHER_TEXT,
    )
}

fn token_account_json() -> String {
    token_json(&format!(
        "{{\"type\":\"account\",\"info\":{{\"mint\":\"m\",\"owner\":\"o\",\"tokenAmount\":{AMOUNT},\
         \"state\":\"initialized\",\"isNative\":false}}}}"
    ))
}

#[test]
fn a_token_account_is_read() {
    let c = client();
    let reply = || with_context(&token_account_json());
    let r = c.get_token_account_with_commitment_reply(&KEY, reply()).unwrap();
    assert_eq!(r.context, context());
    assert_eq!(r.value.unwrap().token_amount.amount, "15");
    let account = c.get_token_account_reply(&KEY, reply()).unwrap().unwrap();
    assert_eq!((account.mint.as_str(), account.owner.as_str()), ("m", "o"));
}

#[test]
fn an_account_that_is_no_token_account_is_none() {
    let c = client();
    let mint = token_json(
        "{\"type\":\"mint\",\"info\":{\"mintAuthority\":null,\"supply\":\"1\",\"decimals\":0,\
         \"isInitialized\":true,\"freezeAuthority\":null}}",
    );
    let multisig = token_json(
        "{\"type\":\"multisig\",\"info\":{\"numRequiredSigners\":1,\"numValidSigners\":1,\
         \"isInitialized\":true,\"signers\":[]}}",
    );
    for json in [mint, multisig, binary()] {
        assert!(c.get_token_account_reply(&KEY, with_context(&json)).unwrap().is_none());
    }
}

#[test]
fn a_token_account_that_is_not_there_is_an_error() {
    let c = client();
    assert_eq!(
        message(c.get_token_account_reply(&KEY, with_context("null"))),
        format!("Account could not be parsed as token account: pubkey={KEY_TEXT}")
    );
    assert_eq!(
        message(c.get_token_account_reply(&KEY, ok("null"))),
        format!("AccountNotFound: pubkey={KEY_TEXT}")
    );
    assert_eq!(
        message(c.get_token_account_reply(&KEY, refused(1, None))),
        format!("AccountNotFound: pubkey={KEY_TEXT}: RPC response error 1: refused; ")
    );
    let strange = token_json("{\"type\":\"banana\"}");
    let err = c.get_token_account_reply(&KEY, with_context(&strange)).unwrap_err();
    assert!(matches!(err.kind(), ErrorKind::SerdeJson(_)));
    assert!(err.request().is_none());
}

#[test]
fn what_a_token_account_may_be() {
    assert!(token_account(&KEY, context(), None).is_err());
    assert!(token_account(&KEY, context(), Some(None)).unwrap().value.is_none());
    let mint = Some(Some(Ok(TokenAccountType::Mint)));
    assert!(token_account(&KEY, context(), mint).unwrap().value.is_none());
    let multisig = Some(Some(Ok(TokenAccountType::Multisig)));
    assert!(token_account(&KEY, context(), multisig).unwrap().value.is_none());
    assert!(token_account(&KEY, context(), Some(Some(Err(json_error())))).is_err());
}

#[test]
fn token_amounts_are_handed_on() {
    let c = client();
    let reply = || with_context(AMOUNT);
    assert_eq!(c.get_token_account_balance_reply(reply()).unwrap().amount, "15");
    assert_eq!(c.get_token_supply_reply(reply()).unwrap().decimals, 1);
    let r = c.get_token_account_balance_with_commitment_reply(reply()).unwrap();
    assert_eq!((r.context, r.value.ui_amount), (context(), Some(1.5)));
    let r = c.get_token_supply_with_commitment_reply(reply()).unwrap();
    assert_eq!((r.context, r.value.ui_amount_string.as_str()), (context(), "1.5"));
    assert!(c.get_token_supply_reply(with_context("1")).is_err());
}

#[test]
fn token_lists_are_handed_on() {
    let c = client();
    let keyed = format!("[{{\"pubkey\":\"k\",\"account\":{}}}]", binary());
    let reply = || with_context(&keyed);
    let by_owner = c.get_token_accounts_by_owner_reply(reply()).unwrap();
    assert_eq!((by_owner.len(), by_owner[0].pubkey.as_str()), (1, "k"));
    let by_delegate = c.get_token_accounts_by_delegate_reply(reply()).unwrap();
    assert_eq!(by_delegate[0].account.lamports, 5);
    let r = c.get_token_accounts_by_owner_with_commitment_reply(reply()).unwrap();
    assert_eq!((r.context, r.value.len()), (context(), 1));
    let r = c.get_token_accounts_by_delegate_with_commitment_reply(reply()).unwrap();
    assert_eq!((r.context, r.value.len()), (context(), 1));
    let err = c.get_token_accounts_by_delegate_reply(Err(1)).unwrap_err();
    assert_eq!(err.request(), Some(&RpcRequest::GetTokenAccountsByDelegate));
    let err = c.get_token_accounts_by_owner_reply(Err(1)).unwrap_err();
    assert_eq!(err.request(), Some(&RpcRequest::GetTokenAccountsByOwner));
    let largest = format!("[{{\"address\":\"a\",{}]", &AMOUNT[1..]);
    let list = c.get_token_largest_accounts_reply(with_context(&largest)).unwrap();
    assert_eq!((list.len(), list[0].address.as_str()), (1, "a"));
    let r = c.get_token_largest_accounts_with_commitment_reply(with_context(&largest)).unwrap();
    assert_eq!((r.context, r.value[0].amount.amount.as_str()), (context(), "15"));
}

// ----- cluster ----------------------------------------------------------------------------------

#[test]
fn numbers_are_handed_on() {
    let c = client();
    assert_eq!(c.get_slot_reply(ok("1")).unwrap(), 1);
    assert_eq!(c.get_block_height_reply(ok("2")).unwrap(), 2);
    assert_eq!(c.get_transaction_count_reply(ok("3")).unwrap(), 3);
    assert_eq!(c.minimum_ledger_slot_reply(ok("4")).unwrap(), 4);
    assert_eq!(c.get_max_retransmit_slot_reply(ok("5")).unwrap(), 5);
    assert_eq!(c.get_max_shred_insert_slot_reply(ok("6")).unwrap(), 6);
    assert_eq!(c.get_first_available_block_reply(ok("7")).unwrap(), 7);
    assert_eq!(c.get_stake_minimum_delegation_reply(with_context("8")).unwrap(), 8);
    for (err, request) in [
        (c.get_slot_reply(ok("-1")), RpcRequest::GetSlot),
        (c.get_block_height_reply(Err(1)), RpcRequest::GetBlockHeight),
        (c.get_transaction_count_reply(refused(1, None)), RpcRequest::GetTransactionCount),
        (c.minimum_ledger_slot_reply(Err(1)), RpcRequest::MinimumLedgerSlot),
        (c.get_max_retransmit_slot_reply(Err(1)), RpcRequest::GetMaxRetransmitSlot),
        (c.get_max_shred_insert_slot_reply(Err(1)), RpcRequest::GetMaxShredInsertSlot),
        (c.get_first_available_block_reply(Err(1)), RpcRequest::GetFirstAvailableBlock),
        (c.get_stake_minimum_delegation_reply(ok("8")), RpcRequest::GetStakeMinimumDelegation),
    ] {
        assert_eq!(err.unwrap_err().request(), Some(&request));
    }
}

#[test]
fn slot_leaders_are_parsed() {
    let c = client();
    let reply = ok(&format!("[\"{OTHER_TEXT}\",\"{KEY_TEXT}\"]"));
    assert_eq!(c.get_slot_leaders_reply(reply).unwrap(), vec![OTHER, KEY]);
    assert!(c.get_slot_leaders_reply(ok("[]")).unwrap().is_empty());
    let err = c.get_slot_leaders_reply(ok(&format!("[\"{KEY_TEXT}\",\"?\"]"))).unwrap_err();
    let why = "?".parse::<solana_sdk::pubkey::Pubkey>().unwrap_err();
    assert_eq!(err.to_text(), format!("Custom: pubkey deserialization failed: {why}"));
    assert!(err.request().is_none());
    assert!(c.get_slot_leaders_reply(ok("[1]")).is_err());
    let first = parse_slot_leaders(vec!["".to_string(), "?".to_string()]).unwrap_err();
    let why = "".parse::<solana_sdk::pubkey::Pubkey>().unwrap_err();
    assert_eq!(first.to_text(), format!("Custom: pubkey deserialization failed: {why}"));
    assert_eq!(slot_leader(Ok(KEY)).unwrap(), KEY);
    let err = message(slot_leader(Err("w".to_string())));
    assert_eq!(err, "Custom: pubkey deserialization failed: w");
}

#[test]
fn the_identity_of_a_node() {
    let c = client();
    let reply = ok(&format!("{{\"identity\":\"{OTHER_TEXT}\"}}"));
    assert_eq!(c.get_identity_reply(reply).unwrap(), OTHER);
    let err = c.get_identity_reply(ok("{\"identity\":\"?\"}")).unwrap_err();
    assert_eq!(err.to_text(), "parse error: expected Pubkey");
    assert_eq!(err.request(), Some(&RpcRequest::GetIdentity));
    assert!(c.get_identity_reply(ok("{}")).is_err());
    let err = parsed_reply::<u8>(Err("x".to_string()), "Thing", RpcRequest::GetSlot).unwrap_err();
    assert_eq!(err.to_text(), "parse error: expected Thing");
    assert_eq!(parsed_reply(Ok(1), "Thing", RpcRequest::GetSlot).unwrap(), 1);
}

#[test]
fn the_health_of_a_node() {
    let c = client();
    assert!(c.get_health_reply(ok("\"ok\"")).is_ok());
    assert!(c.get_health_reply(ok("true")).is_err());
    let behind = || refused(-32005, Some("{\"numSlotsBehind\":1}"));
    let err = c.get_health_reply(behind()).unwrap_err();
    assert_eq!(err.request(), Some(&RpcRequest::GetHealth));
    let err = client().with_tx_debug(true).get_health_reply(behind()).unwrap_err();
    assert_eq!(err.request(), Some(&RpcRequest::GetHealth));
    match err.kind {
        ErrorKind::RpcError(ClientRpcError::RpcResponseError { code, message, data }) => {
            assert_eq!((code, message.as_str()), (-32005, "refused"));
            assert!(matches!(data, RpcResponseErrorData::Empty));
        }
        other => panic!("{other:?}"),
    }
    assert_eq!(c.get_health_reply(Err(4)).unwrap_err().request(), Some(&RpcRequest::GetHealth));
}

#[test]
fn cluster_replies_are_handed_on() {
    let c = client();
    let r = c.get_highest_snapshot_slot_reply(ok("{\"full\":100,\"incremental\":110}")).unwrap();
    assert_eq!((r.full, r.incremental), (100, Some(110)));
    let production = "{\"byIdentity\":{\"v\":[4,3]},\"range\":{\"firstSlot\":1,\"lastSlot\":9}}";
    let r = c.get_block_production_reply(with_context(production)).unwrap();
    assert_eq!((r.context, r.value.by_identity["v"]), (context(), (4, 3)));
    assert_eq!(r.value.by_identity.len(), 1);
    assert_eq!((r.value.range.first_slot, r.value.range.last_slot), (1, 9));
    let r = c.get_leader_schedule_reply(ok("{\"v\":[0,1]}")).unwrap().unwrap();
    assert_eq!(r["v"], vec![0, 1]);
    assert!(c.get_leader_schedule_reply(ok("null")).unwrap().is_none());
    let info = "{\"epoch\":2,\"slotIndex\":3,\"slotsInEpoch\":4,\"absoluteSlot\":5,\
                \"blockHeight\":6,\"transactionCount\":7}";
    assert_eq!(c.get_epoch_info_reply(ok(info)).unwrap().slot_index, 3);
    let schedule = "{\"slotsPerEpoch\":432000,\"leaderScheduleSlotOffset\":432000,\
                    \"warmup\":false,\"firstNormalEpoch\":0,\"firstNormalSlot\":0}";
    assert_eq!(c.get_epoch_schedule_reply(ok(schedule)).unwrap().slots_per_epoch, 432000);
    let governor = "{\"initial\":0.08,\"terminal\":0.015,\"taper\":0.15,\"foundation\":0.0,\
                    \"foundationTerm\":0.0}";
    assert_eq!(c.get_inflation_governor_reply(ok(governor)).unwrap().taper, 0.15);
    let rate = "{\"total\":0.05,\"validator\":0.04,\"foundation\":0.01,\"epoch\":100}";
    assert_eq!(c.get_inflation_rate_reply(ok(rate)).unwrap().epoch, 100);
    let rewards = "[null,{\"epoch\":2,\"effectiveSlot\":3,\"amount\":4,\"postBalance\":5,\
                   \"commission\":null}]";
    let r = c.get_inflation_reward_reply(ok(rewards)).unwrap();
    assert!(r[0].is_none());
    assert_eq!(r[1].as_ref().unwrap().amount, 4);
    let supply = "{\"total\":10,\"circulating\":6,\"nonCirculating\":4,\
                  \"nonCirculatingAccounts\":[]}";
    assert_eq!(c.supply_reply(with_context(supply)).unwrap().value.circulating, 6);
    let largest = "[{\"address\":\"a\",\"lamports\":3}]";
    let r = c.get_largest_accounts_with_config_reply(with_context(largest)).unwrap();
    assert_eq!((r.context, r.value[0].lamports), (context(), 3));
    let nodes = "[{\"pubkey\":\"n\",\"gossip\":\"10.1.1.1:8001\"}]";
    assert_eq!(c.get_cluster_nodes_reply(ok(nodes)).unwrap()[0].pubkey, "n");
    let version = "{\"solana-core\":\"2.0.1\",\"feature-set\":5}";
    assert_eq!(c.get_version_reply(ok(version)).unwrap().solana_core, "2.0.1");
    let samples = "[{\"slot\":1,\"numTransactions\":2,\"numNonVoteTransactions\":null,\
                   \"numSlots\":3,\"samplePeriodSecs\":60}]";
    let r = c.get_recent_performance_samples_reply(ok(samples)).unwrap();
    assert_eq!((r.len(), r[0].num_slots), (1, 3));
    let fees = "[{\"slot\":1,\"prioritizationFee\":2}]";
    assert_eq!(c.get_recent_prioritization_fees_reply(ok(fees)).unwrap()[0].prioritization_fee, 2);
    let votes = "{\"current\":[],\"delinquent\":[]}";
    assert!(c.get_vote_accounts_reply(ok(votes)).unwrap().current.is_empty());
}

// ----- ledger -----------------------------------------------------------------------------------

#[test]
fn block_times() {
    let c = client();
    assert_eq!(c.get_block_time_reply(6, ok("1700000000")).unwrap(), 1700000000);
    assert_eq!(c.get_block_time_reply(6, ok("-5")).unwrap(), -5);
    let err = c.get_block_time_reply(6, ok("null")).unwrap_err();
    assert_eq!(err.to_text(), "Block Not Found: slot=6");
    assert!(err.request().is_none());
    let err = c.get_block_time_reply(6, ok("\"noon\"")).unwrap_err();
    assert!(matches!(err.kind(), ErrorKind::SerdeJson(_)));
    assert_eq!(err.request(), Some(&RpcRequest::GetBlockTime));
    let err = c.get_block_time_reply(6, Err(1)).unwrap_err();
    assert_eq!(err.request(), Some(&RpcRequest::GetBlockTime));
    assert_eq!(block_time(1, Some(Ok(9))).unwrap(), 9);
    assert_eq!(message(block_time(u64::MAX, None)), format!("Block Not Found: slot={}", u64::MAX));
    assert!(block_time(1, Some(Err(json_error()))).is_err());
}

#[test]
fn ledger_replies_are_handed_on() {
    let c = client();
    assert_eq!(c.get_blocks_reply(ok("[5,7]")).unwrap(), vec![5, 7]);
    assert_eq!(c.get_blocks_with_limit_reply(ok("[8]")).unwrap(), vec![8]);
    let err = c.get_blocks_reply(Err(1)).unwrap_err();
    assert_eq!(err.request(), Some(&RpcRequest::GetBlocks));
    let err = c.get_blocks_with_limit_reply(Err(1)).unwrap_err();
    assert_eq!(err.request(), Some(&RpcRequest::GetBlocksWithLimit));
    let block = "{\"previousBlockhash\":\"p\",\"blockhash\":\"b\",\"parentSlot\":4,\
                 \"transactions\":[],\"rewards\":[],\"blockTime\":null,\"blockHeight\":2}";
    assert_eq!(c.get_block_reply(ok(block)).unwrap().parent_slot, 4);
    let slim = "{\"previousBlockhash\":\"p\",\"blockhash\":\"b\",\"parentSlot\":4,\
                \"signatures\":[\"s\"],\"blockTime\":null,\"blockHeight\":2}";
    let r = c.get_block_with_config_reply(ok(slim)).unwrap();
    assert_eq!(r.signatures, Some(vec!["s".to_string()]));
    assert!(c.get_block_reply(ok(slim)).is_err());
    let transaction = "{\"slot\":3,\"transaction\":[\"AQID\",\"base64\"],\"meta\":null,\
                       \"blockTime\":1}";
    assert_eq!(c.get_transaction_reply(ok(transaction)).unwrap().slot, 3);
    let history = "[{\"signature\":\"s\",\"slot\":3,\"err\":null,\"memo\":null,\
                   \"blockTime\":null,\"confirmationStatus\":\"finalized\"}]";
    assert_eq!(c.get_signatures_for_address_reply(ok(history)).unwrap()[0].signature, "s");
}

#[test]
fn hashes_are_parsed() {
    let c = client();
    let hash = Blockhash { bytes: [1; 32] };
    assert_eq!(c.get_genesis_hash_reply(ok(&format!("\"{OTHER_TEXT}\""))).unwrap(), hash);
    let err = c.get_genesis_hash_reply(ok("\"?\"")).unwrap_err();
    assert_eq!(err.to_text(), "parse error: expected Hash");
    assert_eq!(err.request(), Some(&RpcRequest::GetGenesisHash));

    let latest = |text: &str| {
        with_context(&format!("{{\"blockhash\":\"{text}\",\"lastValidBlockHeight\":150}}"))
    };
    assert_eq!(
        c.get_latest_blockhash_with_commitment_reply(latest(OTHER_TEXT)).unwrap(),
        (hash, 150)
    );
    assert_eq!(c.get_latest_blockhash_reply(latest(OTHER_TEXT)).unwrap(), hash);
    let err = c.get_latest_blockhash_reply(latest("?")).unwrap_err();
    assert_eq!(err.to_text(), "parse error: expected Hash");
    assert_eq!(err.request(), Some(&RpcRequest::GetLatestBlockhash));

    assert!(c.is_blockhash_valid_reply(with_context("true")).unwrap());
    assert!(!c.is_blockhash_valid_reply(with_context("false")).unwrap());
    assert!(c.is_blockhash_valid_reply(with_context("1")).is_err());
}
