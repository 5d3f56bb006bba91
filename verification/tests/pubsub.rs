use zela_std::host::{HostRpcError, IoError};
use zela_std::rpc_client::config::{
    CommitmentConfig, RpcAccountInfoConfig, RpcBlockSubscribeFilter, RpcSignatureSubscribeConfig,
    RpcTransactionLogsConfig, RpcTransactionLogsFilter,
};
use zela_std::rpc_client::keys::{Pubkey, Signature};
use zela_std::rpc_client::pubsub::{subscribe_failed, PubsubClient, PubsubClientError, SubscribeCall};
use zela_std::rpc_client::request::Param;

const KEY: Pubkey = Pubkey { bytes: [0; 32] };
const KEY_TEXT: &str = "11111111111111111111111111111111";

fn refused(data: Option<&[u8]>) -> HostRpcError {
    HostRpcError { code: -5, message: "full".to_string(), data: data.map(|d| d.to_vec()) }
}

#[test]
fn subscriptions_name_their_method_and_parameters() {
    let client = PubsubClient::new();
    let config = RpcAccountInfoConfig {
        commitment: Some(CommitmentConfig::processed()),
        ..RpcAccountInfoConfig::default()
    };
    assert_eq!(
        client.account_subscribe(&KEY, Some(config)),
        SubscribeCall {
            method: "account",
            params: vec![
                Param::Text(KEY_TEXT.to_string()),
                Param::OptionalAccountInfo(Some(config)),
            ],
        }
    );
    assert_eq!(
        client.block_subscribe(RpcBlockSubscribeFilter::All, None),
        SubscribeCall {
            method: "block",
            params: vec![
                Param::BlockFilter(RpcBlockSubscribeFilter::All),
                Param::OptionalBlockSubscribe(None),
            ],
        }
    );
    let logs = RpcTransactionLogsConfig { commitment: None };
    assert_eq!(
        client.logs_subscribe(RpcTransactionLogsFilter::AllWithVotes, logs),
        SubscribeCall {
            method: "logs",
            params: vec![
                Param::LogsFilter(RpcTransactionLogsFilter::AllWithVotes),
                Param::Logs(logs),
            ],
        }
    );
    assert_eq!(
        client.program_subscribe(&KEY, None),
        SubscribeCall {
            method: "program",
            params: vec![
                Param::Text(KEY_TEXT.to_string()),
                Param::OptionalProgramAccounts(None),
            ],
        }
    );
    let config = RpcSignatureSubscribeConfig {
        commitment: None,
        enable_received_notification: Some(true),
    };
    assert_eq!(
        client.signature_subscribe(&Signature { bytes: [0; 64] }, Some(config)),
        SubscribeCall {
            method: "signature",
            params: vec![
                Param::Text("1".repeat(64)),
                Param::OptionalSignatureSubscribe(Some(config)),
            ],
        }
    );
}

#[test]
fn subscriptions_without_parameters() {
    let client = PubsubClient::default();
    for (call, method) in [
        (client.vote_subscribe(), "vote"),
        (client.root_subscribe(), "root"),
        (client.slot_subscribe(), "slot"),
        (client.slot_updates_subscribe(), "slotsUpdates"),
    ] {
        assert_eq!(call, SubscribeCall { method, params: vec![] });
    }
}

#[test]
fn an_open_subscription_is_a_stream() {
    let stream = PubsubClient::new().subscribe(Ok(Ok(17))).unwrap();
    assert_eq!(stream.subscription.handle, 17);
    assert!(!stream.is_done());
}

#[test]
fn a_refused_subscription_keeps_its_data() {
    let err = PubsubClient::new().subscribe::<u8>(Ok(Err(refused(Some(b"[1]"))))).unwrap_err();
    assert_eq!(err.to_text(), "subscribe failed: -5 full");
    match err {
        PubsubClientError::SubscribeFailed { code, message, data } => {
            assert_eq!((code, message.as_str()), (-5, "full"));
            assert_eq!(data.unwrap().to_string(), "[1]");
        }
        other => panic!("{other:?}"),
    }
    let err = PubsubClient::new().subscribe::<u8>(Ok(Err(refused(None)))).unwrap_err();
    assert!(matches!(err, PubsubClientError::SubscribeFailed { data: None, .. }));
}

#[test]
fn transport_failures_of_a_subscription() {
    let err = PubsubClient::new().subscribe::<u8>(Ok(Err(refused(Some(b"?"))))).unwrap_err();
    let expected = serde_json::from_str::<u8>("?").unwrap_err().to_string();
    assert_eq!(err.to_text(), expected);
    assert!(matches!(err, PubsubClientError::Io(IoError::InvalidInput(_))));
    let err = PubsubClient::new().subscribe::<u8>(Err(2)).unwrap_err();
    assert_eq!(err.to_text(), std::io::Error::from_raw_os_error(2).to_string());
    assert!(matches!(err, PubsubClientError::Io(IoError::Os(2))));
}

#[test]
fn refusals_are_passed_on() {
    let err = subscribe_failed(zela_std::host::RpcError {
        code: 4,
        message: "m".to_string(),
        data: Some(serde_json::Value::Null),
    });
    assert!(matches!(err, PubsubClientError::SubscribeFailed { code: 4, data: Some(_), .. }));
    assert!(matches!(PubsubClientError::from(IoError::Os(1)), PubsubClientError::Io(IoError::Os(1))));
}
