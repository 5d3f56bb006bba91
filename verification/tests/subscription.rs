use zela_std::host::{HostRpcError, IoError};
use zela_std::subscription::Subscription;

fn number(bytes: Vec<u8>) -> Result<u64, serde_json::Error> {
    serde_json::from_slice(&bytes)
}

#[test]
fn subscribing_has_two_layers() {
    let ok = Subscription::new(Ok(Ok('h')), number).unwrap().unwrap();
    assert_eq!(ok.handle, 'h');
    let refused = HostRpcError { code: 1, message: "m".to_string(), data: Some(b"4".to_vec()) };
    let err = Subscription::<char>::new(Ok(Err(refused)), number).unwrap().unwrap_err();
    assert_eq!((err.code, err.message.as_str(), err.data), (1, "m", Some(4)));
    let garbled = HostRpcError { code: 1, message: "m".to_string(), data: Some(b"?".to_vec()) };
    let err = Subscription::<char>::new(Ok(Err(garbled)), number);
    assert!(matches!(err, Err(IoError::InvalidInput(_))));
    assert!(matches!(Subscription::<char>::new(Err(9), number), Err(IoError::Os(9))));
}

#[test]
fn receiving_decodes_a_notification() {
    let sub = Subscription { handle: () };
    assert_eq!(sub.recv(Ok(b"8".to_vec()), number).unwrap(), 8);
    assert!(matches!(sub.recv(Ok(b"x".to_vec()), number), Err(IoError::InvalidInput(_))));
    assert!(matches!(sub.recv::<u64, _>(Err(32), number), Err(IoError::Os(32))));
}

#[test]
fn a_stream_ends_after_a_receive_failure() {
    let mut stream = Subscription { handle: () }.into_stream();
    assert!(!stream.is_done());
    assert!(matches!(stream.poll_next(Ok(b"1".to_vec()), number), Some(Ok(1))));
    assert!(matches!(stream.poll_next(Ok(b"2".to_vec()), number), Some(Ok(2))));
    assert!(matches!(stream.poll_next(Err(32), number), Some(Err(IoError::Os(32)))));
    assert!(stream.is_done());
    assert!(stream.poll_next(Ok(b"3".to_vec()), number).is_none());
    assert!(stream.poll_next(Err(32), number).is_none());
}

#[test]
fn a_stream_ends_after_a_parse_failure() {
    let mut stream = Subscription { handle: () }.into_stream();
    let item = stream.poll_next(Ok(b"oops".to_vec()), number);
    assert!(matches!(item, Some(Err(IoError::InvalidInput(_)))));
    assert!(stream.poll_next(Ok(b"3".to_vec()), number).is_none());
}
