use steamworks::{
    encode_filter_field, encode_filters, ReleaseError, ServerListRequestState, ServerResponse,
};

#[test]
fn release_once() {
    let mut s = ServerListRequestState::new();
    assert!(s.check_live().is_ok());
    assert_eq!(s.release(true), Err(ReleaseError::Refreshing));
    assert!(!s.is_released());
    assert_eq!(s.release(false), Ok(()));
    assert!(s.is_released());
    assert_eq!(s.release(false), Err(ReleaseError::Released));
    assert_eq!(s.release(true), Err(ReleaseError::Released));
    assert_eq!(s.check_live(), Err(()));
}

#[test]
fn filter_fields_are_padded() {
    let f = encode_filter_field("map").unwrap();
    assert_eq!(f.len(), 256);
    assert_eq!(&f[..3], b"map");
    assert!(f[3..].iter().all(|b| *b == 0));
    assert!(encode_filter_field(&"x".repeat(255)).is_some());
    assert!(encode_filter_field(&"x".repeat(256)).is_none());
}

#[test]
fn filters_fail_on_any_long_field() {
    let long = "y".repeat(300);
    let ok = vec![("gamedir", "tf"), ("map", "cp_well")];
    let encoded = encode_filters(&ok).unwrap();
    assert_eq!(encoded.len(), 2);
    assert_eq!(&encoded[1].1[..7], b"cp_well");
    let bad = vec![("gamedir", "tf"), ("map", long.as_str())];
    assert!(encode_filters(&bad).is_err());
}

#[test]
fn server_responses() {
    assert_eq!(ServerResponse::from_code(0), ServerResponse::ServerResponded);
    assert_eq!(ServerResponse::from_code(2), ServerResponse::NoServersListedOnMasterServer);
    assert_eq!(ServerResponse::ServerFailedToRespond.code(), 1);
}
