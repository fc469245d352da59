use std::convert::TryFrom;
use steamworks::{init_result, to_steam_result, InvalidErrorCode, SteamAPIInitError, SteamError};

#[test]
fn error_codes_convert() {
    assert_eq!(SteamError::try_from(2i64), Ok(SteamError::Generic));
    assert_eq!(SteamError::try_from(3i64), Ok(SteamError::NoConnection));
    assert_eq!(SteamError::try_from(15i64), Ok(SteamError::AccessDenied));
    assert_eq!(SteamError::try_from(37i64), Ok(SteamError::IOFailure));
    assert_eq!(SteamError::try_from(110i64), Ok(SteamError::WGNetworkSendExceeded));
}

#[test]
fn codes_without_error_are_refused() {
    assert_eq!(SteamError::try_from(1i64), Err(InvalidErrorCode));
    assert_eq!(SteamError::try_from(0i64), Err(InvalidErrorCode));
    assert_eq!(SteamError::try_from(4i64), Err(InvalidErrorCode));
    assert_eq!(SteamError::try_from(111i64), Err(InvalidErrorCode));
    assert_eq!(SteamError::try_from(-1i64), Err(InvalidErrorCode));
    assert_eq!(
        InvalidErrorCode.to_string(),
        "error code could not be converted to rust enum"
    );
}

#[test]
fn every_error_code_roundtrips_through_its_message() {
    for code in 2i64..=110 {
        if let Ok(e) = SteamError::try_from(code) {
            assert_eq!(SteamError::from_result_code(code), e);
            assert!(!e.to_string().is_empty());
        }
    }
}

#[test]
fn error_messages() {
    assert_eq!(SteamError::Generic.to_string(), "a generic failure from the steamworks API");
    assert_eq!(SteamError::IOFailure.to_string(), "IO failure");
    assert_eq!(SteamError::InitFailed.to_string(), "failed to init the steamworks API");
}

#[test]
fn results_of_codes() {
    assert_eq!(to_steam_result(1), Ok(()));
    assert_eq!(to_steam_result(16), Err(SteamError::Timeout));
}

#[test]
fn init_results() {
    assert_eq!(init_result(0, String::from("ignored")), Ok(()));
    assert_eq!(
        init_result(1, String::from("boom")),
        Err(SteamAPIInitError::FailedGeneric(String::from("boom")))
    );
    assert_eq!(
        init_result(2, String::from("no client")),
        Err(SteamAPIInitError::NoSteamClient(String::from("no client")))
    );
    assert_eq!(
        init_result(3, String::from("old")),
        Err(SteamAPIInitError::VersionMismatch(String::from("old")))
    );
}
