use steamworks::networking_types::{NetworkingConnectionState, InvalidConnectionState};
use steamworks::{
    checked_handle, connection_user_data_of, handle_operation, sent_message_result,
    should_reject_connection, InvalidHandle, SteamError,
};

#[test]
fn test_socket_connection() {}

#[test]
fn invalid_handle_is_refused() {
    assert_eq!(checked_handle(0), Err(InvalidHandle));
    assert_eq!(checked_handle(42), Ok(42));
    assert_eq!(
        InvalidHandle.to_string(),
        "operation was unsuccessful an invalid handle was returned"
    );
}

#[test]
fn handle_operations() {
    assert_eq!(handle_operation(true), Ok(()));
    assert_eq!(handle_operation(false), Err(InvalidHandle));
    assert_eq!(connection_user_data_of(-1), Err(InvalidHandle));
    assert_eq!(connection_user_data_of(5), Ok(5));
    assert_eq!(connection_user_data_of(-2), Ok(-2));
}

#[test]
fn sent_message_numbers() {
    assert_eq!(u64::from(sent_message_result(1, 17).unwrap()), 17);
    assert_eq!(sent_message_result(2, 17).unwrap_err(), SteamError::Generic);
    assert_eq!(sent_message_result(3, 0).unwrap_err(), SteamError::NoConnection);
}

#[test]
fn unheard_connecting_peers_are_rejected() {
    let connecting: Result<NetworkingConnectionState, InvalidConnectionState> =
        Ok(NetworkingConnectionState::Connecting);
    assert!(should_reject_connection(false, true, connecting));
    assert!(!should_reject_connection(true, true, connecting));
    assert!(!should_reject_connection(false, false, connecting));
    assert!(!should_reject_connection(
        false,
        true,
        Ok(NetworkingConnectionState::Connected)
    ));
    assert!(!should_reject_connection(false, true, Err(InvalidConnectionState)));
}
