use std::convert::TryFrom;
use steamworks::networking_types::{
    InvalidConnectionState, InvalidEnumValue, ListenSocketEventKind, NetConnectionEnd,
    NetConnectionError, NetConnectionInfo, NetConnectionStatusChanged, NetworkingAvailability,
    NetworkingAvailabilityError, NetworkingConfigDataType, NetworkingConfigValue,
    NetworkingConnectionState, NetworkingIdentity, SteamIpAddr,
};
use steamworks::SteamId;

#[test]
fn test_set_ipv4() {
    let mut ip = SteamIpAddr::new();
    let addr: u32 = (192 << 24) | (168 << 16) | (0 << 8) | 123;
    ip.set_ipv4(addr, 5555);
    assert_eq!(Some(addr), ip.get_ipv4());
    assert_eq!(ip.to_ipv4_string(true).unwrap(), "192.168.0.123:5555");
    assert_eq!(ip.to_ipv4_string(false).unwrap(), "192.168.0.123");
    assert_eq!(ip.port(), 5555);
}

#[test]
fn cleared_address_is_not_ipv4() {
    let ip = SteamIpAddr::new();
    assert!(!ip.is_ipv4());
    assert_eq!(ip.get_ipv4(), None);
    assert_eq!(ip.to_ipv4_string(true), None);
    assert_eq!(ip.ipv6(), [0u8; 16]);
}

#[test]
fn local_host() {
    let mut ip = SteamIpAddr::new();
    ip.set_local_host();
    assert!(ip.is_local_host());
    let mut v4 = SteamIpAddr::new();
    v4.set_ipv4(0x7f00_0001, 80);
    assert!(v4.is_local_host());
    v4.set_ipv4(0x7f00_0002, 80);
    assert!(!v4.is_local_host());
}

#[test]
fn test_network_identity_steam_id() {
    let id = NetworkingIdentity::new_steam_id(SteamId::from_raw(123456));
    assert_eq!("steamid:123456", &id.debug_string().unwrap());
    assert_eq!(id.steam_id(), Some(SteamId::from_raw(123456)));
    assert!(id.is_valid());
}

#[test]
fn test_network_identity_ip() {
    let mut addr = SteamIpAddr::new();
    addr.set_ipv4((192 << 24) | (168 << 16) | 5, 1234);
    let id = NetworkingIdentity::new_ip(addr);
    assert_eq!("ip:192.168.0.5:1234", &id.debug_string().unwrap());
    assert_eq!(id.ip_addr(), Some(addr));
    assert_eq!(id.steam_id(), None);
}

#[test]
fn invalid_identity() {
    let id = NetworkingIdentity::new();
    assert!(id.is_invalid());
    assert_eq!(id.debug_string().unwrap(), "invalid");
    let odd = NetworkingIdentity::from_raw_fields(7, 0, SteamIpAddr::new());
    assert_eq!(odd.debug_string().unwrap(), "bad_type:7");
}

#[test]
fn connection_end_codes() {
    assert_eq!(i32::from(NetConnectionEnd::AppGeneric), 1000);
    assert_eq!(NetConnectionEnd::try_from(5003), Ok(NetConnectionEnd::MiscTimeout));
    assert_eq!(NetConnectionEnd::try_from(1234), Err(InvalidEnumValue));
    assert_eq!(NetConnectionEnd::from_code(1000), NetConnectionEnd::AppGeneric);
}

#[test]
fn connection_states() {
    assert_eq!(
        NetworkingConnectionState::try_from(1),
        Ok(NetworkingConnectionState::Connecting)
    );
    assert_eq!(NetworkingConnectionState::try_from(99), Err(InvalidConnectionState));
    assert_eq!(NetworkingConnectionState::Connected.code(), 3);
}

#[test]
fn availability_codes() {
    assert_eq!(NetworkingAvailability::try_from_code(100), Ok(NetworkingAvailability::Current));
    assert_eq!(
        NetworkingAvailability::try_from_code(-101),
        Err(NetworkingAvailabilityError::Failed)
    );
    assert_eq!(NetworkingAvailability::try_from_code(0), Err(NetworkingAvailabilityError::Unknown));
}

#[test]
fn config_value_types() {
    assert_eq!(NetworkingConfigValue::TimeoutInitial.code(), 24);
    assert_eq!(
        NetworkingConfigValue::TimeoutInitial.data_type(),
        NetworkingConfigDataType::Int32
    );
    assert_eq!(
        NetworkingConfigValue::FakePacketLossSend.data_type(),
        NetworkingConfigDataType::Float
    );
}

fn status(state: i32, identity: NetworkingIdentity, end: i32) -> NetConnectionStatusChanged {
    NetConnectionStatusChanged {
        connection: 9,
        connection_info: NetConnectionInfo::from_raw_fields(identity, 42, 0, state, end),
        old_state: NetworkingConnectionState::NoState,
    }
}

#[test]
fn listen_socket_events() {
    let peer = NetworkingIdentity::new_steam_id(SteamId::from_raw(76561198040894045));
    match status(1, peer, 0).listen_socket_event_kind() {
        Ok(ListenSocketEventKind::Connecting { user_data, .. }) => assert_eq!(user_data, 42),
        other => panic!("unexpected {:?}", other),
    }
    assert!(matches!(
        status(3, peer, 0).listen_socket_event_kind(),
        Ok(ListenSocketEventKind::Connected { .. })
    ));
    match status(4, peer, 1000).listen_socket_event_kind() {
        Ok(ListenSocketEventKind::Disconnected(e)) => {
            assert_eq!(e.end_reason(), NetConnectionEnd::AppGeneric);
            assert_eq!(e.user_data(), 42);
        }
        other => panic!("unexpected {:?}", other),
    }
    assert!(matches!(
        status(1, NetworkingIdentity::new(), 0).listen_socket_event_kind(),
        Err(NetConnectionError::InvalidRemote)
    ));
    assert!(matches!(
        status(2, peer, 0).listen_socket_event_kind(),
        Err(NetConnectionError::UnhandledType(NetworkingConnectionState::FindingRoute))
    ));
    assert!(matches!(
        status(77, peer, 0).listen_socket_event_kind(),
        Err(NetConnectionError::UnknownType(_))
    ));
}
