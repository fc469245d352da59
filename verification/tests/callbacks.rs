use steamworks::networking_messages::{
    session_connection_info, NetworkingMessagesSessionRequest, SessionAnswer,
};
use steamworks::networking_types::{NetworkingConnectionState, NetworkingIdentity};
use steamworks::{RelayNetworkStatus, RelayNetworkStatusCallback};
use steamworks::networking_types::{NetworkingAvailability, NetworkingAvailabilityError};
use steamworks::{dispatch, Dispatch};
use steamworks::{
    AuthSessionTicketResponse, AuthSessionValidateError, CallbackKind, FriendState,
    GameOverlayActivated, GameRichPresenceJoinRequested, CTextError, MicroTxnAuthorizationResponse,
    PersonaChange, PersonaStateChange, SteamError, SteamId, UserStatsReceived,
    ValidateAuthTicketResponse,
};

#[test]
fn callback_ids() {
    assert_eq!(CallbackKind::from_id(304), Some(CallbackKind::PersonaStateChange));
    assert_eq!(CallbackKind::from_id(1221), Some(CallbackKind::NetConnectionStatusChanged));
    assert_eq!(CallbackKind::from_id(507), Some(CallbackKind::LobbyChatMsg));
    assert_eq!(CallbackKind::from_id(208), Some(CallbackKind::GSClientGroupStatus));
    assert_eq!(CallbackKind::from_id(703), None);
    assert_eq!(CallbackKind::from_id(0), None);
    assert_eq!(CallbackKind::UserStatsReceived.id(), 1101);
}

#[test]
fn every_dispatched_callback_has_a_kind() {
    for (id, kind) in [
        (513, CallbackKind::LobbyCreated),
        (504, CallbackKind::LobbyEnter),
        (506, CallbackKind::LobbyChatUpdate),
        (2301, CallbackKind::ScreenshotReady),
        (2302, CallbackKind::ScreenshotRequested),
        (1281, CallbackKind::RelayNetworkStatus),
        (1251, CallbackKind::NetworkingMessagesSessionRequest),
        (1252, CallbackKind::NetworkingMessagesSessionFailed),
        (1109, CallbackKind::UserAchievementIconFetched),
        (4700, CallbackKind::SteamInventoryResultReady),
        (4701, CallbackKind::SteamInventoryFullUpdate),
        (4704, CallbackKind::SteamInventoryStartPurchaseResult),
    ] {
        assert_eq!(CallbackKind::from_id(id), Some(kind));
        assert_eq!(kind.id(), id);
    }
}

#[test]
fn friend_callbacks() {
    let change = PersonaStateChange::from_raw_fields(5, 0x0001 | 0x0040);
    assert_eq!(change.steam_id, SteamId::from_raw(5));
    assert!(change.flags.contains(PersonaChange::NAME()));
    assert!(change.flags.contains(PersonaChange::AVATAR()));
    assert!(GameOverlayActivated::from_raw_fields(1).active);
    assert!(!GameOverlayActivated::from_raw_fields(2).active);
    assert_eq!(FriendState::from_persona_state(1), FriendState::Online);
    assert_eq!(FriendState::from_persona_state(7), FriendState::Invisible);
    assert_eq!(FriendState::try_from_code(0), Some(FriendState::Offline));
    assert_eq!(FriendState::try_from_code(8), None);
    assert_eq!(FriendState::try_from_code(-1), None);
}

#[test]
fn rich_presence_connect_string() {
    let mut raw = [0u8; 256];
    raw[..9].copy_from_slice(b"+connect ");
    let req = GameRichPresenceJoinRequested::from_raw_fields(9, &raw).unwrap();
    assert_eq!(req.connect, "+connect ");
    assert_eq!(req.friend_steam_id, SteamId::from_raw(9));
    assert_eq!(
        GameRichPresenceJoinRequested::from_raw_fields(9, &[b'a'; 4]).unwrap_err(),
        CTextError::NotTerminated
    );
    assert_eq!(
        GameRichPresenceJoinRequested::from_raw_fields(9, &[0xff, 0]).unwrap_err(),
        CTextError::InvalidUtf8
    );
}

#[test]
fn user_callbacks() {
    let t = AuthSessionTicketResponse::from_raw_fields(3, 1);
    assert_eq!(t.ticket.raw(), 3);
    assert_eq!(t.result, Ok(()));
    assert_eq!(AuthSessionTicketResponse::from_raw_fields(3, 2).result, Err(SteamError::Generic));
    let v = ValidateAuthTicketResponse::from_raw_fields(1, 2, 3);
    assert_eq!(v.response, Err(AuthSessionValidateError::VACBanned));
    assert_eq!(ValidateAuthTicketResponse::from_raw_fields(1, 2, 0).response, Ok(()));
    let m = MicroTxnAuthorizationResponse::from_raw_fields(480, 9, 1);
    assert!(m.authorized);
    let s = UserStatsReceived::from_raw_fields(1, 480, 37);
    assert_eq!(s.result, Err(SteamError::IOFailure));
}

#[test]
fn session_infos() {
    let (state, info, quick) = session_connection_info(3, "info", "quick");
    assert_eq!(state, NetworkingConnectionState::Connected);
    assert_eq!((info, quick), (Some("info"), Some("quick")));
    let (state, info, quick) = session_connection_info(0, "info", "quick");
    assert_eq!(state, NetworkingConnectionState::NoState);
    assert_eq!((info, quick), (None, None));
    let (state, info, _) = session_connection_info(42, "info", "quick");
    assert_eq!(state, NetworkingConnectionState::NoState);
    assert_eq!(info, None);
    let peer = NetworkingIdentity::new_steam_id(SteamId::from_raw(8));
    assert_eq!(NetworkingMessagesSessionRequest::new(peer).remote().steam_id(), peer.steam_id());
}

#[test]
fn relay_status() {
    let status = RelayNetworkStatus::from_raw_fields(100, 1, -101, 3, String::from("ok"));
    assert_eq!(status.availability(), Ok(NetworkingAvailability::Current));
    assert_eq!(status.network_config(), Err(NetworkingAvailabilityError::Failed));
    assert_eq!(status.any_relay(), Ok(NetworkingAvailability::Attempting));
    assert!(status.is_ping_measurement_in_progress());
    assert_eq!(status.debugging_message(), "ok");
    let cb = RelayNetworkStatusCallback::new(status);
    assert_eq!(cb.into_status().debugging_message(), "ok");
}

#[test]
fn pending_callbacks_are_dispatched() {
    assert_eq!(dispatch(703), Dispatch::CallCompleted);
    assert_eq!(dispatch(513), Dispatch::Callback(Some(CallbackKind::LobbyCreated)));
    assert_eq!(dispatch(42), Dispatch::Callback(None));
}

#[test]
fn session_request_closes_once() {
    let mut answer = SessionAnswer::new();
    assert!(answer.close_on_drop());
    assert!(answer.reject());
    assert!(!answer.reject());
    assert!(!answer.close_on_drop());
    let mut accepted = SessionAnswer::new();
    accepted.accept();
    assert!(!accepted.close_on_drop());
    assert!(!accepted.reject());
}
