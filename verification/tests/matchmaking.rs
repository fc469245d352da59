use steamworks::{
    call_result, lobby_chat_entry, lobby_chat_send_result, lobby_created_result, lobby_data_value,
    lobby_game_server_of, lobby_joined_result, lobby_member_limit_of, ChatEntryType, ChatRoomEnterResponse,
    ChatMemberStateChange, ComparisonFilter, DistanceFilter, LobbyChatUpdate, LobbyId, LobbyKey,
    LobbyKeyTooLongError, LobbyListFilter, LobbyListFilterRequest, LobbyType, NearFilter,
    NumberFilter, SteamError, SteamId, StringFilter, StringFilterKind, MAX_LOBBY_KEY_LENGTH,
};

#[test]
fn lobby_keys_have_a_length_limit() {
    let long = "k".repeat(MAX_LOBBY_KEY_LENGTH + 1);
    assert!(matches!(LobbyKey::try_new(&long), Err(LobbyKeyTooLongError)));
    let max = "k".repeat(MAX_LOBBY_KEY_LENGTH);
    assert_eq!(LobbyKey::try_new(&max).unwrap().as_str(), max.as_str());
    assert_eq!(LobbyKey::new("name").as_str(), "name");
}

#[test]
fn filter_requests_come_in_order() {
    let filter = LobbyListFilter::default()
        .set_count(Some(10))
        .set_open_slots(Some(2))
        .set_distance(Some(DistanceFilter::Worldwide))
        .set_near_value(Some(vec![NearFilter(LobbyKey::new("level"), 5)]))
        .set_number(Some(vec![NumberFilter(
            LobbyKey::new("players"),
            3,
            ComparisonFilter::GreaterThan,
        )]))
        .set_string(Some(vec![StringFilter(
            LobbyKey::new("name"),
            "My Lobby",
            StringFilterKind::Equal,
        )]));
    let requests = filter.requests();
    assert_eq!(requests.len(), 6);
    assert!(matches!(requests[0], LobbyListFilterRequest::String(_)));
    assert!(matches!(requests[1], LobbyListFilterRequest::Number(_)));
    assert!(matches!(requests[2], LobbyListFilterRequest::NearValue(_)));
    assert_eq!(requests[3], LobbyListFilterRequest::Distance(DistanceFilter::Worldwide));
    assert_eq!(requests[4], LobbyListFilterRequest::SlotsAvailable(2));
    assert_eq!(requests[5], LobbyListFilterRequest::ResultCount(10));
    assert!(LobbyListFilter::default().requests().is_empty());
}

#[test]
fn lobby_call_results() {
    assert_eq!(call_result(true, 1), Err(SteamError::IOFailure));
    assert_eq!(call_result(false, 1), Ok(()));
    assert_eq!(call_result(false, 16), Err(SteamError::Timeout));
    assert_eq!(lobby_created_result(false, 1, 99).unwrap().raw(), 99);
    assert_eq!(lobby_created_result(false, 2, 99), Err(SteamError::Generic));
    assert_eq!(lobby_joined_result(false, 1, 7), Ok(LobbyId::from_raw(7)));
    assert_eq!(lobby_joined_result(false, 2, 7), Err(()));
    assert_eq!(lobby_joined_result(true, 1, 7), Err(()));
}

#[test]
fn lobby_values() {
    assert_eq!(lobby_member_limit_of(0), None);
    assert_eq!(lobby_member_limit_of(4), Some(4));
    assert_eq!(lobby_data_value(b""), None);
    assert_eq!(lobby_data_value(b"value"), Some("value".to_string()));
    assert_eq!(lobby_data_value(&[0xff]), None);
    assert_eq!(lobby_chat_send_result(false), Err(SteamError::IOFailure));
    assert_eq!(lobby_chat_entry(b"hello world", 5), b"hello");
}

#[test]
fn lobby_game_servers() {
    assert_eq!(lobby_game_server_of(false, 1, 2, 3), None);
    let server = SteamId::from_raw(76561197960287930);
    assert_eq!(
        lobby_game_server_of(true, 0xc0a8_0001, 27015, server.raw()),
        Some((0xc0a8_0001, 27015, Some(server)))
    );
    assert_eq!(lobby_game_server_of(true, 1, 2, 0), Some((1, 2, None)));
}

#[test]
fn lobby_enums() {
    assert_eq!(LobbyType::Public.code(), 2);
    assert_eq!(ChatEntryType::from_code(1), ChatEntryType::ChatMsg);
    assert_eq!(ChatEntryType::from(1u8), ChatEntryType::ChatMsg);
    assert_eq!(ChatEntryType::from(200u8), ChatEntryType::Invalid);
    assert_eq!(ChatRoomEnterResponse::from(1u32), ChatRoomEnterResponse::Success);
    assert_eq!(ChatRoomEnterResponse::from(99u32), ChatRoomEnterResponse::Error);
    assert_eq!(ChatMemberStateChange::from_code(2), ChatMemberStateChange::Left);
    let update = LobbyChatUpdate::from_raw_fields(1, 2, 3, 1);
    assert_eq!(update.member_state_change, ChatMemberStateChange::Entered);
    assert_eq!(update.making_change, SteamId::from_raw(3));
}
