use steamworks::screenshots::{
    added_screenshot, ScreenshotLibraryAddError, ScreenshotReady, ScreenshotReadyError,
};
use steamworks::timeline::{TimelineEventClipPriority, TimelineGameMode};
use steamworks::{
    achievement_count, achievement_icon_image, downloaded_entries, leaderboard_entry, achievement_icon_size_ok, begin_auth_session_result, client_resolution_of,
    connected_controllers, created_query_handle, download_item_result, found_leaderboard,
    global_stat_history, item_call_result, next_outgoing_packet_len, optional_app_id,
    query_result_index_valid, rgba_len, session_ids, stats_game_result, uploaded_score, AppId,
    AppIDs, AuthSessionError, DenyReason, InputType, NotificationPosition, PublishedFileId,
    RemotePlaySessionId, ServerMode, SteamError, SteamId, UpdateStatus,
};

#[test]
fn leaderboards() {
    assert_eq!(found_leaderboard(true, 1, 5).unwrap_err(), SteamError::IOFailure);
    assert!(found_leaderboard(false, 0, 5).unwrap().is_none());
    assert_eq!(found_leaderboard(false, 1, 5).unwrap().unwrap().raw(), 5);
    let up = uploaded_score(false, 1, 100, 1, 3, 4).unwrap().unwrap();
    assert_eq!((up.score, up.was_changed, up.global_rank_new, up.global_rank_previous), (100, true, 3, 4));
    assert!(uploaded_score(false, 0, 100, 1, 3, 4).unwrap().is_none());
    assert!(uploaded_score(true, 1, 100, 1, 3, 4).is_err());
}

#[test]
fn stats() {
    assert_eq!(global_stat_history(vec![1, 2, 3, 4], 2), Ok(vec![1, 2]));
    assert_eq!(global_stat_history(vec![1, 2], -1), Err(()));
    assert_eq!(global_stat_history(vec![1, 2], 5), Ok(vec![1, 2]));
    assert_eq!(achievement_count(0), Ok(0));
    assert_eq!(achievement_count(3), Ok(3));
    assert!(achievement_icon_size_ok(true, 64, 64));
    assert!(!achievement_icon_size_ok(true, 128, 64));
    assert!(achievement_icon_size_ok(false, 128, 64));
    assert_eq!(rgba_len(64, 64), Some(16384));
    assert_eq!(rgba_len(0x10000, 0x10000), None);
    assert_eq!(stats_game_result(false, 480).unwrap().app_id(), AppId(480));
}

#[test]
fn workshop() {
    assert!(created_query_handle(u64::MAX).is_err());
    assert_eq!(created_query_handle(7).unwrap(), 7);
    assert_eq!(item_call_result(false, 1, 42, true), Ok((PublishedFileId(42), true)));
    assert_eq!(item_call_result(true, 1, 42, true), Err(SteamError::IOFailure));
    assert!(query_result_index_valid(0, 1));
    assert!(!query_result_index_valid(1, 1));
    assert_eq!(optional_app_id(0), None);
    assert_eq!(optional_app_id(480), Some(AppId(480)));
    let d = download_item_result(1, 480, 9).unwrap();
    assert_eq!((d.app_id, d.published_file_id), (AppId(480), PublishedFileId(9)));
    assert_eq!(download_item_result(2, 480, 9).unwrap_err(), SteamError::Generic);
    assert_eq!(UpdateStatus::from_code(3), UpdateStatus::UploadingContent);
    let ids = AppIDs::Both { creator: AppId(1), consumer: AppId(2) };
    assert_eq!(ids.creator_app_id(), Some(AppId(1)));
    assert_eq!(ids.consumer_app_id(), Some(AppId(2)));
    assert_eq!(AppIDs::CreatorAppId(AppId(5)).query_app_ids(), (5, 0));
}

#[test]
fn screenshots_and_timeline() {
    assert_eq!(added_screenshot(0), Err(ScreenshotLibraryAddError::SavingFailed));
    assert_eq!(added_screenshot(4), Ok(4));
    assert_eq!(ScreenshotReady::from_raw_fields(1, 4).local_handle, Ok(4));
    assert_eq!(
        ScreenshotReady::from_raw_fields(37, 4).local_handle,
        Err(ScreenshotReadyError::IoFailure)
    );
    assert_eq!(ScreenshotReady::from_raw_fields(2, 4).local_handle, Err(ScreenshotReadyError::Fail));
    assert_eq!(TimelineGameMode::Menus.code(), 3);
    assert_eq!(TimelineEventClipPriority::Featured.code(), 3);
    assert_eq!(NotificationPosition::BottomRight.code(), 3);
}

#[test]
fn remote_play_and_input() {
    let ids = session_ids(&vec![0, 5, 0, 6]);
    assert_eq!(ids, vec![RemotePlaySessionId::from_raw(5), RemotePlaySessionId::from_raw(6)]);
    assert_eq!(client_resolution_of(true, 1920, 1080), Some((1920, 1080)));
    assert_eq!(client_resolution_of(false, 1920, 1080), None);
    assert_eq!(InputType::from_code(13), InputType::PS5Controller);
    assert_eq!(InputType::from_code(99), InputType::Unknown);
    assert_eq!(connected_controllers(vec![1, 2, 3, 0], 3), vec![1, 2, 3]);
}

#[test]
fn servers_and_auth() {
    assert_eq!(ServerMode::AuthenticationAndSecure.code(), 3);
    assert_eq!(DenyReason::from_code(4), DenyReason::NoLicense);
    assert_eq!(DenyReason::from_code(99), DenyReason::Invalid);
    assert_eq!(begin_auth_session_result(0), Ok(()));
    assert_eq!(begin_auth_session_result(5), Err(AuthSessionError::ExpiredTicket));
    assert_eq!(AuthSessionError::InvalidTicket.to_string(), "invalid ticket");
    assert_eq!(next_outgoing_packet_len(0, 16384), None);
    assert_eq!(next_outgoing_packet_len(120, 16384), Some(120));
}

#[test]
fn achievement_icon_images() {
    let pixels: Vec<u8> = (0..16).collect();
    let icon = achievement_icon_image(pixels.clone(), 2, 2).unwrap();
    assert_eq!(icon.image.dimensions(), (2, 2));
    assert_eq!(icon.image.into_raw(), pixels);
    assert!(achievement_icon_image(pixels.clone(), 3, 2).is_none());
    assert!(achievement_icon_image(vec![0; 4], 1, 1).is_some());
    assert!(achievement_icon_image(vec![], 0, 7).is_some());
}

#[test]
fn downloaded_leaderboard_entries() {
    let entry = leaderboard_entry(7, 3, 1200, vec![9, 8, 7, 6], 2);
    assert_eq!(entry.user, SteamId::from_raw(7));
    assert_eq!((entry.global_rank, entry.score), (3, 1200));
    assert_eq!(entry.details, vec![9, 8]);
    assert_eq!(leaderboard_entry(7, 3, 1200, vec![9, 8], 5).details, vec![9, 8]);
    assert_eq!(downloaded_entries(true, vec![entry.clone()]).unwrap_err(), SteamError::IOFailure);
    assert_eq!(downloaded_entries(false, vec![entry]).unwrap().len(), 1);
}
