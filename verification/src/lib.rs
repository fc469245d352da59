//! Verified core of the Steamworks bindings: identifiers, result codes,
//! flag sets, enum code tables, filter plans and the small state machines
//! that sit between the Rust API and the Steamworks SDK.

mod bits;
mod callback;
mod error;
mod friends;
mod ids;
mod input;
mod inventory;
mod matchmaking;
mod matchmaking_servers;
mod networking;
pub mod networking_messages;
mod networking_sockets;
pub mod networking_types;
mod networking_utils;
mod registry;
mod remote_play;
mod remote_storage;
pub mod screenshots;
mod server;
mod text;
pub mod timeline;
mod ugc;
mod user;
mod user_stats;
mod utils;

pub use crate::callback::{
    CallbackKind, callback_kind_of_id, lemma_callback_kind_id_roundtrip,
    lemma_callback_kind_id_table, lemma_callback_kind_of_id_table,
};
pub use crate::error::{
    INIT_OK, InvalidErrorCode, RESULT_OK, SIResult, SResult, SteamAPIInitError, SteamError,
    code_of_error, error_message, error_of_code, init_result, lemma_code_of_error_table,
    lemma_error_code_roundtrip, lemma_error_message_table, lemma_error_of_code_table,
    lemma_success_is_no_error, to_steam_result,
};
pub use crate::friends::{
    FriendFlags, FriendState, GameLobbyJoinRequested, GameOverlayActivated,
    GameRichPresenceJoinRequested, OverlayToStoreFlag, PersonaChange, PersonaStateChange,
    friend_state_of_code, lemma_friend_flags_all_is_union_of_flags, lemma_friend_flags_laws,
    lemma_friend_flags_view_injective, lemma_friend_state_of_code_table,
    lemma_overlay_to_store_flag_code_table, lemma_persona_change_all_is_union_of_flags,
    lemma_persona_change_laws, lemma_persona_change_view_injective,
};
pub use crate::ids::{
    AccountId, AppId, GameId, SteamId, account_bits, account_type_bits,
    lemma_account_id_view_injective, lemma_game_id_view_injective, lemma_steam_id_view_injective,
    steamid32_text,
};
pub use crate::input::{
    InputType, STEAM_INPUT_MAX_COUNT, connected_controllers, input_type_of_code,
    lemma_input_type_of_code_table,
};
pub use crate::inventory::{
    API_CALL_INVALID, INVENTORY_RESULT_INVALID, InventoryError, InventoryItem, InventoryResult,
    ItemDefId, ItemInstanceId, SteamInventoryFullUpdate, SteamInventoryResultReady,
    SteamInventoryStartPurchaseResult, all_items_result, lemma_inventory_result_view_injective,
    purchase_item_defs, purchase_result, purchase_started,
};
pub use crate::matchmaking::{
    ChatEntryType, ChatMemberStateChange, ChatRoomEnterResponse, ComparisonFilter, DistanceFilter,
    LobbyChatMsg, LobbyChatUpdate, LobbyCreated, LobbyDataUpdate, LobbyEnter, LobbyId, LobbyKey,
    LobbyKeyTooLongError, LobbyListFilter, LobbyListFilterRequest, LobbyType, MAX_LOBBY_KEY_LENGTH,
    MAX_LOBBY_MEMBERS, NearFilter, NumberFilter, StringFilter, StringFilterKind, call_result,
    call_result_status, chat_entry_type_of_code, chat_member_state_change_of_code,
    chat_room_enter_response_of_code, filter_requests, lemma_chat_entry_type_of_code_table,
    lemma_chat_member_state_change_code_roundtrip, lemma_chat_member_state_change_code_table,
    lemma_chat_member_state_change_of_code_table, lemma_chat_room_enter_response_of_code_table,
    lemma_comparison_codes_agree, lemma_comparison_filter_code_table,
    lemma_distance_filter_code_table, lemma_lobby_id_view_injective, lemma_lobby_type_code_table,
    lemma_string_filter_kind_code_table, lobby_chat_entry, lobby_chat_send_result,
    lobby_created_result, lobby_data_value, lobby_game_server_of, lobby_joined_result,
    lobby_member_limit_of, opt_items, opt_request,
};
pub use crate::matchmaking_servers::{
    FILTER_FIELD_LEN, ReleaseError, ServerListRequestState, ServerResponse, encode_filter_field,
    encode_filters, filter_field, filter_fits, lemma_release_is_final,
    lemma_server_list_request_state_view_injective, lemma_server_response_code_roundtrip,
    lemma_server_response_code_table, lemma_server_response_of_code_table, release_outcome,
    server_response_of_code,
};
pub use crate::networking::{
    P2PSessionConnectFail, P2PSessionError, P2PSessionRequest, P2PSessionState, SendType,
    code_of_p2p_session_error, lemma_code_of_p2p_session_error_table,
    lemma_p2p_session_error_of_code_table, lemma_p2p_session_error_roundtrip,
    lemma_send_type_code_table, p2p_session_error_of_code,
};
pub use crate::networking_sockets::{
    INVALID_HANDLE, InvalidHandle, checked_handle, connection_user_data_of, handle_operation,
    sent_message_result, should_reject_connection,
};
pub use crate::networking_utils::{
    RelayNetworkStatus, RelayNetworkStatusCallback,
    lemma_relay_network_status_callback_view_injective,
};
pub use crate::registry::{
    API_CALL_COMPLETED_ID, CallbackRegistry, Dispatch, delivered_kinds, dispatch, dispatch_of,
    has_kind, is_call_completed, is_callback, lemma_call_result_delivered_once,
    lemma_dispatch_queue, lemma_register_replaces, lemma_sdk_constants, registered_runs,
    take_outcome,
};
pub use crate::remote_play::{
    RemotePlayConnected, RemotePlayDisconnected, RemotePlaySessionId, SteamDeviceFormFactor,
    client_resolution_of, lemma_remote_play_session_id_view_injective,
    lemma_steam_device_form_factor_of_code_table, listed_sessions, session_ids,
    steam_device_form_factor_of_code,
};
pub use crate::remote_storage::{
    InvalidSeek, PublishedFileVisibility, ReadCursor, ReadFailed, SeekPosition, SteamFileInfo,
    lemma_published_file_visibility_code_roundtrip, lemma_published_file_visibility_code_table,
    lemma_published_file_visibility_of_code_table, lemma_seek_positions, listed_count,
    published_file_visibility_of_code, read_len_of, seek_refused, seek_target,
};
pub use crate::server::{
    DenyReason, GSClientApprove, GSClientDeny, GSClientGroupStatus, GSClientKick,
    MIN_OUTGOING_PACKET_BUFFER, QUERY_PORT_SHARED, ServerMode, deny_reason_of_code,
    lemma_deny_reason_code_roundtrip, lemma_deny_reason_code_table, lemma_deny_reason_of_code_table,
    lemma_server_mode_code_table, next_outgoing_packet_len,
};
pub use crate::text::{
    CTextError, NulError, c_string, c_text, c_text_of, decimal, decimal_string, decimal_value,
    digit_char, first_nul, has_nul, is_first_nul, lemma_decimal_spells_the_number,
    lemma_digit_char_is_ascii_digit, push_decimal, split_on, split_on_char, split_pieces, utf8_text,
};
pub use crate::ugc::{
    AppIDs, CreateQueryError, DownloadItemResult, FileType, InstallInfo, ItemState, PublishedFileId,
    UGCType, UGC_QUERY_HANDLE_INVALID, UpdateStatus, UserList, UserListOrder, created_query_handle,
    download_item_result, item_call_result, lemma_file_type_code_table,
    lemma_item_state_all_is_union_of_flags, lemma_item_state_laws, lemma_item_state_view_injective,
    lemma_ugc_type_code_table, lemma_update_status_of_code_table, lemma_user_list_code_table,
    lemma_user_list_order_code_table, optional_app_id, query_result_index_valid,
    update_status_of_code,
};
pub use crate::user::{
    AuthSessionError, AuthSessionTicketResponse, AuthSessionValidateError, AuthTicket,
    MicroTxnAuthorizationResponse, SteamServerConnectFailure, SteamServersConnected,
    SteamServersDisconnected, TicketForWebApiResponse, ValidateAuthTicketResponse,
    auth_session_error_of_code, auth_session_validate_error_of_code, begin_auth_session_result,
    lemma_auth_session_error_code_roundtrip, lemma_auth_session_error_code_table,
    lemma_auth_session_error_of_code_table, lemma_auth_session_validate_error_code_roundtrip,
    lemma_auth_session_validate_error_code_table, lemma_auth_session_validate_error_of_code_table,
    lemma_auth_ticket_view_injective, result_of_code,
};
pub use crate::user_stats::{
    Leaderboard, LeaderboardDataRequest, LeaderboardDisplayType, LeaderboardEntry,
    LeaderboardScoreUploaded, LeaderboardSortMethod, RgbaImage, UploadScoreMethod,
    UserAchievementIconFetched, UserAchievementStored, UserStatsReceived, UserStatsStored,
    achievement_count, achievement_icon_image, achievement_icon_size_ok, downloaded_entries,
    found_leaderboard, global_stat_history, leaderboard_display_type_of_code, leaderboard_entry,
    leaderboard_sort_method_of_code, lemma_leaderboard_data_request_code_table,
    lemma_leaderboard_display_type_code_roundtrip, lemma_leaderboard_display_type_code_table,
    lemma_leaderboard_display_type_of_code_table, lemma_leaderboard_sort_method_code_roundtrip,
    lemma_leaderboard_sort_method_code_table, lemma_leaderboard_sort_method_of_code_table,
    lemma_leaderboard_view_injective, lemma_upload_score_method_code_table, prefix_of,
    rgba_image_bytes, rgba_image_dimensions, rgba_image_fits, rgba_len, stats_game_result,
    uploaded_score,
};
pub use crate::utils::{NotificationPosition, lemma_notification_position_code_table};
