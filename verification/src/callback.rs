use vstd::prelude::*;

verus! {

/// The callbacks that a raw callback id stands for when callbacks are
/// dispatched by hand: which result type the raw data is read as.
#[derive(Clone, Copy, Debug, PartialEq, Eq, Structural)]
pub enum CallbackKind {
    NetConnectionStatusChanged,
    AuthSessionTicketResponse,
    DownloadItemResult,
    GameLobbyJoinRequested,
    GameOverlayActivated,
    GameRichPresenceJoinRequested,
    LobbyChatMsg,
    LobbyDataUpdate,
    MicroTxnAuthorizationResponse,
    P2PSessionConnectFail,
    P2PSessionRequest,
    PersonaStateChange,
    RemotePlayConnected,
    RemotePlayDisconnected,
    SteamServerConnectFailure,
    SteamServersConnected,
    SteamServersDisconnected,
    TicketForWebApiResponse,
    UserAchievementStored,
    UserStatsReceived,
    UserStatsStored,
    ValidateAuthTicketResponse,
    GSClientApprove,
    GSClientDeny,
    GSClientKick,
    GSClientGroupStatus,
    LobbyCreated,
    LobbyEnter,
    LobbyChatUpdate,
    ScreenshotReady,
    ScreenshotRequested,
    RelayNetworkStatus,
    NetworkingMessagesSessionRequest,
    NetworkingMessagesSessionFailed,
    UserAchievementIconFetched,
    SteamInventoryResultReady,
    SteamInventoryFullUpdate,
    SteamInventoryStartPurchaseResult,
}

impl CallbackKind {
    /// The callback id of the value.
    pub open spec fn spec_id(self) -> i32 {
        match self {
            CallbackKind::NetConnectionStatusChanged => 1221,
            CallbackKind::AuthSessionTicketResponse => 163,
            CallbackKind::DownloadItemResult => 3406,
            CallbackKind::GameLobbyJoinRequested => 333,
            CallbackKind::GameOverlayActivated => 331,
            CallbackKind::GameRichPresenceJoinRequested => 337,
            CallbackKind::LobbyChatMsg => 507,
            CallbackKind::LobbyDataUpdate => 505,
            CallbackKind::MicroTxnAuthorizationResponse => 152,
            CallbackKind::P2PSessionConnectFail => 1203,
            CallbackKind::P2PSessionRequest => 1202,
            CallbackKind::PersonaStateChange => 304,
            CallbackKind::RemotePlayConnected => 5701,
            CallbackKind::RemotePlayDisconnected => 5702,
            CallbackKind::SteamServerConnectFailure => 102,
            CallbackKind::SteamServersConnected => 101,
            CallbackKind::SteamServersDisconnected => 103,
            CallbackKind::TicketForWebApiResponse => 168,
            CallbackKind::UserAchievementStored => 1103,
            CallbackKind::UserStatsReceived => 1101,
            CallbackKind::UserStatsStored => 1102,
            CallbackKind::ValidateAuthTicketResponse => 143,
            CallbackKind::GSClientApprove => 201,
            CallbackKind::GSClientDeny => 202,
            CallbackKind::GSClientKick => 203,
            CallbackKind::GSClientGroupStatus => 208,
            CallbackKind::LobbyCreated => 513,
            CallbackKind::LobbyEnter => 504,
            CallbackKind::LobbyChatUpdate => 506,
            CallbackKind::ScreenshotReady => 2301,
            CallbackKind::ScreenshotRequested => 2302,
            CallbackKind::RelayNetworkStatus => 1281,
            CallbackKind::NetworkingMessagesSessionRequest => 1251,
            CallbackKind::NetworkingMessagesSessionFailed => 1252,
            CallbackKind::UserAchievementIconFetched => 1109,
            CallbackKind::SteamInventoryResultReady => 4700,
            CallbackKind::SteamInventoryFullUpdate => 4701,
            CallbackKind::SteamInventoryStartPurchaseResult => 4704,
        }
    }

    /// The callback id of the value.
    pub fn id(&self) -> (r: i32)
        ensures
            r == self.spec_id(),
    {
        match self {
            CallbackKind::NetConnectionStatusChanged => 1221,
            CallbackKind::AuthSessionTicketResponse => 163,
            CallbackKind::DownloadItemResult => 3406,
            CallbackKind::GameLobbyJoinRequested => 333,
            CallbackKind::GameOverlayActivated => 331,
            CallbackKind::GameRichPresenceJoinRequested => 337,
            CallbackKind::LobbyChatMsg => 507,
            CallbackKind::LobbyDataUpdate => 505,
            CallbackKind::MicroTxnAuthorizationResponse => 152,
            CallbackKind::P2PSessionConnectFail => 1203,
            CallbackKind::P2PSessionRequest => 1202,
            CallbackKind::PersonaStateChange => 304,
            CallbackKind::RemotePlayConnected => 5701,
            CallbackKind::RemotePlayDisconnected => 5702,
            CallbackKind::SteamServerConnectFailure => 102,
            CallbackKind::SteamServersConnected => 101,
            CallbackKind::SteamServersDisconnected => 103,
            CallbackKind::TicketForWebApiResponse => 168,
            CallbackKind::UserAchievementStored => 1103,
            CallbackKind::UserStatsReceived => 1101,
            CallbackKind::UserStatsStored => 1102,
            CallbackKind::ValidateAuthTicketResponse => 143,
            CallbackKind::GSClientApprove => 201,
            CallbackKind::GSClientDeny => 202,
            CallbackKind::GSClientKick => 203,
            CallbackKind::GSClientGroupStatus => 208,
            CallbackKind::LobbyCreated => 513,
            CallbackKind::LobbyEnter => 504,
            CallbackKind::LobbyChatUpdate => 506,
            CallbackKind::ScreenshotReady => 2301,
            CallbackKind::ScreenshotRequested => 2302,
            CallbackKind::RelayNetworkStatus => 1281,
            CallbackKind::NetworkingMessagesSessionRequest => 1251,
            CallbackKind::NetworkingMessagesSessionFailed => 1252,
            CallbackKind::UserAchievementIconFetched => 1109,
            CallbackKind::SteamInventoryResultReady => 4700,
            CallbackKind::SteamInventoryFullUpdate => 4701,
            CallbackKind::SteamInventoryStartPurchaseResult => 4704,
        }
    }

    /// Converts a callback id; see `callback_kind_of_id` for the ids that stand for a value.
    pub fn from_id(id: i32) -> (r: Option<CallbackKind>)
        ensures
            r == callback_kind_of_id(id),
    {
        match id {
            1221 => Some(CallbackKind::NetConnectionStatusChanged),
            163 => Some(CallbackKind::AuthSessionTicketResponse),
            3406 => Some(CallbackKind::DownloadItemResult),
            333 => Some(CallbackKind::GameLobbyJoinRequested),
            331 => Some(CallbackKind::GameOverlayActivated),
            337 => Some(CallbackKind::GameRichPresenceJoinRequested),
            507 => Some(CallbackKind::LobbyChatMsg),
            505 => Some(CallbackKind::LobbyDataUpdate),
            152 => Some(CallbackKind::MicroTxnAuthorizationResponse),
            1203 => Some(CallbackKind::P2PSessionConnectFail),
            1202 => Some(CallbackKind::P2PSessionRequest),
            304 => Some(CallbackKind::PersonaStateChange),
            5701 => Some(CallbackKind::RemotePlayConnected),
            5702 => Some(CallbackKind::RemotePlayDisconnected),
            102 => Some(CallbackKind::SteamServerConnectFailure),
            101 => Some(CallbackKind::SteamServersConnected),
            103 => Some(CallbackKind::SteamServersDisconnected),
            168 => Some(CallbackKind::TicketForWebApiResponse),
            1103 => Some(CallbackKind::UserAchievementStored),
            1101 => Some(CallbackKind::UserStatsReceived),
            1102 => Some(CallbackKind::UserStatsStored),
            143 => Some(CallbackKind::ValidateAuthTicketResponse),
            201 => Some(CallbackKind::GSClientApprove),
            202 => Some(CallbackKind::GSClientDeny),
            203 => Some(CallbackKind::GSClientKick),
            208 => Some(CallbackKind::GSClientGroupStatus),
            513 => Some(CallbackKind::LobbyCreated),
            504 => Some(CallbackKind::LobbyEnter),
            506 => Some(CallbackKind::LobbyChatUpdate),
            2301 => Some(CallbackKind::ScreenshotReady),
            2302 => Some(CallbackKind::ScreenshotRequested),
            1281 => Some(CallbackKind::RelayNetworkStatus),
            1251 => Some(CallbackKind::NetworkingMessagesSessionRequest),
            1252 => Some(CallbackKind::NetworkingMessagesSessionFailed),
            1109 => Some(CallbackKind::UserAchievementIconFetched),
            4700 => Some(CallbackKind::SteamInventoryResultReady),
            4701 => Some(CallbackKind::SteamInventoryFullUpdate),
            4704 => Some(CallbackKind::SteamInventoryStartPurchaseResult),
            _ => None,
        }
    }
}

/// The callback that an id stands for, if any.
pub open spec fn callback_kind_of_id(id: i32) -> Option<CallbackKind> {
    match id {
        1221 => Some(CallbackKind::NetConnectionStatusChanged),
        163 => Some(CallbackKind::AuthSessionTicketResponse),
        3406 => Some(CallbackKind::DownloadItemResult),
        333 => Some(CallbackKind::GameLobbyJoinRequested),
        331 => Some(CallbackKind::GameOverlayActivated),
        337 => Some(CallbackKind::GameRichPresenceJoinRequested),
        507 => Some(CallbackKind::LobbyChatMsg),
        505 => Some(CallbackKind::LobbyDataUpdate),
        152 => Some(CallbackKind::MicroTxnAuthorizationResponse),
        1203 => Some(CallbackKind::P2PSessionConnectFail),
        1202 => Some(CallbackKind::P2PSessionRequest),
        304 => Some(CallbackKind::PersonaStateChange),
        5701 => Some(CallbackKind::RemotePlayConnected),
        5702 => Some(CallbackKind::RemotePlayDisconnected),
        102 => Some(CallbackKind::SteamServerConnectFailure),
        101 => Some(CallbackKind::SteamServersConnected),
        103 => Some(CallbackKind::SteamServersDisconnected),
        168 => Some(CallbackKind::TicketForWebApiResponse),
        1103 => Some(CallbackKind::UserAchievementStored),
        1101 => Some(CallbackKind::UserStatsReceived),
        1102 => Some(CallbackKind::UserStatsStored),
        143 => Some(CallbackKind::ValidateAuthTicketResponse),
        201 => Some(CallbackKind::GSClientApprove),
        202 => Some(CallbackKind::GSClientDeny),
        203 => Some(CallbackKind::GSClientKick),
        208 => Some(CallbackKind::GSClientGroupStatus),
        513 => Some(CallbackKind::LobbyCreated),
        504 => Some(CallbackKind::LobbyEnter),
        506 => Some(CallbackKind::LobbyChatUpdate),
        2301 => Some(CallbackKind::ScreenshotReady),
        2302 => Some(CallbackKind::ScreenshotRequested),
        1281 => Some(CallbackKind::RelayNetworkStatus),
        1251 => Some(CallbackKind::NetworkingMessagesSessionRequest),
        1252 => Some(CallbackKind::NetworkingMessagesSessionFailed),
        1109 => Some(CallbackKind::UserAchievementIconFetched),
        4700 => Some(CallbackKind::SteamInventoryResultReady),
        4701 => Some(CallbackKind::SteamInventoryFullUpdate),
        4704 => Some(CallbackKind::SteamInventoryStartPurchaseResult),
        _ => None,
    }
}

/// Ids of `CallbackKind` are distinct: each value's id converts back to that
/// value, and an id that converts to a value is that value's id.
pub proof fn lemma_callback_kind_id_roundtrip(v: CallbackKind, id: i32)
    ensures
        callback_kind_of_id(v.spec_id()) == Some(v),
        callback_kind_of_id(id) == Some(v) ==> v.spec_id() == id,
{
}

/// The values of `callback_kind_of_id`, as the Steamworks SDK headers fix them.
pub proof fn lemma_callback_kind_of_id_table()
    ensures
        callback_kind_of_id(1221) == Some(CallbackKind::NetConnectionStatusChanged),
        callback_kind_of_id(163) == Some(CallbackKind::AuthSessionTicketResponse),
        callback_kind_of_id(3406) == Some(CallbackKind::DownloadItemResult),
        callback_kind_of_id(333) == Some(CallbackKind::GameLobbyJoinRequested),
        callback_kind_of_id(331) == Some(CallbackKind::GameOverlayActivated),
        callback_kind_of_id(337) == Some(CallbackKind::GameRichPresenceJoinRequested),
        callback_kind_of_id(507) == Some(CallbackKind::LobbyChatMsg),
        callback_kind_of_id(505) == Some(CallbackKind::LobbyDataUpdate),
        callback_kind_of_id(152) == Some(CallbackKind::MicroTxnAuthorizationResponse),
        callback_kind_of_id(1203) == Some(CallbackKind::P2PSessionConnectFail),
        callback_kind_of_id(1202) == Some(CallbackKind::P2PSessionRequest),
        callback_kind_of_id(304) == Some(CallbackKind::PersonaStateChange),
        callback_kind_of_id(5701) == Some(CallbackKind::RemotePlayConnected),
        callback_kind_of_id(5702) == Some(CallbackKind::RemotePlayDisconnected),
        callback_kind_of_id(102) == Some(CallbackKind::SteamServerConnectFailure),
        callback_kind_of_id(101) == Some(CallbackKind::SteamServersConnected),
        callback_kind_of_id(103) == Some(CallbackKind::SteamServersDisconnected),
        callback_kind_of_id(168) == Some(CallbackKind::TicketForWebApiResponse),
        callback_kind_of_id(1103) == Some(CallbackKind::UserAchievementStored),
        callback_kind_of_id(1101) == Some(CallbackKind::UserStatsReceived),
        callback_kind_of_id(1102) == Some(CallbackKind::UserStatsStored),
        callback_kind_of_id(143) == Some(CallbackKind::ValidateAuthTicketResponse),
        callback_kind_of_id(201) == Some(CallbackKind::GSClientApprove),
        callback_kind_of_id(202) == Some(CallbackKind::GSClientDeny),
        callback_kind_of_id(203) == Some(CallbackKind::GSClientKick),
        callback_kind_of_id(208) == Some(CallbackKind::GSClientGroupStatus),
        callback_kind_of_id(513) == Some(CallbackKind::LobbyCreated),
        callback_kind_of_id(504) == Some(CallbackKind::LobbyEnter),
        callback_kind_of_id(506) == Some(CallbackKind::LobbyChatUpdate),
        callback_kind_of_id(2301) == Some(CallbackKind::ScreenshotReady),
        callback_kind_of_id(2302) == Some(CallbackKind::ScreenshotRequested),
        callback_kind_of_id(1281) == Some(CallbackKind::RelayNetworkStatus),
        callback_kind_of_id(1251) == Some(CallbackKind::NetworkingMessagesSessionRequest),
        callback_kind_of_id(1252) == Some(CallbackKind::NetworkingMessagesSessionFailed),
        callback_kind_of_id(1109) == Some(CallbackKind::UserAchievementIconFetched),
        callback_kind_of_id(4700) == Some(CallbackKind::SteamInventoryResultReady),
        callback_kind_of_id(4701) == Some(CallbackKind::SteamInventoryFullUpdate),
        callback_kind_of_id(4704) == Some(CallbackKind::SteamInventoryStartPurchaseResult),
{
}

/// The values of `CallbackKind::spec_id`, as the Steamworks SDK headers fix them.
pub proof fn lemma_callback_kind_id_table()
    ensures
        CallbackKind::NetConnectionStatusChanged.spec_id() == 1221,
        CallbackKind::AuthSessionTicketResponse.spec_id() == 163,
        CallbackKind::DownloadItemResult.spec_id() == 3406,
        CallbackKind::GameLobbyJoinRequested.spec_id() == 333,
        CallbackKind::GameOverlayActivated.spec_id() == 331,
        CallbackKind::GameRichPresenceJoinRequested.spec_id() == 337,
        CallbackKind::LobbyChatMsg.spec_id() == 507,
        CallbackKind::LobbyDataUpdate.spec_id() == 505,
        CallbackKind::MicroTxnAuthorizationResponse.spec_id() == 152,
        CallbackKind::P2PSessionConnectFail.spec_id() == 1203,
        CallbackKind::P2PSessionRequest.spec_id() == 1202,
        CallbackKind::PersonaStateChange.spec_id() == 304,
        CallbackKind::RemotePlayConnected.spec_id() == 5701,
        CallbackKind::RemotePlayDisconnected.spec_id() == 5702,
        CallbackKind::SteamServerConnectFailure.spec_id() == 102,
        CallbackKind::SteamServersConnected.spec_id() == 101,
        CallbackKind::SteamServersDisconnected.spec_id() == 103,
        CallbackKind::TicketForWebApiResponse.spec_id() == 168,
        CallbackKind::UserAchievementStored.spec_id() == 1103,
        CallbackKind::UserStatsReceived.spec_id() == 1101,
        CallbackKind::UserStatsStored.spec_id() == 1102,
        CallbackKind::ValidateAuthTicketResponse.spec_id() == 143,
        CallbackKind::GSClientApprove.spec_id() == 201,
        CallbackKind::GSClientDeny.spec_id() == 202,
        CallbackKind::GSClientKick.spec_id() == 203,
        CallbackKind::GSClientGroupStatus.spec_id() == 208,
        CallbackKind::LobbyCreated.spec_id() == 513,
        CallbackKind::LobbyEnter.spec_id() == 504,
        CallbackKind::LobbyChatUpdate.spec_id() == 506,
        CallbackKind::ScreenshotReady.spec_id() == 2301,
        CallbackKind::ScreenshotRequested.spec_id() == 2302,
        CallbackKind::RelayNetworkStatus.spec_id() == 1281,
        CallbackKind::NetworkingMessagesSessionRequest.spec_id() == 1251,
        CallbackKind::NetworkingMessagesSessionFailed.spec_id() == 1252,
        CallbackKind::UserAchievementIconFetched.spec_id() == 1109,
        CallbackKind::SteamInventoryResultReady.spec_id() == 4700,
        CallbackKind::SteamInventoryFullUpdate.spec_id() == 4701,
        CallbackKind::SteamInventoryStartPurchaseResult.spec_id() == 4704,
{
}

} // verus!
