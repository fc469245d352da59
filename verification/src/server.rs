use vstd::prelude::*;

use crate::ids::SteamId;

verus! {

/// The authentication mode of a game server
#[derive(Clone, Copy, Debug, PartialEq, Eq, Structural)]
pub enum ServerMode {
    /// Don't authenticate user logins.
    NoAuthentication,
    /// Authenticate users
    Authentication,
    /// Authenticate users and use anti-cheat.
    AuthenticationAndSecure,
}

impl ServerMode {
    /// The `EServerMode` code of the value.
    pub open spec fn spec_code(self) -> i32 {
        match self {
            ServerMode::NoAuthentication => 1,
            ServerMode::Authentication => 2,
            ServerMode::AuthenticationAndSecure => 3,
        }
    }

    /// The `EServerMode` code of the value.
    pub fn code(&self) -> (r: i32)
        ensures
            r == self.spec_code(),
    {
        match self {
            ServerMode::NoAuthentication => 1,
            ServerMode::Authentication => 2,
            ServerMode::AuthenticationAndSecure => 3,
        }
    }
}

/// Pass as the query port to share the game port for queries.
pub const QUERY_PORT_SHARED: u16 = 0xffff;

/// Called when a client has been approved to connect to this
/// game server
#[derive(Clone, Debug)]
pub struct GSClientApprove {
    /// The steam ID of the user requesting a p2p
    /// session
    pub user: SteamId,
    /// The steam ID of the owner of the game
    pub owner: SteamId,
}

/// Why a client was denied or kicked
#[non_exhaustive]
#[derive(Clone, Copy, Debug, PartialEq, Eq, Structural)]
pub enum DenyReason {
    Invalid,
    InvalidVersion,
    Generic,
    NotLoggedOn,
    NoLicense,
    Cheater,
    LoggedInElseWhere,
    UnknownText,
    IncompatibleAnticheat,
    MemoryCorruption,
    IncompatibleSoftware,
    SteamConnectionLost,
    SteamConnectionError,
    SteamResponseTimedOut,
    SteamValidationStalled,
    SteamOwnerLeftGuestUser,
}

impl DenyReason {
    /// The `EDenyReason` code of the value.
    pub open spec fn spec_code(self) -> i32 {
        match self {
            DenyReason::Invalid => 0,
            DenyReason::InvalidVersion => 1,
            DenyReason::Generic => 2,
            DenyReason::NotLoggedOn => 3,
            DenyReason::NoLicense => 4,
            DenyReason::Cheater => 5,
            DenyReason::LoggedInElseWhere => 6,
            DenyReason::UnknownText => 7,
            DenyReason::IncompatibleAnticheat => 8,
            DenyReason::MemoryCorruption => 9,
            DenyReason::IncompatibleSoftware => 10,
            DenyReason::SteamConnectionLost => 11,
            DenyReason::SteamConnectionError => 12,
            DenyReason::SteamResponseTimedOut => 13,
            DenyReason::SteamValidationStalled => 14,
            DenyReason::SteamOwnerLeftGuestUser => 15,
        }
    }

    /// The `EDenyReason` code of the value.
    pub fn code(&self) -> (r: i32)
        ensures
            r == self.spec_code(),
    {
        match self {
            DenyReason::Invalid => 0,
            DenyReason::InvalidVersion => 1,
            DenyReason::Generic => 2,
            DenyReason::NotLoggedOn => 3,
            DenyReason::NoLicense => 4,
            DenyReason::Cheater => 5,
            DenyReason::LoggedInElseWhere => 6,
            DenyReason::UnknownText => 7,
            DenyReason::IncompatibleAnticheat => 8,
            DenyReason::MemoryCorruption => 9,
            DenyReason::IncompatibleSoftware => 10,
            DenyReason::SteamConnectionLost => 11,
            DenyReason::SteamConnectionError => 12,
            DenyReason::SteamResponseTimedOut => 13,
            DenyReason::SteamValidationStalled => 14,
            DenyReason::SteamOwnerLeftGuestUser => 15,
        }
    }

    /// Converts a `EDenyReason` code; a code that stands for no value gives `Invalid`.
    pub fn from_code(code: i32) -> (r: DenyReason)
        ensures
            r == (match deny_reason_of_code(code) {
                Some(v) => v,
                None => DenyReason::Invalid,
            }),
    {
        match code {
            0 => DenyReason::Invalid,
            1 => DenyReason::InvalidVersion,
            2 => DenyReason::Generic,
            3 => DenyReason::NotLoggedOn,
            4 => DenyReason::NoLicense,
            5 => DenyReason::Cheater,
            6 => DenyReason::LoggedInElseWhere,
            7 => DenyReason::UnknownText,
            8 => DenyReason::IncompatibleAnticheat,
            9 => DenyReason::MemoryCorruption,
            10 => DenyReason::IncompatibleSoftware,
            11 => DenyReason::SteamConnectionLost,
            12 => DenyReason::SteamConnectionError,
            13 => DenyReason::SteamResponseTimedOut,
            14 => DenyReason::SteamValidationStalled,
            15 => DenyReason::SteamOwnerLeftGuestUser,
            _ => DenyReason::Invalid,
        }
    }
}

/// The value that a `EDenyReason` code stands for, if any.
pub open spec fn deny_reason_of_code(code: i32) -> Option<DenyReason> {
    match code {
        0 => Some(DenyReason::Invalid),
        1 => Some(DenyReason::InvalidVersion),
        2 => Some(DenyReason::Generic),
        3 => Some(DenyReason::NotLoggedOn),
        4 => Some(DenyReason::NoLicense),
        5 => Some(DenyReason::Cheater),
        6 => Some(DenyReason::LoggedInElseWhere),
        7 => Some(DenyReason::UnknownText),
        8 => Some(DenyReason::IncompatibleAnticheat),
        9 => Some(DenyReason::MemoryCorruption),
        10 => Some(DenyReason::IncompatibleSoftware),
        11 => Some(DenyReason::SteamConnectionLost),
        12 => Some(DenyReason::SteamConnectionError),
        13 => Some(DenyReason::SteamResponseTimedOut),
        14 => Some(DenyReason::SteamValidationStalled),
        15 => Some(DenyReason::SteamOwnerLeftGuestUser),
        _ => None,
    }
}

/// Codes of `DenyReason` are distinct: each value's code converts back to that
/// value, and a code that converts to a value is that value's code.
pub proof fn lemma_deny_reason_code_roundtrip(v: DenyReason, code: i32)
    ensures
        deny_reason_of_code(v.spec_code()) == Some(v),
        deny_reason_of_code(code) == Some(v) ==> v.spec_code() == code,
{
}

/// Called when a client has been denied to connect to this
/// game server
#[derive(Clone, Debug)]
pub struct GSClientDeny {
    /// The steam ID of the user requesting a p2p
    /// session
    pub user: SteamId,
    /// The reason the user was denied
    pub deny_reason: DenyReason,
    /// An optional text message explaining the deny reason
    pub optional_text: String,
}

/// Called when the game server should kick the user
#[derive(Clone, Debug)]
pub struct GSClientKick {
    /// The steam ID of the user requesting a p2p
    /// session
    pub user: SteamId,
    /// The reason the user was kicked
    pub deny_reason: DenyReason,
}

/// Called when we have received the group status of a user
#[derive(Clone, Debug)]
pub struct GSClientGroupStatus {
    pub user: SteamId,
    pub group: SteamId,
    pub member: bool,
    pub officer: bool,
}

/// The least size of the buffer that outgoing packets are written into.
pub const MIN_OUTGOING_PACKET_BUFFER: usize = 16 * 1024;

/// The length of the next outgoing packet that Steam wrote into the buffer;
/// none when there are no more packets (a length of zero).
pub fn next_outgoing_packet_len(len: i32, buffer_len: usize) -> (r: Option<usize>)
    requires
        0 <= len <= buffer_len,
    ensures
        len == 0 ==> r is None,
        len != 0 ==> r == Some(len as usize),
{
    if len == 0 {
        None
    } else {
        Some(len as usize)
    }
}

/// The values of `deny_reason_of_code`, as the Steamworks SDK headers fix them.
pub proof fn lemma_deny_reason_of_code_table()
    ensures
        deny_reason_of_code(0) == Some(DenyReason::Invalid),
        deny_reason_of_code(1) == Some(DenyReason::InvalidVersion),
        deny_reason_of_code(2) == Some(DenyReason::Generic),
        deny_reason_of_code(3) == Some(DenyReason::NotLoggedOn),
        deny_reason_of_code(4) == Some(DenyReason::NoLicense),
        deny_reason_of_code(5) == Some(DenyReason::Cheater),
        deny_reason_of_code(6) == Some(DenyReason::LoggedInElseWhere),
        deny_reason_of_code(7) == Some(DenyReason::UnknownText),
        deny_reason_of_code(8) == Some(DenyReason::IncompatibleAnticheat),
        deny_reason_of_code(9) == Some(DenyReason::MemoryCorruption),
        deny_reason_of_code(10) == Some(DenyReason::IncompatibleSoftware),
        deny_reason_of_code(11) == Some(DenyReason::SteamConnectionLost),
        deny_reason_of_code(12) == Some(DenyReason::SteamConnectionError),
        deny_reason_of_code(13) == Some(DenyReason::SteamResponseTimedOut),
        deny_reason_of_code(14) == Some(DenyReason::SteamValidationStalled),
        deny_reason_of_code(15) == Some(DenyReason::SteamOwnerLeftGuestUser),
{
}

/// The values of `ServerMode::spec_code`, as the Steamworks SDK headers fix them.
pub proof fn lemma_server_mode_code_table()
    ensures
        ServerMode::NoAuthentication.spec_code() == 1,
        ServerMode::Authentication.spec_code() == 2,
        ServerMode::AuthenticationAndSecure.spec_code() == 3,
{
}

/// The values of `DenyReason::spec_code`, as the Steamworks SDK headers fix them.
pub proof fn lemma_deny_reason_code_table()
    ensures
        DenyReason::Invalid.spec_code() == 0,
        DenyReason::InvalidVersion.spec_code() == 1,
        DenyReason::Generic.spec_code() == 2,
        DenyReason::NotLoggedOn.spec_code() == 3,
        DenyReason::NoLicense.spec_code() == 4,
        DenyReason::Cheater.spec_code() == 5,
        DenyReason::LoggedInElseWhere.spec_code() == 6,
        DenyReason::UnknownText.spec_code() == 7,
        DenyReason::IncompatibleAnticheat.spec_code() == 8,
        DenyReason::MemoryCorruption.spec_code() == 9,
        DenyReason::IncompatibleSoftware.spec_code() == 10,
        DenyReason::SteamConnectionLost.spec_code() == 11,
        DenyReason::SteamConnectionError.spec_code() == 12,
        DenyReason::SteamResponseTimedOut.spec_code() == 13,
        DenyReason::SteamValidationStalled.spec_code() == 14,
        DenyReason::SteamOwnerLeftGuestUser.spec_code() == 15,
{
}

} // verus!
