use vstd::prelude::*;

use crate::error::{error_of_code, SteamError, RESULT_OK};
use crate::ids::{AppId, SteamId};

verus! {

/// Errors from beginning an authentication session
#[derive(Debug, Clone, Copy, PartialEq, Eq, Structural)]
pub enum AuthSessionError {
    /// Invalid ticket
    InvalidTicket,
    /// Duplicate ticket request
    DuplicateRequest,
    /// Incompatible interface version
    InvalidVersion,
    /// Incorrect game for ticket
    GameMismatch,
    /// Ticket has expired
    ExpiredTicket,
}

impl AuthSessionError {
    /// The `EBeginAuthSessionResult` code of the value.
    pub open spec fn spec_code(self) -> i32 {
        match self {
            AuthSessionError::InvalidTicket => 1,
            AuthSessionError::DuplicateRequest => 2,
            AuthSessionError::InvalidVersion => 3,
            AuthSessionError::GameMismatch => 4,
            AuthSessionError::ExpiredTicket => 5,
        }
    }

    /// The `EBeginAuthSessionResult` code of the value.
    pub fn code(&self) -> (r: i32)
        ensures
            r == self.spec_code(),
    {
        match self {
            AuthSessionError::InvalidTicket => 1,
            AuthSessionError::DuplicateRequest => 2,
            AuthSessionError::InvalidVersion => 3,
            AuthSessionError::GameMismatch => 4,
            AuthSessionError::ExpiredTicket => 5,
        }
    }

    /// The value of a code, if the code stands for one; see `auth_session_error_of_code`.
    pub fn try_from_code(code: i32) -> (r: Option<AuthSessionError>)
        ensures
            r == auth_session_error_of_code(code),
    {
        match code {
            1 => Some(AuthSessionError::InvalidTicket),
            2 => Some(AuthSessionError::DuplicateRequest),
            3 => Some(AuthSessionError::InvalidVersion),
            4 => Some(AuthSessionError::GameMismatch),
            5 => Some(AuthSessionError::ExpiredTicket),
            _ => None,
        }
    }

    /// Converts a `EBeginAuthSessionResult` code; see `auth_session_error_of_code` for the codes that stand for a value.
    pub fn from_code(code: i32) -> (r: AuthSessionError)
        requires
            auth_session_error_of_code(code) is Some,
        ensures
            auth_session_error_of_code(code) == Some(r),
    {
        match code {
            1 => AuthSessionError::InvalidTicket,
            2 => AuthSessionError::DuplicateRequest,
            3 => AuthSessionError::InvalidVersion,
            4 => AuthSessionError::GameMismatch,
            _ => AuthSessionError::ExpiredTicket,
        }
    }
}

/// The value that a `EBeginAuthSessionResult` code stands for, if any.
pub open spec fn auth_session_error_of_code(code: i32) -> Option<AuthSessionError> {
    match code {
        1 => Some(AuthSessionError::InvalidTicket),
        2 => Some(AuthSessionError::DuplicateRequest),
        3 => Some(AuthSessionError::InvalidVersion),
        4 => Some(AuthSessionError::GameMismatch),
        5 => Some(AuthSessionError::ExpiredTicket),
        _ => None,
    }
}

/// Codes of `AuthSessionError` are distinct: each value's code converts back to that
/// value, and a code that converts to a value is that value's code.
pub proof fn lemma_auth_session_error_code_roundtrip(v: AuthSessionError, code: i32)
    ensures
        auth_session_error_of_code(v.spec_code()) == Some(v),
        auth_session_error_of_code(code) == Some(v) ==> v.spec_code() == code,
{
}
impl AuthSessionError {
    /// The human readable description of the error.
    pub fn to_string(&self) -> (s: String)
        ensures
            s@ == (match *self {
                AuthSessionError::InvalidTicket => "invalid ticket"@,
                AuthSessionError::DuplicateRequest => "duplicate ticket request"@,
                AuthSessionError::InvalidVersion => "incompatible interface version"@,
                AuthSessionError::GameMismatch => "incorrect game for ticket"@,
                AuthSessionError::ExpiredTicket => "ticket has expired"@,
            }),
    {
        let m: &str = match self {
            AuthSessionError::InvalidTicket => "invalid ticket",
            AuthSessionError::DuplicateRequest => "duplicate ticket request",
            AuthSessionError::InvalidVersion => "incompatible interface version",
            AuthSessionError::GameMismatch => "incorrect game for ticket",
            AuthSessionError::ExpiredTicket => "ticket has expired",
        };
        String::from_str(m)
    }
}

/// The outcome of `BeginAuthSession`: success for code 0, the matching error
/// for the failure codes 1 to 5.
pub fn begin_auth_session_result(code: i32) -> (r: Result<(), AuthSessionError>)
    requires
        code == 0 || auth_session_error_of_code(code) is Some,
    ensures
        code == 0 ==> r == Ok::<(), AuthSessionError>(()),
        code != 0 ==> r == Err::<(), AuthSessionError>(auth_session_error_of_code(code).unwrap()),
{
    if code == 0 {
        Ok(())
    } else {
        Err(AuthSessionError::from_code(code))
    }
}

/// A handle to an authentication ticket.
#[derive(Clone, Copy, Debug, PartialEq, Eq, Structural)]
pub struct AuthTicket(pub(crate) u32);

impl AuthTicket {
    pub closed spec fn view(self) -> u32 {
        self.0
    }

    /// The ticket with this raw handle.
    pub fn from_raw(handle: u32) -> (r: AuthTicket)
        ensures
            r@ == handle,
    {
        AuthTicket(handle)
    }

    /// The raw handle of the ticket.
    pub fn raw(&self) -> (r: u32)
        ensures
            r == self@,
    {
        self.0
    }
}

/// The `Result` of a call that reports an `EResult` code.
pub open spec fn result_of_code(code: i64) -> Result<(), SteamError> {
    if code == RESULT_OK {
        Ok(())
    } else {
        Err(error_of_code(code).unwrap())
    }
}

/// Called when generating a authentication session ticket.
///
/// This can be used to verify the ticket was created successfully.
#[derive(Debug)]
pub struct AuthSessionTicketResponse {
    /// The ticket in question.
    pub ticket: AuthTicket,
    /// The result of generating the ticket.
    pub result: Result<(), SteamError>,
}

impl AuthSessionTicketResponse {
    /// Builds the event from the raw callback fields.
    pub fn from_raw_fields(ticket: u32, code: i64) -> (r: Self)
        requires
            code == RESULT_OK || error_of_code(code) is Some,
        ensures
            r.ticket@ == ticket,
            r.result == result_of_code(code),
    {
        AuthSessionTicketResponse {
            ticket: AuthTicket(ticket),
            result: crate::error::to_steam_result(code),
        }
    }
}

/// Called when a ticket for a web API has been generated.
#[derive(Debug)]
pub struct TicketForWebApiResponse {
    pub ticket_handle: AuthTicket,
    pub result: Result<(), SteamError>,
    pub ticket_len: i32,
    pub ticket: Vec<u8>,
}

impl TicketForWebApiResponse {
    /// Builds the event from the raw callback fields.
    pub fn from_raw_fields(ticket_handle: u32, code: i64, ticket_len: i32, ticket: Vec<u8>) -> (r: Self)
        requires
            code == RESULT_OK || error_of_code(code) is Some,
        ensures
            r.ticket_handle@ == ticket_handle,
            r.result == result_of_code(code),
            r.ticket_len == ticket_len,
            r.ticket@ == ticket@,
    {
        TicketForWebApiResponse {
            ticket_handle: AuthTicket(ticket_handle),
            result: crate::error::to_steam_result(code),
            ticket_len,
            ticket,
        }
    }
}

/// Errors from `ValidateAuthTicketResponse`
#[derive(Debug, Clone, Copy, PartialEq, Eq, Structural)]
pub enum AuthSessionValidateError {
    /// User not connected to steam
    UserNotConnectedToSteam,
    /// The license has expired
    NoLicenseOrExpired,
    /// The user is VAC banned from this game
    VACBanned,
    /// The user is logged in elsewhere
    LoggedInElseWhere,
    /// VAC check timed out
    VACCheckTimedOut,
    /// The authentication ticket has been cancelled
    AuthTicketCancelled,
    /// The authentication ticket has already been used
    AuthTicketInvalidAlreadyUsed,
    /// The authentication ticket is invalid
    AuthTicketInvalid,
    /// The user is banned
    PublisherIssuedBan,
}

impl AuthSessionValidateError {
    /// The `EAuthSessionResponse` code of the value.
    pub open spec fn spec_code(self) -> i32 {
        match self {
            AuthSessionValidateError::UserNotConnectedToSteam => 1,
            AuthSessionValidateError::NoLicenseOrExpired => 2,
            AuthSessionValidateError::VACBanned => 3,
            AuthSessionValidateError::LoggedInElseWhere => 4,
            AuthSessionValidateError::VACCheckTimedOut => 5,
            AuthSessionValidateError::AuthTicketCancelled => 6,
            AuthSessionValidateError::AuthTicketInvalidAlreadyUsed => 7,
            AuthSessionValidateError::AuthTicketInvalid => 8,
            AuthSessionValidateError::PublisherIssuedBan => 9,
        }
    }

    /// The `EAuthSessionResponse` code of the value.
    pub fn code(&self) -> (r: i32)
        ensures
            r == self.spec_code(),
    {
        match self {
            AuthSessionValidateError::UserNotConnectedToSteam => 1,
            AuthSessionValidateError::NoLicenseOrExpired => 2,
            AuthSessionValidateError::VACBanned => 3,
            AuthSessionValidateError::LoggedInElseWhere => 4,
            AuthSessionValidateError::VACCheckTimedOut => 5,
            AuthSessionValidateError::AuthTicketCancelled => 6,
            AuthSessionValidateError::AuthTicketInvalidAlreadyUsed => 7,
            AuthSessionValidateError::AuthTicketInvalid => 8,
            AuthSessionValidateError::PublisherIssuedBan => 9,
        }
    }

    /// The value of a code, if the code stands for one; see `auth_session_validate_error_of_code`.
    pub fn try_from_code(code: i32) -> (r: Option<AuthSessionValidateError>)
        ensures
            r == auth_session_validate_error_of_code(code),
    {
        match code {
            1 => Some(AuthSessionValidateError::UserNotConnectedToSteam),
            2 => Some(AuthSessionValidateError::NoLicenseOrExpired),
            3 => Some(AuthSessionValidateError::VACBanned),
            4 => Some(AuthSessionValidateError::LoggedInElseWhere),
            5 => Some(AuthSessionValidateError::VACCheckTimedOut),
            6 => Some(AuthSessionValidateError::AuthTicketCancelled),
            7 => Some(AuthSessionValidateError::AuthTicketInvalidAlreadyUsed),
            8 => Some(AuthSessionValidateError::AuthTicketInvalid),
            9 => Some(AuthSessionValidateError::PublisherIssuedBan),
            _ => None,
        }
    }

    /// Converts a `EAuthSessionResponse` code; see `auth_session_validate_error_of_code` for the codes that stand for a value.
    pub fn from_code(code: i32) -> (r: AuthSessionValidateError)
        requires
            auth_session_validate_error_of_code(code) is Some,
        ensures
            auth_session_validate_error_of_code(code) == Some(r),
    {
        match code {
            1 => AuthSessionValidateError::UserNotConnectedToSteam,
            2 => AuthSessionValidateError::NoLicenseOrExpired,
            3 => AuthSessionValidateError::VACBanned,
            4 => AuthSessionValidateError::LoggedInElseWhere,
            5 => AuthSessionValidateError::VACCheckTimedOut,
            6 => AuthSessionValidateError::AuthTicketCancelled,
            7 => AuthSessionValidateError::AuthTicketInvalidAlreadyUsed,
            8 => AuthSessionValidateError::AuthTicketInvalid,
            _ => AuthSessionValidateError::PublisherIssuedBan,
        }
    }
}

/// The value that a `EAuthSessionResponse` code stands for, if any.
pub open spec fn auth_session_validate_error_of_code(code: i32) -> Option<AuthSessionValidateError> {
    match code {
        1 => Some(AuthSessionValidateError::UserNotConnectedToSteam),
        2 => Some(AuthSessionValidateError::NoLicenseOrExpired),
        3 => Some(AuthSessionValidateError::VACBanned),
        4 => Some(AuthSessionValidateError::LoggedInElseWhere),
        5 => Some(AuthSessionValidateError::VACCheckTimedOut),
        6 => Some(AuthSessionValidateError::AuthTicketCancelled),
        7 => Some(AuthSessionValidateError::AuthTicketInvalidAlreadyUsed),
        8 => Some(AuthSessionValidateError::AuthTicketInvalid),
        9 => Some(AuthSessionValidateError::PublisherIssuedBan),
        _ => None,
    }
}

/// Codes of `AuthSessionValidateError` are distinct: each value's code converts back to that
/// value, and a code that converts to a value is that value's code.
pub proof fn lemma_auth_session_validate_error_code_roundtrip(v: AuthSessionValidateError, code: i32)
    ensures
        auth_session_validate_error_of_code(v.spec_code()) == Some(v),
        auth_session_validate_error_of_code(code) == Some(v) ==> v.spec_code() == code,
{
}
impl AuthSessionValidateError {
    /// The human readable description of the error.
    pub fn to_string(&self) -> (s: String)
        ensures
            s@ == (match *self {
                AuthSessionValidateError::UserNotConnectedToSteam => "user not connected to steam"@,
                AuthSessionValidateError::NoLicenseOrExpired => "the license has expired"@,
                AuthSessionValidateError::VACBanned => "the user is VAC banned from this game"@,
                AuthSessionValidateError::LoggedInElseWhere => "the user is logged in elsewhere"@,
                AuthSessionValidateError::VACCheckTimedOut => "VAC check timed out"@,
                AuthSessionValidateError::AuthTicketCancelled => "the authentication ticket has been cancelled"@,
                AuthSessionValidateError::AuthTicketInvalidAlreadyUsed => "the authentication ticket has already been used"@,
                AuthSessionValidateError::AuthTicketInvalid => "the authentication ticket is invalid"@,
                AuthSessionValidateError::PublisherIssuedBan => "the user is banned"@,
            }),
    {
        let m: &str = match self {
            AuthSessionValidateError::UserNotConnectedToSteam => "user not connected to steam",
            AuthSessionValidateError::NoLicenseOrExpired => "the license has expired",
            AuthSessionValidateError::VACBanned => "the user is VAC banned from this game",
            AuthSessionValidateError::LoggedInElseWhere => "the user is logged in elsewhere",
            AuthSessionValidateError::VACCheckTimedOut => "VAC check timed out",
            AuthSessionValidateError::AuthTicketCancelled => "the authentication ticket has been cancelled",
            AuthSessionValidateError::AuthTicketInvalidAlreadyUsed => "the authentication ticket has already been used",
            AuthSessionValidateError::AuthTicketInvalid => "the authentication ticket is invalid",
            AuthSessionValidateError::PublisherIssuedBan => "the user is banned",
        };
        String::from_str(m)
    }
}

/// Called when an authentication ticket has been
/// validated.
#[derive(Debug)]
pub struct ValidateAuthTicketResponse {
    /// The steam id of the entity that provided the ticket
    pub steam_id: SteamId,
    /// The result of the validation
    pub response: Result<(), AuthSessionValidateError>,
    /// The steam id of the owner of the game. Differs from
    /// `steam_id` if the game is borrowed.
    pub owner_steam_id: SteamId,
}

impl ValidateAuthTicketResponse {
    /// Builds the event from the raw callback fields; the response code must be
    /// success (0) or one of the failure codes 1 to 9.
    pub fn from_raw_fields(steam_id: u64, owner_steam_id: u64, response: i32) -> (r: Self)
        requires
            response == 0 || auth_session_validate_error_of_code(response) is Some,
        ensures
            r.steam_id@ == steam_id,
            r.owner_steam_id@ == owner_steam_id,
            response == 0 ==> r.response == Ok::<(), AuthSessionValidateError>(()),
            response != 0 ==> r.response == Err::<(), AuthSessionValidateError>(
                auth_session_validate_error_of_code(response).unwrap(),
            ),
    {
        ValidateAuthTicketResponse {
            steam_id: SteamId::from_raw(steam_id),
            response: if response == 0 {
                Ok(())
            } else {
                Err(AuthSessionValidateError::from_code(response))
            },
            owner_steam_id: SteamId::from_raw(owner_steam_id),
        }
    }
}

/// Called when a microtransaction authorization response is received
#[derive(Clone, Debug)]
pub struct MicroTxnAuthorizationResponse {
    pub app_id: AppId,
    pub order_id: u64,
    pub authorized: bool,
}

impl MicroTxnAuthorizationResponse {
    /// Builds the event from the raw callback fields; authorized is the byte 1.
    pub fn from_raw_fields(app_id: u32, order_id: u64, authorized: u8) -> (r: Self)
        ensures
            r.app_id.0 == app_id,
            r.order_id == order_id,
            r.authorized == (authorized == 1),
    {
        MicroTxnAuthorizationResponse { app_id: AppId(app_id), order_id, authorized: authorized == 1 }
    }
}

/// Called when a connection to the Steam servers is made.
#[derive(Clone, Debug)]
pub struct SteamServersConnected;

/// Called when the connection to the Steam servers is lost.
#[derive(Clone, Debug)]
pub struct SteamServersDisconnected {
    /// The reason we were disconnected from the Steam servers
    pub reason: SteamError,
}

/// Called when the connection to the Steam servers fails.
#[derive(Clone, Debug)]
pub struct SteamServerConnectFailure {
    /// The reason we failed to connect to the Steam servers
    pub reason: SteamError,
    /// Whether we are still retrying the connection.
    pub still_retrying: bool,
}

/// A `AuthTicket` is its view: two values with the same view are the same value.
pub proof fn lemma_auth_ticket_view_injective(a: AuthTicket, b: AuthTicket)
    ensures
        a@ == b@ <==> a == b,
{
}

/// The values of `auth_session_error_of_code`, as the Steamworks SDK headers fix them.
pub proof fn lemma_auth_session_error_of_code_table()
    ensures
        auth_session_error_of_code(1) == Some(AuthSessionError::InvalidTicket),
        auth_session_error_of_code(2) == Some(AuthSessionError::DuplicateRequest),
        auth_session_error_of_code(3) == Some(AuthSessionError::InvalidVersion),
        auth_session_error_of_code(4) == Some(AuthSessionError::GameMismatch),
        auth_session_error_of_code(5) == Some(AuthSessionError::ExpiredTicket),
{
}

/// The values of `auth_session_validate_error_of_code`, as the Steamworks SDK headers fix them.
pub proof fn lemma_auth_session_validate_error_of_code_table()
    ensures
        auth_session_validate_error_of_code(1) == Some(AuthSessionValidateError::UserNotConnectedToSteam),
        auth_session_validate_error_of_code(2) == Some(AuthSessionValidateError::NoLicenseOrExpired),
        auth_session_validate_error_of_code(3) == Some(AuthSessionValidateError::VACBanned),
        auth_session_validate_error_of_code(4) == Some(AuthSessionValidateError::LoggedInElseWhere),
        auth_session_validate_error_of_code(5) == Some(AuthSessionValidateError::VACCheckTimedOut),
        auth_session_validate_error_of_code(6) == Some(AuthSessionValidateError::AuthTicketCancelled),
        auth_session_validate_error_of_code(7) == Some(AuthSessionValidateError::AuthTicketInvalidAlreadyUsed),
        auth_session_validate_error_of_code(8) == Some(AuthSessionValidateError::AuthTicketInvalid),
        auth_session_validate_error_of_code(9) == Some(AuthSessionValidateError::PublisherIssuedBan),
{
}

/// The values of `AuthSessionError::spec_code`, as the Steamworks SDK headers fix them.
pub proof fn lemma_auth_session_error_code_table()
    ensures
        AuthSessionError::InvalidTicket.spec_code() == 1,
        AuthSessionError::DuplicateRequest.spec_code() == 2,
        AuthSessionError::InvalidVersion.spec_code() == 3,
        AuthSessionError::GameMismatch.spec_code() == 4,
        AuthSessionError::ExpiredTicket.spec_code() == 5,
{
}

/// The values of `AuthSessionValidateError::spec_code`, as the Steamworks SDK headers fix them.
pub proof fn lemma_auth_session_validate_error_code_table()
    ensures
        AuthSessionValidateError::UserNotConnectedToSteam.spec_code() == 1,
        AuthSessionValidateError::NoLicenseOrExpired.spec_code() == 2,
        AuthSessionValidateError::VACBanned.spec_code() == 3,
        AuthSessionValidateError::LoggedInElseWhere.spec_code() == 4,
        AuthSessionValidateError::VACCheckTimedOut.spec_code() == 5,
        AuthSessionValidateError::AuthTicketCancelled.spec_code() == 6,
        AuthSessionValidateError::AuthTicketInvalidAlreadyUsed.spec_code() == 7,
        AuthSessionValidateError::AuthTicketInvalid.spec_code() == 8,
        AuthSessionValidateError::PublisherIssuedBan.spec_code() == 9,
{
}

} // verus!
