use vstd::prelude::*;

use crate::ids::SteamId;

verus! {

/// The method used to send a packet
#[derive(Clone, Copy, Debug, PartialEq, Eq, Structural)]
pub enum SendType {
    /// Send the packet directly over udp.
    /// 
    /// Can't be larger than 1200 bytes
    Unreliable,
    /// Like `Unreliable` but doesn't buffer packets
    /// sent before the connection has started.
    UnreliableNoDelay,
    /// Reliable packet sending.
    /// 
    /// Can't be larger than 1 megabyte.
    Reliable,
    /// Like `Reliable` but applies the nagle
    /// algorithm to packets being sent
    ReliableWithBuffering,
}

impl SendType {
    /// The `EP2PSend` code of the value.
    pub open spec fn spec_code(self) -> i32 {
        match self {
            SendType::Unreliable => 0,
            SendType::UnreliableNoDelay => 1,
            SendType::Reliable => 2,
            SendType::ReliableWithBuffering => 3,
        }
    }

    /// The `EP2PSend` code of the value.
    pub fn code(&self) -> (r: i32)
        ensures
            r == self.spec_code(),
    {
        match self {
            SendType::Unreliable => 0,
            SendType::UnreliableNoDelay => 1,
            SendType::Reliable => 2,
            SendType::ReliableWithBuffering => 3,
        }
    }
}

/// Errors that a P2P session can report.
#[derive(Clone, Copy, Debug, PartialEq, Eq, Hash, Structural)]
pub enum P2PSessionError {
    /// No error (code 0).
    NoError,
    /// Code 1; for privacy reasons, there is no error if the remote user is playing another game.
    NotRunningApp,
    /// Code 2: the local user doesn't own the app that is running.
    NoRightsToApp,
    /// Code 3; for privacy reasons, there is no error if the remote user is offline.
    NotLoggedIn,
    /// Code 4: the target isn't responding, perhaps not calling AcceptP2PSessionWithUser().
    Timeout,
    /// Any other code.
    Unknown(u8),
}

/// The session error that a code stands for.
pub open spec fn p2p_session_error_of_code(code: u8) -> P2PSessionError {
    match code {
        0 => P2PSessionError::NoError,
        1 => P2PSessionError::NotRunningApp,
        2 => P2PSessionError::NoRightsToApp,
        3 => P2PSessionError::NotLoggedIn,
        4 => P2PSessionError::Timeout,
        other => P2PSessionError::Unknown(other),
    }
}

/// The code of a session error.
pub open spec fn code_of_p2p_session_error(e: P2PSessionError) -> u8 {
    match e {
        P2PSessionError::NoError => 0,
        P2PSessionError::NotRunningApp => 1,
        P2PSessionError::NoRightsToApp => 2,
        P2PSessionError::NotLoggedIn => 3,
        P2PSessionError::Timeout => 4,
        P2PSessionError::Unknown(code) => code,
    }
}

impl From<u8> for P2PSessionError {
    fn from(value: u8) -> (r: Self) {
        match value {
            0 => P2PSessionError::NoError,
            1 => P2PSessionError::NotRunningApp,
            2 => P2PSessionError::NoRightsToApp,
            3 => P2PSessionError::NotLoggedIn,
            4 => P2PSessionError::Timeout,
            other => P2PSessionError::Unknown(other),
        }
    }
}

impl vstd::std_specs::convert::FromSpecImpl<u8> for P2PSessionError {
    open spec fn obeys_from_spec() -> bool {
        true
    }

    open spec fn from_spec(value: u8) -> P2PSessionError {
        p2p_session_error_of_code(value)
    }
}

impl From<P2PSessionError> for u8 {
    fn from(error: P2PSessionError) -> (r: u8) {
        match error {
            P2PSessionError::NoError => 0,
            P2PSessionError::NotRunningApp => 1,
            P2PSessionError::NoRightsToApp => 2,
            P2PSessionError::NotLoggedIn => 3,
            P2PSessionError::Timeout => 4,
            P2PSessionError::Unknown(code) => code,
        }
    }
}

impl vstd::std_specs::convert::FromSpecImpl<P2PSessionError> for u8 {
    open spec fn obeys_from_spec() -> bool {
        true
    }

    open spec fn from_spec(error: P2PSessionError) -> u8 {
        code_of_p2p_session_error(error)
    }
}

/// Every code survives the trip through `P2PSessionError` unchanged, and so
/// does every error except `Unknown` of a code that has its own variant.
pub proof fn lemma_p2p_session_error_roundtrip(code: u8, e: P2PSessionError)
    ensures
        code_of_p2p_session_error(p2p_session_error_of_code(code)) == code,
        !(e matches P2PSessionError::Unknown(c) && c <= 4) ==> p2p_session_error_of_code(
            code_of_p2p_session_error(e),
        ) == e,
{
}

/// The state of a P2P session with a user.
#[derive(Clone, Debug)]
pub struct P2PSessionState {
    pub connection_active: bool,
    pub connecting: bool,
    pub error: P2PSessionError,
    pub using_relay: bool,
    pub bytes_queued_for_send: i32,
    pub packets_queued_for_send: i32,
    pub remote_ip: u32,
    pub remote_port: u16,
}

impl P2PSessionState {
    /// Builds the state from the raw `P2PSessionState_t` fields; a flag byte is set when non-zero.
    pub fn from_raw_fields(
        connection_active: u8,
        connecting: u8,
        error: u8,
        using_relay: u8,
        bytes_queued_for_send: i32,
        packets_queued_for_send: i32,
        remote_ip: u32,
        remote_port: u16,
    ) -> (r: Self)
        ensures
            r.connection_active == (connection_active != 0),
            r.connecting == (connecting != 0),
            r.error == p2p_session_error_of_code(error),
            r.using_relay == (using_relay != 0),
            r.bytes_queued_for_send == bytes_queued_for_send,
            r.packets_queued_for_send == packets_queued_for_send,
            r.remote_ip == remote_ip,
            r.remote_port == remote_port,
    {
        P2PSessionState {
            connection_active: connection_active != 0,
            connecting: connecting != 0,
            error: P2PSessionError::from(error),
            using_relay: using_relay != 0,
            bytes_queued_for_send,
            packets_queued_for_send,
            remote_ip,
            remote_port,
        }
    }
}

/// Called when a user wants to connect via P2P
#[derive(Clone, Debug)]
pub struct P2PSessionRequest {
    /// The steam ID of the user requesting a p2p
    /// session
    pub remote: SteamId,
}

#[derive(Clone, Debug)]
pub struct P2PSessionConnectFail {
    pub remote: SteamId,
    pub error: u8,
}

/// The values of `p2p_session_error_of_code`, as the Steamworks SDK headers fix them.
pub proof fn lemma_p2p_session_error_of_code_table()
    ensures
        p2p_session_error_of_code(0) == P2PSessionError::NoError,
        p2p_session_error_of_code(1) == P2PSessionError::NotRunningApp,
        p2p_session_error_of_code(2) == P2PSessionError::NoRightsToApp,
        p2p_session_error_of_code(3) == P2PSessionError::NotLoggedIn,
        p2p_session_error_of_code(4) == P2PSessionError::Timeout,
{
}

/// The values of `code_of_p2p_session_error`, as the Steamworks SDK headers fix them.
pub proof fn lemma_code_of_p2p_session_error_table()
    ensures
        code_of_p2p_session_error(P2PSessionError::NoError) == 0,
        code_of_p2p_session_error(P2PSessionError::NotRunningApp) == 1,
        code_of_p2p_session_error(P2PSessionError::NoRightsToApp) == 2,
        code_of_p2p_session_error(P2PSessionError::NotLoggedIn) == 3,
        code_of_p2p_session_error(P2PSessionError::Timeout) == 4,
{
}

/// The values of `SendType::spec_code`, as the Steamworks SDK headers fix them.
pub proof fn lemma_send_type_code_table()
    ensures
        SendType::Unreliable.spec_code() == 0,
        SendType::UnreliableNoDelay.spec_code() == 1,
        SendType::Reliable.spec_code() == 2,
        SendType::ReliableWithBuffering.spec_code() == 3,
{
}

} // verus!
