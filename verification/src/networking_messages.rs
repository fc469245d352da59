//! The decisions of the non-connection-oriented interface to send and
//! receive messages, which works much like UDP: messages go to arbitrary
//! peers, and sessions are established implicitly.

use vstd::prelude::*;

use crate::networking_types::{
    networking_connection_state_of_code, NetConnectionInfo, NetworkingConnectionState,
    NetworkingIdentity,
};

verus! {

/// A peer asks to start a messages session
#[derive(Debug, Clone, Copy)]
pub struct NetworkingMessagesSessionRequest {
    remote: NetworkingIdentity,
}

impl NetworkingMessagesSessionRequest {
    /// The identity of the peer.
    pub closed spec fn view(self) -> NetworkingIdentity {
        self.remote
    }

    /// The request of this peer.
    pub fn new(remote: NetworkingIdentity) -> (r: Self)
        ensures
            r@ == remote,
    {
        NetworkingMessagesSessionRequest { remote }
    }

    /// The identity of the peer.
    pub fn remote(&self) -> (r: NetworkingIdentity)
        ensures
            r == self@,
    {
        self.remote
    }
}

/// A messages session failed
#[derive(Debug, Clone, Copy)]
pub struct NetworkingMessagesSessionFailed {
    pub info: NetConnectionInfo,
}

/// The state of the session with a peer, reading an unknown state code as
/// no state.
pub open spec fn session_state_of_code(code: i32) -> NetworkingConnectionState {
    match networking_connection_state_of_code(code) {
        Some(s) => s,
        None => NetworkingConnectionState::NoState,
    }
}

/// The state of the session with a peer, with its connection information and
/// its real time status when there is a session: both are left out when the
/// state is no state.
pub fn session_connection_info<I, Q>(state_code: i32, info: I, quick_status: Q) -> (r: (
    NetworkingConnectionState,
    Option<I>,
    Option<Q>,
))
    ensures
        r.0 == session_state_of_code(state_code),
        r.0 != NetworkingConnectionState::NoState ==> r.1 == Some(info) && r.2 == Some(
            quick_status,
        ),
        r.0 == NetworkingConnectionState::NoState ==> r.1 is None && r.2 is None,
{
    let state = match NetworkingConnectionState::try_from(state_code) {
        Ok(state) => state,
        Err(_) => NetworkingConnectionState::NoState,
    };
    match state {
        NetworkingConnectionState::NoState => (state, None, None),
        _ => (state, Some(info), Some(quick_status)),
    }
}

/// A `NetworkingMessagesSessionRequest` is its view: two values with the same view are the same value.
pub proof fn lemma_networking_messages_session_request_view_injective(a: NetworkingMessagesSessionRequest, b: NetworkingMessagesSessionRequest)
    ensures
        a@ == b@ <==> a == b,
{
}

/// Whether a peer's session request has been answered, by accepting or by
/// rejecting it. A request that is dropped unanswered is rejected then, so
/// the session is closed once at most.
#[derive(Debug, Clone, Copy, PartialEq, Eq, Structural)]
pub struct SessionAnswer {
    answered: bool,
}

impl SessionAnswer {
    /// Whether the request has been answered.
    pub closed spec fn view(self) -> bool {
        self.answered
    }

    /// A request not yet answered.
    pub fn new() -> (r: Self)
        ensures
            !r@,
    {
        SessionAnswer { answered: false }
    }

    /// Accepting answers the request; nothing is closed.
    pub fn accept(&mut self)
        ensures
            final(self)@,
    {
        self.answered = true;
    }

    /// Rejecting answers the request; the session is to be closed exactly
    /// when the request had not been answered before.
    pub fn reject(&mut self) -> (close: bool)
        ensures
            close == !old(self)@,
            final(self)@,
    {
        let close = !self.answered;
        self.answered = true;
        close
    }

    /// Whether dropping the request closes the session: exactly when it was
    /// never answered.
    pub fn close_on_drop(&self) -> (close: bool)
        ensures
            close == !self@,
    {
        !self.answered
    }
}

} // verus!
