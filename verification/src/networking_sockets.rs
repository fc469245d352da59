use vstd::prelude::*;

use crate::error::{error_of_code, SteamError, RESULT_OK};
use crate::networking_types::{InvalidConnectionState, MessageNumber, NetworkingConnectionState};

verus! {

/// An operation was unsuccessful: an invalid handle was returned.
#[derive(Debug, Clone, Copy, PartialEq, Eq, Structural)]
pub struct InvalidHandle;

impl InvalidHandle {
    /// The human readable description of the error.
    pub fn to_string(&self) -> (s: String)
        ensures
            s@ == "operation was unsuccessful an invalid handle was returned"@,
    {
        String::from_str("operation was unsuccessful an invalid handle was returned")
    }
}

/// The invalid listen socket, connection and poll group handle.
pub const INVALID_HANDLE: u32 = 0;

/// A handle that Steam returned for a new listen socket or connection: an
/// error for the invalid handle.
pub fn checked_handle(handle: u32) -> (r: Result<u32, InvalidHandle>)
    ensures
        handle == INVALID_HANDLE ==> r == Err::<u32, InvalidHandle>(InvalidHandle),
        handle != INVALID_HANDLE ==> r == Ok::<u32, InvalidHandle>(handle),
{
    if handle == INVALID_HANDLE {
        Err(InvalidHandle)
    } else {
        Ok(handle)
    }
}

/// The outcome of an operation on a connection that Steam reports as done
/// or not: not done means the handle was invalid.
pub fn handle_operation(was_successful: bool) -> (r: Result<(), InvalidHandle>)
    ensures
        was_successful ==> r == Ok::<(), InvalidHandle>(()),
        !was_successful ==> r == Err::<(), InvalidHandle>(InvalidHandle),
{
    if was_successful {
        Ok(())
    } else {
        Err(InvalidHandle)
    }
}

/// The user data of a connection: Steam reports `-1` for an invalid handle.
pub fn connection_user_data_of(user_data: i64) -> (r: Result<i64, InvalidHandle>)
    ensures
        user_data == -1 ==> r == Err::<i64, InvalidHandle>(InvalidHandle),
        user_data != -1 ==> r == Ok::<i64, InvalidHandle>(user_data),
{
    if user_data == -1 {
        Err(InvalidHandle)
    } else {
        Ok(user_data)
    }
}

/// The outcome of sending one message on a connection: its message number
/// when the result code is OK, the error of the code otherwise.
pub fn sent_message_result(result: i64, message_number: i64) -> (r: Result<MessageNumber, SteamError>)
    requires
        result == RESULT_OK || error_of_code(result) is Some,
    ensures
        result == RESULT_OK ==> (r matches Ok(n) && n@ == message_number as u64),
        result != RESULT_OK ==> r == Err::<MessageNumber, SteamError>(
            error_of_code(result).unwrap(),
        ),
{
    if result == RESULT_OK {
        Ok(MessageNumber::from_raw(message_number as u64))
    } else {
        Err(SteamError::from_result_code(result))
    }
}

/// Whether a connection event that no listener could take is to be
/// answered by closing the connection: so it is for a new connection that
/// is still connecting on a listen socket, since nobody can accept it.
pub fn should_reject_connection(
    delivered: bool,
    on_listen_socket: bool,
    state: Result<NetworkingConnectionState, InvalidConnectionState>,
) -> (r: bool)
    ensures
        r <==> (!delivered && on_listen_socket && state == Ok::<
            NetworkingConnectionState,
            InvalidConnectionState,
        >(NetworkingConnectionState::Connecting)),
{
    if delivered || !on_listen_socket {
        return false;
    }
    match state {
        Ok(NetworkingConnectionState::Connecting) => true,
        _ => false,
    }
}

} // verus!
