use vstd::prelude::*;
use vstd::string::StringSliceAdditionalSpecFns;

verus! {

/// How a server list request completed
#[derive(Debug, Copy, Clone, Hash, PartialEq, Eq, Structural)]
pub enum ServerResponse {
    ServerResponded,
    ServerFailedToRespond,
    NoServersListedOnMasterServer,
}

impl ServerResponse {
    /// The `EMatchMakingServerResponse` code of the value.
    pub open spec fn spec_code(self) -> u32 {
        match self {
            ServerResponse::ServerResponded => 0,
            ServerResponse::ServerFailedToRespond => 1,
            ServerResponse::NoServersListedOnMasterServer => 2,
        }
    }

    /// The `EMatchMakingServerResponse` code of the value.
    pub fn code(&self) -> (r: u32)
        ensures
            r == self.spec_code(),
    {
        match self {
            ServerResponse::ServerResponded => 0,
            ServerResponse::ServerFailedToRespond => 1,
            ServerResponse::NoServersListedOnMasterServer => 2,
        }
    }

    /// The value of a code, if the code stands for one; see `server_response_of_code`.
    pub fn try_from_code(code: u32) -> (r: Option<ServerResponse>)
        ensures
            r == server_response_of_code(code),
    {
        match code {
            0 => Some(ServerResponse::ServerResponded),
            1 => Some(ServerResponse::ServerFailedToRespond),
            2 => Some(ServerResponse::NoServersListedOnMasterServer),
            _ => None,
        }
    }

    /// Converts a `EMatchMakingServerResponse` code; only the codes of
    /// `server_response_of_code` stand for a value.
    pub fn from_code(code: u32) -> (r: ServerResponse)
        requires
            server_response_of_code(code) is Some,
        ensures
            server_response_of_code(code) == Some(r),
    {
        match code {
            0 => ServerResponse::ServerResponded,
            1 => ServerResponse::ServerFailedToRespond,
            _ => ServerResponse::NoServersListedOnMasterServer,
        }
    }
}

/// The value that a `EMatchMakingServerResponse` code stands for, if any.
pub open spec fn server_response_of_code(code: u32) -> Option<ServerResponse> {
    match code {
        0 => Some(ServerResponse::ServerResponded),
        1 => Some(ServerResponse::ServerFailedToRespond),
        2 => Some(ServerResponse::NoServersListedOnMasterServer),
        _ => None,
    }
}

/// Codes of `ServerResponse` are distinct: each value's code converts back to
/// that value, and a code that converts to a value is that value's code.
pub proof fn lemma_server_response_code_roundtrip(v: ServerResponse, code: u32)
    ensures
        server_response_of_code(v.spec_code()) == Some(v),
        server_response_of_code(code) == Some(v) ==> v.spec_code() == code,
{
}

/// Why a server list request could not be released
#[derive(Debug, Copy, Clone, Hash, PartialEq, Eq, Structural)]
pub enum ReleaseError {
    /// Further using methods on this request after `release`
    /// called will always result in `Err(ReleseError::Released)`.
    Released,
    /// Due to wrapper limitations releasing request while query
    /// is still refreshing (`is_refreshing()`) is impossible.
    /// `Err(ReleaseError::Refreshing)` will be returned.
    Refreshing,
}

/// Whether a server list request has been released. Once released, a
/// request stays released, and every further use of it is refused.
#[derive(Debug, Copy, Clone, PartialEq, Eq, Structural)]
pub struct ServerListRequestState {
    released: bool,
}

impl ServerListRequestState {
    /// Whether the request has been released.
    pub closed spec fn view(self) -> bool {
        self.released
    }

    /// A request that has not been released.
    pub fn new() -> (r: Self)
        ensures
            !r@,
    {
        ServerListRequestState { released: false }
    }

    /// Whether the request has been released.
    pub fn is_released(&self) -> (r: bool)
        ensures
            r == self@,
    {
        self.released
    }

    /// Releases the request: refused for a request that is released
    /// already, and for one whose query is still refreshing (the request
    /// then stays as it was); otherwise the request is released.
    pub fn release(&mut self, refreshing: bool) -> (r: Result<(), ReleaseError>)
        ensures
            (r, final(self)@) == release_outcome(old(self)@, refreshing),
    {
        if self.released {
            return Err(ReleaseError::Released);
        }
        if refreshing {
            return Err(ReleaseError::Refreshing);
        }
        self.released = true;
        Ok(())
    }

    /// Whether the request may still be used: an error once it has been released.
    pub fn check_live(&self) -> (r: Result<(), ()>)
        ensures
            r is Err <==> self@,
    {
        if self.released {
            Err(())
        } else {
            Ok(())
        }
    }
}

/// What releasing a request gives, and whether it is released afterwards:
/// refused as `Released` for a released request, refused as `Refreshing`
/// while its query refreshes, and done otherwise.
pub open spec fn release_outcome(released: bool, refreshing: bool) -> (Result<(), ReleaseError>, bool) {
    if released {
        (Err(ReleaseError::Released), true)
    } else if refreshing {
        (Err(ReleaseError::Refreshing), false)
    } else {
        (Ok(()), true)
    }
}

/// Once a release succeeds, the request is released for good: every later
/// release is refused as `Released` and leaves it released, whatever its
/// query does.
pub proof fn lemma_release_is_final(released: bool, refreshing: bool, later: bool)
    ensures
        release_outcome(released, refreshing).0 is Ok ==> release_outcome(released, refreshing).1,
        release_outcome(true, later) == (Err::<(), ReleaseError>(ReleaseError::Released), true),
{
}

/// The size of a filter key or value buffer, NUL included.
pub const FILTER_FIELD_LEN: usize = 256;

/// A filter key or value in its fixed buffer: the bytes, padded with NULs
/// to 256 bytes.
pub open spec fn filter_field(bytes: Seq<u8>) -> Seq<u8> {
    bytes + Seq::new((256 - bytes.len()) as nat, |i: int| 0u8)
}

/// The fixed buffer of a filter key or value; none when it takes 256 bytes
/// or more, leaving no room for the NUL that ends it.
pub fn encode_filter_field(s: &str) -> (r: Option<Vec<u8>>)
    ensures
        s.spec_bytes().len() >= 256 <==> r is None,
        r matches Some(v) ==> v@ == filter_field(s.spec_bytes()),
{
    let bytes = s.as_bytes();
    if bytes.len() >= FILTER_FIELD_LEN {
        return None;
    }
    let mut v = vstd::slice::slice_to_vec(bytes);
    while v.len() < FILTER_FIELD_LEN
        invariant
            bytes@.len() <= v@.len() <= 256,
            v@ == bytes@ + Seq::new((v@.len() - bytes@.len()) as nat, |i: int| 0u8),
        decreases 256 - v@.len(),
    {
        v.push(0u8);
        assert(v@ =~= bytes@ + Seq::new((v@.len() - bytes@.len()) as nat, |i: int| 0u8));
    }
    Some(v)
}

/// Whether a filter key and value both fit their buffers.
pub open spec fn filter_fits(key: Seq<u8>, value: Seq<u8>) -> bool {
    key.len() < 256 && value.len() < 256
}

/// The buffers of server list filters, in order; an error when any key or
/// value takes 256 bytes or more.
pub fn encode_filters(filters: &Vec<(&str, &str)>) -> (r: Result<Vec<(Vec<u8>, Vec<u8>)>, ()>)
    ensures
        r is Ok <==> forall|i: int|
            0 <= i < filters@.len() ==> #[trigger] filter_fits(
                filters@[i].0.spec_bytes(),
                filters@[i].1.spec_bytes(),
            ),
        r matches Ok(v) ==> v@.len() == filters@.len() && forall|i: int|
            0 <= i < filters@.len() ==> #[trigger] v@[i].0@ == filter_field(
                filters@[i].0.spec_bytes(),
            ) && v@[i].1@ == filter_field(filters@[i].1.spec_bytes()),
{
    let mut out: Vec<(Vec<u8>, Vec<u8>)> = Vec::new();
    let mut i: usize = 0;
    while i < filters.len()
        invariant
            i <= filters@.len(),
            out@.len() == i,
            forall|j: int|
                0 <= j < i ==> #[trigger] filter_fits(
                    filters@[j].0.spec_bytes(),
                    filters@[j].1.spec_bytes(),
                ),
            forall|j: int|
                0 <= j < i ==> #[trigger] out@[j].0@ == filter_field(filters@[j].0.spec_bytes())
                    && out@[j].1@ == filter_field(filters@[j].1.spec_bytes()),
        decreases filters@.len() - i,
    {
        let (key, value) = filters[i];
        let k = encode_filter_field(key);
        let v = encode_filter_field(value);
        match (k, v) {
            (Some(k), Some(v)) => {
                out.push((k, v));
            },
            _ => {
                assert(!filter_fits(filters@[i as int].0.spec_bytes(), filters@[i as int].1.spec_bytes()));
                return Err(());
            },
        }
        i = i + 1;
    }
    Ok(out)
}

/// A `ServerListRequestState` is its view: two values with the same view are the same value.
pub proof fn lemma_server_list_request_state_view_injective(a: ServerListRequestState, b: ServerListRequestState)
    ensures
        a@ == b@ <==> a == b,
{
}

/// The values of `server_response_of_code`, as the Steamworks SDK headers fix them.
pub proof fn lemma_server_response_of_code_table()
    ensures
        server_response_of_code(0) == Some(ServerResponse::ServerResponded),
        server_response_of_code(1) == Some(ServerResponse::ServerFailedToRespond),
        server_response_of_code(2) == Some(ServerResponse::NoServersListedOnMasterServer),
{
}

/// The values of `ServerResponse::spec_code`, as the Steamworks SDK headers fix them.
pub proof fn lemma_server_response_code_table()
    ensures
        ServerResponse::ServerResponded.spec_code() == 0,
        ServerResponse::ServerFailedToRespond.spec_code() == 1,
        ServerResponse::NoServersListedOnMasterServer.spec_code() == 2,
{
}

} // verus!
