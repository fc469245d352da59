use vstd::prelude::*;

verus! {

/// An id for a remote play session
#[derive(Debug, Clone, Copy, PartialEq, Eq, Hash, Structural)]
pub struct RemotePlaySessionId(pub(crate) u32);

impl RemotePlaySessionId {
    pub closed spec fn view(self) -> u32 {
        self.0
    }

    /// Creates a `RemotePlaySessionId` from a raw 32 bit value.
    ///
    /// May be useful for deserializing remote play session ids from
    /// a network or save format.
    pub fn from_raw(id: u32) -> (r: RemotePlaySessionId)
        ensures
            r@ == id,
    {
        RemotePlaySessionId(id)
    }

    /// Returns the raw 32 bit value of the remote play session id
    ///
    /// May be useful for serializing remote play session ids over a
    /// network or to a save format.
    pub fn raw(&self) -> (r: u32)
        ensures
            r == self@,
    {
        self.0
    }
}

/// The form factor of a remote play client
#[derive(Clone, Copy, Debug, PartialEq, Eq, Structural)]
pub enum SteamDeviceFormFactor {
    Phone,
    Tablet,
    Computer,
    TV,
}

impl SteamDeviceFormFactor {

    /// Converts a `ESteamDeviceFormFactor` code; see `steam_device_form_factor_of_code` for the codes that stand for a value.
    pub fn from_code(code: i32) -> (r: Option<SteamDeviceFormFactor>)
        ensures
            r == steam_device_form_factor_of_code(code),
    {
        match code {
            1 => Some(SteamDeviceFormFactor::Phone),
            2 => Some(SteamDeviceFormFactor::Tablet),
            3 => Some(SteamDeviceFormFactor::Computer),
            4 => Some(SteamDeviceFormFactor::TV),
            _ => None,
        }
    }
}

/// The value that a `ESteamDeviceFormFactor` code stands for, if any.
pub open spec fn steam_device_form_factor_of_code(code: i32) -> Option<SteamDeviceFormFactor> {
    match code {
        1 => Some(SteamDeviceFormFactor::Phone),
        2 => Some(SteamDeviceFormFactor::Tablet),
        3 => Some(SteamDeviceFormFactor::Computer),
        4 => Some(SteamDeviceFormFactor::TV),
        _ => None,
    }
}

/// The ids of the sessions that Steam lists, without the invalid id 0.
pub open spec fn listed_sessions(ids: Seq<u32>) -> Seq<u32> {
    ids.filter(|id: u32| id != 0)
}

/// The sessions among the ids that Steam lists, in order; the invalid id 0 is skipped.
pub fn session_ids(ids: &Vec<u32>) -> (r: Vec<RemotePlaySessionId>)
    ensures
        r@.map_values(|s: RemotePlaySessionId| s@) == listed_sessions(ids@),
{
    let mut out: Vec<RemotePlaySessionId> = Vec::new();
    let mut i: usize = 0;
    while i < ids.len()
        invariant
            i <= ids@.len(),
            out@.map_values(|s: RemotePlaySessionId| s@) == listed_sessions(ids@.subrange(0, i as int)),
        decreases ids@.len() - i,
    {
        let id = ids[i];
        let ghost before = out@;
        proof {
            reveal_with_fuel(Seq::filter, 1);
            assert(ids@.subrange(0, i + 1).drop_last() =~= ids@.subrange(0, i as int));
        }
        if id != 0 {
            out.push(RemotePlaySessionId::from_raw(id));
            assert(out@.map_values(|s: RemotePlaySessionId| s@) =~= before.map_values(
                |s: RemotePlaySessionId| s@,
            ).push(id));
        }
        i = i + 1;
    }
    assert(ids@.subrange(0, ids@.len() as int) =~= ids@);
    out
}

/// The resolution of a client, when Steam reports one.
pub fn client_resolution_of(known: bool, width: i32, height: i32) -> (r: Option<(u32, u32)>)
    ensures
        known ==> r == Some((width as u32, height as u32)),
        !known ==> r is None,
{
    if known {
        Some((width as u32, height as u32))
    } else {
        None
    }
}

/// Called when a remote play session connects
#[derive(Clone, Debug)]
pub struct RemotePlayConnected {
    pub session: RemotePlaySessionId,
}

/// Called when a remote play session disconnects
#[derive(Clone, Debug)]
pub struct RemotePlayDisconnected {
    pub session: RemotePlaySessionId,
}

/// A `RemotePlaySessionId` is its view: two values with the same view are the same value.
pub proof fn lemma_remote_play_session_id_view_injective(a: RemotePlaySessionId, b: RemotePlaySessionId)
    ensures
        a@ == b@ <==> a == b,
{
}

/// The values of `steam_device_form_factor_of_code`, as the Steamworks SDK headers fix them.
pub proof fn lemma_steam_device_form_factor_of_code_table()
    ensures
        steam_device_form_factor_of_code(1) == Some(SteamDeviceFormFactor::Phone),
        steam_device_form_factor_of_code(2) == Some(SteamDeviceFormFactor::Tablet),
        steam_device_form_factor_of_code(3) == Some(SteamDeviceFormFactor::Computer),
        steam_device_form_factor_of_code(4) == Some(SteamDeviceFormFactor::TV),
{
}

} // verus!
