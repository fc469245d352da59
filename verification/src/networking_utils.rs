use vstd::prelude::*;

use crate::networking_types::{
    availability_of_code, NetworkingAvailability, NetworkingAvailabilityResult,
};

verus! {

/// The status of the relay network
pub struct RelayNetworkStatus {
    availability: NetworkingAvailabilityResult,
    is_ping_measurement_in_progress: bool,
    network_config: NetworkingAvailabilityResult,
    any_relay: NetworkingAvailabilityResult,
    debugging_message: String,
}

impl RelayNetworkStatus {
    /// The summary status.
    pub closed spec fn spec_availability(self) -> NetworkingAvailabilityResult {
        self.availability
    }

    /// Whether latency measurement is in progress.
    pub closed spec fn spec_ping_measurement_in_progress(self) -> bool {
        self.is_ping_measurement_in_progress
    }

    /// The status of obtaining the network config.
    pub closed spec fn spec_network_config(self) -> NetworkingAvailabilityResult {
        self.network_config
    }

    /// The ability to communicate with any relay.
    pub closed spec fn spec_any_relay(self) -> NetworkingAvailabilityResult {
        self.any_relay
    }

    /// The debugging message.
    pub closed spec fn spec_debugging_message(self) -> Seq<char> {
        self.debugging_message@
    }

    /// The status with the raw fields of `SteamRelayNetworkStatus_t`: three
    /// availability codes, the ping measurement flag and the message.
    pub fn from_raw_fields(
        avail: i32,
        ping_measurement_in_progress: i32,
        avail_network_config: i32,
        avail_any_relay: i32,
        debugging_message: String,
    ) -> (r: Self)
        requires
            availability_of_code(avail) is Some,
            availability_of_code(avail_network_config) is Some,
            availability_of_code(avail_any_relay) is Some,
        ensures
            Some(r.spec_availability()) == availability_of_code(avail),
            Some(r.spec_network_config()) == availability_of_code(avail_network_config),
            Some(r.spec_any_relay()) == availability_of_code(avail_any_relay),
            r.spec_ping_measurement_in_progress() == (ping_measurement_in_progress != 0),
            r.spec_debugging_message() == debugging_message@,
    {
        RelayNetworkStatus {
            availability: NetworkingAvailability::try_from_code(avail),
            is_ping_measurement_in_progress: ping_measurement_in_progress != 0,
            network_config: NetworkingAvailability::try_from_code(avail_network_config),
            any_relay: NetworkingAvailability::try_from_code(avail_any_relay),
            debugging_message,
        }
    }

    /// Summary status.  When this is "current", initialization has
    /// completed.  Anything else means you are not ready yet, or
    /// there is a significant problem.
    pub fn availability(&self) -> (r: NetworkingAvailabilityResult)
        ensures
            r == self.spec_availability(),
    {
        self.availability
    }

    /// True if latency measurement is in progress (or pending, awaiting a prerequisite).
    pub fn is_ping_measurement_in_progress(&self) -> (r: bool)
        ensures
            r == self.spec_ping_measurement_in_progress(),
    {
        self.is_ping_measurement_in_progress
    }

    /// Status obtaining the network config.  This is a prerequisite
    /// for relay network access.
    ///
    /// Failure to obtain the network config almost always indicates
    /// a problem with the local internet connection.
    pub fn network_config(&self) -> (r: NetworkingAvailabilityResult)
        ensures
            r == self.spec_network_config(),
    {
        self.network_config
    }

    /// Current ability to communicate with ANY relay.  Note that
    /// the complete failure to communicate with any relays almost
    /// always indicates a problem with the local Internet connection.
    /// (However, just because you can reach a single relay doesn't
    /// mean that the local connection is in perfect health.)
    pub fn any_relay(&self) -> (r: NetworkingAvailabilityResult)
        ensures
            r == self.spec_any_relay(),
    {
        self.any_relay
    }

    /// Non-localized English language status.  For diagnostic/debugging
    /// purposes only.
    pub fn debugging_message(&self) -> (r: &str)
        ensures
            r@ == self.spec_debugging_message(),
    {
        self.debugging_message.as_str()
    }
}

/// The relay network status callback.
pub struct RelayNetworkStatusCallback {
    status: RelayNetworkStatus,
}

impl RelayNetworkStatusCallback {
    /// The status that the callback carries.
    pub closed spec fn view(self) -> RelayNetworkStatus {
        self.status
    }

    /// The callback carrying this status.
    pub fn new(status: RelayNetworkStatus) -> (r: Self)
        ensures
            r@ == status,
    {
        RelayNetworkStatusCallback { status }
    }

    /// The status that the callback carries.
    pub fn into_status(self) -> (r: RelayNetworkStatus)
        ensures
            r == self@,
    {
        self.status
    }
}

/// A `RelayNetworkStatusCallback` is its view: two values with the same view are the same value.
pub proof fn lemma_relay_network_status_callback_view_injective(a: RelayNetworkStatusCallback, b: RelayNetworkStatusCallback)
    ensures
        a@ == b@ <==> a == b,
{
}

} // verus!
