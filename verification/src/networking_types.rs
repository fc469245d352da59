//! Types that are used by both `networking_sockets` and `networking_messages`.

use vstd::prelude::*;

use crate::bits::lemma_flag_bits_i32;
use crate::error::{error_of_code, SteamError};
use crate::ids::SteamId;
use crate::text::{decimal, push_decimal};

verus! {

#[derive(Debug, Copy, Clone, Eq, PartialEq, Ord, PartialOrd, Hash)]
pub struct MessageNumber(pub(crate) u64);

impl MessageNumber {
    pub closed spec fn view(self) -> u64 {
        self.0
    }

    /// The message number with this raw value.
    pub fn from_raw(number: u64) -> (r: Self)
        ensures
            r@ == number,
    {
        MessageNumber(number)
    }
}

impl From<MessageNumber> for u64 {
    fn from(number: MessageNumber) -> (r: u64) {
        number.0
    }
}

impl vstd::std_specs::convert::FromSpecImpl<MessageNumber> for u64 {
    open spec fn obeys_from_spec() -> bool {
        true
    }

    open spec fn from_spec(number: MessageNumber) -> u64 {
        number@
    }
}

/// How a message is sent (`k_nSteamNetworkingSend_*` bits).
#[derive(PartialEq, Eq, PartialOrd, Ord, Hash, Debug, Clone, Copy, Structural)]
pub struct SendFlags(i32);

impl SendFlags {
    #[allow(non_snake_case)]
    pub fn UNRELIABLE() -> (r: SendFlags)
        ensures
            r@ == 0i32,
    {
        SendFlags(0i32)
    }

    #[allow(non_snake_case)]
    pub fn NO_NAGLE() -> (r: SendFlags)
        ensures
            r@ == 1i32,
    {
        SendFlags(1i32)
    }

    #[allow(non_snake_case)]
    pub fn UNRELIABLE_NO_NAGLE() -> (r: SendFlags)
        ensures
            r@ == 1i32,
    {
        SendFlags(1i32)
    }

    #[allow(non_snake_case)]
    pub fn NO_DELAY() -> (r: SendFlags)
        ensures
            r@ == 4i32,
    {
        SendFlags(4i32)
    }

    #[allow(non_snake_case)]
    pub fn UNRELIABLE_NO_DELAY() -> (r: SendFlags)
        ensures
            r@ == 5i32,
    {
        SendFlags(5i32)
    }

    #[allow(non_snake_case)]
    pub fn RELIABLE() -> (r: SendFlags)
        ensures
            r@ == 8i32,
    {
        SendFlags(8i32)
    }

    #[allow(non_snake_case)]
    pub fn RELIABLE_NO_NAGLE() -> (r: SendFlags)
        ensures
            r@ == 9i32,
    {
        SendFlags(9i32)
    }

    #[allow(non_snake_case)]
    pub fn USE_CURRENT_THREAD() -> (r: SendFlags)
        ensures
            r@ == 16i32,
    {
        SendFlags(16i32)
    }

    #[allow(non_snake_case)]
    pub fn AUTO_RESTART_BROKEN_SESSION() -> (r: SendFlags)
        ensures
            r@ == 32i32,
    {
        SendFlags(32i32)
    }

    /// The bits of every flag that the type names.
    pub open spec fn all_bits() -> i32 {
        0x3Di32
    }

    /// The bits of this flag set.
    pub closed spec fn view(self) -> i32 {
        self.0
    }

    /// The flag set with no flag.
    pub fn empty() -> (r: Self)
        ensures
            r@ == 0,
    {
        SendFlags(0)
    }

    /// The flag set with every flag that the type names.
    pub fn all() -> (r: Self)
        ensures
            r@ == Self::all_bits(),
    {
        SendFlags(0x3Di32)
    }

    /// The bits of this flag set.
    pub fn bits(&self) -> (r: i32)
        ensures
            r == self@,
    {
        self.0
    }

    /// The flag set with exactly these bits, if each of them is a named flag.
    pub fn from_bits(bits: i32) -> (r: Option<Self>)
        ensures
            r is Some <==> bits & !Self::all_bits() == 0,
            r matches Some(f) ==> f@ == bits,
    {
        if bits & !0x3Di32 == 0 {
            Some(SendFlags(bits))
        } else {
            None
        }
    }

    /// The flag set with the named flags among these bits; other bits are dropped.
    pub fn from_bits_truncate(bits: i32) -> (r: Self)
        ensures
            r@ == bits & Self::all_bits(),
    {
        SendFlags(bits & 0x3Di32)
    }

    /// The flag set with exactly these bits, named or not.
    pub fn from_bits_retain(bits: i32) -> (r: Self)
        ensures
            r@ == bits,
    {
        SendFlags(bits)
    }

    /// Whether no bit is set.
    pub fn is_empty(&self) -> (r: bool)
        ensures
            r == (self@ == 0),
    {
        self.0 == 0
    }

    /// Whether every named flag is set.
    pub fn is_all(&self) -> (r: bool)
        ensures
            r == (self@ & Self::all_bits() == Self::all_bits()),
    {
        self.0 & 0x3Di32 == 0x3Di32
    }

    /// Whether every bit of `other` is set in this set.
    pub fn contains(&self, other: Self) -> (r: bool)
        ensures
            r == (self@ & other@ == other@),
    {
        self.0 & other.0 == other.0
    }

    /// Whether this set and `other` share a bit.
    pub fn intersects(&self, other: Self) -> (r: bool)
        ensures
            r == (self@ & other@ != 0),
    {
        self.0 & other.0 != 0
    }

    /// Sets the bits of `other`.
    pub fn insert(&mut self, other: Self)
        ensures
            final(self)@ == old(self)@ | other@,
    {
        self.0 = self.0 | other.0;
    }

    /// Clears the bits of `other`.
    pub fn remove(&mut self, other: Self)
        ensures
            final(self)@ == old(self)@ & !other@,
    {
        self.0 = self.0 & !other.0;
    }

    /// The bits set in either set.
    pub fn union(self, other: Self) -> (r: Self)
        ensures
            r@ == self@ | other@,
    {
        SendFlags(self.0 | other.0)
    }

    /// The bits set in both sets.
    pub fn intersection(self, other: Self) -> (r: Self)
        ensures
            r@ == self@ & other@,
    {
        SendFlags(self.0 & other.0)
    }

    /// The bits set in this set and not in `other`.
    pub fn difference(self, other: Self) -> (r: Self)
        ensures
            r@ == self@ & !other@,
    {
        SendFlags(self.0 & !other.0)
    }
}

/// The laws of `SendFlags`: an inserted set is contained afterwards, a
/// removed set no longer intersects, union is commutative and contains
/// both operands, and truncated bits always form a valid flag set, which
/// truncation leaves unchanged.
pub proof fn lemma_send_flags_laws(a: SendFlags, b: SendFlags, bits: i32)
    ensures
        (a@ | b@) & b@ == b@,
        (a@ | b@) & a@ == a@,
        (a@ & !b@) & b@ == 0,
        a@ | b@ == b@ | a@,
        (bits & SendFlags::all_bits()) & !SendFlags::all_bits() == 0,
        (bits & SendFlags::all_bits()) & SendFlags::all_bits() == bits & SendFlags::all_bits(),
{
    lemma_flag_bits_i32(a@, b@, bits, SendFlags::all_bits());
}

#[derive(Debug, Copy, Clone, Eq, PartialEq, Structural)]
pub enum NetworkingConfigDataType {
    Int32,
    Int64,
    Float,
    String,
    Callback,
}

impl NetworkingConfigDataType {
    /// The `ESteamNetworkingConfigDataType` code of the value.
    pub open spec fn spec_code(self) -> i32 {
        match self {
            NetworkingConfigDataType::Int32 => 1,
            NetworkingConfigDataType::Int64 => 2,
            NetworkingConfigDataType::Float => 3,
            NetworkingConfigDataType::String => 4,
            NetworkingConfigDataType::Callback => 5,
        }
    }

    /// The `ESteamNetworkingConfigDataType` code of the value.
    pub fn code(&self) -> (r: i32)
        ensures
            r == self.spec_code(),
    {
        match self {
            NetworkingConfigDataType::Int32 => 1,
            NetworkingConfigDataType::Int64 => 2,
            NetworkingConfigDataType::Float => 3,
            NetworkingConfigDataType::String => 4,
            NetworkingConfigDataType::Callback => 5,
        }
    }
}

#[derive(Debug, Copy, Clone, Eq, PartialEq, Structural)]
pub enum NetworkingConfigValue {
    /// [global float, 0--100] Randomly discard N pct of packets instead of sending/recv
    /// This is a global option only, since it is applied at a low level
    /// where we don't have much context
    FakePacketLossSend,
    FakePacketLossRecv,
    /// [global int32].  Delay all outbound/inbound packets by N ms
    FakePacketLagSend,
    FakePacketLagRecv,
    /// [global float] 0-100 Percentage of packets we will add additional delay
    /// to (causing them to be reordered)
    FakePacketReorderSend,
    FakePacketReorderRecv,
    /// [global int32] Extra delay, in ms, to apply to reordered packets.
    FakePacketReorderTime,
    /// [global float 0--100] Globally duplicate some percentage of packets we send
    FakePacketDupSend,
    FakePacketDupRecv,
    /// [global int32] Amount of delay, in ms, to delay duplicated packets.
    /// (We chose a random delay between 0 and this value)
    FakePacketDupTimeMax,
    /// [connection int32] Timeout value (in ms) to use when first connecting
    TimeoutInitial,
    /// [connection int32] Timeout value (in ms) to use after connection is established
    TimeoutConnected,
    /// [connection int32] Upper limit of buffered pending bytes to be sent,
    /// if this is reached SendMessage will return k_EResultLimitExceeded
    /// Default is 512k (524288 bytes)
    SendBufferSize,
    /// [connection int32] Minimum/maximum send rate clamp, 0 is no limit.
    /// This value will control the min/max allowed sending rate that
    /// bandwidth estimation is allowed to reach.  Default is 0 (no-limit)
    SendRateMin,
    SendRateMax,
    /// [connection int32] Nagle time, in microseconds.  When SendMessage is called, if
    /// the outgoing message is less than the size of the MTU, it will be
    /// queued for a delay equal to the Nagle timer value.  This is to ensure
    /// that if the application sends several small messages rapidly, they are
    /// coalesced into a single packet.
    /// See historical RFC 896.  Value is in microseconds.
    /// Default is 5000us (5ms).
    NagleTime,
    /// [connection int32] Don't automatically fail IP connections that don't have
    /// strong auth.  On clients, this means we will attempt the connection even if
    /// we don't know our identity or can't get a cert.  On the server, it means that
    /// we won't automatically reject a connection due to a failure to authenticate.
    /// (You can examine the incoming connection and decide whether to accept it.)
    /// 
    /// This is a dev configuration value, and you should not let users modify it in
    /// production.
    IPAllowWithoutAuth,
    /// [connection int32] Do not send UDP packets with a payload of
    /// larger than N bytes.  If you set this, MTU_DataSize
    /// is automatically adjusted
    MTUPacketSize,
    /// [connection int32] (read only) Maximum message size you can send that
    /// will not fragment, based on MTU_PacketSize
    MTUDataSize,
    /// [connection int32] Allow unencrypted (and unauthenticated) communication.
    /// 0: Not allowed (the default)
    /// 1: Allowed, but prefer encrypted
    /// 2: Allowed, and preferred
    /// 3: Required.  (Fail the connection if the peer requires encryption.)
    /// 
    /// This is a dev configuration value, since its purpose is to disable encryption.
    /// You should not let users modify it in production.  (But note that it requires
    /// the peer to also modify their value in order for encryption to be disabled.)
    Unencrypted,
    /// [global int32] 0 or 1.  Some variables are "dev" variables.  They are useful
    /// for debugging, but should not be adjusted in production.  When this flag is false (the default),
    /// such variables will not be enumerated by the ISteamnetworkingUtils::GetFirstConfigValue
    /// ISteamNetworkingUtils::GetConfigValueInfo functions.  The idea here is that you
    /// can use those functions to provide a generic mechanism to set any configuration
    /// value from a console or configuration file, looking up the variable by name.  Depending
    /// on your game, modifying other configuration values may also have negative effects, and
    /// you may wish to further lock down which variables are allowed to be modified by the user.
    /// (Maybe no variables!)  Or maybe you use a whitelist or blacklist approach.
    /// 
    /// (This flag is itself a dev variable.)
    EnumerateDevVars,
    /// [connection int32] Set this to 1 on outbound connections and listen sockets,
    /// to enable "symmetric connect mode", which is useful in the following
    /// common peer-to-peer use case:
    /// 
    /// - The two peers are "equal" to each other.  (Neither is clearly the "client"
    /// or "server".)
    /// - Either peer may initiate the connection, and indeed they may do this
    /// at the same time
    /// - The peers only desire a single connection to each other, and if both
    /// peers initiate connections simultaneously, a protocol is needed for them
    /// to resolve the conflict, so that we end up with a single connection.
    /// 
    /// This use case is both common, and involves subtle race conditions and tricky
    /// pitfalls, which is why the API has support for dealing with it.
    /// 
    /// If an incoming connection arrives on a listen socket or via custom signaling,
    /// and the application has not attempted to make a matching outbound connection
    /// in symmetric mode, then the incoming connection can be accepted as usual.
    /// A "matching" connection means that the relevant endpoint information matches.
    /// (At the time this comment is being written, this is only supported for P2P
    /// connections, which means that the peer identities must match, and the virtual
    /// port must match.  At a later time, symmetric mode may be supported for other
    /// connection types.)
    /// 
    /// If connections are initiated by both peers simultaneously, race conditions
    /// can arise, but fortunately, most of them are handled internally and do not
    /// require any special awareness from the application.  However, there
    /// is one important case that application code must be aware of:
    /// If application code attempts an outbound connection using a ConnectXxx
    /// function in symmetric mode, and a matching incoming connection is already
    /// waiting on a listen socket, then instead of forming a new connection,
    /// the ConnectXxx call will accept the existing incoming connection, and return
    /// a connection handle to this accepted connection.
    /// IMPORTANT: in this case, a SteamNetConnectionStatusChangedCallback_t
    /// has probably *already* been posted to the queue for the incoming connection!
    /// (Once callbacks are posted to the queue, they are not modified.)  It doesn't
    /// matter if the callback has not been consumed by the app.  Thus, application
    /// code that makes use of symmetric connections must be aware that, when processing a
    /// SteamNetConnectionStatusChangedCallback_t for an incoming connection, the
    /// m_hConn may refer to a new connection that the app has has not
    /// seen before (the usual case), but it may also refer to a connection that
    /// has already been accepted implicitly through a call to Connect()!  In this
    /// case, AcceptConnection() will return k_EResultDuplicateRequest.
    /// 
    /// Only one symmetric connection to a given peer (on a given virtual port)
    /// may exist at any given time.  If client code attempts to create a connection,
    /// and a (live) connection already exists on the local host, then either the
    /// existing connection will be accepted as described above, or the attempt
    /// to create a new connection will fail.  Furthermore, linger mode functionality
    /// is not supported on symmetric connections.
    /// 
    /// A more complicated race condition can arise if both peers initiate a connection
    /// at roughly the same time.  In this situation, each peer will receive an incoming
    /// connection from the other peer, when the application code has already initiated
    /// an outgoing connection to that peer.  The peers must resolve this conflict and
    /// decide who is going to act as the "server" and who will act as the "client".
    /// Typically the application does not need to be aware of this case as it is handled
    /// internally.  On both sides, the will observe their outbound connection being
    /// "accepted", although one of them one have been converted internally to act
    /// as the "server".
    /// 
    /// In general, symmetric mode should be all-or-nothing: do not mix symmetric
    /// connections with a non-symmetric connection that it might possible "match"
    /// with.  If you use symmetric mode on any connections, then both peers should
    /// use it on all connections, and the corresponding listen socket, if any.  The
    /// behaviour when symmetric and ordinary connections are mixed is not defined by
    /// this API, and you should not rely on it.  (This advice only applies when connections
    /// might possibly "match".  For example, it's OK to use all symmetric mode
    /// connections on one virtual port, and all ordinary, non-symmetric connections
    /// on a different virtual port, as there is no potential for ambiguity.)
    /// 
    /// When using the feature, you should set it in the following situations on
    /// applicable objects:
    /// 
    /// - When creating an outbound connection using ConnectXxx function
    /// - When creating a listen socket.  (Note that this will automatically cause
    /// any accepted connections to inherit the flag.)
    /// - When using custom signaling, before accepting an incoming connection.
    /// 
    /// Setting the flag on listen socket and accepted connections will enable the
    /// API to automatically deal with duplicate incoming connections, even if the
    /// local host has not made any outbound requests.  (In general, such duplicate
    /// requests from a peer are ignored internally and will not be visible to the
    /// application code.  The previous connection must be closed or resolved first.)
    SymmetricConnect,
    /// [connection int32] For connection types that use "virtual ports", this can be used
    /// to assign a local virtual port.  For incoming connections, this will always be the
    /// virtual port of the listen socket (or the port requested by the remote host if custom
    /// signaling is used and the connection is accepted), and cannot be changed.  For
    /// connections initiated locally, the local virtual port will default to the same as the
    /// requested remote virtual port, if you do not specify a different option when creating
    /// the connection.  The local port is only relevant for symmetric connections, when
    /// determining if two connections "match."  In this case, if you need the local and remote
    /// port to differ, you can set this value.
    /// 
    /// You can also read back this value on listen sockets.
    /// 
    /// This value should not be read or written in any other context.
    LocalVirtualPort,
    /// [connection FnSteamNetConnectionStatusChanged] Callback that will be invoked
    /// when the state of a connection changes.
    /// 
    /// IMPORTANT: callbacks are dispatched to the handler that is in effect at the time
    /// the event occurs, which might be in another thread.  For example, immediately after
    /// creating a listen socket, you may receive an incoming connection.  And then immediately
    /// after this, the remote host may close the connection.  All of this could happen
    /// before the function to create the listen socket has returned.  For this reason,
    /// callbacks usually must be in effect at the time of object creation.  This means
    /// you should set them when you are creating the listen socket or connection, or have
    /// them in effect so they will be inherited at the time of object creation.
    /// 
    /// For example:
    /// 
    /// exterm void MyStatusChangedFunc( SteamNetConnectionStatusChangedCallback_t *info );
    /// SteamNetworkingConfigValue_t opt; opt.SetPtr( Callback_ConnectionStatusChanged, MyStatusChangedFunc );
    /// SteamNetworkingIPAddr localAddress; localAddress.Clear();
    /// HSteamListenSocket hListenSock = SteamNetworkingSockets()->CreateListenSocketIP( localAddress, 1, &opt );
    /// 
    /// When accepting an incoming connection, there is no atomic way to switch the
    /// callback.  However, if the connection is DOA, AcceptConnection() will fail, and
    /// you can fetch the state of the connection at that time.
    /// 
    /// If all connections and listen sockets can use the same callback, the simplest
    /// method is to set it globally before you create any listen sockets or connections.
    CallbackConnectionStatusChanged,
    /// [global FnSteamNetAuthenticationStatusChanged] Callback that will be invoked
    /// when our auth state changes.  If you use this, install the callback before creating
    /// any connections or listen sockets, and don't change it.
    /// See: ISteamNetworkingUtils::SetGlobalCallback_SteamNetAuthenticationStatusChanged
    CallbackAuthStatusChanged,
    /// [global FnSteamRelayNetworkStatusChanged] Callback that will be invoked
    /// when our auth state changes.  If you use this, install the callback before creating
    /// any connections or listen sockets, and don't change it.
    /// See: ISteamNetworkingUtils::SetGlobalCallback_SteamRelayNetworkStatusChanged
    CallbackRelayNetworkStatusChanged,
    /// [global FnSteamNetworkingMessagesSessionRequest] Callback that will be invoked
    /// when a peer wants to initiate a SteamNetworkingMessagesSessionRequest.
    /// See: ISteamNetworkingUtils::SetGlobalCallback_MessagesSessionRequest
    CallbackMessagesSessionRequest,
    /// [global FnSteamNetworkingMessagesSessionFailed] Callback that will be invoked
    /// when a session you have initiated, or accepted either fails to connect, or loses
    /// connection in some unexpected way.
    /// See: ISteamNetworkingUtils::SetGlobalCallback_MessagesSessionFailed
    CallbackMessagesSessionFailed,
    /// [global FnSteamNetworkingSocketsCreateConnectionSignaling] Callback that will
    /// be invoked when we need to create a signaling object for a connection
    /// initiated locally.  See: ISteamNetworkingSockets::ConnectP2P,
    /// ISteamNetworkingMessages.
    CallbackCreateConnectionSignaling,
    /// [connection string] Comma-separated list of STUN servers that can be used
    /// for NAT piercing.  If you set this to an empty string, NAT piercing will
    /// not be attempted.  Also if "public" candidates are not allowed for
    /// P2P_Transport_ICE_Enable, then this is ignored.
    P2PSTUNServerList,
    /// [connection int32] What types of ICE candidates to share with the peer.
    /// See k_nSteamNetworkingConfig_P2P_Transport_ICE_Enable_xxx values
    P2PTransportICEEnable,
    /// [connection int32] When selecting P2P transport, add various
    /// penalties to the scores for selected transports.  (Route selection
    /// scores are on a scale of milliseconds.  The score begins with the
    /// route ping time and is then adjusted.)
    P2PTransportICEPenalty,
    /// [int32 global] Penalty (in ms) added to SDR routes when comparing against other transports.
    P2PTransportSDRPenalty,
    /// [int32 global] If the first N pings to a port all fail, mark that port as unavailable for
    /// a while, and try a different one.  Some ISPs and routers may drop the first
    /// packet, so setting this to 1 may greatly disrupt communications.
    SDRClientConsecutitivePingTimeoutsFailInitial,
    /// [int32 global] If N consecutive pings to a port fail, after having received successful
    /// communication, mark that port as unavailable for a while, and try a
    /// different one.
    SDRClientConsecutitivePingTimeoutsFail,
    /// [int32 global] Minimum number of lifetime pings we need to send, before we think our estimate
    /// is solid.  The first ping to each cluster is very often delayed because of NAT,
    /// routers not having the best route, etc.  Until we've sent a sufficient number
    /// of pings, our estimate is often inaccurate.  Keep pinging until we get this
    /// many pings.
    SDRClientMinPingsBeforePingAccurate,
    /// [int32 global] Set all steam datagram traffic to originate from the same
    /// local port. By default, we open up a new UDP socket (on a different local
    /// port) for each relay.  This is slightly less optimal, but it works around
    /// some routers that don't implement NAT properly.  If you have intermittent
    /// problems talking to relays that might be NAT related, try toggling
    /// this flag
    SDRClientSingleSocket,
    /// [global string] Code of relay cluster to force use.  If not empty, we will
    /// only use relays in that cluster.  E.g. 'iad'
    SDRClientForceRelayCluster,
    /// [connection string] For debugging, generate our own (unsigned) ticket, using
    /// the specified  gameserver address.  Router must be configured to accept unsigned
    /// tickets.
    SDRClientDebugTicketAddress,
    /// [global string] For debugging.  Override list of relays from the config with
    /// this set (maybe just one).  Comma-separated list.
    SDRClientForceProxyAddr,
    /// [global string] For debugging.  Force ping times to clusters to be the specified
    /// values.  A comma separated list of <cluster>=<ms> values.  E.g. "sto=32,iad=100"
    /// 
    /// This is a dev configuration value, you probably should not let users modify it
    /// in production.
    SDRClientFakeClusterPing,
    LogLevelAckRTT,
    LogLevelPacketDecode,
    LogLevelMessage,
    LogLevelPacketGaps,
    LogLevelP2PRendezvous,
    LogLevelSDRRelayPings,
}

impl NetworkingConfigValue {
    /// The `ESteamNetworkingConfigValue` code of the value.
    pub open spec fn spec_code(self) -> i32 {
        match self {
            NetworkingConfigValue::FakePacketLossSend => 2,
            NetworkingConfigValue::FakePacketLossRecv => 3,
            NetworkingConfigValue::FakePacketLagSend => 4,
            NetworkingConfigValue::FakePacketLagRecv => 5,
            NetworkingConfigValue::FakePacketReorderSend => 6,
            NetworkingConfigValue::FakePacketReorderRecv => 7,
            NetworkingConfigValue::FakePacketReorderTime => 8,
            NetworkingConfigValue::FakePacketDupSend => 26,
            NetworkingConfigValue::FakePacketDupRecv => 27,
            NetworkingConfigValue::FakePacketDupTimeMax => 28,
            NetworkingConfigValue::TimeoutInitial => 24,
            NetworkingConfigValue::TimeoutConnected => 25,
            NetworkingConfigValue::SendBufferSize => 9,
            NetworkingConfigValue::SendRateMin => 10,
            NetworkingConfigValue::SendRateMax => 11,
            NetworkingConfigValue::NagleTime => 12,
            NetworkingConfigValue::IPAllowWithoutAuth => 23,
            NetworkingConfigValue::MTUPacketSize => 32,
            NetworkingConfigValue::MTUDataSize => 33,
            NetworkingConfigValue::Unencrypted => 34,
            NetworkingConfigValue::EnumerateDevVars => 35,
            NetworkingConfigValue::SymmetricConnect => 37,
            NetworkingConfigValue::LocalVirtualPort => 38,
            NetworkingConfigValue::CallbackConnectionStatusChanged => 201,
            NetworkingConfigValue::CallbackAuthStatusChanged => 202,
            NetworkingConfigValue::CallbackRelayNetworkStatusChanged => 203,
            NetworkingConfigValue::CallbackMessagesSessionRequest => 204,
            NetworkingConfigValue::CallbackMessagesSessionFailed => 205,
            NetworkingConfigValue::CallbackCreateConnectionSignaling => 206,
            NetworkingConfigValue::P2PSTUNServerList => 103,
            NetworkingConfigValue::P2PTransportICEEnable => 104,
            NetworkingConfigValue::P2PTransportICEPenalty => 105,
            NetworkingConfigValue::P2PTransportSDRPenalty => 106,
            NetworkingConfigValue::SDRClientConsecutitivePingTimeoutsFailInitial => 19,
            NetworkingConfigValue::SDRClientConsecutitivePingTimeoutsFail => 20,
            NetworkingConfigValue::SDRClientMinPingsBeforePingAccurate => 21,
            NetworkingConfigValue::SDRClientSingleSocket => 22,
            NetworkingConfigValue::SDRClientForceRelayCluster => 29,
            NetworkingConfigValue::SDRClientDebugTicketAddress => 30,
            NetworkingConfigValue::SDRClientForceProxyAddr => 31,
            NetworkingConfigValue::SDRClientFakeClusterPing => 36,
            NetworkingConfigValue::LogLevelAckRTT => 13,
            NetworkingConfigValue::LogLevelPacketDecode => 14,
            NetworkingConfigValue::LogLevelMessage => 15,
            NetworkingConfigValue::LogLevelPacketGaps => 16,
            NetworkingConfigValue::LogLevelP2PRendezvous => 17,
            NetworkingConfigValue::LogLevelSDRRelayPings => 18,
        }
    }

    /// The `ESteamNetworkingConfigValue` code of the value.
    pub fn code(&self) -> (r: i32)
        ensures
            r == self.spec_code(),
    {
        match self {
            NetworkingConfigValue::FakePacketLossSend => 2,
            NetworkingConfigValue::FakePacketLossRecv => 3,
            NetworkingConfigValue::FakePacketLagSend => 4,
            NetworkingConfigValue::FakePacketLagRecv => 5,
            NetworkingConfigValue::FakePacketReorderSend => 6,
            NetworkingConfigValue::FakePacketReorderRecv => 7,
            NetworkingConfigValue::FakePacketReorderTime => 8,
            NetworkingConfigValue::FakePacketDupSend => 26,
            NetworkingConfigValue::FakePacketDupRecv => 27,
            NetworkingConfigValue::FakePacketDupTimeMax => 28,
            NetworkingConfigValue::TimeoutInitial => 24,
            NetworkingConfigValue::TimeoutConnected => 25,
            NetworkingConfigValue::SendBufferSize => 9,
            NetworkingConfigValue::SendRateMin => 10,
            NetworkingConfigValue::SendRateMax => 11,
            NetworkingConfigValue::NagleTime => 12,
            NetworkingConfigValue::IPAllowWithoutAuth => 23,
            NetworkingConfigValue::MTUPacketSize => 32,
            NetworkingConfigValue::MTUDataSize => 33,
            NetworkingConfigValue::Unencrypted => 34,
            NetworkingConfigValue::EnumerateDevVars => 35,
            NetworkingConfigValue::SymmetricConnect => 37,
            NetworkingConfigValue::LocalVirtualPort => 38,
            NetworkingConfigValue::CallbackConnectionStatusChanged => 201,
            NetworkingConfigValue::CallbackAuthStatusChanged => 202,
            NetworkingConfigValue::CallbackRelayNetworkStatusChanged => 203,
            NetworkingConfigValue::CallbackMessagesSessionRequest => 204,
            NetworkingConfigValue::CallbackMessagesSessionFailed => 205,
            NetworkingConfigValue::CallbackCreateConnectionSignaling => 206,
            NetworkingConfigValue::P2PSTUNServerList => 103,
            NetworkingConfigValue::P2PTransportICEEnable => 104,
            NetworkingConfigValue::P2PTransportICEPenalty => 105,
            NetworkingConfigValue::P2PTransportSDRPenalty => 106,
            NetworkingConfigValue::SDRClientConsecutitivePingTimeoutsFailInitial => 19,
            NetworkingConfigValue::SDRClientConsecutitivePingTimeoutsFail => 20,
            NetworkingConfigValue::SDRClientMinPingsBeforePingAccurate => 21,
            NetworkingConfigValue::SDRClientSingleSocket => 22,
            NetworkingConfigValue::SDRClientForceRelayCluster => 29,
            NetworkingConfigValue::SDRClientDebugTicketAddress => 30,
            NetworkingConfigValue::SDRClientForceProxyAddr => 31,
            NetworkingConfigValue::SDRClientFakeClusterPing => 36,
            NetworkingConfigValue::LogLevelAckRTT => 13,
            NetworkingConfigValue::LogLevelPacketDecode => 14,
            NetworkingConfigValue::LogLevelMessage => 15,
            NetworkingConfigValue::LogLevelPacketGaps => 16,
            NetworkingConfigValue::LogLevelP2PRendezvous => 17,
            NetworkingConfigValue::LogLevelSDRRelayPings => 18,
        }
    }
}

/// The type of the data that a configuration value holds.
pub open spec fn config_data_type(v: NetworkingConfigValue) -> NetworkingConfigDataType {
    match v {
        NetworkingConfigValue::FakePacketLossSend => NetworkingConfigDataType::Float,
        NetworkingConfigValue::FakePacketLossRecv => NetworkingConfigDataType::Float,
        NetworkingConfigValue::FakePacketLagSend => NetworkingConfigDataType::Int32,
        NetworkingConfigValue::FakePacketLagRecv => NetworkingConfigDataType::Int32,
        NetworkingConfigValue::FakePacketReorderSend => NetworkingConfigDataType::Float,
        NetworkingConfigValue::FakePacketReorderRecv => NetworkingConfigDataType::Float,
        NetworkingConfigValue::FakePacketReorderTime => NetworkingConfigDataType::Int32,
        NetworkingConfigValue::FakePacketDupSend => NetworkingConfigDataType::Float,
        NetworkingConfigValue::FakePacketDupRecv => NetworkingConfigDataType::Float,
        NetworkingConfigValue::FakePacketDupTimeMax => NetworkingConfigDataType::Int32,
        NetworkingConfigValue::TimeoutInitial => NetworkingConfigDataType::Int32,
        NetworkingConfigValue::TimeoutConnected => NetworkingConfigDataType::Int32,
        NetworkingConfigValue::SendBufferSize => NetworkingConfigDataType::Int32,
        NetworkingConfigValue::SendRateMin => NetworkingConfigDataType::Int32,
        NetworkingConfigValue::SendRateMax => NetworkingConfigDataType::Int32,
        NetworkingConfigValue::NagleTime => NetworkingConfigDataType::Int32,
        NetworkingConfigValue::IPAllowWithoutAuth => NetworkingConfigDataType::Int32,
        NetworkingConfigValue::MTUPacketSize => NetworkingConfigDataType::Int32,
        NetworkingConfigValue::MTUDataSize => NetworkingConfigDataType::Int32,
        NetworkingConfigValue::Unencrypted => NetworkingConfigDataType::Int32,
        NetworkingConfigValue::EnumerateDevVars => NetworkingConfigDataType::Int32,
        NetworkingConfigValue::SymmetricConnect => NetworkingConfigDataType::Int32,
        NetworkingConfigValue::LocalVirtualPort => NetworkingConfigDataType::Int32,
        NetworkingConfigValue::CallbackConnectionStatusChanged => NetworkingConfigDataType::Callback,
        NetworkingConfigValue::CallbackAuthStatusChanged => NetworkingConfigDataType::Callback,
        NetworkingConfigValue::CallbackRelayNetworkStatusChanged => NetworkingConfigDataType::Callback,
        NetworkingConfigValue::CallbackMessagesSessionRequest => NetworkingConfigDataType::Callback,
        NetworkingConfigValue::CallbackMessagesSessionFailed => NetworkingConfigDataType::Callback,
        NetworkingConfigValue::CallbackCreateConnectionSignaling => NetworkingConfigDataType::Callback,
        NetworkingConfigValue::P2PSTUNServerList => NetworkingConfigDataType::String,
        NetworkingConfigValue::P2PTransportICEEnable => NetworkingConfigDataType::Int32,
        NetworkingConfigValue::P2PTransportICEPenalty => NetworkingConfigDataType::Int32,
        NetworkingConfigValue::P2PTransportSDRPenalty => NetworkingConfigDataType::Int32,
        NetworkingConfigValue::SDRClientConsecutitivePingTimeoutsFailInitial => NetworkingConfigDataType::Int32,
        NetworkingConfigValue::SDRClientConsecutitivePingTimeoutsFail => NetworkingConfigDataType::Int32,
        NetworkingConfigValue::SDRClientMinPingsBeforePingAccurate => NetworkingConfigDataType::Int32,
        NetworkingConfigValue::SDRClientSingleSocket => NetworkingConfigDataType::Int32,
        NetworkingConfigValue::SDRClientForceRelayCluster => NetworkingConfigDataType::String,
        NetworkingConfigValue::SDRClientDebugTicketAddress => NetworkingConfigDataType::String,
        NetworkingConfigValue::SDRClientForceProxyAddr => NetworkingConfigDataType::String,
        NetworkingConfigValue::SDRClientFakeClusterPing => NetworkingConfigDataType::String,
        NetworkingConfigValue::LogLevelAckRTT => NetworkingConfigDataType::Int32,
        NetworkingConfigValue::LogLevelPacketDecode => NetworkingConfigDataType::Int32,
        NetworkingConfigValue::LogLevelMessage => NetworkingConfigDataType::Int32,
        NetworkingConfigValue::LogLevelPacketGaps => NetworkingConfigDataType::Int32,
        NetworkingConfigValue::LogLevelP2PRendezvous => NetworkingConfigDataType::Int32,
        NetworkingConfigValue::LogLevelSDRRelayPings => NetworkingConfigDataType::Int32,
    }
}

impl NetworkingConfigValue {
    /// The type of the data that this configuration value holds.
    pub fn data_type(&self) -> (r: NetworkingConfigDataType)
        ensures
            r == config_data_type(*self),
    {
        match self {
            NetworkingConfigValue::FakePacketLossSend => NetworkingConfigDataType::Float,
            NetworkingConfigValue::FakePacketLossRecv => NetworkingConfigDataType::Float,
            NetworkingConfigValue::FakePacketLagSend => NetworkingConfigDataType::Int32,
            NetworkingConfigValue::FakePacketLagRecv => NetworkingConfigDataType::Int32,
            NetworkingConfigValue::FakePacketReorderSend => NetworkingConfigDataType::Float,
            NetworkingConfigValue::FakePacketReorderRecv => NetworkingConfigDataType::Float,
            NetworkingConfigValue::FakePacketReorderTime => NetworkingConfigDataType::Int32,
            NetworkingConfigValue::FakePacketDupSend => NetworkingConfigDataType::Float,
            NetworkingConfigValue::FakePacketDupRecv => NetworkingConfigDataType::Float,
            NetworkingConfigValue::FakePacketDupTimeMax => NetworkingConfigDataType::Int32,
            NetworkingConfigValue::TimeoutInitial => NetworkingConfigDataType::Int32,
            NetworkingConfigValue::TimeoutConnected => NetworkingConfigDataType::Int32,
            NetworkingConfigValue::SendBufferSize => NetworkingConfigDataType::Int32,
            NetworkingConfigValue::SendRateMin => NetworkingConfigDataType::Int32,
            NetworkingConfigValue::SendRateMax => NetworkingConfigDataType::Int32,
            NetworkingConfigValue::NagleTime => NetworkingConfigDataType::Int32,
            NetworkingConfigValue::IPAllowWithoutAuth => NetworkingConfigDataType::Int32,
            NetworkingConfigValue::MTUPacketSize => NetworkingConfigDataType::Int32,
            NetworkingConfigValue::MTUDataSize => NetworkingConfigDataType::Int32,
            NetworkingConfigValue::Unencrypted => NetworkingConfigDataType::Int32,
            NetworkingConfigValue::EnumerateDevVars => NetworkingConfigDataType::Int32,
            NetworkingConfigValue::SymmetricConnect => NetworkingConfigDataType::Int32,
            NetworkingConfigValue::LocalVirtualPort => NetworkingConfigDataType::Int32,
            NetworkingConfigValue::CallbackConnectionStatusChanged => NetworkingConfigDataType::Callback,
            NetworkingConfigValue::CallbackAuthStatusChanged => NetworkingConfigDataType::Callback,
            NetworkingConfigValue::CallbackRelayNetworkStatusChanged => NetworkingConfigDataType::Callback,
            NetworkingConfigValue::CallbackMessagesSessionRequest => NetworkingConfigDataType::Callback,
            NetworkingConfigValue::CallbackMessagesSessionFailed => NetworkingConfigDataType::Callback,
            NetworkingConfigValue::CallbackCreateConnectionSignaling => NetworkingConfigDataType::Callback,
            NetworkingConfigValue::P2PSTUNServerList => NetworkingConfigDataType::String,
            NetworkingConfigValue::P2PTransportICEEnable => NetworkingConfigDataType::Int32,
            NetworkingConfigValue::P2PTransportICEPenalty => NetworkingConfigDataType::Int32,
            NetworkingConfigValue::P2PTransportSDRPenalty => NetworkingConfigDataType::Int32,
            NetworkingConfigValue::SDRClientConsecutitivePingTimeoutsFailInitial => NetworkingConfigDataType::Int32,
            NetworkingConfigValue::SDRClientConsecutitivePingTimeoutsFail => NetworkingConfigDataType::Int32,
            NetworkingConfigValue::SDRClientMinPingsBeforePingAccurate => NetworkingConfigDataType::Int32,
            NetworkingConfigValue::SDRClientSingleSocket => NetworkingConfigDataType::Int32,
            NetworkingConfigValue::SDRClientForceRelayCluster => NetworkingConfigDataType::String,
            NetworkingConfigValue::SDRClientDebugTicketAddress => NetworkingConfigDataType::String,
            NetworkingConfigValue::SDRClientForceProxyAddr => NetworkingConfigDataType::String,
            NetworkingConfigValue::SDRClientFakeClusterPing => NetworkingConfigDataType::String,
            NetworkingConfigValue::LogLevelAckRTT => NetworkingConfigDataType::Int32,
            NetworkingConfigValue::LogLevelPacketDecode => NetworkingConfigDataType::Int32,
            NetworkingConfigValue::LogLevelMessage => NetworkingConfigDataType::Int32,
            NetworkingConfigValue::LogLevelPacketGaps => NetworkingConfigDataType::Int32,
            NetworkingConfigValue::LogLevelP2PRendezvous => NetworkingConfigDataType::Int32,
            NetworkingConfigValue::LogLevelSDRRelayPings => NetworkingConfigDataType::Int32,
        }
    }
}
/// High level connection status
#[derive(Debug, Copy, Clone, Eq, PartialEq, Structural)]
pub enum NetworkingConnectionState {
    /// Dummy value used to indicate an error condition in the API.
    /// Specified connection doesn't exist or has already been closed.
    NoState,
    /// We are trying to establish whether peers can talk to each other,
    /// whether they WANT to talk to each other, perform basic auth,
    /// and exchange crypt keys.
    Connecting,
    /// Some connection types use a back channel or trusted 3rd party
    /// for earliest communication.  If the server accepts the connection,
    /// then these connections switch into the rendezvous state.
    FindingRoute,
    /// We've received communications from our peer (and we know
    /// who they are) and are all good.
    Connected,
    /// Connection has been closed by our peer, but not closed locally.
    /// The connection still exists from an API perspective.  You must close the
    /// handle to free up resources.
    ClosedByPeer,
    /// A disruption in the connection has been detected locally.  (E.g. timeout,
    /// local internet connection disrupted, etc.)
    ProblemDetectedLocally,
}

impl NetworkingConnectionState {
    /// The `ESteamNetworkingConnectionState` code of the value.
    pub open spec fn spec_code(self) -> i32 {
        match self {
            NetworkingConnectionState::NoState => 0,
            NetworkingConnectionState::Connecting => 1,
            NetworkingConnectionState::FindingRoute => 2,
            NetworkingConnectionState::Connected => 3,
            NetworkingConnectionState::ClosedByPeer => 4,
            NetworkingConnectionState::ProblemDetectedLocally => 5,
        }
    }

    /// The `ESteamNetworkingConnectionState` code of the value.
    pub fn code(&self) -> (r: i32)
        ensures
            r == self.spec_code(),
    {
        match self {
            NetworkingConnectionState::NoState => 0,
            NetworkingConnectionState::Connecting => 1,
            NetworkingConnectionState::FindingRoute => 2,
            NetworkingConnectionState::Connected => 3,
            NetworkingConnectionState::ClosedByPeer => 4,
            NetworkingConnectionState::ProblemDetectedLocally => 5,
        }
    }

    /// Converts a `ESteamNetworkingConnectionState` code; see `networking_connection_state_of_code` for the codes that stand for a value.
    pub fn from_code_opt(code: i32) -> (r: Option<NetworkingConnectionState>)
        ensures
            r == networking_connection_state_of_code(code),
    {
        match code {
            0 => Some(NetworkingConnectionState::NoState),
            1 => Some(NetworkingConnectionState::Connecting),
            2 => Some(NetworkingConnectionState::FindingRoute),
            3 => Some(NetworkingConnectionState::Connected),
            4 => Some(NetworkingConnectionState::ClosedByPeer),
            5 => Some(NetworkingConnectionState::ProblemDetectedLocally),
            _ => None,
        }
    }
}

/// The value that a `ESteamNetworkingConnectionState` code stands for, if any.
pub open spec fn networking_connection_state_of_code(code: i32) -> Option<NetworkingConnectionState> {
    match code {
        0 => Some(NetworkingConnectionState::NoState),
        1 => Some(NetworkingConnectionState::Connecting),
        2 => Some(NetworkingConnectionState::FindingRoute),
        3 => Some(NetworkingConnectionState::Connected),
        4 => Some(NetworkingConnectionState::ClosedByPeer),
        5 => Some(NetworkingConnectionState::ProblemDetectedLocally),
        _ => None,
    }
}

/// Codes of `NetworkingConnectionState` are distinct: each value's code converts back to that
/// value, and a code that converts to a value is that value's code.
pub proof fn lemma_networking_connection_state_code_roundtrip(v: NetworkingConnectionState, code: i32)
    ensures
        networking_connection_state_of_code(v.spec_code()) == Some(v),
        networking_connection_state_of_code(code) == Some(v) ==> v.spec_code() == code,
{
}

#[derive(Debug, Copy, Clone, Eq, PartialEq, Structural)]
pub struct InvalidConnectionState;

impl InvalidConnectionState {
    /// The human readable description of the error.
    pub fn to_string(&self) -> (s: String)
        ensures
            s@ == "Invalid state"@,
    {
        String::from_str("Invalid state")
    }
}

impl TryFrom<i32> for NetworkingConnectionState {
    type Error = InvalidConnectionState;

    fn try_from(code: i32) -> (r: Result<NetworkingConnectionState, InvalidConnectionState>) {
        match NetworkingConnectionState::from_code_opt(code) {
            Some(s) => Ok(s),
            None => Err(InvalidConnectionState),
        }
    }
}

impl vstd::std_specs::convert::TryFromSpecImpl<i32> for NetworkingConnectionState {
    open spec fn obeys_try_from_spec() -> bool {
        true
    }

    open spec fn try_from_spec(code: i32) -> Result<NetworkingConnectionState, InvalidConnectionState> {
        match networking_connection_state_of_code(code) {
            Some(s) => Ok(s),
            None => Err(InvalidConnectionState),
        }
    }
}

/// Enumerate various causes of connection termination.  These are designed to work similar
/// to HTTP error codes: the numeric range gives you a rough classification as to the source
/// of the problem.
#[derive(Debug, Copy, Clone, Eq, PartialEq, Structural)]
pub enum NetConnectionEnd {
    /// 1xxx: Application ended the connection in a "usual" manner.
    AppGeneric,
    /// 2xxx: Application ended the connection in some sort of exceptional
    /// or unusual manner that might indicate a bug or configuration issue.
    AppException,
    /// You cannot do what you want to do because you're running in offline mode.
    LocalOfflineMode,
    /// We're having trouble contacting many (perhaps all) relays.
    LocalManyRelayConnectivity,
    /// A hosted server is having trouble talking to the relay
    /// that the client was using, so the problem is most likely on our end
    LocalHostedServerPrimaryRelay,
    /// We're not able to get the SDR network config.
    LocalNetworkConfig,
    /// Steam rejected our request because we don't have rights to do this.
    LocalRights,
    /// ICE P2P rendezvous failed because we were not able to
    /// determine our "public" address (e.g. reflexive address via STUN)
    LocalP2PICENoPublicAddresses,
    /// The connection was lost, and as far as we can tell our connection
    /// to relevant services (relays) has not been disrupted.
    RemoteTimeout,
    /// Something was invalid with the cert or crypt handshake info you gave me.
    RemoteBadEncrypt,
    /// You presented me with a cert that was I was able to parse
    /// but that prevents me from checking your identity.
    RemoteBadCert,
    /// We couldn't rendezvous with the remote host because
    /// they aren't logged into Steam
    RemoteNotLoggedIn,
    /// We couldn't rendezvous with the remote host because
    /// they aren't running the right application.
    RemoteNotRunningApp,
    /// Something wrong with the protocol version you are using.
    RemoteBadProtocolVersion,
    /// NAT punch failed failed because we never received any public
    /// addresses from the remote host.
    RemoteP2PICENoPublicAddresses,
    /// A failure that isn't necessarily the result of a software bug,
    /// but that should happen rarely enough that it isn't worth specifically
    /// writing UI or making a localized message for.
    MiscGeneric,
    /// Generic failure that is most likely a software bug.
    MiscInternalError,
    /// The connection to the remote host timed out, but we
    /// don't know if the problem is on our end, in the middle, or on their end.
    MiscTimeout,
    /// We're having trouble talking to the relevant relay.
    MiscRelayConnectivity,
    /// There's some trouble talking to Steam.
    MiscSteamConnectivity,
    /// A server in a dedicated hosting situation has no relay sessions
    /// active with which to talk back to a client.
    MiscNoRelaySessionsToClient,
    /// P2P rendezvous failed in a way that we don't have more specific information
    MiscP2PRendezvous,
    /// NAT punch failed, probably due to NAT/firewall configuration.
    MiscP2PNATFirewall,
    /// Our peer replied that it has no record of the connection.
    MiscPeerSentNoConnection,
}

impl NetConnectionEnd {
    /// The `ESteamNetConnectionEnd` code of the value.
    pub open spec fn spec_code(self) -> i32 {
        match self {
            NetConnectionEnd::AppGeneric => 1000,
            NetConnectionEnd::AppException => 2000,
            NetConnectionEnd::LocalOfflineMode => 3001,
            NetConnectionEnd::LocalManyRelayConnectivity => 3002,
            NetConnectionEnd::LocalHostedServerPrimaryRelay => 3003,
            NetConnectionEnd::LocalNetworkConfig => 3004,
            NetConnectionEnd::LocalRights => 3005,
            NetConnectionEnd::LocalP2PICENoPublicAddresses => 3006,
            NetConnectionEnd::RemoteTimeout => 4001,
            NetConnectionEnd::RemoteBadEncrypt => 4002,
            NetConnectionEnd::RemoteBadCert => 4003,
            NetConnectionEnd::RemoteNotLoggedIn => 4004,
            NetConnectionEnd::RemoteNotRunningApp => 4005,
            NetConnectionEnd::RemoteBadProtocolVersion => 4006,
            NetConnectionEnd::RemoteP2PICENoPublicAddresses => 4007,
            NetConnectionEnd::MiscGeneric => 5001,
            NetConnectionEnd::MiscInternalError => 5002,
            NetConnectionEnd::MiscTimeout => 5003,
            NetConnectionEnd::MiscRelayConnectivity => 5004,
            NetConnectionEnd::MiscSteamConnectivity => 5005,
            NetConnectionEnd::MiscNoRelaySessionsToClient => 5006,
            NetConnectionEnd::MiscP2PRendezvous => 5008,
            NetConnectionEnd::MiscP2PNATFirewall => 5009,
            NetConnectionEnd::MiscPeerSentNoConnection => 5010,
        }
    }

    /// The `ESteamNetConnectionEnd` code of the value.
    pub fn code(&self) -> (r: i32)
        ensures
            r == self.spec_code(),
    {
        match self {
            NetConnectionEnd::AppGeneric => 1000,
            NetConnectionEnd::AppException => 2000,
            NetConnectionEnd::LocalOfflineMode => 3001,
            NetConnectionEnd::LocalManyRelayConnectivity => 3002,
            NetConnectionEnd::LocalHostedServerPrimaryRelay => 3003,
            NetConnectionEnd::LocalNetworkConfig => 3004,
            NetConnectionEnd::LocalRights => 3005,
            NetConnectionEnd::LocalP2PICENoPublicAddresses => 3006,
            NetConnectionEnd::RemoteTimeout => 4001,
            NetConnectionEnd::RemoteBadEncrypt => 4002,
            NetConnectionEnd::RemoteBadCert => 4003,
            NetConnectionEnd::RemoteNotLoggedIn => 4004,
            NetConnectionEnd::RemoteNotRunningApp => 4005,
            NetConnectionEnd::RemoteBadProtocolVersion => 4006,
            NetConnectionEnd::RemoteP2PICENoPublicAddresses => 4007,
            NetConnectionEnd::MiscGeneric => 5001,
            NetConnectionEnd::MiscInternalError => 5002,
            NetConnectionEnd::MiscTimeout => 5003,
            NetConnectionEnd::MiscRelayConnectivity => 5004,
            NetConnectionEnd::MiscSteamConnectivity => 5005,
            NetConnectionEnd::MiscNoRelaySessionsToClient => 5006,
            NetConnectionEnd::MiscP2PRendezvous => 5008,
            NetConnectionEnd::MiscP2PNATFirewall => 5009,
            NetConnectionEnd::MiscPeerSentNoConnection => 5010,
        }
    }

    /// Converts a `ESteamNetConnectionEnd` code; see `net_connection_end_of_code` for the codes that stand for a value.
    pub fn from_code(code: i32) -> (r: NetConnectionEnd)
        requires
            net_connection_end_of_code(code) is Some,
        ensures
            net_connection_end_of_code(code) == Some(r),
    {
        match code {
            1000 => NetConnectionEnd::AppGeneric,
            2000 => NetConnectionEnd::AppException,
            3001 => NetConnectionEnd::LocalOfflineMode,
            3002 => NetConnectionEnd::LocalManyRelayConnectivity,
            3003 => NetConnectionEnd::LocalHostedServerPrimaryRelay,
            3004 => NetConnectionEnd::LocalNetworkConfig,
            3005 => NetConnectionEnd::LocalRights,
            3006 => NetConnectionEnd::LocalP2PICENoPublicAddresses,
            4001 => NetConnectionEnd::RemoteTimeout,
            4002 => NetConnectionEnd::RemoteBadEncrypt,
            4003 => NetConnectionEnd::RemoteBadCert,
            4004 => NetConnectionEnd::RemoteNotLoggedIn,
            4005 => NetConnectionEnd::RemoteNotRunningApp,
            4006 => NetConnectionEnd::RemoteBadProtocolVersion,
            4007 => NetConnectionEnd::RemoteP2PICENoPublicAddresses,
            5001 => NetConnectionEnd::MiscGeneric,
            5002 => NetConnectionEnd::MiscInternalError,
            5003 => NetConnectionEnd::MiscTimeout,
            5004 => NetConnectionEnd::MiscRelayConnectivity,
            5005 => NetConnectionEnd::MiscSteamConnectivity,
            5006 => NetConnectionEnd::MiscNoRelaySessionsToClient,
            5008 => NetConnectionEnd::MiscP2PRendezvous,
            5009 => NetConnectionEnd::MiscP2PNATFirewall,
            _ => NetConnectionEnd::MiscPeerSentNoConnection,
        }
    }
}

/// The value that a `ESteamNetConnectionEnd` code stands for, if any.
pub open spec fn net_connection_end_of_code(code: i32) -> Option<NetConnectionEnd> {
    match code {
        1000 => Some(NetConnectionEnd::AppGeneric),
        2000 => Some(NetConnectionEnd::AppException),
        3001 => Some(NetConnectionEnd::LocalOfflineMode),
        3002 => Some(NetConnectionEnd::LocalManyRelayConnectivity),
        3003 => Some(NetConnectionEnd::LocalHostedServerPrimaryRelay),
        3004 => Some(NetConnectionEnd::LocalNetworkConfig),
        3005 => Some(NetConnectionEnd::LocalRights),
        3006 => Some(NetConnectionEnd::LocalP2PICENoPublicAddresses),
        4001 => Some(NetConnectionEnd::RemoteTimeout),
        4002 => Some(NetConnectionEnd::RemoteBadEncrypt),
        4003 => Some(NetConnectionEnd::RemoteBadCert),
        4004 => Some(NetConnectionEnd::RemoteNotLoggedIn),
        4005 => Some(NetConnectionEnd::RemoteNotRunningApp),
        4006 => Some(NetConnectionEnd::RemoteBadProtocolVersion),
        4007 => Some(NetConnectionEnd::RemoteP2PICENoPublicAddresses),
        5001 => Some(NetConnectionEnd::MiscGeneric),
        5002 => Some(NetConnectionEnd::MiscInternalError),
        5003 => Some(NetConnectionEnd::MiscTimeout),
        5004 => Some(NetConnectionEnd::MiscRelayConnectivity),
        5005 => Some(NetConnectionEnd::MiscSteamConnectivity),
        5006 => Some(NetConnectionEnd::MiscNoRelaySessionsToClient),
        5008 => Some(NetConnectionEnd::MiscP2PRendezvous),
        5009 => Some(NetConnectionEnd::MiscP2PNATFirewall),
        5010 => Some(NetConnectionEnd::MiscPeerSentNoConnection),
        _ => None,
    }
}

/// Codes of `NetConnectionEnd` are distinct: each value's code converts back to that
/// value, and a code that converts to a value is that value's code.
pub proof fn lemma_net_connection_end_code_roundtrip(v: NetConnectionEnd, code: i32)
    ensures
        net_connection_end_of_code(v.spec_code()) == Some(v),
        net_connection_end_of_code(code) == Some(v) ==> v.spec_code() == code,
{
}

/// Returned when an integer is not the code of any value of an enum.
#[derive(Debug, Copy, Clone, Eq, PartialEq, Structural)]
pub struct InvalidEnumValue;

impl InvalidEnumValue {
    /// The human readable description of the error.
    pub fn to_string(&self) -> (s: String)
        ensures
            s@ == "integer value could not be converted to enum"@,
    {
        String::from_str("integer value could not be converted to enum")
    }
}

impl From<NetConnectionEnd> for i32 {
    fn from(end: NetConnectionEnd) -> (r: i32) {
        end.code()
    }
}

impl vstd::std_specs::convert::FromSpecImpl<NetConnectionEnd> for i32 {
    open spec fn obeys_from_spec() -> bool {
        true
    }

    open spec fn from_spec(end: NetConnectionEnd) -> i32 {
        end.spec_code()
    }
}

impl TryFrom<i32> for NetConnectionEnd {
    type Error = InvalidEnumValue;

    fn try_from(code: i32) -> (r: Result<NetConnectionEnd, InvalidEnumValue>) {
        match code {
            1000 | 2000 | 3001 | 3002 | 3003 | 3004 | 3005 | 3006 | 4001 | 4002 | 4003 | 4004 | 4005 | 4006 | 4007 | 5001 | 5002 | 5003 | 5004 | 5005 | 5006 | 5008 | 5009 | 5010 => Ok(NetConnectionEnd::from_code(code)),
            _ => Err(InvalidEnumValue),
        }
    }
}

impl vstd::std_specs::convert::TryFromSpecImpl<i32> for NetConnectionEnd {
    open spec fn obeys_try_from_spec() -> bool {
        true
    }

    open spec fn try_from_spec(code: i32) -> Result<NetConnectionEnd, InvalidEnumValue> {
        match net_connection_end_of_code(code) {
            Some(e) => Ok(e),
            None => Err(InvalidEnumValue),
        }
    }
}

/// Describe the status of a particular network resource
#[derive(Debug, Eq, PartialEq, Hash, Copy, Clone, Structural)]
pub enum NetworkingAvailability {
    /// We don't know because we haven't ever checked/tried
    NeverTried,
    /// We're waiting on a dependent resource to be acquired.
    Waiting,
    /// We're actively trying now, but are not yet successful.
    Attempting,
    /// Resource is online/available
    Current,
}

/// Describe a error of a particular network resource
#[derive(Debug, Eq, PartialEq, Hash, Copy, Clone, Structural)]
pub enum NetworkingAvailabilityError {
    /// Internal dummy/sentinal. The network resource is probably not initialized yet
    Unknown,
    /// A dependent resource is missing, so this service is unavailable.
    CannotTry,
    /// We have tried for enough time that we would expect to have been successful by now.  We have never been successful
    Failed,
    /// We tried and were successful at one time, but now it looks like we have a problem
    Previously,
    /// We previously failed and are currently retrying
    Retrying,
}

impl NetworkingAvailabilityError {
}

/// The availability of a network resource, or what keeps it unavailable.
pub type NetworkingAvailabilityResult = Result<NetworkingAvailability, NetworkingAvailabilityError>;

/// The availability that an `ESteamNetworkingAvailability` code reports:
/// a state for the hopeful codes, an error for the others.
pub open spec fn availability_of_code(code: i32) -> Option<Result<NetworkingAvailability, NetworkingAvailabilityError>> {
    match code {
        0 => Some(Err(NetworkingAvailabilityError::Unknown)),
        -102i32 => Some(Err(NetworkingAvailabilityError::CannotTry)),
        -101i32 => Some(Err(NetworkingAvailabilityError::Failed)),
        -100i32 => Some(Err(NetworkingAvailabilityError::Previously)),
        -10i32 => Some(Err(NetworkingAvailabilityError::Retrying)),
        1 => Some(Ok(NetworkingAvailability::NeverTried)),
        2 => Some(Ok(NetworkingAvailability::Waiting)),
        3 => Some(Ok(NetworkingAvailability::Attempting)),
        100 => Some(Ok(NetworkingAvailability::Current)),
        _ => None,
    }
}

impl NetworkingAvailability {
    /// Whether an `ESteamNetworkingAvailability` code is one that `try_from_code` reads.
    pub fn known_code(code: i32) -> (r: bool)
        ensures
            r == availability_of_code(code) is Some,
    {
        code == 0 || code == -102 || code == -101 || code == -100 || code == -10 || code == 1
            || code == 2 || code == 3 || code == 100
    }

    /// Converts an `ESteamNetworkingAvailability` code that Steam reports;
    /// the code must be one of the enum's codes.
    pub fn try_from_code(code: i32) -> (r: Result<NetworkingAvailability, NetworkingAvailabilityError>)
        requires
            availability_of_code(code) is Some,
        ensures
            availability_of_code(code) == Some(r),
    {
        match code {
            0 => Err(NetworkingAvailabilityError::Unknown),
            -102i32 => Err(NetworkingAvailabilityError::CannotTry),
            -101i32 => Err(NetworkingAvailabilityError::Failed),
            -100i32 => Err(NetworkingAvailabilityError::Previously),
            -10i32 => Err(NetworkingAvailabilityError::Retrying),
            1 => Ok(NetworkingAvailability::NeverTried),
            2 => Ok(NetworkingAvailability::Waiting),
            3 => Ok(NetworkingAvailability::Attempting),
            _ => Ok(NetworkingAvailability::Current),
        }
    }
}

impl NetworkingAvailabilityError {
    /// The human readable description of the error.
    pub fn to_string(&self) -> (s: String)
        ensures
            s@ == (match *self {
                NetworkingAvailabilityError::Unknown => "unknown"@,
                NetworkingAvailabilityError::CannotTry => "A dependent resource is missing, so this service is unavailable."@,
                NetworkingAvailabilityError::Failed => "We have tried for enough time that we would expect to have been successful by now.  We have never been successful"@,
                NetworkingAvailabilityError::Previously => "We tried and were successful at one time, but now it looks like we have a problem"@,
                NetworkingAvailabilityError::Retrying => "We previously failed and are currently retrying"@,
            }),
    {
        let m: &str = match self {
            NetworkingAvailabilityError::Unknown => "unknown",
            NetworkingAvailabilityError::CannotTry => "A dependent resource is missing, so this service is unavailable.",
            NetworkingAvailabilityError::Failed => "We have tried for enough time that we would expect to have been successful by now.  We have never been successful",
            NetworkingAvailabilityError::Previously => "We tried and were successful at one time, but now it looks like we have a problem",
            NetworkingAvailabilityError::Retrying => "We previously failed and are currently retrying",
        };
        String::from_str(m)
    }
}

/// The IPv4 address held in the last four octets of an address, in host order.
pub open spec fn ipv4_of_octets(b: Seq<u8>) -> u32 {
    ((b[12] as u32) << 24u32) | ((b[13] as u32) << 16u32) | ((b[14] as u32) << 8u32) | (b[15] as u32)
}

/// Whether the octets are an IPv4-mapped IPv6 address (`::ffff:a.b.c.d`).
pub open spec fn is_mapped_ipv4(b: Seq<u8>) -> bool {
    &&& b.len() == 16
    &&& forall|i: int| 0 <= i < 10 ==> b[i] == 0
    &&& b[10] == 0xff
    &&& b[11] == 0xff
}

/// Whether the octets are the IPv6 loopback address `::1`.
pub open spec fn is_ipv6_loopback(b: Seq<u8>) -> bool {
    &&& b.len() == 16
    &&& forall|i: int| 0 <= i < 15 ==> b[i] == 0
    &&& b[15] == 1
}

/// The octets of the IPv4-mapped address of `ip`.
pub open spec fn mapped_octets(ip: u32) -> Seq<u8> {
    seq![0u8, 0u8, 0u8, 0u8, 0u8, 0u8, 0u8, 0u8, 0u8, 0u8, 0xffu8, 0xffu8,
        (ip >> 24u32) as u8, (ip >> 16u32) as u8, (ip >> 8u32) as u8, ip as u8]
}

/// The dotted text of the IPv4 address in the last four octets, with the
/// port after a colon when asked for.
pub open spec fn ipv4_text(b: Seq<u8>, port: u16, with_port: bool) -> Seq<char> {
    let ip = decimal(b[12] as nat) + "."@ + decimal(b[13] as nat) + "."@ + decimal(b[14] as nat)
        + "."@ + decimal(b[15] as nat);
    if with_port {
        ip + ":"@ + decimal(port as nat)
    } else {
        ip
    }
}

/// An IP address and port in the layout of `SteamNetworkingIPAddr`: sixteen
/// octets of IPv6 (IPv4 addresses are held mapped, as `::ffff:a.b.c.d`) and a
/// port in host order.
#[derive(Copy, Clone, Debug)]
pub struct SteamIpAddr {
    ip: [u8; 16],
    port: u16,
}

impl SteamIpAddr {
    /// The sixteen octets of the address.
    pub closed spec fn octets(self) -> Seq<u8> {
        self.ip@
    }

    /// The port, in host order.
    pub closed spec fn spec_port(self) -> u16 {
        self.port
    }

    /// The cleared address `[::]:0`.
    pub closed spec fn cleared() -> Self {
        SteamIpAddr { ip: [0u8, 0u8, 0u8, 0u8, 0u8, 0u8, 0u8, 0u8, 0u8, 0u8, 0u8, 0u8, 0u8, 0u8, 0u8, 0u8], port: 0u16 }
    }

    /// The cleared address `[::]:0`.
    pub fn new() -> (r: Self)
        ensures
            r.octets() == Seq::new(16, |i: int| 0u8),
            r.spec_port() == 0,
            r == Self::cleared(),
    {
        let r = SteamIpAddr { ip: [0u8, 0u8, 0u8, 0u8, 0u8, 0u8, 0u8, 0u8, 0u8, 0u8, 0u8, 0u8, 0u8, 0u8, 0u8, 0u8], port: 0u16 };
        assert(r.octets() =~= Seq::new(16, |i: int| 0u8));
        r
    }

    /// The address with these sixteen IPv6 octets and port.
    pub fn new_ipv6(octets: [u8; 16], port: u16) -> (r: Self)
        ensures
            r.octets() == octets@,
            r.spec_port() == port,
    {
        SteamIpAddr { ip: octets, port }
    }

    /// Sets the IPv6 octets and the port.
    pub fn set_ipv6(&mut self, octets: [u8; 16], port: u16)
        ensures
            final(self).octets() == octets@,
            final(self).spec_port() == port,
    {
        self.ip = octets;
        self.port = port;
    }

    /// Sets the address to the IPv4-mapped form of `ip` (host order) and the port.
    pub fn set_ipv4(&mut self, ip: u32, port: u16)
        ensures
            final(self).octets() == mapped_octets(ip),
            final(self).spec_port() == port,
    {
        self.ip = [0u8, 0u8, 0u8, 0u8, 0u8, 0u8, 0u8, 0u8, 0u8, 0u8, 0xffu8, 0xffu8,
            (ip >> 24u32) as u8, (ip >> 16u32) as u8, (ip >> 8u32) as u8, ip as u8];
        self.port = port;
        assert(self.octets() =~= mapped_octets(ip));
    }

    /// Whether the address is an IPv4-mapped address.
    pub fn is_ipv4(&self) -> (r: bool)
        ensures
            r == is_mapped_ipv4(self.octets()),
    {
        let b = &self.ip;
        let r = b[0] == 0 && b[1] == 0 && b[2] == 0 && b[3] == 0 && b[4] == 0 && b[5] == 0
            && b[6] == 0 && b[7] == 0 && b[8] == 0 && b[9] == 0 && b[10] == 0xff && b[11] == 0xff;
        assert(r ==> forall|i: int| 0 <= i < 10 ==> self.octets()[i] == 0);
        assert(is_mapped_ipv4(self.octets()) ==> self.octets()[0] == 0 && self.octets()[1] == 0
            && self.octets()[2] == 0 && self.octets()[3] == 0 && self.octets()[4] == 0
            && self.octets()[5] == 0 && self.octets()[6] == 0 && self.octets()[7] == 0
            && self.octets()[8] == 0 && self.octets()[9] == 0);
        r
    }

    /// The IPv4 address in host order; none when the address is not IPv4-mapped
    /// or is `0.0.0.0`.
    pub fn get_ipv4(&self) -> (r: Option<u32>)
        ensures
            r == (if is_mapped_ipv4(self.octets()) && ipv4_of_octets(self.octets()) != 0 {
                Some(ipv4_of_octets(self.octets()))
            } else {
                None::<u32>
            }),
    {
        let ip = if self.is_ipv4() {
            ((self.ip[12] as u32) << 24u32) | ((self.ip[13] as u32) << 16u32) | ((self.ip[14] as u32)
                << 8u32) | (self.ip[15] as u32)
        } else {
            0
        };
        if ip == 0 {
            None
        } else {
            Some(ip)
        }
    }

    /// Sets the address to the IPv6 loopback `::1` and the port to 0.
    pub fn set_local_host(&mut self)
        ensures
            is_ipv6_loopback(final(self).octets()),
            final(self).spec_port() == 0,
    {
        self.ip = [0u8, 0u8, 0u8, 0u8, 0u8, 0u8, 0u8, 0u8, 0u8, 0u8, 0u8, 0u8, 0u8, 0u8, 0u8, 1u8];
        self.port = 0;
    }

    /// Whether the address is localhost: IPv6 `::1` or IPv4 `127.0.0.1`.
    pub fn is_local_host(&self) -> (r: bool)
        ensures
            r == (is_ipv6_loopback(self.octets()) || (is_mapped_ipv4(self.octets())
                && ipv4_of_octets(self.octets()) == 0x7f00_0001)),
    {
        let b = &self.ip;
        let loopback = b[0] == 0 && b[1] == 0 && b[2] == 0 && b[3] == 0 && b[4] == 0 && b[5] == 0
            && b[6] == 0 && b[7] == 0 && b[8] == 0 && b[9] == 0 && b[10] == 0 && b[11] == 0
            && b[12] == 0 && b[13] == 0 && b[14] == 0 && b[15] == 1;
        assert(loopback ==> forall|i: int| 0 <= i < 15 ==> self.octets()[i] == 0);
        assert(is_ipv6_loopback(self.octets()) ==> self.octets()[0] == 0 && self.octets()[1] == 0
            && self.octets()[2] == 0 && self.octets()[3] == 0 && self.octets()[4] == 0
            && self.octets()[5] == 0 && self.octets()[6] == 0 && self.octets()[7] == 0
            && self.octets()[8] == 0 && self.octets()[9] == 0 && self.octets()[10] == 0
            && self.octets()[11] == 0 && self.octets()[12] == 0 && self.octets()[13] == 0
            && self.octets()[14] == 0);
        let mapped = self.is_ipv4();
        let v4 = ((b[12] as u32) << 24u32) | ((b[13] as u32) << 16u32) | ((b[14] as u32) << 8u32)
            | (b[15] as u32);
        loopback || (mapped && v4 == 0x7f00_0001)
    }

    /// The sixteen octets of the address.
    pub fn ipv6(&self) -> (r: [u8; 16])
        ensures
            r@ == self.octets(),
    {
        self.ip
    }

    /// The port, in host order.
    pub fn port(&self) -> (r: u16)
        ensures
            r == self.spec_port(),
    {
        self.port
    }

    /// The dotted text of an IPv4-mapped address (`a.b.c.d`, or `a.b.c.d:port`
    /// with the port); none for any other IPv6 address.
    pub fn to_ipv4_string(&self, with_port: bool) -> (r: Option<String>)
        ensures
            is_mapped_ipv4(self.octets()) ==> (r matches Some(s) && s@ == ipv4_text(
                self.octets(),
                self.spec_port(),
                with_port,
            )),
            !is_mapped_ipv4(self.octets()) ==> r is None,
    {
        if !self.is_ipv4() {
            return None;
        }
        let mut s = String::new();
        push_decimal(&mut s, self.ip[12] as u64);
        s.append(".");
        push_decimal(&mut s, self.ip[13] as u64);
        s.append(".");
        push_decimal(&mut s, self.ip[14] as u64);
        s.append(".");
        push_decimal(&mut s, self.ip[15] as u64);
        if with_port {
            s.append(":");
            push_decimal(&mut s, self.port as u64);
        }
        assert(s@ =~= ipv4_text(self.octets(), self.spec_port(), with_port));
        Some(s)
    }
}

impl PartialEq for SteamIpAddr {
    fn eq(&self, other: &Self) -> (r: bool) {
        let mut i: usize = 0;
        while i < 16
            invariant
                i <= 16,
                forall|j: int| 0 <= j < i ==> self.ip@[j] == other.ip@[j],
            decreases 16 - i,
        {
            if self.ip[i] != other.ip[i] {
                return false;
            }
            i = i + 1;
        }
        assert(self.ip@ =~= other.ip@);
        self.port == other.port
    }
}

impl vstd::std_specs::cmp::PartialEqSpecImpl for SteamIpAddr {
    open spec fn obeys_eq_spec() -> bool {
        true
    }

    open spec fn eq_spec(&self, other: &Self) -> bool {
        self.octets() == other.octets() && self.spec_port() == other.spec_port()
    }
}

impl Eq for SteamIpAddr {
}

/// Setting an IPv4 address and reading it back gives the same address
/// (`0.0.0.0` reads back as none), and the set address is IPv4-mapped.
pub proof fn lemma_ipv4_roundtrip(ip: u32)
    ensures
        is_mapped_ipv4(mapped_octets(ip)),
        ipv4_of_octets(mapped_octets(ip)) == ip,
{
    assert(((((ip >> 24u32) as u8) as u32) << 24u32) | ((((ip >> 16u32) as u8) as u32) << 16u32)
        | ((((ip >> 8u32) as u8) as u32) << 8u32) | ((ip as u8) as u32) == ip) by (bit_vector);
}

/// The `ESteamNetworkingIdentityType` code of an invalid identity.
pub const IDENTITY_INVALID: i32 = 0;

/// The `ESteamNetworkingIdentityType` code of an IP address identity.
pub const IDENTITY_IP_ADDRESS: i32 = 1;

/// The `ESteamNetworkingIdentityType` code of a steam id identity.
pub const IDENTITY_STEAM_ID: i32 = 16;

/// The identity types whose text rendering the library does not implement:
/// generic strings (2), generic bytes (3) and unknown types (4).
pub open spec fn is_unrendered_identity_type(kind: i32) -> bool {
    kind == 2 || kind == 3 || kind == 4
}

/// The steam id that an identity of this type, holding this id, gives: the
/// id of a steam id identity, unless it is 0.
pub open spec fn identity_steam_id_of(kind: i32, stored: u64) -> Option<u64> {
    if kind == IDENTITY_STEAM_ID && stored != 0 {
        Some(stored)
    } else {
        None
    }
}

/// The address that an identity of this type, holding this address, gives:
/// the address of an IP identity.
pub open spec fn identity_ip_of(kind: i32, stored: SteamIpAddr) -> Option<SteamIpAddr> {
    if kind == IDENTITY_IP_ADDRESS {
        Some(stored)
    } else {
        None
    }
}

/// An identity gives back what was set in it: a steam id identity its
/// (nonzero) id and no address, an IP identity its address and no steam id.
pub proof fn lemma_identity_roundtrip(id: u64, ip_stored: SteamIpAddr, addr: SteamIpAddr, id_stored: u64)
    ensures
        id != 0 ==> identity_steam_id_of(IDENTITY_STEAM_ID, id) == Some(id),
        identity_ip_of(IDENTITY_STEAM_ID, ip_stored) is None,
        identity_ip_of(IDENTITY_IP_ADDRESS, addr) == Some(addr),
        identity_steam_id_of(IDENTITY_IP_ADDRESS, id_stored) is None,
{
}

/// An identity of a peer in the layout of `SteamNetworkingIdentity`: the
/// identity type, and the steam id or IP address that it carries.
#[derive(Copy, Clone, Debug)]
pub struct NetworkingIdentity {
    kind: i32,
    steam_id: u64,
    ip: SteamIpAddr,
}

impl NetworkingIdentity {
    /// The `ESteamNetworkingIdentityType` code of the identity.
    pub closed spec fn kind(self) -> i32 {
        self.kind
    }

    /// The steam id stored in the identity (meaningful for steam id identities).
    pub closed spec fn stored_steam_id(self) -> u64 {
        self.steam_id
    }

    /// The address stored in the identity (meaningful for IP identities).
    pub closed spec fn stored_ip(self) -> SteamIpAddr {
        self.ip
    }

    /// A cleared, invalid identity.
    pub fn new() -> (r: Self)
        ensures
            r.kind() == IDENTITY_INVALID,
            r.stored_steam_id() == 0,
            r.stored_ip() == SteamIpAddr::cleared(),
    {
        NetworkingIdentity { kind: IDENTITY_INVALID, steam_id: 0, ip: SteamIpAddr::new() }
    }

    /// An identity with the raw fields that Steam reports: the type code, the
    /// steam id, and the address.
    pub fn from_raw_fields(kind: i32, steam_id: u64, ip: SteamIpAddr) -> (r: Self)
        ensures
            r.kind() == kind,
            r.stored_steam_id() == steam_id,
            r.stored_ip() == ip,
    {
        NetworkingIdentity { kind, steam_id, ip }
    }

    /// The raw fields of the identity, as `from_raw_fields` takes them: the
    /// type code, the steam id and the address.
    pub fn raw_fields(&self) -> (r: (i32, u64, SteamIpAddr))
        ensures
            r == (self.kind(), self.stored_steam_id(), self.stored_ip()),
    {
        (self.kind, self.steam_id, self.ip)
    }

    /// The identity of a steam user.
    pub fn new_steam_id(id: SteamId) -> (r: Self)
        ensures
            r.kind() == IDENTITY_STEAM_ID,
            r.stored_steam_id() == id@,
            r.stored_ip() == SteamIpAddr::cleared(),
    {
        let mut identity = Self::new();
        identity.set_steam_id(id);
        identity
    }

    /// The identity of an IP address.
    pub fn new_ip(addr: SteamIpAddr) -> (r: Self)
        ensures
            r.kind() == IDENTITY_IP_ADDRESS,
            r.stored_ip() == addr,
            r.stored_steam_id() == 0,
    {
        let mut identity = Self::new();
        identity.set_ip_addr(addr);
        identity
    }

    /// The steam id of a steam id identity; none for other identities and for id 0.
    pub fn steam_id(&self) -> (r: Option<SteamId>)
        ensures
            match r {
                Some(id) => identity_steam_id_of(self.kind(), self.stored_steam_id()) == Some(id@),
                None => identity_steam_id_of(self.kind(), self.stored_steam_id()) is None,
            },
    {
        let id = if self.kind == IDENTITY_STEAM_ID {
            self.steam_id
        } else {
            0
        };
        if id == 0 {
            None
        } else {
            Some(SteamId::from_raw(id))
        }
    }

    /// Whether the identity is valid (its type is not the invalid type).
    pub fn is_valid(&self) -> (r: bool)
        ensures
            r == (self.kind() != IDENTITY_INVALID),
    {
        !self.is_invalid()
    }

    /// Whether the identity is invalid.
    pub fn is_invalid(&self) -> (r: bool)
        ensures
            r == (self.kind() == IDENTITY_INVALID),
    {
        self.kind == IDENTITY_INVALID
    }

    /// Makes this the identity of a steam user.
    pub fn set_steam_id(&mut self, id: SteamId)
        ensures
            final(self).kind() == IDENTITY_STEAM_ID,
            final(self).stored_steam_id() == id@,
            final(self).stored_ip() == old(self).stored_ip(),
    {
        self.kind = IDENTITY_STEAM_ID;
        self.steam_id = id.raw();
    }

    /// Makes this the identity of an IP address.
    pub fn set_ip_addr(&mut self, addr: SteamIpAddr)
        ensures
            final(self).kind() == IDENTITY_IP_ADDRESS,
            final(self).stored_ip() == addr,
            final(self).stored_steam_id() == old(self).stored_steam_id(),
    {
        self.kind = IDENTITY_IP_ADDRESS;
        self.ip = addr;
    }

    /// The address of an IP identity; none for other identities.
    pub fn ip_addr(&self) -> (r: Option<SteamIpAddr>)
        ensures
            r == identity_ip_of(self.kind(), self.stored_ip()),
    {
        if self.kind == IDENTITY_IP_ADDRESS {
            Some(self.ip)
        } else {
            None
        }
    }

    /// Makes this the identity of the IPv6 localhost `::1`.
    pub fn set_local_host(&mut self)
        ensures
            final(self).kind() == IDENTITY_IP_ADDRESS,
            is_ipv6_loopback(final(self).stored_ip().octets()),
            final(self).stored_ip().spec_port() == 0,
    {
        self.kind = IDENTITY_IP_ADDRESS;
        self.ip.set_local_host();
    }

    /// Whether this is the identity of localhost.
    pub fn is_local_host(&self) -> (r: bool)
        ensures
            r == (self.kind() == IDENTITY_IP_ADDRESS && (is_ipv6_loopback(self.stored_ip().octets())
                || (is_mapped_ipv4(self.stored_ip().octets()) && ipv4_of_octets(
                self.stored_ip().octets(),
            ) == 0x7f00_0001))),
    {
        self.kind == IDENTITY_IP_ADDRESS && self.ip.is_local_host()
    }

    /// The text of the identity: `invalid`, `steamid:<id>`, `ip:<a.b.c.d:port>`
    /// or `bad_type:<code>`. None for an IP identity whose address is not IPv4,
    /// whose IPv6 text the caller renders.
    pub fn debug_string(&self) -> (r: Option<String>)
        requires
            !is_unrendered_identity_type(self.kind()),
        ensures
            self.kind() == IDENTITY_INVALID ==> (r matches Some(s) && s@ == "invalid"@),
            self.kind() == IDENTITY_STEAM_ID ==> (r matches Some(s) && s@ == "steamid:"@ + decimal(
                self.stored_steam_id() as nat,
            )),
            self.kind() == IDENTITY_IP_ADDRESS ==> (is_mapped_ipv4(self.stored_ip().octets()) <==> r
                is Some),
            (self.kind() == IDENTITY_IP_ADDRESS && is_mapped_ipv4(self.stored_ip().octets())) ==> (r matches Some(
                s,
            ) && s@ == "ip:"@ + ipv4_text(
                self.stored_ip().octets(),
                self.stored_ip().spec_port(),
                true,
            )),
            (self.kind() != IDENTITY_INVALID && self.kind() != IDENTITY_STEAM_ID && self.kind()
                != IDENTITY_IP_ADDRESS) ==> (r matches Some(s) && s@ == "bad_type:"@ + decimal(
                self.kind() as u32 as nat,
            )),
    {
        if self.kind == IDENTITY_INVALID {
            Some(String::from_str("invalid"))
        } else if self.kind == IDENTITY_STEAM_ID {
            let mut s = String::from_str("steamid:");
            push_decimal(&mut s, self.steam_id);
            Some(s)
        } else if self.kind == IDENTITY_IP_ADDRESS {
            match self.ip.to_ipv4_string(true) {
                Some(ip) => {
                    let mut s = String::from_str("ip:");
                    s.append(ip.as_str());
                    Some(s)
                },
                None => None,
            }
        } else {
            let mut s = String::from_str("bad_type:");
            push_decimal(&mut s, self.kind as u32 as u64);
            Some(s)
        }
    }
}

impl From<SteamId> for NetworkingIdentity {
    fn from(id: SteamId) -> (r: NetworkingIdentity) {
        let r = NetworkingIdentity::new_steam_id(id);
        assert(r.ip == SteamIpAddr::cleared());
        r
    }
}

impl vstd::std_specs::convert::FromSpecImpl<SteamId> for NetworkingIdentity {
    open spec fn obeys_from_spec() -> bool {
        true
    }

    closed spec fn from_spec(id: SteamId) -> NetworkingIdentity {
        NetworkingIdentity { kind: IDENTITY_STEAM_ID, steam_id: id@, ip: SteamIpAddr::cleared() }
    }
}

/// Information about a connection, in the fields of `SteamNetConnectionInfo_t`
/// that the library reads.
#[derive(Copy, Clone, Debug)]
pub struct NetConnectionInfo {
    identity_remote: NetworkingIdentity,
    user_data: i64,
    listen_socket: u32,
    state: i32,
    end_reason: i32,
}

impl NetConnectionInfo {
    pub closed spec fn spec_identity_remote(self) -> NetworkingIdentity {
        self.identity_remote
    }

    pub closed spec fn spec_user_data(self) -> i64 {
        self.user_data
    }

    pub closed spec fn spec_listen_socket(self) -> u32 {
        self.listen_socket
    }

    pub closed spec fn spec_state(self) -> i32 {
        self.state
    }

    pub closed spec fn spec_end_reason(self) -> i32 {
        self.end_reason
    }

    /// The information with these raw fields.
    pub fn from_raw_fields(
        identity_remote: NetworkingIdentity,
        user_data: i64,
        listen_socket: u32,
        state: i32,
        end_reason: i32,
    ) -> (r: Self)
        ensures
            r.spec_identity_remote() == identity_remote,
            r.spec_user_data() == user_data,
            r.spec_listen_socket() == listen_socket,
            r.spec_state() == state,
            r.spec_end_reason() == end_reason,
    {
        NetConnectionInfo { identity_remote, user_data, listen_socket, state, end_reason }
    }

    /// The raw `ESteamNetworkingConnectionState` code of the connection.
    pub fn raw_state(&self) -> (r: i32)
        ensures
            r == self.spec_state(),
    {
        self.state
    }

    /// The raw `ESteamNetConnectionEnd` code of the connection's end reason.
    pub fn raw_end_reason(&self) -> (r: i32)
        ensures
            r == self.spec_end_reason(),
    {
        self.end_reason
    }

    /// Return the network identity of the remote peer.
    ///
    /// Depending on the connection type and phase of the connection, it may be unknown, in which case `None` is returned.
    /// If `Some` is returned, the return value is a valid `NetworkingIdentity`.
    pub fn identity_remote(&self) -> (r: Option<NetworkingIdentity>)
        ensures
            self.spec_identity_remote().kind() != IDENTITY_INVALID ==> r == Some(
                self.spec_identity_remote(),
            ),
            self.spec_identity_remote().kind() == IDENTITY_INVALID ==> r is None,
    {
        if self.identity_remote.is_valid() {
            Some(self.identity_remote)
        } else {
            None
        }
    }

    pub fn user_data(&self) -> (r: i64)
        ensures
            r == self.spec_user_data(),
    {
        self.user_data
    }

    /// The listen socket the connection came in on; none for connections
    /// initiated locally (the invalid socket 0).
    pub fn listen_socket(&self) -> (r: Option<u32>)
        ensures
            self.spec_listen_socket() == 0 ==> r is None,
            self.spec_listen_socket() != 0 ==> r == Some(self.spec_listen_socket()),
    {
        if self.listen_socket == 0 {
            None
        } else {
            Some(self.listen_socket)
        }
    }

    pub fn state(&self) -> (r: Result<NetworkingConnectionState, InvalidConnectionState>)
        ensures
            r == (match networking_connection_state_of_code(self.spec_state()) {
                Some(s) => Ok(s),
                None => Err(InvalidConnectionState),
            }),
    {
        NetworkingConnectionState::try_from(self.state)
    }

    /// Why the connection ended; none while the reason is the invalid reason 0.
    pub fn end_reason(&self) -> (r: Option<NetConnectionEnd>)
        requires
            self.spec_end_reason() == 0 || net_connection_end_of_code(self.spec_end_reason()) is Some,
        ensures
            self.spec_end_reason() == 0 ==> r is None,
            self.spec_end_reason() != 0 ==> r == net_connection_end_of_code(self.spec_end_reason()),
    {
        if self.end_reason == 0 {
            None
        } else {
            Some(NetConnectionEnd::from_code(self.end_reason))
        }
    }
}

/// A change of a connection's state, as `SteamNetConnectionStatusChangedCallback_t` reports it.
#[derive(Debug, Clone)]
pub struct NetConnectionStatusChanged {
    pub connection: u32,
    pub connection_info: NetConnectionInfo,
    pub old_state: NetworkingConnectionState,
}

/// A listen socket's peer that ended its connection.
#[derive(Copy, Clone, Debug)]
pub struct DisconnectedEvent {
    remote: NetworkingIdentity,
    user_data: i64,
    end_reason: NetConnectionEnd,
}

impl DisconnectedEvent {
    pub closed spec fn spec_remote(self) -> NetworkingIdentity {
        self.remote
    }

    pub closed spec fn spec_user_data(self) -> i64 {
        self.user_data
    }

    pub closed spec fn spec_end_reason(self) -> NetConnectionEnd {
        self.end_reason
    }

    pub fn remote(&self) -> (r: NetworkingIdentity)
        ensures
            r == self.spec_remote(),
    {
        self.remote
    }

    pub fn user_data(&self) -> (r: i64)
        ensures
            r == self.spec_user_data(),
    {
        self.user_data
    }

    pub fn end_reason(&self) -> (r: NetConnectionEnd)
        ensures
            r == self.spec_end_reason(),
    {
        self.end_reason
    }
}

/// What a connection status change means to a listen socket: a peer asks to
/// connect, a peer is connected, or a peer left.
#[derive(Copy, Clone, Debug)]
pub enum ListenSocketEventKind {
    Connecting { remote: NetworkingIdentity, user_data: i64 },
    Connected { remote: NetworkingIdentity, user_data: i64 },
    Disconnected(DisconnectedEvent),
}

/// Why a connection status change is no listen socket event.
#[derive(Copy, Clone, Debug)]
pub enum NetConnectionError {
    /// internal event type has no corresponding external event
    UnhandledType(NetworkingConnectionState),
    /// invalid event type
    UnknownType(InvalidConnectionState),
    /// invalid remote
    InvalidRemote,
}

/// Whether a state is one in which the peer has left.
pub open spec fn is_closed_state(s: NetworkingConnectionState) -> bool {
    s == NetworkingConnectionState::ClosedByPeer || s == NetworkingConnectionState::ProblemDetectedLocally
}

impl NetConnectionStatusChanged {
    /// Decides what the status change means to a listen socket. States without
    /// an event give `UnhandledType`, unknown state codes `UnknownType`, and an
    /// event whose peer is unknown `InvalidRemote`. A disconnection of a known
    /// peer must carry a valid end reason.
    pub fn listen_socket_event_kind(&self) -> (r: Result<ListenSocketEventKind, NetConnectionError>)
        requires
            (match networking_connection_state_of_code(self.connection_info.spec_state()) {
                Some(s) => is_closed_state(s) && self.connection_info.spec_identity_remote().kind()
                    != IDENTITY_INVALID,
                None => false,
            }) ==> net_connection_end_of_code(self.connection_info.spec_end_reason()) is Some,
        ensures
            ({
                let info = self.connection_info;
                let remote = info.spec_identity_remote();
                let valid = remote.kind() != IDENTITY_INVALID;
                match networking_connection_state_of_code(info.spec_state()) {
                    None => r matches Err(NetConnectionError::UnknownType(_)),
                    Some(NetworkingConnectionState::NoState) => r matches Err(
                        NetConnectionError::UnhandledType(NetworkingConnectionState::NoState),
                    ),
                    Some(NetworkingConnectionState::FindingRoute) => r matches Err(
                        NetConnectionError::UnhandledType(NetworkingConnectionState::FindingRoute),
                    ),
                    Some(NetworkingConnectionState::Connecting) => if valid {
                        r matches Ok(ListenSocketEventKind::Connecting { remote: rr, user_data })
                            && rr == remote && user_data == info.spec_user_data()
                    } else {
                        r matches Err(NetConnectionError::InvalidRemote)
                    },
                    Some(NetworkingConnectionState::Connected) => if valid {
                        r matches Ok(ListenSocketEventKind::Connected { remote: rr, user_data })
                            && rr == remote && user_data == info.spec_user_data()
                    } else {
                        r matches Err(NetConnectionError::InvalidRemote)
                    },
                    Some(_) => if valid {
                        r matches Ok(ListenSocketEventKind::Disconnected(e)) && e.spec_remote()
                            == remote && e.spec_user_data() == info.spec_user_data() && Some(
                            e.spec_end_reason(),
                        ) == net_connection_end_of_code(info.spec_end_reason())
                    } else {
                        r matches Err(NetConnectionError::InvalidRemote)
                    },
                }
            }),
    {
        let info = &self.connection_info;
        match info.state() {
            Ok(NetworkingConnectionState::NoState) => Err(
                NetConnectionError::UnhandledType(NetworkingConnectionState::NoState),
            ),
            Ok(NetworkingConnectionState::Connecting) => match info.identity_remote() {
                Some(remote) => Ok(
                    ListenSocketEventKind::Connecting { remote, user_data: info.user_data() },
                ),
                None => Err(NetConnectionError::InvalidRemote),
            },
            Ok(NetworkingConnectionState::FindingRoute) => Err(
                NetConnectionError::UnhandledType(NetworkingConnectionState::FindingRoute),
            ),
            Ok(NetworkingConnectionState::Connected) => match info.identity_remote() {
                Some(remote) => Ok(
                    ListenSocketEventKind::Connected { remote, user_data: info.user_data() },
                ),
                None => Err(NetConnectionError::InvalidRemote),
            },
            Ok(NetworkingConnectionState::ClosedByPeer)
            | Ok(NetworkingConnectionState::ProblemDetectedLocally) => match info.identity_remote() {
                Some(remote) => {
                    let end_reason = NetConnectionEnd::from_code(info.end_reason);
                    Ok(
                        ListenSocketEventKind::Disconnected(
                            DisconnectedEvent { remote, user_data: info.user_data(), end_reason },
                        ),
                    )
                },
                None => Err(NetConnectionError::InvalidRemote),
            },
            Err(err) => Err(NetConnectionError::UnknownType(err)),
        }
    }
}

/// Why data could not be put into a networking message.
#[derive(Copy, Clone, Debug, PartialEq, Eq, Structural)]
pub enum MessageError {
    /// failed to write data to message, the buffer is not set
    NullBuffer,
    /// copied data is too large for the current buffer
    BufferTooSmall,
    /// cannot set a new buffer, the message already has a valid buffer
    BufferAlreadySet,
}

/// Whether `data_len` bytes may be copied into a message buffer: the buffer
/// must be set and hold at least that many bytes.
pub fn check_copy_into_message(buffer_is_null: bool, buffer_size: i32, data_len: usize) -> (r: Result<(), MessageError>)
    ensures
        buffer_is_null ==> r == Err::<(), MessageError>(MessageError::NullBuffer),
        (!buffer_is_null && (buffer_size as usize) < data_len) ==> r == Err::<(), MessageError>(
            MessageError::BufferTooSmall,
        ),
        (!buffer_is_null && (buffer_size as usize) >= data_len) ==> r == Ok::<(), MessageError>(()),
{
    if buffer_is_null {
        Err(MessageError::NullBuffer)
    } else if (buffer_size as usize) < data_len {
        Err(MessageError::BufferTooSmall)
    } else {
        Ok(())
    }
}

/// Whether a message may be given a new buffer: only when it has none yet.
pub fn check_set_message_data(buffer_is_null: bool) -> (r: Result<(), MessageError>)
    ensures
        buffer_is_null ==> r == Ok::<(), MessageError>(()),
        !buffer_is_null ==> r == Err::<(), MessageError>(MessageError::BufferAlreadySet),
{
    if buffer_is_null {
        Ok(())
    } else {
        Err(MessageError::BufferAlreadySet)
    }
}

/// The result that `SendMessages` reports for one message: a message number
/// when it is not negative, else the negated `EResult` code of the failure.
pub fn message_send_result(result: i64) -> (r: Result<MessageNumber, SteamError>)
    requires
        result >= 0 || (result > i64::MIN && error_of_code((-result) as i64) is Some),
    ensures
        result >= 0 ==> (r matches Ok(n) && n@ == result as u64),
        result < 0 ==> r == Err::<MessageNumber, SteamError>(error_of_code((-result) as i64).unwrap()),
{
    if result >= 0 {
        Ok(MessageNumber(result as u64))
    } else {
        Err(SteamError::from_result_code(0 - result))
    }
}

/// A `MessageNumber` is its view: two values with the same view are the same value.
pub proof fn lemma_message_number_view_injective(a: MessageNumber, b: MessageNumber)
    ensures
        a@ == b@ <==> a == b,
{
}

/// A `SendFlags` is its view: two values with the same view are the same value.
pub proof fn lemma_send_flags_view_injective(a: SendFlags, b: SendFlags)
    ensures
        a@ == b@ <==> a == b,
{
}

/// The values of `config_data_type`, as the Steamworks SDK headers fix them.
pub proof fn lemma_config_data_type_table()
    ensures
        config_data_type(NetworkingConfigValue::FakePacketLossSend) == NetworkingConfigDataType::Float,
        config_data_type(NetworkingConfigValue::FakePacketLossRecv) == NetworkingConfigDataType::Float,
        config_data_type(NetworkingConfigValue::FakePacketLagSend) == NetworkingConfigDataType::Int32,
        config_data_type(NetworkingConfigValue::FakePacketLagRecv) == NetworkingConfigDataType::Int32,
        config_data_type(NetworkingConfigValue::FakePacketReorderSend) == NetworkingConfigDataType::Float,
        config_data_type(NetworkingConfigValue::FakePacketReorderRecv) == NetworkingConfigDataType::Float,
        config_data_type(NetworkingConfigValue::FakePacketReorderTime) == NetworkingConfigDataType::Int32,
        config_data_type(NetworkingConfigValue::FakePacketDupSend) == NetworkingConfigDataType::Float,
        config_data_type(NetworkingConfigValue::FakePacketDupRecv) == NetworkingConfigDataType::Float,
        config_data_type(NetworkingConfigValue::FakePacketDupTimeMax) == NetworkingConfigDataType::Int32,
        config_data_type(NetworkingConfigValue::TimeoutInitial) == NetworkingConfigDataType::Int32,
        config_data_type(NetworkingConfigValue::TimeoutConnected) == NetworkingConfigDataType::Int32,
        config_data_type(NetworkingConfigValue::SendBufferSize) == NetworkingConfigDataType::Int32,
        config_data_type(NetworkingConfigValue::SendRateMin) == NetworkingConfigDataType::Int32,
        config_data_type(NetworkingConfigValue::SendRateMax) == NetworkingConfigDataType::Int32,
        config_data_type(NetworkingConfigValue::NagleTime) == NetworkingConfigDataType::Int32,
        config_data_type(NetworkingConfigValue::IPAllowWithoutAuth) == NetworkingConfigDataType::Int32,
        config_data_type(NetworkingConfigValue::MTUPacketSize) == NetworkingConfigDataType::Int32,
        config_data_type(NetworkingConfigValue::MTUDataSize) == NetworkingConfigDataType::Int32,
        config_data_type(NetworkingConfigValue::Unencrypted) == NetworkingConfigDataType::Int32,
        config_data_type(NetworkingConfigValue::EnumerateDevVars) == NetworkingConfigDataType::Int32,
        config_data_type(NetworkingConfigValue::SymmetricConnect) == NetworkingConfigDataType::Int32,
        config_data_type(NetworkingConfigValue::LocalVirtualPort) == NetworkingConfigDataType::Int32,
        config_data_type(NetworkingConfigValue::CallbackConnectionStatusChanged) == NetworkingConfigDataType::Callback,
        config_data_type(NetworkingConfigValue::CallbackAuthStatusChanged) == NetworkingConfigDataType::Callback,
        config_data_type(NetworkingConfigValue::CallbackRelayNetworkStatusChanged) == NetworkingConfigDataType::Callback,
        config_data_type(NetworkingConfigValue::CallbackMessagesSessionRequest) == NetworkingConfigDataType::Callback,
        config_data_type(NetworkingConfigValue::CallbackMessagesSessionFailed) == NetworkingConfigDataType::Callback,
        config_data_type(NetworkingConfigValue::CallbackCreateConnectionSignaling) == NetworkingConfigDataType::Callback,
        config_data_type(NetworkingConfigValue::P2PSTUNServerList) == NetworkingConfigDataType::String,
        config_data_type(NetworkingConfigValue::P2PTransportICEEnable) == NetworkingConfigDataType::Int32,
        config_data_type(NetworkingConfigValue::P2PTransportICEPenalty) == NetworkingConfigDataType::Int32,
        config_data_type(NetworkingConfigValue::P2PTransportSDRPenalty) == NetworkingConfigDataType::Int32,
        config_data_type(NetworkingConfigValue::SDRClientConsecutitivePingTimeoutsFailInitial) == NetworkingConfigDataType::Int32,
        config_data_type(NetworkingConfigValue::SDRClientConsecutitivePingTimeoutsFail) == NetworkingConfigDataType::Int32,
        config_data_type(NetworkingConfigValue::SDRClientMinPingsBeforePingAccurate) == NetworkingConfigDataType::Int32,
        config_data_type(NetworkingConfigValue::SDRClientSingleSocket) == NetworkingConfigDataType::Int32,
        config_data_type(NetworkingConfigValue::SDRClientForceRelayCluster) == NetworkingConfigDataType::String,
        config_data_type(NetworkingConfigValue::SDRClientDebugTicketAddress) == NetworkingConfigDataType::String,
        config_data_type(NetworkingConfigValue::SDRClientForceProxyAddr) == NetworkingConfigDataType::String,
        config_data_type(NetworkingConfigValue::SDRClientFakeClusterPing) == NetworkingConfigDataType::String,
        config_data_type(NetworkingConfigValue::LogLevelAckRTT) == NetworkingConfigDataType::Int32,
        config_data_type(NetworkingConfigValue::LogLevelPacketDecode) == NetworkingConfigDataType::Int32,
        config_data_type(NetworkingConfigValue::LogLevelMessage) == NetworkingConfigDataType::Int32,
        config_data_type(NetworkingConfigValue::LogLevelPacketGaps) == NetworkingConfigDataType::Int32,
        config_data_type(NetworkingConfigValue::LogLevelP2PRendezvous) == NetworkingConfigDataType::Int32,
        config_data_type(NetworkingConfigValue::LogLevelSDRRelayPings) == NetworkingConfigDataType::Int32,
{
}

/// The values of `networking_connection_state_of_code`, as the Steamworks SDK headers fix them.
pub proof fn lemma_networking_connection_state_of_code_table()
    ensures
        networking_connection_state_of_code(0) == Some(NetworkingConnectionState::NoState),
        networking_connection_state_of_code(1) == Some(NetworkingConnectionState::Connecting),
        networking_connection_state_of_code(2) == Some(NetworkingConnectionState::FindingRoute),
        networking_connection_state_of_code(3) == Some(NetworkingConnectionState::Connected),
        networking_connection_state_of_code(4) == Some(NetworkingConnectionState::ClosedByPeer),
        networking_connection_state_of_code(5) == Some(NetworkingConnectionState::ProblemDetectedLocally),
{
}

/// The values of `net_connection_end_of_code`, as the Steamworks SDK headers fix them.
pub proof fn lemma_net_connection_end_of_code_table()
    ensures
        net_connection_end_of_code(1000) == Some(NetConnectionEnd::AppGeneric),
        net_connection_end_of_code(2000) == Some(NetConnectionEnd::AppException),
        net_connection_end_of_code(3001) == Some(NetConnectionEnd::LocalOfflineMode),
        net_connection_end_of_code(3002) == Some(NetConnectionEnd::LocalManyRelayConnectivity),
        net_connection_end_of_code(3003) == Some(NetConnectionEnd::LocalHostedServerPrimaryRelay),
        net_connection_end_of_code(3004) == Some(NetConnectionEnd::LocalNetworkConfig),
        net_connection_end_of_code(3005) == Some(NetConnectionEnd::LocalRights),
        net_connection_end_of_code(3006) == Some(NetConnectionEnd::LocalP2PICENoPublicAddresses),
        net_connection_end_of_code(4001) == Some(NetConnectionEnd::RemoteTimeout),
        net_connection_end_of_code(4002) == Some(NetConnectionEnd::RemoteBadEncrypt),
        net_connection_end_of_code(4003) == Some(NetConnectionEnd::RemoteBadCert),
        net_connection_end_of_code(4004) == Some(NetConnectionEnd::RemoteNotLoggedIn),
        net_connection_end_of_code(4005) == Some(NetConnectionEnd::RemoteNotRunningApp),
        net_connection_end_of_code(4006) == Some(NetConnectionEnd::RemoteBadProtocolVersion),
        net_connection_end_of_code(4007) == Some(NetConnectionEnd::RemoteP2PICENoPublicAddresses),
        net_connection_end_of_code(5001) == Some(NetConnectionEnd::MiscGeneric),
        net_connection_end_of_code(5002) == Some(NetConnectionEnd::MiscInternalError),
        net_connection_end_of_code(5003) == Some(NetConnectionEnd::MiscTimeout),
        net_connection_end_of_code(5004) == Some(NetConnectionEnd::MiscRelayConnectivity),
        net_connection_end_of_code(5005) == Some(NetConnectionEnd::MiscSteamConnectivity),
        net_connection_end_of_code(5006) == Some(NetConnectionEnd::MiscNoRelaySessionsToClient),
        net_connection_end_of_code(5008) == Some(NetConnectionEnd::MiscP2PRendezvous),
        net_connection_end_of_code(5009) == Some(NetConnectionEnd::MiscP2PNATFirewall),
        net_connection_end_of_code(5010) == Some(NetConnectionEnd::MiscPeerSentNoConnection),
{
}

/// The values of `availability_of_code`, as the Steamworks SDK headers fix them.
pub proof fn lemma_availability_of_code_table()
    ensures
        availability_of_code(0) == Some(Err::<NetworkingAvailability, NetworkingAvailabilityError>(NetworkingAvailabilityError::Unknown)),
        availability_of_code(-102i32) == Some(Err::<NetworkingAvailability, NetworkingAvailabilityError>(NetworkingAvailabilityError::CannotTry)),
        availability_of_code(-101i32) == Some(Err::<NetworkingAvailability, NetworkingAvailabilityError>(NetworkingAvailabilityError::Failed)),
        availability_of_code(-100i32) == Some(Err::<NetworkingAvailability, NetworkingAvailabilityError>(NetworkingAvailabilityError::Previously)),
        availability_of_code(-10i32) == Some(Err::<NetworkingAvailability, NetworkingAvailabilityError>(NetworkingAvailabilityError::Retrying)),
        availability_of_code(1) == Some(Ok::<NetworkingAvailability, NetworkingAvailabilityError>(NetworkingAvailability::NeverTried)),
        availability_of_code(2) == Some(Ok::<NetworkingAvailability, NetworkingAvailabilityError>(NetworkingAvailability::Waiting)),
        availability_of_code(3) == Some(Ok::<NetworkingAvailability, NetworkingAvailabilityError>(NetworkingAvailability::Attempting)),
        availability_of_code(100) == Some(Ok::<NetworkingAvailability, NetworkingAvailabilityError>(NetworkingAvailability::Current)),
{
}

/// The values of `NetworkingConfigDataType::spec_code`, as the Steamworks SDK headers fix them.
pub proof fn lemma_networking_config_data_type_code_table()
    ensures
        NetworkingConfigDataType::Int32.spec_code() == 1,
        NetworkingConfigDataType::Int64.spec_code() == 2,
        NetworkingConfigDataType::Float.spec_code() == 3,
        NetworkingConfigDataType::String.spec_code() == 4,
        NetworkingConfigDataType::Callback.spec_code() == 5,
{
}

/// The values of `NetworkingConfigValue::spec_code`, as the Steamworks SDK headers fix them.
pub proof fn lemma_networking_config_value_code_table()
    ensures
        NetworkingConfigValue::FakePacketLossSend.spec_code() == 2,
        NetworkingConfigValue::FakePacketLossRecv.spec_code() == 3,
        NetworkingConfigValue::FakePacketLagSend.spec_code() == 4,
        NetworkingConfigValue::FakePacketLagRecv.spec_code() == 5,
        NetworkingConfigValue::FakePacketReorderSend.spec_code() == 6,
        NetworkingConfigValue::FakePacketReorderRecv.spec_code() == 7,
        NetworkingConfigValue::FakePacketReorderTime.spec_code() == 8,
        NetworkingConfigValue::FakePacketDupSend.spec_code() == 26,
        NetworkingConfigValue::FakePacketDupRecv.spec_code() == 27,
        NetworkingConfigValue::FakePacketDupTimeMax.spec_code() == 28,
        NetworkingConfigValue::TimeoutInitial.spec_code() == 24,
        NetworkingConfigValue::TimeoutConnected.spec_code() == 25,
        NetworkingConfigValue::SendBufferSize.spec_code() == 9,
        NetworkingConfigValue::SendRateMin.spec_code() == 10,
        NetworkingConfigValue::SendRateMax.spec_code() == 11,
        NetworkingConfigValue::NagleTime.spec_code() == 12,
        NetworkingConfigValue::IPAllowWithoutAuth.spec_code() == 23,
        NetworkingConfigValue::MTUPacketSize.spec_code() == 32,
        NetworkingConfigValue::MTUDataSize.spec_code() == 33,
        NetworkingConfigValue::Unencrypted.spec_code() == 34,
        NetworkingConfigValue::EnumerateDevVars.spec_code() == 35,
        NetworkingConfigValue::SymmetricConnect.spec_code() == 37,
        NetworkingConfigValue::LocalVirtualPort.spec_code() == 38,
        NetworkingConfigValue::CallbackConnectionStatusChanged.spec_code() == 201,
        NetworkingConfigValue::CallbackAuthStatusChanged.spec_code() == 202,
        NetworkingConfigValue::CallbackRelayNetworkStatusChanged.spec_code() == 203,
        NetworkingConfigValue::CallbackMessagesSessionRequest.spec_code() == 204,
        NetworkingConfigValue::CallbackMessagesSessionFailed.spec_code() == 205,
        NetworkingConfigValue::CallbackCreateConnectionSignaling.spec_code() == 206,
        NetworkingConfigValue::P2PSTUNServerList.spec_code() == 103,
        NetworkingConfigValue::P2PTransportICEEnable.spec_code() == 104,
        NetworkingConfigValue::P2PTransportICEPenalty.spec_code() == 105,
        NetworkingConfigValue::P2PTransportSDRPenalty.spec_code() == 106,
        NetworkingConfigValue::SDRClientConsecutitivePingTimeoutsFailInitial.spec_code() == 19,
        NetworkingConfigValue::SDRClientConsecutitivePingTimeoutsFail.spec_code() == 20,
        NetworkingConfigValue::SDRClientMinPingsBeforePingAccurate.spec_code() == 21,
        NetworkingConfigValue::SDRClientSingleSocket.spec_code() == 22,
        NetworkingConfigValue::SDRClientForceRelayCluster.spec_code() == 29,
        NetworkingConfigValue::SDRClientDebugTicketAddress.spec_code() == 30,
        NetworkingConfigValue::SDRClientForceProxyAddr.spec_code() == 31,
        NetworkingConfigValue::SDRClientFakeClusterPing.spec_code() == 36,
        NetworkingConfigValue::LogLevelAckRTT.spec_code() == 13,
        NetworkingConfigValue::LogLevelPacketDecode.spec_code() == 14,
        NetworkingConfigValue::LogLevelMessage.spec_code() == 15,
        NetworkingConfigValue::LogLevelPacketGaps.spec_code() == 16,
        NetworkingConfigValue::LogLevelP2PRendezvous.spec_code() == 17,
        NetworkingConfigValue::LogLevelSDRRelayPings.spec_code() == 18,
{
}

/// The values of `NetworkingConnectionState::spec_code`, as the Steamworks SDK headers fix them.
pub proof fn lemma_networking_connection_state_code_table()
    ensures
        NetworkingConnectionState::NoState.spec_code() == 0,
        NetworkingConnectionState::Connecting.spec_code() == 1,
        NetworkingConnectionState::FindingRoute.spec_code() == 2,
        NetworkingConnectionState::Connected.spec_code() == 3,
        NetworkingConnectionState::ClosedByPeer.spec_code() == 4,
        NetworkingConnectionState::ProblemDetectedLocally.spec_code() == 5,
{
}

/// The values of `NetConnectionEnd::spec_code`, as the Steamworks SDK headers fix them.
pub proof fn lemma_net_connection_end_code_table()
    ensures
        NetConnectionEnd::AppGeneric.spec_code() == 1000,
        NetConnectionEnd::AppException.spec_code() == 2000,
        NetConnectionEnd::LocalOfflineMode.spec_code() == 3001,
        NetConnectionEnd::LocalManyRelayConnectivity.spec_code() == 3002,
        NetConnectionEnd::LocalHostedServerPrimaryRelay.spec_code() == 3003,
        NetConnectionEnd::LocalNetworkConfig.spec_code() == 3004,
        NetConnectionEnd::LocalRights.spec_code() == 3005,
        NetConnectionEnd::LocalP2PICENoPublicAddresses.spec_code() == 3006,
        NetConnectionEnd::RemoteTimeout.spec_code() == 4001,
        NetConnectionEnd::RemoteBadEncrypt.spec_code() == 4002,
        NetConnectionEnd::RemoteBadCert.spec_code() == 4003,
        NetConnectionEnd::RemoteNotLoggedIn.spec_code() == 4004,
        NetConnectionEnd::RemoteNotRunningApp.spec_code() == 4005,
        NetConnectionEnd::RemoteBadProtocolVersion.spec_code() == 4006,
        NetConnectionEnd::RemoteP2PICENoPublicAddresses.spec_code() == 4007,
        NetConnectionEnd::MiscGeneric.spec_code() == 5001,
        NetConnectionEnd::MiscInternalError.spec_code() == 5002,
        NetConnectionEnd::MiscTimeout.spec_code() == 5003,
        NetConnectionEnd::MiscRelayConnectivity.spec_code() == 5004,
        NetConnectionEnd::MiscSteamConnectivity.spec_code() == 5005,
        NetConnectionEnd::MiscNoRelaySessionsToClient.spec_code() == 5006,
        NetConnectionEnd::MiscP2PRendezvous.spec_code() == 5008,
        NetConnectionEnd::MiscP2PNATFirewall.spec_code() == 5009,
        NetConnectionEnd::MiscPeerSentNoConnection.spec_code() == 5010,
{
}

/// Every flag set of the named `SendFlags` flags lies within `all`, and `all`
/// is exactly their union.
pub proof fn lemma_send_flags_all_is_union_of_flags()
    ensures
        SendFlags::all_bits() == (0i32 | 1i32 | 1i32 | 4i32 | 5i32 | 8i32 | 9i32 | 16i32 | 32i32),
{
    assert((0i32 | 1i32 | 1i32 | 4i32 | 5i32 | 8i32 | 9i32 | 16i32 | 32i32) == SendFlags::all_bits()) by (bit_vector);
}

} // verus!
