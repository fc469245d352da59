use vstd::prelude::*;

use crate::bits::{lemma_flag_bits_i32, lemma_flag_bits_u16};
use crate::ids::SteamId;
use crate::matchmaking::LobbyId;
use crate::text::{c_text, c_text_of, CTextError};

verus! {

/// Relationship flags of a friend, as the friends interface filters them.
#[derive(PartialEq, Eq, PartialOrd, Ord, Hash, Debug, Clone, Copy, Structural)]
pub struct FriendFlags(u16);

impl FriendFlags {
    #[allow(non_snake_case)]
    pub fn NONE() -> (r: FriendFlags)
        ensures
            r@ == 0x0000,
    {
        FriendFlags(0x0000)
    }

    #[allow(non_snake_case)]
    pub fn BLOCKED() -> (r: FriendFlags)
        ensures
            r@ == 0x0001,
    {
        FriendFlags(0x0001)
    }

    #[allow(non_snake_case)]
    pub fn FRIENDSHIP_REQUESTED() -> (r: FriendFlags)
        ensures
            r@ == 0x0002,
    {
        FriendFlags(0x0002)
    }

    #[allow(non_snake_case)]
    pub fn IMMEDIATE() -> (r: FriendFlags)
        ensures
            r@ == 0x0004,
    {
        FriendFlags(0x0004)
    }

    #[allow(non_snake_case)]
    pub fn CLAN_MEMBER() -> (r: FriendFlags)
        ensures
            r@ == 0x0008,
    {
        FriendFlags(0x0008)
    }

    #[allow(non_snake_case)]
    pub fn ON_GAME_SERVER() -> (r: FriendFlags)
        ensures
            r@ == 0x0010,
    {
        FriendFlags(0x0010)
    }

    #[allow(non_snake_case)]
    pub fn REQUESTING_FRIENDSHIP() -> (r: FriendFlags)
        ensures
            r@ == 0x0080,
    {
        FriendFlags(0x0080)
    }

    #[allow(non_snake_case)]
    pub fn REQUESTING_INFO() -> (r: FriendFlags)
        ensures
            r@ == 0x0100,
    {
        FriendFlags(0x0100)
    }

    #[allow(non_snake_case)]
    pub fn IGNORED() -> (r: FriendFlags)
        ensures
            r@ == 0x0200,
    {
        FriendFlags(0x0200)
    }

    #[allow(non_snake_case)]
    pub fn IGNORED_FRIEND() -> (r: FriendFlags)
        ensures
            r@ == 0x0400,
    {
        FriendFlags(0x0400)
    }

    #[allow(non_snake_case)]
    pub fn CHAT_MEMBER() -> (r: FriendFlags)
        ensures
            r@ == 0x1000,
    {
        FriendFlags(0x1000)
    }

    #[allow(non_snake_case)]
    pub fn ALL() -> (r: FriendFlags)
        ensures
            r@ == 0xFFFF,
    {
        FriendFlags(0xFFFF)
    }

    /// The bits of every flag that the type names.
    pub open spec fn all_bits() -> u16 {
        0xFFFFu16
    }

    /// The bits of this flag set.
    pub closed spec fn view(self) -> u16 {
        self.0
    }

    /// The flag set with no flag.
    pub fn empty() -> (r: Self)
        ensures
            r@ == 0,
    {
        FriendFlags(0)
    }

    /// The flag set with every flag that the type names.
    pub fn all() -> (r: Self)
        ensures
            r@ == Self::all_bits(),
    {
        FriendFlags(0xFFFFu16)
    }

    /// The bits of this flag set.
    pub fn bits(&self) -> (r: u16)
        ensures
            r == self@,
    {
        self.0
    }

    /// The flag set with exactly these bits, if each of them is a named flag.
    pub fn from_bits(bits: u16) -> (r: Option<Self>)
        ensures
            r is Some <==> bits & !Self::all_bits() == 0,
            r matches Some(f) ==> f@ == bits,
    {
        if bits & !0xFFFFu16 == 0 {
            Some(FriendFlags(bits))
        } else {
            None
        }
    }

    /// The flag set with the named flags among these bits; other bits are dropped.
    pub fn from_bits_truncate(bits: u16) -> (r: Self)
        ensures
            r@ == bits & Self::all_bits(),
    {
        FriendFlags(bits & 0xFFFFu16)
    }

    /// The flag set with exactly these bits, named or not.
    pub fn from_bits_retain(bits: u16) -> (r: Self)
        ensures
            r@ == bits,
    {
        FriendFlags(bits)
    }

    /// Whether no bit is set.
    pub fn is_empty(&self) -> (r: bool)
        ensures
            r == (self@ == 0),
    {
        self.0 == 0
    }

    /// Whether every named flag is set.
    pub fn is_all(&self) -> (r: bool)
        ensures
            r == (self@ & Self::all_bits() == Self::all_bits()),
    {
        self.0 & 0xFFFFu16 == 0xFFFFu16
    }

    /// Whether every bit of `other` is set in this set.
    pub fn contains(&self, other: Self) -> (r: bool)
        ensures
            r == (self@ & other@ == other@),
    {
        self.0 & other.0 == other.0
    }

    /// Whether this set and `other` share a bit.
    pub fn intersects(&self, other: Self) -> (r: bool)
        ensures
            r == (self@ & other@ != 0),
    {
        self.0 & other.0 != 0
    }

    /// Sets the bits of `other`.
    pub fn insert(&mut self, other: Self)
        ensures
            final(self)@ == old(self)@ | other@,
    {
        self.0 = self.0 | other.0;
    }

    /// Clears the bits of `other`.
    pub fn remove(&mut self, other: Self)
        ensures
            final(self)@ == old(self)@ & !other@,
    {
        self.0 = self.0 & !other.0;
    }

    /// The bits set in either set.
    pub fn union(self, other: Self) -> (r: Self)
        ensures
            r@ == self@ | other@,
    {
        FriendFlags(self.0 | other.0)
    }

    /// The bits set in both sets.
    pub fn intersection(self, other: Self) -> (r: Self)
        ensures
            r@ == self@ & other@,
    {
        FriendFlags(self.0 & other.0)
    }

    /// The bits set in this set and not in `other`.
    pub fn difference(self, other: Self) -> (r: Self)
        ensures
            r@ == self@ & !other@,
    {
        FriendFlags(self.0 & !other.0)
    }
}

/// The laws of `FriendFlags`: an inserted set is contained afterwards, a
/// removed set no longer intersects, union is commutative and contains
/// both operands, and truncated bits always form a valid flag set, which
/// truncation leaves unchanged.
pub proof fn lemma_friend_flags_laws(a: FriendFlags, b: FriendFlags, bits: u16)
    ensures
        (a@ | b@) & b@ == b@,
        (a@ | b@) & a@ == a@,
        (a@ & !b@) & b@ == 0,
        a@ | b@ == b@ | a@,
        (bits & FriendFlags::all_bits()) & !FriendFlags::all_bits() == 0,
        (bits & FriendFlags::all_bits()) & FriendFlags::all_bits() == bits & FriendFlags::all_bits(),
{
    lemma_flag_bits_u16(a@, b@, bits, FriendFlags::all_bits());
}

/// What changed about a user in a `PersonaStateChange`.
#[derive(PartialEq, Eq, PartialOrd, Ord, Hash, Debug, Clone, Copy, Structural)]
pub struct PersonaChange(i32);

impl PersonaChange {
    #[allow(non_snake_case)]
    pub fn NAME() -> (r: PersonaChange)
        ensures
            r@ == 0x0001,
    {
        PersonaChange(0x0001)
    }

    #[allow(non_snake_case)]
    pub fn STATUS() -> (r: PersonaChange)
        ensures
            r@ == 0x0002,
    {
        PersonaChange(0x0002)
    }

    #[allow(non_snake_case)]
    pub fn COME_ONLINE() -> (r: PersonaChange)
        ensures
            r@ == 0x0004,
    {
        PersonaChange(0x0004)
    }

    #[allow(non_snake_case)]
    pub fn GONE_OFFLINE() -> (r: PersonaChange)
        ensures
            r@ == 0x0008,
    {
        PersonaChange(0x0008)
    }

    #[allow(non_snake_case)]
    pub fn GAME_PLAYED() -> (r: PersonaChange)
        ensures
            r@ == 0x0010,
    {
        PersonaChange(0x0010)
    }

    #[allow(non_snake_case)]
    pub fn GAME_SERVER() -> (r: PersonaChange)
        ensures
            r@ == 0x0020,
    {
        PersonaChange(0x0020)
    }

    #[allow(non_snake_case)]
    pub fn AVATAR() -> (r: PersonaChange)
        ensures
            r@ == 0x0040,
    {
        PersonaChange(0x0040)
    }

    #[allow(non_snake_case)]
    pub fn JOINED_SOURCE() -> (r: PersonaChange)
        ensures
            r@ == 0x0080,
    {
        PersonaChange(0x0080)
    }

    #[allow(non_snake_case)]
    pub fn LEFT_SOURCE() -> (r: PersonaChange)
        ensures
            r@ == 0x0100,
    {
        PersonaChange(0x0100)
    }

    #[allow(non_snake_case)]
    pub fn RELATIONSHIP_CHANGE() -> (r: PersonaChange)
        ensures
            r@ == 0x0200,
    {
        PersonaChange(0x0200)
    }

    #[allow(non_snake_case)]
    pub fn NAME_FIRST_SET() -> (r: PersonaChange)
        ensures
            r@ == 0x0400,
    {
        PersonaChange(0x0400)
    }

    #[allow(non_snake_case)]
    pub fn FACEBOOK_INFO() -> (r: PersonaChange)
        ensures
            r@ == 0x0800,
    {
        PersonaChange(0x0800)
    }

    #[allow(non_snake_case)]
    pub fn NICKNAME() -> (r: PersonaChange)
        ensures
            r@ == 0x1000,
    {
        PersonaChange(0x1000)
    }

    #[allow(non_snake_case)]
    pub fn STEAM_LEVEL() -> (r: PersonaChange)
        ensures
            r@ == 0x2000,
    {
        PersonaChange(0x2000)
    }

    /// The bits of every flag that the type names.
    pub open spec fn all_bits() -> i32 {
        0x3FFFi32
    }

    /// The bits of this flag set.
    pub closed spec fn view(self) -> i32 {
        self.0
    }

    /// The flag set with no flag.
    pub fn empty() -> (r: Self)
        ensures
            r@ == 0,
    {
        PersonaChange(0)
    }

    /// The flag set with every flag that the type names.
    pub fn all() -> (r: Self)
        ensures
            r@ == Self::all_bits(),
    {
        PersonaChange(0x3FFFi32)
    }

    /// The bits of this flag set.
    pub fn bits(&self) -> (r: i32)
        ensures
            r == self@,
    {
        self.0
    }

    /// The flag set with exactly these bits, if each of them is a named flag.
    pub fn from_bits(bits: i32) -> (r: Option<Self>)
        ensures
            r is Some <==> bits & !Self::all_bits() == 0,
            r matches Some(f) ==> f@ == bits,
    {
        if bits & !0x3FFFi32 == 0 {
            Some(PersonaChange(bits))
        } else {
            None
        }
    }

    /// The flag set with the named flags among these bits; other bits are dropped.
    pub fn from_bits_truncate(bits: i32) -> (r: Self)
        ensures
            r@ == bits & Self::all_bits(),
    {
        PersonaChange(bits & 0x3FFFi32)
    }

    /// The flag set with exactly these bits, named or not.
    pub fn from_bits_retain(bits: i32) -> (r: Self)
        ensures
            r@ == bits,
    {
        PersonaChange(bits)
    }

    /// Whether no bit is set.
    pub fn is_empty(&self) -> (r: bool)
        ensures
            r == (self@ == 0),
    {
        self.0 == 0
    }

    /// Whether every named flag is set.
    pub fn is_all(&self) -> (r: bool)
        ensures
            r == (self@ & Self::all_bits() == Self::all_bits()),
    {
        self.0 & 0x3FFFi32 == 0x3FFFi32
    }

    /// Whether every bit of `other` is set in this set.
    pub fn contains(&self, other: Self) -> (r: bool)
        ensures
            r == (self@ & other@ == other@),
    {
        self.0 & other.0 == other.0
    }

    /// Whether this set and `other` share a bit.
    pub fn intersects(&self, other: Self) -> (r: bool)
        ensures
            r == (self@ & other@ != 0),
    {
        self.0 & other.0 != 0
    }

    /// Sets the bits of `other`.
    pub fn insert(&mut self, other: Self)
        ensures
            final(self)@ == old(self)@ | other@,
    {
        self.0 = self.0 | other.0;
    }

    /// Clears the bits of `other`.
    pub fn remove(&mut self, other: Self)
        ensures
            final(self)@ == old(self)@ & !other@,
    {
        self.0 = self.0 & !other.0;
    }

    /// The bits set in either set.
    pub fn union(self, other: Self) -> (r: Self)
        ensures
            r@ == self@ | other@,
    {
        PersonaChange(self.0 | other.0)
    }

    /// The bits set in both sets.
    pub fn intersection(self, other: Self) -> (r: Self)
        ensures
            r@ == self@ & other@,
    {
        PersonaChange(self.0 & other.0)
    }

    /// The bits set in this set and not in `other`.
    pub fn difference(self, other: Self) -> (r: Self)
        ensures
            r@ == self@ & !other@,
    {
        PersonaChange(self.0 & !other.0)
    }
}

/// The laws of `PersonaChange`: an inserted set is contained afterwards, a
/// removed set no longer intersects, union is commutative and contains
/// both operands, and truncated bits always form a valid flag set, which
/// truncation leaves unchanged.
pub proof fn lemma_persona_change_laws(a: PersonaChange, b: PersonaChange, bits: i32)
    ensures
        (a@ | b@) & b@ == b@,
        (a@ | b@) & a@ == a@,
        (a@ & !b@) & b@ == 0,
        a@ | b@ == b@ | a@,
        (bits & PersonaChange::all_bits()) & !PersonaChange::all_bits() == 0,
        (bits & PersonaChange::all_bits()) & PersonaChange::all_bits() == bits & PersonaChange::all_bits(),
{
    lemma_flag_bits_i32(a@, b@, bits, PersonaChange::all_bits());
}
/// Where the store overlay leaves the app: not in the cart, in the cart, or in
/// the cart with the cart shown.
#[derive(Clone, Copy, Debug, PartialEq, Eq, Structural)]
pub enum OverlayToStoreFlag {
    NoFlag,
    AddToCart,
    AddToCartAndShow,
}

impl OverlayToStoreFlag {
    /// The `EOverlayToStoreFlag` code of the flag.
    pub open spec fn spec_code(self) -> i32 {
        match self {
            OverlayToStoreFlag::NoFlag => 0,
            OverlayToStoreFlag::AddToCart => 1,
            OverlayToStoreFlag::AddToCartAndShow => 2,
        }
    }

    /// The `EOverlayToStoreFlag` code of the flag.
    pub fn code(&self) -> (r: i32)
        ensures
            r == self.spec_code(),
    {
        match self {
            OverlayToStoreFlag::NoFlag => 0,
            OverlayToStoreFlag::AddToCart => 1,
            OverlayToStoreFlag::AddToCartAndShow => 2,
        }
    }
}

/// The online state of a friend.
#[derive(Clone, Copy, Debug, PartialEq, Eq, Structural)]
pub enum FriendState {
    Offline,
    Online,
    Invisible,
    Busy,
    Away,
    Snooze,
    LookingToTrade,
    LookingToPlay,
}

/// The friend state that an `EPersonaState` code stands for.
pub open spec fn friend_state_of_code(code: i32) -> Option<FriendState> {
    match code {
        0 => Some(FriendState::Offline),
        1 => Some(FriendState::Online),
        2 => Some(FriendState::Busy),
        3 => Some(FriendState::Away),
        4 => Some(FriendState::Snooze),
        5 => Some(FriendState::LookingToTrade),
        6 => Some(FriendState::LookingToPlay),
        7 => Some(FriendState::Invisible),
        _ => None,
    }
}

    /// The value of a code, if the code stands for one; see `friend_state_of_code`.
    pub fn try_from_code(code: i32) -> (r: Option<FriendState>)
        ensures
            r == friend_state_of_code(code),
    {
        match code {
            0 => Some(FriendState::Offline),
            1 => Some(FriendState::Online),
            2 => Some(FriendState::Busy),
            3 => Some(FriendState::Away),
            4 => Some(FriendState::Snooze),
            5 => Some(FriendState::LookingToTrade),
            6 => Some(FriendState::LookingToPlay),
            7 => Some(FriendState::Invisible),
            _ => None,
        }
    }

impl FriendState {
    /// The state of an `EPersonaState` code, if the code stands for one; see `friend_state_of_code`.
    pub fn try_from_code(code: i32) -> (r: Option<FriendState>)
        ensures
            r == friend_state_of_code(code),
    {
        if 0 <= code && code <= 7 {
            Some(FriendState::from_persona_state(code))
        } else {
            None
        }
    }

    /// Converts the `EPersonaState` code that Steam reports for a friend.
    pub fn from_persona_state(code: i32) -> (r: FriendState)
        requires
            friend_state_of_code(code) is Some,
        ensures
            friend_state_of_code(code) == Some(r),
    {
        match code {
            0 => FriendState::Offline,
            1 => FriendState::Online,
            2 => FriendState::Busy,
            3 => FriendState::Away,
            4 => FriendState::Snooze,
            5 => FriendState::LookingToTrade,
            6 => FriendState::LookingToPlay,
            _ => FriendState::Invisible,
        }
    }
}

#[derive(Clone, Debug)]
pub struct PersonaStateChange {
    pub steam_id: SteamId,
    pub flags: PersonaChange,
}

impl PersonaStateChange {
    /// Builds the event from the raw callback fields; unknown change bits are dropped.
    pub fn from_raw_fields(steam_id: u64, change_flags: i32) -> (r: PersonaStateChange)
        ensures
            r.steam_id@ == steam_id,
            r.flags@ == change_flags & PersonaChange::all_bits(),
    {
        PersonaStateChange {
            steam_id: SteamId::from_raw(steam_id),
            flags: PersonaChange::from_bits_truncate(change_flags),
        }
    }
}

#[derive(Clone, Debug)]
pub struct GameOverlayActivated {
    pub active: bool,
}

impl GameOverlayActivated {
    /// Builds the event from the raw callback field: the overlay is active when it is 1.
    pub fn from_raw_fields(active: u8) -> (r: GameOverlayActivated)
        ensures
            r.active == (active == 1),
    {
        GameOverlayActivated { active: active == 1 }
    }
}

#[derive(Clone, Debug)]
pub struct GameLobbyJoinRequested {
    pub lobby_steam_id: LobbyId,
    pub friend_steam_id: SteamId,
}

#[derive(Clone, Debug)]
pub struct GameRichPresenceJoinRequested {
    /// If you are joining a friend/being invited from a friend, this `SteamId` will be of said friend.
    /// If it's not coming from a friend, this `SteamId` will be invalid, which you can check with the `.is_invalid()`
    /// method.
    pub friend_steam_id: SteamId,
    /// the connect string, holding custom data to join a game or friend
    pub connect: String,
}

impl GameRichPresenceJoinRequested {
    /// The request with the raw fields that Steam reports: the friend's
    /// steam id and the buffer that holds the connect string as a C string.
    /// An error when the buffer holds no C string of valid UTF-8.
    pub fn from_raw_fields(friend: u64, connect: &[u8]) -> (r: Result<Self, CTextError>)
        ensures
            match r {
                Ok(e) => e.friend_steam_id@ == friend && c_text_of(connect@) == Ok::<
                    Seq<char>,
                    CTextError,
                >(e.connect@),
                Err(err) => c_text_of(connect@) == Err::<Seq<char>, CTextError>(err),
            },
    {
        match c_text(connect) {
            Ok(text) => Ok(GameRichPresenceJoinRequested {
                friend_steam_id: SteamId::from_raw(friend),
                connect: text,
            }),
            Err(err) => Err(err),
        }
    }
}

/// A `FriendFlags` is its view: two values with the same view are the same value.
pub proof fn lemma_friend_flags_view_injective(a: FriendFlags, b: FriendFlags)
    ensures
        a@ == b@ <==> a == b,
{
}

/// A `PersonaChange` is its view: two values with the same view are the same value.
pub proof fn lemma_persona_change_view_injective(a: PersonaChange, b: PersonaChange)
    ensures
        a@ == b@ <==> a == b,
{
}

/// The values of `friend_state_of_code`, as the Steamworks SDK headers fix them.
pub proof fn lemma_friend_state_of_code_table()
    ensures
        friend_state_of_code(0) == Some(FriendState::Offline),
        friend_state_of_code(1) == Some(FriendState::Online),
        friend_state_of_code(2) == Some(FriendState::Busy),
        friend_state_of_code(3) == Some(FriendState::Away),
        friend_state_of_code(4) == Some(FriendState::Snooze),
        friend_state_of_code(5) == Some(FriendState::LookingToTrade),
        friend_state_of_code(6) == Some(FriendState::LookingToPlay),
        friend_state_of_code(7) == Some(FriendState::Invisible),
{
}

/// The values of `OverlayToStoreFlag::spec_code`, as the Steamworks SDK headers fix them.
pub proof fn lemma_overlay_to_store_flag_code_table()
    ensures
        OverlayToStoreFlag::NoFlag.spec_code() == 0,
        OverlayToStoreFlag::AddToCart.spec_code() == 1,
        OverlayToStoreFlag::AddToCartAndShow.spec_code() == 2,
{
}

/// Every flag set of the named `FriendFlags` flags lies within `all`, and `all`
/// is exactly their union.
pub proof fn lemma_friend_flags_all_is_union_of_flags()
    ensures
        FriendFlags::all_bits() == (0x0000u16 | 0x0001 | 0x0002 | 0x0004 | 0x0008 | 0x0010 | 0x0080 | 0x0100 | 0x0200 | 0x0400 | 0x1000 | 0xFFFF),
{
    assert((0x0000u16 | 0x0001 | 0x0002 | 0x0004 | 0x0008 | 0x0010 | 0x0080 | 0x0100 | 0x0200 | 0x0400 | 0x1000 | 0xFFFF) == FriendFlags::all_bits()) by (bit_vector);
}

/// Every flag set of the named `PersonaChange` flags lies within `all`, and `all`
/// is exactly their union.
pub proof fn lemma_persona_change_all_is_union_of_flags()
    ensures
        PersonaChange::all_bits() == (0x0001i32 | 0x0002 | 0x0004 | 0x0008 | 0x0010 | 0x0020 | 0x0040 | 0x0080 | 0x0100 | 0x0200 | 0x0400 | 0x0800 | 0x1000 | 0x2000),
{
    assert((0x0001i32 | 0x0002 | 0x0004 | 0x0008 | 0x0010 | 0x0020 | 0x0040 | 0x0080 | 0x0100 | 0x0200 | 0x0400 | 0x0800 | 0x1000 | 0x2000) == PersonaChange::all_bits()) by (bit_vector);
}

} // verus!
