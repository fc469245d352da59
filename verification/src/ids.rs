use vstd::prelude::*;

use crate::text::{decimal, push_decimal};

verus! {

/// The account id held in the low 32 bits of a 64 bit steam id.
pub open spec fn account_bits(id: u64) -> u32 {
    (id % 0x1_0000_0000) as u32
}

/// The account type held in bits 52 to 55 of a 64 bit steam id.
pub open spec fn account_type_bits(id: u64) -> u64 {
    (id / 0x10_0000_0000_0000) % 16
}

/// The text of the SteamID32 form of an account id: `STEAM_0:<lowest bit>:<rest>`.
pub open spec fn steamid32_text(account: u32) -> Seq<char> {
    "STEAM_0:"@ + decimal((account % 2) as nat) + ":"@ + decimal((account / 2) as nat)
}

/// A user's steam id
#[derive(Clone, Copy, Debug, Ord, PartialOrd, Eq, PartialEq, Hash, Structural)]
pub struct SteamId(pub(crate) u64);

impl SteamId {
    pub closed spec fn view(self) -> u64 {
        self.0
    }

    /// Creates a `SteamId` from a raw 64 bit value.
    ///
    /// May be useful for deserializing steam ids from
    /// a network or save format.
    pub fn from_raw(id: u64) -> (r: SteamId)
        ensures
            r@ == id,
    {
        SteamId(id)
    }

    /// Returns the raw 64 bit value of the steam id
    ///
    /// May be useful for serializing steam ids over a
    /// network or to a save format.
    pub fn raw(&self) -> (r: u64)
        ensures
            r == self@,
    {
        self.0
    }

    /// Returns whether or not this Steam ID is invalid, which is when its
    /// account type (bits 52 to 55) is the invalid account type (0).
    pub fn is_invalid(&self) -> (r: bool)
        ensures
            r == (account_type_bits(self@) == 0),
    {
        let t = (self.0 >> 52u64) & 0xfu64;
        let x = self.0;
        assert(((x >> 52u64) & 0xfu64) == (x / 0x10_0000_0000_0000u64) % 16u64) by (bit_vector);
        t == 0
    }

    /// Returns the account id for this steam id
    pub fn account_id(&self) -> (r: AccountId)
        ensures
            r@ == account_bits(self@),
    {
        let x = self.0;
        assert((x & 0xffff_ffffu64) == x % 0x1_0000_0000u64) by (bit_vector);
        AccountId((x & 0xffff_ffffu64) as u32)
    }

    /// Returns the formatted SteamID32 string for this steam id.
    pub fn steamid32(&self) -> (s: String)
        ensures
            s@ == steamid32_text(account_bits(self@)),
    {
        let account_id = self.account_id().raw();
        let last_bit = account_id & 1;
        let rest = account_id >> 1;
        assert(account_id & 1u32 == account_id % 2u32) by (bit_vector);
        assert(account_id >> 1u32 == account_id / 2u32) by (bit_vector);
        let mut s = String::from_str("STEAM_0:");
        push_decimal(&mut s, last_bit as u64);
        s.append(":");
        push_decimal(&mut s, rest as u64);
        s
    }
}

/// A user's account id
#[derive(Clone, Copy, Debug, Ord, PartialOrd, Eq, PartialEq, Hash, Structural)]
pub struct AccountId(pub(crate) u32);

impl AccountId {
    pub closed spec fn view(self) -> u32 {
        self.0
    }

    /// Creates an `AccountId` from a raw 32 bit value.
    ///
    /// May be useful for deserializing account ids from
    /// a network or save format.
    pub fn from_raw(id: u32) -> (r: AccountId)
        ensures
            r@ == id,
    {
        AccountId(id)
    }

    /// Returns the raw 32 bit value of the steam id
    ///
    /// May be useful for serializing steam ids over a
    /// network or to a save format.
    pub fn raw(&self) -> (r: u32)
        ensures
            r == self@,
    {
        self.0
    }
}

/// An id for a steam app/game
#[derive(Clone, Copy, Debug, PartialEq, Eq, Structural)]
pub struct AppId(pub u32);

impl From<u32> for AppId {
    fn from(id: u32) -> (r: AppId) {
        AppId(id)
    }
}

impl vstd::std_specs::convert::FromSpecImpl<u32> for AppId {
    open spec fn obeys_from_spec() -> bool {
        true
    }

    open spec fn from_spec(id: u32) -> AppId {
        AppId(id)
    }
}

/// A game id
///
/// Combines `AppId` and other information
#[derive(Clone, Copy, Debug, Ord, PartialOrd, Eq, PartialEq, Structural)]
pub struct GameId(pub(crate) u64);

impl GameId {
    pub closed spec fn view(self) -> u64 {
        self.0
    }

    /// Creates a `GameId` from a raw 64 bit value.
    ///
    /// May be useful for deserializing game ids from
    /// a network or save format.
    pub fn from_raw(id: u64) -> (r: GameId)
        ensures
            r@ == id,
    {
        GameId(id)
    }

    /// Returns the raw 64 bit value of the game id
    ///
    /// May be useful for serializing game ids over a
    /// network or to a save format.
    pub fn raw(&self) -> (r: u64)
        ensures
            r == self@,
    {
        self.0
    }

    /// Returns the app id of this game, held in its low 24 bits
    pub fn app_id(&self) -> (r: AppId)
        ensures
            r.0 == self@ % 0x100_0000,
    {
        let x = self.0;
        assert((x & 0xff_ffffu64) == x % 0x100_0000u64) by (bit_vector);
        AppId((x & 0xff_ffffu64) as u32)
    }
}

/// A `SteamId` is its view: two values with the same view are the same value.
pub proof fn lemma_steam_id_view_injective(a: SteamId, b: SteamId)
    ensures
        a@ == b@ <==> a == b,
{
}

/// A `AccountId` is its view: two values with the same view are the same value.
pub proof fn lemma_account_id_view_injective(a: AccountId, b: AccountId)
    ensures
        a@ == b@ <==> a == b,
{
}

/// A `GameId` is its view: two values with the same view are the same value.
pub proof fn lemma_game_id_view_injective(a: GameId, b: GameId)
    ensures
        a@ == b@ <==> a == b,
{
}

} // verus!
