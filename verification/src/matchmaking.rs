use vstd::prelude::*;

use crate::error::{error_of_code, SteamError, RESULT_OK};
use crate::ids::SteamId;
use crate::text::utf8_text;
use vstd::utf8::{decode_utf8, valid_utf8};

verus! {

/// The longest lobby key, in bytes, that the matchmaking interface accepts.
pub const MAX_LOBBY_KEY_LENGTH: usize = 255;

/// The largest lobby that `create_lobby` may ask for.
pub const MAX_LOBBY_MEMBERS: u32 = 250;

/// The visibility of a lobby
#[derive(Debug, Clone, Copy, PartialEq, Eq, Hash, Structural)]
pub enum LobbyType {
    Private,
    FriendsOnly,
    Public,
    Invisible,
}

impl LobbyType {
    /// The `ELobbyType` code of the value.
    pub open spec fn spec_code(self) -> i32 {
        match self {
            LobbyType::Private => 0,
            LobbyType::FriendsOnly => 1,
            LobbyType::Public => 2,
            LobbyType::Invisible => 3,
        }
    }

    /// The `ELobbyType` code of the value.
    pub fn code(&self) -> (r: i32)
        ensures
            r == self.spec_code(),
    {
        match self {
            LobbyType::Private => 0,
            LobbyType::FriendsOnly => 1,
            LobbyType::Public => 2,
            LobbyType::Invisible => 3,
        }
    }
}

#[derive(Debug, Clone, Copy, PartialEq, Eq, Hash, Structural)]
pub struct LobbyId(pub(crate) u64);

impl LobbyId {
    pub closed spec fn view(self) -> u64 {
        self.0
    }

    /// Creates a `LobbyId` from a raw 64 bit value.
    ///
    /// May be useful for deserializing lobby ids from
    /// a network or save format.
    pub fn from_raw(id: u64) -> (r: LobbyId)
        ensures
            r@ == id,
    {
        LobbyId(id)
    }

    /// Returns the raw 64 bit value of the lobby id
    ///
    /// May be useful for serializing lobby ids over a
    /// network or to a save format.
    pub fn raw(&self) -> (r: u64)
        ensures
            r == self@,
    {
        self.0
    }
}

/// Filters for the lobbies to be returned from `request_lobby_list`.
///
/// # Fields
///
/// - `string`: A string comparison filter that matches lobby attributes with specific strings.
/// - `number`: A number comparison filter that matches lobby attributes with specific integer values.
/// - `near_value`: Specifies a value, and the results will be sorted closest to this value (no actual filtering).
/// - `open_slots`: Filters lobbies based on the number of open slots they have.
/// - `distance`: Filters lobbies based on a distance criterion.
/// - `count`: Specifies the maximum number of lobby results to be returned.
#[derive(Debug, Clone, Default, PartialEq)]
pub struct LobbyListFilter<'a> {
    /// A string comparison filter that matches lobby attributes with specific strings.
    pub string: Option<Vec<StringFilter<'a>>>,
    /// A number comparison filter that matches lobby attributes with specific integer values
    pub number: Option<Vec<NumberFilter<'a>>>,
    /// Specifies a value, and the results will be sorted closest to this value (no actual filtering)
    pub near_value: Option<Vec<NearFilter<'a>>>,
    /// Filters lobbies based on the number of open slots they have
    pub open_slots: Option<u8>,
    /// Filters lobbies based on a distance criterion
    pub distance: Option<DistanceFilter>,
    /// Specifies the maximum number of lobby results to be returned
    pub count: Option<u64>,
}

/// A wrapper for a lobby key string.
///
/// It is used to validate constructed keys and to ensure that they do not
/// exceed the maximum allowed length.
#[derive(Debug, Default, Clone, Copy, PartialEq)]
pub struct LobbyKey<'a>(pub(crate) &'a str);

/// Returned when a lobby key is longer than `MAX_LOBBY_KEY_LENGTH` bytes.
#[derive(Debug, Clone, Copy, PartialEq, Default)]
pub struct LobbyKeyTooLongError;

impl LobbyKeyTooLongError {
    /// The human readable description of the error.
    pub fn to_string(&self) -> (s: String)
        ensures
            s@ == "Lobby key is greater than 255 characters"@,
    {
        String::from_str("Lobby key is greater than 255 characters")
    }
}

impl<'a> LobbyKey<'a> {
    /// The key text.
    pub closed spec fn view(self) -> Seq<char> {
        self.0@
    }

    /// The key text's length in UTF-8 bytes.
    pub closed spec fn byte_len(self) -> usize {
        self.0.len()
    }

    /// Attempts to create a new `LobbyKey` from a provided string key.
    ///
    /// # Errors
    ///
    /// Returns [`LobbyKeyTooLongError`] if the key is longer than
    /// `MAX_LOBBY_KEY_LENGTH` (255) bytes.
    pub fn try_new(key: &'a str) -> (r: Result<Self, LobbyKeyTooLongError>)
        ensures
            r is Err <==> key.len() > MAX_LOBBY_KEY_LENGTH,
            r matches Ok(k) ==> k@ == key@ && k.byte_len() == key.len(),
    {
        if key.len() > MAX_LOBBY_KEY_LENGTH {
            Err(LobbyKeyTooLongError)
        } else {
            Ok(LobbyKey(key))
        }
    }

    /// Creates a new `LobbyKey` from a provided string key.
    ///
    /// The key must be at most 255 bytes long.
    pub fn new(key: &'a str) -> (r: Self)
        requires
            key.len() <= MAX_LOBBY_KEY_LENGTH,
        ensures
            r@ == key@,
            r.byte_len() == key.len(),
    {
        match Self::try_new(key) {
            Ok(k) => k,
            Err(_) => {
                assert(false);
                LobbyKey(key)
            },
        }
    }

    /// The key text.
    pub fn as_str(&self) -> (r: &'a str)
        ensures
            r@ == self@,
    {
        self.0
    }
}

/// A filter used for string based key value comparisons.
///
/// # Fields
///
/// * `0`: The attribute key for comparison.
/// * `1`: The target string value for matching.
/// * `2`: How the lobby's value is compared with the target.
#[derive(Debug, Default, Clone, Copy, PartialEq)]
pub struct StringFilter<'a>(pub LobbyKey<'a>, pub &'a str, pub StringFilterKind);

#[derive(Debug, Default, Clone, Copy, PartialEq, Eq, Structural)]
pub enum StringFilterKind {
    #[default]
    EqualToOrLessThan,
    LessThan,
    Equal,
    GreaterThan,
    EqualToOrGreaterThan,
    NotEqual,
}

impl StringFilterKind {
    /// The `ELobbyComparison` code of the value.
    pub open spec fn spec_code(self) -> i32 {
        match self {
            StringFilterKind::EqualToOrLessThan => -2i32,
            StringFilterKind::LessThan => -1i32,
            StringFilterKind::Equal => 0,
            StringFilterKind::GreaterThan => 1,
            StringFilterKind::EqualToOrGreaterThan => 2,
            StringFilterKind::NotEqual => 3,
        }
    }

    /// The `ELobbyComparison` code of the value.
    pub fn code(&self) -> (r: i32)
        ensures
            r == self.spec_code(),
    {
        match self {
            StringFilterKind::EqualToOrLessThan => -2i32,
            StringFilterKind::LessThan => -1i32,
            StringFilterKind::Equal => 0,
            StringFilterKind::GreaterThan => 1,
            StringFilterKind::EqualToOrGreaterThan => 2,
            StringFilterKind::NotEqual => 3,
        }
    }
}

/// A filter used for numerical attribute comparison in lobby filtering.
///
/// # Fields
///
/// * `0`: The attribute key for comparison.
/// * `1`: The target numerical value for matching.
/// * `2`: The comparison mode indicating how the numerical values should be compared.
#[derive(Debug, Default, Clone, Copy, PartialEq)]
pub struct NumberFilter<'a>(pub LobbyKey<'a>, pub i32, pub ComparisonFilter);

/// A filter used for near-value sorting in lobby filtering.
///
/// This filter does not perform actual filtering but rather sorts the results based on proximity.
///
/// # Fields
///
/// * `0`: The attribute key to use for sorting.
/// * `1`: The reference numerical value used for sorting proximity.
#[derive(Debug, Default, Clone, Copy, PartialEq)]
pub struct NearFilter<'a>(pub LobbyKey<'a>, pub i32);

#[derive(Debug, Clone, Copy, PartialEq, Eq, Default, Structural)]
pub enum DistanceFilter {
    Close,
    #[default]
    Default,
    Far,
    Worldwide,
}

impl DistanceFilter {
    /// The `ELobbyDistanceFilter` code of the value.
    pub open spec fn spec_code(self) -> i32 {
        match self {
            DistanceFilter::Close => 0,
            DistanceFilter::Default => 1,
            DistanceFilter::Far => 2,
            DistanceFilter::Worldwide => 3,
        }
    }

    /// The `ELobbyDistanceFilter` code of the value.
    pub fn code(&self) -> (r: i32)
        ensures
            r == self.spec_code(),
    {
        match self {
            DistanceFilter::Close => 0,
            DistanceFilter::Default => 1,
            DistanceFilter::Far => 2,
            DistanceFilter::Worldwide => 3,
        }
    }
}

#[derive(Debug, Clone, Copy, PartialEq, Eq, Default, Structural)]
pub enum ComparisonFilter {
    #[default]
    Equal,
    NotEqual,
    GreaterThan,
    GreaterThanEqualTo,
    LessThan,
    LessThanEqualTo,
}

impl ComparisonFilter {
    /// The `ELobbyComparison` code of the value.
    pub open spec fn spec_code(self) -> i32 {
        match self {
            ComparisonFilter::Equal => 0,
            ComparisonFilter::NotEqual => 3,
            ComparisonFilter::GreaterThan => 1,
            ComparisonFilter::GreaterThanEqualTo => 2,
            ComparisonFilter::LessThan => -1i32,
            ComparisonFilter::LessThanEqualTo => -2i32,
        }
    }

    /// The `ELobbyComparison` code of the value.
    pub fn code(&self) -> (r: i32)
        ensures
            r == self.spec_code(),
    {
        match self {
            ComparisonFilter::Equal => 0,
            ComparisonFilter::NotEqual => 3,
            ComparisonFilter::GreaterThan => 1,
            ComparisonFilter::GreaterThanEqualTo => 2,
            ComparisonFilter::LessThan => -1i32,
            ComparisonFilter::LessThanEqualTo => -2i32,
        }
    }
}

/// Flags describing how a users lobby state has changed. This is provided from `LobbyChatUpdate`.
#[derive(Clone, Copy, Debug, PartialEq, Eq, Structural)]
pub enum ChatMemberStateChange {
    /// This user has joined or is joining the lobby.
    Entered,
    /// This user has left or is leaving the lobby.
    Left,
    /// User disconnected without leaving the lobby first.
    Disconnected,
    /// The user has been kicked.
    Kicked,
    /// The user has been kicked and banned.
    Banned,
}

impl ChatMemberStateChange {
    /// The `EChatMemberStateChange` code of the value.
    pub open spec fn spec_code(self) -> u32 {
        match self {
            ChatMemberStateChange::Entered => 1,
            ChatMemberStateChange::Left => 2,
            ChatMemberStateChange::Disconnected => 4,
            ChatMemberStateChange::Kicked => 8,
            ChatMemberStateChange::Banned => 16,
        }
    }

    /// The `EChatMemberStateChange` code of the value.
    pub fn code(&self) -> (r: u32)
        ensures
            r == self.spec_code(),
    {
        match self {
            ChatMemberStateChange::Entered => 1,
            ChatMemberStateChange::Left => 2,
            ChatMemberStateChange::Disconnected => 4,
            ChatMemberStateChange::Kicked => 8,
            ChatMemberStateChange::Banned => 16,
        }
    }

    /// The value of a code, if the code stands for one; see `chat_member_state_change_of_code`.
    pub fn try_from_code(code: u32) -> (r: Option<ChatMemberStateChange>)
        ensures
            r == chat_member_state_change_of_code(code),
    {
        match code {
            1 => Some(ChatMemberStateChange::Entered),
            2 => Some(ChatMemberStateChange::Left),
            4 => Some(ChatMemberStateChange::Disconnected),
            8 => Some(ChatMemberStateChange::Kicked),
            16 => Some(ChatMemberStateChange::Banned),
            _ => None,
        }
    }

    /// Converts a `EChatMemberStateChange` code; see `chat_member_state_change_of_code` for the codes that stand for a value.
    pub fn from_code(code: u32) -> (r: ChatMemberStateChange)
        requires
            chat_member_state_change_of_code(code) is Some,
        ensures
            chat_member_state_change_of_code(code) == Some(r),
    {
        match code {
            1 => ChatMemberStateChange::Entered,
            2 => ChatMemberStateChange::Left,
            4 => ChatMemberStateChange::Disconnected,
            8 => ChatMemberStateChange::Kicked,
            _ => ChatMemberStateChange::Banned,
        }
    }
}

/// The value that a `EChatMemberStateChange` code stands for, if any.
pub open spec fn chat_member_state_change_of_code(code: u32) -> Option<ChatMemberStateChange> {
    match code {
        1 => Some(ChatMemberStateChange::Entered),
        2 => Some(ChatMemberStateChange::Left),
        4 => Some(ChatMemberStateChange::Disconnected),
        8 => Some(ChatMemberStateChange::Kicked),
        16 => Some(ChatMemberStateChange::Banned),
        _ => None,
    }
}

/// Codes of `ChatMemberStateChange` are distinct: each value's code converts back to that
/// value, and a code that converts to a value is that value's code.
pub proof fn lemma_chat_member_state_change_code_roundtrip(v: ChatMemberStateChange, code: u32)
    ensures
        chat_member_state_change_of_code(v.spec_code()) == Some(v),
        chat_member_state_change_of_code(code) == Some(v) ==> v.spec_code() == code,
{
}

#[derive(Debug, Clone, Copy, PartialEq, Eq, Structural)]
pub enum ChatEntryType {
    Invalid,
    ChatMsg,
    Typing,
    InviteGame,
    Emote,
    LeftConversation,
    Entered,
    WasKicked,
    WasBanned,
    Disconnected,
    HistoricalChat,
    LinkBlocked,
}

impl ChatEntryType {

    /// Converts a `EChatEntryType` code; a code that stands for no value gives `Invalid`.
    pub fn from_code(code: u8) -> (r: ChatEntryType)
        ensures
            r == (match chat_entry_type_of_code(code) {
                Some(v) => v,
                None => ChatEntryType::Invalid,
            }),
    {
        match code {
            0 => ChatEntryType::Invalid,
            1 => ChatEntryType::ChatMsg,
            2 => ChatEntryType::Typing,
            3 => ChatEntryType::InviteGame,
            4 => ChatEntryType::Emote,
            6 => ChatEntryType::LeftConversation,
            7 => ChatEntryType::Entered,
            8 => ChatEntryType::WasKicked,
            9 => ChatEntryType::WasBanned,
            10 => ChatEntryType::Disconnected,
            11 => ChatEntryType::HistoricalChat,
            14 => ChatEntryType::LinkBlocked,
            _ => ChatEntryType::Invalid,
        }
    }
}

/// The value that a `EChatEntryType` code stands for, if any.
pub open spec fn chat_entry_type_of_code(code: u8) -> Option<ChatEntryType> {
    match code {
        0 => Some(ChatEntryType::Invalid),
        1 => Some(ChatEntryType::ChatMsg),
        2 => Some(ChatEntryType::Typing),
        3 => Some(ChatEntryType::InviteGame),
        4 => Some(ChatEntryType::Emote),
        6 => Some(ChatEntryType::LeftConversation),
        7 => Some(ChatEntryType::Entered),
        8 => Some(ChatEntryType::WasKicked),
        9 => Some(ChatEntryType::WasBanned),
        10 => Some(ChatEntryType::Disconnected),
        11 => Some(ChatEntryType::HistoricalChat),
        14 => Some(ChatEntryType::LinkBlocked),
        _ => None,
    }
}

#[derive(Debug, Clone, Copy, PartialEq, Eq, Structural)]
pub enum ChatRoomEnterResponse {
    Success,
    DoesntExist,
    NotAllowed,
    Full,
    Error,
    Banned,
    Limited,
    ClanDisabled,
    CommunityBan,
    MemberBlockedYou,
    YouBlockedMember,
    RatelimitExceeded,
}

impl ChatRoomEnterResponse {

    /// Converts a `EChatRoomEnterResponse` code; a code that stands for no value gives `Error`.
    pub fn from_code(code: u32) -> (r: ChatRoomEnterResponse)
        ensures
            r == (match chat_room_enter_response_of_code(code) {
                Some(v) => v,
                None => ChatRoomEnterResponse::Error,
            }),
    {
        match code {
            1 => ChatRoomEnterResponse::Success,
            2 => ChatRoomEnterResponse::DoesntExist,
            3 => ChatRoomEnterResponse::NotAllowed,
            4 => ChatRoomEnterResponse::Full,
            5 => ChatRoomEnterResponse::Error,
            6 => ChatRoomEnterResponse::Banned,
            7 => ChatRoomEnterResponse::Limited,
            8 => ChatRoomEnterResponse::ClanDisabled,
            9 => ChatRoomEnterResponse::CommunityBan,
            10 => ChatRoomEnterResponse::MemberBlockedYou,
            11 => ChatRoomEnterResponse::YouBlockedMember,
            15 => ChatRoomEnterResponse::RatelimitExceeded,
            _ => ChatRoomEnterResponse::Error,
        }
    }
}

/// The value that a `EChatRoomEnterResponse` code stands for, if any.
pub open spec fn chat_room_enter_response_of_code(code: u32) -> Option<ChatRoomEnterResponse> {
    match code {
        1 => Some(ChatRoomEnterResponse::Success),
        2 => Some(ChatRoomEnterResponse::DoesntExist),
        3 => Some(ChatRoomEnterResponse::NotAllowed),
        4 => Some(ChatRoomEnterResponse::Full),
        5 => Some(ChatRoomEnterResponse::Error),
        6 => Some(ChatRoomEnterResponse::Banned),
        7 => Some(ChatRoomEnterResponse::Limited),
        8 => Some(ChatRoomEnterResponse::ClanDisabled),
        9 => Some(ChatRoomEnterResponse::CommunityBan),
        10 => Some(ChatRoomEnterResponse::MemberBlockedYou),
        11 => Some(ChatRoomEnterResponse::YouBlockedMember),
        15 => Some(ChatRoomEnterResponse::RatelimitExceeded),
        _ => None,
    }
}
/// The filter calls that `set_lobby_list_filter` makes, one per request.
#[derive(Debug, Clone, Copy, PartialEq)]
pub enum LobbyListFilterRequest<'a> {
    /// `AddRequestLobbyListStringFilter`
    String(StringFilter<'a>),
    /// `AddRequestLobbyListNumericalFilter`
    Number(NumberFilter<'a>),
    /// `AddRequestLobbyListNearValueFilter`
    NearValue(NearFilter<'a>),
    /// `AddRequestLobbyListDistanceFilter`
    Distance(DistanceFilter),
    /// `AddRequestLobbyListFilterSlotsAvailable`
    SlotsAvailable(u8),
    /// `AddRequestLobbyListResultCountFilter`
    ResultCount(u64),
}

/// The items of an optional list; none when the list is absent.
pub open spec fn opt_items<T>(v: Option<Vec<T>>) -> Seq<T> {
    match v {
        Some(v) => v@,
        None => Seq::empty(),
    }
}

/// The request for an optional value; none when the value is absent.
pub open spec fn opt_request<'a, T>(
    v: Option<T>,
    f: spec_fn(T) -> LobbyListFilterRequest<'a>,
) -> Seq<LobbyListFilterRequest<'a>> {
    match v {
        Some(x) => seq![f(x)],
        None => Seq::empty(),
    }
}

/// The filter calls for a filter, in the order in which they are made: every
/// string filter, every number filter, every near-value filter, then the
/// distance, open slots and result count filters where they are set.
pub open spec fn filter_requests<'a>(f: LobbyListFilter<'a>) -> Seq<LobbyListFilterRequest<'a>> {
    opt_items(f.string).map_values(|s: StringFilter<'a>| LobbyListFilterRequest::String(s))
        + opt_items(f.number).map_values(|n: NumberFilter<'a>| LobbyListFilterRequest::Number(n))
        + opt_items(f.near_value).map_values(|n: NearFilter<'a>| LobbyListFilterRequest::NearValue(n))
        + opt_request(f.distance, |d: DistanceFilter| LobbyListFilterRequest::Distance(d))
        + opt_request(f.open_slots, |s: u8| LobbyListFilterRequest::SlotsAvailable(s))
        + opt_request(f.count, |c: u64| LobbyListFilterRequest::ResultCount(c))
}

impl<'a> LobbyListFilter<'a> {
    /// Sets the string comparison filter for the lobby list filter.
    pub fn set_string(self, string: Option<Vec<StringFilter<'a>>>) -> (r: Self)
        ensures
            r == (LobbyListFilter { string, ..self }),
    {
        LobbyListFilter { string, ..self }
    }

    /// Sets the number comparison filter for the lobby list filter.
    pub fn set_number(self, number: Option<Vec<NumberFilter<'a>>>) -> (r: Self)
        ensures
            r == (LobbyListFilter { number, ..self }),
    {
        LobbyListFilter { number, ..self }
    }

    /// Sets the near value filter for the lobby list filter.
    ///
    /// Lobby results will be sorted based on their closeness to this value.
    pub fn set_near_value(self, near_value: Option<Vec<NearFilter<'a>>>) -> (r: Self)
        ensures
            r == (LobbyListFilter { near_value, ..self }),
    {
        LobbyListFilter { near_value, ..self }
    }

    /// Sets the open slots filter for the lobby list filter.
    pub fn set_open_slots(self, open_slots: Option<u8>) -> (r: Self)
        ensures
            r == (LobbyListFilter { open_slots, ..self }),
    {
        LobbyListFilter { open_slots, ..self }
    }

    /// Sets the distance filter for the lobby list filter.
    pub fn set_distance(self, distance: Option<DistanceFilter>) -> (r: Self)
        ensures
            r == (LobbyListFilter { distance, ..self }),
    {
        LobbyListFilter { distance, ..self }
    }

    /// Sets the maximum number of lobby results to be returned.
    pub fn set_count(self, count: Option<u64>) -> (r: Self)
        ensures
            r == (LobbyListFilter { count, ..self }),
    {
        LobbyListFilter { count, ..self }
    }

    /// The filter calls that applying this filter makes, in order.
    pub fn requests(&self) -> (r: Vec<LobbyListFilterRequest<'a>>)
        ensures
            r@ == filter_requests(*self),
    {
        let mut out: Vec<LobbyListFilterRequest<'a>> = Vec::new();
        if let Some(strings) = &self.string {
            push_string_requests(&mut out, strings);
        }
        assert(out@ =~= opt_items(self.string).map_values(
            |s: StringFilter<'a>| LobbyListFilterRequest::String(s),
        ));
        if let Some(numbers) = &self.number {
            push_number_requests(&mut out, numbers);
        }
        if let Some(nears) = &self.near_value {
            push_near_requests(&mut out, nears);
        }
        if let Some(distance) = self.distance {
            out.push(LobbyListFilterRequest::Distance(distance));
        }
        if let Some(open_slots) = self.open_slots {
            out.push(LobbyListFilterRequest::SlotsAvailable(open_slots));
        }
        if let Some(count) = self.count {
            out.push(LobbyListFilterRequest::ResultCount(count));
        }
        assert(out@ =~= filter_requests(*self));
        out
    }
}

fn push_string_requests<'a>(out: &mut Vec<LobbyListFilterRequest<'a>>, items: &Vec<StringFilter<'a>>)
    ensures
        final(out)@ == old(out)@ + items@.map_values(
            |s: StringFilter<'a>| LobbyListFilterRequest::String(s),
        ),
{
    let ghost start = out@;
    let mut i: usize = 0;
    while i < items.len()
        invariant
            i <= items@.len(),
            out@ == start + items@.subrange(0, i as int).map_values(
                |s: StringFilter<'a>| LobbyListFilterRequest::String(s),
            ),
        decreases items@.len() - i,
    {
        out.push(LobbyListFilterRequest::String(items[i]));
        i = i + 1;
        assert(out@ =~= start + items@.subrange(0, i as int).map_values(
            |s: StringFilter<'a>| LobbyListFilterRequest::String(s),
        ));
    }
    assert(items@.subrange(0, items@.len() as int) =~= items@);
}

fn push_number_requests<'a>(out: &mut Vec<LobbyListFilterRequest<'a>>, items: &Vec<NumberFilter<'a>>)
    ensures
        final(out)@ == old(out)@ + items@.map_values(
            |n: NumberFilter<'a>| LobbyListFilterRequest::Number(n),
        ),
{
    let ghost start = out@;
    let mut i: usize = 0;
    while i < items.len()
        invariant
            i <= items@.len(),
            out@ == start + items@.subrange(0, i as int).map_values(
                |n: NumberFilter<'a>| LobbyListFilterRequest::Number(n),
            ),
        decreases items@.len() - i,
    {
        out.push(LobbyListFilterRequest::Number(items[i]));
        i = i + 1;
        assert(out@ =~= start + items@.subrange(0, i as int).map_values(
            |n: NumberFilter<'a>| LobbyListFilterRequest::Number(n),
        ));
    }
    assert(items@.subrange(0, items@.len() as int) =~= items@);
}

fn push_near_requests<'a>(out: &mut Vec<LobbyListFilterRequest<'a>>, items: &Vec<NearFilter<'a>>)
    ensures
        final(out)@ == old(out)@ + items@.map_values(
            |n: NearFilter<'a>| LobbyListFilterRequest::NearValue(n),
        ),
{
    let ghost start = out@;
    let mut i: usize = 0;
    while i < items.len()
        invariant
            i <= items@.len(),
            out@ == start + items@.subrange(0, i as int).map_values(
                |n: NearFilter<'a>| LobbyListFilterRequest::NearValue(n),
            ),
        decreases items@.len() - i,
    {
        out.push(LobbyListFilterRequest::NearValue(items[i]));
        i = i + 1;
        assert(out@ =~= start + items@.subrange(0, i as int).map_values(
            |n: NearFilter<'a>| LobbyListFilterRequest::NearValue(n),
        ));
    }
    assert(items@.subrange(0, items@.len() as int) =~= items@);
}

/// A chat (text or binary) message for this lobby has been received. After getting this you must use GetLobbyChatEntry to retrieve the contents of this message.
#[derive(Clone, Debug)]
pub struct LobbyChatMsg {
    /// The Steam ID of the lobby this message was sent in.
    pub lobby: LobbyId,
    /// Steam ID of the user who sent this message. Note that it could have been the local user.
    pub user: SteamId,
    /// Type of message received. This is actually a EChatEntryType.
    pub chat_entry_type: ChatEntryType,
    /// The index of the chat entry to use with GetLobbyChatEntry, this is not valid outside of the scope of this callback and should never be stored.
    pub chat_id: i32,
}

impl LobbyChatMsg {
    /// Builds the event from the raw callback fields.
    pub fn from_raw_fields(lobby: u64, user: u64, chat_entry_type: u8, chat_id: u32) -> (r: Self)
        ensures
            r.lobby@ == lobby,
            r.user@ == user,
            r.chat_entry_type == (match chat_entry_type_of_code(chat_entry_type) {
                Some(t) => t,
                None => ChatEntryType::Invalid,
            }),
            r.chat_id == chat_id as i32,
    {
        LobbyChatMsg {
            lobby: LobbyId::from_raw(lobby),
            user: SteamId::from_raw(user),
            chat_entry_type: ChatEntryType::from_code(chat_entry_type),
            chat_id: chat_id as i32,
        }
    }
}

/// A lobby chat room state has changed, this is usually sent when a user has joined or left the lobby.
#[derive(Clone, Debug)]
pub struct LobbyChatUpdate {
    /// The Steam ID of the lobby.
    pub lobby: LobbyId,
    /// The user who's status in the lobby just changed - can be recipient.
    pub user_changed: SteamId,
    /// Chat member who made the change. This can be different from `user_changed` if kicking, muting, etc. For example, if one user kicks another from the lobby, this will be set to the id of the user who initiated the kick.
    pub making_change: SteamId,
    /// "ChatMemberStateChange" values.
    pub member_state_change: ChatMemberStateChange,
}

impl LobbyChatUpdate {
    /// Builds the event from the raw callback fields; the state change must be
    /// one of the `EChatMemberStateChange` codes.
    pub fn from_raw_fields(lobby: u64, user_changed: u64, making_change: u64, state_change: u32) -> (r: Self)
        requires
            chat_member_state_change_of_code(state_change) is Some,
        ensures
            r.lobby@ == lobby,
            r.user_changed@ == user_changed,
            r.making_change@ == making_change,
            chat_member_state_change_of_code(state_change) == Some(r.member_state_change),
    {
        LobbyChatUpdate {
            lobby: LobbyId::from_raw(lobby),
            user_changed: SteamId::from_raw(user_changed),
            making_change: SteamId::from_raw(making_change),
            member_state_change: ChatMemberStateChange::from_code(state_change),
        }
    }
}

/// Result of our request to create a Lobby. At this point, the lobby has been joined and is ready for use, a LobbyEnter_t callback will also be received (since the local user is joining their own lobby).
#[derive(Clone, Debug)]
pub struct LobbyCreated {
    /// The result of the operation (EResult). Possible values: k_EResultOK, k_EResultFail, k_EResultTimeout, k_EResultLimitExceeded, k_EResultAccessDenied, k_EResultNoConnection
    pub result: u32,
    /// The Steam ID of the lobby that was created, 0 if failed.
    pub lobby: LobbyId,
}

/// The lobby metadata has changed.
/// If m_ulSteamIDMember is a user in the lobby, then use GetLobbyMemberData to access per-user details; otherwise, if m_ulSteamIDMember == m_ulSteamIDLobby, use GetLobbyData to access the lobby metadata.
#[derive(Clone, Debug)]
pub struct LobbyDataUpdate {
    /// The Steam ID of the Lobby.
    pub lobby: LobbyId,
    /// Steam ID of either the member whose data changed, or the room itself.
    pub member: SteamId,
    /// true if the lobby data was successfully changed, otherwise false.
    pub success: bool,
}

impl LobbyDataUpdate {
    /// Builds the event from the raw callback fields; any non-zero success byte is success.
    pub fn from_raw_fields(lobby: u64, member: u64, success: u8) -> (r: Self)
        ensures
            r.lobby@ == lobby,
            r.member@ == member,
            r.success == (success != 0),
    {
        LobbyDataUpdate {
            lobby: LobbyId::from_raw(lobby),
            member: SteamId::from_raw(member),
            success: success != 0,
        }
    }
}

/// Recieved upon attempting to enter a lobby. Lobby metadata is available to use immediately after receiving this.
#[derive(Clone, Debug)]
pub struct LobbyEnter {
    /// The steam ID of the Lobby you have entered.
    pub lobby: LobbyId,
    /// Unused - Always 0.
    pub chat_permissions: u32,
    /// If true, then only invited users may join.
    pub blocked: bool,
    /// This is actually a EChatRoomEnterResponse value. This will be set to k_EChatRoomEnterResponseSuccess if the lobby was successfully joined, otherwise it will be k_EChatRoomEnterResponseError.
    pub chat_room_enter_response: ChatRoomEnterResponse,
}

impl LobbyEnter {
    /// Builds the event from the raw callback fields.
    pub fn from_raw_fields(lobby: u64, chat_permissions: u32, blocked: bool, response: u32) -> (r: Self)
        ensures
            r.lobby@ == lobby,
            r.chat_permissions == chat_permissions,
            r.blocked == blocked,
            r.chat_room_enter_response == (match chat_room_enter_response_of_code(response) {
                Some(v) => v,
                None => ChatRoomEnterResponse::Error,
            }),
    {
        LobbyEnter {
            lobby: LobbyId::from_raw(lobby),
            chat_permissions,
            blocked,
            chat_room_enter_response: ChatRoomEnterResponse::from_code(response),
        }
    }
}

/// The outcome of a call result that carries an `EResult`: an I/O failure
/// of the call itself, the error of a failure code, or success.
pub open spec fn call_result_status(io_error: bool, code: i64) -> Result<(), SteamError> {
    if io_error {
        Err(SteamError::IOFailure)
    } else if code != RESULT_OK {
        Err(error_of_code(code).unwrap())
    } else {
        Ok(())
    }
}

/// Decides the outcome of a call result that carries an `EResult`: an I/O
/// failure of the call gives `IOFailure`, a failure code gives its error.
pub fn call_result(io_error: bool, code: i64) -> (r: Result<(), SteamError>)
    requires
        io_error || code == RESULT_OK || error_of_code(code) is Some,
    ensures
        r == call_result_status(io_error, code),
{
    if io_error {
        Err(SteamError::IOFailure)
    } else if code != RESULT_OK {
        Err(SteamError::from_result_code(code))
    } else {
        Ok(())
    }
}

/// The outcome of `create_lobby`: the new lobby, unless the call or the creation failed.
pub fn lobby_created_result(io_error: bool, code: i64, lobby: u64) -> (r: Result<LobbyId, SteamError>)
    requires
        io_error || code == RESULT_OK || error_of_code(code) is Some,
    ensures
        call_result_status(io_error, code) is Ok ==> (r matches Ok(id) && id@ == lobby),
        call_result_status(io_error, code) matches Err(e) ==> r == Err::<LobbyId, SteamError>(e),
{
    match call_result(io_error, code) {
        Ok(()) => Ok(LobbyId::from_raw(lobby)),
        Err(e) => Err(e),
    }
}

/// The outcome of `join_lobby`: the lobby, when the call succeeded and the
/// enter response is success (1).
pub fn lobby_joined_result(io_error: bool, response: u32, lobby: u64) -> (r: Result<LobbyId, ()>)
    ensures
        r is Ok <==> (!io_error && response == 1),
        r matches Ok(id) ==> id@ == lobby,
{
    if io_error || response != 1 {
        Err(())
    } else {
        Ok(LobbyId::from_raw(lobby))
    }
}

/// The lobby member limit that Steam reports: none when it reports 0.
pub fn lobby_member_limit_of(count: i32) -> (r: Option<usize>)
    ensures
        count == 0 ==> r is None,
        count != 0 ==> r == Some(count as usize),
{
    if count == 0 {
        None
    } else {
        Some(count as usize)
    }
}

/// The lobby metadata value that Steam reports, from the bytes of its C
/// string: none when they are not valid UTF-8 or are empty.
pub fn lobby_data_value(bytes: &[u8]) -> (r: Option<String>)
    ensures
        r is Some <==> (valid_utf8(bytes@) && bytes@.len() > 0),
        r matches Some(s) ==> s@ == decode_utf8(bytes@),
{
    if bytes.len() == 0 {
        return None;
    }
    utf8_text(bytes)
}

/// The outcome of sending a lobby chat message: Steam's refusal is an `IOFailure`.
pub fn lobby_chat_send_result(sent: bool) -> (r: Result<(), SteamError>)
    ensures
        sent ==> r == Ok::<(), SteamError>(()),
        !sent ==> r == Err::<(), SteamError>(SteamError::IOFailure),
{
    if sent {
        Ok(())
    } else {
        Err(SteamError::IOFailure)
    }
}

/// The part of the buffer that a lobby chat entry of `len` bytes filled.
pub fn lobby_chat_entry(buffer: &[u8], len: i32) -> (r: &[u8])
    requires
        0 <= len <= buffer@.len(),
    ensures
        r@ == buffer@.subrange(0, len as int),
{
    vstd::slice::slice_subrange(buffer, 0, len as usize)
}

/// The game server of a lobby, as Steam reports it: none when there is none;
/// its steam id only when that id is valid.
pub fn lobby_game_server_of(success: bool, ip: u32, port: u16, server_id: u64) -> (r: Option<(u32, u16, Option<SteamId>)>)
    ensures
        !success ==> r is None,
        success ==> (r matches Some((i, p, id)) && i == ip && p == port && (
            crate::ids::account_type_bits(server_id) == 0 ==> id is None) && (
            crate::ids::account_type_bits(server_id) != 0 ==> (id matches Some(s) && s@ == server_id))),
{
    let id = SteamId::from_raw(server_id);
    let id = if id.is_invalid() {
        None
    } else {
        Some(id)
    };
    if success {
        Some((ip, port, id))
    } else {
        None
    }
}

/// A `LobbyId` is its view: two values with the same view are the same value.
pub proof fn lemma_lobby_id_view_injective(a: LobbyId, b: LobbyId)
    ensures
        a@ == b@ <==> a == b,
{
}

impl From<u8> for ChatEntryType {
    fn from(value: u8) -> (r: Self) {
        ChatEntryType::from_code(value)
    }
}

impl vstd::std_specs::convert::FromSpecImpl<u8> for ChatEntryType {
    open spec fn obeys_from_spec() -> bool {
        true
    }

    open spec fn from_spec(value: u8) -> ChatEntryType {
        match chat_entry_type_of_code(value) {
            Some(v) => v,
            None => ChatEntryType::Invalid,
        }
    }
}

impl From<u32> for ChatRoomEnterResponse {
    fn from(value: u32) -> (r: Self) {
        ChatRoomEnterResponse::from_code(value)
    }
}

impl vstd::std_specs::convert::FromSpecImpl<u32> for ChatRoomEnterResponse {
    open spec fn obeys_from_spec() -> bool {
        true
    }

    open spec fn from_spec(value: u32) -> ChatRoomEnterResponse {
        match chat_room_enter_response_of_code(value) {
            Some(v) => v,
            None => ChatRoomEnterResponse::Error,
        }
    }
}

/// The values of `chat_member_state_change_of_code`, as the Steamworks SDK headers fix them.
pub proof fn lemma_chat_member_state_change_of_code_table()
    ensures
        chat_member_state_change_of_code(1) == Some(ChatMemberStateChange::Entered),
        chat_member_state_change_of_code(2) == Some(ChatMemberStateChange::Left),
        chat_member_state_change_of_code(4) == Some(ChatMemberStateChange::Disconnected),
        chat_member_state_change_of_code(8) == Some(ChatMemberStateChange::Kicked),
        chat_member_state_change_of_code(16) == Some(ChatMemberStateChange::Banned),
{
}

/// The values of `chat_entry_type_of_code`, as the Steamworks SDK headers fix them.
pub proof fn lemma_chat_entry_type_of_code_table()
    ensures
        chat_entry_type_of_code(0) == Some(ChatEntryType::Invalid),
        chat_entry_type_of_code(1) == Some(ChatEntryType::ChatMsg),
        chat_entry_type_of_code(2) == Some(ChatEntryType::Typing),
        chat_entry_type_of_code(3) == Some(ChatEntryType::InviteGame),
        chat_entry_type_of_code(4) == Some(ChatEntryType::Emote),
        chat_entry_type_of_code(6) == Some(ChatEntryType::LeftConversation),
        chat_entry_type_of_code(7) == Some(ChatEntryType::Entered),
        chat_entry_type_of_code(8) == Some(ChatEntryType::WasKicked),
        chat_entry_type_of_code(9) == Some(ChatEntryType::WasBanned),
        chat_entry_type_of_code(10) == Some(ChatEntryType::Disconnected),
        chat_entry_type_of_code(11) == Some(ChatEntryType::HistoricalChat),
        chat_entry_type_of_code(14) == Some(ChatEntryType::LinkBlocked),
{
}

/// The values of `chat_room_enter_response_of_code`, as the Steamworks SDK headers fix them.
pub proof fn lemma_chat_room_enter_response_of_code_table()
    ensures
        chat_room_enter_response_of_code(1) == Some(ChatRoomEnterResponse::Success),
        chat_room_enter_response_of_code(2) == Some(ChatRoomEnterResponse::DoesntExist),
        chat_room_enter_response_of_code(3) == Some(ChatRoomEnterResponse::NotAllowed),
        chat_room_enter_response_of_code(4) == Some(ChatRoomEnterResponse::Full),
        chat_room_enter_response_of_code(5) == Some(ChatRoomEnterResponse::Error),
        chat_room_enter_response_of_code(6) == Some(ChatRoomEnterResponse::Banned),
        chat_room_enter_response_of_code(7) == Some(ChatRoomEnterResponse::Limited),
        chat_room_enter_response_of_code(8) == Some(ChatRoomEnterResponse::ClanDisabled),
        chat_room_enter_response_of_code(9) == Some(ChatRoomEnterResponse::CommunityBan),
        chat_room_enter_response_of_code(10) == Some(ChatRoomEnterResponse::MemberBlockedYou),
        chat_room_enter_response_of_code(11) == Some(ChatRoomEnterResponse::YouBlockedMember),
        chat_room_enter_response_of_code(15) == Some(ChatRoomEnterResponse::RatelimitExceeded),
{
}

/// The values of `LobbyType::spec_code`, as the Steamworks SDK headers fix them.
pub proof fn lemma_lobby_type_code_table()
    ensures
        LobbyType::Private.spec_code() == 0,
        LobbyType::FriendsOnly.spec_code() == 1,
        LobbyType::Public.spec_code() == 2,
        LobbyType::Invisible.spec_code() == 3,
{
}

/// The values of `StringFilterKind::spec_code`, as the Steamworks SDK headers fix them.
pub proof fn lemma_string_filter_kind_code_table()
    ensures
        StringFilterKind::EqualToOrLessThan.spec_code() == -2i32,
        StringFilterKind::LessThan.spec_code() == -1i32,
        StringFilterKind::Equal.spec_code() == 0,
        StringFilterKind::GreaterThan.spec_code() == 1,
        StringFilterKind::EqualToOrGreaterThan.spec_code() == 2,
        StringFilterKind::NotEqual.spec_code() == 3,
{
}

/// The values of `DistanceFilter::spec_code`, as the Steamworks SDK headers fix them.
pub proof fn lemma_distance_filter_code_table()
    ensures
        DistanceFilter::Close.spec_code() == 0,
        DistanceFilter::Default.spec_code() == 1,
        DistanceFilter::Far.spec_code() == 2,
        DistanceFilter::Worldwide.spec_code() == 3,
{
}

/// The values of `ComparisonFilter::spec_code`, as the Steamworks SDK headers fix them.
pub proof fn lemma_comparison_filter_code_table()
    ensures
        ComparisonFilter::Equal.spec_code() == 0,
        ComparisonFilter::NotEqual.spec_code() == 3,
        ComparisonFilter::GreaterThan.spec_code() == 1,
        ComparisonFilter::GreaterThanEqualTo.spec_code() == 2,
        ComparisonFilter::LessThan.spec_code() == -1i32,
        ComparisonFilter::LessThanEqualTo.spec_code() == -2i32,
{
}

/// The values of `ChatMemberStateChange::spec_code`, as the Steamworks SDK headers fix them.
pub proof fn lemma_chat_member_state_change_code_table()
    ensures
        ChatMemberStateChange::Entered.spec_code() == 1,
        ChatMemberStateChange::Left.spec_code() == 2,
        ChatMemberStateChange::Disconnected.spec_code() == 4,
        ChatMemberStateChange::Kicked.spec_code() == 8,
        ChatMemberStateChange::Banned.spec_code() == 16,
{
}

/// A numeric filter sends the same `ELobbyComparison` code as the string
/// filter kind of the same comparison. Equality is 0; each "less" comparison
/// is the negative of the matching "greater" one, and the codes order the
/// comparisons from "at most" through "less", "equal" and "greater" to "at
/// least".
pub proof fn lemma_comparison_codes_agree()
    ensures
        ComparisonFilter::Equal.spec_code() == StringFilterKind::Equal.spec_code(),
        ComparisonFilter::NotEqual.spec_code() == StringFilterKind::NotEqual.spec_code(),
        ComparisonFilter::GreaterThan.spec_code() == StringFilterKind::GreaterThan.spec_code(),
        ComparisonFilter::GreaterThanEqualTo.spec_code()
            == StringFilterKind::EqualToOrGreaterThan.spec_code(),
        ComparisonFilter::LessThan.spec_code() == StringFilterKind::LessThan.spec_code(),
        ComparisonFilter::LessThanEqualTo.spec_code()
            == StringFilterKind::EqualToOrLessThan.spec_code(),
        ComparisonFilter::Equal.spec_code() == 0,
        ComparisonFilter::LessThan.spec_code() == -ComparisonFilter::GreaterThan.spec_code(),
        ComparisonFilter::LessThanEqualTo.spec_code() == -ComparisonFilter::GreaterThanEqualTo.spec_code(),
        ComparisonFilter::LessThanEqualTo.spec_code() < ComparisonFilter::LessThan.spec_code(),
        ComparisonFilter::LessThan.spec_code() < ComparisonFilter::Equal.spec_code(),
        ComparisonFilter::Equal.spec_code() < ComparisonFilter::GreaterThan.spec_code(),
        ComparisonFilter::GreaterThan.spec_code() < ComparisonFilter::GreaterThanEqualTo.spec_code(),
{
}

} // verus!
