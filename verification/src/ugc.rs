use vstd::prelude::*;

use crate::bits::lemma_flag_bits_u32;
use crate::error::{error_of_code, SteamError, RESULT_OK};
use crate::ids::AppId;
use crate::matchmaking::call_result_status;

verus! {

/// The handle Steam returns when it could not create a UGC query.
pub const UGC_QUERY_HANDLE_INVALID: u64 = 0xffff_ffff_ffff_ffff;

/// A published workshop file's id
#[derive(Clone, Copy, Debug, Ord, PartialOrd, Eq, PartialEq, Hash, Structural)]
pub struct PublishedFileId(pub u64);

/// Workshop item types to search for
#[derive(Debug, Clone, Copy, PartialEq, Eq, Structural)]
pub enum UGCType {
    Items,
    ItemsMtx,
    ItemsReadyToUse,
    Collections,
    Artwork,
    Videos,
    Screenshots,
    AllGuides,
    WebGuides,
    IntegratedGuides,
    UsableInGame,
    ControllerBindings,
    GameManagedItems,
    All,
}

impl UGCType {
    /// The `EUGCMatchingUGCType` code of the value.
    pub open spec fn spec_code(self) -> i32 {
        match self {
            UGCType::Items => 0,
            UGCType::ItemsMtx => 1,
            UGCType::ItemsReadyToUse => 2,
            UGCType::Collections => 3,
            UGCType::Artwork => 4,
            UGCType::Videos => 5,
            UGCType::Screenshots => 6,
            UGCType::AllGuides => 7,
            UGCType::WebGuides => 8,
            UGCType::IntegratedGuides => 9,
            UGCType::UsableInGame => 10,
            UGCType::ControllerBindings => 11,
            UGCType::GameManagedItems => 12,
            UGCType::All => -1i32,
        }
    }

    /// The `EUGCMatchingUGCType` code of the value.
    pub fn code(&self) -> (r: i32)
        ensures
            r == self.spec_code(),
    {
        match self {
            UGCType::Items => 0,
            UGCType::ItemsMtx => 1,
            UGCType::ItemsReadyToUse => 2,
            UGCType::Collections => 3,
            UGCType::Artwork => 4,
            UGCType::Videos => 5,
            UGCType::Screenshots => 6,
            UGCType::AllGuides => 7,
            UGCType::WebGuides => 8,
            UGCType::IntegratedGuides => 9,
            UGCType::UsableInGame => 10,
            UGCType::ControllerBindings => 11,
            UGCType::GameManagedItems => 12,
            UGCType::All => -1i32,
        }
    }
}

/// Workshop file types
#[derive(Debug, Clone, Copy, PartialEq, Eq, Structural)]
pub enum FileType {
    Community,
    Microtransaction,
    Collection,
    Art,
    Video,
    Screenshot,
    Game,
    Software,
    Concept,
    WebGuide,
    IntegratedGuide,
    Merch,
    ControllerBinding,
    SteamworksAccessInvite,
    SteamVideo,
    GameManagedItem,
}

impl FileType {
    /// The `EWorkshopFileType` code of the value.
    pub open spec fn spec_code(self) -> i32 {
        match self {
            FileType::Community => 0,
            FileType::Microtransaction => 1,
            FileType::Collection => 2,
            FileType::Art => 3,
            FileType::Video => 4,
            FileType::Screenshot => 5,
            FileType::Game => 6,
            FileType::Software => 7,
            FileType::Concept => 8,
            FileType::WebGuide => 9,
            FileType::IntegratedGuide => 10,
            FileType::Merch => 11,
            FileType::ControllerBinding => 12,
            FileType::SteamworksAccessInvite => 13,
            FileType::SteamVideo => 14,
            FileType::GameManagedItem => 15,
        }
    }

    /// The `EWorkshopFileType` code of the value.
    pub fn code(&self) -> (r: i32)
        ensures
            r == self.spec_code(),
    {
        match self {
            FileType::Community => 0,
            FileType::Microtransaction => 1,
            FileType::Collection => 2,
            FileType::Art => 3,
            FileType::Video => 4,
            FileType::Screenshot => 5,
            FileType::Game => 6,
            FileType::Software => 7,
            FileType::Concept => 8,
            FileType::WebGuide => 9,
            FileType::IntegratedGuide => 10,
            FileType::Merch => 11,
            FileType::ControllerBinding => 12,
            FileType::SteamworksAccessInvite => 13,
            FileType::SteamVideo => 14,
            FileType::GameManagedItem => 15,
        }
    }
}

/// AppID filter for queries.
/// The "creator" app is the app that the item was made for.
/// The "consumer" app is the app that the item will be used in.
#[derive(Debug, Clone, Copy, PartialEq, Eq, Structural)]
pub enum AppIDs {
    CreatorAppId(AppId),
    ConsumerAppId(AppId),
    Both { creator: AppId, consumer: AppId },
}

impl AppIDs {
    /// The creator app of the filter, if it names one.
    pub fn creator_app_id(&self) -> (r: Option<AppId>)
        ensures
            r == (match *self {
                AppIDs::CreatorAppId(v) => Some(v),
                AppIDs::ConsumerAppId(_) => None,
                AppIDs::Both { creator, .. } => Some(creator),
            }),
    {
        match self {
            AppIDs::CreatorAppId(v) => Some(*v),
            AppIDs::ConsumerAppId(_) => None,
            AppIDs::Both { creator, .. } => Some(*creator),
        }
    }

    /// The consumer app of the filter, if it names one.
    pub fn consumer_app_id(&self) -> (r: Option<AppId>)
        ensures
            r == (match *self {
                AppIDs::CreatorAppId(_) => None,
                AppIDs::ConsumerAppId(v) => Some(v),
                AppIDs::Both { consumer, .. } => Some(consumer),
            }),
    {
        match self {
            AppIDs::CreatorAppId(_) => None,
            AppIDs::ConsumerAppId(v) => Some(*v),
            AppIDs::Both { consumer, .. } => Some(*consumer),
        }
    }

    /// The creator and consumer app ids that a user query sends: 0 for an app
    /// that the filter does not name.
    pub fn query_app_ids(&self) -> (r: (u32, u32))
        ensures
            r.0 == (match *self {
                AppIDs::CreatorAppId(v) => v.0,
                AppIDs::ConsumerAppId(_) => 0,
                AppIDs::Both { creator, .. } => creator.0,
            }),
            r.1 == (match *self {
                AppIDs::CreatorAppId(_) => 0,
                AppIDs::ConsumerAppId(v) => v.0,
                AppIDs::Both { consumer, .. } => consumer.0,
            }),
    {
        let creator = match self.creator_app_id() {
            Some(a) => a.0,
            None => 0,
        };
        let consumer = match self.consumer_app_id() {
            Some(a) => a.0,
            None => 0,
        };
        (creator, consumer)
    }
}

/// Used with `UserList` to specify the sort order
#[derive(Debug, Clone, Copy, PartialEq, Eq, Structural)]
pub enum UserListOrder {
    CreationOrderAsc,
    CreationOrderDesc,
    TitleAsc,
    LastUpdatedDesc,
    SubscriptionDateDesc,
    VoteScoreDesc,
    ForModeration,
}

impl UserListOrder {
    /// The `EUserUGCListSortOrder` code of the value.
    pub open spec fn spec_code(self) -> i32 {
        match self {
            UserListOrder::CreationOrderAsc => 1,
            UserListOrder::CreationOrderDesc => 0,
            UserListOrder::TitleAsc => 2,
            UserListOrder::LastUpdatedDesc => 3,
            UserListOrder::SubscriptionDateDesc => 4,
            UserListOrder::VoteScoreDesc => 5,
            UserListOrder::ForModeration => 6,
        }
    }

    /// The `EUserUGCListSortOrder` code of the value.
    pub fn code(&self) -> (r: i32)
        ensures
            r == self.spec_code(),
    {
        match self {
            UserListOrder::CreationOrderAsc => 1,
            UserListOrder::CreationOrderDesc => 0,
            UserListOrder::TitleAsc => 2,
            UserListOrder::LastUpdatedDesc => 3,
            UserListOrder::SubscriptionDateDesc => 4,
            UserListOrder::VoteScoreDesc => 5,
            UserListOrder::ForModeration => 6,
        }
    }
}

/// Used to specify the type of list of a user
#[derive(Debug, Clone, Copy, PartialEq, Eq, Structural)]
pub enum UserList {
    Published,
    VotedOn,
    VotedUp,
    VotedDown,
    /// Deprecated in Steam API
    WillVoteLater,
    Favorited,
    Subscribed,
    UsedOrPlayed,
    Followed,
}

impl UserList {
    /// The `EUserUGCList` code of the value.
    pub open spec fn spec_code(self) -> i32 {
        match self {
            UserList::Published => 0,
            UserList::VotedOn => 1,
            UserList::VotedUp => 2,
            UserList::VotedDown => 3,
            UserList::WillVoteLater => 4,
            UserList::Favorited => 5,
            UserList::Subscribed => 6,
            UserList::UsedOrPlayed => 7,
            UserList::Followed => 8,
        }
    }

    /// The `EUserUGCList` code of the value.
    pub fn code(&self) -> (r: i32)
        ensures
            r == self.spec_code(),
    {
        match self {
            UserList::Published => 0,
            UserList::VotedOn => 1,
            UserList::VotedUp => 2,
            UserList::VotedDown => 3,
            UserList::WillVoteLater => 4,
            UserList::Favorited => 5,
            UserList::Subscribed => 6,
            UserList::UsedOrPlayed => 7,
            UserList::Followed => 8,
        }
    }
}

/// The state of a workshop item on this machine.
#[derive(PartialEq, Eq, PartialOrd, Ord, Hash, Debug, Clone, Copy, Structural)]
pub struct ItemState(u32);

impl ItemState {
    #[allow(non_snake_case)]
    pub fn NONE() -> (r: ItemState)
        ensures
            r@ == 0u32,
    {
        ItemState(0u32)
    }

    #[allow(non_snake_case)]
    pub fn SUBSCRIBED() -> (r: ItemState)
        ensures
            r@ == 1u32,
    {
        ItemState(1u32)
    }

    #[allow(non_snake_case)]
    pub fn LEGACY_ITEM() -> (r: ItemState)
        ensures
            r@ == 2u32,
    {
        ItemState(2u32)
    }

    #[allow(non_snake_case)]
    pub fn INSTALLED() -> (r: ItemState)
        ensures
            r@ == 4u32,
    {
        ItemState(4u32)
    }

    #[allow(non_snake_case)]
    pub fn NEEDS_UPDATE() -> (r: ItemState)
        ensures
            r@ == 8u32,
    {
        ItemState(8u32)
    }

    #[allow(non_snake_case)]
    pub fn DOWNLOADING() -> (r: ItemState)
        ensures
            r@ == 16u32,
    {
        ItemState(16u32)
    }

    #[allow(non_snake_case)]
    pub fn DOWNLOAD_PENDING() -> (r: ItemState)
        ensures
            r@ == 32u32,
    {
        ItemState(32u32)
    }

    /// The bits of every flag that the type names.
    pub open spec fn all_bits() -> u32 {
        63u32
    }

    /// The bits of this flag set.
    pub closed spec fn view(self) -> u32 {
        self.0
    }

    /// The flag set with no flag.
    pub fn empty() -> (r: Self)
        ensures
            r@ == 0,
    {
        ItemState(0)
    }

    /// The flag set with every flag that the type names.
    pub fn all() -> (r: Self)
        ensures
            r@ == Self::all_bits(),
    {
        ItemState(63u32)
    }

    /// The bits of this flag set.
    pub fn bits(&self) -> (r: u32)
        ensures
            r == self@,
    {
        self.0
    }

    /// The flag set with exactly these bits, if each of them is a named flag.
    pub fn from_bits(bits: u32) -> (r: Option<Self>)
        ensures
            r is Some <==> bits & !Self::all_bits() == 0,
            r matches Some(f) ==> f@ == bits,
    {
        if bits & !63u32 == 0 {
            Some(ItemState(bits))
        } else {
            None
        }
    }

    /// The flag set with the named flags among these bits; other bits are dropped.
    pub fn from_bits_truncate(bits: u32) -> (r: Self)
        ensures
            r@ == bits & Self::all_bits(),
    {
        ItemState(bits & 63u32)
    }

    /// The flag set with exactly these bits, named or not.
    pub fn from_bits_retain(bits: u32) -> (r: Self)
        ensures
            r@ == bits,
    {
        ItemState(bits)
    }

    /// Whether no bit is set.
    pub fn is_empty(&self) -> (r: bool)
        ensures
            r == (self@ == 0),
    {
        self.0 == 0
    }

    /// Whether every named flag is set.
    pub fn is_all(&self) -> (r: bool)
        ensures
            r == (self@ & Self::all_bits() == Self::all_bits()),
    {
        self.0 & 63u32 == 63u32
    }

    /// Whether every bit of `other` is set in this set.
    pub fn contains(&self, other: Self) -> (r: bool)
        ensures
            r == (self@ & other@ == other@),
    {
        self.0 & other.0 == other.0
    }

    /// Whether this set and `other` share a bit.
    pub fn intersects(&self, other: Self) -> (r: bool)
        ensures
            r == (self@ & other@ != 0),
    {
        self.0 & other.0 != 0
    }

    /// Sets the bits of `other`.
    pub fn insert(&mut self, other: Self)
        ensures
            final(self)@ == old(self)@ | other@,
    {
        self.0 = self.0 | other.0;
    }

    /// Clears the bits of `other`.
    pub fn remove(&mut self, other: Self)
        ensures
            final(self)@ == old(self)@ & !other@,
    {
        self.0 = self.0 & !other.0;
    }

    /// The bits set in either set.
    pub fn union(self, other: Self) -> (r: Self)
        ensures
            r@ == self@ | other@,
    {
        ItemState(self.0 | other.0)
    }

    /// The bits set in both sets.
    pub fn intersection(self, other: Self) -> (r: Self)
        ensures
            r@ == self@ & other@,
    {
        ItemState(self.0 & other.0)
    }

    /// The bits set in this set and not in `other`.
    pub fn difference(self, other: Self) -> (r: Self)
        ensures
            r@ == self@ & !other@,
    {
        ItemState(self.0 & !other.0)
    }
}

/// The laws of `ItemState`: an inserted set is contained afterwards, a
/// removed set no longer intersects, union is commutative and contains
/// both operands, and truncated bits always form a valid flag set, which
/// truncation leaves unchanged.
pub proof fn lemma_item_state_laws(a: ItemState, b: ItemState, bits: u32)
    ensures
        (a@ | b@) & b@ == b@,
        (a@ | b@) & a@ == a@,
        (a@ & !b@) & b@ == 0,
        a@ | b@ == b@ | a@,
        (bits & ItemState::all_bits()) & !ItemState::all_bits() == 0,
        (bits & ItemState::all_bits()) & ItemState::all_bits() == bits & ItemState::all_bits(),
{
    lemma_flag_bits_u32(a@, b@, bits, ItemState::all_bits());
}

/// Called when a workshop item has been downloaded.
#[derive(Clone, Debug)]
pub struct DownloadItemResult {
    pub app_id: AppId,
    pub published_file_id: PublishedFileId,
}

/// The outcome that a `DownloadItemResult_t` reports: the item, or the error of its failure code.
pub fn download_item_result(code: i64, app_id: u32, published_file_id: u64) -> (r: Result<DownloadItemResult, SteamError>)
    requires
        code == RESULT_OK || error_of_code(code) is Some,
    ensures
        code == RESULT_OK ==> (r matches Ok(d) && d.app_id.0 == app_id && d.published_file_id.0
            == published_file_id),
        code != RESULT_OK ==> (r matches Err(e) && Some(e) == error_of_code(code)),
{
    if code == RESULT_OK {
        Ok(DownloadItemResult { app_id: AppId(app_id), published_file_id: PublishedFileId(published_file_id) })
    } else {
        Err(SteamError::from_result_code(code))
    }
}

/// Where an installed workshop item is.
#[derive(Clone, Debug)]
pub struct InstallInfo {
    pub folder: String,
    pub size_on_disk: u64,
    pub timestamp: u32,
}

/// The progress of an item update
#[derive(Debug, Clone, Copy, PartialEq, Eq, Structural)]
pub enum UpdateStatus {
    Invalid,
    PreparingConfig,
    PreparingContent,
    UploadingContent,
    UploadingPreviewFile,
    CommittingChanges,
}

impl UpdateStatus {

    /// The value of a code, if the code stands for one; see `update_status_of_code`.
    pub fn try_from_code(code: i32) -> (r: Option<UpdateStatus>)
        ensures
            r == update_status_of_code(code),
    {
        match code {
            0 => Some(UpdateStatus::Invalid),
            1 => Some(UpdateStatus::PreparingConfig),
            2 => Some(UpdateStatus::PreparingContent),
            3 => Some(UpdateStatus::UploadingContent),
            4 => Some(UpdateStatus::UploadingPreviewFile),
            5 => Some(UpdateStatus::CommittingChanges),
            _ => None,
        }
    }

    /// Converts a `EItemUpdateStatus` code; see `update_status_of_code` for the codes that stand for a value.
    pub fn from_code(code: i32) -> (r: UpdateStatus)
        requires
            update_status_of_code(code) is Some,
        ensures
            update_status_of_code(code) == Some(r),
    {
        match code {
            0 => UpdateStatus::Invalid,
            1 => UpdateStatus::PreparingConfig,
            2 => UpdateStatus::PreparingContent,
            3 => UpdateStatus::UploadingContent,
            4 => UpdateStatus::UploadingPreviewFile,
            _ => UpdateStatus::CommittingChanges,
        }
    }
}

/// The value that a `EItemUpdateStatus` code stands for, if any.
pub open spec fn update_status_of_code(code: i32) -> Option<UpdateStatus> {
    match code {
        0 => Some(UpdateStatus::Invalid),
        1 => Some(UpdateStatus::PreparingConfig),
        2 => Some(UpdateStatus::PreparingContent),
        3 => Some(UpdateStatus::UploadingContent),
        4 => Some(UpdateStatus::UploadingPreviewFile),
        5 => Some(UpdateStatus::CommittingChanges),
        _ => None,
    }
}

/// Returned when a workshop query could not be created.
#[derive(Debug, Clone, Copy)]
pub struct CreateQueryError;

impl CreateQueryError {
    /// The human readable description of the error.
    pub fn to_string(&self) -> (s: String)
        ensures
            s@ == "Could not create workshop query"@,
    {
        String::from_str("Could not create workshop query")
    }
}

/// The query that `CreateQueryUserUGCRequest` created: an error for the invalid handle.
pub fn created_query_handle(handle: u64) -> (r: Result<u64, CreateQueryError>)
    ensures
        handle == UGC_QUERY_HANDLE_INVALID ==> r is Err,
        handle != UGC_QUERY_HANDLE_INVALID ==> r == Ok::<u64, CreateQueryError>(handle),
{
    if handle == UGC_QUERY_HANDLE_INVALID {
        Err(CreateQueryError)
    } else {
        Ok(handle)
    }
}

/// The outcome of a workshop call result that carries a published file id:
/// the file id and whether the user must accept the workshop legal agreement.
pub fn item_call_result(io_error: bool, code: i64, file: u64, needs_legal_agreement: bool) -> (r: Result<(PublishedFileId, bool), SteamError>)
    requires
        io_error || code == RESULT_OK || error_of_code(code) is Some,
    ensures
        call_result_status(io_error, code) is Ok ==> r == Ok::<(PublishedFileId, bool), SteamError>(
            (PublishedFileId(file), needs_legal_agreement),
        ),
        call_result_status(io_error, code) matches Err(e) ==> r == Err::<(PublishedFileId, bool), SteamError>(e),
{
    match crate::matchmaking::call_result(io_error, code) {
        Ok(()) => Ok((PublishedFileId(file), needs_legal_agreement)),
        Err(e) => Err(e),
    }
}

/// Whether result `index` of a query with `returned` results exists.
pub fn query_result_index_valid(index: u32, returned: u32) -> (r: bool)
    ensures
        r == (index < returned),
{
    index < returned
}

/// An app id that Steam reports in a query result: none for 0.
pub fn optional_app_id(id: u32) -> (r: Option<AppId>)
    ensures
        id == 0 ==> r is None,
        id != 0 ==> r == Some(AppId(id)),
{
    if id != 0 {
        Some(AppId(id))
    } else {
        None
    }
}

/// A `ItemState` is its view: two values with the same view are the same value.
pub proof fn lemma_item_state_view_injective(a: ItemState, b: ItemState)
    ensures
        a@ == b@ <==> a == b,
{
}

/// The values of `update_status_of_code`, as the Steamworks SDK headers fix them.
pub proof fn lemma_update_status_of_code_table()
    ensures
        update_status_of_code(0) == Some(UpdateStatus::Invalid),
        update_status_of_code(1) == Some(UpdateStatus::PreparingConfig),
        update_status_of_code(2) == Some(UpdateStatus::PreparingContent),
        update_status_of_code(3) == Some(UpdateStatus::UploadingContent),
        update_status_of_code(4) == Some(UpdateStatus::UploadingPreviewFile),
        update_status_of_code(5) == Some(UpdateStatus::CommittingChanges),
{
}

/// The values of `UGCType::spec_code`, as the Steamworks SDK headers fix them.
pub proof fn lemma_ugc_type_code_table()
    ensures
        UGCType::Items.spec_code() == 0,
        UGCType::ItemsMtx.spec_code() == 1,
        UGCType::ItemsReadyToUse.spec_code() == 2,
        UGCType::Collections.spec_code() == 3,
        UGCType::Artwork.spec_code() == 4,
        UGCType::Videos.spec_code() == 5,
        UGCType::Screenshots.spec_code() == 6,
        UGCType::AllGuides.spec_code() == 7,
        UGCType::WebGuides.spec_code() == 8,
        UGCType::IntegratedGuides.spec_code() == 9,
        UGCType::UsableInGame.spec_code() == 10,
        UGCType::ControllerBindings.spec_code() == 11,
        UGCType::GameManagedItems.spec_code() == 12,
        UGCType::All.spec_code() == -1i32,
{
}

/// The values of `FileType::spec_code`, as the Steamworks SDK headers fix them.
pub proof fn lemma_file_type_code_table()
    ensures
        FileType::Community.spec_code() == 0,
        FileType::Microtransaction.spec_code() == 1,
        FileType::Collection.spec_code() == 2,
        FileType::Art.spec_code() == 3,
        FileType::Video.spec_code() == 4,
        FileType::Screenshot.spec_code() == 5,
        FileType::Game.spec_code() == 6,
        FileType::Software.spec_code() == 7,
        FileType::Concept.spec_code() == 8,
        FileType::WebGuide.spec_code() == 9,
        FileType::IntegratedGuide.spec_code() == 10,
        FileType::Merch.spec_code() == 11,
        FileType::ControllerBinding.spec_code() == 12,
        FileType::SteamworksAccessInvite.spec_code() == 13,
        FileType::SteamVideo.spec_code() == 14,
        FileType::GameManagedItem.spec_code() == 15,
{
}

/// The values of `UserListOrder::spec_code`, as the Steamworks SDK headers fix them.
pub proof fn lemma_user_list_order_code_table()
    ensures
        UserListOrder::CreationOrderAsc.spec_code() == 1,
        UserListOrder::CreationOrderDesc.spec_code() == 0,
        UserListOrder::TitleAsc.spec_code() == 2,
        UserListOrder::LastUpdatedDesc.spec_code() == 3,
        UserListOrder::SubscriptionDateDesc.spec_code() == 4,
        UserListOrder::VoteScoreDesc.spec_code() == 5,
        UserListOrder::ForModeration.spec_code() == 6,
{
}

/// The values of `UserList::spec_code`, as the Steamworks SDK headers fix them.
pub proof fn lemma_user_list_code_table()
    ensures
        UserList::Published.spec_code() == 0,
        UserList::VotedOn.spec_code() == 1,
        UserList::VotedUp.spec_code() == 2,
        UserList::VotedDown.spec_code() == 3,
        UserList::WillVoteLater.spec_code() == 4,
        UserList::Favorited.spec_code() == 5,
        UserList::Subscribed.spec_code() == 6,
        UserList::UsedOrPlayed.spec_code() == 7,
        UserList::Followed.spec_code() == 8,
{
}

/// Every flag set of the named `ItemState` flags lies within `all`, and `all`
/// is exactly their union.
pub proof fn lemma_item_state_all_is_union_of_flags()
    ensures
        ItemState::all_bits() == (0u32 | 1u32 | 2u32 | 4u32 | 8u32 | 16u32 | 32u32),
{
    assert((0u32 | 1u32 | 2u32 | 4u32 | 8u32 | 16u32 | 32u32) == ItemState::all_bits()) by (bit_vector);
}

} // verus!
