use vstd::prelude::*;

use crate::error::{error_of_code, SteamError, RESULT_OK};
use crate::ids::{GameId, SteamId};
use crate::matchmaking::call_result_status;
use crate::user::result_of_code;

verus! {

/// An entry of a leaderboard.
#[derive(Debug, Clone)]
pub struct LeaderboardEntry {
    pub user: SteamId,
    pub global_rank: i32,
    pub score: i32,
    pub details: Vec<i32>,
}

/// Which entries of a leaderboard to download
#[derive(Debug, Clone, Copy, PartialEq, Eq, Structural)]
pub enum LeaderboardDataRequest {
    Global,
    GlobalAroundUser,
    Friends,
}

impl LeaderboardDataRequest {
    /// The `ELeaderboardDataRequest` code of the value.
    pub open spec fn spec_code(self) -> i32 {
        match self {
            LeaderboardDataRequest::Global => 0,
            LeaderboardDataRequest::GlobalAroundUser => 1,
            LeaderboardDataRequest::Friends => 2,
        }
    }

    /// The `ELeaderboardDataRequest` code of the value.
    pub fn code(&self) -> (r: i32)
        ensures
            r == self.spec_code(),
    {
        match self {
            LeaderboardDataRequest::Global => 0,
            LeaderboardDataRequest::GlobalAroundUser => 1,
            LeaderboardDataRequest::Friends => 2,
        }
    }
}

/// The result of uploading a leaderboard score.
#[derive(Debug, Clone)]
pub struct LeaderboardScoreUploaded {
    pub score: i32,
    pub was_changed: bool,
    pub global_rank_new: i32,
    pub global_rank_previous: i32,
}

/// How an uploaded score is kept
#[derive(Debug, Clone, Copy, PartialEq, Eq, Structural)]
pub enum UploadScoreMethod {
    KeepBest,
    ForceUpdate,
}

impl UploadScoreMethod {
    /// The `ELeaderboardUploadScoreMethod` code of the value.
    pub open spec fn spec_code(self) -> i32 {
        match self {
            UploadScoreMethod::KeepBest => 1,
            UploadScoreMethod::ForceUpdate => 2,
        }
    }

    /// The `ELeaderboardUploadScoreMethod` code of the value.
    pub fn code(&self) -> (r: i32)
        ensures
            r == self.spec_code(),
    {
        match self {
            UploadScoreMethod::KeepBest => 1,
            UploadScoreMethod::ForceUpdate => 2,
        }
    }
}

/// How a leaderboard is sorted
#[derive(Debug, Clone, Copy, PartialEq, Eq, Structural)]
pub enum LeaderboardSortMethod {
    Ascending,
    Descending,
}

impl LeaderboardSortMethod {
    /// The `ELeaderboardSortMethod` code of the value.
    pub open spec fn spec_code(self) -> i32 {
        match self {
            LeaderboardSortMethod::Ascending => 1,
            LeaderboardSortMethod::Descending => 2,
        }
    }

    /// The `ELeaderboardSortMethod` code of the value.
    pub fn code(&self) -> (r: i32)
        ensures
            r == self.spec_code(),
    {
        match self {
            LeaderboardSortMethod::Ascending => 1,
            LeaderboardSortMethod::Descending => 2,
        }
    }

    /// Converts a `ELeaderboardSortMethod` code; see `leaderboard_sort_method_of_code` for the codes that stand for a value.
    pub fn from_code(code: i32) -> (r: Option<LeaderboardSortMethod>)
        ensures
            r == leaderboard_sort_method_of_code(code),
    {
        match code {
            1 => Some(LeaderboardSortMethod::Ascending),
            2 => Some(LeaderboardSortMethod::Descending),
            _ => None,
        }
    }
}

/// The value that a `ELeaderboardSortMethod` code stands for, if any.
pub open spec fn leaderboard_sort_method_of_code(code: i32) -> Option<LeaderboardSortMethod> {
    match code {
        1 => Some(LeaderboardSortMethod::Ascending),
        2 => Some(LeaderboardSortMethod::Descending),
        _ => None,
    }
}

/// Codes of `LeaderboardSortMethod` are distinct: each value's code converts back to that
/// value, and a code that converts to a value is that value's code.
pub proof fn lemma_leaderboard_sort_method_code_roundtrip(v: LeaderboardSortMethod, code: i32)
    ensures
        leaderboard_sort_method_of_code(v.spec_code()) == Some(v),
        leaderboard_sort_method_of_code(code) == Some(v) ==> v.spec_code() == code,
{
}

/// How a leaderboard's scores are shown
#[derive(Debug, Clone, Copy, PartialEq, Eq, Structural)]
pub enum LeaderboardDisplayType {
    Numeric,
    TimeSeconds,
    TimeMilliSeconds,
}

impl LeaderboardDisplayType {
    /// The `ELeaderboardDisplayType` code of the value.
    pub open spec fn spec_code(self) -> i32 {
        match self {
            LeaderboardDisplayType::Numeric => 1,
            LeaderboardDisplayType::TimeSeconds => 2,
            LeaderboardDisplayType::TimeMilliSeconds => 3,
        }
    }

    /// The `ELeaderboardDisplayType` code of the value.
    pub fn code(&self) -> (r: i32)
        ensures
            r == self.spec_code(),
    {
        match self {
            LeaderboardDisplayType::Numeric => 1,
            LeaderboardDisplayType::TimeSeconds => 2,
            LeaderboardDisplayType::TimeMilliSeconds => 3,
        }
    }

    /// Converts a `ELeaderboardDisplayType` code; see `leaderboard_display_type_of_code` for the codes that stand for a value.
    pub fn from_code(code: i32) -> (r: Option<LeaderboardDisplayType>)
        ensures
            r == leaderboard_display_type_of_code(code),
    {
        match code {
            1 => Some(LeaderboardDisplayType::Numeric),
            2 => Some(LeaderboardDisplayType::TimeSeconds),
            3 => Some(LeaderboardDisplayType::TimeMilliSeconds),
            _ => None,
        }
    }
}

/// The value that a `ELeaderboardDisplayType` code stands for, if any.
pub open spec fn leaderboard_display_type_of_code(code: i32) -> Option<LeaderboardDisplayType> {
    match code {
        1 => Some(LeaderboardDisplayType::Numeric),
        2 => Some(LeaderboardDisplayType::TimeSeconds),
        3 => Some(LeaderboardDisplayType::TimeMilliSeconds),
        _ => None,
    }
}

/// Codes of `LeaderboardDisplayType` are distinct: each value's code converts back to that
/// value, and a code that converts to a value is that value's code.
pub proof fn lemma_leaderboard_display_type_code_roundtrip(v: LeaderboardDisplayType, code: i32)
    ensures
        leaderboard_display_type_of_code(v.spec_code()) == Some(v),
        leaderboard_display_type_of_code(code) == Some(v) ==> v.spec_code() == code,
{
}

/// A leaderboard handle
#[derive(Debug, Clone, Copy, PartialEq, Eq, Structural)]
pub struct Leaderboard(pub(crate) u64);

impl Leaderboard {
    pub closed spec fn view(self) -> u64 {
        self.0
    }

    /// The leaderboard with this raw handle.
    pub fn from_raw(handle: u64) -> (r: Leaderboard)
        ensures
            r@ == handle,
    {
        Leaderboard(handle)
    }

    /// Returns the raw 64 bit value of the leaderboard id
    ///
    /// Useful for serializing leaderboard ids over a
    /// network or to a save format.
    pub fn raw(&self) -> (r: u64)
        ensures
            r == self@,
    {
        self.0
    }
}

/// The outcome of finding a leaderboard: an I/O failure of the call, no
/// leaderboard when none was found, or the leaderboard.
pub fn found_leaderboard(io_error: bool, found: u8, handle: u64) -> (r: Result<Option<Leaderboard>, SteamError>)
    ensures
        io_error ==> r == Err::<Option<Leaderboard>, SteamError>(SteamError::IOFailure),
        (!io_error && found == 0) ==> r == Ok::<Option<Leaderboard>, SteamError>(None),
        (!io_error && found != 0) ==> (r matches Ok(Some(l)) && l@ == handle),
{
    if io_error {
        Err(SteamError::IOFailure)
    } else if found != 0 {
        Ok(Some(Leaderboard(handle)))
    } else {
        Ok(None)
    }
}

/// The outcome of uploading a score: an I/O failure of the call, nothing when
/// Steam reports no success, else what it reports.
pub fn uploaded_score(io_error: bool, success: u8, score: i32, changed: u8, rank_new: i32, rank_previous: i32) -> (r: Result<Option<LeaderboardScoreUploaded>, SteamError>)
    ensures
        io_error ==> r == Err::<Option<LeaderboardScoreUploaded>, SteamError>(SteamError::IOFailure),
        (!io_error && success == 0) ==> (r matches Ok(None)),
        (!io_error && success != 0) ==> (r matches Ok(Some(u)) && u.score == score && u.was_changed
            == (changed != 0) && u.global_rank_new == rank_new && u.global_rank_previous
            == rank_previous),
{
    if io_error {
        Err(SteamError::IOFailure)
    } else if success != 0 {
        Ok(Some(LeaderboardScoreUploaded {
            score,
            was_changed: changed != 0,
            global_rank_new: rank_new,
            global_rank_previous: rank_previous,
        }))
    } else {
        Ok(None)
    }
}

/// The first `n` items of `data`, or all of them when there are fewer.
pub open spec fn prefix_of<T>(data: Seq<T>, n: int) -> Seq<T> {
    if n <= data.len() {
        data.subrange(0, n)
    } else {
        data
    }
}

/// The days of a global stat history that Steam filled: none when it reports
/// a negative count; the first `count` days otherwise, or every day of the
/// buffer when the count is larger than the buffer.
pub fn global_stat_history(data: Vec<i64>, count: i32) -> (r: Result<Vec<i64>, ()>)
    ensures
        count < 0 ==> r is Err,
        count >= 0 ==> (r matches Ok(v) && v@ == prefix_of(data@, count as int)),
{
    if count >= 0 {
        let mut data = data;
        data.truncate(count as usize);
        Ok(data)
    } else {
        Err(())
    }
}

/// An entry of a downloaded leaderboard from what Steam reports: its details
/// buffer keeps the first `details_count` values that Steam wrote (all of the
/// buffer when the count is larger).
pub fn leaderboard_entry(
    user: u64,
    global_rank: i32,
    score: i32,
    details: Vec<i32>,
    details_count: i32,
) -> (r: LeaderboardEntry)
    requires
        details_count >= 0,
    ensures
        r.user@ == user,
        r.global_rank == global_rank,
        r.score == score,
        r.details@ == prefix_of(details@, details_count as int),
{
    let mut details = details;
    details.truncate(details_count as usize);
    LeaderboardEntry { user: SteamId::from_raw(user), global_rank, score, details }
}

/// The outcome of downloading leaderboard entries: an I/O failure of the
/// call, or the entries read.
pub fn downloaded_entries(io_error: bool, entries: Vec<LeaderboardEntry>) -> (r: Result<
    Vec<LeaderboardEntry>,
    SteamError,
>)
    ensures
        io_error ==> r == Err::<Vec<LeaderboardEntry>, SteamError>(SteamError::IOFailure),
        !io_error ==> (r matches Ok(v) && v@ == entries@),
{
    if io_error {
        Err(SteamError::IOFailure)
    } else {
        Ok(entries)
    }
}

/// Whether an achievement icon of this size is returned: when big icons are
/// avoided only a 64x64 icon is.
pub fn achievement_icon_size_ok(avoid_big_icons: bool, width: u32, height: u32) -> (r: bool)
    ensures
        r == !(avoid_big_icons && (width != 64 || height != 64)),
{
    !(avoid_big_icons && (width != 64 || height != 64))
}

/// The byte length of an RGBA image of this size, when it fits in 32 bits.
pub fn rgba_len(width: u32, height: u32) -> (r: Option<u32>)
    ensures
        width * height * 4 <= u32::MAX ==> r == Some((width * height * 4) as u32),
        width * height * 4 > u32::MAX ==> r is None,
{
    assert((width as u64) * (height as u64) <= 0xffff_fffe_0000_0001u64) by (nonlinear_arith)
        requires
            width <= 0xffff_ffffu32,
            height <= 0xffff_ffffu32,
    ;
    let wh = (width as u64) * (height as u64);
    if wh <= (u32::MAX as u64) / 4 {
        Some((wh * 4) as u32)
    } else {
        None
    }
}

/// An RGBA image with 8-bit channels, as the `image` crate holds it.
#[verifier::external_body]
pub struct RgbaImage {
    pub image: image::ImageBuffer<image::Rgba<u8>, Vec<u8>>,
}

/// The subpixel bytes that an image holds, row by row, four per pixel.
pub uninterp spec fn rgba_image_bytes(image: RgbaImage) -> Seq<u8>;

/// The width and height that an image was made with.
pub uninterp spec fn rgba_image_dimensions(image: RgbaImage) -> (u32, u32);

/// Whether an RGBA image of this size fits a buffer of `len` bytes: its
/// byte count, four per pixel, is counted without overflow and is at most `len`.
pub open spec fn rgba_image_fits(width: u32, height: u32, len: nat) -> bool {
    &&& 4 * (width as int) <= usize::MAX
    &&& 4 * (width as int) * (height as int) <= usize::MAX
    &&& 4 * (width as int) * (height as int) <= len
}

/// `image::ImageBuffer::<Rgba<u8>, Vec<u8>>::from_vec`: as the crate's source
/// shows, it gives an image over the buffer, of the given size, exactly when
/// the image's byte count (four per pixel, counted with checked `usize`
/// arithmetic) fits the buffer, and nothing otherwise.
#[verifier::external_body]
fn rgba_image_from_vec(width: u32, height: u32, buf: Vec<u8>) -> (r: Option<RgbaImage>)
    ensures
        r is Some <==> rgba_image_fits(width, height, buf@.len()),
        r matches Some(img) ==> rgba_image_bytes(img) == buf@ && rgba_image_dimensions(img) == (
            width,
            height,
        ),
{
    image::ImageBuffer::<image::Rgba<u8>, Vec<u8>>::from_vec(width, height, buf).map(
        |image| RgbaImage { image },
    )
}

/// The image of an achievement icon from its RGBA bytes: none when the
/// bytes are too few for an image of this size.
pub fn achievement_icon_image(pixels: Vec<u8>, width: u32, height: u32) -> (r: Option<RgbaImage>)
    ensures
        r is Some <==> rgba_image_fits(width, height, pixels@.len()),
        r matches Some(img) ==> rgba_image_bytes(img) == pixels@ && rgba_image_dimensions(img) == (
            width,
            height,
        ),
{
    rgba_image_from_vec(width, height, pixels)
}

/// The outcome of a stats request call result: an I/O failure, or the game.
pub fn stats_game_result(io_error: bool, game_id: u64) -> (r: Result<GameId, SteamError>)
    ensures
        io_error ==> r == Err::<GameId, SteamError>(SteamError::IOFailure),
        !io_error ==> (r matches Ok(g) && g@ == game_id),
{
    if io_error {
        Err(SteamError::IOFailure)
    } else {
        Ok(GameId::from_raw(game_id))
    }
}

/// The number of achievements that Steam reports for the app: 0 when the
/// app has none.
pub fn achievement_count(num: u32) -> (r: Result<u32, ()>)
    ensures
        r == Ok::<u32, ()>(num),
{
    Ok(num)
}

/// Called when the latest stats and achievements for a user have been received.
#[derive(Clone, Copy, Debug)]
pub struct UserStatsReceived {
    pub steam_id: SteamId,
    pub game_id: GameId,
    pub result: Result<(), SteamError>,
}

impl UserStatsReceived {
    /// Builds the event from the raw callback fields.
    pub fn from_raw_fields(steam_id: u64, game_id: u64, code: i64) -> (r: Self)
        requires
            code == RESULT_OK || error_of_code(code) is Some,
        ensures
            r.steam_id@ == steam_id,
            r.game_id@ == game_id,
            r.result == result_of_code(code),
    {
        UserStatsReceived {
            steam_id: SteamId::from_raw(steam_id),
            game_id: GameId::from_raw(game_id),
            result: crate::error::to_steam_result(code),
        }
    }
}

/// Called when stats have been stored.
#[derive(Clone, Copy, Debug)]
pub struct UserStatsStored {
    pub game_id: GameId,
    pub result: Result<(), SteamError>,
}

impl UserStatsStored {
    /// Builds the event from the raw callback fields.
    pub fn from_raw_fields(game_id: u64, code: i64) -> (r: Self)
        requires
            code == RESULT_OK || error_of_code(code) is Some,
        ensures
            r.game_id@ == game_id,
            r.result == result_of_code(code),
    {
        UserStatsStored { game_id: GameId::from_raw(game_id), result: crate::error::to_steam_result(code) }
    }
}

/// Result of a request to store the achievements on the server, or an "indicate progress" call.
/// If both `current_progress` and `max_progress` are zero, that means the achievement has been fully unlocked.
#[derive(Clone, Debug)]
pub struct UserAchievementStored {
    pub game_id: GameId,
    pub achievement_name: String,
    pub current_progress: u32,
    pub max_progress: u32,
}

/// Result of fetching an achievement icon.
#[derive(Clone, Debug)]
pub struct UserAchievementIconFetched {
    pub game_id: GameId,
    pub achievement_name: String,
    pub achieved: bool,
    pub icon_handle: i32,
}

/// A `Leaderboard` is its view: two values with the same view are the same value.
pub proof fn lemma_leaderboard_view_injective(a: Leaderboard, b: Leaderboard)
    ensures
        a@ == b@ <==> a == b,
{
}

/// The values of `leaderboard_sort_method_of_code`, as the Steamworks SDK headers fix them.
pub proof fn lemma_leaderboard_sort_method_of_code_table()
    ensures
        leaderboard_sort_method_of_code(1) == Some(LeaderboardSortMethod::Ascending),
        leaderboard_sort_method_of_code(2) == Some(LeaderboardSortMethod::Descending),
{
}

/// The values of `leaderboard_display_type_of_code`, as the Steamworks SDK headers fix them.
pub proof fn lemma_leaderboard_display_type_of_code_table()
    ensures
        leaderboard_display_type_of_code(1) == Some(LeaderboardDisplayType::Numeric),
        leaderboard_display_type_of_code(2) == Some(LeaderboardDisplayType::TimeSeconds),
        leaderboard_display_type_of_code(3) == Some(LeaderboardDisplayType::TimeMilliSeconds),
{
}

/// The values of `LeaderboardDataRequest::spec_code`, as the Steamworks SDK headers fix them.
pub proof fn lemma_leaderboard_data_request_code_table()
    ensures
        LeaderboardDataRequest::Global.spec_code() == 0,
        LeaderboardDataRequest::GlobalAroundUser.spec_code() == 1,
        LeaderboardDataRequest::Friends.spec_code() == 2,
{
}

/// The values of `UploadScoreMethod::spec_code`, as the Steamworks SDK headers fix them.
pub proof fn lemma_upload_score_method_code_table()
    ensures
        UploadScoreMethod::KeepBest.spec_code() == 1,
        UploadScoreMethod::ForceUpdate.spec_code() == 2,
{
}

/// The values of `LeaderboardSortMethod::spec_code`, as the Steamworks SDK headers fix them.
pub proof fn lemma_leaderboard_sort_method_code_table()
    ensures
        LeaderboardSortMethod::Ascending.spec_code() == 1,
        LeaderboardSortMethod::Descending.spec_code() == 2,
{
}

/// The values of `LeaderboardDisplayType::spec_code`, as the Steamworks SDK headers fix them.
pub proof fn lemma_leaderboard_display_type_code_table()
    ensures
        LeaderboardDisplayType::Numeric.spec_code() == 1,
        LeaderboardDisplayType::TimeSeconds.spec_code() == 2,
        LeaderboardDisplayType::TimeMilliSeconds.spec_code() == 3,
{
}

} // verus!
