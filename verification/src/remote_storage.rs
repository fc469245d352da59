use vstd::prelude::*;

use crate::error::RESULT_OK;

verus! {

/// Who can see a published file
#[derive(Clone, Copy, Debug, PartialEq, Eq, Structural)]
pub enum PublishedFileVisibility {
    Public,
    FriendsOnly,
    Private,
    Unlisted,
}

impl PublishedFileVisibility {
    /// The `ERemoteStoragePublishedFileVisibility` code of the value.
    pub open spec fn spec_code(self) -> i32 {
        match self {
            PublishedFileVisibility::Public => 0,
            PublishedFileVisibility::FriendsOnly => 1,
            PublishedFileVisibility::Private => 2,
            PublishedFileVisibility::Unlisted => 3,
        }
    }

    /// The `ERemoteStoragePublishedFileVisibility` code of the value.
    pub fn code(&self) -> (r: i32)
        ensures
            r == self.spec_code(),
    {
        match self {
            PublishedFileVisibility::Public => 0,
            PublishedFileVisibility::FriendsOnly => 1,
            PublishedFileVisibility::Private => 2,
            PublishedFileVisibility::Unlisted => 3,
        }
    }

    /// The value of a code, if the code stands for one; see `published_file_visibility_of_code`.
    pub fn try_from_code(code: i32) -> (r: Option<PublishedFileVisibility>)
        ensures
            r == published_file_visibility_of_code(code),
    {
        match code {
            0 => Some(PublishedFileVisibility::Public),
            1 => Some(PublishedFileVisibility::FriendsOnly),
            2 => Some(PublishedFileVisibility::Private),
            3 => Some(PublishedFileVisibility::Unlisted),
            _ => None,
        }
    }

    /// Converts a `ERemoteStoragePublishedFileVisibility` code; only the four
    /// codes of `published_file_visibility_of_code` stand for a value.
    pub fn from_code(code: i32) -> (r: PublishedFileVisibility)
        requires
            published_file_visibility_of_code(code) is Some,
        ensures
            published_file_visibility_of_code(code) == Some(r),
    {
        match code {
            0 => PublishedFileVisibility::Public,
            1 => PublishedFileVisibility::FriendsOnly,
            2 => PublishedFileVisibility::Private,
            _ => PublishedFileVisibility::Unlisted,
        }
    }
}

/// The value that a `ERemoteStoragePublishedFileVisibility` code stands for, if any.
pub open spec fn published_file_visibility_of_code(code: i32) -> Option<PublishedFileVisibility> {
    match code {
        0 => Some(PublishedFileVisibility::Public),
        1 => Some(PublishedFileVisibility::FriendsOnly),
        2 => Some(PublishedFileVisibility::Private),
        3 => Some(PublishedFileVisibility::Unlisted),
        _ => None,
    }
}

/// Codes of `PublishedFileVisibility` are distinct: each value's code converts
/// back to that value, and a code that converts to a value is that value's code.
pub proof fn lemma_published_file_visibility_code_roundtrip(v: PublishedFileVisibility, code: i32)
    ensures
        published_file_visibility_of_code(v.spec_code()) == Some(v),
        published_file_visibility_of_code(code) == Some(v) ==> v.spec_code() == code,
{
}

/// Name and size information about a file in the steam cloud
#[derive(Clone, Debug)]
pub struct SteamFileInfo {
    /// The file name
    pub name: String,
    /// The size of the file in bytes
    pub size: u64,
}

/// The number of files to list for the count that Steam reports; `-1`
/// means that there are none.
pub fn listed_count(count: i32) -> (r: u32)
    requires
        count >= -1,
    ensures
        count == -1 ==> r == 0,
        count >= 0 ==> r == count,
{
    if count == -1 {
        0
    } else {
        count as u32
    }
}

/// Where a seek on a cloud file reader moves to, as `std::io::SeekFrom` says.
#[derive(Clone, Copy, Debug, PartialEq, Eq, Structural)]
pub enum SeekPosition {
    /// This many bytes from the start of the file.
    Start(u64),
    /// The size of the file plus this many bytes.
    End(i64),
    /// The current offset plus this many bytes.
    Current(i64),
}

/// A seek was refused: its target is before byte 0, or beyond the offsets
/// that 64 bits hold.
#[derive(Clone, Copy, Debug, PartialEq, Eq, Structural)]
pub struct InvalidSeek;

/// A read of a cloud file failed.
#[derive(Clone, Copy, Debug, PartialEq, Eq, Structural)]
pub struct ReadFailed;

/// The position that a seek aims at.
pub open spec fn seek_target(offset: u64, size: u64, pos: SeekPosition) -> int {
    match pos {
        SeekPosition::Start(n) => n as int,
        SeekPosition::End(k) => size + k,
        SeekPosition::Current(k) => offset + k,
    }
}

/// Whether the reader refuses the seek: its target is negative or does not
/// fit an offset.
pub open spec fn seek_refused(offset: u64, size: u64, pos: SeekPosition) -> bool {
    let t = seek_target(offset, size, pos);
    t < 0 || t > u64::MAX
}

/// The bytes left to read from `offset` in a file of `size` bytes, at most
/// `buf_len`; none at or past the end of the file.
pub open spec fn read_len_of(offset: u64, size: u64, buf_len: u64) -> int {
    if offset >= size {
        0
    } else if buf_len < size - offset {
        buf_len as int
    } else {
        size - offset
    }
}

/// The position of a reader in a cloud file of a known size.
#[derive(Clone, Copy, Debug, PartialEq, Eq, Structural)]
pub struct ReadCursor {
    /// The offset of the next byte to read.
    pub offset: u64,
    /// The size of the file in bytes.
    pub size: u64,
}

impl ReadCursor {
    /// A cursor at the start of a file of `size` bytes.
    pub fn new(size: u64) -> (r: ReadCursor)
        ensures
            r.offset == 0,
            r.size == size,
    {
        ReadCursor { offset: 0, size }
    }

    /// Moves the cursor as `std::io::Seek` does: to `n` for `Start(n)`, to
    /// the size plus `k` for `End(k)`, to the offset plus `k` for
    /// `Current(k)`. A target before byte 0, or beyond what an offset holds,
    /// is refused and leaves the cursor where it was; otherwise the cursor
    /// moves to the target, which is returned. Seeking past the end is allowed.
    pub fn seek(&mut self, pos: SeekPosition) -> (r: Result<u64, InvalidSeek>)
        ensures
            seek_refused(old(self).offset, old(self).size, pos) ==> r == Err::<u64, InvalidSeek>(
                InvalidSeek,
            ) && *final(self) == *old(self),
            !seek_refused(old(self).offset, old(self).size, pos) ==> r == Ok::<u64, InvalidSeek>(
                final(self).offset,
            ) && final(self).offset == seek_target(old(self).offset, old(self).size, pos)
                && final(self).size == old(self).size,
    {
        let base: i128 = match pos {
            SeekPosition::Start(_) => 0,
            SeekPosition::End(_) => self.size as i128,
            SeekPosition::Current(_) => self.offset as i128,
        };
        let delta: i128 = match pos {
            SeekPosition::Start(n) => n as i128,
            SeekPosition::End(k) => k as i128,
            SeekPosition::Current(k) => k as i128,
        };
        let t: i128 = base + delta;
        if t < 0 || t > 0xffff_ffff_ffff_ffffi128 {
            return Err(InvalidSeek);
        }
        self.offset = t as u64;
        Ok(t as u64)
    }

    /// How many bytes the next read asks for, given a buffer of `buf_len`
    /// bytes: none when the buffer is empty or the cursor is at or past the
    /// end of the file.
    pub fn read_len(&self, buf_len: u64) -> (r: u64)
        ensures
            r == read_len_of(self.offset, self.size, buf_len),
    {
        if buf_len == 0 || self.offset >= self.size {
            0
        } else {
            let left = self.size - self.offset;
            if buf_len < left {
                buf_len
            } else {
                left
            }
        }
    }

    /// Takes the outcome of a read request: whether the call failed, the
    /// result code it completed with, and the bytes it read. A failed call or a
    /// result other than OK is an error and leaves the cursor; otherwise the
    /// cursor moves past the bytes read, whose count is returned.
    pub fn finish_read(&mut self, failed: bool, result: i64, bytes_read: u32) -> (r: Result<
        u64,
        ReadFailed,
    >)
        requires
            !failed && result == RESULT_OK ==> old(self).offset + bytes_read <= u64::MAX,
        ensures
            (failed || result != RESULT_OK) ==> r == Err::<u64, ReadFailed>(ReadFailed)
                && *final(self) == *old(self),
            !(failed || result != RESULT_OK) ==> r == Ok::<u64, ReadFailed>(bytes_read as u64)
                && final(self).offset == old(self).offset + bytes_read && final(self).size == old(
                self,
            ).size,
    {
        if failed || result != RESULT_OK {
            return Err(ReadFailed);
        }
        self.offset = self.offset + bytes_read as u64;
        Ok(bytes_read as u64)
    }
}

/// Seeking works as `std::io::Seek` documents: `Start(n)` lands on `n`,
/// `End(0)` on the size of the file and `Current(0)` where the cursor is;
/// `End(k)` and `Current(k)` land `k` bytes from there unless that is before
/// byte 0, which is refused.
pub proof fn lemma_seek_positions(offset: u64, size: u64, n: u64, k: i64)
    ensures
        !seek_refused(offset, size, SeekPosition::Start(n)) && seek_target(
            offset,
            size,
            SeekPosition::Start(n),
        ) == n,
        !seek_refused(offset, size, SeekPosition::End(0)) && seek_target(
            offset,
            size,
            SeekPosition::End(0),
        ) == size,
        !seek_refused(offset, size, SeekPosition::Current(0)) && seek_target(
            offset,
            size,
            SeekPosition::Current(0),
        ) == offset,
        k <= 0 ==> (seek_refused(offset, size, SeekPosition::End(k)) <==> size + k < 0),
        k <= 0 ==> (seek_refused(offset, size, SeekPosition::Current(k)) <==> offset + k < 0),
{
}

/// The values of `published_file_visibility_of_code`, as the Steamworks SDK headers fix them.
pub proof fn lemma_published_file_visibility_of_code_table()
    ensures
        published_file_visibility_of_code(0) == Some(PublishedFileVisibility::Public),
        published_file_visibility_of_code(1) == Some(PublishedFileVisibility::FriendsOnly),
        published_file_visibility_of_code(2) == Some(PublishedFileVisibility::Private),
        published_file_visibility_of_code(3) == Some(PublishedFileVisibility::Unlisted),
{
}

/// The values of `PublishedFileVisibility::spec_code`, as the Steamworks SDK headers fix them.
pub proof fn lemma_published_file_visibility_code_table()
    ensures
        PublishedFileVisibility::Public.spec_code() == 0,
        PublishedFileVisibility::FriendsOnly.spec_code() == 1,
        PublishedFileVisibility::Private.spec_code() == 2,
        PublishedFileVisibility::Unlisted.spec_code() == 3,
{
}

} // verus!
