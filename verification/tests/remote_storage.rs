use steamworks::{
    listed_count, InvalidSeek, PublishedFileVisibility, ReadCursor, ReadFailed, SeekPosition,
};

#[test]
fn seek_from_start() {
    let mut c = ReadCursor::new(10);
    assert_eq!(c.seek(SeekPosition::Start(3)), Ok(3));
    assert_eq!(c.offset, 3);
    assert_eq!(c.seek(SeekPosition::Start(10)), Ok(10));
    assert_eq!(c.seek(SeekPosition::Start(25)), Ok(25));
    assert_eq!(c.read_len(8), 0);
}

#[test]
fn seek_from_end_adds_to_the_size() {
    let mut c = ReadCursor::new(10);
    assert_eq!(c.seek(SeekPosition::End(0)), Ok(10));
    assert_eq!(c.seek(SeekPosition::End(-1)), Ok(9));
    assert_eq!(c.seek(SeekPosition::End(-10)), Ok(0));
    assert_eq!(c.seek(SeekPosition::End(3)), Ok(13));
    assert_eq!(c.seek(SeekPosition::End(-11)), Err(InvalidSeek));
    assert_eq!(c.offset, 13);
}

#[test]
fn seek_from_current() {
    let mut c = ReadCursor::new(10);
    c.seek(SeekPosition::Start(4)).unwrap();
    assert_eq!(c.seek(SeekPosition::Current(3)), Ok(7));
    assert_eq!(c.seek(SeekPosition::Current(-2)), Ok(5));
    assert_eq!(c.seek(SeekPosition::Current(0)), Ok(5));
    assert_eq!(c.seek(SeekPosition::Current(-6)), Err(InvalidSeek));
    assert_eq!(c.offset, 5);
    c.seek(SeekPosition::Start(u64::MAX)).unwrap();
    assert_eq!(c.seek(SeekPosition::Current(1)), Err(InvalidSeek));
    assert_eq!(c.offset, u64::MAX);
}

#[test]
fn read_lengths() {
    let mut c = ReadCursor::new(10);
    assert_eq!(c.read_len(4), 4);
    assert_eq!(c.read_len(0), 0);
    assert_eq!(c.read_len(100), 10);
    assert_eq!(c.finish_read(false, 1, 4), Ok(4));
    assert_eq!(c.offset, 4);
    assert_eq!(c.read_len(100), 6);
    assert_eq!(c.finish_read(true, 1, 4), Err(ReadFailed));
    assert_eq!(c.finish_read(false, 2, 4), Err(ReadFailed));
    assert_eq!(c.offset, 4);
    c.finish_read(false, 1, 6).unwrap();
    assert_eq!(c.read_len(100), 0);
}

#[test]
fn file_counts() {
    assert_eq!(listed_count(-1), 0);
    assert_eq!(listed_count(0), 0);
    assert_eq!(listed_count(12), 12);
}

#[test]
fn visibility_codes() {
    for (code, v) in [
        (0, PublishedFileVisibility::Public),
        (1, PublishedFileVisibility::FriendsOnly),
        (2, PublishedFileVisibility::Private),
        (3, PublishedFileVisibility::Unlisted),
    ] {
        assert_eq!(PublishedFileVisibility::from_code(code), v);
        assert_eq!(v.code(), code);
    }
}
