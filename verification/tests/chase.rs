use ember::kwin::{first_read, judge_read, next_read, Hop, KWinPid, ReadError, ReadRequest};

#[test]
fn status_of_a_read() {
    assert_eq!(judge_read(8, 8), Ok(()));
    assert_eq!(judge_read(16, 16), Ok(()));
    assert_eq!(judge_read(-1, 8), Err(ReadError::Failed));
    assert_eq!(judge_read(4, 8), Err(ReadError::Length { got: 4 }));
    assert_eq!(judge_read(0, 8), Err(ReadError::Length { got: 0 }));
    assert_eq!(judge_read(-2, 8), Err(ReadError::Length { got: -2 }));
    assert_eq!(judge_read(0, 0), Ok(()));
}

#[test]
fn way_to_the_mouse() {
    let base = 0x7f3a1c400000u64;
    assert_eq!(first_read(base, 0x9f3a10), Ok(ReadRequest { address: 0x7f3a1cdf3a10, len: 8 }));
    assert_eq!(
        next_read(Hop::Cursors, 8, 0x5000),
        Ok(Some(ReadRequest { address: 0x5010, len: 8 }))
    );
    assert_eq!(
        next_read(Hop::Cursor, 8, 0x6000),
        Ok(Some(ReadRequest { address: 0x6020, len: 16 }))
    );
    assert_eq!(next_read(Hop::Position, 16, 0), Ok(None));
    assert_eq!(next_read(Hop::Position, 16, 77), Ok(None));
}

#[test]
fn way_to_the_mouse_fails() {
    assert_eq!(first_read(u64::MAX, 1), Err(ReadError::Overflow));
    assert_eq!(first_read(u64::MAX, 0), Ok(ReadRequest { address: u64::MAX, len: 8 }));
    assert_eq!(next_read(Hop::Cursors, -1, 0x5000), Err(ReadError::Failed));
    assert_eq!(next_read(Hop::Cursors, 8, 0), Err(ReadError::Null));
    assert_eq!(next_read(Hop::Cursor, 16, 0x5000), Err(ReadError::Length { got: 16 }));
    assert_eq!(next_read(Hop::Cursor, 8, u64::MAX - 31), Err(ReadError::Overflow));
    assert_eq!(
        next_read(Hop::Cursor, 8, u64::MAX - 32),
        Ok(Some(ReadRequest { address: u64::MAX, len: 16 }))
    );
    assert_eq!(next_read(Hop::Cursors, 8, u64::MAX - 15), Err(ReadError::Overflow));
    assert_eq!(next_read(Hop::Position, 8, 1), Err(ReadError::Length { got: 8 }));
    assert_eq!(next_read(Hop::Position, -1, 1), Err(ReadError::Failed));
    // the status is judged before the pointer
    assert_eq!(next_read(Hop::Cursors, -1, 0), Err(ReadError::Failed));
}

#[test]
fn pid_is_kept() {
    assert_eq!(KWinPid::from(1410), KWinPid(1410));
    assert_eq!(KWinPid::from(-1).0, -1);
}
