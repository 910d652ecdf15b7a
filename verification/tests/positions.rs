//! Seeks and the loops that move whole buffers.

use vfcache::io_error::{Error, ErrorKind};
use vfcache::slot_pool::{init, OpenFiles, Victim};
use vfcache::transfer::Transfer;
use vfcache::virtual_file::{Resolution, Seek, SeekFrom, StorageIoOperation, VirtualFile};

fn opened(pool: &mut OpenFiles<u8>, path: &str) -> VirtualFile {
    let (pending, victim) = VirtualFile::open(pool, path);
    match victim {
        Victim::Claimed { handle, .. } => pending.finish(pool, handle, 0),
        Victim::Contended { .. } => panic!("a slot is unlocked"),
    }
}

fn at(sought: Result<Seek<u8>, Error>) -> Result<u64, Error> {
    match sought {
        Ok(Seek::At(pos)) => Ok(pos),
        Ok(Seek::FromEnd { .. }) => panic!("the seek is not from the end"),
        Err(e) => Err(e),
    }
}

fn interrupted() -> Error {
    Error::Os { kind: ErrorKind::Interrupted, code: Some(4) }
}

#[test]
fn seek_from_start_and_current() {
    let mut pool: OpenFiles<u8> = init(1);
    let mut file = opened(&mut pool, "f");
    assert_eq!(file.pos(), 0);
    assert_eq!(at(file.seek(&mut pool, SeekFrom::Start(1))), Ok(1));
    assert_eq!(at(file.seek(&mut pool, SeekFrom::Current(2))), Ok(3));
    assert_eq!(at(file.seek(&mut pool, SeekFrom::Current(-3))), Ok(0));
    assert_eq!(at(file.seek(&mut pool, SeekFrom::Current(0))), Ok(0));
    assert_eq!(at(file.seek(&mut pool, SeekFrom::Start(u64::MAX))), Ok(u64::MAX));
    assert_eq!(file.pos(), u64::MAX);
}

#[test]
fn seek_before_the_start_is_refused() {
    let mut pool: OpenFiles<u8> = init(1);
    let mut file = opened(&mut pool, "f");
    assert_eq!(at(file.seek(&mut pool, SeekFrom::Start(1))), Ok(1));
    let refused = at(file.seek(&mut pool, SeekFrom::Current(-7)));
    assert_eq!(refused, Err(Error::NegativeOffset));
    assert_eq!(refused.unwrap_err().kind(), ErrorKind::InvalidInput);
    assert_eq!(file.pos(), 1);
    assert_eq!(at(file.seek(&mut pool, SeekFrom::Current(-2))), Err(Error::NegativeOffset));
    assert_eq!(at(file.seek(&mut pool, SeekFrom::Current(i64::MIN))), Err(Error::NegativeOffset));
    assert_eq!(file.pos(), 1);
    assert_eq!(at(file.seek(&mut pool, SeekFrom::Current(-1))), Ok(0));
}

#[test]
fn seek_beyond_the_range_is_refused() {
    let mut pool: OpenFiles<u8> = init(1);
    let mut file = opened(&mut pool, "f");
    assert_eq!(at(file.seek(&mut pool, SeekFrom::Start(u64::MAX - 1))), Ok(u64::MAX - 1));
    let refused = at(file.seek(&mut pool, SeekFrom::Current(2)));
    assert_eq!(refused, Err(Error::OffsetOverflow));
    assert_eq!(refused.unwrap_err().kind(), ErrorKind::InvalidInput);
    assert_eq!(file.pos(), u64::MAX - 1);
    assert_eq!(at(file.seek(&mut pool, SeekFrom::Current(1))), Ok(u64::MAX));
    assert_eq!(at(file.seek(&mut pool, SeekFrom::Current(i64::MAX))), Err(Error::OffsetOverflow));
    assert_eq!(file.pos(), u64::MAX);
}

#[test]
fn seek_from_the_end_asks_for_the_descriptor() {
    let mut pool: OpenFiles<u8> = init(1);
    let mut file = opened(&mut pool, "f");
    assert_eq!(at(file.seek(&mut pool, SeekFrom::Start(1))), Ok(1));
    match file.seek(&mut pool, SeekFrom::End(-2)) {
        Ok(Seek::FromEnd { offset, access }) => {
            assert_eq!(offset, -2);
            assert_eq!(access.op, StorageIoOperation::Seek);
            match access.resolution {
                Resolution::Ready { index } => pool.release(index),
                _ => panic!("the descriptor is in its slot"),
            }
        }
        _ => panic!("the seek is from the end"),
    }
    assert_eq!(file.pos(), 1);
    assert_eq!(file.seek_from_end(-2, 6), Ok(4));
    assert_eq!(file.pos(), 4);
    assert_eq!(file.seek_from_end(-7, 6), Err(Error::NegativeOffset));
    assert_eq!(file.pos(), 4);
    assert_eq!(file.seek_from_end(1, u64::MAX), Err(Error::OffsetOverflow));
    assert_eq!(file.pos(), 4);
    assert_eq!(file.seek_from_end(0, 0), Ok(0));
    assert_eq!(file.seek_from_end(3, 6), Ok(9));
    assert_eq!(file.pos(), 9);
}

#[test]
fn transfer_advances_index_and_offset_together() {
    let mut transfer = Transfer::new(10, 100);
    assert!(!transfer.is_complete());
    assert_eq!(transfer.remaining(), 10);
    assert_eq!(VirtualFile::read_exact_at(&mut transfer, Ok(4)), Ok(()));
    assert_eq!(transfer, Transfer { len: 10, done: 4, offset: 104 });
    assert_eq!(VirtualFile::read_exact_at(&mut transfer, Err(interrupted())), Ok(()));
    assert_eq!(transfer, Transfer { len: 10, done: 4, offset: 104 });
    assert_eq!(VirtualFile::read_exact_at(&mut transfer, Ok(6)), Ok(()));
    assert_eq!(transfer, Transfer { len: 10, done: 10, offset: 110 });
    assert!(transfer.is_complete());
    assert_eq!(transfer.remaining(), 0);
}

#[test]
fn an_empty_buffer_needs_no_call() {
    assert!(Transfer::new(0, 0).is_complete());
    assert!(Transfer::new(0, u64::MAX).is_complete());
}

#[test]
fn a_read_at_the_end_of_the_file_fails_the_loop() {
    let mut transfer = Transfer::new(10, 0);
    assert_eq!(VirtualFile::read_exact_at(&mut transfer, Ok(3)), Ok(()));
    let failed = VirtualFile::read_exact_at(&mut transfer, Ok(0));
    assert_eq!(failed, Err(Error::UnexpectedEof));
    assert_eq!(failed.unwrap_err().kind(), ErrorKind::UnexpectedEof);
    assert_eq!(transfer, Transfer { len: 10, done: 3, offset: 3 });
}

#[test]
fn a_write_of_nothing_fails_the_loop() {
    let mut transfer = Transfer::new(10, 7);
    let failed = VirtualFile::write_all_at(&mut transfer, Ok(0));
    assert_eq!(failed, Err(Error::WriteZero));
    assert_eq!(failed.unwrap_err().kind(), ErrorKind::WriteZero);
    assert_eq!(VirtualFile::write_all_at(&mut transfer, Ok(10)), Ok(()));
    assert!(transfer.is_complete());
    assert_eq!(transfer.offset, 17);
}

#[test]
fn any_other_error_ends_the_loop_unchanged() {
    let full = Error::Os { kind: ErrorKind::Other, code: Some(28) };
    let mut transfer = Transfer::new(10, 7);
    assert_eq!(VirtualFile::write_all_at(&mut transfer, Ok(2)), Ok(()));
    assert_eq!(VirtualFile::write_all_at(&mut transfer, Err(full)), Err(full));
    assert_eq!(transfer, Transfer { len: 10, done: 2, offset: 9 });
    assert_eq!(VirtualFile::read_exact_at(&mut transfer, Err(full)), Err(full));
    assert_eq!(transfer, Transfer { len: 10, done: 2, offset: 9 });
}

#[test]
fn a_sequential_write_moves_the_position() {
    let mut pool: OpenFiles<u8> = init(1);
    let mut file = opened(&mut pool, "f");
    assert_eq!(at(file.seek(&mut pool, SeekFrom::Start(5))), Ok(5));
    let mut transfer = Transfer::new(6, file.pos());
    assert_eq!(file.write_all(&mut transfer, Ok(2)), Ok(()));
    assert_eq!(file.pos(), 7);
    assert_eq!(file.write_all(&mut transfer, Err(interrupted())), Ok(()));
    assert_eq!(file.pos(), 7);
    assert_eq!(file.write_all(&mut transfer, Ok(4)), Ok(()));
    assert_eq!(file.pos(), 11);
    assert!(transfer.is_complete());
    let mut stalled = Transfer::new(1, file.pos());
    assert_eq!(file.write_all(&mut stalled, Ok(0)), Err(Error::WriteZero));
    assert_eq!(file.pos(), 11);
    assert_eq!(file.write(Ok(3)), Ok(3));
    assert_eq!(file.pos(), 14);
    assert_eq!(file.write(Err(interrupted())), Err(interrupted()));
    assert_eq!(file.pos(), 14);
}

#[test]
fn reading_to_the_end_moves_the_position() {
    let mut pool: OpenFiles<u8> = init(1);
    let mut file = opened(&mut pool, "f");
    assert_eq!(file.read_to_end(Ok(128)), Ok(true));
    assert_eq!(file.pos(), 128);
    assert_eq!(file.read_to_end(Err(interrupted())), Ok(true));
    assert_eq!(file.pos(), 128);
    assert_eq!(file.read_to_end(Ok(5)), Ok(true));
    assert_eq!(file.pos(), 133);
    assert_eq!(file.read_to_end(Ok(0)), Ok(false));
    assert_eq!(file.pos(), 133);
    let bad = Error::Os { kind: ErrorKind::Other, code: Some(9) };
    assert_eq!(file.read_to_end(Err(bad)), Err(bad));
    assert_eq!(file.pos(), 133);
}
