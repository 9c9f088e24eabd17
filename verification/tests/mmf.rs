//! Tests for the mapping object: creation, opening, the read/write surface,
//! the close latch, and the name handling.

use winmmf::err::Error;
use winmmf::mmf::{MemoryMappedFile, Namespace};

const TESTSTRING: &[u8; 56] = b"This is a testing string to ensure WinMMF Just Works:TM:";

#[test]
pub fn test_write() {
    let (file1, mut region) =
        MemoryMappedFile::new(64, "test_write", Namespace::LOCAL).expect("creation failed");
    file1.write(&mut region, TESTSTRING.as_slice()).expect("Failed to write");
    drop(file1);
}

#[test]
pub fn test_read_self() {
    let (file1, mut region) =
        MemoryMappedFile::new(64, "test_read_self", Namespace::LOCAL).expect("creation failed");
    file1.write(&mut region, TESTSTRING.as_slice()).expect("Failed to write");
    let readback = file1.read(&mut region, 56).expect("Failed to read on 1");
    drop(file1);
    assert_eq!(&readback, TESTSTRING);
}

#[test]
pub fn test_read_other() {
    let (file1, mut region) =
        MemoryMappedFile::new(64, "test_read_other", Namespace::LOCAL).expect("creation failed");
    file1.write(&mut region, TESTSTRING.as_slice()).expect("Failed to write");
    let file2 = MemoryMappedFile::open(64, "test_read_other", Namespace::LOCAL, false, &region)
        .expect("2nd open failed");
    let readback = file2.read(&mut region, 56).expect("Failed to read");

    drop(file1);
    drop(file2);
    assert_eq!(&readback, TESTSTRING);
}

#[test]
pub fn test_lock_reopen() {
    let (file1, mut region) =
        MemoryMappedFile::new(64, "test_lock_reopen", Namespace::LOCAL).expect("creation failed");
    let file2 = MemoryMappedFile::open(64, "test_lock_reopen", Namespace::LOCAL, false, &region)
        .expect("2nd open failed");

    drop(file1);
    let file3 = MemoryMappedFile::open(64, "test_lock_reopen", Namespace::LOCAL, false, &region)
        .expect("2nd open failed");
    file3.write(&mut region, TESTSTRING.as_slice()).expect("Failed to write");
    let readback = file2.read(&mut region, 56).expect("Failed to read on 2");

    drop(file2);
    drop(file3);
    assert_eq!(&readback, TESTSTRING);
}

#[test]
pub fn test_no_use_after_close() {
    let (mut file1, mut region) = MemoryMappedFile::new(64, "test_no_use_after_close", Namespace::LOCAL)
        .expect("creation failed");
    let file2 =
        MemoryMappedFile::open(64, "test_no_use_after_close", Namespace::LOCAL, false, &region)
            .expect("2nd open failed");

    file1.close().expect("Could not close MMF?");
    drop(file2);
    assert!(file1.read(&mut region, 64).is_err());
    drop(file1);
}

#[test]
pub fn test_no_exist_after_close() {
    let (file1, mut region) =
        MemoryMappedFile::new(64, "test_no_exist_after_close", Namespace::LOCAL)
            .expect("creation failed");
    file1.write(&mut region, TESTSTRING.as_slice()).expect("Failed to write");
    drop(file1);
    drop(region);

    let (file2, mut region) =
        MemoryMappedFile::new(64, "test_no_exist_after_close", Namespace::LOCAL)
            .expect("2nd open failed");
    let file3 =
        MemoryMappedFile::open(64, "test_no_exist_after_close", Namespace::LOCAL, false, &region)
            .expect("2nd open failed");
    let readback = file3.read(&mut region, 56).expect("Failed to read");
    drop(file2);
    drop(file3);
    assert_ne!(&readback, TESTSTRING);
}

#[test]
fn scenario_self_round_trip() {
    let (creator, mut region) =
        MemoryMappedFile::new(64, "t1", Namespace::LOCAL).expect("creation failed");
    creator.write(&mut region, TESTSTRING.as_slice()).expect("write failed");
    let readback = creator.read(&mut region, 56).expect("read failed");
    assert_eq!(&readback, TESTSTRING);
}

#[test]
fn scenario_cross_handle_read() {
    let (creator, mut region) =
        MemoryMappedFile::new(64, "t2", Namespace::LOCAL).expect("creation failed");
    creator.write(&mut region, TESTSTRING.as_slice()).expect("write failed");
    let opener =
        MemoryMappedFile::open(64, "t2", Namespace::LOCAL, false, &region).expect("open failed");
    let readback = opener.read(&mut region, 56).expect("read failed");
    assert_eq!(&readback, TESTSTRING);
}

#[test]
fn scenario_creator_drops_opener_lives() {
    let (creator, mut region) =
        MemoryMappedFile::new(64, "t3", Namespace::LOCAL).expect("creation failed");
    let survivor =
        MemoryMappedFile::open(64, "t3", Namespace::LOCAL, false, &region).expect("open failed");
    drop(creator);
    let writer =
        MemoryMappedFile::open(64, "t3", Namespace::LOCAL, false, &region).expect("open failed");
    writer.write(&mut region, TESTSTRING.as_slice()).expect("write failed");
    let readback = survivor.read(&mut region, 56).expect("read failed");
    assert_eq!(&readback, TESTSTRING);
}

#[test]
fn scenario_use_after_close() {
    let (mut creator, mut region) =
        MemoryMappedFile::new(64, "t4", Namespace::LOCAL).expect("creation failed");
    let opener =
        MemoryMappedFile::open(64, "t4", Namespace::LOCAL, false, &region).expect("open failed");
    creator.close().expect("close failed");
    let result = creator.read(&mut region, 56);
    assert_eq!(result.unwrap_err(), Error::MMF_NotFound);
    drop(opener);
}

#[test]
fn scenario_region_destroyed_with_last_handle() {
    let (creator, mut region) =
        MemoryMappedFile::new(64, "t5", Namespace::LOCAL).expect("creation failed");
    creator.write(&mut region, TESTSTRING.as_slice()).expect("write failed");
    drop(creator);
    drop(region);

    let (creator2, mut region) =
        MemoryMappedFile::new(64, "t5", Namespace::LOCAL).expect("creation failed");
    let opener =
        MemoryMappedFile::open(64, "t5", Namespace::LOCAL, false, &region).expect("open failed");
    let readback = opener.read(&mut region, 56).expect("read failed");
    assert_ne!(&readback, TESTSTRING);
    assert_eq!(readback, vec![0u8; 56]);
    drop(creator2);
}

#[test]
fn oversized_write_errors_and_leaves_payload() {
    let (creator, mut region) =
        MemoryMappedFile::new(64, "bounds", Namespace::LOCAL).expect("creation failed");
    creator.write(&mut region, TESTSTRING.as_slice()).expect("write failed");
    let too_big = vec![7u8; 65];
    let result = creator.write(&mut region, too_big.as_slice());
    assert_eq!(result.unwrap_err(), Error::NotEnoughMemory);
    let readback = creator.read(&mut region, 56).expect("read failed");
    assert_eq!(&readback, TESTSTRING);
}

#[test]
fn readonly_handle_refuses_writes() {
    let (creator, mut region) =
        MemoryMappedFile::new(64, "ro", Namespace::LOCAL).expect("creation failed");
    let reader =
        MemoryMappedFile::open(64, "ro", Namespace::LOCAL, true, &region).expect("open failed");
    let result = reader.write(&mut region, TESTSTRING.as_slice());
    assert_eq!(result.unwrap_err(), Error::MMF_NotFound);
    assert!(!reader.is_writable(&region));
    assert!(reader.is_readable(&region));
    assert!(creator.is_writable(&region));
    let readback = reader.read(&mut region, 0).expect("read failed");
    assert_eq!(readback, vec![0u8; 64]);
}

#[test]
fn open_read_and_open_write_set_intent() {
    let (_creator, mut region) =
        MemoryMappedFile::new(64, "intent", Namespace::LOCAL).expect("creation failed");
    let ro = MemoryMappedFile::open_read(64, "intent", Namespace::LOCAL, &region)
        .expect("open_read failed");
    let rw = MemoryMappedFile::open_write(64, "intent", Namespace::LOCAL, &region)
        .expect("open_write failed");
    assert!(!ro.is_writable(&region));
    assert!(rw.is_writable(&region));
    rw.write(&mut region, b"abc".as_slice()).expect("write failed");
    let readback = ro.read(&mut region, 3).expect("read failed");
    assert_eq!(readback, b"abc".to_vec());
}

#[test]
fn read_of_zero_returns_whole_payload() {
    let (creator, mut region) =
        MemoryMappedFile::new(64, "whole", Namespace::LOCAL).expect("creation failed");
    creator.write(&mut region, TESTSTRING.as_slice()).expect("write failed");
    let readback = creator.read(&mut region, 0).expect("read failed");
    assert_eq!(readback.len(), 64);
    assert_eq!(&readback[..56], TESTSTRING.as_slice());
    assert_eq!(&readback[56..], &[0u8; 8]);

    let mut buffer: Vec<u8> = Vec::new();
    creator.read_to_buf(&mut region, &mut buffer, 0).expect("read_to_buf failed");
    assert_eq!(buffer.len(), 64);

    let oversized = creator.read(&mut region, 100).expect("read failed");
    assert_eq!(oversized.len(), 64);
}

#[test]
fn read_to_buf_sets_exact_length() {
    let (creator, mut region) =
        MemoryMappedFile::new(64, "exact", Namespace::LOCAL).expect("creation failed");
    creator.write(&mut region, TESTSTRING.as_slice()).expect("write failed");

    let mut shorter: Vec<u8> = Vec::new();
    creator.read_to_buf(&mut region, &mut shorter, 5).expect("read_to_buf failed");
    assert_eq!(shorter, TESTSTRING[..5].to_vec());

    let mut longer = vec![9u8; 100];
    creator.read_to_buf(&mut region, &mut longer, 5).expect("read_to_buf failed");
    assert_eq!(longer, TESTSTRING[..5].to_vec());
}

#[test]
fn open_with_wrong_name_is_not_found() {
    let (_creator, region) =
        MemoryMappedFile::new(64, "right", Namespace::LOCAL).expect("creation failed");
    let result = MemoryMappedFile::open(64, "wrong", Namespace::LOCAL, false, &region);
    assert_eq!(result.unwrap_err(), Error::MMF_NotFound);
    let other_ns = MemoryMappedFile::open(64, "right", Namespace::GLOBAL, false, &region);
    assert_eq!(other_ns.unwrap_err(), Error::MMF_NotFound);
}

#[test]
fn open_with_oversized_view_is_denied() {
    let (_creator, region) =
        MemoryMappedFile::new(64, "short", Namespace::LOCAL).expect("creation failed");
    let result = MemoryMappedFile::open(128, "short", Namespace::LOCAL, false, &region);
    assert_eq!(result.unwrap_err(), Error::OS_Err(5));
    let smaller = MemoryMappedFile::open(32, "short", Namespace::LOCAL, false, &region);
    assert!(smaller.is_ok());
}

#[test]
fn close_is_idempotent() {
    let (mut creator, mut region) =
        MemoryMappedFile::new(64, "latch", Namespace::LOCAL).expect("creation failed");
    creator.close().expect("first close failed");
    creator.close().expect("second close failed");
    assert_eq!(creator.read(&mut region, 1).unwrap_err(), Error::MMF_NotFound);
    assert_eq!(
        creator.write(&mut region, b"x".as_slice()).unwrap_err(),
        Error::MMF_NotFound
    );
    assert!(!creator.is_readable(&region));
}

#[test]
fn names_carry_namespace_and_filename() {
    let (local, _r1) = MemoryMappedFile::new(8, "t1", Namespace::LOCAL).expect("creation failed");
    assert_eq!(local.fullname(), "Local\\t1");
    assert_eq!(local.namespace(), "Local");
    assert_eq!(local.filename(), "t1");

    let (global, _r2) = MemoryMappedFile::new(8, "g", Namespace::GLOBAL).expect("creation failed");
    assert_eq!(global.fullname(), "Global\\g");
    assert_eq!(global.namespace(), "Global");
    assert_eq!(global.filename(), "g");

    let (custom, _r3) = MemoryMappedFile::new(8, "plain", Namespace::CUSTOM).expect("creation failed");
    assert_eq!(custom.fullname(), "plain");
    assert_eq!(custom.namespace(), "");
    assert_eq!(custom.filename(), "plain");

    let (scoped, _r4) =
        MemoryMappedFile::new(8, "Session\\thing", Namespace::CUSTOM).expect("creation failed");
    assert_eq!(scoped.fullname(), "Session\\thing");
    assert_eq!(scoped.namespace(), "Session");
    assert_eq!(scoped.filename(), "thing");

    assert_eq!(local.size(), 8);
}

#[test]
fn namespace_try_from_accepts_three_tags() {
    assert_eq!(Namespace::try_from(0), Ok(Namespace::LOCAL));
    assert_eq!(Namespace::try_from(1), Ok(Namespace::GLOBAL));
    assert_eq!(Namespace::try_from(2), Ok(Namespace::CUSTOM));
    assert_eq!(Namespace::try_from(3), Err(()));
    assert_eq!(Namespace::try_from(255), Err(()));
}

#[test]
fn spin_variants_round_trip() {
    let (creator, mut region) =
        MemoryMappedFile::new(64, "spin", Namespace::LOCAL).expect("creation failed");
    creator
        .write_spin(&mut region, TESTSTRING.as_slice(), 16)
        .expect("write_spin failed");
    let readback = creator.read_spin(&mut region, 56, 16).expect("read_spin failed");
    assert_eq!(&readback, TESTSTRING);

    let mut buffer: Vec<u8> = Vec::new();
    creator
        .read_to_buf_spin(&mut region, &mut buffer, 0, 16)
        .expect("read_to_buf_spin failed");
    assert_eq!(buffer.len(), 64);
}

#[test]
fn spin_variants_exhaust_budget_on_held_lock() {
    let (creator, mut region) =
        MemoryMappedFile::new(64, "spin_budget", Namespace::LOCAL).expect("creation failed");
    region.lock.lock_write().expect("write lock failed");
    let read_result = creator.read_spin(&mut region, 56, 8);
    assert_eq!(read_result.unwrap_err(), Error::MaxTriesReached);
    let write_result = creator.write_spin(&mut region, TESTSTRING.as_slice(), 8);
    assert_eq!(write_result.unwrap_err(), Error::MaxTriesReached);
    region.lock.unlock_write().expect("unlock failed");
    let readback = creator.read_spin(&mut region, 0, 8).expect("read_spin failed");
    assert_eq!(readback.len(), 64);
}
