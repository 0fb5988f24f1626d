use calendar_backend::error::{look_up, settle, Error, Outcome, PoolFault, StorageFault};
use calendar_backend::patch::{replace, Patch};
use calendar_backend::util::{check_length, split_commas, timestamp_from_secs, unix_timestamp};

#[test]
fn check_length_accepts_absent_and_short() {
    assert_eq!(check_length("name", None, 0), Ok(()));
    assert_eq!(check_length("name", Some("abc"), 3), Ok(()));
    assert_eq!(check_length("name", Some(""), 0), Ok(()));
}

#[test]
fn check_length_rejects_long() {
    assert_eq!(
        check_length("name", Some("abcd"), 3),
        Err(Error::TooManyCharacters { field: "name", maximum_length: 3 })
    );
}

#[test]
fn check_length_counts_bytes() {
    // Two characters, four bytes.
    assert_eq!(
        check_length("name", Some("éé"), 3),
        Err(Error::TooManyCharacters { field: "name", maximum_length: 3 })
    );
    assert_eq!(check_length("name", Some("éé"), 4), Ok(()));
}

#[test]
fn split_commas_pieces() {
    assert_eq!(split_commas("a,b,c"), vec!["a", "b", "c"]);
    assert_eq!(split_commas("one"), vec!["one"]);
    assert_eq!(split_commas(""), vec![""]);
    assert_eq!(split_commas("a,,b,"), vec!["a", "", "b", ""]);
    assert_eq!(split_commas("ä,ö"), vec!["ä", "ö"]);
}

#[test]
fn clock_gives_a_recent_time() {
    let t = unix_timestamp().unwrap();
    assert!(t > 1_600_000_000);
}

#[test]
fn storage_faults_are_classified() {
    assert_eq!(Error::from_storage(StorageFault::NoRow), Error::NotFound);
    assert_eq!(Error::from_storage(StorageFault::UniqueViolation), Error::StorageError);
    assert_eq!(Error::from_storage(StorageFault::Other), Error::StorageError);
    assert_eq!(settle::<u8>(Ok(4)), Ok(4));
    assert_eq!(settle::<u8>(Err(StorageFault::Other)), Err(Error::StorageError));
    assert_eq!(settle::<u8>(Err(StorageFault::NoRow)), Err(Error::StorageError));
    assert_eq!(look_up::<u8>(Ok(None)), Err(Error::NotFound));
}

#[test]
fn pool_faults_are_classified() {
    assert_eq!(Error::from_pool(PoolFault::TimedOut), Error::PoolExhausted);
    assert_eq!(Error::from_pool(PoolFault::Connect), Error::ConnectFailed);
}

#[test]
fn errors_are_surfaced_by_kind() {
    assert_eq!(Error::NotFound.outcome(), Outcome::NotFound);
    assert_eq!(Error::UserExists.outcome(), Outcome::Conflict);
    assert_eq!(Error::EmptyField { field: "title" }.outcome(), Outcome::BadRequest);
    assert_eq!(
        Error::TooManyCharacters { field: "t", maximum_length: 1 }.outcome(),
        Outcome::BadRequest
    );
    assert_eq!(Error::MalformedRequest.outcome(), Outcome::BadRequest);
    assert_eq!(Error::PoolExhausted.outcome(), Outcome::InternalFailure);
    assert_eq!(Error::ConnectFailed.outcome(), Outcome::InternalFailure);
    assert_eq!(Error::MigrationFailed.outcome(), Outcome::InternalFailure);
    assert_eq!(Error::StorageError.outcome(), Outcome::InternalFailure);
}

#[test]
fn patch_tri_state() {
    assert_eq!(Patch::<u8>::Absent.apply(Some(1)), Some(1));
    assert_eq!(Patch::<u8>::Null.apply(Some(1)), None);
    assert_eq!(Patch::Value(2u8).apply(None), Some(2));
    assert!(Patch::<u8>::Absent.is_absent());
    assert!(!Patch::<u8>::Null.is_absent());
    assert_eq!(Patch::<u8>::from_nested(None), Patch::Absent);
    assert_eq!(Patch::<u8>::from_nested(Some(None)), Patch::Null);
    assert_eq!(Patch::from_nested(Some(Some(3u8))), Patch::Value(3));
    assert_eq!(replace(Some(5u8), 1), 5);
    assert_eq!(replace(None, 1u8), 1);
}

#[test]
fn clock_readings_become_timestamps() {
    assert_eq!(timestamp_from_secs(Some(1691226000)), Some(1691226000));
    assert_eq!(timestamp_from_secs(Some(0)), Some(0));
    assert_eq!(timestamp_from_secs(Some(i64::MAX as u64)), Some(i64::MAX));
    assert_eq!(timestamp_from_secs(Some(i64::MAX as u64 + 1)), None);
    assert_eq!(timestamp_from_secs(None), None);
}
