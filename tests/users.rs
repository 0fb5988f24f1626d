use calendar_backend::error::{Error, StorageFault};
use calendar_backend::user::{get_all, get_by_username, post, CreateUser, PostUser, Reply, User};

fn alice() -> PostUser {
    PostUser { username: "alice".to_string() }
}

#[test]
fn posting_same_user_twice_scenario() {
    // First request: no such name yet, the insert succeeds.
    let s = post(alice());
    assert_eq!(s, CreateUser::CheckExisting { username: "alice".to_string() });
    let s = s.step(Reply::Checked { found: Ok(false), now: 1670802822 });
    assert_eq!(
        s,
        CreateUser::Insert { user: User { username: "alice".to_string(), created_at: 1670802822 } }
    );
    assert!(!s.is_finished());
    let s = s.step(Reply::Inserted { result: Ok(()) });
    assert_eq!(s, CreateUser::Finished { result: Ok(()) });
    assert!(s.is_finished());

    // Second request: the pre-check finds the name.
    let s = post(alice()).step(Reply::Checked { found: Ok(true), now: 1670802900 });
    assert_eq!(s, CreateUser::Finished { result: Err(Error::UserExists) });
}

#[test]
fn duplicate_caught_by_constraint_is_user_exists() {
    let s = post(alice())
        .step(Reply::Checked { found: Ok(false), now: 5 })
        .step(Reply::Inserted { result: Err(StorageFault::UniqueViolation) });
    assert_eq!(s, CreateUser::Finished { result: Err(Error::UserExists) });
}

#[test]
fn other_insert_fault_is_storage_error() {
    let s = post(alice())
        .step(Reply::Checked { found: Ok(false), now: 5 })
        .step(Reply::Inserted { result: Err(StorageFault::Other) });
    assert_eq!(s, CreateUser::Finished { result: Err(Error::StorageError) });
}

#[test]
fn precheck_fault_is_storage_error() {
    let s = post(alice()).step(Reply::Checked { found: Err(StorageFault::Other), now: 5 });
    assert_eq!(s, CreateUser::Finished { result: Err(Error::StorageError) });
}

#[test]
fn mismatched_reply_changes_nothing() {
    let s = post(alice()).step(Reply::Inserted { result: Ok(()) });
    assert_eq!(s, CreateUser::CheckExisting { username: "alice".to_string() });
    let done = CreateUser::Finished { result: Ok(()) };
    let s = done.step(Reply::Checked { found: Ok(true), now: 1 });
    assert_eq!(s, CreateUser::Finished { result: Ok(()) });
}

#[test]
fn get_user_by_name() {
    let u = User { username: "alice".to_string(), created_at: 1670802822 };
    assert_eq!(get_by_username(Ok(Some(u.clone()))), Ok(u));
    assert_eq!(get_by_username(Ok(None)), Err(Error::NotFound));
    assert_eq!(get_by_username(Err(StorageFault::NoRow)), Err(Error::NotFound));
}

#[test]
fn list_users() {
    let u = User { username: "bob".to_string(), created_at: 1 };
    assert_eq!(get_all(Ok(vec![u.clone()])), Ok(vec![u]));
    assert_eq!(get_all(Err(StorageFault::Other)), Err(Error::StorageError));
    assert_eq!(get_all(Err(StorageFault::NoRow)), Err(Error::StorageError));
}
