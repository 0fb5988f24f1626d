//! User records and the decisions of the user repository.
//!
//! Creating a user takes two storage round-trips, a pre-check for the name
//! and the insert. The creation is a small state machine: its state says
//! which round-trip to make next, and the caller hands back each answer.
use vstd::prelude::*;

use crate::error::{look_up, looked_up, settle, settled, storage_kind, Error, StorageFault};

verus! {

/// A stored user; `username` is the primary key.
#[derive(Clone, Debug, PartialEq, Eq)]
pub struct User {
    pub username: String,
    pub created_at: i64,
}

/// What a client sends to create a user; the rest is set by the server.
#[derive(Clone, Debug, PartialEq, Eq)]
pub struct PostUser {
    pub username: String,
}

/// The progress of one user creation.
#[derive(Debug, PartialEq, Eq)]
pub enum CreateUser {
    /// Next: look for an existing user with this name.
    CheckExisting { username: String },
    /// Next: insert this user.
    Insert { user: User },
    /// Nothing left to do; this is the result of the creation.
    Finished { result: Result<(), Error> },
}

/// The answer of a storage round-trip made for a user creation.
#[derive(Debug, PartialEq, Eq)]
pub enum Reply {
    /// The pre-check: whether a row with the name exists, and the time at
    /// which the answer came.
    Checked { found: Result<bool, StorageFault>, now: i64 },
    /// The insert.
    Inserted { result: Result<(), StorageFault> },
}

/// The state that follows `s` on the answer `reply`. The pre-check is only
/// an early exit: an insert refused by the uniqueness constraint is still
/// `UserExists`. An answer that does not belong to the state changes nothing.
pub open spec fn next_state(s: CreateUser, reply: Reply) -> CreateUser {
    match (s, reply) {
        (CreateUser::CheckExisting { username }, Reply::Checked { found, now }) => match found {
            Ok(true) => CreateUser::Finished { result: Err(Error::UserExists) },
            Ok(false) => CreateUser::Insert { user: User { username, created_at: now } },
            Err(f) => CreateUser::Finished { result: Err(storage_kind(f)) },
        },
        (CreateUser::Insert { user }, Reply::Inserted { result }) => match result {
            Ok(()) => CreateUser::Finished { result: Ok(()) },
            Err(StorageFault::UniqueViolation) => CreateUser::Finished {
                result: Err(Error::UserExists),
            },
            Err(f) => CreateUser::Finished { result: Err(storage_kind(f)) },
        },
        (s, _) => s,
    }
}

/// Lists all users: the rows as storage returned them, or the classified
/// fault.
pub fn get_all(rows: Result<Vec<User>, StorageFault>) -> (r: Result<Vec<User>, Error>)
    ensures
        r == settled(rows),
{
    settle(rows)
}

/// Gets one user from the answer of the lookup by username: the row,
/// `NotFound` when there is none, or the classified fault.
pub fn get_by_username(row: Result<Option<User>, StorageFault>) -> (r: Result<User, Error>)
    ensures
        r == looked_up(row),
{
    look_up(row)
}

/// Starts the creation of a user: the first step is the pre-check for the
/// name.
pub fn post(request: PostUser) -> (r: CreateUser)
    ensures
        r == (CreateUser::CheckExisting { username: request.username }),
{
    CreateUser::CheckExisting { username: request.username }
}

impl CreateUser {
    /// Advances the creation by the answer of the round-trip just made.
    pub fn step(self, reply: Reply) -> (r: CreateUser)
        ensures
            r == next_state(self, reply),
    {
        match (self, reply) {
            (CreateUser::CheckExisting { username }, Reply::Checked { found, now }) => match found {
                Ok(true) => CreateUser::Finished { result: Err(Error::UserExists) },
                Ok(false) => CreateUser::Insert { user: User { username, created_at: now } },
                Err(f) => CreateUser::Finished { result: Err(Error::from_storage(f)) },
            },
            (CreateUser::Insert { user }, Reply::Inserted { result }) => match result {
                Ok(()) => CreateUser::Finished { result: Ok(()) },
                Err(StorageFault::UniqueViolation) => CreateUser::Finished {
                    result: Err(Error::UserExists),
                },
                Err(f) => CreateUser::Finished { result: Err(Error::from_storage(f)) },
            },
            (s, _) => s,
        }
    }

    /// Whether the creation is over.
    pub open spec fn is_finished_spec(&self) -> bool {
        self is Finished
    }

    /// Whether the creation is over.
    #[verifier::when_used_as_spec(is_finished_spec)]
    pub fn is_finished(&self) -> (r: bool)
        ensures
            r == self.is_finished_spec(),
    {
        match self {
            CreateUser::Finished { .. } => true,
            _ => false,
        }
    }
}

/// The pre-check's answer for `username` on a table holding the usernames
/// `names`.
pub open spec fn precheck_reply(names: Set<Seq<char>>, username: String) -> Result<
    bool,
    StorageFault,
> {
    Ok(names.contains(username@))
}

/// The uniqueness constraint's answer to inserting `user` into a table
/// holding the usernames `names`.
pub open spec fn constraint_reply(names: Set<Seq<char>>, user: User) -> Result<(), StorageFault> {
    if names.contains(user.username@) {
        Err(StorageFault::UniqueViolation)
    } else {
        Ok(())
    }
}

/// A whole creation of `request`, where the pre-check is answered from the
/// table as it is then (`at_check`) and the insert from the table as it is
/// later (`at_insert`), which concurrent creations may have grown meanwhile.
pub open spec fn creation(
    request: PostUser,
    now: i64,
    at_check: Set<Seq<char>>,
    at_insert: Set<Seq<char>>,
) -> CreateUser {
    let checked = next_state(
        CreateUser::CheckExisting { username: request.username },
        Reply::Checked { found: precheck_reply(at_check, request.username), now },
    );
    match checked {
        CreateUser::Insert { user } => next_state(
            checked,
            Reply::Inserted { result: constraint_reply(at_insert, user) },
        ),
        _ => checked,
    }
}

/// Creating a user whose name is taken by the time of the insert ends in
/// `UserExists`, whether the pre-check already saw the name or only the
/// uniqueness constraint refused the insert.
pub proof fn lemma_taken_name_is_user_exists(
    request: PostUser,
    now: i64,
    at_check: Set<Seq<char>>,
    at_insert: Set<Seq<char>>,
)
    requires
        at_insert.contains(request.username@),
    ensures
        creation(request, now, at_check, at_insert) == (CreateUser::Finished {
            result: Err(Error::UserExists),
        }),
{
}

/// Of two creations of the same name, racing past their pre-checks, the one
/// whose insert lands first succeeds and the other ends in `UserExists`.
pub proof fn lemma_one_winner(
    first: PostUser,
    second: PostUser,
    now1: i64,
    now2: i64,
    table: Set<Seq<char>>,
    seen_by_second: Set<Seq<char>>,
)
    requires
        first.username@ == second.username@,
        !table.contains(first.username@),
    ensures
        creation(first, now1, table, table) == (CreateUser::Finished { result: Ok(()) }),
        creation(second, now2, seen_by_second, table.insert(first.username@)) == (
        CreateUser::Finished { result: Err(Error::UserExists) }),
{
}

} // verus!
