//! The fixed error taxonomy, and how storage and pool failures are classified
//! into it.
use vstd::prelude::*;

verus! {

/// Every failure of a repository operation, classified into exactly one kind.
#[derive(Clone, Copy, Debug, PartialEq, Eq)]
pub enum Error {
    /// The requested entity does not exist.
    NotFound,
    /// A user with the requested username already exists.
    UserExists,
    /// A text field is longer than it may be.
    TooManyCharacters { field: &'static str, maximum_length: u64 },
    /// A required text field is empty.
    EmptyField { field: &'static str },
    /// The request could not be read at all.
    MalformedRequest,
    /// No pooled connection became available within the wait limit.
    PoolExhausted,
    /// A new connection to the backing store could not be opened.
    ConnectFailed,
    /// The schema could not be brought up to date at startup.
    MigrationFailed,
    /// Any other storage fault; carries no internal detail.
    StorageError,
}

/// How a failure is surfaced to a client of the service.
#[derive(Clone, Copy, Debug, PartialEq, Eq, Structural)]
pub enum Outcome {
    NotFound,
    Conflict,
    BadRequest,
    InternalFailure,
}

/// A failure reported by one storage round-trip.
#[derive(Clone, Copy, Debug, PartialEq, Eq, Structural)]
pub enum StorageFault {
    /// A statement that must yield a row yielded none.
    NoRow,
    /// An insert broke a uniqueness (primary key) constraint.
    UniqueViolation,
    /// Anything else.
    Other,
}

/// A failure reported by the connection pool on acquire.
#[derive(Clone, Copy, Debug, PartialEq, Eq, Structural)]
pub enum PoolFault {
    /// The configured wait limit elapsed.
    TimedOut,
    /// Opening a connection failed.
    Connect,
}

/// The kind of a storage fault outside of a create-if-absent insert.
pub open spec fn storage_kind(f: StorageFault) -> Error {
    match f {
        StorageFault::NoRow => Error::NotFound,
        _ => Error::StorageError,
    }
}

/// The kind of a pool fault.
pub open spec fn pool_kind(f: PoolFault) -> Error {
    match f {
        PoolFault::TimedOut => Error::PoolExhausted,
        PoolFault::Connect => Error::ConnectFailed,
    }
}

/// How each kind is surfaced: internal faults all look alike from outside.
pub open spec fn outcome_of(e: Error) -> Outcome {
    match e {
        Error::NotFound => Outcome::NotFound,
        Error::UserExists => Outcome::Conflict,
        Error::TooManyCharacters { .. } | Error::EmptyField { .. } | Error::MalformedRequest => {
            Outcome::BadRequest
        },
        Error::PoolExhausted | Error::ConnectFailed | Error::MigrationFailed
            | Error::StorageError => Outcome::InternalFailure,
    }
}

/// The result of a statement that yields no particular row (a listing, an
/// insert): any fault of it is an opaque `StorageError`.
pub open spec fn settled<T>(r: Result<T, StorageFault>) -> Result<T, Error> {
    match r {
        Ok(v) => Ok(v),
        Err(_) => Err(Error::StorageError),
    }
}

/// The outcome of an exact-match lookup that yields zero or one row: no row
/// means `NotFound`.
pub open spec fn looked_up<T>(row: Result<Option<T>, StorageFault>) -> Result<T, Error> {
    match row {
        Ok(Some(v)) => Ok(v),
        Ok(None) => Err(Error::NotFound),
        Err(f) => Err(storage_kind(f)),
    }
}

impl Error {
    /// Classifies a storage fault: a missing row is `NotFound`, anything else
    /// is an opaque `StorageError`.
    pub fn from_storage(f: StorageFault) -> (r: Error)
        ensures
            r == storage_kind(f),
    {
        match f {
            StorageFault::NoRow => Error::NotFound,
            _ => Error::StorageError,
        }
    }

    /// Classifies a failure to acquire a pooled connection.
    pub fn from_pool(f: PoolFault) -> (r: Error)
        ensures
            r == pool_kind(f),
    {
        match f {
            PoolFault::TimedOut => Error::PoolExhausted,
            PoolFault::Connect => Error::ConnectFailed,
        }
    }

    /// How this failure is surfaced to a client.
    pub fn outcome(&self) -> (r: Outcome)
        ensures
            r == outcome_of(*self),
    {
        match self {
            Error::NotFound => Outcome::NotFound,
            Error::UserExists => Outcome::Conflict,
            Error::TooManyCharacters { .. } | Error::EmptyField { .. } | Error::MalformedRequest => {
                Outcome::BadRequest
            },
            Error::PoolExhausted | Error::ConnectFailed | Error::MigrationFailed
            | Error::StorageError => Outcome::InternalFailure,
        }
    }
}

/// Classifies the fault of a statement that yields no particular row,
/// keeping a success as it is.
pub fn settle<T>(r: Result<T, StorageFault>) -> (out: Result<T, Error>)
    ensures
        out == settled(r),
{
    match r {
        Ok(v) => Ok(v),
        Err(_) => Err(Error::StorageError),
    }
}

/// Turns the answer of an exact-match lookup into the entity or `NotFound`.
pub fn look_up<T>(row: Result<Option<T>, StorageFault>) -> (r: Result<T, Error>)
    ensures
        r == looked_up(row),
{
    match row {
        Ok(Some(v)) => Ok(v),
        Ok(None) => Err(Error::NotFound),
        Err(f) => Err(Error::from_storage(f)),
    }
}

} // verus!
