//! Data-access and consistency layer of a small record-management backend:
//! the event and user records, the partial-update merger, the error taxonomy
//! and the decisions that the repositories take around each storage call.
//!
//! The storage round-trips themselves (connection pool, migrations, queries)
//! are made by the caller, who hands the outcome of each round-trip to the
//! functions here and performs what they decide.
pub mod error;
pub mod event;
pub mod patch;
pub mod user;
pub mod util;
