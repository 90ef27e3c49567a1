use vstd::prelude::*;

verus! {

/// Why a storage operation failed.
#[derive(Debug, PartialEq, Eq)]
pub enum DatabaseError {
    /// A failure described by its message.
    Error(String),
    /// No connection could be had from the pool.
    ConnectionPool,
    /// The named resource has no entry for the value.
    NotFound { resource: String, value: String },
}

} // verus!
