use vstd::prelude::*;

use crate::error::DatabaseError;

verus! {

/// The size a connection pool is built with: a pool of no connections is
/// refused as a pool failure.
pub fn checked_pool_size(pool_size: u32) -> (r: Result<u32, DatabaseError>)
    ensures
        pool_size == 0 ==> r == Err::<u32, DatabaseError>(DatabaseError::ConnectionPool),
        pool_size > 0 ==> r == Ok::<u32, DatabaseError>(pool_size),
{
    if pool_size == 0 {
        Err(DatabaseError::ConnectionPool)
    } else {
        Ok(pool_size)
    }
}

} // verus!
