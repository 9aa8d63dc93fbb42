//! Settings of the bounded connection pool that request handlers share.
use vstd::prelude::*;
use vstd::string::StringExecFns;
use crate::error::StoreError;

verus! {

/// The largest number of connections the pool keeps open at once.
pub const MAX_POOL_SIZE: u32 = 15;

/// What the pool is built from: the connection string and the bound on open
/// connections.
#[derive(Debug, Clone)]
pub struct PoolSettings {
    pub database_url: String,
    pub max_size: u32,
}

/// The settings for a pool on `database_url`, bounded by [`MAX_POOL_SIZE`].
/// An empty connection string cannot reach any database: `PoolInitFailed`.
pub fn pool_settings(database_url: &str) -> (r: Result<PoolSettings, StoreError>)
    ensures
        database_url@.len() == 0 ==> r == Err::<PoolSettings, StoreError>(StoreError::PoolInitFailed),
        database_url@.len() > 0 ==> {
            &&& r is Ok
            &&& r->Ok_0.database_url@ == database_url@
            &&& r->Ok_0.max_size == MAX_POOL_SIZE
        },
{
    if database_url.is_empty() {
        return Err(StoreError::PoolInitFailed);
    }
    Ok(PoolSettings { database_url: String::from_str(database_url), max_size: MAX_POOL_SIZE })
}

} // verus!
