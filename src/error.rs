//! The failures that the storage layer reports to its callers.
use vstd::prelude::*;

verus! {

/// A storage failure. Each kind is distinct so that callers can choose a
/// retry or messaging policy per kind.
#[derive(Debug, Clone, Copy, PartialEq, Eq, Structural)]
pub enum StoreError {
    /// The pool is exhausted or the database cannot be reached.
    ConnectionUnavailable,
    /// A uniqueness, foreign-key or check constraint rejected a write.
    ConstraintViolation,
    /// A lookup found no row.
    NotFound,
    /// The query was malformed or the backend reported another error.
    QueryFailed,
    /// Bringing the schema up to date failed; the service must not start.
    MigrationFailed,
    /// The connection pool could not be built; the service must not start.
    PoolInitFailed,
}

/// What the backend or the pool reported when an operation failed.
#[derive(Debug, Clone, Copy, PartialEq, Eq, Structural)]
pub enum BackendFailure {
    UniqueViolation,
    ForeignKeyViolation,
    CheckViolation,
    NotNullViolation,
    NoRows,
    PoolTimedOut,
    ConnectionLost,
    Other,
}

/// The storage error that a backend failure is reported as.
pub open spec fn failure_kind(f: BackendFailure) -> StoreError {
    match f {
        BackendFailure::UniqueViolation => StoreError::ConstraintViolation,
        BackendFailure::ForeignKeyViolation => StoreError::ConstraintViolation,
        BackendFailure::CheckViolation => StoreError::ConstraintViolation,
        BackendFailure::NotNullViolation => StoreError::ConstraintViolation,
        BackendFailure::NoRows => StoreError::NotFound,
        BackendFailure::PoolTimedOut => StoreError::ConnectionUnavailable,
        BackendFailure::ConnectionLost => StoreError::ConnectionUnavailable,
        BackendFailure::Other => StoreError::QueryFailed,
    }
}

impl StoreError {
    /// Translates a backend failure: constraint rejections become
    /// `ConstraintViolation`, a missing row `NotFound`, pool and connection
    /// trouble `ConnectionUnavailable`, and anything else `QueryFailed`.
    pub fn from_backend(f: BackendFailure) -> (r: StoreError)
        ensures
            r == failure_kind(f),
    {
        match f {
            BackendFailure::UniqueViolation => StoreError::ConstraintViolation,
            BackendFailure::ForeignKeyViolation => StoreError::ConstraintViolation,
            BackendFailure::CheckViolation => StoreError::ConstraintViolation,
            BackendFailure::NotNullViolation => StoreError::ConstraintViolation,
            BackendFailure::NoRows => StoreError::NotFound,
            BackendFailure::PoolTimedOut => StoreError::ConnectionUnavailable,
            BackendFailure::ConnectionLost => StoreError::ConnectionUnavailable,
            BackendFailure::Other => StoreError::QueryFailed,
        }
    }

    /// The failure stops the service from starting rather than failing one request.
    pub fn is_startup_fatal(&self) -> (r: bool)
        ensures
            r == (*self == StoreError::MigrationFailed || *self == StoreError::PoolInitFailed),
    {
        match self {
            StoreError::MigrationFailed | StoreError::PoolInitFailed => true,
            _ => false,
        }
    }
}

} // verus!
