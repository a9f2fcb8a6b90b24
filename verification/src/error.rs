//! The failures of the service, one type for each boundary, and the HTTP
//! status that stands for each.

use vstd::prelude::*;

verus! {

/// HTTP status of a read or a creation that succeeded.
pub const STATUS_OK: u16 = 200;

/// HTTP status of a change or a deletion that succeeded: there is no body.
pub const STATUS_NO_CONTENT: u16 = 204;

/// HTTP status of a request that names an item which does not exist.
pub const STATUS_NOT_FOUND: u16 = 404;

/// HTTP status of every other failure.
pub const STATUS_INTERNAL_SERVER_ERROR: u16 = 500;

/// Why the storage did not carry out a statement.
#[derive(Debug, Clone, Copy, PartialEq, Eq)]
pub enum StorageFailure {
    /// No connection could be had from the pool.
    Pool,
    /// The worker that ran the statement was cancelled or panicked.
    Blocking,
    /// The driver failed: a violated constraint, or any other error of the
    /// database.
    Driver,
}

/// Why a request failed.
#[derive(Debug, Clone, Copy, PartialEq, Eq)]
pub enum ApiError {
    /// No row matched the id that the request names.
    NotFound,
    /// No connection could be had from the pool.
    PoolError,
    /// The driver failed in any other way.
    StorageError,
    /// The worker that ran the statement failed before it had a result.
    BlockingTaskFailure,
}

impl ApiError {
    /// The error that a failure of the storage becomes at the repository.
    pub open spec fn of_failure(failure: StorageFailure) -> ApiError {
        match failure {
            StorageFailure::Pool => ApiError::PoolError,
            StorageFailure::Blocking => ApiError::BlockingTaskFailure,
            StorageFailure::Driver => ApiError::StorageError,
        }
    }

    /// The HTTP status that stands for the error: 404 for `NotFound`, 500
    /// for every other.
    pub open spec fn status(self) -> int {
        match self {
            ApiError::NotFound => STATUS_NOT_FOUND as int,
            _ => STATUS_INTERNAL_SERVER_ERROR as int,
        }
    }

    /// The error that stands for a failure of the storage.
    pub fn from_failure(failure: StorageFailure) -> (error: ApiError)
        ensures
            error == ApiError::of_failure(failure),
    {
        match failure {
            StorageFailure::Pool => ApiError::PoolError,
            StorageFailure::Blocking => ApiError::BlockingTaskFailure,
            StorageFailure::Driver => ApiError::StorageError,
        }
    }

    /// The HTTP status with which the error is answered.
    pub fn status_code(&self) -> (code: u16)
        ensures
            code == self.status(),
    {
        match self {
            ApiError::NotFound => STATUS_NOT_FOUND,
            ApiError::PoolError => STATUS_INTERNAL_SERVER_ERROR,
            ApiError::StorageError => STATUS_INTERNAL_SERVER_ERROR,
            ApiError::BlockingTaskFailure => STATUS_INTERNAL_SERVER_ERROR,
        }
    }
}

} // verus!
