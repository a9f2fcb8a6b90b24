//! What the storage hands back for a statement, read as the answer of the
//! repository.

use crate::error::{ApiError, StorageFailure};
use crate::todo::Todo;
use vstd::prelude::*;

verus! {

/// The answer to a statement that returns what it stored or read: the
/// value itself, or the failure of the storage as an error.
pub fn stored<T>(outcome: Result<T, StorageFailure>) -> (answer: Result<T, ApiError>)
    ensures
        answer == match outcome {
            Ok(value) => Ok::<T, ApiError>(value),
            Err(failure) => Err(ApiError::of_failure(failure)),
        },
{
    match outcome {
        Ok(value) => Ok(value),
        Err(failure) => Err(ApiError::from_failure(failure)),
    }
}

/// The answer to a statement that addresses one row by its id and returns
/// it: the row, `NotFound` where the statement returned no row, or the
/// failure of the storage as an error.
pub fn found(outcome: Result<Option<Todo>, StorageFailure>) -> (answer: Result<Todo, ApiError>)
    ensures
        answer == match outcome {
            Ok(Some(row)) => Ok::<Todo, ApiError>(row),
            Ok(None) => Err(ApiError::NotFound),
            Err(failure) => Err(ApiError::of_failure(failure)),
        },
{
    match outcome {
        Ok(Some(row)) => Ok(row),
        Ok(None) => Err(ApiError::NotFound),
        Err(failure) => Err(ApiError::from_failure(failure)),
    }
}

/// The answer to a statement that changes the row with a given id and
/// returns the number of rows it matched: `NotFound` where it matched
/// none, though the storage signalled no failure.
pub fn changed(outcome: Result<usize, StorageFailure>) -> (answer: Result<(), ApiError>)
    ensures
        answer == match outcome {
            Ok(affected) => if affected == 0 {
                Err::<(), ApiError>(ApiError::NotFound)
            } else {
                Ok(())
            },
            Err(failure) => Err(ApiError::of_failure(failure)),
        },
{
    match outcome {
        Ok(affected) => if affected == 0 {
            Err(ApiError::NotFound)
        } else {
            Ok(())
        },
        Err(failure) => Err(ApiError::from_failure(failure)),
    }
}

/// The answer to a deletion: a success whether or not a row was there to
/// delete, or the failure of the storage as an error.
pub fn deleted(outcome: Result<usize, StorageFailure>) -> (answer: Result<(), ApiError>)
    ensures
        answer == match outcome {
            Ok(_) => Ok::<(), ApiError>(()),
            Err(failure) => Err(ApiError::of_failure(failure)),
        },
{
    match outcome {
        Ok(_) => Ok(()),
        Err(failure) => Err(ApiError::from_failure(failure)),
    }
}

} // verus!
