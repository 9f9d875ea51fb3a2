//! The failures this crate reports.

use vstd::prelude::*;

use crate::input::series::SeriesField;

verus! {

/// Why a request was turned down.
#[derive(Debug, PartialEq, Eq)]
pub enum EngineError {
    /// A categorical field was given a value outside its taxonomy. Nothing was
    /// changed.
    InvalidFieldValue { field: SeriesField },
    /// No visibility scope could be established for the request. No partial
    /// result is given.
    UnauthorizedContext,
    /// The persistence collaborator failed to read or write; its message is
    /// handed on as it came.
    PersistenceFailure { message: String },
}

impl Clone for EngineError {
    fn clone(&self) -> (copy: EngineError)
        ensures
            copy == *self,
    {
        match self {
            EngineError::InvalidFieldValue { field } => EngineError::InvalidFieldValue {
                field: *field,
            },
            EngineError::UnauthorizedContext => EngineError::UnauthorizedContext,
            EngineError::PersistenceFailure { message } => EngineError::PersistenceFailure {
                message: message.clone(),
            },
        }
    }
}

/// Hands on the outcome of a persistence read or write. A failure is surfaced
/// with the collaborator's message as it came; nothing is retried.
pub fn surface_persistence<T>(outcome: Result<T, String>) -> (surfaced: Result<T, EngineError>)
    ensures
        match outcome {
            Ok(value) => surfaced == Ok::<T, EngineError>(value),
            Err(message) => surfaced == Err::<T, EngineError>(
                EngineError::PersistenceFailure { message },
            ),
        },
{
    match outcome {
        Ok(value) => Ok(value),
        Err(message) => Err(EngineError::PersistenceFailure { message }),
    }
}

} // verus!
