//! Error type returned by the market's handlers.

use vstd::prelude::*;

verus! {

/// Errors that may be returned by the market module.
///
/// The error taxonomy is deliberately flat: every validation failure is
/// reported as the same undifferentiated kind, and the host learns only
/// that the transaction failed.
#[derive(Clone, Copy, Debug, PartialEq, Eq, Structural)]
pub enum PredictChainError {
    /// Generic error for now
    GenericError,
}

impl PredictChainError {
    /// The numeric code carried across the host boundary for this error.
    pub fn code(&self) -> (c: u32)
        ensures
            c == 0,
    {
        match self {
            PredictChainError::GenericError => 0,
        }
    }
}

} // verus!
