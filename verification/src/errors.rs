use vstd::prelude::*;

verus! {

/// Errors that the oracle's entry points return.
#[derive(Clone, Copy, Debug, PartialEq, Eq, Structural)]
pub enum Error {
    /// The contract already has an admin.
    AlreadyInitialized,
    /// The contract has no admin yet.
    Unauthorized,
    /// The contract is paused.
    ContractPaused,
    /// A result for the match id is already recorded.
    AlreadySubmitted,
    /// The game id is empty.
    InvalidGameId,
    /// No result is recorded for the match id.
    ResultNotFound,
    /// A batch holds more entries than the batch limit.
    BatchTooLarge,
    /// Two entries of one batch share a match id.
    BatchDuplicateEntry,
}

} // verus!
