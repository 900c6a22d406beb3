use vstd::prelude::*;

verus! {

/// Failure codes surfaced to callers. Every rejected invocation returns one of
/// these and leaves all state untouched: there are no partial effects.
#[derive(Clone, Copy, Debug, PartialEq, Eq, Structural)]
pub enum MingError {
    Unauthorized,
    ProgramPaused,
    InvalidTokenUri,
    TokenUriTooLong,
    InvalidExternalObjectId,
    ExternalObjectIdTooLong,
    InvalidElement,
    ElementTooLong,
    MathOverflow,
    RecipientMismatch,
    AlreadyReleased,
    NotConnectionHolder,
}

/// Failures of the record store's atomic create and lookup operations.
#[derive(Clone, Copy, Debug, PartialEq, Eq, Structural)]
pub enum StoreError {
    AlreadyExists,
    NotFound,
}

/// A failed ledger invocation: either the program itself rejected a
/// precondition, or the storage layer refused the access.
#[derive(Clone, Copy, Debug, PartialEq, Eq, Structural)]
pub enum LedgerError {
    Program(MingError),
    Store(StoreError),
}

} // verus!
