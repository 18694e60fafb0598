use vstd::prelude::*;

verus! {

/// Errors of the accounting core. Every error is fatal to the enclosing
/// operation: a rejected call leaves the ledger exactly as it was.
#[derive(Clone, Copy, Debug, PartialEq, Eq, Structural)]
pub enum SolottoError {
    /// A season with the requested id already exists.
    DuplicateSeason,
    /// No season with the requested id, or the stored id does not match.
    InvalidSeason,
    /// Mutating call against a closed or expired season.
    SeasonNotActive,
    /// Ticket quantity of zero.
    InvalidQuantity,
    /// A counter addition would exceed its fixed-width range.
    Overflow,
    /// Caller is not the season's admin for an admin-gated operation.
    Unauthorized,
    /// Vault balance at or below the reserved minimum.
    NothingToClaim,
}

} // verus!
