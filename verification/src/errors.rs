use vstd::prelude::*;

verus! {

/// The error kinds the claim engine and the registries surface to callers.
/// None of them is retried inside the engine; every failure leaves all
/// persisted state unchanged.
#[derive(Clone, Copy, Debug, PartialEq, Eq, Structural)]
pub enum ErrorCode {
    /// The caller is not the identity the operation requires.
    PermissionDenied,
    /// A record already exists under the derived address.
    AlreadyExists,
    /// The clock has not reached the grant's cliff time yet.
    ClaimNotAvailableYet,
    /// The schedule has no positive span between start and end.
    InvalidVestingPeriod,
    /// The vesting product exceeds the numeric range.
    CalculationOverflow,
    /// Everything vested so far has already been withdrawn.
    NothingToClaim,
    /// The pool does not match the grant's stored pool reference,
    /// or no pool address could be derived.
    InvalidPool,
    /// The transfer collaborator did not confirm the transfer.
    TransferFailed,
}

} // verus!
