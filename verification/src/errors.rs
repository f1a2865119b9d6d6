use vstd::prelude::*;

verus! {

/// The failures that registering a vesting arrangement can report.
#[derive(Clone, Copy, PartialEq, Eq, Structural, Debug)]
pub enum VestingError {
    /// The company name exceeds the configured maximum length, or the seed
    /// list admits no valid derived address.
    SeedConstraintViolation,
    /// A derived address is already initialized on the ledger.
    DuplicateAccount,
    /// The signer cannot fund the allocation of both new accounts.
    InsufficientFunding,
    /// A supplied account address does not match the recomputed derivation.
    AuthorityMismatch,
}

} // verus!
