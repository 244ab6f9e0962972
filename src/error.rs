//! Why an operation on the shielded pool or the stealth registry was refused.
use vstd::prelude::*;

verus! {

/// Every refusal leaves all state as it was before the attempt.
#[derive(Clone, Copy, Debug, PartialEq, Eq, Structural)]
pub enum PrivacyError {
    /// The pool does not accept deposits or withdrawals.
    PoolNotActive,
    /// The stealth payment was already claimed.
    AlreadyClaimed,
    /// The pool holds less than the requested withdrawal.
    InsufficientPoolBalance,
    /// The amount is zero.
    InvalidAmount,
    /// The claimant is not the one-time identity the payment was sent to.
    UnauthorizedClaim,
    /// The nullifier was already spent in this pool (double-spend attempt).
    NullifierAlreadyUsed,
    /// The proof is malformed or the verifier rejected it.
    InvalidProof,
    /// A counter or balance would leave the range of its integer type.
    Overflow,
    /// An escrow already exists at this stealth address.
    StealthAddressInUse,
    /// No escrow exists at this stealth address.
    UnknownStealthAddress,
}

} // verus!
