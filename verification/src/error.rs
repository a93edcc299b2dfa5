//! The failures that end an authorization.

use vstd::prelude::*;

verus! {

/// Why an instruction was rejected. Every failure aborts the whole
/// transaction and leaves no effect behind.
#[derive(Clone, Copy, Debug, PartialEq, Eq, Structural)]
pub enum ProgramError {
    /// An instruction payload or a stored record is malformed.
    DecodeError,
    /// No instruction precedes the authorization instruction.
    OrderingError,
    /// A located instruction does not target the signature-recovery
    /// program, or a declared account is not the one the operation derives.
    BindingError,
    /// Offsets, indices, address or message of a recovery instruction do not
    /// match.
    SignatureVerificationFailed,
    /// Fewer attesting identities than the group requires.
    NotEnoughSigners,
    /// One identity attests more than once.
    RepeatedSigners,
    /// Two identities share an operator.
    OperatorCollision,
    /// The attested nonce is not the stored counter.
    NonceVerificationError,
    /// The record to create is already initialized.
    AlreadyInitialized,
    /// The caller is not the group's owner, has not signed, or the owner
    /// has been disabled.
    AuthorizationError,
    /// The instruction names fewer accounts than it needs.
    NotEnoughAccountKeys,
    /// An address cannot be derived from the given seeds, or a declared
    /// token account is not the derived one.
    InvalidSeeds,
    /// A transfer of nothing, or of more than the source holds.
    InsufficientFunds,
    /// A token account or mint does not unpack.
    InvalidAccountData,
    /// The record to operate on is not initialized.
    UninitializedAccount,
    /// An argument of an instruction to build cannot be written.
    InvalidArgument,
    /// A failure of one program's own, by its number.
    Custom(u32),
}

/// Whether a result is the expected one: the same failure, or a value whose
/// view is the expected value.
pub open spec fn yields<T: View>(r: Result<T, ProgramError>, expected: Result<T::V, ProgramError>)
    -> bool {
    match expected {
        Ok(v) => r matches Ok(x) && x@ == v,
        Err(e) => r matches Err(x) && x == e,
    }
}

} // verus!
