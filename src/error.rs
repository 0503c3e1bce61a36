//! The ways a call on the registry can fail.

use vstd::prelude::*;

verus! {

/// Why a call was rejected. A rejected call changes nothing.
#[derive(Clone, Copy, Debug, PartialEq, Eq, Structural, Hash)]
pub enum UnclaimsError {
    /// The escrowed amount is zero, or the escrowed state is empty.
    EmptyPayload,
    /// The email address commitment is the zero word.
    InvalidCommitment,
    /// An address that must be set (an extension, a new owner) is zero.
    ZeroAddress,
    /// The expiry time is not strictly after the current time, or cannot be represented.
    InvalidExpiry,
    /// The attached payment is not exactly the registration fee.
    InvalidFee,
    /// The id was never issued.
    NotFound,
    /// The id was issued, but its entry has been claimed or voided.
    NotRegistered,
    /// The entry cannot be voided before its expiry time.
    NotExpired,
    /// The entry cannot be claimed at or after its expiry time.
    AlreadyExpired,
    /// The proof does not verify against the claim's public inputs.
    InvalidProof,
    /// Too little gas is left to forward the claim's callback.
    InsufficientGas,
    /// The caller may not make this call.
    Unauthorized,
    /// The asset transfer that the call depends on failed.
    TransferFailed,
    /// The registry has already been initialized.
    AlreadyInitialized,
    /// The registry has not been initialized yet.
    NotInitialized,
}

impl UnclaimsError {
    /// A short human-readable description of the failure.
    pub fn message(&self) -> (r: &'static str)
        ensures
            r@ == error_message(*self)@,
    {
        match self {
            UnclaimsError::EmptyPayload => "empty payload",
            UnclaimsError::InvalidCommitment => "invalid email address commitment",
            UnclaimsError::ZeroAddress => "zero address",
            UnclaimsError::InvalidExpiry => "invalid expiry time",
            UnclaimsError::InvalidFee => "invalid fee",
            UnclaimsError::NotFound => "invalid id",
            UnclaimsError::NotRegistered => "not registered",
            UnclaimsError::NotExpired => "not expired",
            UnclaimsError::AlreadyExpired => "already expired",
            UnclaimsError::InvalidProof => "invalid proof",
            UnclaimsError::InsufficientGas => "insufficient gas",
            UnclaimsError::Unauthorized => "unauthorized caller",
            UnclaimsError::TransferFailed => "transfer failed",
            UnclaimsError::AlreadyInitialized => "already initialized",
            UnclaimsError::NotInitialized => "not initialized",
        }
    }
}

/// The message that goes with each failure.
pub open spec fn error_message(e: UnclaimsError) -> &'static str {
    match e {
        UnclaimsError::EmptyPayload => "empty payload",
        UnclaimsError::InvalidCommitment => "invalid email address commitment",
        UnclaimsError::ZeroAddress => "zero address",
        UnclaimsError::InvalidExpiry => "invalid expiry time",
        UnclaimsError::InvalidFee => "invalid fee",
        UnclaimsError::NotFound => "invalid id",
        UnclaimsError::NotRegistered => "not registered",
        UnclaimsError::NotExpired => "not expired",
        UnclaimsError::AlreadyExpired => "already expired",
        UnclaimsError::InvalidProof => "invalid proof",
        UnclaimsError::InsufficientGas => "insufficient gas",
        UnclaimsError::Unauthorized => "unauthorized caller",
        UnclaimsError::TransferFailed => "transfer failed",
        UnclaimsError::AlreadyInitialized => "already initialized",
        UnclaimsError::NotInitialized => "not initialized",
    }
}

} // verus!
