//! The typed failures the protocol can return. Protocol-specific failures are
//! surfaced to the host as custom numeric codes; the rest mirror the host's
//! own account-validation failures.

use vstd::prelude::*;

verus! {

/// Failures specific to the escrow protocol.
#[derive(Debug, Clone, Copy, PartialEq, Eq)]
pub enum EscrowError {
    /// The instruction payload is malformed or carries an unknown command.
    InvalidInstruction,
    /// The escrow-record account cannot cover its storage cost in perpetuity.
    NotRentExempt,
    /// The acceptor's claimed amount differs from the custodied deposit.
    ExpectedAmountMismatch,
    /// Crediting the reclaimed storage deposit would overflow.
    AmountOverflow,
}

/// The failure set of the host dispatch layer, as far as the handlers use it.
/// An `EscrowError` travels as `Custom` with its numeric code.
#[derive(Debug, Clone, Copy, PartialEq, Eq)]
pub enum ProgramError {
    Custom(u32),
    InvalidArgument,
    InvalidAccountData,
    AccountDataTooSmall,
    MissingRequiredSignature,
    UninitializedAccount,
    NotEnoughAccountKeys,
    AccountAlreadyInitialized,
    IncorrectProgramId,
    InvalidSeeds,
}

/// The numeric code an `EscrowError` carries when surfaced as `Custom`.
pub open spec fn escrow_error_code(e: EscrowError) -> u32 {
    match e {
        EscrowError::InvalidInstruction => 1,
        EscrowError::NotRentExempt => 2,
        EscrowError::ExpectedAmountMismatch => 3,
        EscrowError::AmountOverflow => 4,
    }
}

/// The host-level form of a protocol failure.
pub open spec fn custom_error(e: EscrowError) -> ProgramError {
    ProgramError::Custom(escrow_error_code(e))
}

impl From<EscrowError> for ProgramError {
    fn from(e: EscrowError) -> (r: ProgramError) {
        match e {
            EscrowError::InvalidInstruction => ProgramError::Custom(1),
            EscrowError::NotRentExempt => ProgramError::Custom(2),
            EscrowError::ExpectedAmountMismatch => ProgramError::Custom(3),
            EscrowError::AmountOverflow => ProgramError::Custom(4),
        }
    }
}

impl vstd::std_specs::convert::FromSpecImpl<EscrowError> for ProgramError {
    open spec fn obeys_from_spec() -> bool {
        true
    }

    open spec fn from_spec(e: EscrowError) -> ProgramError {
        custom_error(e)
    }
}

} // verus!
