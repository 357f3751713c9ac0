//! Errors of the interceptor program.

use vstd::prelude::*;

verus! {

/// The program's own error codes, surfaced on chain as a numbered custom
/// error inside the host's instruction-error envelope.
#[derive(Clone, Copy, Debug, PartialEq, Eq, Structural)]
pub enum StakeDepositInterceptorError {
    /// A required signer did not sign.
    SignatureMissing,
    /// A PDA to be created does not match its expected derived address.
    InvalidSeeds,
    /// Attempt to initialize an account that is already in use.
    AlreadyInUse,
    /// The stake pool does not match the other inputs.
    InvalidStakePool,
    /// The stake pool's manager is invalid.
    InvalidStakePoolManager,
    /// The signer is not the authority of the record.
    InvalidAuthority,
    /// The supplied authority account does not match the expected one.
    InvalidStakePoolDepositStakeAuthority,
    /// The vault token account does not match the authority's vault.
    InvalidVault,
    /// The token program does not match the mint's owner.
    InvalidTokenProgram,
    /// The supplied deposit receipt account is invalid.
    InvalidDepositReceipt,
    /// The signer is not the receipt's owner.
    InvalidDepositReceiptOwner,
    /// The fee token account is not owned by the fee wallet.
    InvalidFeeTokenAccount,
    /// The destination token account is not owned by the receipt's owner.
    InvalidDestinationTokenAccount,
    /// Only the owner may claim while the cool-down is active.
    ActiveCooldown,
    /// The initial fee rate exceeds 100%.
    InitialFeeRateMaxExceeded,
}

impl StakeDepositInterceptorError {
    /// The numeric code of the error, as the host reports it.
    pub fn code(&self) -> (r: u32)
        ensures
            r == self.spec_code(),
    {
        match self {
            StakeDepositInterceptorError::SignatureMissing => 0,
            StakeDepositInterceptorError::InvalidSeeds => 1,
            StakeDepositInterceptorError::AlreadyInUse => 2,
            StakeDepositInterceptorError::InvalidStakePool => 3,
            StakeDepositInterceptorError::InvalidStakePoolManager => 4,
            StakeDepositInterceptorError::InvalidAuthority => 5,
            StakeDepositInterceptorError::InvalidStakePoolDepositStakeAuthority => 6,
            StakeDepositInterceptorError::InvalidVault => 7,
            StakeDepositInterceptorError::InvalidTokenProgram => 8,
            StakeDepositInterceptorError::InvalidDepositReceipt => 9,
            StakeDepositInterceptorError::InvalidDepositReceiptOwner => 10,
            StakeDepositInterceptorError::InvalidFeeTokenAccount => 11,
            StakeDepositInterceptorError::InvalidDestinationTokenAccount => 12,
            StakeDepositInterceptorError::ActiveCooldown => 13,
            StakeDepositInterceptorError::InitialFeeRateMaxExceeded => 14,
        }
    }

    /// The numeric code, for contracts.
    pub open spec fn spec_code(&self) -> u32 {
        match self {
            StakeDepositInterceptorError::SignatureMissing => 0u32,
            StakeDepositInterceptorError::InvalidSeeds => 1u32,
            StakeDepositInterceptorError::AlreadyInUse => 2u32,
            StakeDepositInterceptorError::InvalidStakePool => 3u32,
            StakeDepositInterceptorError::InvalidStakePoolManager => 4u32,
            StakeDepositInterceptorError::InvalidAuthority => 5u32,
            StakeDepositInterceptorError::InvalidStakePoolDepositStakeAuthority => 6u32,
            StakeDepositInterceptorError::InvalidVault => 7u32,
            StakeDepositInterceptorError::InvalidTokenProgram => 8u32,
            StakeDepositInterceptorError::InvalidDepositReceipt => 9u32,
            StakeDepositInterceptorError::InvalidDepositReceiptOwner => 10u32,
            StakeDepositInterceptorError::InvalidFeeTokenAccount => 11u32,
            StakeDepositInterceptorError::InvalidDestinationTokenAccount => 12u32,
            StakeDepositInterceptorError::ActiveCooldown => 13u32,
            StakeDepositInterceptorError::InitialFeeRateMaxExceeded => 14u32,
        }
    }
}

/// The errors an instruction of this program can end with: one of the
/// program's own codes, or a generic host-level error.
#[derive(Clone, Copy, Debug, PartialEq, Eq, Structural)]
pub enum ProgramError {
    /// One of the program's own error codes.
    Interceptor(StakeDepositInterceptorError),
    /// An account is owned by the wrong program.
    IncorrectProgramId,
    /// An account has the wrong owner for the requested operation.
    InvalidAccountOwner,
    /// Attempt to initialize an account that already holds data.
    AccountAlreadyInitialized,
    /// Account data could not be read as the expected record.
    InvalidAccountData,
    /// An argument given to the instruction is not acceptable.
    InvalidArgument,
    /// An address could not be re-derived from stored seeds and bump.
    InvalidSeeds,
    /// The instruction ran out of account slots while reading its inputs.
    NotEnoughAccountKeys,
    /// The instruction payload could not be decoded.
    InvalidInstructionData,
    /// Arithmetic left the machine range; the transaction fails closed.
    ArithmeticOverflow,
}

} // verus!
