use vstd::prelude::*;

verus! {

/// The program's own failure taxonomy. Each variant has a stable numeric
/// code, its position in the list, so that callers can match on it.
#[derive(Debug, Clone, Copy, PartialEq, Eq, Structural)]
pub enum CardError {
    InvalidOwner,
    InvalidMint,
    InvalidInstruction,
    NotRentExempt,
    ExpectedAmountMismatch,
    InvalidAuthorityId,
    AmountOverflow,
    AccountAlreadySettled,
    AccountAlreadyCanceled,
    FeeOverflow,
    AccountNotSettledOrCanceled,
    AccountNotInitialized,
    MathOverflow,
    InvalidDepositKey,
    InvalidWithdrawKey,
    InvalidEscrowKey,
    InvalidVaultOwner,
    InvalidVaultTokenOwner,
    InvalidSrcTokenOwner,
    InvalidDstTokenOwner,
    InvalidFeeTokenOwner,
    InvalidDepositTokenOwner,
    InvalidWithdrawTokenOwner,
}

impl CardError {
    /// The stable numeric code of a variant: its position in the taxonomy.
    pub open spec fn spec_code(self) -> u32 {
        match self {
            CardError::InvalidOwner => 0,
            CardError::InvalidMint => 1,
            CardError::InvalidInstruction => 2,
            CardError::NotRentExempt => 3,
            CardError::ExpectedAmountMismatch => 4,
            CardError::InvalidAuthorityId => 5,
            CardError::AmountOverflow => 6,
            CardError::AccountAlreadySettled => 7,
            CardError::AccountAlreadyCanceled => 8,
            CardError::FeeOverflow => 9,
            CardError::AccountNotSettledOrCanceled => 10,
            CardError::AccountNotInitialized => 11,
            CardError::MathOverflow => 12,
            CardError::InvalidDepositKey => 13,
            CardError::InvalidWithdrawKey => 14,
            CardError::InvalidEscrowKey => 15,
            CardError::InvalidVaultOwner => 16,
            CardError::InvalidVaultTokenOwner => 17,
            CardError::InvalidSrcTokenOwner => 18,
            CardError::InvalidDstTokenOwner => 19,
            CardError::InvalidFeeTokenOwner => 20,
            CardError::InvalidDepositTokenOwner => 21,
            CardError::InvalidWithdrawTokenOwner => 22,
        }
    }

    /// Numeric code surfaced to callers as a custom ledger error.
    pub fn code(&self) -> (r: u32)
        ensures
            r == self.spec_code(),
    {
        match self {
            CardError::InvalidOwner => 0,
            CardError::InvalidMint => 1,
            CardError::InvalidInstruction => 2,
            CardError::NotRentExempt => 3,
            CardError::ExpectedAmountMismatch => 4,
            CardError::InvalidAuthorityId => 5,
            CardError::AmountOverflow => 6,
            CardError::AccountAlreadySettled => 7,
            CardError::AccountAlreadyCanceled => 8,
            CardError::FeeOverflow => 9,
            CardError::AccountNotSettledOrCanceled => 10,
            CardError::AccountNotInitialized => 11,
            CardError::MathOverflow => 12,
            CardError::InvalidDepositKey => 13,
            CardError::InvalidWithdrawKey => 14,
            CardError::InvalidEscrowKey => 15,
            CardError::InvalidVaultOwner => 16,
            CardError::InvalidVaultTokenOwner => 17,
            CardError::InvalidSrcTokenOwner => 18,
            CardError::InvalidDstTokenOwner => 19,
            CardError::InvalidFeeTokenOwner => 20,
            CardError::InvalidDepositTokenOwner => 21,
            CardError::InvalidWithdrawTokenOwner => 22,
        }
    }
}

/// Every way an operation of the program can fail: the program's own
/// taxonomy, and the ledger-level conditions its operations run into.
#[derive(Debug, Clone, Copy, PartialEq, Eq, Structural)]
pub enum ProgramError {
    /// One of the program's own failures.
    Custom(CardError),
    /// A required principal did not authorize the operation.
    MissingRequiredSignature,
    /// The account already holds a record, or already exists.
    AccountAlreadyInitialized,
    /// A record was expected to be initialized and is not.
    UninitializedAccount,
    /// The bytes of an account have the wrong length for the record.
    InvalidAccountData,
    /// A supplied account is not the expected one.
    InvalidArgument,
    /// An instruction payload could not be decoded.
    InvalidInstructionData,
    /// Stored bytes could not be decoded as the record's fields.
    InvalidRecordEncoding,
    /// A balance would go below zero.
    InsufficientFunds,
    /// A balance would exceed the integer range.
    ArithmeticOverflow,
    /// Space or ownership was requested for an account already in use.
    AccountAlreadyInUse,
    /// A token transfer was authorized by someone other than the owner.
    TokenOwnerMismatch,
    /// A token transfer was attempted between accounts of different mints.
    TokenMintMismatch,
}

impl From<CardError> for ProgramError {
    /// A failure of the program's own taxonomy, as a custom ledger error.
    fn from(e: CardError) -> (r: ProgramError) {
        ProgramError::Custom(e)
    }
}

impl vstd::std_specs::convert::FromSpecImpl<CardError> for ProgramError {
    open spec fn obeys_from_spec() -> bool {
        true
    }

    open spec fn from_spec(e: CardError) -> ProgramError {
        ProgramError::Custom(e)
    }
}

} // verus!
