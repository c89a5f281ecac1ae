use vstd::prelude::*;

verus! {

/// The program's own error kinds, surfaced to the host as `ProgramError::Custom(code)`.
#[derive(Debug, Clone, Copy, PartialEq, Eq, Structural)]
pub enum TokenCreateError {
    /// Malformed or unknown instruction, truncated payload, or a caller that is not the authority.
    InvalidInstruction,
    /// An account is not funded enough to be rent exempt.
    NotRentExempt,
    /// A quantity differs from the one expected.
    ExpectedAmountMismatch,
    /// A quantity does not fit the width the ledger service takes.
    AmountOverflow,
}

impl TokenCreateError {
    /// The fixed numeric code of each error kind.
    pub open spec fn spec_code(self) -> u32 {
        match self {
            TokenCreateError::InvalidInstruction => 0,
            TokenCreateError::NotRentExempt => 1,
            TokenCreateError::ExpectedAmountMismatch => 2,
            TokenCreateError::AmountOverflow => 3,
        }
    }

    pub fn code(&self) -> (r: u32)
        ensures
            r == self.spec_code(),
    {
        match self {
            TokenCreateError::InvalidInstruction => 0,
            TokenCreateError::NotRentExempt => 1,
            TokenCreateError::ExpectedAmountMismatch => 2,
            TokenCreateError::AmountOverflow => 3,
        }
    }

    /// The error kind whose code is `code`, if any.
    pub fn from_code(code: u32) -> (r: Option<TokenCreateError>)
        ensures
            r is Some <==> code <= 3,
            r matches Some(e) ==> e.spec_code() == code,
    {
        if code == 0 {
            Some(TokenCreateError::InvalidInstruction)
        } else if code == 1 {
            Some(TokenCreateError::NotRentExempt)
        } else if code == 2 {
            Some(TokenCreateError::ExpectedAmountMismatch)
        } else if code == 3 {
            Some(TokenCreateError::AmountOverflow)
        } else {
            None
        }
    }
}

/// The host runtime's error kinds that this program returns.
#[derive(Debug, Clone, Copy, PartialEq, Eq, Structural)]
pub enum ProgramError {
    /// A program-defined error, by its code.
    Custom(u32),
    /// Fewer accounts were passed than the operation takes.
    NotEnoughAccountKeys,
    /// A required signature is missing.
    MissingRequiredSignature,
    /// The account already holds an initialized record.
    AccountAlreadyInitialized,
    /// The account does not hold an initialized record.
    UninitializedAccount,
    /// The account's bytes are not a record.
    InvalidAccountData,
    /// The account's storage is smaller than a record.
    AccountDataTooSmall,
}

/// The host error for a program error kind.
pub open spec fn custom(e: TokenCreateError) -> ProgramError {
    ProgramError::Custom(e.spec_code())
}

impl From<TokenCreateError> for ProgramError {
    fn from(e: TokenCreateError) -> (r: ProgramError) {
        ProgramError::Custom(e.code())
    }
}

impl vstd::std_specs::convert::FromSpecImpl<TokenCreateError> for ProgramError {
    open spec fn obeys_from_spec() -> bool {
        true
    }

    open spec fn from_spec(e: TokenCreateError) -> ProgramError {
        custom(e)
    }
}

/// Each code names at most one error kind, and every kind's code leads back to it.
pub proof fn lemma_code_round_trip(e: TokenCreateError, f: TokenCreateError)
    ensures
        e.spec_code() <= 3,
        e.spec_code() == f.spec_code() ==> e == f,
{
}

} // verus!
