//! The faults that settlement can raise.
use vstd::prelude::*;

verus! {

/// The escrow's own faults, each with a stable numeric code.
#[derive(Clone, Copy, Debug, PartialEq, Eq)]
pub enum PinocchioError {
    /// A required signer is missing.
    NotSigner,
    /// The account is not owned by this program, or the authority is wrong.
    InvalidOwner,
    /// The account's bytes do not decode as what the slot demands.
    InvalidAccountData,
    /// The derived address does not match the claimed account.
    InvalidAddress,
}

/// A fault as the runtime sees it.
#[derive(Clone, Copy, Debug, PartialEq, Eq)]
pub enum ProgramError {
    /// One of the escrow's own faults, by its code.
    Custom(u32),
    /// A value that stands for nothing.
    InvalidArgument,
    /// The account list is not of the required arity.
    NotEnoughAccountKeys,
    /// A transfer asked for more than the source holds.
    InsufficientFunds,
    /// A balance would exceed what 64 bits hold.
    ArithmeticOverflow,
}

impl PinocchioError {
    /// The stable numeric code of a fault.
    pub open spec fn spec_code(self) -> u32 {
        match self {
            PinocchioError::NotSigner => 0,
            PinocchioError::InvalidOwner => 1,
            PinocchioError::InvalidAccountData => 2,
            PinocchioError::InvalidAddress => 3,
        }
    }

    /// The fault that a code stands for, if any.
    pub open spec fn spec_from_code(code: u32) -> Option<PinocchioError> {
        if code == 0 {
            Some(PinocchioError::NotSigner)
        } else if code == 1 {
            Some(PinocchioError::InvalidOwner)
        } else if code == 2 {
            Some(PinocchioError::InvalidAccountData)
        } else if code == 3 {
            Some(PinocchioError::InvalidAddress)
        } else {
            None
        }
    }

    /// The message of a fault for the runtime's log.
    pub open spec fn spec_to_str(self) -> Seq<char> {
        match self {
            PinocchioError::NotSigner => "Error: Not signer of the transaction"@,
            PinocchioError::InvalidOwner => "Error: Invalid account owner"@,
            PinocchioError::InvalidAccountData => "Error: Invalid account data"@,
            PinocchioError::InvalidAddress => "Error: Invalid address"@,
        }
    }

    /// The short description of a fault.
    pub open spec fn spec_message(self) -> Seq<char> {
        match self {
            PinocchioError::NotSigner => "Not the signer"@,
            PinocchioError::InvalidOwner => "Invalid owner account"@,
            PinocchioError::InvalidAccountData => "Invalid account data"@,
            PinocchioError::InvalidAddress => "Invalid address"@,
        }
    }

    /// The runtime fault that carries this fault's code.
    pub open spec fn spec_program_error(self) -> ProgramError {
        ProgramError::Custom(self.spec_code())
    }

    /// The stable numeric code of a fault.
    pub fn code(&self) -> (c: u32)
        ensures
            c == self.spec_code(),
    {
        match self {
            PinocchioError::NotSigner => 0,
            PinocchioError::InvalidOwner => 1,
            PinocchioError::InvalidAccountData => 2,
            PinocchioError::InvalidAddress => 3,
        }
    }

    /// Decodes a numeric code; any code that names no fault is an invalid
    /// argument.
    pub fn try_from(error: u32) -> (r: Result<PinocchioError, ProgramError>)
        ensures
            r == match PinocchioError::spec_from_code(error) {
                Some(e) => Ok::<PinocchioError, ProgramError>(e),
                None => Err::<PinocchioError, ProgramError>(ProgramError::InvalidArgument),
            },
    {
        match error {
            0 => Ok(PinocchioError::NotSigner),
            1 => Ok(PinocchioError::InvalidOwner),
            2 => Ok(PinocchioError::InvalidAccountData),
            3 => Ok(PinocchioError::InvalidAddress),
            _ => Err(ProgramError::InvalidArgument),
        }
    }

    /// The short description of a fault, as it is displayed.
    pub fn message(&self) -> (s: &'static str)
        ensures
            s@ == self.spec_message(),
    {
        match self {
            PinocchioError::NotSigner => "Not the signer",
            PinocchioError::InvalidOwner => "Invalid owner account",
            PinocchioError::InvalidAccountData => "Invalid account data",
            PinocchioError::InvalidAddress => "Invalid address",
        }
    }

    /// The message of a fault for the runtime's log.
    pub fn to_str(&self) -> (s: &'static str)
        ensures
            s@ == self.spec_to_str(),
    {
        match self {
            PinocchioError::NotSigner => "Error: Not signer of the transaction",
            PinocchioError::InvalidOwner => "Error: Invalid account owner",
            PinocchioError::InvalidAccountData => "Error: Invalid account data",
            PinocchioError::InvalidAddress => "Error: Invalid address",
        }
    }
}

impl From<PinocchioError> for ProgramError {
    fn from(error: PinocchioError) -> (r: ProgramError) {
        ProgramError::Custom(error.code())
    }
}

impl vstd::std_specs::convert::FromSpecImpl<PinocchioError> for ProgramError {
    open spec fn obeys_from_spec() -> bool {
        true
    }

    open spec fn from_spec(error: PinocchioError) -> ProgramError {
        error.spec_program_error()
    }
}

/// Encoding a fault and decoding its code gives the fault back.
pub proof fn code_round_trip(e: PinocchioError)
    ensures
        PinocchioError::spec_from_code(e.spec_code()) == Some(e),
{
}

} // verus!
