//! The error taxonomy of the program, and the runtime-level failures that an
//! instruction can surface without defining them itself.
use vstd::prelude::*;

verus! {

/// The typed errors that the handler bodies can raise. Their numeric codes
/// are stable: declaration order, offset by the fixed program-error base.
#[derive(Clone, Copy, Debug, PartialEq, Eq, Structural)]
pub enum ErrorCode {
    TitleTooLong,
    ContentTooLong,
    TitleEmpty,
    ContentEmpty,
    Unauthorized,
}

/// The base that program error codes are offset by.
pub const ERROR_CODE_BASE: u32 = 6000;

impl ErrorCode {
    /// The position of the variant in declaration order.
    pub open spec fn spec_index(self) -> u32 {
        match self {
            ErrorCode::TitleTooLong => 0,
            ErrorCode::ContentTooLong => 1,
            ErrorCode::TitleEmpty => 2,
            ErrorCode::ContentEmpty => 3,
            ErrorCode::Unauthorized => 4,
        }
    }

    /// The stable numeric code that clients match on.
    pub fn code(&self) -> (c: u32)
        ensures
            c == ERROR_CODE_BASE + self.spec_index(),
    {
        match self {
            ErrorCode::TitleTooLong => 6000,
            ErrorCode::ContentTooLong => 6001,
            ErrorCode::TitleEmpty => 6002,
            ErrorCode::ContentEmpty => 6003,
            ErrorCode::Unauthorized => 6004,
        }
    }

    /// The human-readable message paired with the code. The length bounds in
    /// the text name the byte limits that the handlers actually enforce.
    pub fn message(&self) -> (m: &'static str)
        ensures
            self is TitleTooLong ==> m@ == "Title cannot be more than 100 bytes."@,
            self is ContentTooLong ==> m@ == "Content cannot be more than 1090 bytes."@,
            self is TitleEmpty ==> m@ == "Title cannot be empty."@,
            self is ContentEmpty ==> m@ == "Content cannot be empty."@,
            self is Unauthorized ==> m@ == "Unauthorized"@,
    {
        match self {
            ErrorCode::TitleTooLong => "Title cannot be more than 100 bytes.",
            ErrorCode::ContentTooLong => "Content cannot be more than 1090 bytes.",
            ErrorCode::TitleEmpty => "Title cannot be empty.",
            ErrorCode::ContentEmpty => "Content cannot be empty.",
            ErrorCode::Unauthorized => "Unauthorized",
        }
    }
}

/// Everything an instruction can fail with: a typed program error from the
/// handler body, or a runtime-level failure raised by the account-constraint
/// layer before or around the body.
#[derive(Clone, Copy, Debug, PartialEq, Eq, Structural)]
pub enum ExecError {
    /// A handler-body check failed with its typed error.
    Program(ErrorCode),
    /// The supplied note account does not match the derived address, or no
    /// address could be derived from the seeds.
    ConstraintSeeds,
    /// Creation was asked for an account that already exists.
    AccountAlreadyInitialized,
    /// Update or deletion was asked for an account that does not exist.
    AccountNotInitialized,
    /// The payer cannot fund the rent reservation of a new account.
    InsufficientFunds,
}

} // verus!
