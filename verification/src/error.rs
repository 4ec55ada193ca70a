//! The failures that a program reports to the host.

use vstd::prelude::*;

verus! {

/// Why an invocation failed. Every failure ends the invocation.
#[derive(Clone, Copy, Debug, PartialEq, Eq, Structural)]
pub enum ProgramError {
    /// The host supplied fewer accounts than the operation reads.
    NotEnoughAccountKeys,
    /// The instruction bytes name no operation, or stop short of its operand.
    InvalidInstructionData,
    /// The account's buffer does not hold a record.
    InvalidAccountData,
    /// The account is not owned by the invoked program.
    IncorrectProgramId,
    /// The host refused to create the account; the code is the host's own.
    AllocationFailed(u64),
    /// A failure that one program defines, by its code.
    Custom(u32),
}

} // verus!
