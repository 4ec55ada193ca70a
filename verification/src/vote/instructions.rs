//! The operations of the vote program and their wire format: one tag byte.

use vstd::prelude::*;
use vstd::std_specs::convert::FromSpecImpl;
use crate::error::ProgramError;

verus! {

/// One operation on a vote.
#[derive(Clone, Copy, Debug, PartialEq, Eq, Structural)]
pub enum VoteInstruction {
    /// Open a vote.
    CreateVote,
    /// Close the vote and hand its funds on.
    CloseVote,
    /// Raise the score by one.
    AddVote,
    /// Lower the score by one.
    RemoveVote,
}

impl VoteInstruction {
    /// The tag byte that selects this operation.
    pub open spec fn tag(self) -> u8 {
        match self {
            VoteInstruction::CreateVote => 0,
            VoteInstruction::CloseVote => 1,
            VoteInstruction::AddVote => 2,
            VoteInstruction::RemoveVote => 3,
        }
    }

    /// The operation that instruction bytes stand for, if any. Only the
    /// first byte is read.
    pub open spec fn decoded(input: Seq<u8>) -> Option<VoteInstruction> {
        if input.len() == 0 {
            None
        } else if input[0] == 0 {
            Some(VoteInstruction::CreateVote)
        } else if input[0] == 1 {
            Some(VoteInstruction::CloseVote)
        } else if input[0] == 2 {
            Some(VoteInstruction::AddVote)
        } else if input[0] == 3 {
            Some(VoteInstruction::RemoveVote)
        } else {
            None
        }
    }

    /// Decodes the instruction bytes that the host hands over.
    pub fn unpack(input: &[u8]) -> (r: Result<VoteInstruction, ProgramError>)
        ensures
            r == (match Self::decoded(input@) {
                Some(instruction) => Ok(instruction),
                None => Err(ProgramError::InvalidInstructionData),
            }),
    {
        if input.len() == 0 {
            return Err(ProgramError::InvalidInstructionData);
        }
        let tag: u8 = input[0];
        if tag == 0 {
            Ok(VoteInstruction::CreateVote)
        } else if tag == 1 {
            Ok(VoteInstruction::CloseVote)
        } else if tag == 2 {
            Ok(VoteInstruction::AddVote)
        } else if tag == 3 {
            Ok(VoteInstruction::RemoveVote)
        } else {
            Err(ProgramError::InvalidInstructionData)
        }
    }
}

impl From<VoteInstruction> for u8 {
    fn from(instruction: VoteInstruction) -> (r: u8) {
        match instruction {
            VoteInstruction::CreateVote => 0,
            VoteInstruction::CloseVote => 1,
            VoteInstruction::AddVote => 2,
            VoteInstruction::RemoveVote => 3,
        }
    }
}

impl FromSpecImpl<VoteInstruction> for u8 {
    open spec fn obeys_from_spec() -> bool {
        true
    }

    open spec fn from_spec(instruction: VoteInstruction) -> u8 {
        instruction.tag()
    }
}

/// A tag byte above 3 names no operation, whatever follows it.
pub proof fn lemma_unknown_tag_rejected(input: Seq<u8>)
    requires
        input.len() > 0,
        input[0] > 3,
    ensures
        VoteInstruction::decoded(input) is None,
{
}

/// An operation's tag byte, followed by anything at all, decodes to that
/// operation.
pub proof fn lemma_tagged_bytes_decode(instruction: VoteInstruction, rest: Seq<u8>)
    ensures
        VoteInstruction::decoded(seq![instruction.tag()] + rest) == Some(instruction),
{
}

} // verus!
