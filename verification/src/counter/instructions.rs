//! The operations of the counter program and their wire format: one tag
//! byte, then the operand if the operation has one.

use vstd::prelude::*;
use vstd::slice::slice_subrange;
use vstd::std_specs::convert::FromSpecImpl;
use crate::error::ProgramError;
use crate::wire::{i64_from_le, read_i64};

verus! {

/// Instructions that are decoded from the bytes that the host hands over.
pub trait Unpack: Sized {
    /// The instruction that the bytes stand for, if any.
    spec fn unpacked(input: Seq<u8>) -> Option<Self>;

    /// Decodes the bytes: the instruction they stand for, or
    /// `InvalidInstructionData` where they stand for none.
    fn unpack(input: &[u8]) -> (r: Result<Self, ProgramError>)
        ensures
            r == (match Self::unpacked(input@) {
                Some(instruction) => Ok(instruction),
                None => Err(ProgramError::InvalidInstructionData),
            }),
    ;
}

/// One operation on a counter.
#[derive(Clone, Copy, Debug, PartialEq, Eq, Structural)]
pub enum CounterInstruction {
    /// Create the counter with this value.
    InitCounter { init_value: i64 },
    /// Add one.
    IncCounter,
    /// Subtract one.
    DecCounter,
}

impl CounterInstruction {
    /// The tag byte that selects this operation.
    pub open spec fn tag(self) -> u8 {
        match self {
            CounterInstruction::InitCounter { .. } => 0,
            CounterInstruction::IncCounter => 1,
            CounterInstruction::DecCounter => 2,
        }
    }

    /// The operation that instruction bytes stand for, if any. Tag 0 needs
    /// eight more bytes, the initial value; bytes after the operation are
    /// ignored.
    pub open spec fn decoded(input: Seq<u8>) -> Option<CounterInstruction> {
        if input.len() == 0 {
            None
        } else if input[0] == 0 {
            if input.len() >= 9 {
                Some(CounterInstruction::InitCounter { init_value: i64_from_le(input.subrange(1, 9)) })
            } else {
                None
            }
        } else if input[0] == 1 {
            Some(CounterInstruction::IncCounter)
        } else if input[0] == 2 {
            Some(CounterInstruction::DecCounter)
        } else {
            None
        }
    }

    /// Decodes the instruction bytes that the host hands over.
    pub fn unpack(input: &[u8]) -> (r: Result<CounterInstruction, ProgramError>)
        ensures
            r == (match Self::decoded(input@) {
                Some(instruction) => Ok(instruction),
                None => Err(ProgramError::InvalidInstructionData),
            }),
    {
        if input.len() == 0 {
            return Err(ProgramError::InvalidInstructionData);
        }
        let tag: u8 = input[0];
        if tag == 0 {
            if input.len() < 9 {
                return Err(ProgramError::InvalidInstructionData);
            }
            match read_i64(slice_subrange(input, 1, 9)) {
                Some(init_value) => Ok(CounterInstruction::InitCounter { init_value }),
                None => Err(ProgramError::InvalidInstructionData),
            }
        } else if tag == 1 {
            Ok(CounterInstruction::IncCounter)
        } else if tag == 2 {
            Ok(CounterInstruction::DecCounter)
        } else {
            Err(ProgramError::InvalidInstructionData)
        }
    }
}

impl Unpack for CounterInstruction {
    open spec fn unpacked(input: Seq<u8>) -> Option<CounterInstruction> {
        CounterInstruction::decoded(input)
    }

    fn unpack(input: &[u8]) -> (r: Result<CounterInstruction, ProgramError>) {
        CounterInstruction::unpack(input)
    }
}

impl From<CounterInstruction> for u8 {
    fn from(instruction: CounterInstruction) -> (r: u8) {
        match instruction {
            CounterInstruction::InitCounter { init_value: _ } => 0,
            CounterInstruction::IncCounter => 1,
            CounterInstruction::DecCounter => 2,
        }
    }
}

impl FromSpecImpl<CounterInstruction> for u8 {
    open spec fn obeys_from_spec() -> bool {
        true
    }

    open spec fn from_spec(instruction: CounterInstruction) -> u8 {
        instruction.tag()
    }
}

/// A tag byte above 2 names no operation, whatever follows it.
pub proof fn lemma_unknown_tag_rejected(input: Seq<u8>)
    requires
        input.len() > 0,
        input[0] > 2,
    ensures
        CounterInstruction::decoded(input) is None,
{
}

/// An operation's tag byte, followed by the operand where it has one and
/// then by anything at all, decodes to that operation.
pub proof fn lemma_tagged_bytes_decode(instruction: CounterInstruction, rest: Seq<u8>)
    requires
        instruction matches CounterInstruction::InitCounter { init_value } ==> rest.len() >= 8
            && i64_from_le(rest.subrange(0, 8)) == init_value,
    ensures
        CounterInstruction::decoded(seq![instruction.tag()] + rest) == Some(instruction),
{
    let input = seq![instruction.tag()] + rest;
    if instruction is InitCounter {
        assert(input.subrange(1, 9) =~= rest.subrange(0, 8));
    }
}

} // verus!
