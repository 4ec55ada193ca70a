//! The vote program's single call surface: decode, then dispatch.

use vstd::prelude::*;
use crate::account::{Account, AccountView, AllocationRequest, AllocationRequestView, ledger, reports};
use crate::address::Address;
use crate::error::ProgramError;
use crate::vote::instructions::VoteInstruction;
use crate::vote::processor::{
    add_vote_outcome,
    close_vote_outcome,
    create_vote_outcome,
    create_vote_plan,
    create_vote_request,
    process_add_vote,
    process_close_vote,
    process_create_vote,
    process_remove_vote,
    remove_vote_outcome,
};

verus! {

/// The allocation that an instruction needs from the host before it can be
/// carried out: `None` where it needs none.
pub open spec fn allocation_plan(
    program_id: Seq<u8>,
    accounts: Seq<AccountView>,
    instruction_data: Seq<u8>,
) -> Result<Option<AllocationRequestView>, ProgramError> {
    match VoteInstruction::decoded(instruction_data) {
        None => Err(ProgramError::InvalidInstructionData),
        Some(VoteInstruction::CreateVote) => match create_vote_plan(program_id, accounts) {
            Ok(plan) => Ok(Some(plan)),
            Err(e) => Err(e),
        },
        Some(_) => Ok(None),
    }
}

/// What an instruction does to the accounts. Bytes that decode to no
/// operation fail before any handler runs; otherwise the outcome is that of
/// the one handler that the operation selects.
pub open spec fn entrypoints_outcome(
    program_id: Seq<u8>,
    accounts: Seq<AccountView>,
    instruction_data: Seq<u8>,
    allocation: Result<(), u64>,
) -> Result<Seq<AccountView>, ProgramError> {
    match VoteInstruction::decoded(instruction_data) {
        None => Err(ProgramError::InvalidInstructionData),
        Some(VoteInstruction::CreateVote) => create_vote_outcome(accounts, allocation),
        Some(VoteInstruction::CloseVote) => close_vote_outcome(program_id, accounts),
        Some(VoteInstruction::AddVote) => add_vote_outcome(program_id, accounts),
        Some(VoteInstruction::RemoveVote) => remove_vote_outcome(program_id, accounts),
    }
}

/// Tells the host which allocation, if any, to perform before it calls
/// `entrypoints` with the same instruction. No account is touched.
pub fn allocation_request(
    program_id: &Address,
    accounts: &Vec<Account>,
    instruction_data: &[u8],
) -> (r: Result<Option<AllocationRequest>, ProgramError>)
    ensures
        match allocation_plan(program_id@, ledger(accounts@), instruction_data@) {
            Ok(Some(plan)) => r is Ok && r.unwrap() is Some && r.unwrap().unwrap()@ == plan,
            Ok(None) => r == Ok::<Option<AllocationRequest>, ProgramError>(None),
            Err(e) => r == Err::<Option<AllocationRequest>, ProgramError>(e),
        },
{
    let instruction = match VoteInstruction::unpack(instruction_data) {
        Ok(instruction) => instruction,
        Err(e) => {
            return Err(e);
        },
    };
    match instruction {
        VoteInstruction::CreateVote => {
            match create_vote_request(program_id, accounts) {
                Ok(request) => Ok(Some(request)),
                Err(e) => Err(e),
            }
        },
        VoteInstruction::CloseVote => Ok(None),
        VoteInstruction::AddVote => Ok(None),
        VoteInstruction::RemoveVote => Ok(None),
    }
}

/// Carries out one instruction on the accounts that the host supplied.
/// `allocation` is the host's answer to the request that
/// `allocation_request` made for this instruction; operations that request
/// nothing do not read it.
pub fn entrypoints(
    program_id: &Address,
    accounts: &mut Vec<Account>,
    instruction_data: &[u8],
    allocation: Result<(), u64>,
) -> (r: Result<(), ProgramError>)
    ensures
        reports(
            entrypoints_outcome(
                program_id@,
                ledger(old(accounts)@),
                instruction_data@,
                allocation,
            ),
            ledger(old(accounts)@),
            ledger(final(accounts)@),
            r,
        ),
{
    let instruction = match VoteInstruction::unpack(instruction_data) {
        Ok(instruction) => instruction,
        Err(e) => {
            return Err(e);
        },
    };
    match instruction {
        VoteInstruction::CreateVote => process_create_vote(accounts, allocation),
        VoteInstruction::CloseVote => process_close_vote(program_id, accounts),
        VoteInstruction::AddVote => process_add_vote(program_id, accounts),
        VoteInstruction::RemoveVote => process_remove_vote(program_id, accounts),
    }
}

/// Adding or removing a vote, or closing one, on an account that the program
/// does not own fails with `IncorrectProgramId`, and every account stays as
/// it was. Closing reads two accounts, the others one.
pub proof fn lemma_foreign_account_refused(
    program_id: Seq<u8>,
    before: Seq<AccountView>,
    instruction_data: Seq<u8>,
    allocation: Result<(), u64>,
    after: Seq<AccountView>,
    r: Result<(), ProgramError>,
)
    requires
        VoteInstruction::decoded(instruction_data) matches Some(instruction) && (match instruction {
            VoteInstruction::CreateVote => false,
            VoteInstruction::CloseVote => before.len() >= 2,
            VoteInstruction::AddVote => before.len() >= 1,
            VoteInstruction::RemoveVote => before.len() >= 1,
        }),
        before[0].owner != program_id,
        reports(
            entrypoints_outcome(program_id, before, instruction_data, allocation),
            before,
            after,
            r,
        ),
    ensures
        r == Err::<(), ProgramError>(ProgramError::IncorrectProgramId),
        after == before,
{
}

/// Instruction bytes that are empty, or whose tag byte is above 3, fail with
/// `InvalidInstructionData` whatever follows the tag, and every account stays
/// as it was.
pub proof fn lemma_unknown_instruction_refused(
    program_id: Seq<u8>,
    before: Seq<AccountView>,
    instruction_data: Seq<u8>,
    allocation: Result<(), u64>,
    after: Seq<AccountView>,
    r: Result<(), ProgramError>,
)
    requires
        instruction_data.len() == 0 || instruction_data[0] > 3,
        reports(
            entrypoints_outcome(program_id, before, instruction_data, allocation),
            before,
            after,
            r,
        ),
    ensures
        r == Err::<(), ProgramError>(ProgramError::InvalidInstructionData),
        after == before,
{
}

/// The two calls agree. An instruction that `allocation_request` refuses
/// fails in `entrypoints` with the same error, and one that requests no
/// allocation has the same outcome whatever the host's answer is said to be.
pub proof fn lemma_request_and_dispatch_agree(
    program_id: Seq<u8>,
    accounts: Seq<AccountView>,
    instruction_data: Seq<u8>,
    allocation: Result<(), u64>,
    other: Result<(), u64>,
)
    ensures
        allocation_plan(program_id, accounts, instruction_data) matches Err(e)
            ==> entrypoints_outcome(program_id, accounts, instruction_data, allocation) == Err::<
            Seq<AccountView>,
            ProgramError,
        >(e),
        allocation_plan(program_id, accounts, instruction_data) == Ok::<
            Option<AllocationRequestView>,
            ProgramError,
        >(None) ==> entrypoints_outcome(program_id, accounts, instruction_data, allocation)
            == entrypoints_outcome(program_id, accounts, instruction_data, other),
{
}

} // verus!
