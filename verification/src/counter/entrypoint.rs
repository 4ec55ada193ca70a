//! The counter program's single call surface: decode, then dispatch.

use vstd::prelude::*;
use crate::account::{Account, AccountView, AllocationRequest, AllocationRequestView, ledger, reports};
use crate::address::Address;
use crate::counter::instructions::CounterInstruction;
use crate::counter::processor::{
    change_counter_outcome,
    initialize_counter_outcome,
    initialize_counter_plan,
    initialize_counter_request,
    process_change_counter,
    process_initialize_counter,
};
use crate::error::ProgramError;

verus! {

/// The allocation that an instruction needs from the host before it can be
/// carried out: `None` where it needs none.
pub open spec fn allocation_plan(
    program_id: Seq<u8>,
    accounts: Seq<AccountView>,
    instruction_data: Seq<u8>,
) -> Result<Option<AllocationRequestView>, ProgramError> {
    match CounterInstruction::decoded(instruction_data) {
        None => Err(ProgramError::InvalidInstructionData),
        Some(CounterInstruction::InitCounter { .. }) => match initialize_counter_plan(
            program_id,
            accounts,
        ) {
            Ok(plan) => Ok(Some(plan)),
            Err(e) => Err(e),
        },
        Some(_) => Ok(None),
    }
}

/// What an instruction does to the accounts. Bytes that decode to no
/// operation fail before any handler runs; otherwise the outcome is that of
/// the one handler that the operation selects.
pub open spec fn entrypoints_outcome(
    program_id: Seq<u8>,
    accounts: Seq<AccountView>,
    instruction_data: Seq<u8>,
    allocation: Result<(), u64>,
) -> Result<Seq<AccountView>, ProgramError> {
    match CounterInstruction::decoded(instruction_data) {
        None => Err(ProgramError::InvalidInstructionData),
        Some(CounterInstruction::InitCounter { init_value }) => initialize_counter_outcome(
            accounts,
            init_value,
            allocation,
        ),
        Some(CounterInstruction::IncCounter) => change_counter_outcome(program_id, accounts, 1i64),
        Some(CounterInstruction::DecCounter) => change_counter_outcome(program_id, accounts, -1i64),
    }
}

/// Tells the host which allocation, if any, to perform before it calls
/// `entrypoints` with the same instruction. No account is touched.
pub fn allocation_request(
    program_id: &Address,
    accounts: &Vec<Account>,
    instruction_data: &[u8],
) -> (r: Result<Option<AllocationRequest>, ProgramError>)
    ensures
        match allocation_plan(program_id@, ledger(accounts@), instruction_data@) {
            Ok(Some(plan)) => r is Ok && r.unwrap() is Some && r.unwrap().unwrap()@ == plan,
            Ok(None) => r == Ok::<Option<AllocationRequest>, ProgramError>(None),
            Err(e) => r == Err::<Option<AllocationRequest>, ProgramError>(e),
        },
{
    let instruction = match CounterInstruction::unpack(instruction_data) {
        Ok(instruction) => instruction,
        Err(e) => {
            return Err(e);
        },
    };
    match instruction {
        CounterInstruction::InitCounter { init_value: _ } => {
            match initialize_counter_request(program_id, accounts) {
                Ok(request) => Ok(Some(request)),
                Err(e) => Err(e),
            }
        },
        CounterInstruction::IncCounter => Ok(None),
        CounterInstruction::DecCounter => Ok(None),
    }
}

/// Carries out one instruction on the accounts that the host supplied.
/// `allocation` is the host's answer to the request that
/// `allocation_request` made for this instruction; operations that request
/// nothing do not read it.
pub fn entrypoints(
    program_id: &Address,
    accounts: &mut Vec<Account>,
    instruction_data: &[u8],
    allocation: Result<(), u64>,
) -> (r: Result<(), ProgramError>)
    ensures
        reports(
            entrypoints_outcome(
                program_id@,
                ledger(old(accounts)@),
                instruction_data@,
                allocation,
            ),
            ledger(old(accounts)@),
            ledger(final(accounts)@),
            r,
        ),
{
    let instruction = match CounterInstruction::unpack(instruction_data) {
        Ok(instruction) => instruction,
        Err(e) => {
            return Err(e);
        },
    };
    match instruction {
        CounterInstruction::InitCounter { init_value } => {
            process_initialize_counter(accounts, init_value, allocation)
        },
        CounterInstruction::IncCounter => process_change_counter(program_id, accounts, 1),
        CounterInstruction::DecCounter => process_change_counter(program_id, accounts, -1),
    }
}

/// An increment or decrement aimed at an account that the program does not
/// own fails with `IncorrectProgramId`, and every account stays as it was.
pub proof fn lemma_foreign_account_refused(
    program_id: Seq<u8>,
    before: Seq<AccountView>,
    instruction_data: Seq<u8>,
    allocation: Result<(), u64>,
    after: Seq<AccountView>,
    r: Result<(), ProgramError>,
)
    requires
        CounterInstruction::decoded(instruction_data) == Some(CounterInstruction::IncCounter)
            || CounterInstruction::decoded(instruction_data) == Some(
            CounterInstruction::DecCounter,
        ),
        before.len() >= 1,
        before[0].owner != program_id,
        reports(
            entrypoints_outcome(program_id, before, instruction_data, allocation),
            before,
            after,
            r,
        ),
    ensures
        r == Err::<(), ProgramError>(ProgramError::IncorrectProgramId),
        after == before,
{
}

/// Instruction bytes that are empty, or whose tag byte is above 2, fail with
/// `InvalidInstructionData` whatever follows the tag, and every account stays
/// as it was.
pub proof fn lemma_unknown_instruction_refused(
    program_id: Seq<u8>,
    before: Seq<AccountView>,
    instruction_data: Seq<u8>,
    allocation: Result<(), u64>,
    after: Seq<AccountView>,
    r: Result<(), ProgramError>,
)
    requires
        instruction_data.len() == 0 || instruction_data[0] > 2,
        reports(
            entrypoints_outcome(program_id, before, instruction_data, allocation),
            before,
            after,
            r,
        ),
    ensures
        r == Err::<(), ProgramError>(ProgramError::InvalidInstructionData),
        after == before,
{
}

/// The two calls agree. An instruction that `allocation_request` refuses
/// fails in `entrypoints` with the same error, and one that requests no
/// allocation has the same outcome whatever the host's answer is said to be.
pub proof fn lemma_request_and_dispatch_agree(
    program_id: Seq<u8>,
    accounts: Seq<AccountView>,
    instruction_data: Seq<u8>,
    allocation: Result<(), u64>,
    other: Result<(), u64>,
)
    ensures
        allocation_plan(program_id, accounts, instruction_data) matches Err(e)
            ==> entrypoints_outcome(program_id, accounts, instruction_data, allocation) == Err::<
            Seq<AccountView>,
            ProgramError,
        >(e),
        allocation_plan(program_id, accounts, instruction_data) == Ok::<
            Option<AllocationRequestView>,
            ProgramError,
        >(None) ==> entrypoints_outcome(program_id, accounts, instruction_data, allocation)
            == entrypoints_outcome(program_id, accounts, instruction_data, other),
{
}

} // verus!
