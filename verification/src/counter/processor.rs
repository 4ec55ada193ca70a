//! The handlers of the counter program, one per operation.

use vstd::prelude::*;
use crate::account::{Account, AccountView, AllocationRequest, AllocationRequestView, ledger, reports};
use crate::address::Address;
use crate::counter::error::CustomError;
use crate::counter::state::{lemma_counter_round_trip, CounterAccount};
use crate::error::ProgramError;

verus! {

/// The allocation that creating a counter asks for, read off the accounts
/// `[target, payer, system]`: an eight-byte buffer at the target's address,
/// paid for by the payer and owned by the program.
pub open spec fn initialize_counter_plan(
    program_id: Seq<u8>,
    accounts: Seq<AccountView>,
) -> Result<AllocationRequestView, ProgramError> {
    if accounts.len() < 3 {
        Err(ProgramError::NotEnoughAccountKeys)
    } else {
        Ok(
            AllocationRequestView {
                payer: accounts[1].address,
                new_account: accounts[0].address,
                space: 8,
                owner: program_id,
            },
        )
    }
}

/// What creating a counter does to the accounts `[target, payer, system]`
/// once the host has answered the allocation request: the record with the
/// initial value is written over the first eight bytes of the target's buffer.
pub open spec fn initialize_counter_outcome(
    accounts: Seq<AccountView>,
    initial_value: i64,
    allocation: Result<(), u64>,
) -> Result<Seq<AccountView>, ProgramError> {
    if accounts.len() < 3 {
        Err(ProgramError::NotEnoughAccountKeys)
    } else if allocation is Err {
        Err(ProgramError::AllocationFailed(allocation->Err_0))
    } else if accounts[0].data.len() < 8 {
        Err(ProgramError::InvalidAccountData)
    } else {
        Ok(
            accounts.update(
                0,
                AccountView {
                    data: CounterAccount { count: initial_value }.encoded() + accounts[0].data.skip(
                        8,
                    ),
                    ..accounts[0]
                },
            ),
        )
    }
}

/// What changing a counter by `direction` does to the accounts `[target]`.
/// The target must be owned by the program and hold a record; the sum must
/// stay within the signed 64-bit range.
pub open spec fn change_counter_outcome(
    program_id: Seq<u8>,
    accounts: Seq<AccountView>,
    direction: i64,
) -> Result<Seq<AccountView>, ProgramError> {
    if accounts.len() < 1 {
        Err(ProgramError::NotEnoughAccountKeys)
    } else if accounts[0].owner != program_id {
        Err(ProgramError::IncorrectProgramId)
    } else {
        match CounterAccount::decoded(accounts[0].data) {
            None => Err(ProgramError::InvalidAccountData),
            Some(record) => {
                if record.count + direction > i64::MAX {
                    Err(ProgramError::Custom(CustomError::Overflow.code()))
                } else if record.count + direction < i64::MIN {
                    Err(ProgramError::Custom(CustomError::Underflow.code()))
                } else {
                    Ok(
                        accounts.update(
                            0,
                            AccountView {
                                data: CounterAccount {
                                    count: (record.count + direction) as i64,
                                }.encoded(),
                                ..accounts[0]
                            },
                        ),
                    )
                }
            },
        }
    }
}

/// The first half of creating a counter: the request to put to the host's
/// allocator. No account is touched.
pub fn initialize_counter_request(program_id: &Address, accounts: &Vec<Account>) -> (r: Result<
    AllocationRequest,
    ProgramError,
>)
    ensures
        match initialize_counter_plan(program_id@, ledger(accounts@)) {
            Ok(plan) => r is Ok && r.unwrap()@ == plan,
            Err(e) => r == Err::<AllocationRequest, ProgramError>(e),
        },
{
    if accounts.len() < 3 {
        return Err(ProgramError::NotEnoughAccountKeys);
    }
    Ok(
        AllocationRequest {
            payer: accounts[1].address,
            new_account: accounts[0].address,
            space: 8,
            owner: *program_id,
        },
    )
}

/// The second half of creating a counter. `allocation` is the host's answer
/// to the request of `initialize_counter_request`, and `accounts` are the
/// accounts as the host left them.
pub fn process_initialize_counter(
    accounts: &mut Vec<Account>,
    initial_value: i64,
    allocation: Result<(), u64>,
) -> (r: Result<(), ProgramError>)
    ensures
        reports(
            initialize_counter_outcome(ledger(old(accounts)@), initial_value, allocation),
            ledger(old(accounts)@),
            ledger(final(accounts)@),
            r,
        ),
{
    if accounts.len() < 3 {
        return Err(ProgramError::NotEnoughAccountKeys);
    }
    if let Err(code) = allocation {
        return Err(ProgramError::AllocationFailed(code));
    }
    let counter_data = CounterAccount { count: initial_value };
    let r = counter_data.serialize(&mut accounts[0].data);
    proof {
        if r is Ok {
            assert(ledger(accounts@) =~= initialize_counter_outcome(
                ledger(old(accounts)@),
                initial_value,
                allocation,
            ).unwrap());
        } else {
            assert(ledger(accounts@) =~= ledger(old(accounts)@));
        }
    }
    r
}

/// Adds `direction` to the counter in the first account: 1 to increment, -1
/// to decrement.
pub fn process_change_counter(program_id: &Address, accounts: &mut Vec<Account>, direction: i64) -> (r:
    Result<(), ProgramError>)
    ensures
        reports(
            change_counter_outcome(program_id@, ledger(old(accounts)@), direction),
            ledger(old(accounts)@),
            ledger(final(accounts)@),
            r,
        ),
{
    if accounts.len() < 1 {
        return Err(ProgramError::NotEnoughAccountKeys);
    }
    if !accounts[0].owner.same(program_id) {
        return Err(ProgramError::IncorrectProgramId);
    }
    let mut counter_data = match CounterAccount::try_from_slice(accounts[0].data.as_slice()) {
        Ok(record) => record,
        Err(e) => {
            return Err(e);
        },
    };
    counter_data.count = match counter_data.count.checked_add(direction) {
        Some(count) => count,
        None => {
            if direction > 0 {
                return Err(ProgramError::from(CustomError::Overflow));
            } else {
                return Err(ProgramError::from(CustomError::Underflow));
            }
        },
    };
    let r = counter_data.serialize(&mut accounts[0].data);
    proof {
        assert(ledger(accounts@) =~= change_counter_outcome(
            program_id@,
            ledger(old(accounts)@),
            direction,
        ).unwrap());
    }
    r
}

/// A counter created in a buffer of exactly eight bytes reads back as the
/// initial value, and nothing but the target's buffer has changed.
pub proof fn lemma_initialized_counter_reads_back(
    before: Seq<AccountView>,
    initial_value: i64,
    after: Seq<AccountView>,
    r: Result<(), ProgramError>,
)
    requires
        before.len() >= 3,
        before[0].data.len() == 8,
        reports(
            initialize_counter_outcome(before, initial_value, Ok(())),
            before,
            after,
            r,
        ),
    ensures
        r is Ok,
        after.len() == before.len(),
        CounterAccount::decoded(after[0].data) == Some(CounterAccount { count: initial_value }),
        after[0].owner == before[0].owner,
        after[0].balance == before[0].balance,
        after[0].address == before[0].address,
        forall|i: int| 1 <= i < before.len() ==> after[i] == before[i],
{
    lemma_counter_round_trip(CounterAccount { count: initial_value });
    assert(after[0].data =~= CounterAccount { count: initial_value }.encoded());
}

/// Incrementing a counter that holds the largest signed 64-bit value fails
/// with `Overflow`, and every account stays as it was.
pub proof fn lemma_increment_at_max_overflows(
    program_id: Seq<u8>,
    before: Seq<AccountView>,
    after: Seq<AccountView>,
    r: Result<(), ProgramError>,
)
    requires
        before.len() >= 1,
        before[0].owner == program_id,
        CounterAccount::decoded(before[0].data) == Some(CounterAccount { count: i64::MAX }),
        reports(change_counter_outcome(program_id, before, 1i64), before, after, r),
    ensures
        r == Err::<(), ProgramError>(ProgramError::Custom(CustomError::Overflow.code())),
        after == before,
        CounterAccount::decoded(after[0].data) == Some(CounterAccount { count: i64::MAX }),
{
}

/// Decrementing a counter that holds the smallest signed 64-bit value fails
/// with `Underflow`, and every account stays as it was.
pub proof fn lemma_decrement_at_min_underflows(
    program_id: Seq<u8>,
    before: Seq<AccountView>,
    after: Seq<AccountView>,
    r: Result<(), ProgramError>,
)
    requires
        before.len() >= 1,
        before[0].owner == program_id,
        CounterAccount::decoded(before[0].data) == Some(CounterAccount { count: i64::MIN }),
        reports(change_counter_outcome(program_id, before, -1i64), before, after, r),
    ensures
        r == Err::<(), ProgramError>(ProgramError::Custom(CustomError::Underflow.code())),
        after == before,
        CounterAccount::decoded(after[0].data) == Some(CounterAccount { count: i64::MIN }),
{
}

/// A change that stays in range is read back as the old count plus the
/// change, and touches nothing but the target's buffer.
pub proof fn lemma_change_in_range(
    program_id: Seq<u8>,
    before: Seq<AccountView>,
    direction: i64,
    count: i64,
    after: Seq<AccountView>,
    r: Result<(), ProgramError>,
)
    requires
        before.len() >= 1,
        before[0].owner == program_id,
        CounterAccount::decoded(before[0].data) == Some(CounterAccount { count }),
        i64::MIN <= count + direction <= i64::MAX,
        reports(change_counter_outcome(program_id, before, direction), before, after, r),
    ensures
        r is Ok,
        after.len() == before.len(),
        CounterAccount::decoded(after[0].data) == Some(
            CounterAccount { count: (count + direction) as i64 },
        ),
        after[0].owner == before[0].owner,
        after[0].balance == before[0].balance,
        after[0].address == before[0].address,
        forall|i: int| 1 <= i < before.len() ==> after[i] == before[i],
{
    lemma_counter_round_trip(CounterAccount { count: (count + direction) as i64 });
}

} // verus!
