//! The handlers of the vote program, one per operation.

use vstd::prelude::*;
use crate::account::{Account, AccountView, AllocationRequest, AllocationRequestView, ledger, reports};
use crate::address::{system_owner, system_program_id, Address};
use crate::error::ProgramError;
use crate::vote::error::CustomError;
use crate::vote::state::{lemma_vote_round_trip, VoteAccount, VoteAccountView, NO_END_DATE};

verus! {

/// The allocation that opening a vote asks for, read off the accounts
/// `[target, payer, system]`: a buffer of 48 bytes at the target's address,
/// paid for by the payer and owned by the program.
pub open spec fn create_vote_plan(program_id: Seq<u8>, accounts: Seq<AccountView>) -> Result<
    AllocationRequestView,
    ProgramError,
> {
    if accounts.len() < 3 {
        Err(ProgramError::NotEnoughAccountKeys)
    } else {
        Ok(
            AllocationRequestView {
                payer: accounts[1].address,
                new_account: accounts[0].address,
                space: 48,
                owner: program_id,
            },
        )
    }
}

/// The record of a vote that `payer` has just opened: no deadline, score 0.
pub open spec fn fresh_vote(payer: Seq<u8>) -> VoteAccountView {
    VoteAccountView { owner: payer, end_date: NO_END_DATE, score: 0 }
}

/// What opening a vote does to the accounts `[target, payer, system]` once
/// the host has answered the allocation request: the fresh record is written
/// over the first 48 bytes of the target's buffer.
pub open spec fn create_vote_outcome(
    accounts: Seq<AccountView>,
    allocation: Result<(), u64>,
) -> Result<Seq<AccountView>, ProgramError> {
    if accounts.len() < 3 {
        Err(ProgramError::NotEnoughAccountKeys)
    } else if allocation is Err {
        Err(ProgramError::AllocationFailed(allocation->Err_0))
    } else if accounts[0].data.len() < 48 {
        Err(ProgramError::InvalidAccountData)
    } else {
        Ok(
            accounts.update(
                0,
                AccountView {
                    data: fresh_vote(accounts[1].address).encoded() + accounts[0].data.skip(48),
                    ..accounts[0]
                },
            ),
        )
    }
}

/// What changing the score by `delta` does to the accounts `[target]`. The
/// target must be owned by the program and hold a record; the new score must
/// stay within the signed 64-bit range.
pub open spec fn change_score_outcome(
    program_id: Seq<u8>,
    accounts: Seq<AccountView>,
    delta: i64,
) -> Result<Seq<AccountView>, ProgramError> {
    if accounts.len() < 1 {
        Err(ProgramError::NotEnoughAccountKeys)
    } else if accounts[0].owner != program_id {
        Err(ProgramError::IncorrectProgramId)
    } else {
        match VoteAccountView::decoded(accounts[0].data) {
            None => Err(ProgramError::InvalidAccountData),
            Some(record) => {
                if record.score + delta > i64::MAX {
                    Err(ProgramError::Custom(CustomError::Overflow.code()))
                } else if record.score + delta < i64::MIN {
                    Err(ProgramError::Custom(CustomError::Underflow.code()))
                } else {
                    Ok(
                        accounts.update(
                            0,
                            AccountView {
                                data: VoteAccountView {
                                    score: (record.score + delta) as i64,
                                    ..record
                                }.encoded(),
                                ..accounts[0]
                            },
                        ),
                    )
                }
            },
        }
    }
}

/// What adding a vote does to the accounts `[target]`: the score rises by
/// one.
pub open spec fn add_vote_outcome(program_id: Seq<u8>, accounts: Seq<AccountView>) -> Result<
    Seq<AccountView>,
    ProgramError,
> {
    change_score_outcome(program_id, accounts, 1i64)
}

/// What removing a vote does to the accounts `[target]`: the score falls by
/// one.
pub open spec fn remove_vote_outcome(program_id: Seq<u8>, accounts: Seq<AccountView>) -> Result<
    Seq<AccountView>,
    ProgramError,
> {
    change_score_outcome(program_id, accounts, -1i64)
}

/// What closing a vote does to the accounts `[source, destination]`. The
/// destination receives all of the source's balance; the source is left with
/// no balance and no data, and goes back to the system owner.
pub open spec fn close_vote_outcome(program_id: Seq<u8>, accounts: Seq<AccountView>) -> Result<
    Seq<AccountView>,
    ProgramError,
> {
    if accounts.len() < 2 {
        Err(ProgramError::NotEnoughAccountKeys)
    } else if accounts[0].owner != program_id {
        Err(ProgramError::IncorrectProgramId)
    } else if accounts[1].balance + accounts[0].balance > u64::MAX {
        Err(ProgramError::InvalidInstructionData)
    } else {
        Ok(
            accounts.update(
                1,
                AccountView {
                    balance: (accounts[1].balance + accounts[0].balance) as u64,
                    ..accounts[1]
                },
            ).update(
                0,
                AccountView {
                    owner: system_owner(),
                    balance: 0,
                    data: Seq::empty(),
                    ..accounts[0]
                },
            ),
        )
    }
}

/// The first half of opening a vote: the request to put to the host's
/// allocator. No account is touched.
pub fn create_vote_request(program_id: &Address, accounts: &Vec<Account>) -> (r: Result<
    AllocationRequest,
    ProgramError,
>)
    ensures
        match create_vote_plan(program_id@, ledger(accounts@)) {
            Ok(plan) => r is Ok && r.unwrap()@ == plan,
            Err(e) => r == Err::<AllocationRequest, ProgramError>(e),
        },
{
    if accounts.len() < 3 {
        return Err(ProgramError::NotEnoughAccountKeys);
    }
    Ok(
        AllocationRequest {
            payer: accounts[1].address,
            new_account: accounts[0].address,
            space: 48,
            owner: *program_id,
        },
    )
}

/// The second half of opening a vote. `allocation` is the host's answer to
/// the request of `create_vote_request`, and `accounts` are the accounts as
/// the host left them.
pub fn process_create_vote(accounts: &mut Vec<Account>, allocation: Result<(), u64>) -> (r: Result<
    (),
    ProgramError,
>)
    ensures
        reports(
            create_vote_outcome(ledger(old(accounts)@), allocation),
            ledger(old(accounts)@),
            ledger(final(accounts)@),
            r,
        ),
{
    if accounts.len() < 3 {
        return Err(ProgramError::NotEnoughAccountKeys);
    }
    if let Err(code) = allocation {
        return Err(ProgramError::AllocationFailed(code));
    }
    let vote_data = VoteAccount { owner: accounts[1].address, end_date: NO_END_DATE, score: 0 };
    let r = vote_data.serialize(&mut accounts[0].data);
    proof {
        if r is Ok {
            assert(ledger(accounts@) =~= create_vote_outcome(
                ledger(old(accounts)@),
                allocation,
            ).unwrap());
        } else {
            assert(ledger(accounts@) =~= ledger(old(accounts)@));
        }
    }
    r
}

/// Closes the vote in the first account into the second.
pub fn process_close_vote(program_id: &Address, accounts: &mut Vec<Account>) -> (r: Result<
    (),
    ProgramError,
>)
    ensures
        reports(
            close_vote_outcome(program_id@, ledger(old(accounts)@)),
            ledger(old(accounts)@),
            ledger(final(accounts)@),
            r,
        ),
{
    if accounts.len() < 2 {
        return Err(ProgramError::NotEnoughAccountKeys);
    }
    if !accounts[0].owner.same(program_id) {
        return Err(ProgramError::IncorrectProgramId);
    }
    let dest_balance = match accounts[1].balance.checked_add(accounts[0].balance) {
        Some(sum) => sum,
        None => {
            return Err(ProgramError::InvalidInstructionData);
        },
    };
    accounts[1].balance = dest_balance;
    accounts[0].balance = 0;
    accounts[0].owner = system_program_id();
    accounts[0].data.clear();
    proof {
        assert(ledger(accounts@) =~= close_vote_outcome(
            program_id@,
            ledger(old(accounts)@),
        ).unwrap());
    }
    Ok(())
}

/// Changes the score of the vote in the first account by `delta`.
fn change_score(program_id: &Address, accounts: &mut Vec<Account>, delta: i64) -> (r: Result<
    (),
    ProgramError,
>)
    ensures
        reports(
            change_score_outcome(program_id@, ledger(old(accounts)@), delta),
            ledger(old(accounts)@),
            ledger(final(accounts)@),
            r,
        ),
{
    if accounts.len() < 1 {
        return Err(ProgramError::NotEnoughAccountKeys);
    }
    if !accounts[0].owner.same(program_id) {
        return Err(ProgramError::IncorrectProgramId);
    }
    let mut vote_data = match VoteAccount::try_from_slice(accounts[0].data.as_slice()) {
        Ok(record) => record,
        Err(e) => {
            return Err(e);
        },
    };
    vote_data.score = match vote_data.score.checked_add(delta) {
        Some(score) => score,
        None => {
            if delta > 0 {
                return Err(ProgramError::from(CustomError::Overflow));
            } else {
                return Err(ProgramError::from(CustomError::Underflow));
            }
        },
    };
    let r = vote_data.serialize(&mut accounts[0].data);
    proof {
        assert(ledger(accounts@) =~= change_score_outcome(
            program_id@,
            ledger(old(accounts)@),
            delta,
        ).unwrap());
    }
    r
}

/// Lowers the score of the vote in the first account by one.
pub fn process_remove_vote(program_id: &Address, accounts: &mut Vec<Account>) -> (r: Result<
    (),
    ProgramError,
>)
    ensures
        reports(
            remove_vote_outcome(program_id@, ledger(old(accounts)@)),
            ledger(old(accounts)@),
            ledger(final(accounts)@),
            r,
        ),
{
    change_score(program_id, accounts, -1)
}

/// Raises the score of the vote in the first account by one.
pub fn process_add_vote(program_id: &Address, accounts: &mut Vec<Account>) -> (r: Result<
    (),
    ProgramError,
>)
    ensures
        reports(
            add_vote_outcome(program_id@, ledger(old(accounts)@)),
            ledger(old(accounts)@),
            ledger(final(accounts)@),
            r,
        ),
{
    change_score(program_id, accounts, 1)
}

/// A vote opened in a buffer of exactly 48 bytes reads back as the payer's
/// fresh record, and nothing but the target's buffer has changed.
pub proof fn lemma_created_vote_reads_back(
    before: Seq<AccountView>,
    payer: Address,
    after: Seq<AccountView>,
    r: Result<(), ProgramError>,
)
    requires
        before.len() >= 3,
        before[0].data.len() == 48,
        before[1].address == payer@,
        reports(create_vote_outcome(before, Ok(())), before, after, r),
    ensures
        r is Ok,
        after.len() == before.len(),
        VoteAccountView::decoded(after[0].data) == Some(fresh_vote(payer@)),
        after[0].owner == before[0].owner,
        after[0].balance == before[0].balance,
        after[0].address == before[0].address,
        forall|i: int| 1 <= i < before.len() ==> after[i] == before[i],
{
    lemma_vote_round_trip(VoteAccount { owner: payer, end_date: NO_END_DATE, score: 0 });
    assert(after[0].data =~= fresh_vote(payer@).encoded());
}

/// A score change that stays in range is read back as the old record with
/// the score moved by the change, and touches nothing but the target's buffer.
pub proof fn lemma_score_change_in_range(
    program_id: Seq<u8>,
    before: Seq<AccountView>,
    delta: i64,
    record: VoteAccount,
    after: Seq<AccountView>,
    r: Result<(), ProgramError>,
)
    requires
        before.len() >= 1,
        before[0].owner == program_id,
        VoteAccountView::decoded(before[0].data) == Some(record@),
        i64::MIN <= record.score + delta <= i64::MAX,
        reports(change_score_outcome(program_id, before, delta), before, after, r),
    ensures
        r is Ok,
        after.len() == before.len(),
        VoteAccountView::decoded(after[0].data) == Some(
            VoteAccountView { score: (record.score + delta) as i64, ..record@ },
        ),
        after[0].owner == before[0].owner,
        after[0].balance == before[0].balance,
        after[0].address == before[0].address,
        forall|i: int| 1 <= i < before.len() ==> after[i] == before[i],
{
    lemma_vote_round_trip(
        VoteAccount { score: (record.score + delta) as i64, ..record },
    );
}

/// Closing a vote neither makes nor loses funds: what the two accounts hold
/// together is the same before and after.
pub proof fn lemma_close_keeps_total(
    program_id: Seq<u8>,
    before: Seq<AccountView>,
    after: Seq<AccountView>,
    r: Result<(), ProgramError>,
)
    requires
        before.len() >= 2,
        reports(close_vote_outcome(program_id, before), before, after, r),
    ensures
        after.len() == before.len(),
        after[0].balance + after[1].balance == before[0].balance + before[1].balance,
        r is Ok ==> after[0].balance == 0 && after[0].data.len() == 0 && after[0].owner
            == system_owner(),
{
}

} // verus!
