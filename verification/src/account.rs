//! The host's account model as the programs see it.

use vstd::prelude::*;
use crate::address::Address;
use crate::error::ProgramError;

verus! {

/// One account of the host ledger.
#[derive(Clone, Debug, PartialEq, Eq)]
pub struct Account {
    /// The account's own identifier.
    pub address: Address,
    /// The program that alone may read meaning into `data` and change it.
    pub owner: Address,
    /// The funds that keep the account alive.
    pub balance: u64,
    /// The buffer that holds the owner's record.
    pub data: Vec<u8>,
}

/// What an account holds, as mathematical values.
pub struct AccountView {
    pub address: Seq<u8>,
    pub owner: Seq<u8>,
    pub balance: u64,
    pub data: Seq<u8>,
}

impl View for Account {
    type V = AccountView;

    open spec fn view(&self) -> AccountView {
        AccountView {
            address: self.address@,
            owner: self.owner@,
            balance: self.balance,
            data: self.data@,
        }
    }
}

/// The accounts of one invocation, in the order in which the host supplied
/// them.
pub open spec fn ledger(accounts: Seq<Account>) -> Seq<AccountView> {
    Seq::new(accounts.len(), |i: int| accounts[i]@)
}

/// How the outcome of an operation shows to the host: on success the accounts
/// are those of the outcome; on failure the error is reported and no account
/// has changed.
pub open spec fn reports(
    outcome: Result<Seq<AccountView>, ProgramError>,
    before: Seq<AccountView>,
    after: Seq<AccountView>,
    r: Result<(), ProgramError>,
) -> bool {
    match outcome {
        Ok(next) => r is Ok && after == next,
        Err(e) => r == Err::<(), ProgramError>(e) && after == before,
    }
}

/// What a program asks of the host's allocator: a new account at
/// `new_account`, paid for by `payer`, with a zeroed buffer of `space` bytes,
/// owned by `owner`, and funded to the least balance that keeps such a buffer
/// alive.
#[derive(Clone, Copy, Debug, PartialEq, Eq)]
pub struct AllocationRequest {
    pub payer: Address,
    pub new_account: Address,
    pub space: u64,
    pub owner: Address,
}

/// An allocation request as mathematical values.
pub struct AllocationRequestView {
    pub payer: Seq<u8>,
    pub new_account: Seq<u8>,
    pub space: u64,
    pub owner: Seq<u8>,
}

impl View for AllocationRequest {
    type V = AllocationRequestView;

    open spec fn view(&self) -> AllocationRequestView {
        AllocationRequestView {
            payer: self.payer@,
            new_account: self.new_account@,
            space: self.space,
            owner: self.owner@,
        }
    }
}

} // verus!
