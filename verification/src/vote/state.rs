//! The record that a vote account holds, and its layout in the buffer.

use vstd::prelude::*;
use vstd::slice::slice_subrange;
use crate::address::Address;
use crate::error::ProgramError;
use crate::wire::{i64_from_le, i64_to_le, lemma_i64_round_trip, read_i64, write_at, write_i64};

verus! {

/// The width of a vote record in bytes: the owner's address and two
/// integers, with nothing between or around them.
pub const VOTE_ACCOUNT_LEN: usize = 48;

/// The `end_date` of a vote that has no deadline.
pub const NO_END_DATE: i64 = -1;

/// The persisted state of one vote.
#[derive(Clone, Copy, Debug, PartialEq, Eq)]
pub struct VoteAccount {
    /// Who opened the vote.
    pub owner: Address,
    /// When the vote ends, or `NO_END_DATE`.
    pub end_date: i64,
    /// The tally.
    pub score: i64,
}

/// A vote record as mathematical values.
pub struct VoteAccountView {
    pub owner: Seq<u8>,
    pub end_date: i64,
    pub score: i64,
}

impl View for VoteAccount {
    type V = VoteAccountView;

    open spec fn view(&self) -> VoteAccountView {
        VoteAccountView { owner: self.owner@, end_date: self.end_date, score: self.score }
    }
}

impl VoteAccountView {
    /// The bytes of the record: the owner's 32 bytes, then the end date and
    /// the score, each little-endian.
    pub open spec fn encoded(self) -> Seq<u8> {
        self.owner + i64_to_le(self.end_date) + i64_to_le(self.score)
    }

    /// The record that a buffer holds, if it holds one: a buffer of exactly
    /// 48 bytes does, no other.
    pub open spec fn decoded(buffer: Seq<u8>) -> Option<VoteAccountView> {
        if buffer.len() == 48 {
            Some(
                VoteAccountView {
                    owner: buffer.subrange(0, 32),
                    end_date: i64_from_le(buffer.subrange(32, 40)),
                    score: i64_from_le(buffer.subrange(40, 48)),
                },
            )
        } else {
            None
        }
    }
}

impl VoteAccount {
    /// Reads the record out of an account's buffer.
    pub fn try_from_slice(buffer: &[u8]) -> (r: Result<VoteAccount, ProgramError>)
        ensures
            match VoteAccountView::decoded(buffer@) {
                Some(record) => r is Ok && r.unwrap()@ == record,
                None => r == Err::<VoteAccount, ProgramError>(ProgramError::InvalidAccountData),
            },
            buffer@.len() < 48 ==> r is Err,
    {
        if buffer.len() != VOTE_ACCOUNT_LEN {
            return Err(ProgramError::InvalidAccountData);
        }
        let owner = match Address::from_slice(slice_subrange(buffer, 0, 32)) {
            Some(address) => address,
            None => {
                return Err(ProgramError::InvalidAccountData);
            },
        };
        let end_date = match read_i64(slice_subrange(buffer, 32, 40)) {
            Some(value) => value,
            None => {
                return Err(ProgramError::InvalidAccountData);
            },
        };
        let score = match read_i64(slice_subrange(buffer, 40, 48)) {
            Some(value) => value,
            None => {
                return Err(ProgramError::InvalidAccountData);
            },
        };
        Ok(VoteAccount { owner, end_date, score })
    }

    /// Writes the record over the first 48 bytes of `buffer`, whose length
    /// stays as it is. A buffer shorter than that is left alone.
    pub fn serialize(&self, buffer: &mut Vec<u8>) -> (r: Result<(), ProgramError>)
        ensures
            old(buffer)@.len() < 48 ==> ({
                &&& r == Err::<(), ProgramError>(ProgramError::InvalidAccountData)
                &&& final(buffer)@ == old(buffer)@
            }),
            old(buffer)@.len() >= 48 ==> ({
                &&& r is Ok
                &&& final(buffer)@ == self@.encoded() + old(buffer)@.skip(48)
            }),
            old(buffer)@.len() == 48 ==> VoteAccountView::decoded(final(buffer)@) == Some(self@),
    {
        if buffer.len() < VOTE_ACCOUNT_LEN {
            return Err(ProgramError::InvalidAccountData);
        }
        let end_date = write_i64(self.end_date);
        let score = write_i64(self.score);
        proof {
            lemma_i64_round_trip(self.end_date);
            lemma_i64_round_trip(self.score);
        }
        write_at(buffer, 0, self.owner.bytes.as_slice());
        write_at(buffer, 32, end_date.as_slice());
        write_at(buffer, 40, score.as_slice());
        proof {
            assert(buffer@ =~= self@.encoded() + old(buffer)@.skip(48));
            if old(buffer)@.len() == 48 {
                assert(buffer@ =~= self@.encoded());
                lemma_vote_round_trip(*self);
            }
        }
        Ok(())
    }
}

/// A record written and read back is the record.
pub proof fn lemma_vote_round_trip(record: VoteAccount)
    ensures
        record@.encoded().len() == 48,
        VoteAccountView::decoded(record@.encoded()) == Some(record@),
{
    lemma_i64_round_trip(record.end_date);
    lemma_i64_round_trip(record.score);
    let bytes = record@.encoded();
    assert(bytes.subrange(0, 32) =~= record@.owner);
    assert(bytes.subrange(32, 40) =~= i64_to_le(record.end_date));
    assert(bytes.subrange(40, 48) =~= i64_to_le(record.score));
}

/// A buffer that is empty or cut short holds no record.
pub proof fn lemma_vote_truncated(buffer: Seq<u8>)
    requires
        buffer.len() < 48,
    ensures
        VoteAccountView::decoded(buffer) is None,
{
}

} // verus!
