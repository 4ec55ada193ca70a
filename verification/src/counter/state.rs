//! The record that a counter account holds, and its layout in the buffer.

use vstd::prelude::*;
use crate::error::ProgramError;
use crate::wire::{i64_from_le, i64_to_le, lemma_i64_round_trip, read_i64, write_at, write_i64};

verus! {

/// The width of a counter record in bytes.
pub const COUNTER_ACCOUNT_LEN: usize = 8;

/// The persisted state of one counter.
#[derive(Clone, Copy, Debug, PartialEq, Eq, Structural)]
pub struct CounterAccount {
    pub count: i64,
}

impl CounterAccount {
    /// The bytes of the record: the count, little-endian.
    pub open spec fn encoded(self) -> Seq<u8> {
        i64_to_le(self.count)
    }

    /// The record that a buffer holds, if it holds one: a buffer of exactly
    /// eight bytes does, no other.
    pub open spec fn decoded(buffer: Seq<u8>) -> Option<CounterAccount> {
        if buffer.len() == 8 {
            Some(CounterAccount { count: i64_from_le(buffer) })
        } else {
            None
        }
    }

    /// Reads the record out of an account's buffer.
    pub fn try_from_slice(buffer: &[u8]) -> (r: Result<CounterAccount, ProgramError>)
        ensures
            r == (match Self::decoded(buffer@) {
                Some(record) => Ok(record),
                None => Err(ProgramError::InvalidAccountData),
            }),
            buffer@.len() < 8 ==> r is Err,
    {
        match read_i64(buffer) {
            Some(count) => Ok(CounterAccount { count }),
            None => Err(ProgramError::InvalidAccountData),
        }
    }

    /// Writes the record over the first eight bytes of `buffer`, whose length
    /// stays as it is. A buffer shorter than that is left alone.
    pub fn serialize(&self, buffer: &mut Vec<u8>) -> (r: Result<(), ProgramError>)
        ensures
            old(buffer)@.len() < 8 ==> ({
                &&& r == Err::<(), ProgramError>(ProgramError::InvalidAccountData)
                &&& final(buffer)@ == old(buffer)@
            }),
            old(buffer)@.len() >= 8 ==> ({
                &&& r is Ok
                &&& final(buffer)@ == self.encoded() + old(buffer)@.skip(8)
            }),
            old(buffer)@.len() == 8 ==> Self::decoded(final(buffer)@) == Some(*self),
    {
        if buffer.len() < COUNTER_ACCOUNT_LEN {
            return Err(ProgramError::InvalidAccountData);
        }
        let bytes = write_i64(self.count);
        proof {
            lemma_i64_round_trip(self.count);
        }
        write_at(buffer, 0, bytes.as_slice());
        proof {
            assert(buffer@ =~= self.encoded() + old(buffer)@.skip(8));
            if old(buffer)@.len() == 8 {
                assert(buffer@ =~= self.encoded());
            }
        }
        Ok(())
    }
}

/// A record written and read back is the record.
pub proof fn lemma_counter_round_trip(record: CounterAccount)
    ensures
        record.encoded().len() == 8,
        CounterAccount::decoded(record.encoded()) == Some(record),
{
    lemma_i64_round_trip(record.count);
}

/// A buffer that is empty or cut short holds no record.
pub proof fn lemma_counter_truncated(buffer: Seq<u8>)
    requires
        buffer.len() < 8,
    ensures
        CounterAccount::decoded(buffer) is None,
{
}

} // verus!
