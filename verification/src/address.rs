//! Addresses of accounts and programs: 32 raw bytes.

use vstd::prelude::*;

verus! {

/// The width of an address in bytes.
pub const ADDRESS_LEN: usize = 32;

/// The identifier of an account or of a program.
#[derive(Clone, Copy, Debug, PartialEq, Eq, Hash)]
pub struct Address {
    pub bytes: [u8; 32],
}

impl View for Address {
    type V = Seq<u8>;

    open spec fn view(&self) -> Seq<u8> {
        self.bytes@
    }
}

/// The address of the host's system program, which owns every account that no
/// other program owns: 32 zero bytes.
pub open spec fn system_owner() -> Seq<u8> {
    Seq::new(32, |i: int| 0u8)
}

impl Address {
    /// Whether two addresses hold the same bytes.
    pub fn same(&self, other: &Address) -> (r: bool)
        ensures
            r == (self@ == other@),
    {
        let mut i: usize = 0;
        while i < 32
            invariant
                i <= 32,
                forall|j: int| 0 <= j < i ==> self.bytes@[j] == other.bytes@[j],
            decreases 32 - i,
        {
            if self.bytes[i] != other.bytes[i] {
                return false;
            }
            i += 1;
        }
        assert(self@ =~= other@);
        true
    }

    /// The address that `bytes` hold: any 32 bytes are one, nothing else is.
    pub fn from_slice(bytes: &[u8]) -> (r: Option<Address>)
        ensures
            bytes@.len() == 32 ==> r is Some && r.unwrap()@ == bytes@,
            bytes@.len() != 32 ==> r is None,
    {
        if bytes.len() != ADDRESS_LEN {
            return None;
        }
        let mut held: [u8; 32] = [0u8; 32];
        let mut i: usize = 0;
        while i < 32
            invariant
                i <= 32,
                bytes@.len() == 32,
                forall|j: int| 0 <= j < i ==> held@[j] == bytes@[j],
            decreases 32 - i,
        {
            held[i] = bytes[i];
            i += 1;
        }
        assert(held@ =~= bytes@);
        Some(Address { bytes: held })
    }
}

/// Reads `solana_program::system_program::ID`, the constant that names the
/// host's system program. Its bytes are all zero.
#[verifier::external_body]
pub(crate) fn system_program_id() -> (r: Address)
    ensures
        r@ == system_owner(),
{
    Address { bytes: solana_program::system_program::ID.to_bytes() }
}

} // verus!
