//! Little-endian integers on the wire: their mathematical meaning, and the
//! two calls into `borsh` that read and write them.

use vstd::prelude::*;

verus! {

/// Two to the power of 64.
pub open spec fn two_64() -> int {
    0x1_0000_0000_0000_0000
}

/// The natural number that the bytes `s` stand for, least significant byte
/// first.
pub open spec fn le_value(s: Seq<u8>) -> nat
    decreases s.len(),
{
    if s.len() == 0 {
        0
    } else {
        s[0] as nat + 256 * le_value(s.drop_first())
    }
}

/// The `n` lowest base-256 digits of `v`, least significant first.
pub open spec fn le_digits(v: nat, n: nat) -> Seq<u8>
    decreases n,
{
    if n == 0 {
        Seq::empty()
    } else {
        seq![(v % 256) as u8].add(le_digits(v / 256, (n - 1) as nat))
    }
}

/// The signed 64-bit integer that eight bytes stand for in two's complement,
/// least significant byte first.
pub open spec fn i64_from_le(s: Seq<u8>) -> i64
    recommends
        s.len() == 8,
{
    let v = le_value(s);
    if v < 0x8000_0000_0000_0000 {
        v as i64
    } else {
        (v - two_64()) as i64
    }
}

/// The eight bytes of `x` in two's complement, least significant byte first.
pub open spec fn i64_to_le(x: i64) -> Seq<u8> {
    le_digits(
        if x < 0 {
            (x + two_64()) as nat
        } else {
            x as nat
        },
        8,
    )
}

/// 256 to the power of `n`.
pub open spec fn pow256(n: nat) -> nat
    decreases n,
{
    if n == 0 {
        1
    } else {
        256 * pow256((n - 1) as nat)
    }
}

/// `le_digits` yields exactly `n` bytes.
pub proof fn lemma_le_digits_len(v: nat, n: nat)
    ensures
        le_digits(v, n).len() == n,
    decreases n,
{
    if n > 0 {
        lemma_le_digits_len(v / 256, (n - 1) as nat);
    }
}

/// A byte string of length `n` stands for a number below `256^n`.
pub proof fn lemma_le_value_bound(s: Seq<u8>)
    ensures
        le_value(s) < pow256(s.len()),
    decreases s.len(),
{
    if s.len() > 0 {
        lemma_le_value_bound(s.drop_first());
    }
}

/// Reading back the digits of a number below `256^n` gives the number.
pub proof fn lemma_value_of_digits(v: nat, n: nat)
    requires
        v < pow256(n),
    ensures
        le_value(le_digits(v, n)) == v,
    decreases n,
{
    if n > 0 {
        let rest = le_digits(v / 256, (n - 1) as nat);
        let all = le_digits(v, n);
        assert(all.drop_first() =~= rest);
        lemma_value_of_digits(v / 256, (n - 1) as nat);
    }
}

/// Writing out the number that a byte string stands for gives the string.
pub proof fn lemma_digits_of_value(s: Seq<u8>)
    ensures
        le_digits(le_value(s), s.len()) == s,
    decreases s.len(),
{
    if s.len() > 0 {
        let tail = s.drop_first();
        lemma_digits_of_value(tail);
        let v = le_value(s);
        assert(v % 256 == s[0] as nat);
        assert(v / 256 == le_value(tail));
        assert(le_digits(v, s.len()) =~= s);
    } else {
        assert(le_digits(le_value(s), s.len()) =~= s);
    }
}

/// `256^8` is `2^64`.
pub proof fn lemma_pow256_8()
    ensures
        pow256(8) == two_64(),
{
    reveal_with_fuel(pow256, 9);
}

/// Every signed 64-bit integer survives being written and read back.
pub proof fn lemma_i64_round_trip(x: i64)
    ensures
        i64_to_le(x).len() == 8,
        i64_from_le(i64_to_le(x)) == x,
{
    let v: nat = if x < 0 {
        (x + two_64()) as nat
    } else {
        x as nat
    };
    lemma_pow256_8();
    lemma_le_digits_len(v, 8);
    lemma_value_of_digits(v, 8);
}

/// Every eight bytes survive being read and written back.
pub proof fn lemma_le_round_trip(s: Seq<u8>)
    requires
        s.len() == 8,
    ensures
        i64_to_le(i64_from_le(s)) == s,
{
    lemma_pow256_8();
    lemma_le_value_bound(s);
    lemma_digits_of_value(s);
}

/// Calls `borsh::from_slice::<i64>`. That function reads eight bytes as a
/// little-endian two's complement integer and fails unless the slice holds
/// exactly eight bytes.
#[verifier::external_body]
pub(crate) fn read_i64(bytes: &[u8]) -> (r: Option<i64>)
    ensures
        bytes@.len() == 8 ==> r == Some(i64_from_le(bytes@)),
        bytes@.len() != 8 ==> r is None,
{
    borsh::from_slice::<i64>(bytes).ok()
}

/// Calls `borsh::to_vec` on an `i64`. That function returns the integer's
/// eight bytes in little-endian two's complement; writing into a fresh vector
/// cannot fail.
#[verifier::external_body]
pub(crate) fn write_i64(value: i64) -> (r: Vec<u8>)
    ensures
        r@ == i64_to_le(value),
{
    borsh::to_vec(&value).unwrap_or_default()
}

/// Writes `bytes` into `buffer` from index `start` on. The buffer keeps its
/// length, and its other bytes stay as they are.
pub(crate) fn write_at(buffer: &mut Vec<u8>, start: usize, bytes: &[u8])
    requires
        start + bytes@.len() <= old(buffer)@.len(),
    ensures
        final(buffer)@ == old(buffer)@.subrange(0, start as int) + bytes@ + old(buffer)@.skip(
            start + bytes@.len(),
        ),
{
    let len: usize = bytes.len();
    let total: usize = buffer.len();
    let mut i: usize = 0;
    while i < len
        invariant
            i <= len,
            len == bytes@.len(),
            total == buffer@.len(),
            buffer@.len() == old(buffer)@.len(),
            start + len <= total,
            forall|j: int| 0 <= j < start ==> buffer@[j] == old(buffer)@[j],
            forall|j: int| 0 <= j < i ==> buffer@[start + j] == bytes@[j],
            forall|j: int| start + i <= j < buffer@.len() ==> buffer@[j] == old(buffer)@[j],
        decreases len - i,
    {
        buffer.set(start + i, bytes[i]);
        i += 1;
    }
    assert(buffer@ =~= old(buffer)@.subrange(0, start as int) + bytes@ + old(buffer)@.skip(
        start + bytes@.len(),
    ));
}

} // verus!
