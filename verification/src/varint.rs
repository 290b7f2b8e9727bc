//! Unsigned variable-length integers: seven data bits to a byte, low group
//! first, the high bit set on every byte but the last.

use integer_encoding::VarInt;
use vstd::prelude::*;

verus! {

/// The integer that begins at index `i` of `bytes`, where `i` counts the bytes
/// of this integer already passed, together with the number of bytes it takes
/// from `i` on. The value is not yet scaled by the groups before `i`.
///
/// A tenth byte ends the integer whatever its high bit says, and is taken
/// only if it is 0 or 1: more would not fit in 64 bits.
pub open spec fn varint_decoded_from(bytes: Seq<u8>, i: int) -> Option<(nat, nat)>
    decreases bytes.len() - i,
{
    if i < 0 || i >= bytes.len() {
        None
    } else if i >= 9 {
        if bytes[i] < 2 {
            Some((bytes[i] as nat, 1))
        } else {
            None
        }
    } else if bytes[i] < 128 {
        Some((bytes[i] as nat, 1))
    } else {
        match varint_decoded_from(bytes, i + 1) {
            Some((high, len)) => Some((((bytes[i] - 128) + 128 * high) as nat, len + 1)),
            None => None,
        }
    }
}

/// The integer at the start of `bytes` and the number of bytes it takes, or
/// `None` where `bytes` ends before the integer does or the integer does not
/// fit in 64 bits.
pub open spec fn varint_decoded(bytes: Seq<u8>) -> Option<(nat, nat)> {
    varint_decoded_from(bytes, 0)
}

/// The encoding of `n`: its seven-bit groups from the lowest up, each but
/// the last with the high bit set.
pub open spec fn varint_encoded(n: nat) -> Seq<u8>
    decreases n,
{
    if n < 128 {
        seq![n as u8]
    } else {
        seq![(n % 128 + 128) as u8] + varint_encoded(n / 128)
    }
}

/// The bound on the value that may begin at index `i`: two to the power of
/// the bits that are left of 64 when `i` groups of seven are taken.
pub open spec fn varint_cap(i: int) -> nat
    decreases 9 - i,
{
    if i >= 9 {
        2
    } else {
        128 * varint_cap(i + 1)
    }
}

/// A decoded integer takes at least one byte, ends within the bytes and
/// within ten of them, and stays under the bound of its index.
pub proof fn lemma_varint_from(bytes: Seq<u8>, i: int)
    requires
        0 <= i,
    ensures
        varint_decoded_from(bytes, i) matches Some((value, len)) ==> 1 <= len <= bytes.len() - i
            && (i <= 9 ==> i + len <= 10 && value < varint_cap(i)),
    decreases bytes.len() - i,
{
    if i < bytes.len() && i < 9 && bytes[i] >= 128 {
        lemma_varint_from(bytes, i + 1);
    }
    if i < 9 {
        assert(varint_cap(i) == 128 * varint_cap(i + 1));
        lemma_varint_cap_positive(i + 1);
    }
}

/// The bound is never under 2.
pub proof fn lemma_varint_cap_positive(i: int)
    ensures
        varint_cap(i) >= 2,
    decreases 9 - i,
{
    if i < 9 {
        lemma_varint_cap_positive(i + 1);
    }
}

/// The bound at the start of an integer is two to the power of 64.
pub proof fn lemma_varint_cap_start()
    ensures
        varint_cap(0) == 0x1_0000_0000_0000_0000,
{
    reveal_with_fuel(varint_cap, 11);
}

/// A variable-length integer takes at least one byte and at most ten, ends
/// within the bytes and fits in 64 bits.
pub proof fn lemma_varint_len(bytes: Seq<u8>)
    ensures
        varint_decoded(bytes) matches Some((value, len)) ==> 1 <= len <= bytes.len() && len <= 10
            && value <= u64::MAX,
{
    lemma_varint_from(bytes, 0);
    lemma_varint_cap_start();
}

/// `u64::decode_var` of the crate `integer_encoding`: it walks the bytes,
/// gathers the low seven bits of each into a 64-bit value, stops at the first
/// byte without the high bit or at the tenth byte, and returns the value with
/// the number of bytes walked. It returns `None` where the bytes run out
/// first, or where the tenth byte is 2 or more.
#[verifier::external_body]
pub(crate) fn decode_var(src: &[u8]) -> (r: Option<(u64, usize)>)
    ensures
        match r {
            Some((value, len)) => varint_decoded(src@) == Some((value as nat, len as nat)),
            None => varint_decoded(src@) is None,
        },
{
    u64::decode_var(src)
}

/// The encoding of a value that may begin at index `i`, set behind `i`
/// bytes and before any others, decodes at `i` to the value and the length
/// of the encoding.
proof fn lemma_round_trip_from(before: Seq<u8>, n: nat, rest: Seq<u8>)
    requires
        before.len() <= 9,
        n < varint_cap(before.len() as int),
    ensures
        varint_decoded_from(before + varint_encoded(n) + rest, before.len() as int) == Some(
            (n, varint_encoded(n).len()),
        ),
    decreases n,
{
    let i = before.len() as int;
    let bytes = before + varint_encoded(n) + rest;
    assert(bytes[i] == varint_encoded(n)[0]);
    if n < 128 {
        assert(varint_cap(9) == 2);
    } else {
        let low = (n % 128 + 128) as u8;
        let longer = before.push(low);
        assert(i < 9) by {
            if i >= 9 {
                assert(varint_cap(i) == 2);
            }
        }
        assert(varint_cap(i) == 128 * varint_cap(i + 1));
        lemma_round_trip_from(longer, n / 128, rest);
        assert(longer + varint_encoded(n / 128) + rest =~= bytes);
    }
}

/// Decoding undoes encoding: the encoding of a value of 64 bits, with any
/// bytes behind it, decodes to the value, and takes just the bytes of the
/// encoding.
pub proof fn lemma_varint_round_trip(n: nat, rest: Seq<u8>)
    requires
        n <= u64::MAX,
    ensures
        varint_decoded(varint_encoded(n) + rest) == Some((n, varint_encoded(n).len())),
{
    lemma_varint_cap_start();
    lemma_round_trip_from(Seq::empty(), n, rest);
    assert(Seq::<u8>::empty() + varint_encoded(n) + rest =~= varint_encoded(n) + rest);
}

} // verus!
