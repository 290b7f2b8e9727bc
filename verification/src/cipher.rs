//! The block stream cipher of LPK archives and its key derivation.
//!
//! A key is derived from a seed string by a polynomial rolling hash. The
//! cipher cuts the data into chunks of [`CHUNK_SIZE`] bytes, restarts a
//! linear-congruential keystream from the key at the start of every chunk and
//! XORs each byte with the low byte of the running state. Applying it twice
//! with the same key gives the data back.

use vstd::arithmetic::div_mod::{lemma_fundamental_div_mod_converse, lemma_mod_multiples_vanish};
use vstd::prelude::*;
use vstd::std_specs::iter::IteratorSpec;

verus! {

/// Number of bytes after which the keystream starts over from the key.
pub const CHUNK_SIZE: usize = 1024;

/// The rolling hash of a seed: starting from 0, every character `c` turns the
/// running value `h` into `(31 * h + c) mod 2^32`.
pub open spec fn seed_hash(seed: Seq<char>) -> int
    decreases seed.len(),
{
    if seed.len() == 0 {
        0
    } else {
        (31 * seed_hash(seed.drop_last()) + seed.last() as int) % 0x1_0000_0000
    }
}

/// The key of a seed: its hash read as a signed 32-bit number, so that a hash
/// with bit 31 set stands for a negative key.
pub open spec fn derived_key(seed: Seq<char>) -> int {
    let h = seed_hash(seed);
    if h >= 0x8000_0000 {
        h - 0x1_0000_0000
    } else {
        h
    }
}

/// One step of the linear-congruential generator: bits 16 to 31 of
/// `214013 * k + 2531011`.
pub open spec fn lcg_step(k: int) -> int {
    ((214013 * k + 2531011) / 65536) % 65536
}

/// The generator's state after `steps` steps from `key`.
pub open spec fn lcg_state(key: int, steps: nat) -> int
    decreases steps,
{
    if steps == 0 {
        key
    } else {
        lcg_step(lcg_state(key, (steps - 1) as nat))
    }
}

/// The byte that masks position `offset` of a chunk.
pub open spec fn keystream_byte(key: int, offset: nat) -> u8 {
    (lcg_state(key, offset + 1) % 256) as u8
}

/// What [`decrypt`] makes of `data` under `key`: byte `i` is XORed with the
/// keystream byte of its offset in its chunk.
pub open spec fn decrypted(key: int, data: Seq<u8>) -> Seq<u8> {
    Seq::new(data.len(), |i: int| data[i] ^ keystream_byte(key, (i % 1024) as nat))
}

/// The code point of a character.
fn char_code(c: char) -> (code: u32)
    ensures
        code as int == c as int,
{
    c as u32
}

/// Derives the cipher key from a seed string.
pub fn make_key(s: &str) -> (key: i64)
    ensures
        key == derived_key(s@),
        -0x8000_0000 <= key < 0x8000_0000,
{
    let mut h: u64 = 0;
    for c in it: s.chars()
        invariant
            it.seq() == s@,
            h == seed_hash(s@.take(it.index() as int)),
            h < 0x1_0000_0000,
    {
        proof {
            let next = s@.take(it.index() + 1);
            assert(next.drop_last() == s@.take(it.index() as int));
            assert(next.last() == c);
            assert(seed_hash(next) == (31 * seed_hash(next.drop_last()) + next.last() as int)
                % 0x1_0000_0000);
        }
        h = (31 * h + char_code(c) as u64) % 0x1_0000_0000;
    }
    assert(s@.take(s@.len() as int) == s@);
    if h >= 0x8000_0000 {
        (h as i64) - 0x1_0000_0000
    } else {
        h as i64
    }
}

/// Bits 16 to 31 of a number do not change when a multiple of 2^32 is added.
proof fn lemma_step_window(t: int, j: int)
    ensures
        ((t + 0x1_0000_0000 * j) / 65536) % 65536 == (t / 65536) % 65536,
{
    let a = t / 65536;
    let b = t % 65536;
    let shifted = t + 0x1_0000_0000 * j;
    lemma_fundamental_div_mod_converse(shifted, 65536, a + 65536 * j, b);
    lemma_mod_multiples_vanish(j, a, 65536);
}

/// The first generator step, from a key of any size.
fn first_step(key: i64) -> (k: u64)
    ensures
        k == lcg_step(key as int),
        k < 65536,
{
    // 2^82 is a multiple of 2^32 that outweighs the product, so the sum is
    // positive and has the product's bits 16 to 31.
    let t: i128 = 214013 * (key as i128) + 2531011 + 0x4_0000_0000_0000_0000_0000i128;
    proof {
        lemma_step_window(214013 * key + 2531011, 0x4_0000_0000_0000);
    }
    let k = (t / 65536) % 65536;
    k as u64
}

/// A generator step from a state that already fits in 16 bits.
fn next_step(k: u64) -> (r: u64)
    requires
        k < 65536,
    ensures
        r == lcg_step(k as int),
        r < 65536,
{
    ((214013 * k + 2531011) / 65536) % 65536
}

/// Decrypts (or, the cipher being symmetric, encrypts) `data` under `key`.
pub fn decrypt(key: i64, data: &[u8]) -> (out: Vec<u8>)
    ensures
        out@ == decrypted(key as int, data@),
        out@.len() == data@.len(),
{
    let mut out: Vec<u8> = Vec::new();
    let mut k: u64 = 0;
    let mut offset: usize = 0;
    let mut i: usize = 0;
    while i < data.len()
        invariant
            i <= data.len(),
            offset == i % 1024,
            offset > 0 ==> k == lcg_state(key as int, offset as nat),
            out@ == decrypted(key as int, data@.take(i as int)),
        decreases data.len() - i,
    {
        k = if offset == 0 {
            first_step(key)
        } else {
            next_step(k)
        };
        assert(k == lcg_state(key as int, (offset + 1) as nat)) by {
            reveal_with_fuel(lcg_state, 2);
        }
        let mask: u8 = (k % 256) as u8;
        out.push(data[i] ^ mask);
        offset = if offset + 1 == CHUNK_SIZE {
            0
        } else {
            offset + 1
        };
        i = i + 1;
    }
    assert(data@.take(data.len() as int) == data@);
    out
}

/// Decrypting twice with one key gives the data back.
pub proof fn lemma_decrypt_involution(key: int, data: Seq<u8>)
    ensures
        decrypted(key, decrypted(key, data)) == data,
{
    let once = decrypted(key, data);
    let twice = decrypted(key, once);
    assert forall|i: int| 0 <= i < data.len() implies twice[i] == data[i] by {
        let b = data[i];
        let m = keystream_byte(key, (i % 1024) as nat);
        assert((b ^ m) ^ m == b) by (bit_vector);
    }
    assert(twice =~= data);
}

/// The keystream starts over at every chunk boundary: where `head` is a whole
/// number of chunks, decrypting `head + tail` is decrypting each alone. A
/// buffer of two chunks thus decrypts as its two halves do.
pub proof fn lemma_decrypt_chunks(key: int, head: Seq<u8>, tail: Seq<u8>)
    requires
        head.len() % 1024 == 0,
    ensures
        decrypted(key, head + tail) == decrypted(key, head) + decrypted(key, tail),
{
    let whole = decrypted(key, head + tail);
    let parts = decrypted(key, head) + decrypted(key, tail);
    assert forall|i: int| 0 <= i < whole.len() implies whole[i] == parts[i] by {
        if i >= head.len() {
            assert((i - head.len()) % 1024 == i % 1024);
        }
    }
    assert(whole =~= parts);
}

} // verus!
