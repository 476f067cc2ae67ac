//! The cipher that protects account information: sixteen-round TEA over
//! 64-bit blocks, chained so that each block depends on the one before, with
//! a padded frame around the plain text.

use crate::binary::be32;
use crate::binary::put_u32;
use crate::binary::u32_bytes;
use vstd::prelude::*;
use vstd::slice::slice_subrange;
use vstd::slice::slice_to_vec;

verus! {

/// The round constant.
pub const DELTA: u32 = 0x9e37_79b9;

/// Sixteen times the round constant, modulo 2^32.
pub const LAST_SUM: u32 = 0xe377_9b90;

/// The number of rounds.
pub const ROUNDS: u32 = 16;

/// The length of a root secret in bytes.
pub const KEY_LEN: usize = 16;

/// A 128-bit key as four words.
#[derive(Clone, Copy, Debug, PartialEq, Eq, Structural)]
pub struct Key {
    pub k0: u32,
    pub k1: u32,
    pub k2: u32,
    pub k3: u32,
}

/// A 64-bit block as two words, the high one first.
pub type Block = (u32, u32);

/// The key that sixteen bytes hold, each word big-endian.
pub open spec fn key_of(bytes: Seq<u8>) -> Key {
    Key {
        k0: be32(bytes, 0) as u32,
        k1: be32(bytes, 4) as u32,
        k2: be32(bytes, 8) as u32,
        k3: be32(bytes, 12) as u32,
    }
}

/// The round function.
pub open spec fn mix(v: u32, sum: u32, ka: u32, kb: u32) -> u32 {
    v.wrapping_mul(16).wrapping_add(ka) ^ v.wrapping_add(sum) ^ (v / 32).wrapping_add(kb)
}

/// `n` rounds of decipherment, the first of them with `sum`.
pub open spec fn decipher_rounds(v: Block, k: Key, sum: u32, n: nat) -> Block
    decreases n,
{
    if n == 0 {
        v
    } else {
        let b = v.1.wrapping_sub(mix(v.0, sum, k.k2, k.k3));
        let a = v.0.wrapping_sub(mix(b, sum, k.k0, k.k1));
        decipher_rounds((a, b), k, sum.wrapping_sub(DELTA), (n - 1) as nat)
    }
}

/// One block deciphered.
pub open spec fn decipher(v: Block, k: Key) -> Block {
    decipher_rounds(v, k, LAST_SUM, ROUNDS as nat)
}

/// Block `i` of `data`.
pub open spec fn block(data: Seq<u8>, i: int) -> Block {
    (be32(data, 8 * i) as u32, be32(data, 8 * i + 4) as u32)
}

/// The words of two blocks combined bit by bit.
pub open spec fn xor2(a: Block, b: Block) -> Block {
    (a.0 ^ b.0, a.1 ^ b.1)
}

/// The chaining value after `n` blocks: the last deciphered block.
pub open spec fn chain(data: Seq<u8>, k: Key, n: nat) -> Block
    decreases n,
{
    if n == 0 {
        (0u32, 0u32)
    } else {
        decipher(xor2(block(data, n - 1), chain(data, k, (n - 1) as nat)), k)
    }
}

/// Plain block `i`: the chaining value after it, combined with the cipher
/// block before it.
pub open spec fn plain_block(data: Seq<u8>, k: Key, i: nat) -> Block {
    xor2(
        chain(data, k, i + 1),
        if i == 0 {
            (0u32, 0u32)
        } else {
            block(data, i - 1)
        },
    )
}

/// The bytes of the first `n` plain blocks.
pub open spec fn plain_bytes(data: Seq<u8>, k: Key, n: nat) -> Seq<u8>
    decreases n,
{
    if n == 0 {
        Seq::empty()
    } else {
        let p = plain_block(data, k, (n - 1) as nat);
        plain_bytes(data, k, (n - 1) as nat) + u32_bytes(p.0) + u32_bytes(p.1)
    }
}

/// The plain text of `data` under `k`. The deciphered frame starts with a
/// pad whose length its first byte gives, and ends with seven bytes that are
/// no part of the text. `None` where `data` is no whole number of blocks, is
/// shorter than two blocks, or leaves no room for the pad.
pub open spec fn decrypt_spec(data: Seq<u8>, k: Key) -> Option<Seq<u8>> {
    if data.len() < 16 || data.len() % 8 != 0 {
        None
    } else {
        let p = plain_bytes(data, k, (data.len() / 8) as nat);
        let start = p[0] as int % 8 + 3;
        let end = data.len() - 7;
        if start > end {
            None
        } else {
            Some(p.subrange(start, end))
        }
    }
}

fn word_at(data: &[u8], i: usize) -> (r: u32)
    requires
        i + 4 <= data@.len(),
    ensures
        r == be32(data@, i as int),
{
    let a: u32 = data[i] as u32;
    let b: u32 = data[i + 1] as u32;
    let c: u32 = data[i + 2] as u32;
    let d: u32 = data[i + 3] as u32;
    (a * 0x100 + b) * 0x1_0000 + (c * 0x100 + d)
}

/// Reads a key from sixteen bytes.
pub fn key_from_bytes(key: &[u8]) -> (r: Option<Key>)
    ensures
        r is Some <==> key@.len() == KEY_LEN,
        r matches Some(k) ==> k == key_of(key@),
{
    if key.len() != KEY_LEN {
        return None;
    }
    Some(
        Key {
            k0: word_at(key, 0),
            k1: word_at(key, 4),
            k2: word_at(key, 8),
            k3: word_at(key, 12),
        },
    )
}

fn mix_word(v: u32, sum: u32, ka: u32, kb: u32) -> (r: u32)
    ensures
        r == mix(v, sum, ka, kb),
{
    v.wrapping_mul(16).wrapping_add(ka) ^ v.wrapping_add(sum) ^ (v / 32).wrapping_add(kb)
}

/// Deciphers one block.
pub fn decipher_block(v: Block, k: &Key) -> (r: Block)
    ensures
        r == decipher(v, *k),
{
    let mut a: u32 = v.0;
    let mut b: u32 = v.1;
    let mut sum: u32 = LAST_SUM;
    let mut i: u32 = 0;
    while i < ROUNDS
        invariant
            i <= ROUNDS,
            decipher_rounds((a, b), *k, sum, (ROUNDS - i) as nat) == decipher(v, *k),
        decreases ROUNDS - i,
    {
        b = b.wrapping_sub(mix_word(a, sum, k.k2, k.k3));
        a = a.wrapping_sub(mix_word(b, sum, k.k0, k.k1));
        sum = sum.wrapping_sub(DELTA);
        i = i + 1;
    }
    (a, b)
}

/// Deciphers `data` and takes the plain text out of its frame.
pub fn decrypt(data: &[u8], k: &Key) -> (r: Option<Vec<u8>>)
    ensures
        match r {
            Some(p) => decrypt_spec(data@, *k) == Some(p@),
            None => decrypt_spec(data@, *k) is None,
        },
{
    let len = data.len();
    if len < 16 || len % 8 != 0 {
        return None;
    }
    let blocks = len / 8;
    let mut out: Vec<u8> = Vec::new();
    let mut last: Block = (0, 0);
    let mut before: Block = (0, 0);
    let mut i: usize = 0;
    while i < blocks
        invariant
            i <= blocks,
            blocks * 8 == len == data@.len(),
            last == chain(data@, *k, i as nat),
            before == if i == 0 {
                (0u32, 0u32)
            } else {
                block(data@, i - 1)
            },
            out@ == plain_bytes(data@, *k, i as nat),
            out@.len() == 8 * i,
        decreases blocks - i,
    {
        let c: Block = (word_at(data, 8 * i), word_at(data, 8 * i + 4));
        last = decipher_block((c.0 ^ last.0, c.1 ^ last.1), k);
        put_u32(&mut out, last.0 ^ before.0);
        put_u32(&mut out, last.1 ^ before.1);
        before = c;
        i = i + 1;
    }
    let start: usize = (out[0] % 8) as usize + 3;
    let end: usize = len - 7;
    if start > end {
        return None;
    }
    Some(slice_to_vec(slice_subrange(out.as_slice(), start, end)))
}

} // verus!
