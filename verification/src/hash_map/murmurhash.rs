//! MurmurHash3, the 32-bit x86 variant, as the GameMaker runtime uses it to
//! hash variable names.

use vstd::prelude::*;

verus! {

use vstd::wrapping::u32_specs::{wrapping_add, wrapping_mul};

pub const C1: u32 = 0xcc9e2d51;
pub const C2: u32 = 0x1b873593;
pub const N: u32 = 0xe6546b64;
pub const FMIX1: u32 = 0x85ebca6b;
pub const FMIX2: u32 = 0xc2b2ae35;

/// The `j`-th 4-byte block of `key`, read as a little-endian word.
pub open spec fn block(key: Seq<u8>, j: int) -> u32 {
    (key[4 * j] as u32)
        | ((key[4 * j + 1] as u32) << 8u32)
        | ((key[4 * j + 2] as u32) << 16u32)
        | ((key[4 * j + 3] as u32) << 24u32)
}

pub open spec fn rotl15(x: u32) -> u32 {
    (x << 15u32) | (x >> 17u32)
}

pub open spec fn rotl13(x: u32) -> u32 {
    (x << 13u32) | (x >> 19u32)
}

/// The scrambling applied to every block (and to the tail) before it is
/// folded into the state.
pub open spec fn scramble(k: u32) -> u32 {
    wrapping_mul(rotl15(wrapping_mul(k, C1)), C2)
}

/// Folds one block into the state.
pub open spec fn mix_block(h: u32, k: u32) -> u32 {
    wrapping_add(wrapping_mul(rotl13(h ^ scramble(k)), 5), N)
}

/// The state after the first `n` whole blocks of `key`.
pub open spec fn body(key: Seq<u8>, seed: u32, n: nat) -> u32
    decreases n,
{
    if n == 0 {
        seed
    } else {
        mix_block(body(key, seed, (n - 1) as nat), block(key, n - 1))
    }
}

/// The one to three bytes after the last whole block, little-endian.
pub open spec fn tail(key: Seq<u8>) -> u32 {
    let base = key.len() - key.len() % 4;
    let rem = key.len() % 4;
    let k2: u32 = if rem >= 3 { (key[base + 2] as u32) << 16u32 } else { 0 };
    let k1: u32 = if rem >= 2 { k2 ^ ((key[base + 1] as u32) << 8u32) } else { k2 };
    if rem >= 1 { k1 ^ (key[base] as u32) } else { k1 }
}

/// The final avalanche.
pub open spec fn fmix(h: u32) -> u32 {
    let h1 = h ^ (h >> 16u32);
    let h2 = wrapping_mul(h1, FMIX1);
    let h3 = h2 ^ (h2 >> 13u32);
    let h4 = wrapping_mul(h3, FMIX2);
    h4 ^ (h4 >> 16u32)
}

/// MurmurHash3 (x86, 32 bit) of `key` with `seed`; the length enters the
/// hash modulo 2^32.
pub open spec fn murmur3_32(key: Seq<u8>, seed: u32) -> u32 {
    let h = body(key, seed, key.len() / 4);
    let h_tail = if key.len() % 4 == 0 { h } else { h ^ scramble(tail(key)) };
    fmix(h_tail ^ (key.len() as u32))
}

proof fn lemma_wrapping_mul_is_truncation(x: u32, y: u32)
    ensures
        wrapping_mul(x, y) == (x * y) as u32,
{
    assert(wrapping_mul(x, y) == (x * y) as u32) by (bit_vector);
}

/// Multiplying by one of the odd constants of the hash, modulo 2^32, loses
/// nothing.
pub proof fn lemma_wrapping_mul_odd_injective(a: u32, b: u32, c: u32)
    requires
        c == C1 || c == C2 || c == 5 || c == FMIX1 || c == FMIX2,
        wrapping_mul(a, c) == wrapping_mul(b, c),
    ensures
        a == b,
{
    lemma_wrapping_mul_is_truncation(a, c);
    lemma_wrapping_mul_is_truncation(b, c);
    if c == C1 {
        assert((a * 0xcc9e2d51u32) as u32 == (b * 0xcc9e2d51u32) as u32 ==> a == b) by (bit_vector);
    } else if c == C2 {
        assert((a * 0x1b873593u32) as u32 == (b * 0x1b873593u32) as u32 ==> a == b) by (bit_vector);
    } else if c == 5 {
        assert((a * 5u32) as u32 == (b * 5u32) as u32 ==> a == b) by (bit_vector);
    } else if c == FMIX1 {
        assert((a * 0x85ebca6bu32) as u32 == (b * 0x85ebca6bu32) as u32 ==> a == b) by (bit_vector);
    } else {
        assert((a * 0xc2b2ae35u32) as u32 == (b * 0xc2b2ae35u32) as u32 ==> a == b) by (bit_vector);
    }
}

/// Scrambling a block loses nothing.
pub proof fn lemma_scramble_injective(a: u32, b: u32)
    requires
        scramble(a) == scramble(b),
    ensures
        a == b,
{
    let ma = wrapping_mul(a, C1);
    let mb = wrapping_mul(b, C1);
    lemma_wrapping_mul_odd_injective(rotl15(ma), rotl15(mb), C2);
    assert(rotl15(ma) == rotl15(mb) ==> ma == mb) by (bit_vector);
    lemma_wrapping_mul_odd_injective(a, b, C1);
}

/// Folding a block into the state loses nothing of the state.
proof fn lemma_mix_block_injective_in_state(h1: u32, h2: u32, k: u32)
    requires
        mix_block(h1, k) == mix_block(h2, k),
    ensures
        h1 == h2,
{
    let s = scramble(k);
    let r1 = rotl13(h1 ^ s);
    let r2 = rotl13(h2 ^ s);
    let m1 = wrapping_mul(r1, 5);
    let m2 = wrapping_mul(r2, 5);
    assert(m1 == m2);
    lemma_wrapping_mul_odd_injective(r1, r2, 5);
    assert(rotl13(h1 ^ s) == rotl13(h2 ^ s) ==> h1 == h2) by (bit_vector);
}

/// Folding a block into the state loses nothing of the block.
proof fn lemma_mix_block_injective_in_block(h: u32, k1: u32, k2: u32)
    requires
        mix_block(h, k1) == mix_block(h, k2),
    ensures
        k1 == k2,
{
    let s1 = scramble(k1);
    let s2 = scramble(k2);
    let r1 = rotl13(h ^ s1);
    let r2 = rotl13(h ^ s2);
    assert(wrapping_mul(r1, 5) == wrapping_mul(r2, 5));
    lemma_wrapping_mul_odd_injective(r1, r2, 5);
    assert(rotl13(h ^ s1) == rotl13(h ^ s2) ==> s1 == s2) by (bit_vector);
    lemma_scramble_injective(k1, k2);
}

proof fn lemma_body_injective_in_seed(key: Seq<u8>, s1: u32, s2: u32, n: nat)
    requires
        body(key, s1, n) == body(key, s2, n),
    ensures
        s1 == s2,
    decreases n,
{
    if n > 0 {
        lemma_mix_block_injective_in_state(
            body(key, s1, (n - 1) as nat),
            body(key, s2, (n - 1) as nat),
            block(key, n - 1),
        );
        lemma_body_injective_in_seed(key, s1, s2, (n - 1) as nat);
    }
}

/// The final avalanche loses nothing.
pub proof fn lemma_fmix_injective(a: u32, b: u32)
    requires
        fmix(a) == fmix(b),
    ensures
        a == b,
{
    let a1 = a ^ (a >> 16u32);
    let b1 = b ^ (b >> 16u32);
    let a2 = wrapping_mul(a1, FMIX1);
    let b2 = wrapping_mul(b1, FMIX1);
    let a3 = a2 ^ (a2 >> 13u32);
    let b3 = b2 ^ (b2 >> 13u32);
    let a4 = wrapping_mul(a3, FMIX2);
    let b4 = wrapping_mul(b3, FMIX2);
    assert(a4 ^ (a4 >> 16u32) == b4 ^ (b4 >> 16u32) ==> a4 == b4) by (bit_vector);
    lemma_wrapping_mul_odd_injective(a3, b3, FMIX2);
    assert(a2 ^ (a2 >> 13u32) == b2 ^ (b2 >> 13u32) ==> a2 == b2) by (bit_vector);
    lemma_wrapping_mul_odd_injective(a1, b1, FMIX1);
    assert(a ^ (a >> 16u32) == b ^ (b >> 16u32) ==> a == b) by (bit_vector);
}

/// For a fixed key, different seeds give different hashes: every step of
/// the hash can be undone.
pub proof fn lemma_murmur3_injective_in_seed(key: Seq<u8>, s1: u32, s2: u32)
    requires
        s1 != s2,
    ensures
        murmur3_32(key, s1) != murmur3_32(key, s2),
{
    let n = key.len() / 4;
    let h1 = body(key, s1, n);
    let h2 = body(key, s2, n);
    let t1 = if key.len() % 4 == 0 { h1 } else { h1 ^ scramble(tail(key)) };
    let t2 = if key.len() % 4 == 0 { h2 } else { h2 ^ scramble(tail(key)) };
    let l = key.len() as u32;
    if murmur3_32(key, s1) == murmur3_32(key, s2) {
        lemma_fmix_injective(t1 ^ l, t2 ^ l);
        let c = scramble(tail(key));
        assert(t1 ^ l == t2 ^ l ==> t1 == t2) by (bit_vector);
        assert(h1 ^ c == h2 ^ c ==> h1 == h2) by (bit_vector);
        lemma_body_injective_in_seed(key, s1, s2, n);
    }
}

/// Different keys of the same length, at most four bytes, never collide
/// under the same seed.
pub proof fn lemma_murmur3_short_keys_distinct(a: Seq<u8>, b: Seq<u8>, seed: u32)
    requires
        a.len() == b.len(),
        a.len() <= 4,
        a != b,
    ensures
        murmur3_32(a, seed) != murmur3_32(b, seed),
{
    let len = a.len();
    if len == 0 {
        assert(a =~= b);
    }
    let n = len / 4;
    let ha = body(a, seed, n);
    let hb = body(b, seed, n);
    let ta = if len % 4 == 0 { ha } else { ha ^ scramble(tail(a)) };
    let tb = if len % 4 == 0 { hb } else { hb ^ scramble(tail(b)) };
    let l = len as u32;
    if murmur3_32(a, seed) == murmur3_32(b, seed) {
        lemma_fmix_injective(ta ^ l, tb ^ l);
        assert(ta ^ l == tb ^ l ==> ta == tb) by (bit_vector);
        if len == 4 {
            assert(body(a, seed, 0) == seed);
            assert(body(b, seed, 0) == seed);
            assert(body(a, seed, 1) == mix_block(seed, block(a, 0)));
            assert(body(b, seed, 1) == mix_block(seed, block(b, 0)));
            lemma_mix_block_injective_in_block(seed, block(a, 0), block(b, 0));
            let (a0, a1, a2, a3) = (a[0], a[1], a[2], a[3]);
            let (b0, b1, b2, b3) = (b[0], b[1], b[2], b[3]);
            assert(block(a, 0) == (a0 as u32) | ((a1 as u32) << 8u32) | ((a2 as u32) << 16u32) | ((
            a3 as u32) << 24u32));
            assert(block(b, 0) == (b0 as u32) | ((b1 as u32) << 8u32) | ((b2 as u32) << 16u32) | ((
            b3 as u32) << 24u32));
            assert(((a0 as u32) | ((a1 as u32) << 8u32) | ((a2 as u32) << 16u32) | ((a3 as u32)
                << 24u32)) == ((b0 as u32) | ((b1 as u32) << 8u32) | ((b2 as u32) << 16u32) | ((
            b3 as u32) << 24u32)) ==> a0 == b0 && a1 == b1 && a2 == b2 && a3 == b3) by (bit_vector);
            assert(a =~= b);
        } else {
            let sa = scramble(tail(a));
            let sb = scramble(tail(b));
            assert(seed ^ sa == seed ^ sb ==> sa == sb) by (bit_vector);
            lemma_scramble_injective(tail(a), tail(b));
            let (a0, b0) = (a[0], b[0]);
            if len == 1 {
                assert(tail(a) == 0u32 ^ (a0 as u32));
                assert(tail(b) == 0u32 ^ (b0 as u32));
                assert((0u32 ^ (a0 as u32)) == (0u32 ^ (b0 as u32)) ==> a0 == b0) by (bit_vector);
                assert(a =~= b);
            } else if len == 2 {
                let (a1, b1) = (a[1], b[1]);
                assert(tail(a) == (0u32 ^ ((a1 as u32) << 8u32)) ^ (a0 as u32));
                assert(tail(b) == (0u32 ^ ((b1 as u32) << 8u32)) ^ (b0 as u32));
                assert(((0u32 ^ ((a1 as u32) << 8u32)) ^ (a0 as u32)) == ((0u32 ^ ((b1 as u32)
                    << 8u32)) ^ (b0 as u32)) ==> a0 == b0 && a1 == b1) by (bit_vector);
                assert(a =~= b);
            } else {
                let (a1, b1, a2, b2) = (a[1], b[1], a[2], b[2]);
                assert(tail(a) == (((a2 as u32) << 16u32) ^ ((a1 as u32) << 8u32)) ^ (a0 as u32));
                assert(tail(b) == (((b2 as u32) << 16u32) ^ ((b1 as u32) << 8u32)) ^ (b0 as u32));
                assert(((((a2 as u32) << 16u32) ^ ((a1 as u32) << 8u32)) ^ (a0 as u32)) == ((((
                b2 as u32) << 16u32) ^ ((b1 as u32) << 8u32)) ^ (b0 as u32)) ==> a0 == b0 && a1
                    == b1 && a2 == b2) by (bit_vector);
                assert(a =~= b);
            }
        }
    }
}

fn scramble_exec(k: u32) -> (r: u32)
    ensures
        r == scramble(k),
{
    let k1 = k.wrapping_mul(C1);
    let k2 = (k1 << 15u32) | (k1 >> 17u32);
    k2.wrapping_mul(C2)
}

fn block_exec(key: &[u8], j: usize) -> (k: u32)
    requires
        4 * j + 4 <= key@.len(),
    ensures
        k == block(key@, j as int),
{
    let len: usize = key.len();
    assert(4 * j + 4 <= len);
    let b: usize = 4 * j;
    (key[b] as u32) | ((key[b + 1] as u32) << 8u32) | ((key[b + 2] as u32) << 16u32) | ((key[b
        + 3] as u32) << 24u32)
}

fn mix_block_exec(h: u32, k: u32) -> (r: u32)
    ensures
        r == mix_block(h, k),
{
    let x = h ^ scramble_exec(k);
    let r = (x << 13u32) | (x >> 19u32);
    r.wrapping_mul(5).wrapping_add(N)
}

fn tail_exec(key: &[u8]) -> (k: u32)
    ensures
        k == tail(key@),
{
    let len: usize = key.len();
    let rem: usize = len % 4;
    let base: usize = len - rem;
    let k2: u32 = if rem >= 3 {
        (key[base + 2] as u32) << 16u32
    } else {
        0
    };
    let k1: u32 = if rem >= 2 {
        k2 ^ ((key[base + 1] as u32) << 8u32)
    } else {
        k2
    };
    if rem >= 1 {
        k1 ^ (key[base] as u32)
    } else {
        k1
    }
}

fn fmix_exec(h: u32) -> (r: u32)
    ensures
        r == fmix(h),
{
    let h1 = h ^ (h >> 16u32);
    let h2 = h1.wrapping_mul(FMIX1);
    let h3 = h2 ^ (h2 >> 13u32);
    let h4 = h3.wrapping_mul(FMIX2);
    h4 ^ (h4 >> 16u32)
}

/// MurmurHash3 (x86, 32 bit) of `key` with `seed`.
pub fn calculate(key: &[u8], seed: u32) -> (h: u32)
    requires
        key@.len() <= u32::MAX,
    ensures
        h == murmur3_32(key@, seed),
{
    let len: usize = key.len();
    let nblocks: usize = len / 4;
    let mut h: u32 = seed;
    let mut j: usize = 0;
    while j < nblocks
        invariant
            len == key@.len(),
            nblocks == len / 4,
            j <= nblocks,
            h == body(key@, seed, j as nat),
        decreases nblocks - j,
    {
        let k = block_exec(key, j);
        h = mix_block_exec(h, k);
        j = j + 1;
    }
    if len % 4 != 0 {
        h = h ^ scramble_exec(tail_exec(key));
    }
    fmix_exec(h ^ (len as u32))
}

} // verus!
