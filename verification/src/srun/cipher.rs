//! The keyed block mix of the portal's obfuscation cipher.
//!
//! The block is a sequence of 32-bit words that is rewritten in place, round
//! after round; the key is another word sequence of which the first four
//! words are used, missing ones counting as zero. All arithmetic is modulo
//! 2^32. The transform exists to interoperate with the portal and offers no
//! cryptographic strength.

use vstd::prelude::*;

verus! {

/// What every round adds to the round accumulator.
pub const DELTA: u32 = 0x9E37_79B9;

/// Key word `i`, or zero where the key has no such word.
pub open spec fn key_word(key: Seq<u32>, i: int) -> u32 {
    if 0 <= i < key.len() {
        key[i]
    } else {
        0
    }
}

/// The key selection of a round, derived from its accumulator `d`.
pub open spec fn key_select(d: u32) -> u32 {
    (d >> 2) & 3
}

/// The index of the key word that position `p` uses in the round with
/// accumulator `d`.
pub open spec fn key_index(p: nat, d: u32) -> u32 {
    ((p % 4) as u32) ^ key_select(d)
}

/// The new value of a word: the old one plus a mix of the word on its left
/// `z`, the word on its right `y`, the round accumulator `d` and the key word
/// `k`.
pub open spec fn mix_word(old_word: u32, z: u32, y: u32, d: u32, k: u32) -> u32 {
    old_word.wrapping_add(
        ((z >> 5) ^ (y << 2)).wrapping_add((y >> 3) ^ (z << 4) ^ (d ^ y)).wrapping_add(k ^ z),
    )
}

/// The position to the left of `p` in a block of `len` words, the block read
/// as a ring.
pub open spec fn left_of(p: int, len: int) -> int {
    if p == 0 {
        len - 1
    } else {
        p - 1
    }
}

/// The position to the right of `p` in a block of `len` words, the block read
/// as a ring.
pub open spec fn right_of(p: int, len: int) -> int {
    if p + 1 == len {
        0
    } else {
        p + 1
    }
}

/// The block after positions `0 .. upto` have been rewritten in the round
/// with accumulator `d`. Every position reads its neighbours as they are at
/// that moment: the left one was rewritten just before (for position 0 it is
/// the last word, as the round before left it), the right one is still to
/// come (for the last position it is word 0, already rewritten).
pub open spec fn sweep(block: Seq<u32>, key: Seq<u32>, d: u32, upto: nat) -> Seq<u32>
    decreases upto,
{
    if upto == 0 {
        block
    } else {
        let p = upto - 1;
        let before = sweep(block, key, d, p as nat);
        let len = block.len() as int;
        let z = before[left_of(p, len)];
        let y = before[right_of(p, len)];
        let k = key_word(key, key_index(p as nat, d) as int);
        before.update(p, mix_word(before[p], z, y, d, k))
    }
}

/// The accumulator of round `r` (counted from 1): `r` times `DELTA`, modulo
/// 2^32.
pub open spec fn round_sum(r: nat) -> u32
    decreases r,
{
    if r == 0 {
        0
    } else {
        round_sum((r - 1) as nat).wrapping_add(DELTA)
    }
}

/// The block after `r` rounds.
pub open spec fn rounds(block: Seq<u32>, key: Seq<u32>, r: nat) -> Seq<u32>
    decreases r,
{
    if r == 0 {
        block
    } else {
        sweep(rounds(block, key, (r - 1) as nat), key, round_sum(r), block.len())
    }
}

/// The number of rounds for a block of `len` words.
pub open spec fn round_count(len: nat) -> nat {
    if len == 0 {
        0
    } else {
        6 + 52nat / len
    }
}

/// The mixed block: all the rounds that its length calls for. An empty block
/// has nothing to mix.
pub open spec fn mix(block: Seq<u32>, key: Seq<u32>) -> Seq<u32> {
    rounds(block, key, round_count(block.len()))
}

/// Whether two keys agree on the four words that the mix reads.
pub open spec fn same_key_words(key: Seq<u32>, other: Seq<u32>) -> bool {
    forall|i: int| 0 <= i < 4 ==> key_word(key, i) == key_word(other, i)
}

/// Every position uses one of the first four key words.
pub proof fn lemma_key_index_bound(p: nat, d: u32)
    ensures
        key_index(p, d) < 4,
{
    let a = (p % 4) as u32;
    assert((a ^ ((d >> 2) & 3)) < 4) by (bit_vector)
        requires
            a < 4,
    ;
}

proof fn lemma_sweep_reads_four_key_words(
    block: Seq<u32>,
    key: Seq<u32>,
    other: Seq<u32>,
    d: u32,
    upto: nat,
)
    requires
        same_key_words(key, other),
    ensures
        sweep(block, key, d, upto) == sweep(block, other, d, upto),
    decreases upto,
{
    if upto > 0 {
        let p = (upto - 1) as nat;
        lemma_sweep_reads_four_key_words(block, key, other, d, p);
        lemma_key_index_bound(p, d);
    }
}

proof fn lemma_rounds_read_four_key_words(
    block: Seq<u32>,
    key: Seq<u32>,
    other: Seq<u32>,
    r: nat,
)
    requires
        same_key_words(key, other),
    ensures
        rounds(block, key, r) == rounds(block, other, r),
    decreases r,
{
    if r > 0 {
        lemma_rounds_read_four_key_words(block, key, other, (r - 1) as nat);
        lemma_sweep_reads_four_key_words(
            rounds(block, key, (r - 1) as nat),
            key,
            other,
            round_sum(r),
            block.len(),
        );
    }
}

/// The mix reads the first four words of the key and no others: keys that
/// agree on them give the same block. A change to the key beyond its first
/// sixteen bytes therefore changes nothing.
pub proof fn lemma_mix_reads_four_key_words(block: Seq<u32>, key: Seq<u32>, other: Seq<u32>)
    requires
        same_key_words(key, other),
    ensures
        mix(block, key) == mix(block, other),
{
    lemma_rounds_read_four_key_words(block, key, other, round_count(block.len()));
}

/// A sweep leaves the block its length.
proof fn lemma_sweep_len(block: Seq<u32>, key: Seq<u32>, d: u32, upto: nat)
    requires
        upto <= block.len(),
    ensures
        sweep(block, key, d, upto).len() == block.len(),
    decreases upto,
{
    if upto > 0 {
        lemma_sweep_len(block, key, d, (upto - 1) as nat);
    }
}

/// The rounds leave the block its length.
proof fn lemma_rounds_len(block: Seq<u32>, key: Seq<u32>, r: nat)
    ensures
        rounds(block, key, r).len() == block.len(),
    decreases r,
{
    if r > 0 {
        lemma_rounds_len(block, key, (r - 1) as nat);
        lemma_sweep_len(rounds(block, key, (r - 1) as nat), key, round_sum(r), block.len());
    }
}

proof fn lemma_sweep_loses_nothing(
    block: Seq<u32>,
    other: Seq<u32>,
    key: Seq<u32>,
    d: u32,
    upto: nat,
)
    requires
        block.len() == other.len(),
        block.len() >= 2,
        upto <= block.len(),
        sweep(block, key, d, upto) == sweep(other, key, d, upto),
    ensures
        block == other,
    decreases upto,
{
    if upto > 0 {
        let p = (upto - 1) as int;
        let len = block.len() as int;
        let a = sweep(block, key, d, p as nat);
        let b = sweep(other, key, d, p as nat);
        lemma_sweep_len(block, key, d, p as nat);
        lemma_sweep_len(other, key, d, p as nat);
        let k = key_word(key, key_index(p as nat, d) as int);
        let za = a[left_of(p, len)];
        let ya = a[right_of(p, len)];
        let zb = b[left_of(p, len)];
        let yb = b[right_of(p, len)];
        let after_a = a.update(p, mix_word(a[p], za, ya, d, k));
        let after_b = b.update(p, mix_word(b[p], zb, yb, d, k));
        assert(after_a == after_b);
        assert forall|i: int| 0 <= i < len && i != p implies a[i] == b[i] by {
            assert(after_a[i] == a[i]);
            assert(after_b[i] == b[i]);
        }
        assert(za == zb && ya == yb);
        assert(after_a[p] == after_b[p]);
        assert(a[p] == b[p]);
        assert(a =~= b);
        lemma_sweep_loses_nothing(block, other, key, d, p as nat);
    }
}

proof fn lemma_rounds_lose_nothing(block: Seq<u32>, other: Seq<u32>, key: Seq<u32>, r: nat)
    requires
        block.len() == other.len(),
        block.len() >= 2,
        rounds(block, key, r) == rounds(other, key, r),
    ensures
        block == other,
    decreases r,
{
    if r > 0 {
        let a = rounds(block, key, (r - 1) as nat);
        let b = rounds(other, key, (r - 1) as nat);
        lemma_rounds_len(block, key, (r - 1) as nat);
        lemma_rounds_len(other, key, (r - 1) as nat);
        lemma_sweep_loses_nothing(a, b, key, round_sum(r), block.len());
        lemma_rounds_lose_nothing(block, other, key, (r - 1) as nat);
    }
}

/// The mix keeps the length of the block.
pub proof fn lemma_mix_len(block: Seq<u32>, key: Seq<u32>)
    ensures
        mix(block, key).len() == block.len(),
{
    lemma_rounds_len(block, key, round_count(block.len()));
}

/// The mix loses nothing: under one key, blocks of two words or more that
/// are mixed to the same block are the same block. (A block of one word is
/// its own neighbour on both sides, and nothing is claimed of it.)
pub proof fn lemma_mix_loses_nothing(block: Seq<u32>, other: Seq<u32>, key: Seq<u32>)
    requires
        block.len() >= 2,
        mix(block, key) == mix(other, key),
    ensures
        block == other,
{
    lemma_mix_len(block, key);
    lemma_mix_len(other, key);
    lemma_rounds_lose_nothing(block, other, key, round_count(block.len()));
}

/// Within one step the key word tells: with everything else the same, two
/// different key words give two different words. Nothing is said here of a
/// whole round, in which a later step may undo what an earlier one told.
pub proof fn lemma_mix_word_tells_key(old_word: u32, z: u32, y: u32, d: u32, k: u32, other: u32)
    requires
        k != other,
    ensures
        mix_word(old_word, z, y, d, k) != mix_word(old_word, z, y, d, other),
{
    assert((k ^ z) != (other ^ z)) by (bit_vector)
        requires
            k != other,
    ;
}

fn mix_one(old_word: u32, z: u32, y: u32, d: u32, k: u32) -> (r: u32)
    ensures
        r == mix_word(old_word, z, y, d, k),
{
    let mut m: u32 = (z >> 5) ^ (y << 2);
    m = m.wrapping_add((y >> 3) ^ (z << 4) ^ (d ^ y));
    m = m.wrapping_add(k ^ z);
    old_word.wrapping_add(m)
}

fn select_key(key: &Vec<u32>, p: usize, d: u32) -> (k: u32)
    ensures
        k == key_word(key@, key_index(p as nat, d) as int),
{
    let e: u32 = (d >> 2) & 3;
    let i: u32 = ((p % 4) as u32) ^ e;
    if (i as usize) < key.len() {
        key[i as usize]
    } else {
        0
    }
}

/// Mixes the block in place under the given key.
pub fn mix_block(block: &mut Vec<u32>, key: &Vec<u32>)
    ensures
        final(block)@ == mix(old(block)@, key@),
{
    let len = block.len();
    if len == 0 {
        return;
    }
    let n: usize = len - 1;
    let ghost start = block@;
    let ghost total = round_count(len as nat);
    let mut q: usize = 6 + 52 / len;
    let mut d: u32 = 0;
    let mut z: u32 = block[n];
    while q > 0
        invariant
            len > 0,
            n == len - 1,
            block.len() == len,
            start.len() == len,
            total == round_count(len as nat),
            q <= total,
            d == round_sum((total - q) as nat),
            block@ == rounds(start, key@, (total - q) as nat),
            z == block@[n as int],
        decreases q,
    {
        q -= 1;
        d = d.wrapping_add(DELTA);
        let ghost round_start = block@;
        let mut p: usize = 0;
        while p < len
            invariant
                len > 0,
                n == len - 1,
                p <= len,
                block.len() == len,
                round_start.len() == len,
                block@ == sweep(round_start, key@, d, p as nat),
                z == block@[left_of(p as int, len as int)],
            decreases len - p,
        {
            let y: u32 = if p == n { block[0] } else { block[p + 1] };
            let k = select_key(key, p, d);
            z = mix_one(block[p], z, y, d, k);
            block.set(p, z);
            p += 1;
        }
    }
}

} // verus!
