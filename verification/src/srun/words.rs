//! Packing of byte strings into 32-bit little-endian words, and back.

use vstd::arithmetic::div_mod::lemma_fundamental_div_mod_converse;
use vstd::prelude::*;

verus! {

/// The byte at position `i`, or zero past the end: the padding of the last
/// word.
pub open spec fn byte_or_zero(bytes: Seq<u8>, i: int) -> u8 {
    if 0 <= i < bytes.len() {
        bytes[i]
    } else {
        0
    }
}

/// The value of four bytes read as one little-endian word.
pub open spec fn le_word(b0: u8, b1: u8, b2: u8, b3: u8) -> u32 {
    (b0 + 0x100 * b1 + 0x1_0000 * b2 + 0x100_0000 * b3) as u32
}

/// Word `k` of a packed byte string: bytes `4k .. 4k + 4`, the missing ones
/// taken as zero.
pub open spec fn packed_word(bytes: Seq<u8>, k: int) -> u32 {
    le_word(
        byte_or_zero(bytes, 4 * k),
        byte_or_zero(bytes, 4 * k + 1),
        byte_or_zero(bytes, 4 * k + 2),
        byte_or_zero(bytes, 4 * k + 3),
    )
}

/// The number of words that `n` bytes fill.
pub open spec fn word_count(n: nat) -> nat {
    (n + 3) / 4
}

/// The word that records a byte length: the length modulo 2^32.
pub open spec fn length_word(n: nat) -> u32 {
    (n % 0x1_0000_0000) as u32
}

/// The packing of a byte string: its words, followed by the length word when
/// `append_len` is set.
pub open spec fn pack_words(bytes: Seq<u8>, append_len: bool) -> Seq<u32> {
    let words = Seq::new(word_count(bytes.len()), |k: int| packed_word(bytes, k));
    if append_len {
        words.push(length_word(bytes.len()))
    } else {
        words
    }
}

/// Byte `j` (0 to 3, lowest first) of a word.
pub open spec fn word_byte(w: u32, j: int) -> u8 {
    if j == 0 {
        (w % 0x100) as u8
    } else if j == 1 {
        ((w / 0x100) % 0x100) as u8
    } else if j == 2 {
        ((w / 0x1_0000) % 0x100) as u8
    } else {
        ((w / 0x100_0000) % 0x100) as u8
    }
}

/// All bytes of a word sequence, four per word, lowest byte first.
pub open spec fn unpacked_bytes(words: Seq<u32>) -> Seq<u8> {
    Seq::new(4 * words.len(), |i: int| word_byte(words[i / 4], i % 4))
}

/// The unpacking of a word sequence.
///
/// Without `has_len` it is all the bytes of all the words. With `has_len` the
/// last word is a byte length `m` for the words before it: there must be such
/// a word, `m` must lie within the last three bytes of padding
/// (`c - 3 <= m <= c` for `c` the byte count of the words before it), and the
/// result is the first `m` bytes.
pub open spec fn unpack_words(words: Seq<u32>, has_len: bool) -> Option<Seq<u8>> {
    if !has_len {
        Some(unpacked_bytes(words))
    } else if words.len() == 0 {
        None
    } else {
        let c = 4 * (words.len() - 1);
        let m = words.last() as int;
        if m + 3 < c || m > c {
            None
        } else {
            Some(unpacked_bytes(words).subrange(0, m))
        }
    }
}

/// The four bytes of a little-endian word are the bytes it was made of.
pub proof fn lemma_le_word_bytes(b0: u8, b1: u8, b2: u8, b3: u8)
    ensures
        word_byte(le_word(b0, b1, b2, b3), 0) == b0,
        word_byte(le_word(b0, b1, b2, b3), 1) == b1,
        word_byte(le_word(b0, b1, b2, b3), 2) == b2,
        word_byte(le_word(b0, b1, b2, b3), 3) == b3,
{
    let w = le_word(b0, b1, b2, b3) as int;
    assert(w == b0 + 0x100 * b1 + 0x1_0000 * b2 + 0x100_0000 * b3);
    lemma_fundamental_div_mod_converse(w, 0x100, b1 + 0x100 * b2 + 0x1_0000 * b3, b0 as int);
    lemma_fundamental_div_mod_converse(w / 0x100, 0x100, b2 + 0x100 * b3, b1 as int);
    lemma_fundamental_div_mod_converse(w, 0x1_0000, b2 + 0x100 * b3, b0 + 0x100 * b1);
    lemma_fundamental_div_mod_converse(w / 0x1_0000, 0x100, b3 as int, b2 as int);
    lemma_fundamental_div_mod_converse(
        w,
        0x100_0000,
        b3 as int,
        b0 + 0x100 * b1 + 0x1_0000 * b2,
    );
    lemma_fundamental_div_mod_converse(w / 0x100_0000, 0x100, 0, b3 as int);
}

/// A word is the little-endian word of its four bytes.
pub proof fn lemma_word_of_bytes(w: u32)
    ensures
        le_word(word_byte(w, 0), word_byte(w, 1), word_byte(w, 2), word_byte(w, 3)) == w,
{
}

/// The bytes of a word sequence tell the words: two sequences with the same
/// bytes are the same.
pub proof fn lemma_unpacked_bytes_tell_words(words: Seq<u32>, other: Seq<u32>)
    requires
        unpacked_bytes(words) == unpacked_bytes(other),
    ensures
        words == other,
{
    let a = unpacked_bytes(words);
    let b = unpacked_bytes(other);
    assert(a.len() == 4 * words.len());
    assert(b.len() == 4 * other.len());
    assert forall|k: int| 0 <= k < words.len() implies words[k] == other[k] by {
        lemma_word_of_bytes(words[k]);
        lemma_word_of_bytes(other[k]);
        assert(a[4 * k] == word_byte(words[k], 0) && b[4 * k] == word_byte(other[k], 0));
        assert(a[4 * k + 1] == word_byte(words[k], 1) && b[4 * k + 1] == word_byte(other[k], 1));
        assert(a[4 * k + 2] == word_byte(words[k], 2) && b[4 * k + 2] == word_byte(other[k], 2));
        assert(a[4 * k + 3] == word_byte(words[k], 3) && b[4 * k + 3] == word_byte(other[k], 3));
    }
    assert(words =~= other);
}

/// Unpacking what was packed without a length word gives the bytes back,
/// followed by the zero padding of the last word.
pub proof fn lemma_unpack_pack_padded(bytes: Seq<u8>)
    ensures
        unpack_words(pack_words(bytes, false), false) is Some,
        unpack_words(pack_words(bytes, false), false)->0.len() == 4 * word_count(bytes.len()),
        unpack_words(pack_words(bytes, false), false)->0.subrange(0, bytes.len() as int) == bytes,
        forall|i: int|
            bytes.len() <= i < 4 * word_count(bytes.len()) ==> #[trigger] unpack_words(
                pack_words(bytes, false),
                false,
            )->0[i] == 0,
        bytes.len() % 4 == 0 ==> unpack_words(pack_words(bytes, false), false) == Some(bytes),
{
    let words = pack_words(bytes, false);
    let out = unpacked_bytes(words);
    assert forall|i: int| 0 <= i < out.len() implies #[trigger] out[i] == byte_or_zero(
        bytes,
        i,
    ) by {
        let k = i / 4;
        lemma_le_word_bytes(
            byte_or_zero(bytes, 4 * k),
            byte_or_zero(bytes, 4 * k + 1),
            byte_or_zero(bytes, 4 * k + 2),
            byte_or_zero(bytes, 4 * k + 3),
        );
    }
    assert(out.subrange(0, bytes.len() as int) =~= bytes);
    if bytes.len() % 4 == 0 {
        assert(out =~= bytes);
    }
}

/// Round trip: a byte string whose length fits the length word is recovered
/// exactly by packing it with its length and unpacking with the trim.
pub proof fn lemma_unpack_pack(bytes: Seq<u8>)
    requires
        bytes.len() <= u32::MAX,
    ensures
        unpack_words(pack_words(bytes, true), true) == Some(bytes),
{
    let words = pack_words(bytes, true);
    let out = unpacked_bytes(words);
    let n = bytes.len() as int;
    assert(words.len() == word_count(bytes.len()) + 1);
    assert(words.last() == n);
    assert forall|i: int| 0 <= i < n implies #[trigger] out[i] == bytes[i] by {
        let k = i / 4;
        lemma_le_word_bytes(
            byte_or_zero(bytes, 4 * k),
            byte_or_zero(bytes, 4 * k + 1),
            byte_or_zero(bytes, 4 * k + 2),
            byte_or_zero(bytes, 4 * k + 3),
        );
    }
    assert(out.subrange(0, n) =~= bytes);
}

/// Packs bytes into little-endian words, the last word padded with zero
/// bytes, and appends the byte length as one more word when `append_len` is
/// set.
pub fn pack(bytes: &[u8], append_len: bool) -> (words: Vec<u32>)
    ensures
        words@ == pack_words(bytes@, append_len),
{
    let n = bytes.len();
    let count: usize = n / 4 + if n % 4 != 0 { 1 } else { 0 };
    let mut words: Vec<u32> = Vec::new();
    let mut k: usize = 0;
    while k < count
        invariant
            n == bytes.len(),
            count == word_count(n as nat),
            k <= count,
            words.len() == k,
            forall|j: int| 0 <= j < k ==> words@[j] == packed_word(bytes@, j),
        decreases count - k,
    {
        let i: usize = 4 * k;
        let b0: u32 = bytes[i] as u32;
        let b1: u32 = if n - i > 1 { bytes[i + 1] as u32 } else { 0 };
        let b2: u32 = if n - i > 2 { bytes[i + 2] as u32 } else { 0 };
        let b3: u32 = if n - i > 3 { bytes[i + 3] as u32 } else { 0 };
        words.push(b0 + 0x100 * b1 + 0x1_0000 * b2 + 0x100_0000 * b3);
        k += 1;
    }
    assert(words@ =~= pack_words(bytes@, false));
    if append_len {
        let len64: u64 = n as u64;
        let m: u32 = (len64 % 0x1_0000_0000) as u32;
        words.push(m);
    }
    words
}

/// Unpacks words into bytes, four per word and lowest byte first.
pub fn unpack_all(words: &Vec<u32>) -> (bytes: Vec<u8>)
    ensures
        bytes@ == unpacked_bytes(words@),
{
    let d = words.len();
    let mut bytes: Vec<u8> = Vec::new();
    let mut k: usize = 0;
    while k < d
        invariant
            d == words.len(),
            k <= d,
            bytes.len() == 4 * k,
            forall|i: int| 0 <= i < 4 * k ==> bytes@[i] == #[trigger] unpacked_bytes(words@)[i],
        decreases d - k,
    {
        let w: u32 = words[k];
        bytes.push((w % 0x100) as u8);
        bytes.push(((w / 0x100) % 0x100) as u8);
        bytes.push(((w / 0x1_0000) % 0x100) as u8);
        bytes.push(((w / 0x100_0000) % 0x100) as u8);
        k += 1;
    }
    assert(bytes@ =~= unpacked_bytes(words@));
    bytes
}

/// Unpacks words into bytes. With `has_len` the last word is read as the byte
/// length of the words before it: the result is `None` when that word is
/// missing or does not fall within the padding of the last data word, and is
/// cut to that length otherwise.
pub fn unpack(words: &Vec<u32>, has_len: bool) -> (bytes: Option<Vec<u8>>)
    ensures
        bytes is Some <==> unpack_words(words@, has_len) is Some,
        bytes matches Some(b) ==> b@ == unpack_words(words@, has_len)->0,
{
    let d = words.len();
    let mut keep: usize = 0;
    if has_len {
        if d == 0 {
            return None;
        }
        let m: u32 = words[d - 1];
        // More than 2^30 data words hold more bytes than any length word
        // can come close to.
        if d - 1 > 0x4000_0000 {
            return None;
        }
        let c: u64 = 4 * ((d - 1) as u64);
        if (m as u64) + 3 < c || (m as u64) > c {
            return None;
        }
        keep = m as usize;
    }
    let mut bytes = unpack_all(words);
    if has_len {
        bytes.truncate(keep);
    }
    Some(bytes)
}

} // verus!
