//! Base64 with a caller-chosen alphabet and `=` padding.

use vstd::prelude::*;

verus! {

/// The alphabet that the portal uses in place of the standard one.
pub const PORTAL_ALPHABET: &'static str =
    "LVoJPiCN2R8G90yg+hmFHuacZ1OWMnrsSTXkYpUq/3dlbfKwv6xztjI7DeBE45QA";

/// What makes 64 characters a base64 alphabet: each is printable ASCII and
/// not the padding character, and none occurs twice.
pub open spec fn base64_alphabet(alphabet: Seq<char>) -> bool {
    &&& alphabet.len() == 64
    &&& forall|i: int|
        0 <= i < 64 ==> 32 <= (#[trigger] alphabet[i]) as u32 <= 126 && alphabet[i] != '='
    &&& forall|i: int, j: int| 0 <= i < j < 64 ==> alphabet[i] != alphabet[j]
}

/// The first of the four 6-bit groups of a 3-byte block: the high six bits of
/// the first byte.
pub open spec fn sextet_a(b0: u8) -> u8 {
    b0 >> 2
}

/// The second group: the low two bits of the first byte, then the high four
/// of the second.
pub open spec fn sextet_b(b0: u8, b1: u8) -> u8 {
    ((b0 << 4) | (b1 >> 4)) & 0x3f
}

/// The third group: the low four bits of the second byte, then the high two
/// of the third.
pub open spec fn sextet_c(b1: u8, b2: u8) -> u8 {
    ((b1 << 2) | (b2 >> 6)) & 0x3f
}

/// The fourth group: the low six bits of the third byte.
pub open spec fn sextet_d(b2: u8) -> u8 {
    b2 & 0x3f
}

/// The padded base64 text of `data` under `alphabet`: four symbols for every
/// three bytes; a last block of one or two bytes is filled up with zero bits
/// and its unused symbols are written as `=`.
pub open spec fn base64_text(alphabet: Seq<char>, data: Seq<u8>) -> Seq<char>
    decreases data.len(),
{
    if data.len() == 0 {
        Seq::empty()
    } else if data.len() == 1 {
        seq![
            alphabet[sextet_a(data[0]) as int],
            alphabet[sextet_b(data[0], 0) as int],
            '=',
            '=',
        ]
    } else if data.len() == 2 {
        seq![
            alphabet[sextet_a(data[0]) as int],
            alphabet[sextet_b(data[0], data[1]) as int],
            alphabet[sextet_c(data[1], 0) as int],
            '=',
        ]
    } else {
        seq![
            alphabet[sextet_a(data[0]) as int],
            alphabet[sextet_b(data[0], data[1]) as int],
            alphabet[sextet_c(data[1], data[2]) as int],
            alphabet[sextet_d(data[2]) as int],
        ] + base64_text(alphabet, data.skip(3))
    }
}

/// The length of a base64 text: four symbols for every three bytes begun.
pub proof fn lemma_base64_len(alphabet: Seq<char>, data: Seq<u8>)
    ensures
        base64_text(alphabet, data).len() == 4 * ((data.len() + 2) / 3),
    decreases data.len(),
{
    if data.len() >= 3 {
        lemma_base64_len(alphabet, data.skip(3));
    }
}

proof fn lemma_sextets_are_positions(b0: u8, b1: u8, b2: u8)
    ensures
        sextet_a(b0) < 64,
        sextet_b(b0, b1) < 64,
        sextet_c(b1, b2) < 64,
        sextet_d(b2) < 64,
{
    assert((b0 >> 2) < 64) by (bit_vector);
    assert((((b0 << 4) | (b1 >> 4)) & 0x3f) < 64) by (bit_vector);
    assert((((b1 << 2) | (b2 >> 6)) & 0x3f) < 64) by (bit_vector);
    assert((b2 & 0x3f) < 64) by (bit_vector);
}

proof fn lemma_sextets_tell_bytes(a0: u8, a1: u8, a2: u8, b0: u8, b1: u8, b2: u8)
    requires
        sextet_a(a0) == sextet_a(b0),
        sextet_b(a0, a1) == sextet_b(b0, b1),
        sextet_c(a1, a2) == sextet_c(b1, b2),
        sextet_d(a2) == sextet_d(b2),
    ensures
        a0 == b0,
        a1 == b1,
        a2 == b2,
{
    assert(a0 == b0 && a1 == b1 && a2 == b2) by (bit_vector)
        requires
            (a0 >> 2) == (b0 >> 2),
            (((a0 << 4) | (a1 >> 4)) & 0x3f) == (((b0 << 4) | (b1 >> 4)) & 0x3f),
            (((a1 << 2) | (a2 >> 6)) & 0x3f) == (((b1 << 2) | (b2 >> 6)) & 0x3f),
            (a2 & 0x3f) == (b2 & 0x3f),
    ;
}

/// Two positions of a base64 alphabet that hold the same symbol are the
/// same position.
proof fn lemma_symbol_tells_position(alphabet: Seq<char>, i: u8, j: u8)
    requires
        base64_alphabet(alphabet),
        i < 64,
        j < 64,
        alphabet[i as int] == alphabet[j as int],
    ensures
        i == j,
{
    if i < j {
        assert(alphabet[i as int] != alphabet[j as int]);
    } else if j < i {
        assert(alphabet[j as int] != alphabet[i as int]);
    }
}

/// The first three bytes of a byte string, missing ones taken as zero.
spec fn head(data: Seq<u8>) -> (u8, u8, u8) {
    (
        if data.len() > 0 { data[0] } else { 0 },
        if data.len() > 1 { data[1] } else { 0 },
        if data.len() > 2 { data[2] } else { 0 },
    )
}

/// The first four symbols of the text of a byte string that is not empty:
/// the symbols of its first bytes, and `=` for the bytes that are missing.
proof fn lemma_first_symbols(alphabet: Seq<char>, data: Seq<u8>)
    requires
        base64_alphabet(alphabet),
        data.len() > 0,
    ensures
        base64_text(alphabet, data).len() >= 4,
        base64_text(alphabet, data)[0] == alphabet[sextet_a(head(data).0) as int],
        base64_text(alphabet, data)[1] == alphabet[sextet_b(head(data).0, head(data).1) as int],
        base64_text(alphabet, data)[2] == if data.len() > 1 {
            alphabet[sextet_c(head(data).1, head(data).2) as int]
        } else {
            '='
        },
        base64_text(alphabet, data)[3] == if data.len() > 2 {
            alphabet[sextet_d(head(data).2) as int]
        } else {
            '='
        },
        data.len() > 3 ==> base64_text(alphabet, data).subrange(
            4,
            base64_text(alphabet, data).len() as int,
        ) == base64_text(alphabet, data.skip(3)),
        data.len() <= 3 ==> base64_text(alphabet, data).len() == 4,
{
    lemma_base64_len(alphabet, data);
    if data.len() >= 3 {
        let rest = base64_text(alphabet, data.skip(3));
        let text = base64_text(alphabet, data);
        lemma_base64_len(alphabet, data.skip(3));
        assert(text.subrange(4, text.len() as int) =~= rest);
    }
}

/// The base64 text tells the bytes: under one alphabet, byte strings with
/// the same text are the same.
pub proof fn lemma_base64_tells_bytes(alphabet: Seq<char>, data: Seq<u8>, other: Seq<u8>)
    requires
        base64_alphabet(alphabet),
        base64_text(alphabet, data) == base64_text(alphabet, other),
    ensures
        data == other,
    decreases data.len(),
{
    lemma_base64_len(alphabet, data);
    lemma_base64_len(alphabet, other);
    if data.len() == 0 || other.len() == 0 {
        assert(data =~= other);
    } else {
        let (a0, a1, a2) = head(data);
        let (b0, b1, b2) = head(other);
        lemma_first_symbols(alphabet, data);
        lemma_first_symbols(alphabet, other);
        lemma_sextets_are_positions(a0, a1, a2);
        lemma_sextets_are_positions(b0, b1, b2);
        let text = base64_text(alphabet, data);
        assert(text[2] == '=' <==> data.len() == 1);
        assert(text[2] == '=' <==> other.len() == 1);
        assert(text[3] == '=' <==> data.len() <= 2);
        assert(text[3] == '=' <==> other.len() <= 2);
        lemma_symbol_tells_position(alphabet, sextet_a(a0), sextet_a(b0));
        lemma_symbol_tells_position(alphabet, sextet_b(a0, a1), sextet_b(b0, b1));
        if data.len() > 1 {
            lemma_symbol_tells_position(alphabet, sextet_c(a1, a2), sextet_c(b1, b2));
        }
        if data.len() > 2 {
            lemma_symbol_tells_position(alphabet, sextet_d(a2), sextet_d(b2));
        }
        lemma_sextets_tell_bytes(a0, a1, a2, b0, b1, b2);
        if data.len() <= 3 {
            assert(other.len() <= 3);
            assert(data =~= other);
        } else {
            assert(other.len() > 3);
            lemma_base64_tells_bytes(alphabet, data.skip(3), other.skip(3));
            assert forall|i: int| 0 <= i < data.len() implies data[i] == other[i] by {
                if i >= 3 {
                    assert(data.skip(3)[i - 3] == data[i]);
                    assert(other.skip(3)[i - 3] == other[i]);
                }
            }
            assert(data.len() == data.skip(3).len() + 3);
            assert(other.len() == other.skip(3).len() + 3);
            assert(data =~= other);
        }
    }
}

/// Encodes bytes as padded base64 under the given alphabet.
///
/// Trusted: the body builds an `Alphabet` of the `base64` crate from the
/// string (`Alphabet::new`, which accepts exactly the strings that
/// `base64_alphabet` describes), a `GeneralPurpose` engine with the `PAD`
/// configuration from it, and calls `Engine::encode`. The contract claims
/// that the engine writes RFC 4648 base64 with the symbols taken from the
/// alphabet by position. `encode` panics only where the encoded length
/// overflows `usize`, which no slice of bytes in memory can cause.
#[verifier::external_body]
fn encode_with_alphabet(alphabet: &str, data: &[u8]) -> (text: String)
    requires
        base64_alphabet(alphabet@),
    ensures
        text@ == base64_text(alphabet@, data@),
{
    let symbols = ::base64::alphabet::Alphabet::new(alphabet).unwrap();
    let engine =
        ::base64::engine::GeneralPurpose::new(&symbols, ::base64::engine::general_purpose::PAD);
    ::base64::Engine::encode(&engine, data)
}

/// The portal's alphabet is a base64 alphabet.
pub proof fn lemma_portal_alphabet()
    ensures
        base64_alphabet(PORTAL_ALPHABET@),
{
    reveal_strlit("LVoJPiCN2R8G90yg+hmFHuacZ1OWMnrsSTXkYpUq/3dlbfKwv6xztjI7DeBE45QA");
}

/// Encodes bytes as padded base64 under the portal's alphabet.
pub fn encode_portal(data: &[u8]) -> (text: String)
    ensures
        text@ == base64_text(PORTAL_ALPHABET@, data@),
{
    proof {
        lemma_portal_alphabet();
    }
    encode_with_alphabet(PORTAL_ALPHABET, data)
}

} // verus!
