//! The two digests of the login request: the keyed hash of the password and
//! the checksum over the request's fields.

use vstd::prelude::*;
use vstd::string::*;
use vstd::utf8::encode_utf8;
use crate::srun::text::{hex_lower, hex_lower_text, is_lower_hex, lemma_hex_lower_text};

verus! {

/// The HMAC-MD5 of a message under a key, as the `hmac` and `md-5` crates
/// compute it.
pub uninterp spec fn hmac_md5_digest(key: Seq<u8>, message: Seq<u8>) -> Seq<u8>;

/// The SHA-1 of a message, as the `sha1` crate computes it.
pub uninterp spec fn sha1_digest(message: Seq<u8>) -> Seq<u8>;

/// Computes the HMAC-MD5 of a message under a key.
///
/// Trusted: the body keys an `Hmac<Md5>` (`Mac::new_from_slice`, which takes
/// a key of any length), feeds it the message and takes the bytes of
/// `finalize`. The contract names the digest and claims its length, the 16
/// bytes of MD5's output.
#[verifier::external_body]
fn hmac_md5(key: &[u8], message: &[u8]) -> (digest: Vec<u8>)
    ensures
        digest@ == hmac_md5_digest(key@, message@),
        digest@.len() == 16,
{
    let mut mac = <::hmac::Hmac<::md5::Md5> as ::hmac::Mac>::new_from_slice(key).unwrap();
    ::hmac::Mac::update(&mut mac, message);
    ::hmac::Mac::finalize(mac).into_bytes().to_vec()
}

/// Computes the SHA-1 of a message.
///
/// Trusted: the body feeds a `Sha1` hasher the message and takes the bytes of
/// `finalize`. The contract names the digest and claims its length, the 20
/// bytes of SHA-1's output.
#[verifier::external_body]
fn sha1(message: &[u8]) -> (digest: Vec<u8>)
    ensures
        digest@ == sha1_digest(message@),
        digest@.len() == 20,
{
    let mut hasher = <::sha1::Sha1 as ::sha1::Digest>::new();
    ::sha1::Digest::update(&mut hasher, message);
    ::sha1::Digest::finalize(hasher).to_vec()
}

/// The password hash: the HMAC-MD5 of the password keyed by the challenge,
/// in lowercase hexadecimal.
pub open spec fn password_hash_text(password: Seq<char>, challenge: Seq<char>) -> Seq<char> {
    hex_lower_text(hmac_md5_digest(encode_utf8(challenge), encode_utf8(password)))
}

/// What the checksum is taken over: the fields of the login request in their
/// fixed order, each with the challenge in front of it and nothing in
/// between.
pub open spec fn checksum_input(
    challenge: Seq<char>,
    username: Seq<char>,
    hmac: Seq<char>,
    ac_id: Seq<char>,
    ip: Seq<char>,
    info: Seq<char>,
) -> Seq<char> {
    challenge + username + challenge + hmac + challenge + ac_id + challenge + ip + challenge
        + "200"@ + challenge + "1"@ + challenge + info
}

/// The checksum: the SHA-1 of the checksum input, in lowercase hexadecimal.
pub open spec fn checksum_text(
    challenge: Seq<char>,
    username: Seq<char>,
    hmac: Seq<char>,
    ac_id: Seq<char>,
    ip: Seq<char>,
    info: Seq<char>,
) -> Seq<char> {
    hex_lower_text(
        sha1_digest(encode_utf8(checksum_input(challenge, username, hmac, ac_id, ip, info))),
    )
}

/// Whether `s` is `n` lowercase hexadecimal characters.
pub open spec fn is_lower_hex_of_len(s: Seq<char>, n: nat) -> bool {
    s.len() == n && forall|i: int| 0 <= i < s.len() ==> is_lower_hex(#[trigger] s[i])
}

/// Computes the password hash that the portal expects.
pub fn password_hash(password: &str, challenge: &str) -> (hash: String)
    ensures
        hash@ == password_hash_text(password@, challenge@),
        is_lower_hex_of_len(hash@, 32),
{
    let digest = hmac_md5(challenge.as_bytes(), password.as_bytes());
    proof {
        lemma_hex_lower_text(digest@);
    }
    hex_lower(digest.as_slice())
}

/// Computes the checksum of a login request.
pub fn checksum(
    challenge: &str,
    username: &str,
    hmac: &str,
    ac_id: &str,
    ip: &str,
    info: &str,
) -> (sum: String)
    ensures
        sum@ == checksum_text(challenge@, username@, hmac@, ac_id@, ip@, info@),
        is_lower_hex_of_len(sum@, 40),
{
    let mut input = String::new();
    input.append(challenge);
    input.append(username);
    input.append(challenge);
    input.append(hmac);
    input.append(challenge);
    input.append(ac_id);
    input.append(challenge);
    input.append(ip);
    input.append(challenge);
    input.append("200");
    input.append(challenge);
    input.append("1");
    input.append(challenge);
    input.append(info);
    assert(input@ =~= checksum_input(challenge@, username@, hmac@, ac_id@, ip@, info@));
    let digest = sha1(input.as_str().as_bytes());
    proof {
        lemma_hex_lower_text(digest@);
    }
    hex_lower(digest.as_slice())
}

} // verus!
