//! The `{SRBX1}` encoding of the login record: the record is printed as
//! JSON, packed into words, mixed under the challenge, unpacked and written
//! in the portal's base64.

use vstd::prelude::*;
use vstd::string::*;
use vstd::utf8::encode_utf8;
use crate::srun::base64::{
    base64_text, encode_portal, lemma_base64_tells_bytes, lemma_portal_alphabet, PORTAL_ALPHABET,
};
use crate::srun::cipher::{lemma_mix_len, lemma_mix_loses_nothing, mix, mix_block};
use crate::srun::document::{
    json_object_text, no_members, push_member, stringify_members, text_member, MemberView,
};
use crate::srun::words::{
    lemma_unpack_pack, lemma_unpacked_bytes_tell_words, pack, pack_words, unpack, unpack_all,
    unpack_words,
};

verus! {

/// The tag in front of every encoded record.
pub const TAG: &'static str = "{SRBX1}";

/// The encryption version that every record names.
pub const ENC_VER: &'static str = "srun_bx1";

/// The bytes that the cipher makes of a plaintext under a key: the plaintext
/// packed with its length, mixed under the packed key, and unpacked. With
/// `trim` the unpacking reads the last mixed word as a length, and there are
/// no bytes where that word does not pass for one. An empty plaintext has no
/// bytes to encipher.
pub open spec fn cipher_bytes(plaintext: Seq<u8>, key: Seq<u8>, trim: bool) -> Option<Seq<u8>> {
    if plaintext.len() == 0 {
        Some(Seq::empty())
    } else {
        unpack_words(mix(pack_words(plaintext, true), pack_words(key, false)), trim)
    }
}

/// The encoded record with a choice of `trim`: the tag, then the portal's
/// base64 of the cipher bytes.
pub open spec fn encoded_blob(plaintext: Seq<u8>, key: Seq<u8>, trim: bool) -> Option<Seq<char>> {
    match cipher_bytes(plaintext, key, trim) {
        Some(bytes) => Some(TAG@ + base64_text(PORTAL_ALPHABET@, bytes)),
        None => None,
    }
}

/// The encoded record as the portal expects it: without the trim.
pub open spec fn auth_code_text(plaintext: Seq<u8>, key: Seq<u8>) -> Seq<char> {
    encoded_blob(plaintext, key, false)->0
}

/// The encoded record is a function of the plaintext and the challenge: equal
/// inputs give equal outputs.
pub proof fn lemma_auth_code_deterministic(
    plaintext: Seq<u8>,
    key: Seq<u8>,
    same_plaintext: Seq<u8>,
    same_key: Seq<u8>,
)
    requires
        plaintext == same_plaintext,
        key == same_key,
    ensures
        auth_code_text(plaintext, key) == auth_code_text(same_plaintext, same_key),
        forall|trim: bool|
            encoded_blob(plaintext, key, trim) == encoded_blob(same_plaintext, same_key, trim),
{
}

/// The encoded record tells the plaintext: under one challenge, two
/// plaintexts with the same code are the same plaintext. The lengths must fit
/// the length word that is packed with them.
pub proof fn lemma_auth_code_tells_plaintext(plaintext: Seq<u8>, other: Seq<u8>, key: Seq<u8>)
    requires
        plaintext.len() <= u32::MAX,
        other.len() <= u32::MAX,
        auth_code_text(plaintext, key) == auth_code_text(other, key),
    ensures
        plaintext == other,
{
    let words = pack_words(key, false);
    let bytes = cipher_bytes(plaintext, key, false)->0;
    let other_bytes = cipher_bytes(other, key, false)->0;
    let body = base64_text(PORTAL_ALPHABET@, bytes);
    let other_body = base64_text(PORTAL_ALPHABET@, other_bytes);
    assert(body =~= (TAG@ + body).skip(TAG@.len() as int));
    assert(other_body =~= (TAG@ + other_body).skip(TAG@.len() as int));
    lemma_portal_alphabet();
    lemma_base64_tells_bytes(PORTAL_ALPHABET@, bytes, other_bytes);
    lemma_mix_len(pack_words(plaintext, true), words);
    lemma_mix_len(pack_words(other, true), words);
    if plaintext.len() == 0 || other.len() == 0 {
        assert(plaintext =~= other);
    } else {
        lemma_unpacked_bytes_tell_words(
            mix(pack_words(plaintext, true), words),
            mix(pack_words(other, true), words),
        );
        lemma_mix_loses_nothing(pack_words(plaintext, true), pack_words(other, true), words);
        lemma_unpack_pack(plaintext);
        lemma_unpack_pack(other);
    }
}

/// Encodes a plaintext under a challenge as the portal expects it.
pub fn encode_auth_blob(plaintext: &[u8], challenge: &str) -> (code: String)
    ensures
        code@ == auth_code_text(plaintext@, encode_utf8(challenge@)),
{
    let bytes = if plaintext.len() == 0 {
        Vec::new()
    } else {
        let mut block = pack(plaintext, true);
        let key = pack(challenge.as_bytes(), false);
        mix_block(&mut block, &key);
        unpack_all(&block)
    };
    let mut code = String::from_str(TAG);
    let body = encode_portal(bytes.as_slice());
    code.append(body.as_str());
    code
}

/// Encodes a plaintext under a challenge, with a choice of whether the
/// unpacking trims to the length that the last mixed word gives. With the
/// trim the result is `None` where that word does not pass for a length.
pub fn encode_auth_blob_with(plaintext: &[u8], challenge: &str, trim: bool) -> (code: Option<
    String,
>)
    ensures
        code is Some <==> encoded_blob(plaintext@, encode_utf8(challenge@), trim) is Some,
        code matches Some(s) ==> s@ == encoded_blob(plaintext@, encode_utf8(challenge@), trim)->0,
{
    if !trim || plaintext.len() == 0 {
        return Some(encode_auth_blob(plaintext, challenge));
    }
    let mut block = pack(plaintext, true);
    let key = pack(challenge.as_bytes(), false);
    mix_block(&mut block, &key);
    match unpack(&block, true) {
        Some(bytes) => {
            let mut code = String::from_str(TAG);
            let body = encode_portal(bytes.as_slice());
            code.append(body.as_str());
            Some(code)
        },
        None => None,
    }
}

/// The login record: who logs in, from where, through which access
/// controller.
pub struct SRBX1 {
    username: String,
    password: String,
    ip: String,
    acid: String,
    enc_ver: String,
}

/// The mathematical value of a login record.
pub struct RecordView {
    pub username: Seq<char>,
    pub password: Seq<char>,
    pub ip: Seq<char>,
    pub acid: Seq<char>,
    pub enc_ver: Seq<char>,
}

impl View for SRBX1 {
    type V = RecordView;

    closed spec fn view(&self) -> RecordView {
        RecordView {
            username: self.username@,
            password: self.password@,
            ip: self.ip@,
            acid: self.acid@,
            enc_ver: self.enc_ver@,
        }
    }
}

/// The members of the record's JSON object, in the order in which they are
/// printed.
pub open spec fn record_members(record: RecordView) -> Seq<(Seq<char>, MemberView)> {
    Seq::<(Seq<char>, MemberView)>::empty()
        .push(("username"@, MemberView::Text(record.username)))
        .push(("password"@, MemberView::Text(record.password)))
        .push(("ip"@, MemberView::Text(record.ip)))
        .push(("acid"@, MemberView::Text(record.acid)))
        .push(("enc_ver"@, MemberView::Text(record.enc_ver)))
}

/// The plaintext of a record: the bytes of its JSON text.
pub open spec fn record_plaintext(record: RecordView) -> Seq<u8> {
    encode_utf8(json_object_text(record_members(record)))
}

impl SRBX1 {
    /// The record of one login attempt.
    pub fn new(username: &str, password: &str, ip: &str, acid: &str) -> (record: SRBX1)
        ensures
            record@ == (RecordView {
                username: username@,
                password: password@,
                ip: ip@,
                acid: acid@,
                enc_ver: ENC_VER@,
            }),
    {
        SRBX1 {
            username: String::from_str(username),
            password: String::from_str(password),
            ip: String::from_str(ip),
            acid: String::from_str(acid),
            enc_ver: String::from_str(ENC_VER),
        }
    }

    /// The JSON text of the record.
    pub fn to_json(&self) -> (text: String)
        ensures
            text@ == json_object_text(record_members(self@)),
    {
        let mut members = no_members();
        push_member(&mut members, "username", text_member(&self.username));
        push_member(&mut members, "password", text_member(&self.password));
        push_member(&mut members, "ip", text_member(&self.ip));
        push_member(&mut members, "acid", text_member(&self.acid));
        push_member(&mut members, "enc_ver", text_member(&self.enc_ver));
        stringify_members(&members)
    }

    /// The value of the login request's `info` parameter: the record's JSON
    /// text, encoded under the challenge.
    pub fn calculate_auth_code(&self, challenge: &str) -> (code: String)
        ensures
            code@ == auth_code_text(record_plaintext(self@), encode_utf8(challenge@)),
    {
        let json = self.to_json();
        encode_auth_blob(json.as_str().as_bytes(), challenge)
    }

    /// Writes bytes in the portal's base64, with padding. No bytes give the
    /// empty string.
    pub fn encode(buf: &Vec<u8>) -> (text: String)
        ensures
            text@ == base64_text(PORTAL_ALPHABET@, buf@),
            buf@.len() == 0 ==> text@.len() == 0,
    {
        if buf.len() == 0 {
            return String::new();
        }
        encode_portal(buf.as_slice())
    }

    /// Unpacks words into bytes; see `unpack_words`.
    pub fn decompress(v: Vec<u32>, has_len: bool) -> (bytes: Option<Vec<u8>>)
        ensures
            bytes is Some <==> unpack_words(v@, has_len) is Some,
            bytes matches Some(b) ==> b@ == unpack_words(v@, has_len)->0,
    {
        unpack(&v, has_len)
    }

    /// Packs the bytes of a string into words; see `pack_words`.
    pub fn compress(s: &str, append_len: bool) -> (words: Vec<u32>)
        ensures
            words@ == pack_words(encode_utf8(s@), append_len),
    {
        pack(s.as_bytes(), append_len)
    }
}

} // verus!
