//! JSON documents: reading the members of a parsed reply, and writing flat
//! objects. Parsing and printing are the `json` crate's; what this library
//! decides about a member is verified here, and so is which texts the parser
//! is handed at all.

use vstd::prelude::*;
use vstd::string::*;
use crate::srun::text::{chars_of, decimal_value, is_digit, parse_decimal};

verus! {

/// A parsed JSON document: `json::JsonValue`, which is carried through as it
/// is. What the library reads of it, it reads through the functions below.
#[verifier::external_type_specification]
#[verifier::external_body]
pub struct ExJsonValue(::json::JsonValue);

/// What `json::parse` makes of a text that it can be handed: the document,
/// or the message of the parser's error.
pub uninterp spec fn parsed_document(text: Seq<char>) -> Result<::json::JsonValue, Seq<char>>;

/// The members of a document that hold a JSON string, by key. A document
/// that is no object has none.
pub uninterp spec fn text_members(doc: ::json::JsonValue) -> Map<Seq<char>, Seq<char>>;

/// The members of a document that hold a JSON number for which
/// `JsonValue::as_u64` has a value, by key: a number that is not negative and
/// that the document keeps with an exponent of zero. A number written in
/// digits alone is kept so while its digits fit the mantissa, and so is one
/// written with an exponent of zero (`1e0`); one written with a fraction is
/// not, whatever the fraction (`1.0`).
pub uninterp spec fn number_members(doc: ::json::JsonValue) -> Map<Seq<char>, u64>;

/// The members of a document that hold a JSON boolean, by key.
pub uninterp spec fn flag_members(doc: ::json::JsonValue) -> Map<Seq<char>, bool>;

/// The text that `json::stringify` prints for the object made by inserting
/// the given members in the given order.
pub uninterp spec fn json_object_text(members: Seq<(Seq<char>, MemberView)>) -> Seq<char>;

/// A value that a flat JSON object can hold for a key.
#[derive(Debug, Clone, PartialEq, Eq)]
pub enum JsonMember {
    Null,
    Text(String),
    Number(u64),
}

/// The mathematical value of a `JsonMember`.
pub enum MemberView {
    Null,
    Text(Seq<char>),
    Number(u64),
}

impl View for JsonMember {
    type V = MemberView;

    open spec fn view(&self) -> MemberView {
        match self {
            JsonMember::Null => MemberView::Null,
            JsonMember::Text(s) => MemberView::Text(s@),
            JsonMember::Number(n) => MemberView::Number(*n),
        }
    }
}

/// The mathematical value of a member list: keys and values by their views,
/// in order.
#[verifier::opaque]
pub open spec fn members_view(members: Seq<(String, JsonMember)>) -> Seq<(Seq<char>, MemberView)> {
    Seq::new(members.len(), |i: int| (members[i].0@, members[i].1@))
}

/// The longest run of decimal digits in a text that is handed to the parser.
/// The parser counts the digits of a fraction in sixteen bits and does not
/// guard the count, so a longer fraction is kept from it.
pub const MAX_DIGIT_RUN: usize = 32_000;

/// The message of the error for a text that is kept from the parser.
pub const DIGIT_RUN_MESSAGE: &'static str = "Number with too many digits";

/// Whether the `len` characters of `text` from position `from` on are all
/// decimal digits.
pub open spec fn digit_run(text: Seq<char>, from: int, len: int) -> bool {
    &&& 0 <= from
    &&& from + len <= text.len()
    &&& forall|j: int| from <= j < from + len ==> is_digit(#[trigger] text[j])
}

/// Whether a text can be handed to the parser: no run of decimal digits in it
/// is longer than `MAX_DIGIT_RUN`.
pub open spec fn parser_takes(text: Seq<char>) -> bool {
    forall|from: int| !#[trigger] digit_run(text, from, MAX_DIGIT_RUN + 1)
}

/// What parsing makes of a text: what the parser makes of it, or the error
/// of a text that is kept from the parser.
pub open spec fn document_in(text: Seq<char>) -> Result<::json::JsonValue, Seq<char>> {
    if parser_takes(text) {
        parsed_document(text)
    } else {
        Err(DIGIT_RUN_MESSAGE@)
    }
}

/// The outcome of a parse, the error message taken by its view.
pub open spec fn parse_outcome(res: Result<::json::JsonValue, String>) -> Result<
    ::json::JsonValue,
    Seq<char>,
> {
    match res {
        Ok(doc) => Ok(doc),
        Err(message) => Err(message@),
    }
}

/// Parses a JSON text that the parser can be handed.
///
/// Trusted: this is `json::parse`; its error is handed on as the text that
/// the error's `Display` writes. The contract gives the outcome a name and
/// claims that it depends on the text alone. It leaves out the texts with a
/// long run of digits, among which are those on which the parser's count of
/// fraction digits overflows.
#[verifier::external_body]
pub(crate) fn parse_document(text: &str) -> (res: Result<::json::JsonValue, String>)
    requires
        parser_takes(text@),
    ensures
        parse_outcome(res) == parsed_document(text@),
{
    ::json::parse(text).map_err(|e| e.to_string())
}

/// Tells whether a text can be handed to the parser.
pub fn fits_parser(text: &str) -> (ok: bool)
    ensures
        ok == parser_takes(text@),
{
    let chars = chars_of(text);
    let mut run: usize = 0;
    let mut i: usize = 0;
    while i < chars.len()
        invariant
            chars@ == text@,
            i <= chars.len(),
            run <= MAX_DIGIT_RUN,
            run <= i,
            digit_run(chars@, i - run, run as int),
            run < i ==> !is_digit(chars@[i - run - 1]),
            forall|from: int|
                from + MAX_DIGIT_RUN + 1 <= i ==> !#[trigger] digit_run(
                    chars@,
                    from,
                    MAX_DIGIT_RUN + 1,
                ),
        decreases chars.len() - i,
    {
        let c = chars[i];
        if '0' <= c && c <= '9' {
            run += 1;
            if run > MAX_DIGIT_RUN {
                assert(digit_run(chars@, i - MAX_DIGIT_RUN, MAX_DIGIT_RUN + 1));
                return false;
            }
        } else {
            run = 0;
        }
        i += 1;
    }
    true
}

/// Parses a JSON text. A text that cannot be handed to the parser is refused
/// like one that is no JSON.
pub fn parse_text(text: &str) -> (res: Result<::json::JsonValue, String>)
    ensures
        parse_outcome(res) == document_in(text@),
{
    if fits_parser(text) {
        parse_document(text)
    } else {
        Err(String::from_str(DIGIT_RUN_MESSAGE))
    }
}

/// The string that a document holds for a key.
///
/// Trusted: this indexes a `json::JsonValue` by the key and calls `as_str`
/// on what is there, which gives the string of a string member and nothing
/// for a member of another type, a missing member, or a document that is no
/// object.
#[verifier::external_body]
pub(crate) fn member_text(doc: &::json::JsonValue, key: &str) -> (res: Option<String>)
    ensures
        res is Some <==> text_members(*doc).contains_key(key@),
        res matches Some(s) ==> s@ == text_members(*doc)[key@],
{
    doc[key].as_str().map(String::from)
}

/// The number that a document holds for a key.
///
/// Trusted: this indexes a `json::JsonValue` by the key and calls `as_u64`
/// on what is there, which gives the value of a number member that is not
/// negative and has no fraction or exponent, and nothing otherwise. The
/// contract names the members for which it gives a value.
#[verifier::external_body]
pub(crate) fn member_number(doc: &::json::JsonValue, key: &str) -> (res: Option<u64>)
    ensures
        res is Some <==> number_members(*doc).contains_key(key@),
        res matches Some(n) ==> n == number_members(*doc)[key@],
{
    doc[key].as_u64()
}

/// The boolean that a document holds for a key.
///
/// Trusted: this indexes a `json::JsonValue` by the key and calls `as_bool`
/// on what is there, which gives the value of a boolean member and nothing
/// otherwise.
#[verifier::external_body]
pub(crate) fn member_flag(doc: &::json::JsonValue, key: &str) -> (res: Option<bool>)
    ensures
        res is Some <==> flag_members(*doc).contains_key(key@),
        res matches Some(b) ==> b == flag_members(*doc)[key@],
{
    doc[key].as_bool()
}

/// Prints a flat JSON object.
///
/// Trusted: the body inserts the members, in order, into an empty
/// `json::object::Object` (a later member replaces an earlier one of the same
/// key) and hands the object to `json::stringify`. The contract gives the
/// printed text a name and claims that it depends on the members alone.
#[verifier::external_body]
pub(crate) fn stringify_members(members: &Vec<(String, JsonMember)>) -> (text: String)
    ensures
        text@ == json_object_text(members_view(members@)),
{
    let mut object = ::json::object::Object::new();
    for (key, member) in members.iter() {
        let value = match member {
            JsonMember::Null => ::json::JsonValue::Null,
            JsonMember::Text(s) => ::json::JsonValue::String(s.clone()),
            JsonMember::Number(n) => ::json::JsonValue::from(*n),
        };
        object.insert(key, value);
    }
    ::json::stringify(object)
}

/// The string member of `doc` under `key`, if it has one.
pub open spec fn text_field(doc: ::json::JsonValue, key: Seq<char>) -> Option<Seq<char>> {
    if text_members(doc).contains_key(key) {
        Some(text_members(doc)[key])
    } else {
        None
    }
}

/// The numeric member of `doc` under `key`: a JSON number that is an
/// unsigned integer, or a JSON string that is a numeric string.
pub open spec fn number_field(doc: ::json::JsonValue, key: Seq<char>) -> Option<u64> {
    if number_members(doc).contains_key(key) {
        Some(number_members(doc)[key])
    } else {
        match text_field(doc, key) {
            Some(s) => decimal_value(s),
            None => None,
        }
    }
}

/// The boolean member of `doc` under `key`, if it has one.
pub open spec fn flag_field(doc: ::json::JsonValue, key: Seq<char>) -> Option<bool> {
    if flag_members(doc).contains_key(key) {
        Some(flag_members(doc)[key])
    } else {
        None
    }
}

/// The view of an optional string.
pub open spec fn opt_text(s: Option<String>) -> Option<Seq<char>> {
    match s {
        Some(s) => Some(s@),
        None => None,
    }
}

/// Reads an optional string member.
pub fn read_text(doc: &::json::JsonValue, key: &str) -> (res: Option<String>)
    ensures
        opt_text(res) == text_field(*doc, key@),
{
    member_text(doc, key)
}

/// Reads an optional numeric member, given as a JSON number or as a numeric
/// string.
pub fn read_number(doc: &::json::JsonValue, key: &str) -> (res: Option<u64>)
    ensures
        res == number_field(*doc, key@),
{
    match member_number(doc, key) {
        Some(n) => Some(n),
        None => match member_text(doc, key) {
            Some(s) => parse_decimal(s.as_str()),
            None => None,
        },
    }
}

/// Reads an optional boolean member.
pub fn read_flag(doc: &::json::JsonValue, key: &str) -> (res: Option<bool>)
    ensures
        res == flag_field(*doc, key@),
{
    member_flag(doc, key)
}

/// Appends a member to a member list.
pub fn push_member(members: &mut Vec<(String, JsonMember)>, key: &str, value: JsonMember)
    ensures
        members_view(final(members)@) == members_view(old(members)@).push((key@, value@)),
{
    members.push((String::from_str(key), value));
    proof {
        reveal(members_view);
        assert(members_view(members@) =~= members_view(old(members)@).push((key@, value@)));
    }
}

/// An empty member list.
pub fn no_members() -> (members: Vec<(String, JsonMember)>)
    ensures
        members_view(members@) == Seq::<(Seq<char>, MemberView)>::empty(),
{
    let members: Vec<(String, JsonMember)> = Vec::new();
    proof {
        reveal(members_view);
        assert(members_view(members@) =~= Seq::empty());
    }
    members
}

/// The member for a string.
pub fn text_member(s: &String) -> (m: JsonMember)
    ensures
        m@ == MemberView::Text(s@),
{
    JsonMember::Text(s.clone())
}

/// What an optional string is printed as: itself, or `null`.
pub open spec fn text_or_null(s: Option<Seq<char>>) -> MemberView {
    match s {
        Some(s) => MemberView::Text(s),
        None => MemberView::Null,
    }
}

/// What an optional number is printed as: itself, or `null`.
pub open spec fn number_or_null(n: Option<u64>) -> MemberView {
    match n {
        Some(n) => MemberView::Number(n),
        None => MemberView::Null,
    }
}

/// The member for an optional string: `null` where it is absent.
pub fn opt_text_member(s: &Option<String>) -> (m: JsonMember)
    ensures
        m@ == text_or_null(opt_text(*s)),
{
    match s {
        Some(s) => JsonMember::Text(s.clone()),
        None => JsonMember::Null,
    }
}

/// The member for an optional number: `null` where it is absent.
pub fn opt_number_member(n: &Option<u64>) -> (m: JsonMember)
    ensures
        m@ == number_or_null(*n),
{
    match n {
        Some(n) => JsonMember::Number(*n),
        None => JsonMember::Null,
    }
}

/// The member for a number.
pub fn number_member(n: u64) -> (m: JsonMember)
    ensures
        m@ == MemberView::Number(n),
{
    JsonMember::Number(n)
}

} // verus!
