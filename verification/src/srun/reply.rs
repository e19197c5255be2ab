//! Reading the portal's replies: the status code that a step requires, the
//! envelope, the record inside it, and the `ac_id` that a redirect names.

use vstd::prelude::*;
use vstd::string::*;
use crate::srun::document::opt_text;
use crate::srun::envelope::{envelope_payload, unwrap_envelope};
use crate::srun::error::{
    ac_id_error, envelope_error, missing_location_error, result_view, unexpected_status_error,
    ErrorView, SRUNClientError,
};
use crate::srun::response::{
    ChallengeView, LoginView, LogoutView, QueryView, SRUNChallengeResponse, SRUNLoginResponse,
    SRUNLogoutResponse, SRUNQueryResponse,
};
use crate::srun::text::is_digit;

verus! {

/// The pattern that finds the `ac_id` in a redirect location.
pub const AC_ID_PATTERN: &'static str = "ac_id=(\\d+)";

/// What a transport hands back for a request that it could send: the status
/// code, the body, and the `Location` header where the reply has one.
#[derive(Debug, PartialEq, Eq)]
pub struct HttpReply {
    pub status: u16,
    pub body: String,
    pub location: Option<String>,
}

/// The mathematical value of a reply.
pub struct ReplyView {
    pub status: u16,
    pub body: Seq<char>,
    pub location: Option<Seq<char>>,
}

impl View for HttpReply {
    type V = ReplyView;

    open spec fn view(&self) -> ReplyView {
        ReplyView { status: self.status, body: self.body@, location: opt_text(self.location) }
    }
}

/// What the `regex` crate captures as group 1 of the leftmost match of a
/// pattern in a text. There is nothing where the pattern is no regular
/// expression, where it matches nowhere, and where the match leaves the group
/// out.
pub uninterp spec fn first_group_match(pattern: Seq<char>, text: Seq<char>) -> Option<Seq<char>>;

/// Whether every character of a text is in ASCII.
pub open spec fn is_ascii(text: Seq<char>) -> bool {
    forall|i: int| 0 <= i < text.len() ==> #[trigger] text[i] <= '\u{7f}'
}

/// Whether `text` holds `ac_id=` at position `at`.
pub open spec fn marker_at(text: Seq<char>, at: int) -> bool {
    &&& 0 <= at
    &&& at + 6 <= text.len()
    &&& text.subrange(at, at + 6) == "ac_id="@
}

/// Whether `text` holds `ac_id=` anywhere.
pub open spec fn holds_marker(text: Seq<char>) -> bool {
    exists|at: int| marker_at(text, at)
}

/// Whether `text` holds `ac_id=` at position `at`, with a digit behind it.
pub open spec fn names_ac_id_at(text: Seq<char>, at: int) -> bool {
    &&& marker_at(text, at)
    &&& at + 6 < text.len()
    &&& is_digit(text[at + 6])
}

/// The digits that stand in `text` from position `from` on, up to the first
/// character that is none.
pub open spec fn digits_from(text: Seq<char>, from: int) -> Seq<char>
    decreases text.len() - from,
{
    if 0 <= from < text.len() && is_digit(text[from]) {
        seq![text[from]] + digits_from(text, from + 1)
    } else {
        Seq::empty()
    }
}

/// The `ac_id` that a text in ASCII names: the digits behind the first
/// `ac_id=` that has a digit behind it.
pub open spec fn ascii_ac_id(text: Seq<char>) -> Option<Seq<char>> {
    if exists|at: int| names_ac_id_at(text, at) {
        let first = choose|at: int|
            names_ac_id_at(text, at) && forall|other: int|
                names_ac_id_at(text, other) ==> at <= other;
        Some(digits_from(text, first + 6))
    } else {
        None
    }
}

/// The `ac_id` that a text names: what the pattern captures in it.
pub open spec fn named_ac_id(text: Seq<char>) -> Option<Seq<char>> {
    if is_ascii(text) {
        ascii_ac_id(text)
    } else if !holds_marker(text) {
        None
    } else {
        first_group_match(AC_ID_PATTERN@, text)
    }
}

/// Captures group 1 of the leftmost match of `pattern` in `text`.
///
/// Trusted: the body compiles the pattern with `Regex::new`, searches the
/// text with `Regex::captures` and takes the text of `Captures::get(1)`; each
/// step that gives nothing ends the search with nothing. The contract names
/// the outcome and claims that it depends on the two texts alone. Of the one
/// pattern `ac_id=(\d+)` it states two things more. A match holds the
/// pattern's literal, so a text without `ac_id=` has none. And on a text in
/// ASCII, where `\d` has the ten digits to match, the match starts at the
/// first `ac_id=` with a digit behind it, and the group, being greedy, takes
/// every digit that follows.
#[verifier::external_body]
fn capture_first_group(pattern: &str, text: &str) -> (res: Option<String>)
    ensures
        opt_text(res) == first_group_match(pattern@, text@),
        pattern@ == AC_ID_PATTERN@ && !holds_marker(text@) ==> res is None,
        pattern@ == AC_ID_PATTERN@ && is_ascii(text@) ==> opt_text(res) == ascii_ac_id(text@),
{
    ::regex::Regex::new(pattern).ok()?.captures(text)?.get(1).map(|m| m.as_str().to_string())
}

/// The JSON text of a reply to a step that requires status `expected`.
pub open spec fn reply_payload(reply: ReplyView, expected: u16) -> Result<Seq<char>, ErrorView> {
    if reply.status != expected {
        Err(unexpected_status_error(expected, reply.status))
    } else {
        match envelope_payload(reply.body) {
            Some(payload) => Ok(payload),
            None => Err(envelope_error(reply.body)),
        }
    }
}

/// The status that a status reply tells.
pub open spec fn status_of(reply: ReplyView) -> Result<QueryView, ErrorView> {
    match reply_payload(reply, 200) {
        Ok(payload) => SRUNQueryResponse::parsing(payload),
        Err(e) => Err(e),
    }
}

/// The challenge that a challenge reply issues.
pub open spec fn challenge_of(reply: ReplyView) -> Result<ChallengeView, ErrorView> {
    match reply_payload(reply, 200) {
        Ok(payload) => SRUNChallengeResponse::parsing(payload),
        Err(e) => Err(e),
    }
}

/// The outcome that a login reply tells.
pub open spec fn login_of(reply: ReplyView) -> Result<LoginView, ErrorView> {
    match reply_payload(reply, 200) {
        Ok(payload) => SRUNLoginResponse::parsing(payload),
        Err(e) => Err(e),
    }
}

/// The outcome that a logout reply tells.
pub open spec fn logout_of(reply: ReplyView) -> Result<LogoutView, ErrorView> {
    match reply_payload(reply, 200) {
        Ok(payload) => SRUNLogoutResponse::parsing(payload),
        Err(e) => Err(e),
    }
}

/// The `ac_id` that a redirect location names, or the error of a location
/// that names none.
pub open spec fn ac_id_in(location: Seq<char>) -> Result<Seq<char>, ErrorView> {
    match named_ac_id(location) {
        Some(ac_id) => Ok(ac_id),
        None => Err(ac_id_error()),
    }
}

/// A location that nowhere holds `ac_id=` names no `ac_id`.
pub proof fn lemma_location_without_marker(location: Seq<char>)
    requires
        !holds_marker(location),
    ensures
        ac_id_in(location) == Err::<Seq<char>, ErrorView>(ac_id_error()),
{
    assert forall|at: int| !names_ac_id_at(location, at) by {
        assert(!marker_at(location, at));
    }
}

/// A location in ASCII that nowhere holds `ac_id=` with a digit behind it
/// names no `ac_id`.
pub proof fn lemma_location_without_ac_id(location: Seq<char>)
    requires
        is_ascii(location),
        forall|at: int| !names_ac_id_at(location, at),
    ensures
        ac_id_in(location) == Err::<Seq<char>, ErrorView>(ac_id_error()),
{
}

/// A location in ASCII that holds `ac_id=` with a digit behind it names the
/// digits behind the first such place.
pub proof fn lemma_location_with_ac_id(location: Seq<char>, at: int)
    requires
        is_ascii(location),
        names_ac_id_at(location, at),
        forall|before: int| before < at ==> !names_ac_id_at(location, before),
    ensures
        ac_id_in(location) == Ok::<Seq<char>, ErrorView>(digits_from(location, at + 6)),
{
    let first = choose|first: int|
        names_ac_id_at(location, first) && forall|other: int|
            names_ac_id_at(location, other) ==> first <= other;
    assert(first == at);
}

/// The `ac_id` that a reply names: the reply must be a redirect (302) with a
/// `Location` header in which the pattern is found.
pub open spec fn ac_id_of(reply: ReplyView) -> Result<Seq<char>, ErrorView> {
    if reply.status != 302 {
        Err(unexpected_status_error(302, reply.status))
    } else {
        match reply.location {
            Some(location) => ac_id_in(location),
            None => Err(missing_location_error()),
        }
    }
}

/// Takes the JSON text out of a reply, which must carry the status that the
/// step requires.
pub fn payload_of(reply: &HttpReply, expected: u16) -> (res: Result<String, SRUNClientError>)
    ensures
        result_view(res) == reply_payload(reply@, expected),
{
    if reply.status != expected {
        return Err(SRUNClientError::unexpected_status(expected, reply.status));
    }
    unwrap_envelope(reply.body.as_str())
}

/// Tells whether the site that was asked for an empty page gave one (204):
/// the gateway lets the request through, so the user is online already.
pub fn probe_online(reply: &HttpReply) -> (online: bool)
    ensures
        online == (reply.status == 204),
{
    reply.status == 204
}

/// Finds the `ac_id` in a redirect location.
pub fn extract_ac_id(location: &str) -> (res: Result<String, SRUNClientError>)
    ensures
        result_view(res) == ac_id_in(location@),
{
    match capture_first_group(AC_ID_PATTERN, location) {
        Some(ac_id) => Ok(ac_id),
        None => Err(SRUNClientError::ac_id_pattern_not_found()),
    }
}

/// Reads the `ac_id` from the reply to the `ac_id` request.
pub fn ac_id_from_reply(reply: &HttpReply) -> (res: Result<String, SRUNClientError>)
    ensures
        result_view(res) == ac_id_of(reply@),
{
    if reply.status != 302 {
        return Err(SRUNClientError::unexpected_status(302, reply.status));
    }
    match &reply.location {
        Some(location) => extract_ac_id(location.as_str()),
        None => Err(SRUNClientError::missing_location_header()),
    }
}

impl SRUNQueryResponse {
    /// Reads the status from the reply to the status request.
    pub fn from_reply(reply: &HttpReply) -> (res: Result<SRUNQueryResponse, SRUNClientError>)
        ensures
            result_view(res) == status_of(reply@),
    {
        match payload_of(reply, 200) {
            Ok(payload) => SRUNQueryResponse::from_string(payload),
            Err(e) => Err(e),
        }
    }
}

impl SRUNChallengeResponse {
    /// Reads the challenge from the reply to the challenge request.
    pub fn from_reply(reply: &HttpReply) -> (res: Result<SRUNChallengeResponse, SRUNClientError>)
        ensures
            result_view(res) == challenge_of(reply@),
    {
        match payload_of(reply, 200) {
            Ok(payload) => SRUNChallengeResponse::from_string(payload),
            Err(e) => Err(e),
        }
    }
}

impl SRUNLoginResponse {
    /// Reads the outcome from the reply to the login request.
    pub fn from_reply(reply: &HttpReply) -> (res: Result<SRUNLoginResponse, SRUNClientError>)
        ensures
            result_view(res) == login_of(reply@),
    {
        match payload_of(reply, 200) {
            Ok(payload) => SRUNLoginResponse::from_string(payload),
            Err(e) => Err(e),
        }
    }
}

impl SRUNLogoutResponse {
    /// Reads the outcome from the reply to the logout request.
    pub fn from_reply(reply: &HttpReply) -> (res: Result<SRUNLogoutResponse, SRUNClientError>)
        ensures
            result_view(res) == logout_of(reply@),
    {
        match payload_of(reply, 200) {
            Ok(payload) => SRUNLogoutResponse::from_string(payload),
            Err(e) => Err(e),
        }
    }
}

} // verus!
