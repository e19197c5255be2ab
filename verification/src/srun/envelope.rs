//! The envelope of the portal's replies: `token(payload)`, the payload being
//! JSON text.

use vstd::prelude::*;
use vstd::string::*;
use crate::srun::error::{envelope_error, result_view, SRUNClientError};
use crate::srun::text::{chars_of, string_of};

verus! {

/// Whether a character beyond ASCII is white space to `char::is_whitespace`,
/// that is, has the Unicode property White_Space.
pub uninterp spec fn wide_white_space(c: char) -> bool;

/// Whether a character is white space: in ASCII the space and the five
/// controls from the tab to the carriage return; beyond ASCII, what has the
/// Unicode property White_Space.
pub open spec fn white_space(c: char) -> bool {
    if c <= '\u{7f}' {
        c == ' ' || ('\u{9}' <= c && c <= '\u{d}')
    } else {
        wide_white_space(c)
    }
}

/// Tells whether a character is white space.
///
/// Trusted: this is `char::is_whitespace` of the standard library, which
/// tells whether the character has the Unicode property White_Space. The
/// contract states the answer for ASCII, where the property holds of the
/// space and of U+0009 to U+000D, and gives the answer beyond ASCII a name,
/// claiming that it depends on the character alone.
#[verifier::external_body]
fn is_white_space(c: char) -> (b: bool)
    ensures
        c <= '\u{7f}' ==> b == (c == ' ' || ('\u{9}' <= c && c <= '\u{d}')),
        c > '\u{7f}' ==> b == wide_white_space(c),
{
    c.is_whitespace()
}

/// `s` without the white space at its start.
pub open spec fn trim_front(s: Seq<char>) -> Seq<char>
    decreases s.len(),
{
    if s.len() > 0 && white_space(s[0]) {
        trim_front(s.drop_first())
    } else {
        s
    }
}

/// `s` without the white space at its end.
pub open spec fn trim_back(s: Seq<char>) -> Seq<char>
    decreases s.len(),
{
    if s.len() > 0 && white_space(s.last()) {
        trim_back(s.drop_last())
    } else {
        s
    }
}

/// `s` without the white space around it.
pub open spec fn trimmed(s: Seq<char>) -> Seq<char> {
    trim_back(trim_front(s))
}

/// The payload of an envelope: what stands between the first `(` and the last
/// `)`, without the white space around it. There is none where either
/// bracket is missing or the last `)` stands before the first `(`.
pub open spec fn envelope_payload(body: Seq<char>) -> Option<Seq<char>> {
    match (body.index_of_first('('), body.index_of_last(')')) {
        (Some(open), Some(close)) => if open < close {
            Some(trimmed(body.subrange(open + 1, close)))
        } else {
            None
        },
        _ => None,
    }
}

/// The envelope of a payload under a token: `token(payload)`.
pub open spec fn wrapped(token: Seq<char>, payload: Seq<char>) -> Seq<char> {
    token.push('(') + payload.push(')')
}

/// Unwrapping undoes wrapping: the envelope of a payload, under a token
/// without an opening bracket, holds that payload without the white space
/// around it, whatever brackets the payload itself holds.
pub proof fn lemma_unwrap_wrapped(token: Seq<char>, payload: Seq<char>)
    requires
        !token.contains('('),
    ensures
        envelope_payload(wrapped(token, payload)) == Some(trimmed(payload)),
{
    let body = wrapped(token, payload);
    let open = token.len() as int;
    let close = body.len() - 1;
    assert(body[open] == '(');
    assert(body[close] == ')');
    body.index_of_first_ensures('(');
    body.index_of_last_ensures(')');
    let first = body.index_of_first('(')->0;
    if first < open {
        assert(token[first] == body[first]);
    }
    assert(first == open);
    assert(body.index_of_last(')')->0 == close);
    assert(body.subrange(open + 1, close) =~= payload);
}

/// A body that lacks one of the two brackets holds no payload.
pub proof fn lemma_no_brackets_no_payload(body: Seq<char>)
    requires
        !body.contains('(') || !body.contains(')'),
    ensures
        envelope_payload(body) is None,
{
    body.index_of_first_ensures('(');
    body.index_of_last_ensures(')');
}

/// The position of the first `needle` in `chars`.
fn find_first(chars: &Vec<char>, needle: char) -> (found: Option<usize>)
    ensures
        match found {
            Some(i) => i < chars.len() && chars@.index_of_first(needle) == Some(i as int),
            None => chars@.index_of_first(needle) is None,
        },
{
    proof {
        chars@.index_of_first_ensures(needle);
    }
    let mut i: usize = 0;
    while i < chars.len()
        invariant
            i <= chars.len(),
            forall|j: int| 0 <= j < i ==> chars@[j] != needle,
        decreases chars.len() - i,
    {
        if chars[i] == needle {
            proof {
                assert(chars@.contains(needle));
                chars@.index_of_first_ensures(needle);
            }
            return Some(i);
        }
        i += 1;
    }
    None
}

/// The position of the last `needle` in `chars`.
fn find_last(chars: &Vec<char>, needle: char) -> (found: Option<usize>)
    ensures
        match found {
            Some(i) => i < chars.len() && chars@.index_of_last(needle) == Some(i as int),
            None => chars@.index_of_last(needle) is None,
        },
{
    proof {
        chars@.index_of_last_ensures(needle);
    }
    let mut i: usize = chars.len();
    while i > 0
        invariant
            i <= chars.len(),
            forall|j: int| i <= j < chars.len() ==> chars@[j] != needle,
        decreases i,
    {
        i -= 1;
        if chars[i] == needle {
            proof {
                assert(chars@.contains(needle));
                chars@.index_of_last_ensures(needle);
            }
            return Some(i);
        }
    }
    None
}

/// The bounds of `chars[from..to]` without the white space around it.
fn trim_bounds(chars: &Vec<char>, from: usize, to: usize) -> (bounds: (usize, usize))
    requires
        from <= to <= chars.len(),
    ensures
        from <= bounds.0 <= bounds.1 <= to,
        chars@.subrange(bounds.0 as int, bounds.1 as int) == trimmed(
            chars@.subrange(from as int, to as int),
        ),
{
    let mut start: usize = from;
    while start < to && is_white_space(chars[start])
        invariant
            from <= start <= to <= chars.len(),
            trim_front(chars@.subrange(start as int, to as int)) == trim_front(
                chars@.subrange(from as int, to as int),
            ),
        decreases to - start,
    {
        assert(chars@.subrange(start as int, to as int).drop_first() =~= chars@.subrange(
            start + 1,
            to as int,
        ));
        start += 1;
    }
    assert(trim_front(chars@.subrange(start as int, to as int)) == chars@.subrange(
        start as int,
        to as int,
    ));
    let mut end: usize = to;
    while end > start && is_white_space(chars[end - 1])
        invariant
            start <= end <= to <= chars.len(),
            trim_back(chars@.subrange(start as int, end as int)) == trim_back(
                chars@.subrange(start as int, to as int),
            ),
        decreases end - start,
    {
        assert(chars@.subrange(start as int, end as int).drop_last() =~= chars@.subrange(
            start as int,
            end - 1,
        ));
        end -= 1;
    }
    assert(trim_back(chars@.subrange(start as int, end as int)) == chars@.subrange(
        start as int,
        end as int,
    ));
    (start, end)
}

/// Takes the payload out of an envelope. A body without an opening bracket
/// followed, somewhere, by a closing one is refused.
pub fn unwrap_envelope(body: &str) -> (res: Result<String, SRUNClientError>)
    ensures
        result_view(res) == match envelope_payload(body@) {
            Some(payload) => Ok(payload),
            None => Err(envelope_error(body@)),
        },
{
    let chars = chars_of(body);
    let open = find_first(&chars, '(');
    let close = find_last(&chars, ')');
    match (open, close) {
        (Some(open), Some(close)) => {
            if open < close {
                let (start, end) = trim_bounds(&chars, open + 1, close);
                Ok(string_of(&chars, start, end))
            } else {
                Err(SRUNClientError::envelope_format(body))
            }
        },
        _ => Err(SRUNClientError::envelope_format(body)),
    }
}

} // verus!
