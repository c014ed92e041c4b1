//! The request-body grammar and the response bodies.
//!
//! A write request carries a JSON object with one member, `"status"`, whose
//! value is a string. The grammar accepted here is exactly that object, with
//! optional JSON whitespace around each token and an unescaped string value
//! (the valid status encodings contain no character that needs escaping).
//! Responses are rendered as compact JSON; error responses carry a single
//! `"error"` member with a human-readable message.

use crate::status::{decode_status, encode_status, spec_decode, spec_encode, GarageDoorStatus};
use vstd::prelude::*;
use vstd::string::{StrSliceExecFns, StringExecFns};

verus! {

/// The four whitespace characters JSON allows between tokens.
pub open spec fn is_json_ws(c: char) -> bool {
    c == ' ' || c == '\t' || c == '\n' || c == '\r'
}

/// The first position at or after `i` that does not hold whitespace.
pub open spec fn skip_ws(s: Seq<char>, i: int) -> int
    decreases s.len() - i,
{
    if 0 <= i < s.len() && is_json_ws(s[i]) {
        skip_ws(s, i + 1)
    } else {
        i
    }
}

/// `pat` occurs in `s` starting at position `i`.
pub open spec fn matches_at(s: Seq<char>, i: int, pat: Seq<char>) -> bool {
    &&& 0 <= i
    &&& i + pat.len() <= s.len()
    &&& forall|k: int| 0 <= k < pat.len() ==> s[i + k] == pat[k]
}

/// The position of the quote that closes a string value opened just before
/// `i`: the first `"` at or after `i`, provided no escape character comes
/// first. No value when the string is unterminated or holds an escape.
pub open spec fn find_string_end(s: Seq<char>, i: int) -> Option<int>
    decreases s.len() - i,
{
    if 0 <= i < s.len() {
        if s[i] == '"' {
            Some(i)
        } else if s[i] == '\\' {
            None
        } else {
            find_string_end(s, i + 1)
        }
    } else {
        None
    }
}

/// The value of the `"status"` member, when the text is exactly one JSON
/// object of the accepted grammar; no value otherwise.
pub open spec fn spec_status_field(s: Seq<char>) -> Option<Seq<char>> {
    let i0 = skip_ws(s, 0);
    if !(i0 < s.len() && s[i0] == '{') {
        None
    } else {
        let i1 = skip_ws(s, i0 + 1);
        if !matches_at(s, i1, "\"status\""@) {
            None
        } else {
            let i2 = skip_ws(s, i1 + "\"status\""@.len());
            if !(i2 < s.len() && s[i2] == ':') {
                None
            } else {
                let i3 = skip_ws(s, i2 + 1);
                if !(i3 < s.len() && s[i3] == '"') {
                    None
                } else {
                    match find_string_end(s, i3 + 1) {
                        Some(k) => {
                            let i4 = skip_ws(s, k + 1);
                            if !(i4 < s.len() && s[i4] == '}') {
                                None
                            } else if skip_ws(s, i4 + 1) == s.len() {
                                Some(s.subrange(i3 + 1, k))
                            } else {
                                None
                            }
                        },
                        None => None,
                    }
                }
            }
        }
    }
}

/// The domain record a request body carries, when the body is an accepted
/// object whose `"status"` value is a valid encoding; no value otherwise.
pub open spec fn spec_parse_body(s: Seq<char>) -> Option<GarageDoorStatus> {
    match spec_status_field(s) {
        Some(v) => match spec_decode(v) {
            Some(st) => Some(GarageDoorStatus { status: st }),
            None => None,
        },
        None => None,
    }
}

fn skip_ws_exec(s: &str, n: usize, i: usize) -> (r: usize)
    requires
        n == s@.len(),
        i <= n,
    ensures
        r as int == skip_ws(s@, i as int),
        i <= r <= n,
    decreases n - i,
{
    if i < n {
        let c = s.get_char(i);
        if c == ' ' || c == '\t' || c == '\n' || c == '\r' {
            skip_ws_exec(s, n, i + 1)
        } else {
            i
        }
    } else {
        i
    }
}

fn matches_at_exec(s: &str, n: usize, i: usize, pat: &str) -> (r: bool)
    requires
        n == s@.len(),
    ensures
        r == matches_at(s@, i as int, pat@),
{
    let m = pat.unicode_len();
    if m > n || i > n - m {
        return false;
    }
    let mut j: usize = 0;
    while j < m
        invariant
            n == s@.len(),
            m == pat@.len(),
            i + m <= n,
            j <= m,
            forall|k: int| 0 <= k < j ==> s@[i + k] == pat@[k],
        decreases m - j,
    {
        if s.get_char(i + j) != pat.get_char(j) {
            assert(s@[i + j as int] != pat@[j as int]);
            return false;
        }
        j += 1;
    }
    true
}

fn find_string_end_exec(s: &str, n: usize, i: usize) -> (r: Option<usize>)
    requires
        n == s@.len(),
        i <= n,
    ensures
        match r {
            Some(k) => {
                &&& find_string_end(s@, i as int) == Some(k as int)
                &&& i <= k < n
                &&& s@[k as int] == '"'
            },
            None => find_string_end(s@, i as int) is None,
        },
    decreases n - i,
{
    if i < n {
        let c = s.get_char(i);
        if c == '"' {
            Some(i)
        } else if c == '\\' {
            None
        } else {
            find_string_end_exec(s, n, i + 1)
        }
    } else {
        None
    }
}

/// The `"status"` member of the request body, when the body is exactly one
/// object of the accepted grammar.
pub fn extract_status_field(s: &str) -> (r: Option<String>)
    ensures
        match r {
            Some(v) => spec_status_field(s@) == Some(v@),
            None => spec_status_field(s@) is None,
        },
{
    let n = s.unicode_len();
    proof {
        reveal_strlit("\"status\"");
        assert(("\"status\""@).len() == 8);
    }
    let i0 = skip_ws_exec(s, n, 0);
    if i0 >= n {
        return None;
    }
    if s.get_char(i0) != '{' {
        return None;
    }
    let i1 = skip_ws_exec(s, n, i0 + 1);
    if !matches_at_exec(s, n, i1, "\"status\"") {
        return None;
    }
    let i2 = skip_ws_exec(s, n, i1 + 8);
    if i2 >= n {
        return None;
    }
    if s.get_char(i2) != ':' {
        return None;
    }
    let i3 = skip_ws_exec(s, n, i2 + 1);
    if i3 >= n {
        return None;
    }
    if s.get_char(i3) != '"' {
        return None;
    }
    match find_string_end_exec(s, n, i3 + 1) {
        Some(k) => {
            let i4 = skip_ws_exec(s, n, k + 1);
            if i4 >= n {
                return None;
            }
            if s.get_char(i4) != '}' {
                return None;
            }
            let i5 = skip_ws_exec(s, n, i4 + 1);
            if i5 != n {
                return None;
            }
            let sub = s.substring_char(i3 + 1, k);
            Some(sub.to_owned())
        },
        None => None,
    }
}

/// The write-path reading of a request body.
pub fn parse_garage_status(s: &str) -> (r: Option<GarageDoorStatus>)
    ensures
        r == spec_parse_body(s@),
{
    match extract_status_field(s) {
        Some(v) => match decode_status(v.as_str()) {
            Some(st) => Some(GarageDoorStatus { status: st }),
            None => None,
        },
        None => None,
    }
}

/// The body of a successful read response: the record as a one-member
/// object, or `null` when no status is known.
pub open spec fn spec_render_status(o: Option<GarageDoorStatus>) -> Seq<char> {
    match o {
        Some(g) => "{\"status\":\""@ + spec_encode(g.status) + "\"}"@,
        None => "null"@,
    }
}

/// The body of a store-failure response, embedding the failure description.
pub open spec fn spec_error_body(e: Seq<char>) -> Seq<char> {
    "{\"error\": \"Database error: "@ + e + "\"}"@
}

pub fn render_status_json(o: &Option<GarageDoorStatus>) -> (r: String)
    ensures
        r@ == spec_render_status(*o),
{
    match o {
        Some(g) => {
            let mut out = String::from_str("{\"status\":\"");
            let enc = encode_status(g.status);
            out.append(enc.as_str());
            out.append("\"}");
            out
        },
        None => String::from_str("null"),
    }
}

pub fn error_body(e: &str) -> (r: String)
    ensures
        r@ == spec_error_body(e@),
{
    let mut out = String::from_str("{\"error\": \"Database error: ");
    out.append(e);
    out.append("\"}");
    out
}

/// Law: a store-failure body embeds the failure description verbatim,
/// between a fixed prefix and a fixed suffix.
pub proof fn lemma_error_body_contains_description(e: Seq<char>)
    ensures
        spec_error_body(e).len() == e.len() + 29,
        spec_error_body(e).subrange(27, 27 + e.len() as int) == e,
{
    reveal_strlit("{\"error\": \"Database error: ");
    reveal_strlit("\"}");
    assert(("{\"error\": \"Database error: "@).len() == 27);
    assert(("\"}"@).len() == 2);
    assert(spec_error_body(e).subrange(27, 27 + e.len() as int) =~= e);
}

} // verus!
