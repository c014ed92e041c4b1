//! The door state and its textual codec.

use vstd::prelude::*;
use vstd::string::StrSliceExecFns;

verus! {

/// The state of the garage door. Its wire and storage encoding is exactly
/// `"OPEN"` / `"CLOSED"`; every other string stands for an unknown state and
/// is treated as an absent value, never as an error.
#[derive(Clone, Copy, PartialEq, Eq, Structural, Debug)]
pub enum Status {
    Open,
    Closed,
}

/// The one domain record: the last known state of the single door.
#[derive(Clone, Copy, PartialEq, Eq, Structural, Debug)]
pub struct GarageDoorStatus {
    pub status: Status,
}

/// The textual encoding of a status.
pub open spec fn spec_encode(st: Status) -> Seq<char> {
    match st {
        Status::Open => "OPEN"@,
        Status::Closed => "CLOSED"@,
    }
}

/// The decoding of a stored or submitted string: total, with every string
/// outside the two valid encodings mapped to no value.
pub open spec fn spec_decode(s: Seq<char>) -> Option<Status> {
    if s == "OPEN"@ {
        Some(Status::Open)
    } else if s == "CLOSED"@ {
        Some(Status::Closed)
    } else {
        None
    }
}

/// The contents of an optional string, as an optional character sequence.
pub open spec fn opt_str_view(o: Option<String>) -> Option<Seq<char>> {
    match o {
        Some(s) => Some(s@),
        None => None,
    }
}

/// What a read of the store means: no row, no status attribute, or an
/// attribute outside the two valid encodings all mean "no status known".
pub open spec fn spec_interpret(o: Option<Seq<char>>) -> Option<GarageDoorStatus> {
    match o {
        Some(v) => match spec_decode(v) {
            Some(st) => Some(GarageDoorStatus { status: st }),
            None => None,
        },
        None => None,
    }
}

pub fn encode_status(st: Status) -> (r: String)
    ensures
        r@ == spec_encode(st),
{
    match st {
        Status::Open => "OPEN".to_owned(),
        Status::Closed => "CLOSED".to_owned(),
    }
}

/// Character-for-character equality of two strings.
pub fn str_eq(a: &str, b: &str) -> (r: bool)
    ensures
        r == (a@ == b@),
{
    let n = a.unicode_len();
    let m = b.unicode_len();
    if n != m {
        return false;
    }
    let mut i: usize = 0;
    while i < n
        invariant
            n == a@.len(),
            n == b@.len(),
            i <= n,
            forall|k: int| 0 <= k < i ==> a@[k] == b@[k],
        decreases n - i,
    {
        if a.get_char(i) != b.get_char(i) {
            return false;
        }
        i += 1;
    }
    proof {
        assert(a@ =~= b@);
    }
    true
}

pub fn decode_status(s: &str) -> (r: Option<Status>)
    ensures
        r == spec_decode(s@),
{
    if str_eq(s, "OPEN") {
        Some(Status::Open)
    } else if str_eq(s, "CLOSED") {
        Some(Status::Closed)
    } else {
        None
    }
}

/// The read-path interpretation of the raw stored attribute, if any.
pub fn interpret_stored(raw: &Option<String>) -> (r: Option<GarageDoorStatus>)
    ensures
        r == spec_interpret(opt_str_view(*raw)),
{
    match raw {
        Some(v) => match decode_status(v.as_str()) {
            Some(st) => Some(GarageDoorStatus { status: st }),
            None => None,
        },
        None => None,
    }
}

/// Law: decoding an encoded status gives the status back.
pub proof fn lemma_encode_decode_round_trip(st: Status)
    ensures
        spec_decode(spec_encode(st)) == Some(st),
{
    reveal_strlit("OPEN");
    reveal_strlit("CLOSED");
    assert("OPEN"@.len() == 4);
    assert("CLOSED"@.len() == 6);
}

/// Law: every string outside the two valid encodings decodes to no value.
pub proof fn lemma_decode_unknown_is_none(s: Seq<char>)
    requires
        s != "OPEN"@,
        s != "CLOSED"@,
    ensures
        spec_decode(s) is None,
{
}

} // verus!
