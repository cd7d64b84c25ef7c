//! The common envelope of a message: its destination path and its capture time.

use vstd::prelude::*;
use vstd::string::*;

verus! {

/// A capture time: seconds since the Unix epoch and a non-negative nanosecond part.
#[derive(Clone, Copy, Debug, PartialEq, Eq, Structural)]
pub struct Timestamp {
    pub seconds: i64,
    pub nanos: i32,
}

/// The optional header that messages carry.
#[derive(Debug)]
pub struct Header {
    pub entity_path: String,
    pub timestamp: Option<Timestamp>,
}

/// The destination path of a message with header `h`.
pub open spec fn envelope_path(h: Option<Header>) -> Seq<char> {
    match h {
        Some(h) => with_leading_slash(h.entity_path@),
        None => seq!['/'],
    }
}

/// The time of a message with header `h` received at wall-clock time `now`.
pub open spec fn envelope_time(h: Option<Header>, now: Timestamp) -> Timestamp {
    match h {
        Some(h) => match h.timestamp {
            Some(t) => t,
            None => now,
        },
        None => now,
    }
}

/// A destination path as it is used: the header's path with a leading separator.
pub open spec fn with_leading_slash(p: Seq<char>) -> Seq<char> {
    if p.len() > 0 && p[0] == '/' {
        p
    } else {
        seq!['/'] + p
    }
}

/// Returns the path unchanged when it starts with `/`, else the path with `/` in front.
pub fn ensure_leading_slash(entity_path: String) -> (r: String)
    ensures
        r@ == with_leading_slash(entity_path@),
{
    let n = entity_path.as_str().unicode_len();
    if n > 0 && entity_path.as_str().get_char(0) == '/' {
        entity_path
    } else {
        let mut r = String::from_str("/");
        proof {
            reveal_strlit("/");
        }
        r.append(entity_path.as_str());
        r
    }
}

/// The destination path and the time of a message: the header's path with a leading
/// separator and its capture time, falling back to the root path and to `now`.
pub fn decode_envelope(header: Option<Header>, now: Timestamp) -> (r: (String, Timestamp))
    ensures
        r.0@ == envelope_path(header),
        r.1 == envelope_time(header, now),
{
    match header {
        Some(h) => {
            let time = match h.timestamp {
                Some(t) => t,
                None => now,
            };
            (ensure_leading_slash(h.entity_path), time)
        },
        None => {
            let root = String::from_str("/");
            proof {
                reveal_strlit("/");
            }
            (root, now)
        },
    }
}

/// A header path that lacks a leading separator gets one; one that has it is kept.
pub proof fn lemma_leading_slash(p: Seq<char>)
    ensures
        with_leading_slash(p)[0] == '/',
        p.len() > 0 && p[0] == '/' ==> with_leading_slash(p) == p,
        !(p.len() > 0 && p[0] == '/') ==> with_leading_slash(p).drop_first() == p,
{
    if !(p.len() > 0 && p[0] == '/') {
        assert((seq!['/'] + p).drop_first() =~= p);
    }
}

} // verus!
