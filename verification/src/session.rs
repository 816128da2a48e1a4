//! The persisted session record: a plaintext three-line file — server
//! address, session token, user id — used to skip re-authentication.
//!
//! This crate only accepts the three parsed values; writing the record
//! and deciding on defaults belongs to the bootstrap code around it.

use vstd::prelude::*;
use crate::text::{is_u64_str, parse_u64_chars, u64_str_val};

verus! {

/// A parsed session record.
pub struct SessionRecord {
    /// The server address (the record's first line).
    pub homeserver: Vec<char>,
    /// The session token (the second line).
    pub token: Vec<char>,
    /// The user id (the third line, as a decimal number).
    pub user_id: u64,
}

/// Position of the first line break at or after `from`, or the text's
/// length when there is none.
pub open spec fn newline_at(s: Seq<char>, from: int) -> int
    recommends
        0 <= from <= s.len(),
    decreases s.len() - from,
{
    if from < 0 || from >= s.len() {
        s.len() as int
    } else if s[from] == '\n' {
        from
    } else {
        newline_at(s, from + 1)
    }
}

/// Finds the first line break at or after `from`.
pub fn find_newline(v: &Vec<char>, from: usize) -> (r: usize)
    requires
        from <= v@.len(),
    ensures
        r == newline_at(v@, from as int),
        from <= r <= v@.len(),
        r < v@.len() ==> v@[r as int] == '\n',
{
    let mut i: usize = from;
    while i < v.len()
        invariant
            from <= i <= v@.len(),
            newline_at(v@, from as int) == newline_at(v@, i as int),
        decreases v@.len() - i,
    {
        if v[i] == '\n' {
            return i;
        }
        i = i + 1;
    }
    i
}

/// Copies the characters of `v` between positions `from` and `to`.
pub fn chars_range(v: &Vec<char>, from: usize, to: usize) -> (r: Vec<char>)
    requires
        from <= to <= v@.len(),
    ensures
        r@ == v@.subrange(from as int, to as int),
{
    let mut out: Vec<char> = Vec::new();
    let mut i: usize = from;
    while i < to
        invariant
            from <= i <= to <= v@.len(),
            out@ == v@.subrange(from as int, i as int),
        decreases to - i,
    {
        out.push(v[i]);
        i = i + 1;
        assert(out@ =~= v@.subrange(from as int, i as int));
    }
    out
}

/// Whether `text` holds a complete session record: a second line for the
/// token, and a third line holding a decimal user id.
pub open spec fn record_complete(text: Seq<char>) -> bool {
    let e0 = newline_at(text, 0);
    let e1 = newline_at(text, e0 + 1);
    let e2 = newline_at(text, e1 + 1);
    &&& e0 < text.len()
    &&& e1 < text.len()
    &&& is_u64_str(text.subrange(e1 + 1, e2))
}

/// Parses the three-line session record: the first line is the server
/// address, the second the token, the third the user id.  Anything short
/// of three lines, or a third line that is not a decimal user id, yields
/// nothing.
pub fn parse_session_record(text: &Vec<char>) -> (r: Option<SessionRecord>)
    ensures
        r.is_some() <==> record_complete(text@),
        r.is_some() ==> {
            let rec = r.unwrap();
            let e0 = newline_at(text@, 0);
            let e1 = newline_at(text@, e0 + 1);
            let e2 = newline_at(text@, e1 + 1);
            &&& rec.homeserver@ == text@.subrange(0, e0)
            &&& rec.token@ == text@.subrange(e0 + 1, e1)
            &&& rec.user_id == u64_str_val(text@.subrange(e1 + 1, e2))
        },
{
    let e0 = find_newline(text, 0);
    if e0 >= text.len() {
        return None;
    }
    let e1 = find_newline(text, e0 + 1);
    if e1 >= text.len() {
        return None;
    }
    let e2 = find_newline(text, e1 + 1);
    let homeserver = chars_range(text, 0, e0);
    let token = chars_range(text, e0 + 1, e1);
    let uid_line = chars_range(text, e1 + 1, e2);
    match parse_u64_chars(&uid_line) {
        Some(user_id) => Some(SessionRecord { homeserver, token, user_id }),
        None => None,
    }
}

} // verus!
