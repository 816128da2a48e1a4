//! Text utilities over sequences of characters.
//!
//! Text in this crate is held as `Vec<char>`; the byte-oriented quantities
//! the cursor logic needs (the UTF-8 width of a character, the byte length
//! of a prefix) are defined here as spec functions with verified executable
//! counterparts, together with decimal-number parsing for form fields.

use vstd::prelude::*;

verus! {

/// Number of bytes the UTF-8 encoding of `c` occupies.
pub open spec fn char_width(c: char) -> nat {
    if (c as u32) < 0x80 {
        1
    } else if (c as u32) < 0x800 {
        2
    } else if (c as u32) < 0x10000 {
        3
    } else {
        4
    }
}

/// Byte length of the UTF-8 encoding of the character sequence `s`.
pub open spec fn bytes_len(s: Seq<char>) -> nat
    decreases s.len(),
{
    if s.len() == 0 {
        0
    } else {
        bytes_len(s.drop_last()) + char_width(s.last())
    }
}

/// Computes the UTF-8 width of a character.
pub fn char_utf8_width(c: char) -> (w: usize)
    ensures
        w == char_width(c),
        1 <= w <= 4,
{
    let v = c as u32;
    if v < 0x80 {
        1
    } else if v < 0x800 {
        2
    } else if v < 0x10000 {
        3
    } else {
        4
    }
}

pub proof fn lemma_bytes_len_singleton(c: char)
    ensures
        bytes_len(seq![c]) == char_width(c),
{
    assert(seq![c].drop_last() =~= Seq::<char>::empty());
    assert(seq![c].last() == c);
    assert(bytes_len(Seq::<char>::empty()) == 0);
}

pub proof fn lemma_bytes_len_append(a: Seq<char>, b: Seq<char>)
    ensures
        bytes_len(a + b) == bytes_len(a) + bytes_len(b),
    decreases b.len(),
{
    if b.len() == 0 {
        assert(a + b =~= a);
    } else {
        lemma_bytes_len_append(a, b.drop_last());
        assert((a + b).drop_last() =~= a + b.drop_last());
        assert((a + b).last() == b.last());
    }
}

/// Extending a prefix by one character adds that character's width.
pub proof fn lemma_bytes_len_take_succ(s: Seq<char>, i: int)
    requires
        0 <= i < s.len(),
    ensures
        bytes_len(s.take(i + 1)) == bytes_len(s.take(i)) + char_width(s[i]),
{
    assert(s.take(i + 1).drop_last() =~= s.take(i));
    assert(s.take(i + 1).last() == s[i]);
}

/// Prefix byte lengths grow with the prefix.
pub proof fn lemma_bytes_len_take_mono(s: Seq<char>, i: int, j: int)
    requires
        0 <= i <= j <= s.len(),
    ensures
        bytes_len(s.take(i)) <= bytes_len(s.take(j)),
    decreases j - i,
{
    if i < j {
        lemma_bytes_len_take_succ(s, j - 1);
        lemma_bytes_len_take_mono(s, i, j - 1);
    }
}

pub proof fn lemma_bytes_len_take_full(s: Seq<char>)
    ensures
        bytes_len(s.take(s.len() as int)) == bytes_len(s),
{
    assert(s.take(s.len() as int) =~= s);
}

/// A text never has more characters than encoded bytes.
pub proof fn lemma_bytes_len_ge_len(s: Seq<char>)
    ensures
        bytes_len(s) >= s.len(),
    decreases s.len(),
{
    if s.len() > 0 {
        lemma_bytes_len_ge_len(s.drop_last());
    }
}

/// Decomposes the byte length around position `i`.
pub proof fn lemma_bytes_len_split(s: Seq<char>, i: int)
    requires
        0 <= i <= s.len(),
    ensures
        bytes_len(s) == bytes_len(s.take(i)) + bytes_len(s.skip(i)),
{
    assert(s =~= s.take(i) + s.skip(i));
    lemma_bytes_len_append(s.take(i), s.skip(i));
}

/// Whether `c` is an ASCII decimal digit.
pub open spec fn is_digit(c: char) -> bool {
    0x30 <= (c as u32) <= 0x39
}

/// Numeric value of a digit character.
pub open spec fn digit_val(c: char) -> nat {
    ((c as u32) - 0x30) as nat
}

/// Whether `s` is a non-empty run of decimal digits.
pub open spec fn all_digits(s: Seq<char>) -> bool {
    forall|i: int| 0 <= i < s.len() ==> is_digit(#[trigger] s[i])
}

/// Value of a digit string read in base ten.
pub open spec fn digits_val(s: Seq<char>) -> nat
    decreases s.len(),
{
    if s.len() == 0 {
        0
    } else {
        digits_val(s.drop_last()) * 10 + digit_val(s.last())
    }
}

pub proof fn lemma_digits_val_take_succ(s: Seq<char>, i: int)
    requires
        0 <= i < s.len(),
    ensures
        digits_val(s.take(i + 1)) == digits_val(s.take(i)) * 10 + digit_val(s[i]),
{
    assert(s.take(i + 1).drop_last() =~= s.take(i));
    assert(s.take(i + 1).last() == s[i]);
}

/// The value of a digit-string prefix never exceeds the whole string's value.
pub proof fn lemma_digits_val_take_mono(s: Seq<char>, i: int, j: int)
    requires
        0 <= i <= j <= s.len(),
    ensures
        digits_val(s.take(i)) <= digits_val(s.take(j)),
    decreases j - i,
{
    if i < j {
        lemma_digits_val_take_succ(s, j - 1);
        lemma_digits_val_take_mono(s, i, j - 1);
    }
}

pub proof fn lemma_digits_val_take_full(s: Seq<char>)
    ensures
        digits_val(s.take(s.len() as int)) == digits_val(s),
{
    assert(s.take(s.len() as int) =~= s);
}

/// Whether `s` is the decimal notation of a value that fits in `u64`.
pub open spec fn is_u64_digits(s: Seq<char>) -> bool {
    &&& s.len() > 0
    &&& all_digits(s)
    &&& digits_val(s) <= u64::MAX
}

/// Parses a non-empty all-digit string as a `u64`; rejects anything else,
/// including values out of range.
pub fn parse_u64_digits(s: &[char]) -> (r: Option<u64>)
    ensures
        r.is_some() <==> is_u64_digits(s@),
        r.is_some() ==> r.unwrap() == digits_val(s@),
{
    if s.len() == 0 {
        return None;
    }
    let mut acc: u64 = 0;
    let mut i: usize = 0;
    while i < s.len()
        invariant
            0 <= i <= s@.len(),
            all_digits(s@.take(i as int)),
            acc == digits_val(s@.take(i as int)),
        decreases s@.len() - i,
    {
        let c = s[i];
        let v = c as u32;
        if !(0x30 <= v && v <= 0x39) {
            return None;
        }
        let d: u64 = (v - 0x30) as u64;
        proof {
            lemma_digits_val_take_succ(s@, i as int);
        }
        acc = match acc.checked_mul(10) {
            Some(m) => match m.checked_add(d) {
                Some(a) => a,
                None => {
                    proof {
                        lemma_digits_val_take_mono(s@, i + 1, s@.len() as int);
                        lemma_digits_val_take_full(s@);
                    }
                    return None;
                },
            },
            None => {
                proof {
                    lemma_digits_val_take_succ(s@, i as int);
                    lemma_digits_val_take_mono(s@, i + 1, s@.len() as int);
                    lemma_digits_val_take_full(s@);
                }
                return None;
            },
        };
        i = i + 1;
        assert(s@.take(i as int).drop_last() =~= s@.take(i - 1));
    }
    proof {
        lemma_digits_val_take_full(s@);
        assert(s@.take(s@.len() as int) =~= s@);
    }
    Some(acc)
}

/// The digit part of an unsigned decimal string: everything after a
/// leading `+`, or the whole string when there is none.
pub open spec fn u64_body(s: Seq<char>) -> Seq<char> {
    if s.len() > 0 && s[0] == '+' {
        s.skip(1)
    } else {
        s
    }
}

/// Whether `s` is the decimal notation of a value that fits in `u64`:
/// an optional `+`, at least one digit, and a value within range.
pub open spec fn is_u64_str(s: Seq<char>) -> bool {
    is_u64_digits(u64_body(s))
}

/// Unsigned value denoted by `s`, assuming `is_u64_str(s)`.
pub open spec fn u64_str_val(s: Seq<char>) -> nat {
    digits_val(u64_body(s))
}

/// Parses an optionally plus-signed decimal string as a `u64`, exactly
/// when it denotes a value in range.
pub fn parse_u64_chars(s: &Vec<char>) -> (r: Option<u64>)
    ensures
        r.is_some() <==> is_u64_str(s@),
        r.is_some() ==> r.unwrap() == u64_str_val(s@),
{
    let body: &[char] = if s.len() > 0 && s[0] == '+' {
        slice_skip_first(s.as_slice())
    } else {
        s.as_slice()
    };
    parse_u64_digits(body)
}

/// The digit part of a signed decimal string: everything after a leading
/// `+` or `-`, or the whole string when there is no sign.
pub open spec fn signed_body(s: Seq<char>) -> Seq<char> {
    if s.len() > 0 && (s[0] == '+' || s[0] == '-') {
        s.skip(1)
    } else {
        s
    }
}

/// Whether `s` reads as a negative number.
pub open spec fn signed_negative(s: Seq<char>) -> bool {
    s.len() > 0 && s[0] == '-'
}

/// Whether `s` is the decimal notation of a value that fits in `i64`:
/// an optional sign, at least one digit, and a magnitude within range.
pub open spec fn is_i64_str(s: Seq<char>) -> bool {
    &&& signed_body(s).len() > 0
    &&& all_digits(signed_body(s))
    &&& if signed_negative(s) {
        digits_val(signed_body(s)) <= 0x8000_0000_0000_0000
    } else {
        digits_val(signed_body(s)) <= i64::MAX
    }
}

/// Signed value denoted by `s`, assuming `is_i64_str(s)`.
pub open spec fn i64_str_val(s: Seq<char>) -> int {
    if signed_negative(s) {
        -(digits_val(signed_body(s)) as int)
    } else {
        digits_val(signed_body(s)) as int
    }
}

/// Parses an optionally signed decimal string as an `i64`, exactly when it
/// denotes a value in range.
pub fn parse_i64_chars(s: &Vec<char>) -> (r: Option<i64>)
    ensures
        r.is_some() <==> is_i64_str(s@),
        r.is_some() ==> r.unwrap() == i64_str_val(s@),
{
    let negative: bool = s.len() > 0 && s[0] == '-';
    let has_sign: bool = s.len() > 0 && (s[0] == '+' || s[0] == '-');
    let body: &[char] = if has_sign {
        slice_skip_first(s.as_slice())
    } else {
        s.as_slice()
    };
    let mag = match parse_u64_digits(body) {
        Some(m) => m,
        None => {
            return None;
        },
    };
    if negative {
        if mag == 0x8000_0000_0000_0000u64 {
            Some(i64::MIN)
        } else if mag <= i64::MAX as u64 {
            Some(-(mag as i64))
        } else {
            None
        }
    } else {
        if mag <= i64::MAX as u64 {
            Some(mag as i64)
        } else {
            None
        }
    }
}

/// Everything after the first element of a non-empty slice.
pub fn slice_skip_first<T>(s: &[T]) -> (r: &[T])
    requires
        s@.len() > 0,
    ensures
        r@ == s@.skip(1),
{
    let (_, rest) = s.split_at(1);
    assert(s@.subrange(1, s@.len() as int) =~= s@.skip(1));
    rest
}

/// `s` with every occurrence of `from` replaced by `to`.
pub open spec fn replaced(s: Seq<char>, from: char, to: char) -> Seq<char> {
    s.map_values(|c: char| if c == from { to } else { c })
}

/// Replaces every occurrence of `from` in `v` by `to`.
pub fn replace_char(v: &Vec<char>, from: char, to: char) -> (r: Vec<char>)
    ensures
        r@ == replaced(v@, from, to),
{
    let mut out: Vec<char> = Vec::new();
    let mut i: usize = 0;
    while i < v.len()
        invariant
            0 <= i <= v@.len(),
            out@ == replaced(v@.take(i as int), from, to),
        decreases v@.len() - i,
    {
        let c = v[i];
        if c == from {
            out.push(to);
        } else {
            out.push(c);
        }
        i = i + 1;
        assert(out@ =~= replaced(v@.take(i as int), from, to));
    }
    assert(v@.take(v@.len() as int) =~= v@);
    out
}

/// Copies a character vector.
pub fn clone_chars(v: &Vec<char>) -> (r: Vec<char>)
    ensures
        r@ == v@,
{
    let mut out: Vec<char> = Vec::new();
    let mut i: usize = 0;
    while i < v.len()
        invariant
            0 <= i <= v@.len(),
            out@ == v@.take(i as int),
        decreases v@.len() - i,
    {
        out.push(v[i]);
        i = i + 1;
        assert(out@ =~= v@.take(i as int));
    }
    assert(v@.take(v@.len() as int) =~= v@);
    out
}

/// Whether the characters of `v` equal those of `w`.
pub fn chars_eq(v: &Vec<char>, w: &[char]) -> (r: bool)
    ensures
        r <==> v@ == w@,
{
    if v.len() != w.len() {
        assert(v@.len() != w@.len());
        return false;
    }
    let mut i: usize = 0;
    while i < v.len()
        invariant
            0 <= i <= v@.len(),
            v@.len() == w@.len(),
            forall|j: int| 0 <= j < i ==> v@[j] == w@[j],
        decreases v@.len() - i,
    {
        if v[i] != w[i] {
            return false;
        }
        i = i + 1;
    }
    assert(v@ =~= w@);
    true
}

/// Copies the characters of `v` from position `from` to the end.
pub fn chars_suffix(v: &Vec<char>, from: usize) -> (r: Vec<char>)
    requires
        from <= v@.len(),
    ensures
        r@ == v@.skip(from as int),
{
    let mut out: Vec<char> = Vec::new();
    let mut i: usize = from;
    while i < v.len()
        invariant
            from <= i <= v@.len(),
            out@ == v@.subrange(from as int, i as int),
        decreases v@.len() - i,
    {
        out.push(v[i]);
        i = i + 1;
        assert(out@ =~= v@.subrange(from as int, i as int));
    }
    assert(v@.subrange(from as int, v@.len() as int) =~= v@.skip(from as int));
    out
}

} // verus!

