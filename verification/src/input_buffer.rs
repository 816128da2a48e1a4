//! A UTF-8-correct editable text region with synchronized byte and
//! character cursor positions.
//!
//! The buffer keeps three quantities in lock-step: the text, a character
//! cursor, and the byte offset of that cursor in the UTF-8 encoding of the
//! text.  Well-formedness ([`InputBuffer::wf`]) states that the byte offset
//! always sits on a character boundary and equals the byte length of the
//! characters before the cursor; every operation preserves it.

use vstd::prelude::*;
use crate::text::{
    bytes_len, char_utf8_width, char_width, lemma_bytes_len_append, lemma_bytes_len_ge_len,
    lemma_bytes_len_singleton, lemma_bytes_len_split, lemma_bytes_len_take_full,
    lemma_bytes_len_take_mono, lemma_bytes_len_take_succ,
};

verus! {

/// An editable text buffer with a dual byte/character cursor.
pub struct InputBuffer {
    /// The text, one entry per character.
    pub chars: Vec<char>,
    /// Number of characters before the cursor.
    pub char_pos: usize,
    /// Byte offset of the cursor in the UTF-8 encoding of the text.
    pub byte_pos: usize,
    /// Byte length of the UTF-8 encoding of the whole text.
    pub total_bytes: usize,
}

impl View for InputBuffer {
    type V = Seq<char>;

    open spec fn view(&self) -> Seq<char> {
        self.chars@
    }
}

/// `post` is `pre` with the cursor one character left (or unchanged at
/// the start of the text).
pub open spec fn moved_left(pre: InputBuffer, post: InputBuffer) -> bool {
    &&& post@ == pre@
    &&& post.char_pos == if pre.char_pos > 0 {
        pre.char_pos - 1
    } else {
        0int
    }
}

/// `post` is `pre` with the cursor one character right (or unchanged at
/// the end of the text).
pub open spec fn moved_right(pre: InputBuffer, post: InputBuffer) -> bool {
    &&& post@ == pre@
    &&& post.char_pos == if pre.char_pos < pre@.len() {
        pre.char_pos + 1
    } else {
        pre.char_pos as int
    }
}

/// `post` is `pre` with `c` inserted at the cursor (or unchanged in the
/// unreachable case that the byte length would overflow a `usize`).
pub open spec fn inserted(pre: InputBuffer, post: InputBuffer, c: char) -> bool {
    if bytes_len(pre@) + char_width(c) <= usize::MAX {
        &&& post@ == pre@.insert(pre.char_pos as int, c)
        &&& post.char_pos == pre.char_pos + 1
    } else {
        post == pre
    }
}

/// `post` is `pre` with the character before the cursor removed (or
/// unchanged at the start of the text).
pub open spec fn backspaced(pre: InputBuffer, post: InputBuffer) -> bool {
    if pre.char_pos > 0 {
        &&& post@ == pre@.remove(pre.char_pos - 1)
        &&& post.char_pos == pre.char_pos - 1
    } else {
        post == pre
    }
}

/// The buffer holds no text and both offsets are zero.
pub open spec fn reset(b: InputBuffer) -> bool {
    &&& b@ == Seq::<char>::empty()
    &&& b.char_pos == 0
    &&& b.byte_pos == 0
}

impl InputBuffer {
    /// The byte offset is the byte length of the characters before the
    /// character cursor (so it is always a character boundary), and the
    /// recorded total is the byte length of the whole text.
    pub open spec fn wf(&self) -> bool {
        &&& self.char_pos <= self.chars@.len()
        &&& self.byte_pos == bytes_len(self.chars@.take(self.char_pos as int))
        &&& self.total_bytes == bytes_len(self.chars@)
    }

    /// An empty buffer with the cursor at the start.
    pub fn new() -> (r: InputBuffer)
        ensures
            r.wf(),
            r@ == Seq::<char>::empty(),
            r.char_pos == 0,
            r.byte_pos == 0,
    {
        let r = InputBuffer { chars: Vec::new(), char_pos: 0, byte_pos: 0, total_bytes: 0 };
        proof {
            assert(r.chars@.take(0) =~= Seq::<char>::empty());
        }
        r
    }

    /// A buffer holding `text` with the cursor after its last character,
    /// unless the text's byte length does not fit a `usize`.
    pub fn from_text(text: Vec<char>) -> (r: Option<InputBuffer>)
        ensures
            r.is_some() <==> bytes_len(text@) <= usize::MAX,
            r.is_some() ==> {
                let b = r.unwrap();
                &&& b.wf()
                &&& b@ == text@
                &&& b.char_pos == text@.len()
            },
    {
        let mut total: usize = 0;
        let mut i: usize = 0;
        while i < text.len()
            invariant
                0 <= i <= text@.len(),
                total == bytes_len(text@.take(i as int)),
            decreases text@.len() - i,
        {
            let w = char_utf8_width(text[i]);
            proof {
                lemma_bytes_len_take_succ(text@, i as int);
            }
            total = match total.checked_add(w) {
                Some(t) => t,
                None => {
                    proof {
                        lemma_bytes_len_take_mono(text@, i + 1, text@.len() as int);
                        lemma_bytes_len_take_full(text@);
                    }
                    return None;
                },
            };
            i = i + 1;
        }
        proof {
            lemma_bytes_len_take_full(text@);
        }
        let ghost n = text@.len();
        let char_pos = text.len();
        let r = InputBuffer { chars: text, char_pos, byte_pos: total, total_bytes: total };
        proof {
            assert(r.chars@.take(n as int) =~= r.chars@);
        }
        Some(r)
    }

    /// Steps the cursor one character to the left; at the start of the
    /// text this does nothing.
    pub fn move_left(&mut self)
        requires
            old(self).wf(),
        ensures
            final(self).wf(),
            moved_left(*old(self), *final(self)),
    {
        if self.char_pos > 0 {
            let p = self.char_pos - 1;
            let w = char_utf8_width(self.chars[p]);
            proof {
                lemma_bytes_len_take_succ(self.chars@, p as int);
            }
            self.char_pos = p;
            self.byte_pos = self.byte_pos - w;
        }
    }

    /// Steps the cursor one character to the right; at the end of the
    /// text this does nothing.
    pub fn move_right(&mut self)
        requires
            old(self).wf(),
        ensures
            final(self).wf(),
            moved_right(*old(self), *final(self)),
    {
        if self.char_pos < self.chars.len() {
            let w = char_utf8_width(self.chars[self.char_pos]);
            proof {
                lemma_bytes_len_take_succ(self.chars@, self.char_pos as int);
                lemma_bytes_len_take_mono(
                    self.chars@,
                    self.char_pos + 1,
                    self.chars@.len() as int,
                );
                lemma_bytes_len_take_full(self.chars@);
            }
            self.byte_pos = self.byte_pos + w;
            self.char_pos = self.char_pos + 1;
        }
    }

    /// Inserts `c` at the cursor, advancing the byte offset by the
    /// character's encoded width and the character offset by one.  When the
    /// new byte length would not fit a `usize` the buffer is unchanged.
    pub fn insert(&mut self, c: char)
        requires
            old(self).wf(),
        ensures
            final(self).wf(),
            inserted(*old(self), *final(self), c),
    {
        let w = char_utf8_width(c);
        let new_total = match self.total_bytes.checked_add(w) {
            Some(t) => t,
            None => {
                return ;
            },
        };
        let ghost s0 = self.chars@;
        let ghost p = self.char_pos as int;
        self.chars.insert(self.char_pos, c);
        proof {
            // The new text around the insertion point.
            assert(self.chars@ =~= s0.take(p).push(c) + s0.skip(p));
            assert(self.chars@.take(p + 1) =~= s0.take(p).push(c));
            assert(s0.take(p).push(c) =~= s0.take(p) + seq![c]);
            lemma_bytes_len_append(s0.take(p), seq![c]);
            lemma_bytes_len_singleton(c);
            lemma_bytes_len_append(s0.take(p) + seq![c], s0.skip(p));
            lemma_bytes_len_split(s0, p);
            assert(s0.insert(p, c) =~= self.chars@);
            lemma_bytes_len_ge_len(self.chars@);
        }
        self.byte_pos = self.byte_pos + w;
        self.char_pos = self.char_pos + 1;
        self.total_bytes = new_total;
    }

    /// Removes the character immediately before the cursor, symmetric to
    /// `insert`; at the start of the text this does nothing.
    pub fn backspace(&mut self)
        requires
            old(self).wf(),
        ensures
            final(self).wf(),
            backspaced(*old(self), *final(self)),
    {
        if self.char_pos > 0 {
            let p = self.char_pos - 1;
            let w = char_utf8_width(self.chars[p]);
            let ghost s0 = self.chars@;
            proof {
                lemma_bytes_len_take_succ(s0, p as int);
            }
            let _removed = self.chars.remove(p);
            proof {
                assert(self.chars@ =~= s0.take(p as int) + s0.skip(p as int + 1));
                assert(self.chars@.take(p as int) =~= s0.take(p as int));
                lemma_bytes_len_append(s0.take(p as int), s0.skip(p as int + 1));
                lemma_bytes_len_split(s0, p as int + 1);
                lemma_bytes_len_take_succ(s0, p as int);
                assert(s0.remove(p as int) =~= self.chars@);
            }
            self.char_pos = p;
            self.byte_pos = self.byte_pos - w;
            self.total_bytes = self.total_bytes - w;
        }
    }

    /// Atomically empties the buffer and returns its previous contents,
    /// resetting both offsets to zero.
    pub fn take(&mut self) -> (r: Vec<char>)
        requires
            old(self).wf(),
        ensures
            final(self).wf(),
            reset(*final(self)),
            r == old(self).chars,
    {
        let mut out: Vec<char> = Vec::new();
        core::mem::swap(&mut out, &mut self.chars);
        self.char_pos = 0;
        self.byte_pos = 0;
        self.total_bytes = 0;
        proof {
            assert(self.chars@.take(0) =~= Seq::<char>::empty());
        }
        out
    }

    /// Whether the buffer holds no text.
    pub fn is_empty(&self) -> (r: bool)
        ensures
            r <==> self@.len() == 0,
    {
        self.chars.is_empty()
    }
}

} // verus!
