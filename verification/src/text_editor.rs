//! The text editing engine: a mutable UTF-8 byte buffer and a cursor
//! that is always kept on a character boundary.
//!
//! Every operation is specified against the byte sequence of the buffer
//! and the boundary probes of [`crate::boundary`], so a caller knows
//! exactly which bytes an edit touches and where the cursor lands.

use vstd::prelude::*;
use vstd::utf8::*;

use crate::boundary::{
    lemma_boundary_byte, lemma_concat_boundary, lemma_encode_scalar_shape, lemma_next_stop_unique,
    lemma_next_of_prev, lemma_one_char_between_stops, lemma_prev_of_next, lemma_prev_stop_unique,
    lemma_splice_char, lemma_split_valid, lemma_stops_are_boundaries, next_stop, prev_stop,
};
use crate::events::InputEvent;
use crate::keys::KeyCode;

verus! {

/// A byte that may end a cursor probe: anything but a UTF-8
/// continuation byte.
fn is_stop_byte(b: u8) -> (r: bool)
    ensures
        r == !is_continuation_byte(b),
{
    b < 0x80 || b > 0xBF
}

/// Encodes one character as its UTF-8 byte sequence.
fn encode_char(c: char) -> (e: Vec<u8>)
    ensures
        e@ == encode_scalar(c as u32),
{
    proof {
        char_is_scalar(c);
    }
    let u = c as u32;
    let mut e: Vec<u8> = Vec::new();
    if u <= 0x7F {
        e.push((u & 0x7F) as u8);
    } else if u <= 0x7FF {
        e.push(0xC0 | ((u >> 6) & 0x1F) as u8);
        e.push(0x80 | (u & 0x3F) as u8);
    } else if u <= 0xFFFF {
        e.push(0xE0 | ((u >> 12) & 0x0F) as u8);
        e.push(0x80 | ((u >> 6) & 0x3F) as u8);
        e.push(0x80 | (u & 0x3F) as u8);
    } else {
        e.push(0xF0 | ((u >> 18) & 0x7) as u8);
        e.push(0x80 | ((u >> 12) & 0x3F) as u8);
        e.push(0x80 | ((u >> 6) & 0x3F) as u8);
        e.push(0x80 | (u & 0x3F) as u8);
    }
    proof {
        assert(e@ =~= encode_scalar(c as u32));
    }
    e
}

/// A non-drawable component holding the text being edited and the
/// cursor's byte offset into it.
pub struct TextEditor {
    pub text: Vec<u8>,
    pub cur_pos: usize,
}

impl TextEditor {
    /// The buffer is valid UTF-8 and the cursor sits on a character
    /// boundary; every operation preserves this.
    pub open spec fn wf(self) -> bool {
        &&& valid_utf8(self.text@)
        &&& self.cur_pos <= self.text@.len()
        &&& is_char_boundary(self.text@, self.cur_pos as int)
    }

    /// The characters the buffer currently encodes.
    pub open spec fn chars(self) -> Seq<char> {
        decode_utf8(self.text@)
    }

    /// True when two editors hold the same buffer and cursor.
    pub open spec fn same_state(self, other: TextEditor) -> bool {
        self.text@ == other.text@ && self.cur_pos == other.cur_pos
    }

    pub fn from(text: String) -> (r: TextEditor)
        ensures
            r.text@ == encode_utf8(text@),
            r.chars() == text@,
            r.cur_pos == 0,
            r.wf(),
    {
        let bytes = text.as_str().as_bytes_vec();
        proof {
            encode_utf8_valid_utf8(text@);
            encode_utf8_decode_utf8(text@);
        }
        TextEditor { text: bytes, cur_pos: 0 }
    }

    pub fn new() -> (r: TextEditor)
        ensures
            r.text@ =~= Seq::<u8>::empty(),
            r.cur_pos == 0,
            r.wf(),
    {
        proof {
            assert(encode_utf8(Seq::<char>::empty()) =~= Seq::<u8>::empty());
        }
        Self::from(String::new())
    }

    /// The byte offset of the boundary after the character under the
    /// cursor, or nothing when the cursor is at the end.
    pub fn next_char_pos(&self) -> (r: Option<usize>)
        requires
            self.wf(),
        ensures
            self.cur_pos == self.text@.len() ==> r is None,
            self.cur_pos < self.text@.len() ==> (r matches Some(p)
                && p == next_stop(self.text@, self.cur_pos as int)
                && is_char_boundary(self.text@, p as int)
                && self.cur_pos < p <= self.text@.len()),
    {
        if self.cur_pos == self.text.len() {
            return None;
        }
        let ghost s = self.text@;
        let mut index: usize = self.cur_pos + 1;
        while index < self.text.len() && !is_stop_byte(self.text[index])
            invariant
                self.cur_pos < index <= self.text@.len(),
                self.text@ == s,
                forall|j: int|
                    self.cur_pos < j < index ==> is_continuation_byte(#[trigger] s[j]),
            decreases self.text@.len() - index,
        {
            index = index + 1;
        }
        proof {
            lemma_next_stop_unique(s, self.cur_pos as int, index as int);
            lemma_stops_are_boundaries(s, self.cur_pos as int);
        }
        Some(index)
    }

    /// The byte offset of the boundary before the cursor, or nothing
    /// when the cursor is at the start.
    pub fn prev_char_pos(&self) -> (r: Option<usize>)
        requires
            self.wf(),
        ensures
            self.cur_pos == 0 ==> r is None,
            self.cur_pos > 0 ==> (r matches Some(p)
                && p == prev_stop(self.text@, self.cur_pos as int)
                && is_char_boundary(self.text@, p as int)
                && p < self.cur_pos),
    {
        if self.cur_pos == 0 {
            return None;
        }
        let ghost s = self.text@;
        let mut index: usize = self.cur_pos - 1;
        while index > 0 && !is_stop_byte(self.text[index])
            invariant
                0 <= index < self.cur_pos,
                self.cur_pos <= self.text@.len(),
                self.text@ == s,
                forall|j: int|
                    index < j < self.cur_pos ==> is_continuation_byte(#[trigger] s[j]),
            decreases index,
        {
            index = index - 1;
        }
        proof {
            lemma_prev_stop_unique(s, self.cur_pos as int, index as int);
            lemma_stops_are_boundaries(s, self.cur_pos as int);
        }
        Some(index)
    }

    /// What moving the cursor one character right does.
    pub open spec fn incr_post(pre: TextEditor, post: TextEditor, moved: bool) -> bool {
        &&& post.text@ == pre.text@
        &&& moved == (pre.cur_pos < pre.text@.len())
        &&& if pre.cur_pos < pre.text@.len() {
            post.cur_pos == next_stop(pre.text@, pre.cur_pos as int)
        } else {
            post.cur_pos == pre.cur_pos
        }
    }

    /// What moving the cursor one character left does.
    pub open spec fn decr_post(pre: TextEditor, post: TextEditor, moved: bool) -> bool {
        &&& post.text@ == pre.text@
        &&& moved == (pre.cur_pos > 0)
        &&& if pre.cur_pos > 0 {
            post.cur_pos == prev_stop(pre.text@, pre.cur_pos as int)
        } else {
            post.cur_pos == pre.cur_pos
        }
    }

    pub fn incr_cursor(&mut self) -> (moved: bool)
        requires
            old(self).wf(),
        ensures
            final(self).wf(),
            TextEditor::incr_post(*old(self), *final(self), moved),
    {
        match self.next_char_pos() {
            Some(pos) => {
                self.cur_pos = pos;
                true
            },
            None => false,
        }
    }

    pub fn decr_cursor(&mut self) -> (moved: bool)
        requires
            old(self).wf(),
        ensures
            final(self).wf(),
            TextEditor::decr_post(*old(self), *final(self), moved),
    {
        match self.prev_char_pos() {
            Some(pos) => {
                self.cur_pos = pos;
                true
            },
            None => false,
        }
    }

    /// What inserting a character at the cursor does: the character's
    /// encoding is spliced in at the cursor and the cursor moves to
    /// just past it.
    pub open spec fn insert_post(pre: TextEditor, c: char, post: TextEditor) -> bool {
        let e = encode_scalar(c as u32);
        &&& post.text@ == pre.text@.subrange(0, pre.cur_pos as int) + e + pre.text@.subrange(
            pre.cur_pos as int,
            pre.text@.len() as int,
        )
        &&& post.cur_pos == pre.cur_pos + e.len()
    }

    pub fn insert(&mut self, c: char)
        requires
            old(self).wf(),
        ensures
            final(self).wf(),
            TextEditor::insert_post(*old(self), c, *final(self)),
    {
        let ghost a = self.text@.subrange(0, self.cur_pos as int);
        let ghost b = self.text@.subrange(self.cur_pos as int, self.text@.len() as int);
        proof {
            lemma_split_valid(self.text@, self.cur_pos as int);
            lemma_encode_scalar_shape(c);
        }
        let e = encode_char(c);
        let mut k: usize = 0;
        while k < e.len()
            invariant
                k <= e@.len(),
                e@ == encode_scalar(c as u32),
                1 <= e@.len() <= 4,
                self.cur_pos == a.len(),
                self.text@ =~= a + e@.subrange(0, k as int) + b,
            decreases e@.len() - k,
        {
            let len_now = self.text.len();
            proof {
                assert(len_now == a.len() + k + b.len());
                assert(self.cur_pos + k <= len_now);
            }
            self.text.insert(self.cur_pos + k, e[k]);
            proof {
                assert(self.text@ =~= a + e@.subrange(0, k + 1) + b);
            }
            k = k + 1;
        }
        proof {
            assert(e@.subrange(0, e@.len() as int) =~= e@);
            lemma_splice_char(a, b, c);
        }
        let moved = self.incr_cursor();
    }

    /// What backspace does: when the cursor is not at the start, the
    /// character ending at the cursor is removed and the cursor moves
    /// to the boundary where that character began.
    pub open spec fn backspace_post(pre: TextEditor, post: TextEditor, removed: bool) -> bool {
        if pre.cur_pos == 0 {
            !removed && post.same_state(pre)
        } else {
            let p = prev_stop(pre.text@, pre.cur_pos as int);
            &&& removed
            &&& post.text@ == pre.text@.subrange(0, p) + pre.text@.subrange(
                pre.cur_pos as int,
                pre.text@.len() as int,
            )
            &&& post.cur_pos == p
        }
    }

    pub fn backspace(&mut self) -> (removed: bool)
        requires
            old(self).wf(),
        ensures
            final(self).wf(),
            TextEditor::backspace_post(*old(self), *final(self), removed),
    {
        let ghost s = self.text@;
        let cur = self.cur_pos;
        match self.prev_char_pos() {
            Some(pos) => {
                proof {
                    lemma_split_valid(s, pos as int);
                    lemma_split_valid(s, cur as int);
                }
                self.remove_range(pos, cur);
                self.cur_pos = pos;
                proof {
                    lemma_concat_boundary(
                        s.subrange(0, pos as int),
                        s.subrange(cur as int, s.len() as int),
                    );
                }
                true
            },
            None => false,
        }
    }

    /// What delete does: when the cursor is not at the end, the
    /// character beginning at the cursor is removed and the cursor
    /// stays where it is.
    pub open spec fn delete_post(pre: TextEditor, post: TextEditor, removed: bool) -> bool {
        if pre.cur_pos == pre.text@.len() {
            !removed && post.same_state(pre)
        } else {
            let q = next_stop(pre.text@, pre.cur_pos as int);
            &&& removed
            &&& post.text@ == pre.text@.subrange(0, pre.cur_pos as int) + pre.text@.subrange(
                q,
                pre.text@.len() as int,
            )
            &&& post.cur_pos == pre.cur_pos
        }
    }

    pub fn delete(&mut self) -> (removed: bool)
        requires
            old(self).wf(),
        ensures
            final(self).wf(),
            TextEditor::delete_post(*old(self), *final(self), removed),
    {
        let ghost s = self.text@;
        let cur = self.cur_pos;
        match self.next_char_pos() {
            Some(pos) => {
                proof {
                    lemma_split_valid(s, cur as int);
                    lemma_split_valid(s, pos as int);
                }
                self.remove_range(cur, pos);
                proof {
                    lemma_concat_boundary(
                        s.subrange(0, cur as int),
                        s.subrange(pos as int, s.len() as int),
                    );
                }
                true
            },
            None => false,
        }
    }

    /// Removes the bytes in `from..to` from the buffer, leaving the
    /// cursor field untouched.
    fn remove_range(&mut self, from: usize, to: usize)
        requires
            from <= to <= old(self).text@.len(),
        ensures
            final(self).text@ == old(self).text@.subrange(0, from as int) + old(
                self,
            ).text@.subrange(to as int, old(self).text@.len() as int),
            final(self).cur_pos == old(self).cur_pos,
    {
        let ghost s = self.text@;
        let n = to - from;
        let mut k: usize = 0;
        while k < n
            invariant
                k <= n,
                n == to - from,
                from <= to <= s.len(),
                self.cur_pos == old(self).cur_pos,
                self.text@ =~= s.subrange(0, from as int) + s.subrange(
                    from + k,
                    s.len() as int,
                ),
            decreases n - k,
        {
            proof {
                assert(self.text@.len() == from + (s.len() - from - k));
            }
            self.text.remove(from);
            proof {
                assert(self.text@ =~= s.subrange(0, from as int) + s.subrange(
                    from + k + 1,
                    s.len() as int,
                ));
            }
            k = k + 1;
        }
    }

    /// What jumping to the start does.
    pub open spec fn home_post(pre: TextEditor, post: TextEditor, moved: bool) -> bool {
        &&& post.text@ == pre.text@
        &&& post.cur_pos == 0
        &&& moved == (pre.cur_pos != 0)
    }

    /// What jumping to the end does.
    pub open spec fn end_post(pre: TextEditor, post: TextEditor, moved: bool) -> bool {
        &&& post.text@ == pre.text@
        &&& post.cur_pos == pre.text@.len()
        &&& moved == (pre.cur_pos != pre.text@.len())
    }

    pub fn home(&mut self) -> (moved: bool)
        requires
            old(self).wf(),
        ensures
            final(self).wf(),
            TextEditor::home_post(*old(self), *final(self), moved),
    {
        if self.cur_pos != 0 {
            self.cur_pos = 0;
            true
        } else {
            false
        }
    }

    pub fn end(&mut self) -> (moved: bool)
        requires
            old(self).wf(),
        ensures
            final(self).wf(),
            TextEditor::end_post(*old(self), *final(self), moved),
    {
        proof {
            lemma_boundary_byte(self.text@);
        }
        if self.cur_pos != self.text.len() {
            self.cur_pos = self.text.len();
            true
        } else {
            false
        }
    }

    /// What dispatching one input event to the editor does: arrow keys
    /// move the cursor, plain characters are inserted, the editing keys
    /// apply their operation, and everything else is left unconsumed.
    pub open spec fn event_post(
        pre: TextEditor,
        ev: InputEvent,
        post: TextEditor,
        r: Result<bool, ()>,
    ) -> bool {
        match ev {
            InputEvent::Key(kp) => match kp.code {
                KeyCode::Left => r matches Ok(m) && TextEditor::decr_post(pre, post, m),
                KeyCode::Right => r matches Ok(m) && TextEditor::incr_post(pre, post, m),
                KeyCode::Char(c) => if !kp.mods.ctrl {
                    r == Result::<bool, ()>::Ok(true) && TextEditor::insert_post(pre, c, post)
                } else {
                    r == Result::<bool, ()>::Ok(false) && post.same_state(pre)
                },
                KeyCode::Backspace => r matches Ok(m) && TextEditor::backspace_post(pre, post, m),
                KeyCode::Home => r matches Ok(m) && TextEditor::home_post(pre, post, m),
                KeyCode::End => r matches Ok(m) && TextEditor::end_post(pre, post, m),
                KeyCode::Delete => r matches Ok(m) && TextEditor::delete_post(pre, post, m),
                _ => r == Result::<bool, ()>::Ok(false) && post.same_state(pre),
            },
            _ => r == Result::<bool, ()>::Ok(false) && post.same_state(pre),
        }
    }

    /// Routes one input event to the editing operation it names; the
    /// returned flag says whether the event was consumed.
    pub fn event(&mut self, event: InputEvent) -> (r: Result<bool, ()>)
        requires
            old(self).wf(),
        ensures
            final(self).wf(),
            TextEditor::event_post(*old(self), event, *final(self), r),
    {
        if let InputEvent::Key(ke) = event {
            match ke.code {
                KeyCode::Left => Ok(self.decr_cursor()),
                KeyCode::Right => Ok(self.incr_cursor()),
                KeyCode::Char(c) => {
                    if !ke.mods.ctrl {
                        self.insert(c);
                        Ok(true)
                    } else {
                        Ok(false)
                    }
                },
                KeyCode::Backspace => Ok(self.backspace()),
                KeyCode::Home => Ok(self.home()),
                KeyCode::End => Ok(self.end()),
                KeyCode::Delete => Ok(self.delete()),
                _ => Ok(false),
            }
        } else {
            Ok(false)
        }
    }
}

/// For every well-formed editor, stepping to the previous boundary and
/// then to the next one returns to the cursor, and the other way round:
/// the probes are inverse wherever they are defined.
pub proof fn lemma_boundary_round_trip(e: TextEditor)
    requires
        e.wf(),
    ensures
        e.cur_pos > 0 ==> next_stop(e.text@, prev_stop(e.text@, e.cur_pos as int))
            == e.cur_pos as int,
        e.cur_pos < e.text@.len() ==> prev_stop(e.text@, next_stop(e.text@, e.cur_pos as int))
            == e.cur_pos as int,
{
    if e.cur_pos > 0 {
        lemma_next_of_prev(e.text@, e.cur_pos as int);
    }
    if e.cur_pos < e.text@.len() {
        lemma_prev_of_next(e.text@, e.cur_pos as int);
    }
}

/// Jumping to the start twice in a row reports no movement the second
/// time.
pub proof fn lemma_home_twice(a: TextEditor, b: TextEditor, c: TextEditor, m1: bool, m2: bool)
    requires
        TextEditor::home_post(a, b, m1),
        TextEditor::home_post(b, c, m2),
    ensures
        !m2,
{
}

/// Jumping to the end twice in a row reports no movement the second
/// time.
pub proof fn lemma_end_twice(a: TextEditor, b: TextEditor, c: TextEditor, m1: bool, m2: bool)
    requires
        TextEditor::end_post(a, b, m1),
        TextEditor::end_post(b, c, m2),
    ensures
        !m2,
{
}

/// Inserting any character and then pressing backspace restores the
/// original buffer and cursor offset.
pub proof fn lemma_insert_backspace(
    pre: TextEditor,
    c: char,
    mid: TextEditor,
    post: TextEditor,
    removed: bool,
)
    requires
        pre.wf(),
        TextEditor::insert_post(pre, c, mid),
        TextEditor::backspace_post(mid, post, removed),
    ensures
        removed,
        post.text@ == pre.text@,
        post.cur_pos == pre.cur_pos,
{
    let a = pre.text@.subrange(0, pre.cur_pos as int);
    let b = pre.text@.subrange(pre.cur_pos as int, pre.text@.len() as int);
    let e = encode_scalar(c as u32);
    lemma_split_valid(pre.text@, pre.cur_pos as int);
    lemma_splice_char(a, b, c);
    lemma_encode_scalar_shape(c);
    assert(mid.text@ == a + e + b);
    assert(mid.cur_pos == a.len() + e.len());
    assert(prev_stop(mid.text@, mid.cur_pos as int) == a.len() as int);
    assert(mid.text@.subrange(0, a.len() as int) =~= a);
    assert(mid.text@.subrange(mid.cur_pos as int, mid.text@.len() as int) =~= b);
    assert(post.text@ =~= pre.text@);
}

/// At the character level, insertion splices exactly the one typed
/// character between the characters before and after the cursor.
pub proof fn lemma_insert_one_char(pre: TextEditor, c: char, post: TextEditor)
    requires
        pre.wf(),
        TextEditor::insert_post(pre, c, post),
    ensures
        ({
            let before = decode_utf8(pre.text@.subrange(0, pre.cur_pos as int));
            let after = decode_utf8(
                pre.text@.subrange(pre.cur_pos as int, pre.text@.len() as int),
            );
            pre.chars() == before + after && post.chars() == before + seq![c] + after
        }),
{
    let s = pre.text@;
    let cur = pre.cur_pos as int;
    let a = s.subrange(0, cur);
    let b = s.subrange(cur, s.len() as int);
    let e = encode_scalar(c as u32);
    // the old buffer decodes around the cursor
    decode_utf8_split(s, cur);
    // the new buffer is the splice, valid with boundaries at the seams
    lemma_split_valid(s, cur);
    lemma_splice_char(a, b, c);
    let s2 = post.text@;
    decode_utf8_split(s2, a.len() as int);
    assert(s2.subrange(0, a.len() as int) =~= a);
    assert(s2.subrange(a.len() as int, s2.len() as int) =~= e + b);
    // the spliced-in bytes are the encoding of the one character
    let cs = seq![c];
    assert(cs.drop_first() =~= Seq::<char>::empty());
    assert(encode_utf8(Seq::<char>::empty()) =~= Seq::<u8>::empty());
    assert(encode_utf8(cs) =~= e);
    encode_utf8_valid_utf8(cs);
    crate::boundary::lemma_concat_boundary(e, b);
    decode_utf8_split(e + b, e.len() as int);
    assert((e + b).subrange(0, e.len() as int) =~= e);
    assert((e + b).subrange(e.len() as int, (e + b).len() as int) =~= b);
    encode_utf8_decode_utf8(cs);
    assert(decode_utf8(e) == cs);
    assert(post.chars() =~= decode_utf8(a) + seq![c] + decode_utf8(b));
}

/// At the character level, delete removes exactly the one character
/// beginning at the cursor and nothing else.
pub proof fn lemma_delete_one_char(pre: TextEditor, post: TextEditor, removed: bool)
    requires
        pre.wf(),
        removed,
        TextEditor::delete_post(pre, post, removed),
    ensures
        ({
            let cur = pre.cur_pos as int;
            let q = next_stop(pre.text@, cur);
            let before = decode_utf8(pre.text@.subrange(0, cur));
            let gone = decode_utf8(pre.text@.subrange(cur, q));
            let after = decode_utf8(pre.text@.subrange(q, pre.text@.len() as int));
            gone.len() == 1 && pre.chars() == before + gone + after && post.chars() == before
                + after
        }),
{
    let s = pre.text@;
    let cur = pre.cur_pos as int;
    lemma_one_char_between_stops(s, cur);
    let q = next_stop(s, cur);
    crate::boundary::lemma_next_stop(s, cur);
    lemma_stops_are_boundaries(s, cur);
    // the old buffer decodes around the removed character
    decode_utf8_split(s, cur);
    let tail = s.subrange(cur, s.len() as int);
    lemma_split_valid(s, cur);
    lemma_boundary_byte(s);
    lemma_boundary_byte(tail);
    assert(q == s.len() || tail[q - cur] == s[q]);
    assert(is_char_boundary(tail, q - cur));
    decode_utf8_split(tail, q - cur);
    assert(tail.subrange(0, q - cur) =~= s.subrange(cur, q));
    assert(tail.subrange(q - cur, tail.len() as int) =~= s.subrange(q, s.len() as int));
    // the new buffer decodes around the seam
    lemma_split_valid(s, q);
    crate::boundary::lemma_concat_boundary(
        s.subrange(0, cur),
        s.subrange(q, s.len() as int),
    );
    decode_utf8_split(post.text@, cur);
    assert(post.text@.subrange(0, cur) =~= s.subrange(0, cur));
    assert(post.text@.subrange(cur, post.text@.len() as int) =~= s.subrange(
        q,
        s.len() as int,
    ));
}

/// At the character level, backspace removes exactly the one character
/// ending at the cursor and nothing else.
pub proof fn lemma_backspace_one_char(pre: TextEditor, post: TextEditor, removed: bool)
    requires
        pre.wf(),
        removed,
        TextEditor::backspace_post(pre, post, removed),
    ensures
        ({
            let cur = pre.cur_pos as int;
            let p = prev_stop(pre.text@, cur);
            let before = decode_utf8(pre.text@.subrange(0, p));
            let gone = decode_utf8(pre.text@.subrange(p, cur));
            let after = decode_utf8(pre.text@.subrange(cur, pre.text@.len() as int));
            gone.len() == 1 && pre.chars() == before + gone + after && post.chars() == before
                + after
        }),
{
    let s = pre.text@;
    let cur = pre.cur_pos as int;
    // the previous stop is a boundary whose next stop is the cursor
    lemma_next_of_prev(s, cur);
    let p = prev_stop(s, cur);
    lemma_one_char_between_stops(s, p);
    assert(next_stop(s, p) == cur);
    // the old buffer decodes around the removed character
    decode_utf8_split(s, p);
    let tail = s.subrange(p, s.len() as int);
    lemma_split_valid(s, p);
    lemma_boundary_byte(s);
    lemma_boundary_byte(tail);
    assert(cur == s.len() || tail[cur - p] == s[cur]);
    assert(is_char_boundary(tail, cur - p));
    decode_utf8_split(tail, cur - p);
    assert(tail.subrange(0, cur - p) =~= s.subrange(p, cur));
    assert(tail.subrange(cur - p, tail.len() as int) =~= s.subrange(cur, s.len() as int));
    // the new buffer decodes around the seam
    lemma_split_valid(s, cur);
    crate::boundary::lemma_concat_boundary(
        s.subrange(0, p),
        s.subrange(cur, s.len() as int),
    );
    decode_utf8_split(post.text@, p);
    assert(post.text@.subrange(0, p) =~= s.subrange(0, p));
    assert(post.text@.subrange(p, post.text@.len() as int) =~= s.subrange(
        cur,
        s.len() as int,
    ));
}

} // verus!
