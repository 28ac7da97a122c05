//! A focusable single-line input field: a text editor plus a
//! placeholder and a focus flag.

use vstd::prelude::*;
use vstd::utf8::{decode_utf8, is_char_boundary, valid_utf8};

use crate::boundary::lemma_split_valid;
use crate::events::AppEvent;
use crate::text_editor::TextEditor;

verus! {

/// Relies on `core::str::from_utf8` and `str::to_owned`: a valid UTF-8
/// byte sequence decodes to exactly the character sequence it encodes.
#[verifier::external_body]
fn bytes_to_string(v: &[u8]) -> (r: String)
    requires
        valid_utf8(v@),
    ensures
        r@ == decode_utf8(v@),
{
    match core::str::from_utf8(v) {
        Ok(s) => s.to_owned(),
        Err(_) => String::new(),
    }
}

/// An input field that consumes key events only while it holds focus.
pub struct TextInput {
    pub editor: TextEditor,
    pub placeholder: String,
    pub focus: bool,
}

impl TextInput {
    /// The field is well-formed when its editor is.
    pub open spec fn wf(self) -> bool {
        self.editor.wf()
    }

    /// The characters currently held by the field.
    pub open spec fn chars(self) -> Seq<char> {
        self.editor.chars()
    }

    /// True when two fields hold the same text, cursor, placeholder and
    /// focus flag.
    pub open spec fn same_state(self, other: TextInput) -> bool {
        &&& self.editor.same_state(other.editor)
        &&& self.placeholder@ == other.placeholder@
        &&& self.focus == other.focus
    }

    pub fn new() -> (r: TextInput)
        ensures
            r.wf(),
            r.editor.text@.len() == 0,
            r.editor.cur_pos == 0,
            r.placeholder@ == TextInput::spec_default_placeholder(),
            !r.focus,
    {
        Self::with_placeholder(Self::default_placeholder())
    }

    pub fn with_placeholder(placeholder: String) -> (r: TextInput)
        ensures
            r.wf(),
            r.editor.text@.len() == 0,
            r.editor.cur_pos == 0,
            r.placeholder@ == placeholder@,
            !r.focus,
    {
        TextInput { editor: TextEditor::new(), placeholder, focus: false }
    }

    pub fn with_text(text: String) -> (r: TextInput)
        ensures
            r.wf(),
            r.editor.text@ == vstd::utf8::encode_utf8(text@),
            r.chars() == text@,
            r.editor.cur_pos == 0,
            r.placeholder@ == TextInput::spec_default_placeholder(),
            !r.focus,
    {
        TextInput {
            editor: TextEditor::from(text),
            placeholder: Self::default_placeholder(),
            focus: false,
        }
    }

    pub fn with(text: String, placeholder: String) -> (r: TextInput)
        ensures
            r.wf(),
            r.editor.text@ == vstd::utf8::encode_utf8(text@),
            r.chars() == text@,
            r.editor.cur_pos == 0,
            r.placeholder@ == placeholder@,
            !r.focus,
    {
        TextInput { editor: TextEditor::from(text), placeholder, focus: false }
    }

    /// The placeholder used when none is given.
    pub open spec fn spec_default_placeholder() -> Seq<char> {
        "type something..."@
    }

    pub fn default_placeholder() -> (r: String)
        ensures
            r@ == TextInput::spec_default_placeholder(),
    {
        "type something...".to_owned()
    }

    /// The field's text, decoded back to a string.
    pub fn get_text(&self) -> (r: String)
        requires
            self.wf(),
        ensures
            r@ == self.chars(),
            vstd::utf8::encode_utf8(r@) == self.editor.text@,
    {
        proof {
            vstd::utf8::decode_utf8_encode_utf8(self.editor.text@);
        }
        bytes_to_string(self.editor.text.as_slice())
    }

    /// Replaces the field's text wholesale; the cursor returns to the
    /// start.
    pub fn set_text(&mut self, text: String)
        ensures
            final(self).wf(),
            final(self).editor.text@ == vstd::utf8::encode_utf8(text@),
            final(self).chars() == text@,
            final(self).editor.cur_pos == 0,
            final(self).placeholder@ == old(self).placeholder@,
            final(self).focus == old(self).focus,
    {
        self.editor = TextEditor::from(text);
    }

    /// Empties the field and returns the cursor to the start.
    pub fn clear(&mut self)
        ensures
            final(self).wf(),
            final(self).editor.text@.len() == 0,
            final(self).editor.cur_pos == 0,
            final(self).placeholder@ == old(self).placeholder@,
            final(self).focus == old(self).focus,
    {
        self.editor = TextEditor::new();
    }

    pub fn set_focus(&mut self, focus: bool)
        ensures
            final(self).editor.same_state(old(self).editor),
            final(self).editor.wf() == old(self).editor.wf(),
            final(self).placeholder@ == old(self).placeholder@,
            final(self).focus == focus,
    {
        self.focus = focus;
    }

    pub fn is_focus(&self) -> (r: bool)
        ensures
            r == self.focus,
    {
        self.focus
    }

    /// What dispatching one event to the field does: an unfocused field
    /// consumes nothing; a focused one hands key input to its editor.
    pub open spec fn event_post(
        pre: TextInput,
        ev: AppEvent,
        post: TextInput,
        r: Result<bool, ()>,
    ) -> bool {
        &&& post.placeholder@ == pre.placeholder@
        &&& post.focus == pre.focus
        &&& if !pre.focus {
            r == Result::<bool, ()>::Ok(false) && post.editor.same_state(pre.editor)
        } else {
            match ev {
                AppEvent::InputEvent(ie) => TextEditor::event_post(pre.editor, ie, post.editor, r),
                _ => r == Result::<bool, ()>::Ok(false) && post.editor.same_state(pre.editor),
            }
        }
    }

    /// Routes one event to the editor while the field has focus.
    pub fn event(&mut self, event: AppEvent) -> (r: Result<bool, ()>)
        requires
            old(self).wf(),
        ensures
            final(self).wf(),
            TextInput::event_post(*old(self), event, *final(self), r),
    {
        if !self.focus {
            return Ok(false);
        }
        match event {
            AppEvent::InputEvent(ie) => self.editor.event(ie),
            _ => Ok(false),
        }
    }

    /// Splits the text for drawing: the part before the cursor, the
    /// character cell under the cursor (a space when the cursor is at
    /// the end), and the part after it.  Empty text yields nothing, so
    /// the caller shows the placeholder instead.
    pub fn display_parts(&self) -> (r: Option<(String, String, String)>)
        requires
            self.wf(),
        ensures
            ({
                let s = self.editor.text@;
                let cur = self.editor.cur_pos as int;
                if s.len() == 0 {
                    r is None
                } else {
                    r matches Some(parts) && {
                        let q = if cur < s.len() {
                            crate::boundary::next_stop(s, cur)
                        } else {
                            cur
                        };
                        &&& parts.0@ == decode_utf8(s.subrange(0, cur))
                        &&& parts.1@ == (if cur < s.len() {
                            decode_utf8(s.subrange(cur, q))
                        } else {
                            " "@
                        })
                        &&& parts.2@ == decode_utf8(s.subrange(q, s.len() as int))
                    }
                }
            }),
    {
        let ghost s = self.editor.text@;
        if self.editor.text.len() == 0 {
            return None;
        }
        let cur = self.editor.cur_pos;
        proof {
            lemma_split_valid(s, cur as int);
        }
        let before = bytes_to_string(
            vstd::slice::slice_subrange(self.editor.text.as_slice(), 0, cur),
        );
        match self.editor.next_char_pos() {
            Some(q) => {
                proof {
                    let tail = s.subrange(cur as int, s.len() as int);
                    crate::boundary::lemma_boundary_byte(s);
                    crate::boundary::lemma_boundary_byte(tail);
                    assert(is_char_boundary(tail, q - cur));
                    lemma_split_valid(tail, q - cur);
                    assert(s.subrange(cur as int, q as int) =~= tail.subrange(0, q - cur));
                    assert(s.subrange(q as int, s.len() as int) =~= tail.subrange(
                        q - cur,
                        tail.len() as int,
                    ));
                }
                let under = bytes_to_string(
                    vstd::slice::slice_subrange(self.editor.text.as_slice(), cur, q),
                );
                let after = bytes_to_string(
                    vstd::slice::slice_subrange(
                        self.editor.text.as_slice(),
                        q,
                        self.editor.text.len(),
                    ),
                );
                Some((before, under, after))
            },
            None => {
                let ghost tail = s.subrange(s.len() as int, s.len() as int);
                proof {
                    assert(tail =~= Seq::<u8>::empty());
                    assert(decode_utf8(tail) =~= Seq::<char>::empty());
                }
                let after = bytes_to_string(
                    vstd::slice::slice_subrange(
                        self.editor.text.as_slice(),
                        self.editor.text.len(),
                        self.editor.text.len(),
                    ),
                );
                Some((before, " ".to_owned(), after))
            },
        }
    }
}

} // verus!
