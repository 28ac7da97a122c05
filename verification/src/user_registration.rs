//! The modal registration form: two focusable fields in a focus chain,
//! reserved-key policy, derived validation, and the save request.
//!
//! The form never performs persistence itself: when the commit key
//! arrives and validation passes it answers [`RegOutcome::SaveRequest`],
//! and the caller carries out the save and feeds the outcome back
//! through the notification pipeline.

use vstd::prelude::*;
use vstd::utf8::encode_utf8;

use crate::command::Command;
use crate::events::{AppEvent, InputEvent};
use crate::keys::CommandKeys;
use crate::text_input::TextInput;
use crate::validation::{is_blank_text, issue_message, validate, validation_of, FieldIssue};

verus! {

/// What the form answers for one event.
#[derive(Debug, Clone, Copy, PartialEq, Eq, Structural)]
pub enum RegOutcome {
    /// The event matched nothing the form consumes.
    NotHandled,
    /// The event was consumed; no side effect is requested.
    Handled,
    /// The commit key arrived while the form was valid: the caller
    /// should persist the two field texts.
    SaveRequest,
}

/// The registration form: a name field and a userid field, exactly one
/// of them focused.
pub struct UserRegistration {
    pub name: TextInput,
    pub userid: TextInput,
    pub focus: bool,
}

impl UserRegistration {
    /// Both fields are well-formed and exactly one of them holds focus.
    pub open spec fn wf(self) -> bool {
        &&& self.name.wf()
        &&& self.userid.wf()
        &&& self.name.focus != self.userid.focus
    }

    /// The form's derived validation state, recomputed from the current
    /// field texts; it is never stored.
    pub open spec fn validation(self) -> Option<FieldIssue> {
        validation_of(self.name.chars(), self.userid.chars())
    }

    /// True when two forms hold the same fields and focus flags.
    pub open spec fn same_state(self, other: UserRegistration) -> bool {
        &&& self.name.same_state(other.name)
        &&& self.userid.same_state(other.userid)
        &&& self.focus == other.focus
    }

    pub fn new() -> (r: UserRegistration)
        ensures
            r.wf(),
            r.focus,
            r.name.focus,
            !r.userid.focus,
            r.name.chars().len() == 0,
            r.name.editor.cur_pos == 0,
            r.userid.chars().len() > 0,
            !is_blank_text(r.userid.chars()),
    {
        Self::edit(String::new())
    }

    /// Builds the form with the name field pre-seeded and focused, and
    /// a freshly suggested userid.
    pub fn edit(text: String) -> (r: UserRegistration)
        ensures
            r.wf(),
            r.focus,
            r.name.focus,
            !r.userid.focus,
            r.name.editor.text@ == encode_utf8(text@),
            r.name.chars() == text@,
            r.name.editor.cur_pos == 0,
            r.name.placeholder@ == "Enter name..."@,
            r.userid.placeholder@ == "Enter userid..."@,
            r.userid.chars().len() > 0,
            !is_blank_text(r.userid.chars()),
            r.userid.editor.cur_pos == 0,
    {
        proof {
            vstd::utf8::encode_utf8_decode_utf8(text@);
        }
        let mut name = TextInput::with(text, "Enter name...".to_owned());
        name.set_focus(true);
        let suggested = generate_user_id();
        proof {
            vstd::utf8::encode_utf8_decode_utf8(suggested@);
        }
        let userid = TextInput::with(suggested, "Enter userid...".to_owned());
        UserRegistration { name, userid, focus: true }
    }

    /// What advancing the focus chain does: the flags rotate to the
    /// other field and everything else stays put.
    pub open spec fn focus_next_post(pre: UserRegistration, post: UserRegistration) -> bool {
        &&& post.name.editor.same_state(pre.name.editor)
        &&& post.userid.editor.same_state(pre.userid.editor)
        &&& post.name.placeholder@ == pre.name.placeholder@
        &&& post.userid.placeholder@ == pre.userid.placeholder@
        &&& post.name.focus == !pre.name.focus
        &&& post.userid.focus == pre.name.focus
        &&& post.focus == pre.focus
    }

    /// Moves focus to the other field, wrapping around the chain.
    pub fn focus_next(&mut self)
        requires
            old(self).wf(),
        ensures
            final(self).wf(),
            UserRegistration::focus_next_post(*old(self), *final(self)),
    {
        if self.name.is_focus() {
            self.name.set_focus(false);
            self.userid.set_focus(true);
        } else {
            self.name.set_focus(true);
            self.userid.set_focus(false);
        }
    }

    /// What regenerating the suggested userid does: the name field is
    /// untouched and the userid field holds some fresh non-blank text.
    pub open spec fn regenerate_post(pre: UserRegistration, post: UserRegistration) -> bool {
        &&& post.name.same_state(pre.name)
        &&& post.userid.chars().len() > 0
        &&& !is_blank_text(post.userid.chars())
        &&& post.userid.editor.cur_pos == 0
        &&& post.userid.placeholder@ == pre.userid.placeholder@
        &&& post.userid.focus == pre.userid.focus
        &&& post.focus == pre.focus
    }

    /// Replaces the userid field's text with a fresh suggestion.
    pub fn set_next_user_id(&mut self)
        requires
            old(self).wf(),
        ensures
            final(self).wf(),
            UserRegistration::regenerate_post(*old(self), *final(self)),
    {
        self.userid.clear();
        let suggested = generate_user_id();
        proof {
            vstd::utf8::encode_utf8_decode_utf8(suggested@);
        }
        self.userid.set_text(suggested);
    }

    /// Recomputes validation from the current field texts.
    pub fn validation_error(&self) -> (r: Option<FieldIssue>)
        requires
            self.wf(),
        ensures
            r == self.validation(),
    {
        let name_text = self.name.get_text();
        let userid_text = self.userid.get_text();
        validate(name_text.as_str(), userid_text.as_str())
    }

    /// The message shown under the form, naming the first missing
    /// field, or nothing when the form is valid.
    pub fn error_message(&self) -> (r: Option<String>)
        requires
            self.wf(),
        ensures
            r is Some <==> self.validation() is Some,
            self.validation() == Some(FieldIssue::MissingName) ==> (r matches Some(m) && m@
                == "Please enter name"@),
            self.validation() == Some(FieldIssue::MissingUserId) ==> (r matches Some(m) && m@
                == "Please enter userid"@),
    {
        match self.validation_error() {
            Some(issue) => Some(issue_message(issue)),
            None => None,
        }
    }

    pub fn set_focus(&mut self, focus: bool)
        ensures
            final(self).name == old(self).name,
            final(self).userid == old(self).userid,
            final(self).focus == focus,
    {
        self.focus = focus;
    }

    pub fn is_focus(&self) -> (r: bool)
        ensures
            r == self.focus,
    {
        self.focus
    }

    /// What one event does to the form.  Reserved keys are checked in
    /// order before anything reaches the focused field: focus advance,
    /// clear, regenerate, then commit; the commit key is consumed even
    /// when validation fails, but requests a save only when it passes.
    /// Anything else goes to the focused field alone, and its verdict
    /// is passed through.
    pub open spec fn event_post(
        pre: UserRegistration,
        keys: CommandKeys,
        ev: AppEvent,
        post: UserRegistration,
        r: RegOutcome,
    ) -> bool {
        if !pre.focus {
            r == RegOutcome::NotHandled && post.same_state(pre)
        } else {
            match ev {
                AppEvent::InputEvent(ie) => match ie {
                    InputEvent::Key(ke) => if ke == keys.focus_next {
                        r == RegOutcome::Handled && UserRegistration::focus_next_post(pre, post)
                    } else if ke == keys.clear {
                        r == RegOutcome::Handled && {
                            &&& post.focus == pre.focus
                            &&& if pre.name.focus {
                                &&& post.userid.same_state(pre.userid)
                                &&& post.name.chars().len() == 0
                                &&& post.name.editor.cur_pos == 0
                                &&& post.name.placeholder@ == pre.name.placeholder@
                                &&& post.name.focus == pre.name.focus
                            } else {
                                &&& post.name.same_state(pre.name)
                                &&& post.userid.chars().len() == 0
                                &&& post.userid.editor.cur_pos == 0
                                &&& post.userid.placeholder@ == pre.userid.placeholder@
                                &&& post.userid.focus == pre.userid.focus
                            }
                        }
                    } else if ke == keys.next {
                        r == RegOutcome::Handled && UserRegistration::regenerate_post(pre, post)
                    } else if ke == keys.save {
                        post.same_state(pre) && r == (if pre.validation() is None {
                            RegOutcome::SaveRequest
                        } else {
                            RegOutcome::Handled
                        })
                    } else {
                        &&& post.focus == pre.focus
                        &&& (r == RegOutcome::Handled || r == RegOutcome::NotHandled)
                        &&& if pre.name.focus {
                            &&& TextInput::event_post(
                                pre.name,
                                ev,
                                post.name,
                                Result::Ok(r == RegOutcome::Handled),
                            )
                            &&& post.userid.same_state(pre.userid)
                        } else {
                            &&& TextInput::event_post(
                                pre.userid,
                                ev,
                                post.userid,
                                Result::Ok(r == RegOutcome::Handled),
                            )
                            &&& post.name.same_state(pre.name)
                        }
                    },
                    _ => r == RegOutcome::NotHandled && post.same_state(pre),
                },
                _ => r == RegOutcome::NotHandled && post.same_state(pre),
            }
        }
    }

    /// Dispatches one event to the form.
    pub fn event(&mut self, keys: &CommandKeys, event: AppEvent) -> (r: RegOutcome)
        requires
            old(self).wf(),
        ensures
            final(self).wf(),
            UserRegistration::event_post(*old(self), *keys, event, *final(self), r),
    {
        if !self.focus {
            return RegOutcome::NotHandled;
        }
        if let AppEvent::InputEvent(ie) = event {
            if let InputEvent::Key(ke) = ie {
                if ke == keys.focus_next {
                    self.focus_next();
                    RegOutcome::Handled
                } else if ke == keys.clear {
                    if self.name.is_focus() {
                        self.name.clear();
                    } else {
                        self.userid.clear();
                    }
                    RegOutcome::Handled
                } else if ke == keys.next {
                    self.set_next_user_id();
                    RegOutcome::Handled
                } else if ke == keys.save {
                    if self.validation_error().is_none() {
                        RegOutcome::SaveRequest
                    } else {
                        RegOutcome::Handled
                    }
                } else {
                    let consumed = if self.name.is_focus() {
                        self.name.event(event)
                    } else {
                        self.userid.event(event)
                    };
                    match consumed {
                        Ok(true) => RegOutcome::Handled,
                        _ => RegOutcome::NotHandled,
                    }
                }
            } else {
                RegOutcome::NotHandled
            }
        } else {
            RegOutcome::NotHandled
        }
    }

    /// The actions the form offers for display: focus advance and clear
    /// are always available, regenerate only while the userid field is
    /// focused, and save only while validation passes.
    pub fn get_commands(&self) -> (r: Vec<Command>)
        requires
            self.wf(),
        ensures
            r@.len() == 4,
            r@[0].label@ == "Focus Next [\u{21E5}]"@ && r@[0].enable,
            r@[1].label@ == "Clear [^r]"@ && r@[1].enable,
            r@[2].label@ == "Next [^n]"@ && r@[2].enable == self.userid.focus,
            r@[3].label@ == "Save [\u{23CE}]"@ && r@[3].enable == (self.validation() is None),
    {
        let mut commands: Vec<Command> = Vec::new();
        commands.push(Command { label: "Focus Next [\u{21E5}]".to_owned(), enable: true });
        commands.push(Command { label: "Clear [^r]".to_owned(), enable: true });
        commands.push(
            Command { label: "Next [^n]".to_owned(), enable: self.userid.is_focus() },
        );
        commands.push(
            Command {
                label: "Save [\u{23CE}]".to_owned(),
                enable: self.validation_error().is_none(),
            },
        );
        commands
    }
}

/// Relies on `names::Generator` with `Name::Numbered` naming: its
/// `next` always yields an adjective-noun-number word drawn from the
/// crate's embedded word lists, which are non-empty and free of
/// whitespace.
#[verifier::external_body]
fn generate_user_id() -> (r: String)
    ensures
        r@.len() > 0,
        !is_blank_text(r@),
{
    let mut generator = names::Generator::with_naming(names::Name::Numbered);
    match generator.next() {
        Some(id) => id,
        None => "user".to_owned(),
    }
}

/// A save is requested only while validation passes, and requesting it
/// changes nothing in the form: the commit key on an invalid form is
/// consumed without effect.
pub proof fn lemma_save_gated_by_validation(
    pre: UserRegistration,
    keys: CommandKeys,
    ev: AppEvent,
    post: UserRegistration,
    r: RegOutcome,
)
    requires
        UserRegistration::event_post(pre, keys, ev, post, r),
        r == RegOutcome::SaveRequest,
    ensures
        pre.validation() is None,
        post.same_state(pre),
{
}

/// Exactly one field of a well-formed chain reports focus, and
/// advancing the chain rotates which one while keeping it so.
pub proof fn lemma_focus_exclusive_rotation(pre: UserRegistration, post: UserRegistration)
    requires
        pre.wf(),
        UserRegistration::focus_next_post(pre, post),
    ensures
        pre.name.focus != pre.userid.focus,
        post.wf(),
        post.name.focus != post.userid.focus,
        post.name.focus == !pre.name.focus,
        post.userid.focus == !pre.userid.focus,
{
}

} // verus!
