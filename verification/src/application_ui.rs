//! The main screen once registration is done: the current user record
//! and the always-focused message input.

use vstd::prelude::*;

use crate::events::AppEvent;
use crate::text_input::TextInput;
use crate::userinfo::UserInfo;

verus! {

pub struct ApplicationUI {
    pub user_info: UserInfo,
    pub message_input: TextInput,
}

impl ApplicationUI {
    pub open spec fn wf(self) -> bool {
        self.message_input.wf()
    }

    pub fn new(user_info: UserInfo) -> (r: ApplicationUI)
        ensures
            r.wf(),
            r.user_info == user_info,
            r.message_input.focus,
            r.message_input.chars().len() == 0,
            r.message_input.placeholder@ == "type message..."@,
    {
        let mut message_input = TextInput::with_placeholder("type message...".to_owned());
        message_input.set_focus(true);
        ApplicationUI { user_info, message_input }
    }

    /// Replaces the displayed record snapshot wholesale.
    pub fn set_user_info(&mut self, user_info: UserInfo)
        ensures
            final(self).user_info == user_info,
            final(self).message_input == old(self).message_input,
    {
        self.user_info = user_info;
    }

    /// Hands the event to the message input; the record is untouched.
    pub fn event(&mut self, event: AppEvent) -> (r: Result<bool, ()>)
        requires
            old(self).wf(),
        ensures
            final(self).wf(),
            final(self).user_info == old(self).user_info,
            TextInput::event_post(old(self).message_input, event, final(self).message_input, r),
    {
        self.message_input.event(event)
    }
}

} // verus!
