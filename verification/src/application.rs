//! The root dispatcher: it intercepts the global quit key, routes every
//! other event to exactly one active child (the registration overlay
//! while it exists, the main screen afterwards), and turns the "record
//! saved" notification into a refresh request.
//!
//! Persistence itself happens outside: a [`DispatchOutcome::SaveRequest`]
//! asks the caller to save the form's fields, and a
//! [`DispatchOutcome::Refresh`] asks it to reload the record and hand it
//! back through [`Application::set_user_info`].

use vstd::prelude::*;

use crate::application_ui::ApplicationUI;
use crate::command::{Command, CommandComponent};
use crate::events::{AppEvent, InputEvent, Notification};
use crate::keys::CommandKeys;
use crate::text_input::TextInput;
use crate::user_registration::{RegOutcome, UserRegistration};
use crate::userinfo::UserInfo;

verus! {

/// What the dispatcher answers for one event.
#[derive(Debug, Clone, Copy, PartialEq, Eq, Structural)]
pub enum DispatchOutcome {
    /// Nothing consumed the event; no redraw is needed.
    NotHandled,
    /// The event was consumed.
    Handled,
    /// The registration form asks the caller to persist its fields.
    SaveRequest,
    /// The saved record should be reloaded and handed back.
    Refresh,
}

/// The application's top-level state.
pub struct Application {
    pub ui: ApplicationUI,
    pub command: CommandComponent,
    pub user_registration: Option<UserRegistration>,
    pub command_keys: CommandKeys,
    pub quit: bool,
}

impl Application {
    /// The screen is well-formed, and while the registration overlay
    /// exists it is well-formed and active.
    pub open spec fn wf(self) -> bool {
        &&& self.ui.wf()
        &&& match self.user_registration {
            Some(reg) => reg.wf() && reg.focus,
            None => true,
        }
    }

    /// Starts in the overlay state exactly when no record has been
    /// persisted yet.
    pub fn new(user_info: Option<UserInfo>) -> (r: Application)
        ensures
            r.wf(),
            !r.quit,
            r.command_keys == CommandKeys::spec_default(),
            r.user_registration is Some <==> user_info is None,
            user_info matches Some(info) ==> r.ui.user_info == info,
            r.command.commands@.len() == 0,
    {
        let command_keys = CommandKeys::default();
        let (user_registration, info) = match user_info {
            None => (Some(UserRegistration::new()), UserInfo::new()),
            Some(info) => (None, info),
        };
        Application {
            ui: ApplicationUI::new(info),
            command: CommandComponent::new(),
            user_registration,
            command_keys,
            quit: false,
        }
    }

    pub fn is_quit(&self) -> (r: bool)
        ensures
            r == self.quit,
    {
        self.quit
    }

    /// The actions available in every state.
    pub fn get_common_commands(&self) -> (r: Vec<Command>)
        ensures
            r@.len() == 1,
            r@[0].label@ == "Quit [^c]"@ && r@[0].enable,
    {
        let mut commands: Vec<Command> = Vec::new();
        commands.push(Command { label: "Quit [^c]".to_owned(), enable: true });
        commands
    }

    /// Drops the registration overlay; the main screen becomes the
    /// active child.
    pub fn disable_user_registration(&mut self)
        ensures
            final(self).user_registration is None,
            final(self).ui == old(self).ui,
            final(self).command == old(self).command,
            final(self).command_keys == old(self).command_keys,
            final(self).quit == old(self).quit,
    {
        self.user_registration = None;
    }

    /// Replaces the record snapshot shown by the main screen.
    pub fn set_user_info(&mut self, user_info: UserInfo)
        ensures
            final(self).ui.user_info == user_info,
            final(self).ui.message_input == old(self).ui.message_input,
            final(self).user_registration == old(self).user_registration,
            final(self).command == old(self).command,
            final(self).command_keys == old(self).command_keys,
            final(self).quit == old(self).quit,
    {
        self.ui.set_user_info(user_info);
    }

    /// What one event does at the root.  A "record saved" notification
    /// closes the overlay and asks for a refresh.  The quit binding is
    /// checked before anything is delegated; every other key goes
    /// unchanged to the single active child, whose verdict is passed
    /// through.  A resize is consumed so the screen is redrawn.
    pub open spec fn event_post(
        pre: Application,
        ev: AppEvent,
        post: Application,
        r: DispatchOutcome,
    ) -> bool {
        match ev {
            AppEvent::NotificationEvent(n) => match n {
                Notification::UserInfoSaved => {
                    &&& r == DispatchOutcome::Refresh
                    &&& post.user_registration is None
                    &&& post.ui == pre.ui
                    &&& post.quit == pre.quit
                    &&& post.command_keys == pre.command_keys
                },
                _ => r == DispatchOutcome::NotHandled && Application::unchanged(pre, post),
            },
            AppEvent::InputEvent(ie) => match ie {
                InputEvent::Key(ke) => if ke == pre.command_keys.quit {
                    &&& r == DispatchOutcome::Handled
                    &&& post.quit
                    &&& post.ui == pre.ui
                    &&& post.user_registration == pre.user_registration
                    &&& post.command_keys == pre.command_keys
                } else {
                    &&& post.quit == pre.quit
                    &&& post.command_keys == pre.command_keys
                    &&& match pre.user_registration {
                        Some(reg) => {
                            &&& post.user_registration matches Some(reg2)
                                && UserRegistration::event_post(
                                reg,
                                pre.command_keys,
                                ev,
                                reg2,
                                (if r == DispatchOutcome::SaveRequest {
                                    RegOutcome::SaveRequest
                                } else if r == DispatchOutcome::Handled {
                                    RegOutcome::Handled
                                } else {
                                    RegOutcome::NotHandled
                                }),
                            )
                            &&& (r == DispatchOutcome::Handled || r == DispatchOutcome::NotHandled
                                || r == DispatchOutcome::SaveRequest)
                            &&& post.ui == pre.ui
                        },
                        None => {
                            &&& (r == DispatchOutcome::Handled || r == DispatchOutcome::NotHandled)
                            &&& post.ui.user_info == pre.ui.user_info
                            &&& TextInput::event_post(
                                pre.ui.message_input,
                                ev,
                                post.ui.message_input,
                                Result::Ok(r == DispatchOutcome::Handled),
                            )
                            &&& post.user_registration is None
                        },
                    }
                },
                InputEvent::Resize(_, _) => r == DispatchOutcome::Handled
                    && Application::unchanged(pre, post),
                _ => r == DispatchOutcome::NotHandled && Application::unchanged(pre, post),
            },
            AppEvent::Empty => r == DispatchOutcome::NotHandled && Application::unchanged(
                pre,
                post,
            ),
        }
    }

    /// True when nothing the dispatcher owns has changed.
    pub open spec fn unchanged(pre: Application, post: Application) -> bool {
        &&& post.ui == pre.ui
        &&& post.user_registration == pre.user_registration
        &&& post.command_keys == pre.command_keys
        &&& post.quit == pre.quit
    }

    /// Dispatches one event.
    pub fn event(&mut self, event: AppEvent) -> (r: DispatchOutcome)
        requires
            old(self).wf(),
        ensures
            final(self).wf(),
            Application::event_post(*old(self), event, *final(self), r),
    {
        match event {
            AppEvent::NotificationEvent(n) => match n {
                Notification::UserInfoSaved => {
                    self.user_registration = None;
                    DispatchOutcome::Refresh
                },
                _ => DispatchOutcome::NotHandled,
            },
            AppEvent::InputEvent(ie) => match ie {
                InputEvent::Key(ke) => {
                    if ke == self.command_keys.quit {
                        self.quit = true;
                        DispatchOutcome::Handled
                    } else {
                        let keys = self.command_keys;
                        match &mut self.user_registration {
                            Some(reg) => match reg.event(&keys, event) {
                                RegOutcome::NotHandled => DispatchOutcome::NotHandled,
                                RegOutcome::Handled => DispatchOutcome::Handled,
                                RegOutcome::SaveRequest => DispatchOutcome::SaveRequest,
                            },
                            None => match self.ui.event(event) {
                                Ok(true) => DispatchOutcome::Handled,
                                _ => DispatchOutcome::NotHandled,
                            },
                        }
                    }
                },
                InputEvent::Resize(_, _) => DispatchOutcome::Handled,
                _ => DispatchOutcome::NotHandled,
            },
            AppEvent::Empty => DispatchOutcome::NotHandled,
        }
    }

    /// The command bar contents for the current state: the common
    /// actions followed by the active child's.
    pub fn current_commands(&self) -> (r: Vec<Command>)
        requires
            self.wf(),
        ensures
            r@.len() == (if self.user_registration is Some { 5int } else { 1int }),
            r@[0].label@ == "Quit [^c]"@ && r@[0].enable,
            self.user_registration matches Some(reg) ==> {
                &&& r@[1].label@ == "Focus Next [\u{21E5}]"@ && r@[1].enable
                &&& r@[2].label@ == "Clear [^r]"@ && r@[2].enable
                &&& r@[3].label@ == "Next [^n]"@ && r@[3].enable == reg.userid.focus
                &&& r@[4].label@ == "Save [\u{23CE}]"@ && r@[4].enable == (reg.validation()
                    is None)
            },
    {
        let mut commands = self.get_common_commands();
        match &self.user_registration {
            Some(reg) => {
                let mut more = reg.get_commands();
                commands.append(&mut more);
            },
            None => {},
        }
        commands
    }
}

/// The two macro-states have no reverse transition: once the
/// registration overlay is gone, no event brings it back.
pub proof fn lemma_no_reverse_transition(
    pre: Application,
    ev: AppEvent,
    post: Application,
    r: DispatchOutcome,
)
    requires
        Application::event_post(pre, ev, post, r),
        pre.user_registration is None,
    ensures
        post.user_registration is None,
{
}

/// The overlay leaves only on a successful save notification: no key
/// press closes it.
pub proof fn lemma_overlay_closes_only_on_saved(
    pre: Application,
    ev: AppEvent,
    post: Application,
    r: DispatchOutcome,
)
    requires
        Application::event_post(pre, ev, post, r),
        pre.user_registration is Some,
        post.user_registration is None,
    ensures
        ev == AppEvent::NotificationEvent(Notification::UserInfoSaved),
        r == DispatchOutcome::Refresh,
{
}

/// A save request surfaces at the root only while the overlay exists
/// and its validation passes.
pub proof fn lemma_save_request_needs_valid_overlay(
    pre: Application,
    ev: AppEvent,
    post: Application,
    r: DispatchOutcome,
)
    requires
        Application::event_post(pre, ev, post, r),
        r == DispatchOutcome::SaveRequest,
    ensures
        pre.user_registration matches Some(reg) && reg.validation() is None,
{
    match ev {
        AppEvent::InputEvent(ie) => match ie {
            InputEvent::Key(ke) => {
                if ke == pre.command_keys.quit {
                } else {
                    match pre.user_registration {
                        Some(reg) => {
                            let reg2 = post.user_registration->Some_0;
                            crate::user_registration::lemma_save_gated_by_validation(
                                reg,
                                pre.command_keys,
                                ev,
                                reg2,
                                RegOutcome::SaveRequest,
                            );
                        },
                        None => {},
                    }
                }
            },
            _ => {},
        },
        _ => {},
    }
}

} // verus!
