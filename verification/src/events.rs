//! Normalized events flowing through the application's single event
//! stream, and the small policy rules of the event pipeline.

use vstd::prelude::*;

use crate::keys::KeyPress;

verus! {

/// An application-level notification produced by a side-effecting
/// operation and consumed through the ordinary event pipeline.
#[derive(Debug, Clone, Copy, PartialEq, Eq, Structural)]
pub enum Notification {
    UserInfoSaved,
    UserJoined,
}

/// A raw terminal occurrence, already decoded into the library's own
/// key model.
#[derive(Debug, Clone, Copy, PartialEq, Eq, Structural)]
pub enum InputEvent {
    Key(KeyPress),
    Resize(u16, u16),
    Other,
}

/// One normalized occurrence handed to the main loop: either raw input,
/// an internal notification, or nothing at all.
#[derive(Debug, Clone, Copy, PartialEq, Eq, Structural)]
pub enum AppEvent {
    InputEvent(InputEvent),
    NotificationEvent(Notification),
    Empty,
}

/// The multiplexer's disconnection rule: a value received from a channel
/// is passed through unchanged, and a closed channel yields `Empty`
/// rather than an error.
pub fn event_or_empty(received: Option<AppEvent>) -> (r: AppEvent)
    ensures
        received matches Some(e) ==> r == e,
        received is None ==> r == AppEvent::Empty,
{
    match received {
        Some(e) => e,
        None => AppEvent::Empty,
    }
}

/// The input collector's per-iteration wait: whatever remains of the
/// fixed tick budget, or no wait at all once the budget has elapsed.
pub fn poll_timeout_ms(tick_ms: u64, elapsed_ms: u64) -> (r: u64)
    ensures
        r == if elapsed_ms <= tick_ms { (tick_ms - elapsed_ms) as int } else { 0int },
{
    if elapsed_ms <= tick_ms {
        tick_ms - elapsed_ms
    } else {
        0
    }
}

} // verus!
