//! The library's own model of key input: a key code plus modifier flags,
//! and the fixed table of reserved command keys.

use vstd::prelude::*;

verus! {

/// Modifier keys held together with a key press.
#[derive(Debug, Clone, Copy, PartialEq, Eq, Structural)]
pub struct Modifiers {
    pub ctrl: bool,
    pub alt: bool,
    pub shift: bool,
}

impl Modifiers {
    pub fn none() -> (r: Modifiers)
        ensures
            r == (Modifiers { ctrl: false, alt: false, shift: false }),
    {
        Modifiers { ctrl: false, alt: false, shift: false }
    }

    pub fn control() -> (r: Modifiers)
        ensures
            r == (Modifiers { ctrl: true, alt: false, shift: false }),
    {
        Modifiers { ctrl: true, alt: false, shift: false }
    }
}

/// The key codes the application distinguishes; anything else arrives as
/// `Null` and is never consumed.
#[derive(Debug, Clone, Copy, PartialEq, Eq, Structural)]
pub enum KeyCode {
    Char(char),
    Tab,
    Enter,
    Backspace,
    Delete,
    Home,
    End,
    Left,
    Right,
    Esc,
    Null,
}

/// One key press: a code and the modifiers held with it.
#[derive(Debug, Clone, Copy, PartialEq, Eq, Structural)]
pub struct KeyPress {
    pub code: KeyCode,
    pub mods: Modifiers,
}

impl KeyPress {
    pub fn new(code: KeyCode, mods: Modifiers) -> (r: KeyPress)
        ensures
            r == (KeyPress { code, mods }),
    {
        KeyPress { code, mods }
    }

    /// A plain key press without modifiers.
    pub fn from_code(code: KeyCode) -> (r: KeyPress)
        ensures
            r == (KeyPress { code, mods: Modifiers { ctrl: false, alt: false, shift: false } }),
    {
        KeyPress { code, mods: Modifiers { ctrl: false, alt: false, shift: false } }
    }
}

/// The reserved command keys, checked by the dispatcher before any event
/// reaches a leaf widget.
#[derive(Debug, Clone, Copy, PartialEq, Eq, Structural)]
pub struct CommandKeys {
    pub quit: KeyPress,
    pub help: KeyPress,
    pub focus_next: KeyPress,
    pub clear: KeyPress,
    pub next: KeyPress,
    pub save: KeyPress,
}

impl CommandKeys {
    /// The application's fixed default bindings.
    pub fn default() -> (r: CommandKeys)
        ensures
            r == CommandKeys::spec_default(),
    {
        CommandKeys {
            quit: KeyPress {
                code: KeyCode::Char('c'),
                mods: Modifiers { ctrl: true, alt: false, shift: false },
            },
            help: KeyPress {
                code: KeyCode::Char('h'),
                mods: Modifiers { ctrl: true, alt: false, shift: false },
            },
            focus_next: KeyPress {
                code: KeyCode::Tab,
                mods: Modifiers { ctrl: false, alt: false, shift: false },
            },
            clear: KeyPress {
                code: KeyCode::Char('r'),
                mods: Modifiers { ctrl: true, alt: false, shift: false },
            },
            next: KeyPress {
                code: KeyCode::Char('n'),
                mods: Modifiers { ctrl: true, alt: false, shift: false },
            },
            save: KeyPress {
                code: KeyCode::Enter,
                mods: Modifiers { ctrl: false, alt: false, shift: false },
            },
        }
    }

    /// The default bindings, as a specification value.
    pub open spec fn spec_default() -> CommandKeys {
        CommandKeys {
            quit: KeyPress {
                code: KeyCode::Char('c'),
                mods: Modifiers { ctrl: true, alt: false, shift: false },
            },
            help: KeyPress {
                code: KeyCode::Char('h'),
                mods: Modifiers { ctrl: true, alt: false, shift: false },
            },
            focus_next: KeyPress {
                code: KeyCode::Tab,
                mods: Modifiers { ctrl: false, alt: false, shift: false },
            },
            clear: KeyPress {
                code: KeyCode::Char('r'),
                mods: Modifiers { ctrl: true, alt: false, shift: false },
            },
            next: KeyPress {
                code: KeyCode::Char('n'),
                mods: Modifiers { ctrl: true, alt: false, shift: false },
            },
            save: KeyPress {
                code: KeyCode::Enter,
                mods: Modifiers { ctrl: false, alt: false, shift: false },
            },
        }
    }
}

} // verus!
