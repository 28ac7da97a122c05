//! Action descriptors: the label/enabled pairs shown in the command
//! bar, regenerated from component state on every draw.

use vstd::prelude::*;

verus! {

/// One available user action, for display purposes only.
pub struct Command {
    pub label: String,
    pub enable: bool,
}

/// The component that holds the command bar's current descriptors.
pub struct CommandComponent {
    pub commands: Vec<Command>,
}

impl CommandComponent {
    pub fn new() -> (r: CommandComponent)
        ensures
            r.commands@.len() == 0,
    {
        CommandComponent { commands: Vec::new() }
    }

    /// Replaces the displayed descriptors wholesale.
    pub fn update_commands(&mut self, commands: Vec<Command>)
        ensures
            final(self).commands == commands,
    {
        self.commands = commands;
    }
}

} // verus!
