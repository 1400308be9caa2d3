//! The command-bar mode flag: a trivial UI-mode component consumed only to
//! pick the display text of the mode indicator.

use vstd::prelude::*;

verus! {

/// Whether the application is in command mode (`true`) or normal mode
/// (`false`).
pub struct CommandBar {
    active: bool,
}

impl CommandBar {
    /// The mode the bar reports, for use in contracts.
    pub closed spec fn is_active(self) -> bool {
        self.active
    }

    /// A fresh command bar starts out in normal mode.
    pub fn new() -> (r: CommandBar)
        ensures
            !r.is_active(),
    {
        CommandBar { active: false }
    }

    /// Reports whether command mode is active.
    pub fn active(&self) -> (r: bool)
        ensures
            r == self.is_active(),
    {
        self.active
    }
}

} // verus!
