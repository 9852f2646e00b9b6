//! A scope guard for terminal raw mode.

use vstd::prelude::*;

use crate::console::{Command, Console, ItemModel};

verus! {

/// A guard that suspends the terminal's raw input mode while it is held.
///
/// Creating the guard issues the command that leaves raw mode; releasing it
/// issues the command that re-enters raw mode. The engine constructs one
/// around each payload write when it was configured to assume raw mode, and
/// releases it on every path — in particular before a render failure is
/// propagated — so the disable command is always paired with a re-enable.
#[derive(Debug)]
pub struct RawModeGuard;

impl RawModeGuard {
    /// Issue the command that leaves raw mode and take hold of the guard.
    pub fn new(console: &mut Console) -> (g: RawModeGuard)
        ensures
            final(console)@ == old(console)@ + seq![
                ItemModel::Control(Command::DisableRawMode),
            ],
    {
        console.command(Command::DisableRawMode);
        RawModeGuard
    }

    /// Release the guard, issuing the command that re-enters raw mode.
    pub fn release(self, console: &mut Console)
        ensures
            final(console)@ == old(console)@ + seq![ItemModel::Control(Command::EnableRawMode)],
    {
        console.command(Command::EnableRawMode);
    }
}

} // verus!
