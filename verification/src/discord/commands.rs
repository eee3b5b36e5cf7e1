//! Errors reported by the Discord slash and prefix commands.

use vstd::prelude::*;

verus! {

/// An error from one command invocation, tagged with the command's
/// identifier.
#[derive(Clone, Debug)]
pub struct DiscordCommandError {
    pub message: String,
    pub command_identifier: String,
}

} // verus!
