//! Errors reported by the Discord-side event handlers. The dispatch
//! boundary catches them, logs them with the offending handler's name, and
//! carries on.

use vstd::prelude::*;

verus! {

/// An error from one event handler, tagged with the handler's name.
#[derive(Clone, Debug)]
pub struct DiscordHandlerError {
    pub handler_name: &'static str,
    pub message: String,
}

impl DiscordHandlerError {
    /// Wraps a rendered error message under the reporting handler's name.
    pub fn from_display(handler_name: &'static str, message: String) -> (r: DiscordHandlerError)
        ensures
            r.handler_name == handler_name,
            r.message == message,
    {
        DiscordHandlerError { handler_name, message }
    }
}

} // verus!
