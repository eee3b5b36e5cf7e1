//! What the chat-platform agent reports about a channel. The HTTP client
//! that fetches it lives in the shell; the logic only reads these values.

use vstd::prelude::*;

verus! {

/// A channel's current category and title.
#[derive(Clone, Debug)]
pub struct ChannelInfo {
    pub game_name: String,
    pub title: String,
}

} // verus!
