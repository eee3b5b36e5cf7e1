//! The anonymous topic-change request: a confirmation prompt with two
//! buttons. The shell shows the prompt and waits; the decision of what
//! each button press means is made here.

use vstd::prelude::*;

use crate::text::eq_str;

verus! {

/// Provides the topic-change command.
pub struct TopicChangeProvider;

/// What a button press on the confirmation prompt leads to.
#[derive(Clone, Copy, Debug, PartialEq, Eq, Structural)]
pub enum TopicChangeAction {
    /// Thank the requester and post the anonymous topic-change request to
    /// the channel.
    SendRequest,
    /// Only acknowledge; nothing is posted.
    AcknowledgeDenial,
    /// An unrecognized interaction: do nothing.
    Ignore,
}

/// Decides what an interaction with the confirmation prompt means, by the
/// pressed component's id.
pub fn topic_change_action(custom_id: &str) -> (r: TopicChangeAction)
    ensures
        custom_id@ == "approve_topic_change"@ ==> r == TopicChangeAction::SendRequest,
        custom_id@ == "deny_topic_change"@ ==> r == TopicChangeAction::AcknowledgeDenial,
        custom_id@ != "approve_topic_change"@ && custom_id@ != "deny_topic_change"@ ==> r
            == TopicChangeAction::Ignore,
{
    proof {
        reveal_strlit("approve_topic_change");
        reveal_strlit("deny_topic_change");
        assert("approve_topic_change"@.len() != "deny_topic_change"@.len());
    }
    if eq_str(custom_id, "approve_topic_change") {
        TopicChangeAction::SendRequest
    } else if eq_str(custom_id, "deny_topic_change") {
        TopicChangeAction::AcknowledgeDenial
    } else {
        TopicChangeAction::Ignore
    }
}

} // verus!
