//! The content/trigger warning keeper: the streamer issues, reports or
//! clears a warning with the `!cw` / `!tw` command, viewers can ask for
//! it, and newcomers are greeted with the active warning once each.

use vstd::prelude::*;

use crate::text::{eq_str, occurs_at, skip_leading_spaces, trimmed_start};

verus! {

/// Keeps the active content warning and who has been greeted with it.
pub struct ContentWarningHandler {
    active_warning: Option<String>,
    users_greeted: Vec<String>,
}

/// Whether a message invokes the warning command.
pub open spec fn cw_command(text: Seq<char>) -> bool {
    occurs_at(text, "!cw"@, 0) || occurs_at(text, "!tw"@, 0)
}

/// The command's argument: what follows the three-character trigger, with
/// leading whitespace removed.
pub open spec fn cw_argument(text: Seq<char>) -> Seq<char> {
    trimmed_start(text.skip(3))
}

/// Whether `name` is among the greeted names.
pub open spec fn greeted_has(s: Seq<Seq<char>>, name: Seq<char>) -> bool {
    exists|i: int| 0 <= i < s.len() && s[i] == name
}

/// What one message makes the handler do.
#[derive(Clone, Copy, Debug, PartialEq, Eq, Structural)]
pub enum CwOutcome {
    /// The streamer asked for the current state; report it back.
    StreamerReport,
    /// The streamer cleared the warning.
    WarningCleared,
    /// The streamer issued a new warning.
    WarningIssued,
    /// A viewer asked; report the warning (or its absence) to them.
    UserReport,
    /// A newcomer spoke while a warning is active; greet them with it.
    GreetedNewcomer,
    /// Nothing to do.
    NotHandled,
}

impl ContentWarningHandler {
    /// The active warning, if one is in effect.
    pub closed spec fn spec_warning(self) -> Option<Seq<char>> {
        self.active_warning.deep_view()
    }

    /// The names already greeted with the active warning.
    pub closed spec fn spec_greeted(self) -> Seq<Seq<char>> {
        self.users_greeted.deep_view()
    }

    /// A handler with no warning in effect and nobody greeted.
    pub fn new() -> (r: ContentWarningHandler)
        ensures
            r.spec_warning() is None,
            r.spec_greeted().len() == 0,
    {
        ContentWarningHandler { active_warning: None, users_greeted: Vec::new() }
    }

    /// The active warning, to phrase a report.
    pub fn active_warning(&self) -> (r: Option<String>)
        ensures
            r.deep_view() == self.spec_warning(),
    {
        match &self.active_warning {
            Some(w) => Some(w.clone()),
            None => None,
        }
    }

    /// Decides what a chat message makes the warning keeper do, and does
    /// it: the streamer's command reports, clears or issues the warning;
    /// a viewer's command asks for a report; any other message greets its
    /// sender with the active warning if they have not been greeted yet.
    pub fn handle_chat_message(
        &mut self,
        sender_login: &str,
        sender_name: &str,
        channel_login: &str,
        message_text: &str,
    ) -> (r: CwOutcome)
        ensures
            cw_command(message_text@) && sender_login@ == channel_login@ && cw_argument(
                message_text@,
            ).len() == 0 ==> r == CwOutcome::StreamerReport && *final (self) == *old(self),
            cw_command(message_text@) && sender_login@ == channel_login@ && (cw_argument(
                message_text@,
            ) == "clear"@ || cw_argument(message_text@) == "reset"@) ==> r
                == CwOutcome::WarningCleared && final (self).spec_warning() is None
                && final (self).spec_greeted() == old(self).spec_greeted(),
            cw_command(message_text@) && sender_login@ == channel_login@ && cw_argument(
                message_text@,
            ).len() != 0 && cw_argument(message_text@) != "clear"@ && cw_argument(message_text@)
                != "reset"@ ==> r == CwOutcome::WarningIssued && final (self).spec_warning()
                == Some(cw_argument(message_text@)) && final (self).spec_greeted().len() == 0,
            cw_command(message_text@) && sender_login@ != channel_login@ ==> r
                == CwOutcome::UserReport && *final (self) == *old(self),
            !cw_command(message_text@) && old(self).spec_warning() is Some && !greeted_has(
                old(self).spec_greeted(),
                sender_name@,
            ) ==> r == CwOutcome::GreetedNewcomer && final (self).spec_warning()
                == old(self).spec_warning() && final (self).spec_greeted()
                == old(self).spec_greeted().push(sender_name@),
            !cw_command(message_text@) && (old(self).spec_warning() is None || greeted_has(
                old(self).spec_greeted(),
                sender_name@,
            )) ==> r == CwOutcome::NotHandled && *final (self) == *old(self),
    {
        proof {
            reveal_strlit("!cw");
            reveal_strlit("!tw");
            reveal_strlit("clear");
            reveal_strlit("reset");
        }
        let is_command = crate::text::starts_with_str(message_text, "!cw")
            || crate::text::starts_with_str(message_text, "!tw");
        if is_command {
            let len = message_text.unicode_len();
            let rest = message_text.substring_char(3, len);
            let arg_start = skip_leading_spaces(rest);
            let content = rest.substring_char(arg_start, rest.unicode_len());
            proof {
                assert(rest@ == message_text@.skip(3));
                assert(content@ == cw_argument(message_text@));
            }
            if eq_str(sender_login, channel_login) {
                if content.unicode_len() == 0 {
                    CwOutcome::StreamerReport
                } else if eq_str(content, "clear") || eq_str(content, "reset") {
                    self.active_warning = None;
                    CwOutcome::WarningCleared
                } else {
                    self.active_warning = Some(content.to_owned());
                    self.users_greeted = Vec::new();
                    CwOutcome::WarningIssued
                }
            } else {
                CwOutcome::UserReport
            }
        } else {
            let already = self.has_greeted(sender_name);
            let active = matches!(&self.active_warning, Some(_));
            if active && !already {
                self.users_greeted.push(sender_name.to_owned());
                proof {
                    let pre = old(self).users_greeted.deep_view();
                    assert(self.users_greeted.deep_view() =~= pre.push(sender_name@));
                }
                CwOutcome::GreetedNewcomer
            } else {
                CwOutcome::NotHandled
            }
        }
    }

    /// Whether this user has already been greeted with the warning.
    fn has_greeted(&self, sender_name: &str) -> (r: bool)
        ensures
            r == greeted_has(self.spec_greeted(), sender_name@),
    {
        let n = self.users_greeted.len();
        let mut i: usize = 0;
        while i < n
            invariant
                n == self.users_greeted@.len(),
                0 <= i <= n,
                forall|k: int| 0 <= k < i ==> self.users_greeted.deep_view()[k] != sender_name@,
            decreases n - i,
        {
            if eq_str(self.users_greeted[i].as_str(), sender_name) {
                proof {
                    assert(self.users_greeted.deep_view()[i as int] == sender_name@);
                }
                return true;
            }
            i = i + 1;
        }
        false
    }
}

} // verus!
