//! Automatic banning of known-bad logins and viewer-scam bots. Scam
//! detection first cures the message of homoglyphs, then looks for the
//! telltale phrases in the cured text.

use vstd::prelude::*;

use crate::text::{contains_seq, contains_str, lower_of, to_lowercase};

verus! {

/// Handles bans for suspected harassment accounts and scam bots.
pub struct AutoBanHandler;

/// What decancer's cure makes of a string: the text with homoglyphs and
/// other confusables normalized away, or nothing where the text is too
/// malformed to cure. The result depends on the characters alone.
pub uninterp spec fn cured_text(s: Seq<char>) -> Option<Seq<char>>;

/// Relies on decancer::cure with default options: normalizes a string's
/// confusable characters; fails only on text that defeats the
/// bidirectional algorithm.
#[verifier::external_body]
fn cure(s: &str) -> (r: Option<String>)
    ensures
        r.deep_view() == cured_text(s@),
{
    match decancer::cure(s, decancer::Options::default()) {
        Ok(c) => Some(String::from(c)),
        Err(_) => None,
    }
}

/// Whether a cured message reads as a viewer-scam advertisement.
pub open spec fn scam_phrases_in(cured: Seq<char>) -> bool {
    contains_seq(cured, "cheap viewers on"@) || contains_seq(cured, "best viewers on"@)
}

/// Whether the message matches a known viewer-scam pattern, by its cured
/// (homoglyph-free) text; `None` where the message could not be cured.
pub fn matches_scam_message(msg_content: &str) -> (r: Option<bool>)
    ensures
        match cured_text(msg_content@) {
            Some(c) => r == Some(scam_phrases_in(c)),
            None => r is None,
        },
{
    match cure(msg_content) {
        Some(c) => {
            let hit = contains_str(c.as_str(), "cheap viewers on") || contains_str(
                c.as_str(),
                "best viewers on",
            );
            Some(hit)
        },
        None => None,
    }
}

/// Why a user is banned.
#[derive(Clone, Copy, Debug, PartialEq, Eq, Structural)]
pub enum BanReason {
    /// The login matches an account suspected of harassment.
    SuspectedHarassment,
    /// The message matches a viewer-scam pattern.
    LikelyViewerScamBot,
}

/// Whether a lowercased login belongs to a suspected harassment account.
pub open spec fn harassment_login(lower_login: Seq<char>) -> bool {
    contains_seq(lower_login, "isapred"@) || contains_seq(lower_login, "isabadstreamer"@)
}

impl AutoBanHandler {
    /// Decides whether a message's sender must be banned: by their login,
    /// or by the scam pattern in their message. Fails only where the
    /// message defeats the homoglyph cure.
    pub fn ban_decision(user_login: &str, msg_content: &str) -> (r: Result<Option<BanReason>, ()>)
        ensures
            harassment_login(lower_of(user_login@)) ==> r == Result::<Option<BanReason>, ()>::Ok(
                Some(BanReason::SuspectedHarassment),
            ),
            !harassment_login(lower_of(user_login@)) ==> match cured_text(msg_content@) {
                Some(c) => r == Result::<Option<BanReason>, ()>::Ok(
                    if scam_phrases_in(c) {
                        Some(BanReason::LikelyViewerScamBot)
                    } else {
                        None
                    },
                ),
                None => r == Result::<Option<BanReason>, ()>::Err(()),
            },
    {
        let lower = to_lowercase(user_login);
        if contains_str(lower.as_str(), "isapred") || contains_str(
            lower.as_str(),
            "isabadstreamer",
        ) {
            Ok(Some(BanReason::SuspectedHarassment))
        } else {
            match matches_scam_message(msg_content) {
                Some(true) => Ok(Some(BanReason::LikelyViewerScamBot)),
                Some(false) => Ok(None),
                None => Err(()),
            }
        }
    }
}

} // verus!
