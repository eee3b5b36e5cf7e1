//! The lift command's rate limiter: responds to the trigger phrase at most
//! once every five minutes.

use vstd::prelude::*;

use crate::text::{occurs_at, starts_with_str};

verus! {

/// The cooldown between responses, in milliseconds: five minutes.
pub const LIFT_COOLDOWN_MS: i64 = 300 * 1000;

/// Remembers when the lift trigger last fired.
pub struct LiftHandler {
    pub last_call_ms: i64,
}

impl LiftHandler {
    /// A handler ready to fire immediately: the last call is backdated by
    /// one full cooldown.
    pub fn new(now_ms: i64) -> (r: LiftHandler)
        requires
            i64::MIN + LIFT_COOLDOWN_MS <= now_ms,
        ensures
            r.last_call_ms == now_ms - LIFT_COOLDOWN_MS,
    {
        LiftHandler { last_call_ms: now_ms - LIFT_COOLDOWN_MS }
    }

    /// Whether to respond to this message: it must start with the trigger
    /// phrase and the cooldown must have elapsed. Firing restarts the
    /// cooldown.
    pub fn should_respond(&mut self, message_text: &str, now_ms: i64) -> (r: bool)
        ensures
            r == (occurs_at(message_text@, "!liftmuni"@, 0) && now_ms - old(self).last_call_ms
                > LIFT_COOLDOWN_MS),
            r ==> final (self).last_call_ms == now_ms,
            !r ==> *final (self) == *old(self),
    {
        if starts_with_str(message_text, "!liftmuni") && (now_ms as i128) - (
        self.last_call_ms as i128) > (LIFT_COOLDOWN_MS as i128) {
            self.last_call_ms = now_ms;
            true
        } else {
            false
        }
    }
}

} // verus!
