//! The server-administration commands: configuring the logging channel and
//! the per-channel autodelete timers. Each command validates its input,
//! mutates the store, and reports a structured outcome that the shell
//! renders into a reply.

use vstd::prelude::*;

use crate::discord::autodelete::{
    fresh_timer,
    has_channel,
    upserted,
    cleared,
    AutoDeleteHandler,
    AutoDeleteMode,
    MINIMUM_TIMER_DURATION_MS,
};
use crate::handlers::logging::{
    guild_maps_to,
    has_guild_entry,
    LoggingChannelRegistry,
};

verus! {

/// Provides the admin command group.
pub struct AdminCommandProvider;

/// What `humantime::parse_duration` makes of a duration phrase, in
/// milliseconds; `None` where the phrase does not parse or the duration
/// overflows the millisecond range.
pub uninterp spec fn parsed_duration_ms(s: Seq<char>) -> Option<u64>;

/// Relies on humantime::parse_duration: parses a human-readable duration
/// phrase such as "1h" or "8 hours"; the result depends on the string
/// alone.
#[verifier::external_body]
fn parse_duration_ms(s: &str) -> (r: Option<u64>)
    ensures
        r == parsed_duration_ms(s@),
{
    match humantime::parse_duration(s) {
        Ok(d) => u64::try_from(d.as_millis()).ok(),
        Err(_) => None,
    }
}

/// The duration phrase of a set command did not parse.
#[derive(Clone, Copy, Debug, PartialEq, Eq, Structural)]
pub struct DurationParseError;

/// Whether a parsed retention duration passes the command-layer check.
pub open spec fn duration_accepted(duration_ms: u64) -> bool {
    duration_ms >= MINIMUM_TIMER_DURATION_MS
}

/// The reply of a set command.
#[derive(Clone, Copy, Debug, PartialEq, Eq, Structural)]
pub enum SetAutodeleteOutcome {
    /// The timer was written: the parsed duration, the mode in force, and
    /// whether the caller named the mode (the reply hints at the
    /// alternative when not).
    Accepted { duration_ms: u64, mode: AutoDeleteMode, mode_was_specified: bool },
    /// The duration is below the minimum; nothing was written.
    TooShort,
}

/// Sets up auto-deleting messages for a channel: parses the duration
/// phrase, rejects durations under the minimum, and otherwise writes the
/// timer with the named mode (or the default, after-silence, when none is
/// named).
pub fn set_autodelete(
    handler: &mut AutoDeleteHandler,
    guild_id: u64,
    channel_id: u64,
    duration: &str,
    specified_clean_mode: Option<AutoDeleteMode>,
) -> (r: Result<SetAutodeleteOutcome, DurationParseError>)
    requires
        old(handler).wf(),
    ensures
        final (handler).wf(),
        parsed_duration_ms(duration@) is None ==> r == Result::<
            SetAutodeleteOutcome,
            DurationParseError,
        >::Err(DurationParseError) && *final (handler) == *old(handler),
        forall|d: u64|
            parsed_duration_ms(duration@) == Some(d) && !duration_accepted(d) ==> r == Result::<
                SetAutodeleteOutcome,
                DurationParseError,
            >::Ok(SetAutodeleteOutcome::TooShort) && *final (handler) == *old(handler),
        forall|d: u64|
            parsed_duration_ms(duration@) == Some(d) && duration_accepted(d) ==> r == Result::<
                SetAutodeleteOutcome,
                DurationParseError,
            >::Ok(
                SetAutodeleteOutcome::Accepted {
                    duration_ms: d,
                    mode: mode_in_force(specified_clean_mode),
                    mode_was_specified: specified_clean_mode is Some,
                },
            ) && upserted(
                old(handler).spec_timers(),
                final (handler).spec_timers(),
                fresh_timer(guild_id, channel_id, d, mode_in_force(specified_clean_mode)),
            ),
{
    let clean_mode = match specified_clean_mode {
        Some(m) => m,
        None => AutoDeleteMode::AfterSilence,
    };
    match parse_duration_ms(duration) {
        None => Err(DurationParseError),
        Some(parsed) => {
            if parsed >= MINIMUM_TIMER_DURATION_MS {
                handler.set_autodelete(guild_id, channel_id, parsed, clean_mode);
                Ok(
                    SetAutodeleteOutcome::Accepted {
                        duration_ms: parsed,
                        mode: clean_mode,
                        mode_was_specified: matches!(specified_clean_mode, Some(_)),
                    },
                )
            } else {
                Ok(SetAutodeleteOutcome::TooShort)
            }
        },
    }
}

/// The mode a set command puts in force: the one named, or the default.
pub open spec fn mode_in_force(specified: Option<AutoDeleteMode>) -> AutoDeleteMode {
    match specified {
        Some(m) => m,
        None => AutoDeleteMode::AfterSilence,
    }
}

/// The command-layer minimum is a sharp boundary: every duration under one
/// hour is rejected, and exactly one hour is accepted.
pub proof fn lemma_duration_minimum_boundary(duration_ms: u64)
    ensures
        duration_accepted(duration_ms) <==> duration_ms >= MINIMUM_TIMER_DURATION_MS,
        duration_accepted(MINIMUM_TIMER_DURATION_MS),
        duration_ms < MINIMUM_TIMER_DURATION_MS ==> !duration_accepted(duration_ms),
{
}

/// The reply of a stop command.
#[derive(Clone, Copy, Debug, PartialEq, Eq, Structural)]
pub enum StopAutodeleteOutcome {
    /// A timer existed and was removed.
    Removed,
    /// No timer existed for the channel.
    DidNotExist,
}

/// Stops autodeletion for a channel, reporting whether a timer existed.
pub fn stop_autodelete(handler: &mut AutoDeleteHandler, channel_id: u64) -> (r:
    StopAutodeleteOutcome)
    requires
        old(handler).wf(),
    ensures
        final (handler).wf(),
        r == StopAutodeleteOutcome::Removed <==> has_channel(
            old(handler).spec_timers(),
            channel_id,
        ),
        cleared(old(handler).spec_timers(), final (handler).spec_timers(), channel_id),
{
    if handler.clear_autodelete(channel_id) {
        StopAutodeleteOutcome::Removed
    } else {
        StopAutodeleteOutcome::DidNotExist
    }
}

/// Sets the channel to which log messages will be sent: the named one, or
/// the channel the command was used in when none is named. Returns the
/// channel chosen.
pub fn set_log_channel(
    registry: &mut LoggingChannelRegistry,
    guild_id: u64,
    channel: Option<u64>,
    current_channel_id: u64,
) -> (chosen: u64)
    requires
        old(registry).wf(),
    ensures
        final (registry).wf(),
        chosen == (match channel {
            Some(c) => c,
            None => current_channel_id,
        }),
        guild_maps_to(final (registry).spec_entries(), guild_id, chosen),
        forall|c: u64|
            c != chosen ==> !guild_maps_to(final (registry).spec_entries(), guild_id, c),
        forall|g: u64, c: u64|
            g != guild_id ==> (guild_maps_to(final (registry).spec_entries(), g, c)
                <==> guild_maps_to(old(registry).spec_entries(), g, c)),
{
    let chosen = match channel {
        Some(c) => c,
        None => current_channel_id,
    };
    registry.set(guild_id, chosen);
    chosen
}

/// The reply of a stop-logging command.
#[derive(Clone, Copy, Debug, PartialEq, Eq, Structural)]
pub enum StopLoggingOutcome {
    /// Logging was enabled and has been disabled.
    Disabled,
    /// No logging channel was set; nothing was done.
    NothingToDo,
}

/// Stops logging in a guild, reporting whether anything was disabled.
pub fn stop_logging(registry: &mut LoggingChannelRegistry, guild_id: u64) -> (r:
    StopLoggingOutcome)
    requires
        old(registry).wf(),
    ensures
        final (registry).wf(),
        r == StopLoggingOutcome::Disabled <==> has_guild_entry(
            old(registry).spec_entries(),
            guild_id,
        ),
        !has_guild_entry(final (registry).spec_entries(), guild_id),
        forall|g: u64, c: u64|
            g != guild_id ==> (guild_maps_to(final (registry).spec_entries(), g, c)
                <==> guild_maps_to(old(registry).spec_entries(), g, c)),
{
    if registry.clear(guild_id) {
        StopLoggingOutcome::Disabled
    } else {
        StopLoggingOutcome::NothingToDo
    }
}

} // verus!
