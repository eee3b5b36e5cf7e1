use muni_bot::discord::admin::{
    set_autodelete, stop_autodelete, DurationParseError, SetAutodeleteOutcome,
    StopAutodeleteOutcome,
};
use muni_bot::discord::autodelete::{
    clean_decision, select_messages_to_delete, summarize_deletions, AutoDeleteHandler,
    AutoDeleteMode, ChannelSnapshot, CleanAction, MessageRecord, MAXIMUM_WAIT_TIME_MS,
    MINIMUM_TIMER_DURATION_MS,
};

const HOUR_MS: u64 = 1000 * 60 * 60;

#[test]
fn set_autodelete_rejects_short_durations() {
    let mut store = AutoDeleteHandler::new();
    let r = set_autodelete(&mut store, 1, 10, "30m", None);
    assert_eq!(r, Ok(SetAutodeleteOutcome::TooShort));
    let r = set_autodelete(&mut store, 1, 10, "59 minutes", Some(AutoDeleteMode::Always));
    assert_eq!(r, Ok(SetAutodeleteOutcome::TooShort));
    let r = set_autodelete(&mut store, 1, 10, "not a duration", None);
    assert_eq!(r, Err(DurationParseError));
    // nothing was written
    assert_eq!(store.due_timers(i64::MAX).len(), 0);
}

#[test]
fn set_autodelete_accepts_exactly_one_hour() {
    let mut store = AutoDeleteHandler::new();
    let r = set_autodelete(&mut store, 1, 10, "1h", None);
    assert_eq!(
        r,
        Ok(SetAutodeleteOutcome::Accepted {
            duration_ms: MINIMUM_TIMER_DURATION_MS,
            mode: AutoDeleteMode::AfterSilence,
            mode_was_specified: false,
        })
    );
    let due = store.due_timers(HOUR_MS as i64);
    assert_eq!(due.len(), 1);
    assert_eq!(due[0].channel_id, 10);
    assert_eq!(due[0].duration_ms, HOUR_MS);
    assert_eq!(due[0].last_message_id_cleaned, 1);
}

#[test]
fn clear_autodelete_reports_existence() {
    let mut store = AutoDeleteHandler::new();
    assert_eq!(stop_autodelete(&mut store, 10), StopAutodeleteOutcome::DidNotExist);
    store.set_autodelete(1, 10, 2 * HOUR_MS, AutoDeleteMode::Always);
    store.set_autodelete(1, 11, 3 * HOUR_MS, AutoDeleteMode::AfterSilence);
    assert_eq!(stop_autodelete(&mut store, 10), StopAutodeleteOutcome::Removed);
    assert_eq!(stop_autodelete(&mut store, 10), StopAutodeleteOutcome::DidNotExist);
    // the cleared timer no longer figures in scheduling
    let due = store.due_timers(i64::MAX);
    assert_eq!(due.len(), 1);
    assert_eq!(due[0].channel_id, 11);
    // and get_next_fire only considers the remaining timer
    let snaps = vec![None];
    let delay = store.get_next_fire(&snaps, 0);
    assert_eq!(delay, MAXIMUM_WAIT_TIME_MS);
}

#[test]
fn should_check_follows_elapsed_time() {
    let mut store = AutoDeleteHandler::new();
    store.set_autodelete(1, 10, 2 * HOUR_MS, AutoDeleteMode::Always);
    // fresh timers have last_cleaned at the epoch, so they are due as soon
    // as their duration has passed
    let due_now = store.due_timers(2 * HOUR_MS as i64);
    assert_eq!(due_now.len(), 1);
    let not_yet = store.due_timers(2 * HOUR_MS as i64 - 1);
    assert_eq!(not_yet.len(), 0);
    let t = due_now[0];
    assert!(t.should_check(2 * HOUR_MS as i64));
    assert!(!t.should_check(2 * HOUR_MS as i64 - 1));
}

#[test]
fn check_messages_computes_next_clean() {
    let mut store = AutoDeleteHandler::new();
    store.set_autodelete(1, 10, 2 * HOUR_MS, AutoDeleteMode::Always);
    let t = store.due_timers(i64::MAX)[0];
    let now = 10 * HOUR_MS as i64;
    // no messages at all: wait the full duration
    let empty = ChannelSnapshot { last_message: None, timestamps: vec![] };
    assert_eq!(t.check_messages(&empty, now), 2 * HOUR_MS);
    // the oldest message is one hour old: it becomes eligible in one hour
    let snap = ChannelSnapshot {
        last_message: Some(MessageRecord { id: 7, timestamp_ms: now - HOUR_MS as i64 }),
        timestamps: vec![now - HOUR_MS as i64, now - (HOUR_MS as i64) / 2],
    };
    assert_eq!(t.check_messages(&snap, now), HOUR_MS);
    // an overdue oldest message clamps to zero
    let snap = ChannelSnapshot {
        last_message: Some(MessageRecord { id: 7, timestamp_ms: now - HOUR_MS as i64 }),
        timestamps: vec![now - 3 * HOUR_MS as i64],
    };
    assert_eq!(t.check_messages(&snap, now), 0);

    // in after-silence mode only the last message counts
    let mut store = AutoDeleteHandler::new();
    store.set_autodelete(1, 11, 2 * HOUR_MS, AutoDeleteMode::AfterSilence);
    let t = store.due_timers(i64::MAX)[0];
    let snap = ChannelSnapshot {
        last_message: Some(MessageRecord { id: 9, timestamp_ms: now - HOUR_MS as i64 }),
        timestamps: vec![now - 30 * HOUR_MS as i64],
    };
    assert_eq!(t.check_messages(&snap, now), HOUR_MS);
}

#[test]
fn get_next_fire_takes_the_soonest() {
    let mut store = AutoDeleteHandler::new();
    store.set_autodelete(1, 10, 2 * HOUR_MS, AutoDeleteMode::AfterSilence);
    store.set_autodelete(1, 11, 90 * 60 * 1000, AutoDeleteMode::AfterSilence);
    let now = 5 * HOUR_MS as i64;
    // both are due; the second channel's last message is closer to aging out
    let snaps = vec![
        Some(ChannelSnapshot {
            last_message: Some(MessageRecord { id: 5, timestamp_ms: now - HOUR_MS as i64 }),
            timestamps: vec![],
        }),
        Some(ChannelSnapshot {
            last_message: Some(MessageRecord { id: 6, timestamp_ms: now - HOUR_MS as i64 }),
            timestamps: vec![],
        }),
    ];
    // first timer: 2h - 1h = 1h; second: 1.5h - 1h = 30min
    assert_eq!(store.get_next_fire(&snaps, now), 30 * 60 * 1000);
    // an unreadable channel contributes nothing
    let snaps = vec![
        None,
        Some(ChannelSnapshot {
            last_message: Some(MessageRecord { id: 6, timestamp_ms: now - HOUR_MS as i64 }),
            timestamps: vec![],
        }),
    ];
    assert_eq!(store.get_next_fire(&snaps, now), 30 * 60 * 1000);
    // the wait is capped even when every timer is far away
    let mut store = AutoDeleteHandler::new();
    store.set_autodelete(1, 12, 40 * HOUR_MS, AutoDeleteMode::Always);
    let snaps = vec![None];
    assert_eq!(store.get_next_fire(&snaps, 1), MAXIMUM_WAIT_TIME_MS);
    // a not-yet-due timer wakes the loop the moment it becomes due
    let mut store = AutoDeleteHandler::new();
    store.set_autodelete(1, 13, HOUR_MS, AutoDeleteMode::Always);
    let fifty_minutes: i64 = 50 * 60 * 1000;
    let snaps = vec![None];
    assert_eq!(store.get_next_fire(&snaps, fifty_minutes), 10 * 60 * 1000);
}

#[test]
fn clean_decision_skips_and_aborts() {
    let mut store = AutoDeleteHandler::new();
    store.set_autodelete(1, 10, 2 * HOUR_MS, AutoDeleteMode::AfterSilence);
    let t = store.due_timers(i64::MAX)[0];
    let now = 10 * HOUR_MS as i64;
    // no messages at all: skip
    assert_eq!(clean_decision(&t, None, now), CleanAction::SkipNoNewMessages);
    // nothing new since the watermark: skip
    let lm = MessageRecord { id: t.last_message_id_cleaned, timestamp_ms: now };
    assert_eq!(clean_decision(&t, Some(lm), now), CleanAction::SkipNoNewMessages);
    // a still-active channel aborts an after-silence sweep
    let lm = MessageRecord { id: 99, timestamp_ms: now - HOUR_MS as i64 };
    assert_eq!(clean_decision(&t, Some(lm), now), CleanAction::AbortAfterSilence);
    // a silent channel proceeds
    let lm = MessageRecord { id: 99, timestamp_ms: now - 3 * HOUR_MS as i64 };
    assert_eq!(clean_decision(&t, Some(lm), now), CleanAction::Collect);
}

#[test]
fn no_candidates_when_nothing_is_old_enough() {
    let now = 10 * HOUR_MS as i64;
    let duration = 2 * HOUR_MS;
    let messages = vec![
        MessageRecord { id: 1, timestamp_ms: now - HOUR_MS as i64 },
        MessageRecord { id: 2, timestamp_ms: now - 90 * 60 * 1000 },
    ];
    let candidates = select_messages_to_delete(&messages, duration, now);
    assert!(candidates.is_empty());
    // recording the empty sweep advances last_cleaned but not the watermark
    let mut store = AutoDeleteHandler::new();
    store.set_autodelete(1, 10, duration, AutoDeleteMode::Always);
    store.record_cleanup(10, None, now);
    let t = store.due_timers(i64::MAX)[0];
    assert_eq!(t.last_cleaned_ms, now);
    assert_eq!(t.last_message_id_cleaned, 1);
}

#[test]
fn sweep_scenario_deletes_only_old_messages() {
    // a two-hour timer in always mode; one message three hours old, one
    // message one hour old
    let now = 20 * HOUR_MS as i64;
    let duration = 2 * HOUR_MS;
    let mut store = AutoDeleteHandler::new();
    store.set_autodelete(1, 10, duration, AutoDeleteMode::Always);
    let old_msg = MessageRecord { id: 333, timestamp_ms: now - 3 * HOUR_MS as i64 };
    let young_msg = MessageRecord { id: 444, timestamp_ms: now - HOUR_MS as i64 };
    let candidates = select_messages_to_delete(&vec![old_msg, young_msg], duration, now);
    assert_eq!(candidates.len(), 1);
    assert_eq!(candidates[0].id, 333);
    // every deletion succeeded
    let outcome = summarize_deletions(&candidates, &vec![true]);
    assert_eq!(outcome.deletions, 1);
    assert_eq!(outcome.failures, 0);
    assert_eq!(outcome.skipped, 0);
    let last = outcome.last_message_deleted.unwrap();
    assert_eq!(last.id, 333);
    store.record_cleanup(10, Some(last), now);
    let t = store.due_timers(i64::MAX)[0];
    assert_eq!(t.last_message_id_cleaned, 333);
    assert_eq!(t.last_cleaned_ms, now);
}

#[test]
fn summarize_tolerates_failures_and_tracks_latest() {
    let m1 = MessageRecord { id: 1, timestamp_ms: 100 };
    let m2 = MessageRecord { id: 2, timestamp_ms: 300 };
    let m3 = MessageRecord { id: 3, timestamp_ms: 200 };
    let outcome = summarize_deletions(&vec![m1, m2, m3], &vec![true, false, true]);
    assert_eq!(outcome.deletions, 2);
    assert_eq!(outcome.failures, 1);
    // the failed deletion of the newest message leaves the watermark at
    // the newest actually deleted one
    assert_eq!(outcome.last_message_deleted.unwrap().id, 3);
    // equal timestamps: the later message wins
    let m4 = MessageRecord { id: 4, timestamp_ms: 200 };
    let outcome = summarize_deletions(&vec![m3, m4], &vec![true, true]);
    assert_eq!(outcome.last_message_deleted.unwrap().id, 4);
}

#[test]
fn timers_reload_from_records() {
    let mut store = AutoDeleteHandler::new();
    store.set_autodelete(1, 10, 2 * HOUR_MS, AutoDeleteMode::Always);
    store.set_autodelete(2, 11, 3 * HOUR_MS, AutoDeleteMode::AfterSilence);
    let records = store.due_timers(i64::MAX);
    let reloaded = AutoDeleteHandler::from_records(records);
    let timers = reloaded.due_timers(i64::MAX);
    assert_eq!(timers.len(), 2);
}
