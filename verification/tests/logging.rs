use muni_bot::discord::admin::{set_log_channel, stop_logging, StopLoggingOutcome};
use muni_bot::handlers::logging::{
    enabled_bool, yes_no_bool, LoggingChannel, LoggingChannelRegistry, LoggingHandler, PauseType,
};

#[test]
fn pauses_filter_matching_events() {
    let mut h = LoggingHandler::new();
    assert!(!h.is_paused(10, PauseType::MessageDelete));
    h.set_pauses(10, vec![PauseType::MessageDeleteBulk, PauseType::MessageDelete]);
    assert!(h.is_paused(10, PauseType::MessageDelete));
    assert!(h.is_paused(10, PauseType::MessageDeleteBulk));
    // other channels are unaffected
    assert!(!h.is_paused(11, PauseType::MessageDelete));
    // narrowing the pauses replaces the set
    h.set_pauses(10, vec![PauseType::MessageDeleteBulk]);
    assert!(!h.is_paused(10, PauseType::MessageDelete));
    assert!(h.is_paused(10, PauseType::MessageDeleteBulk));
    h.clear_pauses(10);
    assert!(!h.is_paused(10, PauseType::MessageDeleteBulk));
}

#[test]
fn clearing_pauses_leaves_other_channels_alone() {
    let mut h = LoggingHandler::new();
    h.set_pauses(10, vec![PauseType::MessageDelete]);
    h.set_pauses(11, vec![PauseType::MessageDeleteBulk]);
    h.clear_pauses(10);
    assert!(!h.is_paused(10, PauseType::MessageDelete));
    assert!(h.is_paused(11, PauseType::MessageDeleteBulk));
}

#[test]
fn registry_set_get_clear() {
    let mut reg = LoggingChannelRegistry::new();
    assert_eq!(reg.get(1), None);
    reg.set(1, 100);
    assert_eq!(reg.get(1), Some(100));
    // an upsert replaces the previous channel
    reg.set(1, 200);
    assert_eq!(reg.get(1), Some(200));
    reg.set(2, 300);
    assert!(reg.clear(1));
    assert_eq!(reg.get(1), None);
    assert_eq!(reg.get(2), Some(300));
    assert!(!reg.clear(1));
}

#[test]
fn log_channel_commands() {
    let mut reg = LoggingChannelRegistry::new();
    // with no channel named, the current channel is used
    let chosen = set_log_channel(&mut reg, 5, None, 777);
    assert_eq!(chosen, 777);
    assert_eq!(reg.get(5), Some(777));
    let chosen = set_log_channel(&mut reg, 5, Some(888), 777);
    assert_eq!(chosen, 888);
    assert_eq!(reg.get(5), Some(888));
    assert_eq!(stop_logging(&mut reg, 5), StopLoggingOutcome::Disabled);
    assert_eq!(stop_logging(&mut reg, 5), StopLoggingOutcome::NothingToDo);
}

#[test]
fn logging_channel_holds_its_ids() {
    let lc = LoggingChannel::new(3, 4);
    assert_eq!(lc.guild_id, 3);
    assert_eq!(lc.channel_id, 4);
}

#[test]
fn audit_flag_words() {
    assert_eq!(yes_no_bool(true), "yes");
    assert_eq!(yes_no_bool(false), "no");
    assert_eq!(enabled_bool(true), "enabled");
    assert_eq!(enabled_bool(false), "disabled");
}
