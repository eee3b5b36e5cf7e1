//! Per-channel message-retention timers and the rules of the scheduling
//! loop that fires them.
//!
//! The store keeps at most one timer per channel, each with a retention
//! duration of at least one hour. The scheduling loop asks `get_next_fire`
//! how long to sleep, then sweeps the due timers; the decisions of one
//! sweep — whether to clean at all, which messages are candidates, and what
//! watermark to record — are pure functions here, while the shell streams
//! the history and performs the deletions.

use vstd::prelude::*;

verus! {

/// The ceiling on the scheduler's sleep, in milliseconds: thirty minutes,
/// so newly added timers and clock drift are picked up.
pub const MAXIMUM_WAIT_TIME_MS: u64 = 1000 * 60 * 30;

/// The least retention duration a timer may be given: one hour.
pub const MINIMUM_TIMER_DURATION_MS: u64 = 1000 * 60 * 60;

/// The two cleanup policies of a timer.
#[derive(Clone, Copy, Debug, PartialEq, Eq, Structural)]
pub enum AutoDeleteMode {
    /// Deletes any message older than the timer's duration.
    Always,
    /// Deletes all messages once the channel has been silent for the
    /// timer's duration.
    AfterSilence,
}

impl Default for AutoDeleteMode {
    /// The mode used when a command names none.
    fn default() -> (r: AutoDeleteMode)
        ensures
            r == AutoDeleteMode::AfterSilence,
    {
        AutoDeleteMode::AfterSilence
    }
}

/// One retention timer: at most one exists per channel. Timestamps are Unix
/// milliseconds; message ids are the platform's numeric ids.
#[derive(Clone, Copy, Debug)]
pub struct AutoDeleteTimer {
    /// Id of the channel this timer runs in.
    pub channel_id: u64,
    /// Guild this timer runs in, kept for display.
    pub guild_id: u64,
    /// How long messages survive.
    pub duration_ms: u64,
    /// When this channel was last swept.
    pub last_cleaned_ms: i64,
    /// Id of the last message successfully deleted: the watermark that lets
    /// a sweep skip a channel with nothing new.
    pub last_message_id_cleaned: u64,
    /// The cleanup policy.
    pub mode: AutoDeleteMode,
}

/// A message's identity and age, as the decision logic needs them.
#[derive(Clone, Copy, Debug)]
pub struct MessageRecord {
    pub id: u64,
    pub timestamp_ms: i64,
}

/// What one look at a channel saw: its most recent message, if any, and the
/// timestamps the history stream yielded.
pub struct ChannelSnapshot {
    pub last_message: Option<MessageRecord>,
    pub timestamps: Vec<i64>,
}

/// What a due timer decides to do with a channel.
#[derive(Clone, Copy, Debug, PartialEq, Eq, Structural)]
pub enum CleanAction {
    /// Nothing new since the watermark: skip the sweep but still advance
    /// `last_cleaned`.
    SkipNoNewMessages,
    /// An `AfterSilence` timer fired while the channel is still active:
    /// abort without touching any state.
    AbortAfterSilence,
    /// Collect and delete old messages.
    Collect,
}

/// The tally of one sweep's deletions.
#[derive(Clone, Copy, Debug)]
pub struct DeleteMessagesResult {
    pub deletions: usize,
    pub failures: usize,
    pub skipped: usize,
    pub last_message_deleted: Option<MessageRecord>,
}

/// The smaller of two mathematical integers.
pub open spec fn min_int(a: int, b: int) -> int {
    if a < b {
        a
    } else {
        b
    }
}

/// `x` clamped into `0 ..= u64::MAX`.
pub open spec fn sat0_u64(x: int) -> int {
    if x < 0 {
        0
    } else if x > u64::MAX {
        u64::MAX as int
    } else {
        x
    }
}

/// The smallest of the timestamps and the seed.
pub open spec fn min_with_seed(ts: Seq<i64>, seed: int) -> int
    decreases ts.len(),
{
    if ts.len() == 0 {
        seed
    } else {
        min_int(ts.last() as int, min_with_seed(ts.drop_last(), seed))
    }
}

impl AutoDeleteTimer {
    /// Whether the timer is due: its duration has elapsed since the last
    /// sweep.
    pub open spec fn is_due(self, now_ms: i64) -> bool {
        self.last_cleaned_ms + self.duration_ms <= now_ms
    }

    /// Returns true if this timer should read messages and decide whether
    /// to clean.
    pub fn should_check(&self, now_ms: i64) -> (r: bool)
        ensures
            r == self.is_due(now_ms),
    {
        (self.last_cleaned_ms as i128) + (self.duration_ms as i128) <= (now_ms as i128)
    }

    /// How long until this timer next needs a sweep, given what the channel
    /// looks like: the moment the oldest surviving message becomes old
    /// enough (`Always`), or the moment the channel has been silent long
    /// enough (`AfterSilence`); the full duration when the channel has no
    /// messages at all.
    pub open spec fn spec_check_messages(self, snap: ChannelSnapshot, now_ms: i64) -> int {
        match snap.last_message {
            None => self.duration_ms as int,
            Some(lm) => match self.mode {
                AutoDeleteMode::Always => sat0_u64(
                    min_with_seed(snap.timestamps@, lm.timestamp_ms as int) + self.duration_ms
                        - now_ms,
                ),
                AutoDeleteMode::AfterSilence => sat0_u64(
                    lm.timestamp_ms + self.duration_ms - now_ms,
                ),
            },
        }
    }

    /// Checks the messages in a channel and calculates the next time this
    /// timer should clean, in milliseconds from `now_ms`.
    pub fn check_messages(&self, snap: &ChannelSnapshot, now_ms: i64) -> (delay: u64)
        ensures
            delay == self.spec_check_messages(*snap, now_ms),
    {
        match &snap.last_message {
            None => self.duration_ms,
            Some(lm) => {
                let base: i128 = match self.mode {
                    AutoDeleteMode::Always => {
                        let mut oldest: i64 = lm.timestamp_ms;
                        let mut i: usize = 0;
                        assert(snap.timestamps@.take(0) =~= Seq::<i64>::empty());
                        while i < snap.timestamps.len()
                            invariant
                                0 <= i <= snap.timestamps@.len(),
                                oldest == min_with_seed(
                                    snap.timestamps@.take(i as int),
                                    lm.timestamp_ms as int,
                                ),
                            decreases snap.timestamps@.len() - i,
                        {
                            let t = snap.timestamps[i];
                            assert(snap.timestamps@.take(i + 1).drop_last() =~= snap.timestamps@.take(
                                i as int,
                            ));
                            assert(snap.timestamps@.take(i + 1).last() == t);
                            if t < oldest {
                                oldest = t;
                            }
                            i = i + 1;
                        }
                        assert(snap.timestamps@.take(snap.timestamps@.len() as int)
                            =~= snap.timestamps@);
                        oldest as i128
                    },
                    AutoDeleteMode::AfterSilence => lm.timestamp_ms as i128,
                };
                clamp_delay(base + (self.duration_ms as i128) - (now_ms as i128))
            },
        }
    }
}

/// `x` clamped into the `u64` range.
fn clamp_delay(x: i128) -> (r: u64)
    ensures
        r == sat0_u64(x as int),
{
    if x < 0 {
        0
    } else if x > u64::MAX as i128 {
        u64::MAX
    } else {
        x as u64
    }
}

/// What a due timer does with a channel: skip when nothing new arrived
/// since the watermark, abort a still-active `AfterSilence` channel, and
/// otherwise collect candidates.
pub open spec fn spec_clean_decision(
    t: AutoDeleteTimer,
    last_message: Option<MessageRecord>,
    now_ms: i64,
) -> CleanAction {
    match last_message {
        None => CleanAction::SkipNoNewMessages,
        Some(lm) => {
            if lm.id == t.last_message_id_cleaned {
                CleanAction::SkipNoNewMessages
            } else if t.mode == AutoDeleteMode::AfterSilence && lm.timestamp_ms > now_ms
                - t.duration_ms {
                CleanAction::AbortAfterSilence
            } else {
                CleanAction::Collect
            }
        },
    }
}

/// Decides what a sweep of this timer should do, from the channel's most
/// recent message.
pub fn clean_decision(t: &AutoDeleteTimer, last_message: Option<MessageRecord>, now_ms: i64) -> (r:
    CleanAction)
    ensures
        r == spec_clean_decision(*t, last_message, now_ms),
{
    match last_message {
        None => CleanAction::SkipNoNewMessages,
        Some(lm) => {
            if lm.id == t.last_message_id_cleaned {
                CleanAction::SkipNoNewMessages
            } else if matches!(t.mode, AutoDeleteMode::AfterSilence) && (lm.timestamp_ms as i128)
                > (now_ms as i128) - (t.duration_ms as i128) {
                CleanAction::AbortAfterSilence
            } else {
                CleanAction::Collect
            }
        },
    }
}

/// Whether a message is old enough to delete.
pub open spec fn old_enough(m: MessageRecord, duration_ms: u64, now_ms: i64) -> bool {
    m.timestamp_ms + duration_ms <= now_ms
}

/// The deletion-candidate predicate, as one shared term.
pub open spec fn old_enough_pred(duration_ms: u64, now_ms: i64) -> spec_fn(MessageRecord) -> bool {
    |m: MessageRecord| old_enough(m, duration_ms, now_ms)
}

/// The due-timer predicate, as one shared term.
pub open spec fn due_pred(now_ms: i64) -> spec_fn(AutoDeleteTimer) -> bool {
    |t: AutoDeleteTimer| t.is_due(now_ms)
}

/// Collects the messages older than the timer's duration: the candidates
/// for deletion, in stream order.
pub fn select_messages_to_delete(
    messages: &Vec<MessageRecord>,
    duration_ms: u64,
    now_ms: i64,
) -> (r: Vec<MessageRecord>)
    ensures
        r@ == messages@.filter(old_enough_pred(duration_ms, now_ms)),
{
    let ghost pred = old_enough_pred(duration_ms, now_ms);
    let mut r: Vec<MessageRecord> = Vec::new();
    let mut i: usize = 0;
    assert(messages@.take(0) =~= Seq::<MessageRecord>::empty());
    assert(messages@.take(0).filter(pred) =~= Seq::<MessageRecord>::empty());
    while i < messages.len()
        invariant
            0 <= i <= messages@.len(),
            pred == old_enough_pred(duration_ms, now_ms),
            r@ == messages@.take(i as int).filter(pred),
        decreases messages@.len() - i,
    {
        let m = messages[i];
        assert(messages@.take(i + 1) =~= messages@.take(i as int).push(m));
        proof {
            messages@.take(i as int).lemma_filter_push(m, pred);
        }
        if (m.timestamp_ms as i128) + (duration_ms as i128) <= (now_ms as i128) {
            r.push(m);
        }
        i = i + 1;
    }
    assert(messages@.take(messages@.len() as int) =~= messages@);
    r
}

/// The number of set entries among the first `i` flags.
pub open spec fn count_flags(ok: Seq<bool>, v: bool) -> nat
    decreases ok.len(),
{
    if ok.len() == 0 {
        0
    } else {
        count_flags(ok.drop_last(), v) + (if ok.last() == v {
            1nat
        } else {
            0nat
        })
    }
}

/// The latest message among those whose deletion succeeded: the greatest
/// timestamp, with the later of two equals winning.
pub open spec fn spec_latest_deleted(ms: Seq<MessageRecord>, ok: Seq<bool>) -> Option<
    MessageRecord,
>
    decreases ms.len(),
{
    if ms.len() == 0 {
        None
    } else {
        let rest = spec_latest_deleted(ms.drop_last(), ok.drop_last());
        if ok.last() {
            match rest {
                None => Some(ms.last()),
                Some(best) => if ms.last().timestamp_ms >= best.timestamp_ms {
                    Some(ms.last())
                } else {
                    Some(best)
                },
            }
        } else {
            rest
        }
    }
}

/// Tallies one sweep's deletions: how many candidates were deleted, how
/// many failed, and the latest message actually deleted — the new
/// watermark. Per-message failures are tolerated and only counted.
pub fn summarize_deletions(candidates: &Vec<MessageRecord>, deleted: &Vec<bool>) -> (r:
    DeleteMessagesResult)
    requires
        candidates@.len() == deleted@.len(),
    ensures
        r.deletions == count_flags(deleted@, true),
        r.failures == count_flags(deleted@, false),
        r.skipped == 0,
        r.last_message_deleted == spec_latest_deleted(candidates@, deleted@),
{
    let mut deletions: usize = 0;
    let mut failures: usize = 0;
    let mut last: Option<MessageRecord> = None;
    let mut i: usize = 0;
    assert(candidates@.take(0) =~= Seq::<MessageRecord>::empty());
    assert(deleted@.take(0) =~= Seq::<bool>::empty());
    while i < candidates.len()
        invariant
            candidates@.len() == deleted@.len(),
            0 <= i <= candidates@.len(),
            deletions == count_flags(deleted@.take(i as int), true),
            failures == count_flags(deleted@.take(i as int), false),
            deletions + failures == i,
            last == spec_latest_deleted(candidates@.take(i as int), deleted@.take(i as int)),
        decreases candidates@.len() - i,
    {
        let m = candidates[i];
        let ok = deleted[i];
        assert(candidates@.take(i + 1).drop_last() =~= candidates@.take(i as int));
        assert(deleted@.take(i + 1).drop_last() =~= deleted@.take(i as int));
        assert(candidates@.take(i + 1).last() == m);
        assert(deleted@.take(i + 1).last() == ok);
        if ok {
            deletions = deletions + 1;
            last = match last {
                None => Some(m),
                Some(best) => if m.timestamp_ms >= best.timestamp_ms {
                    Some(m)
                } else {
                    Some(best)
                },
            };
        } else {
            failures = failures + 1;
        }
        i = i + 1;
    }
    assert(candidates@.take(candidates@.len() as int) =~= candidates@);
    assert(deleted@.take(deleted@.len() as int) =~= deleted@);
    DeleteMessagesResult { deletions, failures, skipped: 0, last_message_deleted: last }
}

/// The timer freshly written by a set command: full history in scope
/// (`last_cleaned` at the epoch, the watermark at its initial sentinel).
pub open spec fn fresh_timer(
    guild_id: u64,
    channel_id: u64,
    duration_ms: u64,
    mode: AutoDeleteMode,
) -> AutoDeleteTimer {
    AutoDeleteTimer {
        channel_id,
        guild_id,
        duration_ms,
        last_cleaned_ms: 0,
        last_message_id_cleaned: 1,
        mode,
    }
}

/// Whether some timer in `s` runs in channel `c`.
pub open spec fn has_channel(s: Seq<AutoDeleteTimer>, c: u64) -> bool {
    exists|i: int| 0 <= i < s.len() && s[i].channel_id == c
}

/// Whether `t` is one of the timers in `s`.
pub open spec fn contains_timer(s: Seq<AutoDeleteTimer>, t: AutoDeleteTimer) -> bool {
    exists|i: int| 0 <= i < s.len() && s[i] == t
}

/// What an upsert of `t` does to the stored timers, read as a map keyed by
/// channel: `t`'s channel now maps to `t` and every other channel is
/// untouched.
pub open spec fn upserted(
    pre: Seq<AutoDeleteTimer>,
    post: Seq<AutoDeleteTimer>,
    t: AutoDeleteTimer,
) -> bool {
    &&& contains_timer(post, t)
    &&& forall|j: int|
        0 <= j < post.len() && post[j].channel_id == t.channel_id ==> post[j] == t
    &&& forall|j: int|
        0 <= j < post.len() && post[j].channel_id != t.channel_id ==> contains_timer(pre, post[j])
    &&& forall|k: int|
        0 <= k < pre.len() && pre[k].channel_id != t.channel_id ==> contains_timer(post, pre[k])
    &&& forall|c: u64| has_channel(post, c) <==> (has_channel(pre, c) || c == t.channel_id)
}

/// What clearing channel `c` does to the stored timers: `c` no longer maps
/// to anything and every other channel is untouched.
pub open spec fn cleared(pre: Seq<AutoDeleteTimer>, post: Seq<AutoDeleteTimer>, c: u64) -> bool {
    &&& !has_channel(post, c)
    &&& forall|j: int| 0 <= j < post.len() ==> contains_timer(pre, post[j])
    &&& forall|k: int|
        0 <= k < pre.len() && pre[k].channel_id != c ==> contains_timer(post, pre[k])
}

/// The in-memory store of autodelete timers: the single source of truth
/// the scheduling loop consults, loaded from and mirrored to storage by the
/// shell.
pub struct AutoDeleteHandler {
    timers: Vec<AutoDeleteTimer>,
}

impl AutoDeleteHandler {
    /// The store's invariant: one timer per channel, every duration at
    /// least the configured minimum.
    pub closed spec fn wf(self) -> bool {
        &&& forall|i: int, j: int|
            0 <= i < j < self.timers@.len() ==> self.timers@[i].channel_id
                != self.timers@[j].channel_id
        &&& forall|i: int|
            0 <= i < self.timers@.len() ==> self.timers@[i].duration_ms
                >= MINIMUM_TIMER_DURATION_MS
    }

    /// The timers currently stored.
    pub closed spec fn spec_timers(self) -> Seq<AutoDeleteTimer> {
        self.timers@
    }

    /// An empty store.
    pub fn new() -> (r: AutoDeleteHandler)
        ensures
            r.wf(),
            r.spec_timers().len() == 0,
    {
        AutoDeleteHandler { timers: Vec::new() }
    }

    /// The store loaded from persisted records, later records replacing
    /// earlier ones with the same channel.
    pub fn from_records(records: Vec<AutoDeleteTimer>) -> (r: AutoDeleteHandler)
        requires
            forall|i: int|
                0 <= i < records@.len() ==> records@[i].duration_ms >= MINIMUM_TIMER_DURATION_MS,
        ensures
            r.wf(),
            forall|j: int|
                0 <= j < r.spec_timers().len() ==> contains_timer(records@, r.spec_timers()[j]),
            forall|i: int|
                0 <= i < records@.len() ==> has_channel(r.spec_timers(), records@[i].channel_id),
    {
        let mut r = AutoDeleteHandler { timers: Vec::new() };
        let mut i: usize = 0;
        while i < records.len()
            invariant
                r.wf(),
                0 <= i <= records@.len(),
                forall|k: int|
                    0 <= k < records@.len() ==> records@[k].duration_ms
                        >= MINIMUM_TIMER_DURATION_MS,
                forall|j: int|
                    0 <= j < r.spec_timers().len() ==> contains_timer(records@, r.spec_timers()[j]),
                forall|k: int|
                    0 <= k < i ==> has_channel(r.spec_timers(), records@[k].channel_id),
            decreases records@.len() - i,
        {
            let rec = records[i];
            r.upsert_timer(rec);
            i = i + 1;
        }
        r
    }

    /// Inserts the timer, replacing any existing timer for its channel.
    fn upsert_timer(&mut self, t: AutoDeleteTimer)
        requires
            old(self).wf(),
            t.duration_ms >= MINIMUM_TIMER_DURATION_MS,
        ensures
            final (self).wf(),
            upserted(old(self).spec_timers(), final (self).spec_timers(), t),
    {
        let n = self.timers.len();
        let mut i: usize = 0;
        while i < n
            invariant
                n == self.timers@.len(),
                0 <= i <= n,
                *self == *old(self),
                old(self).wf(),
                t.duration_ms >= MINIMUM_TIMER_DURATION_MS,
                forall|k: int| 0 <= k < i ==> self.timers@[k].channel_id != t.channel_id,
            decreases n - i,
        {
            if self.timers[i].channel_id == t.channel_id {
                self.timers.set(i, t);
                proof {
                    let pre = old(self).timers@;
                    let post = self.timers@;
                    assert(post == pre.update(i as int, t));
                    assert(post[i as int] == t);
                    assert forall|j: int|
                        0 <= j < post.len() && j != i implies post[j] == pre[j] by {}
                    assert forall|j: int|
                        0 <= j < post.len() && post[j].channel_id == t.channel_id implies post[j]
                        == t by {
                        if j != i {
                            assert(pre[j].channel_id != pre[i as int].channel_id);
                        }
                    }
                    assert forall|c: u64| has_channel(pre, c) implies has_channel(post, c) by {
                        let j = choose|j: int| 0 <= j < pre.len() && pre[j].channel_id == c;
                        if j == i {
                            assert(post[i as int].channel_id == t.channel_id);
                        } else {
                            assert(post[j].channel_id == c);
                        }
                    }
                    assert forall|c: u64| has_channel(post, c) implies has_channel(pre, c) || c
                        == t.channel_id by {
                        let j = choose|j: int| 0 <= j < post.len() && post[j].channel_id == c;
                        if j != i {
                            assert(pre[j].channel_id == c);
                        }
                    }
                    assert(has_channel(post, t.channel_id));
                }
                return ;
            }
            i = i + 1;
        }
        self.timers.push(t);
        proof {
            let pre = old(self).timers@;
            let post = self.timers@;
            assert(post == pre.push(t));
            assert(post[pre.len() as int] == t);
            assert forall|j: int| 0 <= j < pre.len() implies post[j] == pre[j] by {}
            assert forall|c: u64| has_channel(post, c) implies has_channel(pre, c) || c
                == t.channel_id by {
                let j = choose|j: int| 0 <= j < post.len() && post[j].channel_id == c;
                if j < pre.len() {
                    assert(pre[j].channel_id == c);
                }
            }
            assert forall|c: u64| has_channel(pre, c) implies has_channel(post, c) by {
                let j = choose|j: int| 0 <= j < pre.len() && pre[j].channel_id == c;
                assert(post[j].channel_id == c);
            }
            assert(has_channel(post, t.channel_id));
        }
    }

    /// Creates or replaces the timer for a channel, resetting its sweep
    /// state so the first sweep considers full history. The duration must
    /// already have passed the command-layer minimum check.
    pub fn set_autodelete(
        &mut self,
        guild_id: u64,
        channel_id: u64,
        duration_ms: u64,
        mode: AutoDeleteMode,
    )
        requires
            old(self).wf(),
            duration_ms >= MINIMUM_TIMER_DURATION_MS,
        ensures
            final (self).wf(),
            upserted(
                old(self).spec_timers(),
                final (self).spec_timers(),
                fresh_timer(guild_id, channel_id, duration_ms, mode),
            ),
            has_channel(final (self).spec_timers(), channel_id),
    {
        let t = AutoDeleteTimer {
            channel_id,
            guild_id,
            duration_ms,
            last_cleaned_ms: 0,
            last_message_id_cleaned: 1,
            mode,
        };
        self.upsert_timer(t);
    }

    /// Removes the timer for a channel. Returns true if there was a timer
    /// to delete, and false if nothing was deleted.
    pub fn clear_autodelete(&mut self, channel_id: u64) -> (r: bool)
        requires
            old(self).wf(),
        ensures
            final (self).wf(),
            r == has_channel(old(self).spec_timers(), channel_id),
            cleared(old(self).spec_timers(), final (self).spec_timers(), channel_id),
    {
        let n = self.timers.len();
        let mut i: usize = 0;
        while i < n
            invariant
                n == self.timers@.len(),
                0 <= i <= n,
                *self == *old(self),
                old(self).wf(),
                forall|k: int| 0 <= k < i ==> self.timers@[k].channel_id != channel_id,
            decreases n - i,
        {
            if self.timers[i].channel_id == channel_id {
                proof {
                    assert(has_channel(old(self).timers@, channel_id));
                }
                self.timers.remove(i);
                proof {
                    let pre = old(self).timers@;
                    let post = self.timers@;
                    assert(post == pre.remove(i as int));
                    assert forall|j: int| 0 <= j < post.len() implies contains_timer(
                        pre,
                        post[j],
                    ) by {
                        if j < i {
                            assert(post[j] == pre[j]);
                        } else {
                            assert(post[j] == pre[j + 1]);
                        }
                    }
                    assert forall|j: int| 0 <= j < post.len() implies post[j].channel_id
                        != channel_id by {
                        if j < i {
                            assert(post[j] == pre[j]);
                        } else {
                            assert(post[j] == pre[j + 1]);
                            assert(pre[i as int].channel_id == channel_id);
                        }
                    }
                    assert forall|k: int|
                        0 <= k < pre.len() && pre[k].channel_id != channel_id implies contains_timer(
                        post,
                        pre[k],
                    ) by {
                        if k < i {
                            assert(post[k] == pre[k]);
                        } else {
                            assert(k > i);
                            assert(post[k - 1] == pre[k]);
                        }
                    }
                    assert forall|a: int, b: int|
                        0 <= a < b < post.len() implies post[a].channel_id
                        != post[b].channel_id by {
                        let pa = if a < i {
                            a
                        } else {
                            a + 1
                        };
                        let pb = if b < i {
                            b
                        } else {
                            b + 1
                        };
                        assert(post[a] == pre[pa]);
                        assert(post[b] == pre[pb]);
                    }
                    assert forall|j: int| 0 <= j < post.len() implies post[j].duration_ms
                        >= MINIMUM_TIMER_DURATION_MS by {
                        if j < i {
                            assert(post[j] == pre[j]);
                        } else {
                            assert(post[j] == pre[j + 1]);
                        }
                    }
                }
                return true;
            }
            i = i + 1;
        }
        false
    }

    /// How many timers are stored.
    pub fn timer_count(&self) -> (n: usize)
        ensures
            n == self.spec_timers().len(),
    {
        self.timers.len()
    }

    /// The timers due at `now_ms`, in store order: the ones a sweep should
    /// fire.
    pub fn due_timers(&self, now_ms: i64) -> (r: Vec<AutoDeleteTimer>)
        ensures
            r@ == self.spec_timers().filter(due_pred(now_ms)),
    {
        let ghost pred = due_pred(now_ms);
        let mut r: Vec<AutoDeleteTimer> = Vec::new();
        let mut i: usize = 0;
        assert(self.timers@.take(0) =~= Seq::<AutoDeleteTimer>::empty());
        assert(self.timers@.take(0).filter(pred) =~= Seq::<AutoDeleteTimer>::empty());
        while i < self.timers.len()
            invariant
                0 <= i <= self.timers@.len(),
                pred == due_pred(now_ms),
                r@ == self.timers@.take(i as int).filter(pred),
            decreases self.timers@.len() - i,
        {
            let t = self.timers[i];
            assert(self.timers@.take(i + 1) =~= self.timers@.take(i as int).push(t));
            proof {
                self.timers@.take(i as int).lemma_filter_push(t, pred);
            }
            if t.should_check(now_ms) {
                r.push(t);
            }
            i = i + 1;
        }
        assert(self.timers@.take(self.timers@.len() as int) =~= self.timers@);
        r
    }

    /// Records the outcome of one sweep on the timer of `channel_id`:
    /// `last_cleaned` advances to `now_ms`, and the watermark moves to the
    /// latest deleted message, if any.
    pub fn record_cleanup(
        &mut self,
        channel_id: u64,
        last_deleted: Option<MessageRecord>,
        now_ms: i64,
    )
        requires
            old(self).wf(),
        ensures
            final (self).wf(),
            final (self).spec_timers().len() == old(self).spec_timers().len(),
            forall|j: int|
                0 <= j < old(self).spec_timers().len() && old(self).spec_timers()[j].channel_id
                    != channel_id ==> final (self).spec_timers()[j] == old(self).spec_timers()[j],
            forall|j: int|
                0 <= j < old(self).spec_timers().len() && old(self).spec_timers()[j].channel_id
                    == channel_id ==> final (self).spec_timers()[j] == cleaned_timer(
                    old(self).spec_timers()[j],
                    last_deleted,
                    now_ms,
                ),
    {
        let n = self.timers.len();
        let mut i: usize = 0;
        while i < n
            invariant
                n == self.timers@.len(),
                0 <= i <= n,
                *self == *old(self),
                old(self).wf(),
                forall|k: int| 0 <= k < i ==> self.timers@[k].channel_id != channel_id,
            decreases n - i,
        {
            if self.timers[i].channel_id == channel_id {
                let t = self.timers[i];
                let updated = AutoDeleteTimer {
                    last_cleaned_ms: now_ms,
                    last_message_id_cleaned: match last_deleted {
                        Some(m) => m.id,
                        None => t.last_message_id_cleaned,
                    },
                    ..t
                };
                self.timers.set(i, updated);
                proof {
                    let pre = old(self).timers@;
                    let post = self.timers@;
                    assert(post == pre.update(i as int, updated));
                    assert forall|j: int|
                        0 <= j < pre.len() && pre[j].channel_id == channel_id implies post[j]
                        == cleaned_timer(pre[j], last_deleted, now_ms) by {
                        if j != i {
                            assert(pre[j].channel_id != pre[i as int].channel_id);
                        }
                    }
                    assert forall|a: int, b: int|
                        0 <= a < b < post.len() implies post[a].channel_id
                        != post[b].channel_id by {
                        assert(post[a].channel_id == pre[a].channel_id);
                        assert(post[b].channel_id == pre[b].channel_id);
                    }
                    assert forall|j: int| 0 <= j < post.len() implies post[j].duration_ms
                        >= MINIMUM_TIMER_DURATION_MS by {
                        assert(post[j].duration_ms == pre[j].duration_ms);
                    }
                }
                return ;
            }
            i = i + 1;
        }
    }

    /// The scheduler's next sleep, folded over all timers from the maximum
    /// wait: a due timer contributes its freshly computed time-to-next-
    /// clean (or nothing, when its channel could not be read), a not-yet-
    /// due timer its remaining time until due.
    pub open spec fn spec_next_fire(
        timers: Seq<AutoDeleteTimer>,
        snaps: Seq<Option<ChannelSnapshot>>,
        now_ms: i64,
        i: int,
    ) -> int
        decreases i,
    {
        if i <= 0 {
            MAXIMUM_WAIT_TIME_MS as int
        } else {
            let acc = Self::spec_next_fire(timers, snaps, now_ms, i - 1);
            let t = timers[i - 1];
            if t.is_due(now_ms) {
                match snaps[i - 1] {
                    Some(snap) => min_int(t.spec_check_messages(snap, now_ms), acc),
                    None => acc,
                }
            } else {
                min_int(sat0_u64(t.last_cleaned_ms + t.duration_ms - now_ms), acc)
            }
        }
    }

    /// Computes how long the scheduling loop should sleep before the next
    /// sweep, given one channel snapshot per stored timer (`None` where the
    /// channel could not be read).
    pub fn get_next_fire(&self, snaps: &Vec<Option<ChannelSnapshot>>, now_ms: i64) -> (delay: u64)
        requires
            snaps@.len() == self.spec_timers().len(),
        ensures
            delay == Self::spec_next_fire(
                self.spec_timers(),
                snaps@,
                now_ms,
                self.spec_timers().len() as int,
            ),
            delay <= MAXIMUM_WAIT_TIME_MS,
    {
        let mut acc: u64 = MAXIMUM_WAIT_TIME_MS;
        let mut i: usize = 0;
        while i < self.timers.len()
            invariant
                snaps@.len() == self.timers@.len(),
                0 <= i <= self.timers@.len(),
                acc == Self::spec_next_fire(self.timers@, snaps@, now_ms, i as int),
                acc <= MAXIMUM_WAIT_TIME_MS,
            decreases self.timers@.len() - i,
        {
            let t = &self.timers[i];
            if t.should_check(now_ms) {
                match &snaps[i] {
                    Some(snap) => {
                        let d = t.check_messages(snap, now_ms);
                        if d < acc {
                            acc = d;
                        }
                    },
                    None => {},
                }
            } else {
                let remaining = clamp_delay(
                    (t.last_cleaned_ms as i128) + (t.duration_ms as i128) - (now_ms as i128),
                );
                if remaining < acc {
                    acc = remaining;
                }
            }
            i = i + 1;
        }
        acc
    }
}

/// The timer after one sweep: `last_cleaned` advanced to `now_ms` and the
/// watermark moved to the latest deleted message, if any.
pub open spec fn cleaned_timer(
    t: AutoDeleteTimer,
    last_deleted: Option<MessageRecord>,
    now_ms: i64,
) -> AutoDeleteTimer {
    AutoDeleteTimer {
        last_cleaned_ms: now_ms,
        last_message_id_cleaned: match last_deleted {
            Some(m) => m.id,
            None => t.last_message_id_cleaned,
        },
        ..t
    }
}

/// In `Always` mode, a channel none of whose messages are older than the
/// timer's duration yields no candidates: the sweep deletes nothing, and
/// recording it only advances `last_cleaned`.
pub proof fn lemma_no_old_messages_no_candidates(
    messages: Seq<MessageRecord>,
    duration_ms: u64,
    now_ms: i64,
)
    requires
        forall|i: int| 0 <= i < messages.len() ==> !old_enough(messages[i], duration_ms, now_ms),
    ensures
        messages.filter(old_enough_pred(duration_ms, now_ms)).len() == 0,
        forall|t: AutoDeleteTimer|
            cleaned_timer(t, None, now_ms).last_message_id_cleaned == t.last_message_id_cleaned
                && cleaned_timer(t, None, now_ms).last_cleaned_ms == now_ms,
{
    let pred = old_enough_pred(duration_ms, now_ms);
    assert forall|i: int| 0 <= i < messages.len() implies !pred(messages[i]) by {
        assert(!old_enough(messages[i], duration_ms, now_ms));
    }
    messages.lemma_all_neg_filter_empty(pred);
}

/// An `AfterSilence` timer whose channel's last message is younger than its
/// duration aborts the sweep: no deletion happens and no state moves.
pub proof fn lemma_young_channel_aborts_after_silence(
    t: AutoDeleteTimer,
    lm: MessageRecord,
    now_ms: i64,
)
    requires
        t.mode == AutoDeleteMode::AfterSilence,
        lm.id != t.last_message_id_cleaned,
        lm.timestamp_ms > now_ms - t.duration_ms,
    ensures
        spec_clean_decision(t, Some(lm), now_ms) == CleanAction::AbortAfterSilence,
{
}

} // verus!
