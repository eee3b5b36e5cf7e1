//! The logging subsystem's state: the per-guild logging-channel registry
//! and the ephemeral pause registry that silences chosen event kinds on a
//! channel while a bulk operation is in flight.

use vstd::prelude::*;

verus! {

/// The event kinds a pause can silence.
#[derive(Clone, Copy, Debug, PartialEq, Eq, Structural)]
pub enum PauseType {
    MessageDeleteBulk,
    MessageDelete,
}

/// The pauses in force for one channel.
#[derive(Clone, Debug)]
pub struct ChannelPauses {
    pub channel_id: u64,
    pub kinds: Vec<PauseType>,
}

/// At most one pause entry per channel.
pub open spec fn unique_pause_channels(s: Seq<ChannelPauses>) -> bool {
    forall|i: int, j: int|
        #![trigger s[i].channel_id, s[j].channel_id]
        0 <= i < j < s.len() ==> s[i].channel_id != s[j].channel_id
}

/// Whether some entry in `s` is for channel `c`.
pub open spec fn has_pause_entry(s: Seq<ChannelPauses>, c: u64) -> bool {
    exists|i: int| 0 <= i < s.len() && s[i].channel_id == c
}

/// Whether kind `k` is paused for channel `c` in the entries `s`.
pub open spec fn kind_paused(s: Seq<ChannelPauses>, c: u64, k: PauseType) -> bool {
    exists|i: int, j: int|
        0 <= i < s.len() && s[i].channel_id == c && 0 <= j < s[i].kinds@.len() && s[i].kinds@[j]
            == k
}

/// Keeps the ephemeral pause registry: channels with pauses on them. A
/// pause prevents logs from being created about the corresponding
/// `PauseType`.
pub struct LoggingHandler {
    pauses: Vec<ChannelPauses>,
}

impl LoggingHandler {
    /// The registry's invariant: at most one entry per channel.
    pub closed spec fn wf(self) -> bool {
        unique_pause_channels(self.pauses@)
    }

    /// The pause entries in force.
    pub closed spec fn spec_pauses(self) -> Seq<ChannelPauses> {
        self.pauses@
    }

    /// A handler with no pauses in force.
    pub fn new() -> (r: LoggingHandler)
        ensures
            r.wf(),
            r.spec_pauses().len() == 0,
    {
        LoggingHandler { pauses: Vec::new() }
    }

    /// Lifts all pauses from a channel. The caller announces the resume
    /// where a logging channel is configured.
    pub fn clear_pauses(&mut self, channel_id: u64)
        requires
            old(self).wf(),
        ensures
            final (self).wf(),
            !has_pause_entry(final (self).spec_pauses(), channel_id),
            forall|k: PauseType| !kind_paused(final (self).spec_pauses(), channel_id, k),
            forall|c: u64, k: PauseType|
                c != channel_id ==> (kind_paused(final (self).spec_pauses(), c, k) <==> kind_paused(
                    old(self).spec_pauses(),
                    c,
                    k,
                )),
    {
        let n = self.pauses.len();
        let mut i: usize = 0;
        while i < n
            invariant
                n == self.pauses@.len(),
                0 <= i <= n,
                *self == *old(self),
                old(self).wf(),
                forall|k: int| 0 <= k < i ==> self.pauses@[k].channel_id != channel_id,
            decreases n - i,
        {
            if self.pauses[i].channel_id == channel_id {
                self.pauses.remove(i);
                proof {
                    let pre = old(self).pauses@;
                    let post = self.pauses@;
                    assert(post == pre.remove(i as int));
                    assert forall|j: int| 0 <= j < post.len() implies post[j] == (if j < i {
                        pre[j]
                    } else {
                        pre[j + 1]
                    }) by {}
                    assert forall|j: int| 0 <= j < post.len() implies post[j].channel_id
                        != channel_id by {
                        if j < i {
                            assert(post[j] == pre[j]);
                        } else {
                            assert(post[j] == pre[j + 1]);
                            assert(pre[i as int].channel_id != pre[j + 1].channel_id);
                        }
                    }
                    assert forall|a: int, b: int|
                        #![trigger post[a].channel_id, post[b].channel_id]
                        0 <= a < b < post.len() implies post[a].channel_id
                        != post[b].channel_id by {
                        let pa: int = if a < i {
                            a
                        } else {
                            a + 1
                        };
                        let pb: int = if b < i {
                            b
                        } else {
                            b + 1
                        };
                        assert(post[a] == pre[pa]);
                        assert(post[b] == pre[pb]);
                        assert(pre[pa].channel_id != pre[pb].channel_id);
                    }
                    assert forall|c: u64, k: PauseType|
                        c != channel_id && kind_paused(pre, c, k) implies kind_paused(
                        post,
                        c,
                        k,
                    ) by {
                        let (a, b) = choose|a: int, b: int|
                            0 <= a < pre.len() && pre[a].channel_id == c && 0 <= b
                                < pre[a].kinds@.len() && pre[a].kinds@[b] == k;
                        if a < i {
                            assert(post[a] == pre[a]);
                            assert(post[a].kinds@[b] == k);
                        } else {
                            assert(a != i);
                            assert(post[a - 1] == pre[a]);
                            assert(post[a - 1].kinds@[b] == k);
                        }
                    }
                    assert forall|c: u64, k: PauseType|
                        c != channel_id && kind_paused(post, c, k) implies kind_paused(
                        pre,
                        c,
                        k,
                    ) by {
                        let (a, b) = choose|a: int, b: int|
                            0 <= a < post.len() && post[a].channel_id == c && 0 <= b
                                < post[a].kinds@.len() && post[a].kinds@[b] == k;
                        if a < i {
                            assert(pre[a] == post[a]);
                            assert(pre[a].kinds@[b] == k);
                        } else {
                            assert(pre[a + 1] == post[a]);
                            assert(pre[a + 1].kinds@[b] == k);
                        }
                    }
                }
                return ;
            }
            i = i + 1;
        }
    }

    /// Puts the given pauses on a channel, replacing any pauses it had.
    /// The caller announces the pause, with its advisory reason, where a
    /// logging channel is configured.
    pub fn set_pauses(&mut self, channel_id: u64, kinds: Vec<PauseType>)
        requires
            old(self).wf(),
        ensures
            final (self).wf(),
            forall|k: PauseType|
                kind_paused(final (self).spec_pauses(), channel_id, k) <==> exists|j: int|
                    0 <= j < kinds@.len() && kinds@[j] == k,
            forall|c: u64, k: PauseType|
                c != channel_id ==> (kind_paused(final (self).spec_pauses(), c, k) <==> kind_paused(
                    old(self).spec_pauses(),
                    c,
                    k,
                )),
    {
        self.clear_pauses(channel_id);
        let ghost mid = self.pauses@;
        let entry = ChannelPauses { channel_id, kinds };
        self.pauses.push(entry);
        proof {
            let post = self.pauses@;
            assert(post == mid.push(entry));
            assert(post[mid.len() as int] == entry);
            assert forall|j: int| 0 <= j < mid.len() implies post[j] == mid[j] by {}
            assert forall|a: int|
                0 <= a < post.len() && post[a].channel_id == channel_id implies a
                == mid.len() by {
                if a < mid.len() {
                    assert(mid[a].channel_id == channel_id);
                    assert(has_pause_entry(mid, channel_id));
                }
            }
            assert forall|a: int, b: int|
                #![trigger post[a].channel_id, post[b].channel_id]
                0 <= a < b < post.len() implies post[a].channel_id != post[b].channel_id by {
                if b < mid.len() {
                    assert(mid[a].channel_id != mid[b].channel_id);
                } else {
                    if post[a].channel_id == channel_id {
                        assert(has_pause_entry(mid, channel_id));
                    }
                }
            }
            assert forall|k: PauseType|
                kind_paused(post, channel_id, k) implies exists|j: int|
                    0 <= j < kinds@.len() && kinds@[j] == k by {
                let (a, b) = choose|a: int, b: int|
                    0 <= a < post.len() && post[a].channel_id == channel_id && 0 <= b
                        < post[a].kinds@.len() && post[a].kinds@[b] == k;
                assert(a == mid.len());
                assert(entry.kinds@[b] == k);
            }
            assert forall|k: PauseType|
                (exists|j: int| 0 <= j < kinds@.len() && kinds@[j] == k) implies kind_paused(
                post,
                channel_id,
                k,
            ) by {
                let j = choose|j: int| 0 <= j < kinds@.len() && kinds@[j] == k;
                assert(post[mid.len() as int].channel_id == channel_id);
                assert(post[mid.len() as int].kinds@[j] == k);
            }
            assert forall|c: u64, k: PauseType|
                c != channel_id && kind_paused(mid, c, k) implies kind_paused(post, c, k) by {
                let (a, b) = choose|a: int, b: int|
                    0 <= a < mid.len() && mid[a].channel_id == c && 0 <= b < mid[a].kinds@.len()
                        && mid[a].kinds@[b] == k;
                assert(post[a] == mid[a]);
                assert(post[a].kinds@[b] == k);
            }
            assert forall|c: u64, k: PauseType|
                c != channel_id && kind_paused(post, c, k) implies kind_paused(mid, c, k) by {
                let (a, b) = choose|a: int, b: int|
                    0 <= a < post.len() && post[a].channel_id == c && 0 <= b
                        < post[a].kinds@.len() && post[a].kinds@[b] == k;
                assert(a < mid.len());
                assert(mid[a] == post[a]);
                assert(mid[a].kinds@[b] == k);
            }
        }
    }

    /// Whether a log about event kind `kind` in channel `channel_id` must
    /// be filtered: the emitter sends nothing while a matching pause is in
    /// force.
    pub fn is_paused(&self, channel_id: u64, kind: PauseType) -> (r: bool)
        requires
            self.wf(),
        ensures
            r == kind_paused(self.spec_pauses(), channel_id, kind),
    {
        let n = self.pauses.len();
        let mut i: usize = 0;
        while i < n
            invariant
                self.wf(),
                n == self.pauses@.len(),
                0 <= i <= n,
                forall|k: int| 0 <= k < i ==> self.pauses@[k].channel_id != channel_id,
            decreases n - i,
        {
            if self.pauses[i].channel_id == channel_id {
                let kinds = &self.pauses[i].kinds;
                let m = kinds.len();
                let mut j: usize = 0;
                while j < m
                    invariant
                        n == self.pauses@.len(),
                        0 <= i < n,
                        self.pauses@[i as int].channel_id == channel_id,
                        m == self.pauses@[i as int].kinds@.len(),
                        0 <= j <= m,
                        kinds == &self.pauses@[i as int].kinds,
                        forall|b: int| 0 <= b < j ==> self.pauses@[i as int].kinds@[b] != kind,
                    decreases m - j,
                {
                    if kinds[j] == kind {
                        proof {
                            assert(self.pauses@[i as int].kinds@[j as int] == kind);
                        }
                        return true;
                    }
                    j = j + 1;
                }
                proof {
                    if kind_paused(self.pauses@, channel_id, kind) {
                        let (a, b) = choose|a: int, b: int|
                            0 <= a < self.pauses@.len() && self.pauses@[a].channel_id == channel_id
                                && 0 <= b < self.pauses@[a].kinds@.len()
                                && self.pauses@[a].kinds@[b] == kind;
                        if a != i {
                            assert(self.pauses@[a].channel_id
                                != self.pauses@[i as int].channel_id);
                        }
                    }
                }
                return false;
            }
            i = i + 1;
        }
        false
    }
}

/// The per-guild mapping to the channel where audit messages are sent. At
/// most one exists per guild; its absence means logging is disabled, which
/// emitters treat as a silent no-op.
#[derive(Clone, Copy, Debug)]
pub struct LoggingChannel {
    /// The guild id that owns this logging channel.
    pub guild_id: u64,
    /// The actual channel id to which logs will be sent.
    pub channel_id: u64,
}

impl LoggingChannel {
    /// A mapping from a guild to its logging channel.
    pub fn new(guild_id: u64, channel_id: u64) -> (r: LoggingChannel)
        ensures
            r.guild_id == guild_id,
            r.channel_id == channel_id,
    {
        LoggingChannel { guild_id, channel_id }
    }
}

/// At most one logging channel per guild.
pub open spec fn unique_guilds(s: Seq<LoggingChannel>) -> bool {
    forall|i: int, j: int|
        #![trigger s[i].guild_id, s[j].guild_id]
        0 <= i < j < s.len() ==> s[i].guild_id != s[j].guild_id
}

/// Whether some entry in `s` is for guild `g`.
pub open spec fn has_guild_entry(s: Seq<LoggingChannel>, g: u64) -> bool {
    exists|i: int| 0 <= i < s.len() && s[i].guild_id == g
}

/// Whether guild `g` logs to channel `c` according to `s`.
pub open spec fn guild_maps_to(s: Seq<LoggingChannel>, g: u64, c: u64) -> bool {
    exists|i: int| 0 <= i < s.len() && s[i].guild_id == g && s[i].channel_id == c
}

/// The registry of logging channels, one per guild, mirrored to storage by
/// the shell.
pub struct LoggingChannelRegistry {
    entries: Vec<LoggingChannel>,
}

impl LoggingChannelRegistry {
    /// The registry's invariant: at most one entry per guild.
    pub closed spec fn wf(self) -> bool {
        unique_guilds(self.entries@)
    }

    /// The entries currently stored.
    pub closed spec fn spec_entries(self) -> Seq<LoggingChannel> {
        self.entries@
    }

    /// An empty registry: logging disabled everywhere.
    pub fn new() -> (r: LoggingChannelRegistry)
        ensures
            r.wf(),
            r.spec_entries().len() == 0,
    {
        LoggingChannelRegistry { entries: Vec::new() }
    }

    /// Deletes a guild's mapping if present; returns whether anything was
    /// deleted, so the caller can report "nothing to do" against
    /// "disabled".
    pub fn clear(&mut self, guild_id: u64) -> (r: bool)
        requires
            old(self).wf(),
        ensures
            final (self).wf(),
            r == has_guild_entry(old(self).spec_entries(), guild_id),
            !has_guild_entry(final (self).spec_entries(), guild_id),
            forall|g: u64, c: u64|
                g != guild_id ==> (guild_maps_to(final (self).spec_entries(), g, c)
                    <==> guild_maps_to(old(self).spec_entries(), g, c)),
    {
        let n = self.entries.len();
        let mut i: usize = 0;
        while i < n
            invariant
                n == self.entries@.len(),
                0 <= i <= n,
                *self == *old(self),
                old(self).wf(),
                forall|k: int| 0 <= k < i ==> self.entries@[k].guild_id != guild_id,
            decreases n - i,
        {
            if self.entries[i].guild_id == guild_id {
                proof {
                    assert(has_guild_entry(self.entries@, guild_id));
                }
                self.entries.remove(i);
                proof {
                    let pre = old(self).entries@;
                    let post = self.entries@;
                    assert(post == pre.remove(i as int));
                    assert forall|j: int| 0 <= j < post.len() implies post[j] == (if j < i {
                        pre[j]
                    } else {
                        pre[j + 1]
                    }) by {}
                    assert forall|j: int| 0 <= j < post.len() implies post[j].guild_id
                        != guild_id by {
                        if j >= i {
                            assert(pre[i as int].guild_id != pre[j + 1].guild_id);
                        }
                    }
                    assert forall|a: int, b: int|
                        #![trigger post[a].guild_id, post[b].guild_id]
                        0 <= a < b < post.len() implies post[a].guild_id != post[b].guild_id by {
                        let pa: int = if a < i {
                            a
                        } else {
                            a + 1
                        };
                        let pb: int = if b < i {
                            b
                        } else {
                            b + 1
                        };
                        assert(post[a] == pre[pa]);
                        assert(post[b] == pre[pb]);
                        assert(pre[pa].guild_id != pre[pb].guild_id);
                    }
                    assert forall|g: u64, c: u64|
                        g != guild_id && guild_maps_to(pre, g, c) implies guild_maps_to(
                        post,
                        g,
                        c,
                    ) by {
                        let a = choose|a: int|
                            0 <= a < pre.len() && pre[a].guild_id == g && pre[a].channel_id == c;
                        if a < i {
                            assert(post[a] == pre[a]);
                        } else {
                            assert(a != i);
                            assert(post[a - 1] == pre[a]);
                        }
                    }
                    assert forall|g: u64, c: u64|
                        g != guild_id && guild_maps_to(post, g, c) implies guild_maps_to(
                        pre,
                        g,
                        c,
                    ) by {
                        let a = choose|a: int|
                            0 <= a < post.len() && post[a].guild_id == g && post[a].channel_id
                                == c;
                        if a < i {
                            assert(pre[a] == post[a]);
                        } else {
                            assert(pre[a + 1] == post[a]);
                        }
                    }
                }
                return true;
            }
            i = i + 1;
        }
        false
    }

    /// Upserts the mapping from a guild to its logging channel.
    pub fn set(&mut self, guild_id: u64, channel_id: u64)
        requires
            old(self).wf(),
        ensures
            final (self).wf(),
            guild_maps_to(final (self).spec_entries(), guild_id, channel_id),
            forall|c: u64|
                c != channel_id ==> !guild_maps_to(final (self).spec_entries(), guild_id, c),
            forall|g: u64, c: u64|
                g != guild_id ==> (guild_maps_to(final (self).spec_entries(), g, c)
                    <==> guild_maps_to(old(self).spec_entries(), g, c)),
    {
        self.clear(guild_id);
        let ghost mid = self.entries@;
        let entry = LoggingChannel { guild_id, channel_id };
        self.entries.push(entry);
        proof {
            let post = self.entries@;
            assert(post == mid.push(entry));
            assert(post[mid.len() as int] == entry);
            assert forall|j: int| 0 <= j < mid.len() implies post[j] == mid[j] by {}
            assert forall|a: int|
                0 <= a < post.len() && post[a].guild_id == guild_id implies a == mid.len() by {
                if a < mid.len() {
                    assert(mid[a].guild_id == guild_id);
                    assert(has_guild_entry(mid, guild_id));
                }
            }
            assert forall|a: int, b: int|
                #![trigger post[a].guild_id, post[b].guild_id]
                0 <= a < b < post.len() implies post[a].guild_id != post[b].guild_id by {
                if b < mid.len() {
                    assert(mid[a].guild_id != mid[b].guild_id);
                } else {
                    if post[a].guild_id == guild_id {
                        assert(has_guild_entry(mid, guild_id));
                    }
                }
            }
            assert(guild_maps_to(post, guild_id, channel_id)) by {
                assert(post[mid.len() as int].guild_id == guild_id);
            }
            assert forall|c: u64| c != channel_id implies !guild_maps_to(
                post,
                guild_id,
                c,
            ) by {
                if guild_maps_to(post, guild_id, c) {
                    let a = choose|a: int|
                        0 <= a < post.len() && post[a].guild_id == guild_id && post[a].channel_id
                            == c;
                    assert(a == mid.len());
                }
            }
            assert forall|g: u64, c: u64|
                g != guild_id && guild_maps_to(mid, g, c) implies guild_maps_to(post, g, c) by {
                let a = choose|a: int|
                    0 <= a < mid.len() && mid[a].guild_id == g && mid[a].channel_id == c;
                assert(post[a] == mid[a]);
            }
            assert forall|g: u64, c: u64|
                g != guild_id && guild_maps_to(post, g, c) implies guild_maps_to(mid, g, c) by {
                let a = choose|a: int|
                    0 <= a < post.len() && post[a].guild_id == g && post[a].channel_id == c;
                assert(a < mid.len());
                assert(mid[a] == post[a]);
            }
        }
    }

    /// The channel a guild logs to, or `None` when logging is disabled
    /// there.
    pub fn get(&self, guild_id: u64) -> (r: Option<u64>)
        requires
            self.wf(),
        ensures
            match r {
                Some(c) => guild_maps_to(self.spec_entries(), guild_id, c),
                None => !has_guild_entry(self.spec_entries(), guild_id),
            },
    {
        let n = self.entries.len();
        let mut i: usize = 0;
        while i < n
            invariant
                n == self.entries@.len(),
                0 <= i <= n,
                forall|k: int| 0 <= k < i ==> self.entries@[k].guild_id != guild_id,
            decreases n - i,
        {
            if self.entries[i].guild_id == guild_id {
                return Some(self.entries[i].channel_id);
            }
            i = i + 1;
        }
        None
    }
}

/// Renders a flag as "yes" or "no" for an audit line.
pub fn yes_no_bool(b: bool) -> (r: &'static str)
    ensures
        b ==> r@ == "yes"@,
        !b ==> r@ == "no"@,
{
    if b {
        "yes"
    } else {
        "no"
    }
}

/// Renders a flag as "enabled" or "disabled" for an audit line.
pub fn enabled_bool(b: bool) -> (r: &'static str)
    ensures
        b ==> r@ == "enabled"@,
        !b ==> r@ == "disabled"@,
{
    if b {
        "enabled"
    } else {
        "disabled"
    }
}

} // verus!
