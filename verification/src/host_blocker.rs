//! Per-destination circuit breaker.
//!
//! Points in time are nanoseconds since a fixed start; durations are milliseconds. The factor by
//! which a cooldown grows is applied by the caller, who reads `cooldown_ms` and hands the grown
//! value to `record_transport_failure`; the cap is applied here.

use crate::outside::{effective_port, keeps_its_host, origin_text, parse_url, url_parts, UrlParts};
use crate::text::{
    contains_text, decimal, decimal_text, find, lemma_cut_before_port, lemma_decimal,
    lemma_decimal_injective, lemma_find_from, occurs_at, same_text, trim, trim_back, trim_front,
    trim_whitespace, view_of, CharClass,
};
use vstd::arithmetic::power2::{lemma2_to64, lemma_pow2_pos, lemma_pow2_unfold, pow2};
use vstd::prelude::*;

verus! {

/// When a destination is blocked, and for how long.
#[derive(Debug, Clone, Copy)]
pub struct HostBlockerConfig {
    /// How many transport failures in a row block a host.
    pub failures_before_block: u32,
    /// How long the first block lasts.
    pub initial_cooldown_ms: u64,
    /// What a grown cooldown is capped at.
    pub max_cooldown_ms: u64,
}

impl Default for HostBlockerConfig {
    fn default() -> (res: Self)
        ensures
            res.failures_before_block == 3,
            res.initial_cooldown_ms == 30_000,
            res.max_cooldown_ms == 900_000,
    {
        HostBlockerConfig {
            failures_before_block: 3,
            initial_cooldown_ms: 30_000,
            max_cooldown_ms: 900_000,
        }
    }
}

/// What is known of a host that has failed or was blocked by hand.
#[derive(Debug, Clone, Copy)]
pub struct HostState {
    /// Transport failures since the last success.
    pub failures: u32,
    /// When the block ends, where there was one.
    pub blocked_until: Option<u128>,
    /// How long the next block will last.
    pub cooldown_ms: u64,
}

/// A host and what is known of it.
pub struct HostEntry {
    key: String,
    state: HostState,
}

/// The hosts that have failed, and which of them are blocked.
pub struct HostBlocker {
    cfg: HostBlockerConfig,
    hosts: Vec<HostEntry>,
}

/// Whether no two entries are of one host.
pub closed spec fn distinct_hosts(hosts: Seq<HostEntry>) -> bool {
    forall|i: int, j: int|
        0 <= i < j < hosts.len() ==> #[trigger] hosts[i].key@ != #[trigger] hosts[j].key@
}

/// Whether entry `i` is of the host `key`.
pub closed spec fn is_entry_of(hosts: Seq<HostEntry>, i: int, key: Seq<char>) -> bool {
    0 <= i < hosts.len() && hosts[i].key@ == key
}

/// The entries by host.
pub closed spec fn host_table(hosts: Seq<HostEntry>) -> Map<Seq<char>, HostState> {
    Map::new(
        |key: Seq<char>| exists|i: int| is_entry_of(hosts, i, key),
        |key: Seq<char>| hosts[choose|i: int| is_entry_of(hosts, i, key)].state,
    )
}

/// The text that stands for a host: scheme, host and effective port.
pub open spec fn key_text(scheme: Seq<char>, host: Seq<char>, port: Option<u16>) -> Seq<char> {
    origin_text(scheme, host, effective_port(scheme, port))
}

/// The key of the host that the parts of a URL name.
pub open spec fn parts_key(parts: Option<(Seq<char>, Option<Seq<char>>, Option<u16>)>) -> Option<
    Seq<char>,
> {
    match parts {
        Some((scheme, Some(host), port)) => Some(key_text(scheme, host, port)),
        _ => None,
    }
}

/// The key of the host that a URL names.
pub open spec fn url_key(url: Seq<char>) -> Option<Seq<char>> {
    parts_key(url_parts(url))
}

/// Whether a host in this state is blocked at `now`.
pub open spec fn blocked_at(state: HostState, now: u64) -> bool {
    state.blocked_until matches Some(until) && now < until
}

/// The end of a block of `wait_ms` that begins at `now`.
pub open spec fn block_end(now: u64, wait_ms: u64) -> u128 {
    (now + wait_ms * 1_000_000) as u128
}

/// The whole milliseconds from `now` to `until`.
pub open spec fn remaining_ms(until: u128, now: u64) -> u64 {
    ((until - now) / 1_000_000) as u64
}

/// What is known of a host before a failure is counted: nothing has failed yet where it is new.
pub open spec fn state_or_new(
    hosts: Map<Seq<char>, HostState>,
    key: Seq<char>,
    cfg: HostBlockerConfig,
) -> HostState {
    if hosts.contains_key(key) {
        hosts[key]
    } else {
        HostState { failures: 0, blocked_until: None, cooldown_ms: cfg.initial_cooldown_ms }
    }
}

/// Whether one more failure of a host can be counted.
pub open spec fn can_count(hosts: Map<Seq<char>, HostState>, key: Seq<char>) -> bool {
    hosts.contains_key(key) ==> hosts[key].failures < u32::MAX
}

/// How many milliseconds one more failure of a host in this state blocks it for, where it does.
pub open spec fn failure_block(state: HostState, cfg: HostBlockerConfig) -> Option<u64> {
    if state.failures + 1 >= cfg.failures_before_block {
        Some(state.cooldown_ms)
    } else {
        None
    }
}

/// What is known of a host after one more failure. From the configured number of failures on,
/// each blocks the host for its cooldown and replaces that by the grown one, capped.
pub open spec fn after_failure(
    state: HostState,
    cfg: HostBlockerConfig,
    now: u64,
    grown_cooldown_ms: u64,
) -> HostState {
    let failures = (state.failures + 1) as u32;
    if failures >= cfg.failures_before_block {
        HostState {
            failures,
            blocked_until: Some(block_end(now, state.cooldown_ms)),
            cooldown_ms: if grown_cooldown_ms < cfg.max_cooldown_ms {
                grown_cooldown_ms
            } else {
                cfg.max_cooldown_ms
            },
        }
    } else {
        HostState { failures, ..state }
    }
}

/// What is known of a host that an operator blocks: for at least a second, as if it had failed
/// often enough.
pub open spec fn manual_state(cfg: HostBlockerConfig, now: u64, duration_ms: u64) -> HostState {
    let wait_ms: u64 = if duration_ms < 1_000 {
        1_000
    } else {
        duration_ms
    };
    HostState {
        failures: cfg.failures_before_block,
        blocked_until: Some(block_end(now, wait_ms)),
        cooldown_ms: duration_ms,
    }
}

/// The key under which an operator blocks `host`, a URL or a key.
pub open spec fn block_key(host: Seq<char>) -> Seq<char> {
    if find(host, "://"@) is Some && url_key(host) is Some {
        url_key(host)->0
    } else {
        trim(host, CharClass::Whitespace)
    }
}

/// The key under which an operator unblocks `host`, a URL or a key.
pub open spec fn unblock_key(host: Seq<char>) -> Seq<char> {
    if find(host, "://"@) is Some && url_key(host) is Some {
        url_key(host)->0
    } else {
        host
    }
}

/// The hosts that are blocked at `now`, each with the milliseconds that are left.
pub open spec fn blocked_table(hosts: Map<Seq<char>, HostState>, now: u64) -> Map<Seq<char>, u64> {
    Map::new(
        |key: Seq<char>| hosts.contains_key(key) && blocked_at(hosts[key], now),
        |key: Seq<char>| remaining_ms(hosts[key].blocked_until->0, now),
    )
}

/// Whether a list holds each entry of a table once, and nothing else.
pub open spec fn lists_table(list: Seq<(String, u64)>, table: Map<Seq<char>, u64>) -> bool {
    &&& forall|i: int|
        0 <= i < list.len() ==> table.contains_key(#[trigger] list[i].0@) && table[list[i].0@]
            == list[i].1
    &&& forall|i: int, j: int|
        0 <= i < j < list.len() ==> #[trigger] list[i].0@ != #[trigger] list[j].0@
    &&& forall|key: Seq<char>|
        #[trigger] table.contains_key(key) ==> exists|i: int|
            0 <= i < list.len() && #[trigger] list[i].0@ == key
}

proof fn lemma_table(hosts: Seq<HostEntry>)
    requires
        distinct_hosts(hosts),
    ensures
        forall|i: int|
            0 <= i < hosts.len() ==> host_table(hosts).contains_key(#[trigger] hosts[i].key@)
                && host_table(hosts)[hosts[i].key@] == hosts[i].state,
        forall|key: Seq<char>| #[trigger]
            host_table(hosts).contains_key(key) ==> exists|i: int| is_entry_of(hosts, i, key),
{
    assert forall|i: int| 0 <= i < hosts.len() implies host_table(hosts).contains_key(
        #[trigger] hosts[i].key@,
    ) && host_table(hosts)[hosts[i].key@] == hosts[i].state by {
        assert(is_entry_of(hosts, i, hosts[i].key@));
        let k = choose|k: int| is_entry_of(hosts, k, hosts[i].key@);
        assert(is_entry_of(hosts, k, hosts[i].key@));
        assert(hosts[k].key@ == hosts[i].key@);
        assert(k == i);
    }
}

proof fn lemma_table_push(hosts: Seq<HostEntry>, entry: HostEntry)
    requires
        distinct_hosts(hosts),
        forall|i: int| 0 <= i < hosts.len() ==> #[trigger] hosts[i].key@ != entry.key@,
    ensures
        distinct_hosts(hosts.push(entry)),
        host_table(hosts.push(entry)) == host_table(hosts).insert(entry.key@, entry.state),
        !host_table(hosts).contains_key(entry.key@),
{
    let after = hosts.push(entry);
    lemma_table(hosts);
    assert(distinct_hosts(after));
    lemma_table(after);
    assert(after[hosts.len() as int] == entry);
    assert forall|key: Seq<char>| host_table(hosts).contains_key(key) implies #[trigger] host_table(
        after,
    ).contains_key(key) && host_table(after)[key] == host_table(hosts)[key] by {
        let i = choose|i: int| is_entry_of(hosts, i, key);
        assert(is_entry_of(hosts, i, key));
        assert(after[i] == hosts[i]);
        assert(host_table(after).contains_key(after[i].key@));
    }
    assert forall|key: Seq<char>| #[trigger] host_table(after).contains_key(key) implies host_table(
        hosts,
    ).contains_key(key) || key == entry.key@ by {
        let i = choose|i: int| is_entry_of(after, i, key);
        assert(is_entry_of(after, i, key));
        if i < hosts.len() {
            assert(after[i] == hosts[i]);
            assert(host_table(hosts).contains_key(hosts[i].key@));
        }
    }
    assert(host_table(after) =~= host_table(hosts).insert(entry.key@, entry.state));
}

proof fn lemma_table_update(hosts: Seq<HostEntry>, at: int, entry: HostEntry)
    requires
        distinct_hosts(hosts),
        0 <= at < hosts.len(),
        entry.key@ == hosts[at].key@,
    ensures
        distinct_hosts(hosts.update(at, entry)),
        host_table(hosts.update(at, entry)) == host_table(hosts).insert(entry.key@, entry.state),
{
    let after = hosts.update(at, entry);
    lemma_table(hosts);
    assert forall|i: int| 0 <= i < after.len() implies #[trigger] after[i].key@ == hosts[i].key@ by {}
    assert(distinct_hosts(after)) by {
        assert forall|i: int, j: int| 0 <= i < j < after.len() implies #[trigger] after[i].key@
            != #[trigger] after[j].key@ by {
            assert(hosts[i].key@ != hosts[j].key@);
        }
    }
    lemma_table(after);
    assert forall|key: Seq<char>|
        host_table(hosts).insert(entry.key@, entry.state).contains_key(key) implies #[trigger] host_table(
        after,
    ).contains_key(key) && host_table(after)[key] == host_table(hosts).insert(
        entry.key@,
        entry.state,
    )[key] by {
        if key == entry.key@ {
            assert(host_table(after).contains_key(after[at].key@));
        } else {
            let i = choose|i: int| is_entry_of(hosts, i, key);
            assert(is_entry_of(hosts, i, key));
            assert(after[i] == hosts[i]);
            assert(host_table(after).contains_key(after[i].key@));
        }
    }
    assert forall|key: Seq<char>| #[trigger] host_table(after).contains_key(key) implies host_table(
        hosts,
    ).contains_key(key) by {
        let i = choose|i: int| is_entry_of(after, i, key);
        assert(is_entry_of(after, i, key));
        assert(host_table(hosts).contains_key(hosts[i].key@));
    }
    assert(host_table(after) =~= host_table(hosts).insert(entry.key@, entry.state));
}

proof fn lemma_table_remove(hosts: Seq<HostEntry>, at: int)
    requires
        distinct_hosts(hosts),
        0 <= at < hosts.len(),
    ensures
        distinct_hosts(hosts.remove(at)),
        host_table(hosts.remove(at)) == host_table(hosts).remove(hosts[at].key@),
        host_table(hosts).contains_key(hosts[at].key@),
{
    let after = hosts.remove(at);
    let gone = hosts[at].key@;
    lemma_table(hosts);
    assert(distinct_hosts(after)) by {
        assert forall|i: int, j: int| 0 <= i < j < after.len() implies #[trigger] after[i].key@
            != #[trigger] after[j].key@ by {
            let a = if i < at { i } else { i + 1 };
            let b = if j < at { j } else { j + 1 };
            assert(after[i] == hosts[a] && after[j] == hosts[b]);
            assert(hosts[a].key@ != hosts[b].key@);
        }
    }
    lemma_table(after);
    assert forall|key: Seq<char>| host_table(hosts).remove(gone).contains_key(key) implies #[trigger] host_table(
        after,
    ).contains_key(key) && host_table(after)[key] == host_table(hosts)[key] by {
        let i = choose|i: int| is_entry_of(hosts, i, key);
        assert(is_entry_of(hosts, i, key));
        let b = if i < at { i } else { i - 1 };
        assert(after[b] == hosts[i]);
        assert(host_table(after).contains_key(after[b].key@));
    }
    assert forall|key: Seq<char>| #[trigger] host_table(after).contains_key(key) implies host_table(
        hosts,
    ).contains_key(key) && key != gone by {
        let i = choose|i: int| is_entry_of(after, i, key);
        assert(is_entry_of(after, i, key));
        let a = if i < at { i } else { i + 1 };
        assert(after[i] == hosts[a]);
        assert(host_table(hosts).contains_key(hosts[a].key@));
        if a < at {
            assert(hosts[a].key@ != hosts[at].key@);
        } else {
            assert(hosts[at].key@ != hosts[a].key@);
        }
    }
    assert(host_table(after) =~= host_table(hosts).remove(gone));
}

impl HostBlocker {
    /// The invariant: one entry per host.
    pub closed spec fn wf(&self) -> bool {
        distinct_hosts(self.hosts@)
    }

    /// What is known of each host.
    pub closed spec fn view(&self) -> Map<Seq<char>, HostState> {
        host_table(self.hosts@)
    }

    /// The configuration.
    pub closed spec fn config(&self) -> HostBlockerConfig {
        self.cfg
    }

    /// A breaker that knows of no host.
    pub fn new(cfg: HostBlockerConfig) -> (res: Self)
        ensures
            res.wf(),
            res.config() == cfg,
            res@ == Map::<Seq<char>, HostState>::empty(),
    {
        let res = HostBlocker { cfg, hosts: Vec::new() };
        proof {
            lemma_table(res.hosts@);
            assert(res@ =~= Map::<Seq<char>, HostState>::empty());
        }
        res
    }

    /// The key of the host that a URL names: `https://example.com/x` has
    /// `https://example.com:443`. `None` where the text is no URL or has no host. The key of a web
    /// URL is a URL with that key, unless its host is an internationalised name that was not
    /// written in ASCII.
    pub fn host_key(url: &str) -> (res: Option<String>)
        ensures
            view_of(res) == url_key(url@),
            keeps_its_host(url@, url_parts(url@)) ==> (res matches Some(key) && url_key(key@) == Some(
                key@,
            )),
    {
        Self::host_key_of(parse_url(url))
    }

    /// The key of the host that the parts of a URL name.
    pub fn host_key_of(parts: Option<UrlParts>) -> (res: Option<String>)
        ensures
            view_of(res) == parts_key(
                match parts {
                    Some(p) => Some((p.scheme@, view_of(p.host), p.port)),
                    None => None,
                },
            ),
    {
        let parts: UrlParts = match parts {
            Some(p) => p,
            None => return None,
        };
        let host: String = match parts.host {
            Some(h) => h,
            None => return None,
        };
        let port: u16 = match parts.port {
            Some(p) => p,
            None => if same_text(parts.scheme.as_str(), "https") {
                443
            } else {
                80
            },
        };
        let mut key: String = parts.scheme;
        key.append("://");
        key.append(host.as_str());
        key.append(":");
        key.append(decimal_text(port as u64).as_str());
        Some(key)
    }

    /// Where the entry of a host stands.
    fn position(&self, key: &str) -> (res: Option<usize>)
        ensures
            match res {
                Some(i) => i < self.hosts@.len() && self.hosts@[i as int].key@ == key@,
                None => forall|i: int|
                    0 <= i < self.hosts@.len() ==> #[trigger] self.hosts@[i].key@ != key@,
            },
    {
        let mut i: usize = 0;
        while i < self.hosts.len()
            invariant
                i <= self.hosts@.len(),
                forall|j: int| 0 <= j < i ==> #[trigger] self.hosts@[j].key@ != key@,
            decreases self.hosts@.len() - i,
        {
            if same_text(self.hosts[i].key.as_str(), key) {
                return Some(i);
            }
            i = i + 1;
        }
        None
    }

    /// What is known of a host.
    pub fn state_of(&self, key: &str) -> (res: Option<HostState>)
        requires
            self.wf(),
        ensures
            match res {
                Some(state) => self@.contains_key(key@) && self@[key@] == state,
                None => !self@.contains_key(key@),
            },
    {
        proof {
            lemma_table(self.hosts@);
        }
        match self.position(key) {
            Some(i) => Some(self.hosts[i].state),
            None => None,
        }
    }

    /// Whether the host `key` is blocked at `now`.
    pub fn is_key_blocked(&self, key: &str, now: u64) -> (res: bool)
        requires
            self.wf(),
        ensures
            res == (self@.contains_key(key@) && blocked_at(self@[key@], now)),
    {
        match self.state_of(key) {
            Some(state) => match state.blocked_until {
                Some(until) => (now as u128) < until,
                None => false,
            },
            None => false,
        }
    }

    /// Whether the host that a URL names is blocked at `now`. A text that names none is not.
    pub fn is_blocked(&self, url: &str, now: u64) -> (res: bool)
        requires
            self.wf(),
        ensures
            res == (url_key(url@) matches Some(key) && self@.contains_key(key) && blocked_at(
                self@[key],
                now,
            )),
    {
        match Self::host_key(url) {
            Some(key) => self.is_key_blocked(key.as_str(), now),
            None => false,
        }
    }

    /// Replaces what is known of a host.
    fn put(&mut self, key: String, state: HostState)
        requires
            old(self).wf(),
        ensures
            final(self).wf(),
            final(self).config() == old(self).config(),
            final(self)@ == old(self)@.insert(key@, state),
    {
        match self.position(key.as_str()) {
            Some(i) => {
                proof {
                    lemma_table_update(self.hosts@, i as int, HostEntry { key, state });
                }
                self.hosts.set(i, HostEntry { key, state });
            },
            None => {
                proof {
                    lemma_table_push(self.hosts@, HostEntry { key, state });
                }
                self.hosts.push(HostEntry { key, state });
            },
        }
    }

    /// Forgets a host, and says whether it was known.
    pub fn forget(&mut self, key: &str) -> (res: bool)
        requires
            old(self).wf(),
        ensures
            final(self).wf(),
            final(self).config() == old(self).config(),
            final(self)@ == old(self)@.remove(key@),
            res == old(self)@.contains_key(key@),
    {
        match self.position(key) {
            Some(i) => {
                proof {
                    lemma_table_remove(self.hosts@, i as int);
                }
                let _removed: HostEntry = self.hosts.remove(i);
                true
            },
            None => {
                proof {
                    lemma_table(self.hosts@);
                    assert(self@.remove(key@) =~= self@);
                }
                false
            },
        }
    }

    /// Counts a success of the host that a URL names: nothing is held against it any more.
    pub fn record_success(&mut self, url: &str)
        requires
            old(self).wf(),
        ensures
            final(self).wf(),
            final(self).config() == old(self).config(),
            final(self)@ == match url_key(url@) {
                Some(key) => old(self)@.remove(key),
                None => old(self)@,
            },
    {
        if let Some(key) = Self::host_key(url) {
            let _known: bool = self.forget(key.as_str());
        }
    }

    /// How long the next block of the host `key` will last.
    pub fn key_cooldown_ms(&self, key: &str) -> (res: u64)
        requires
            self.wf(),
        ensures
            res == state_or_new(self@, key@, self.config()).cooldown_ms,
    {
        match self.state_of(key) {
            Some(state) => state.cooldown_ms,
            None => self.cfg.initial_cooldown_ms,
        }
    }

    /// How long the next block of the host that a URL names will last; `None` where it names none.
    pub fn cooldown_ms(&self, url: &str) -> (res: Option<u64>)
        requires
            self.wf(),
        ensures
            res == match url_key(url@) {
                Some(key) => Some(state_or_new(self@, key, self.config()).cooldown_ms),
                None => None,
            },
    {
        match Self::host_key(url) {
            Some(key) => Some(self.key_cooldown_ms(key.as_str())),
            None => None,
        }
    }

    /// Counts a transport failure of the host `key` at `now`. Returns how many milliseconds the
    /// failure blocks it for, or `None` where it does not.
    pub fn record_key_failure(&mut self, key: String, now: u64, grown_cooldown_ms: u64) -> (res:
        Option<u64>)
        requires
            old(self).wf(),
            can_count(old(self)@, key@),
        ensures
            final(self).wf(),
            final(self).config() == old(self).config(),
            final(self)@ == old(self)@.insert(
                key@,
                after_failure(
                    state_or_new(old(self)@, key@, old(self).config()),
                    old(self).config(),
                    now,
                    grown_cooldown_ms,
                ),
            ),
            res == failure_block(
                state_or_new(old(self)@, key@, old(self).config()),
                old(self).config(),
            ),
    {
        let mut state: HostState = match self.state_of(key.as_str()) {
            Some(state) => state,
            None => HostState {
                failures: 0,
                blocked_until: None,
                cooldown_ms: self.cfg.initial_cooldown_ms,
            },
        };
        let cfg: HostBlockerConfig = self.cfg;
        state.failures = state.failures + 1;
        if state.failures >= cfg.failures_before_block {
            let wait_ms: u64 = state.cooldown_ms;
            state.blocked_until = Some(end_of_block(now, wait_ms));
            state.cooldown_ms = if grown_cooldown_ms < cfg.max_cooldown_ms {
                grown_cooldown_ms
            } else {
                cfg.max_cooldown_ms
            };
            self.put(key, state);
            Some(wait_ms)
        } else {
            self.put(key, state);
            None
        }
    }

    /// Counts a transport failure of the host that a URL names. Returns how many milliseconds the
    /// failure blocks it for, or `None` where it does not. A text that names no host changes
    /// nothing.
    pub fn record_transport_failure(&mut self, url: &str, now: u64, grown_cooldown_ms: u64) -> (res:
        Option<u64>)
        requires
            old(self).wf(),
            url_key(url@) matches Some(key) ==> can_count(old(self)@, key),
        ensures
            final(self).wf(),
            final(self).config() == old(self).config(),
            final(self)@ == match url_key(url@) {
                Some(key) => old(self)@.insert(
                    key,
                    after_failure(
                        state_or_new(old(self)@, key, old(self).config()),
                        old(self).config(),
                        now,
                        grown_cooldown_ms,
                    ),
                ),
                None => old(self)@,
            },
            res == match url_key(url@) {
                Some(key) => failure_block(
                    state_or_new(old(self)@, key, old(self).config()),
                    old(self).config(),
                ),
                None => None,
            },
    {
        match Self::host_key(url) {
            Some(key) => self.record_key_failure(key, now, grown_cooldown_ms),
            None => None,
        }
    }

    /// Counts a transport failure of the host that a URL names, as `record_transport_failure`
    /// does. Returns `None`, and changes nothing, where the host has failed so often that its
    /// failures cannot be counted any further.
    pub fn try_record_transport_failure(
        &mut self,
        url: &str,
        now: u64,
        grown_cooldown_ms: u64,
    ) -> (res: Option<Option<u64>>)
        requires
            old(self).wf(),
        ensures
            final(self).wf(),
            final(self).config() == old(self).config(),
            match url_key(url@) {
                Some(key) => if can_count(old(self)@, key) {
                    &&& final(self)@ == old(self)@.insert(
                        key,
                        after_failure(
                            state_or_new(old(self)@, key, old(self).config()),
                            old(self).config(),
                            now,
                            grown_cooldown_ms,
                        ),
                    )
                    &&& res == Some(
                        failure_block(
                            state_or_new(old(self)@, key, old(self).config()),
                            old(self).config(),
                        ),
                    )
                } else {
                    final(self)@ == old(self)@ && res is None
                },
                None => final(self)@ == old(self)@ && res == Some(None::<u64>),
            },
    {
        if let Some(key) = Self::host_key(url) {
            if let Some(state) = self.state_of(key.as_str()) {
                if state.failures == u32::MAX {
                    return None;
                }
            }
        }
        Some(self.record_transport_failure(url, now, grown_cooldown_ms))
    }

    /// Blocks the host `key` at `now` for `duration_ms`, or for a second where that is longer.
    pub fn block_key_manual(&mut self, key: String, duration_ms: u64, now: u64)
        requires
            old(self).wf(),
        ensures
            final(self).wf(),
            final(self).config() == old(self).config(),
            final(self)@ == old(self)@.insert(
                key@,
                manual_state(old(self).config(), now, duration_ms),
            ),
    {
        let wait_ms: u64 = if duration_ms < 1_000 {
            1_000
        } else {
            duration_ms
        };
        let state = HostState {
            failures: self.cfg.failures_before_block,
            blocked_until: Some(end_of_block(now, wait_ms)),
            cooldown_ms: duration_ms,
        };
        self.put(key, state);
    }

    /// Operator override: blocks a host at once, given as a URL or as a key, and returns its key.
    /// Where the host is given without a scheme, or as a web URL whose host is no internationalised
    /// name or is written in ASCII, `unblock` takes that key for what it is.
    pub fn block_manual(&mut self, host: &str, duration_ms: u64, now: u64) -> (res: String)
        requires
            old(self).wf(),
        ensures
            final(self).wf(),
            final(self).config() == old(self).config(),
            res@ == block_key(host@),
            final(self)@ == old(self)@.insert(
                res@,
                manual_state(old(self).config(), now, duration_ms),
            ),
            find(host@, "://"@) is None || keeps_its_host(host@, url_parts(host@)) ==> unblock_key(
                res@,
            ) == res@,
    {
        proof {
            if find(host@, "://"@) is None {
                law_plain_key_can_be_unblocked(host@);
            } else if keeps_its_host(host@, url_parts(host@)) {
                lemma_key_holds_mark(host@);
            }
        }
        let named: Option<String> = if contains_text(host, "://") {
            Self::host_key(host)
        } else {
            None
        };
        let key: String = match named {
            Some(key) => key,
            None => trim_whitespace(host).to_owned(),
        };
        self.block_key_manual(key.clone(), duration_ms, now);
        key
    }

    /// Operator override: forgets a host, given as a URL or as a key, and says whether it was
    /// known.
    pub fn unblock(&mut self, host: &str) -> (res: bool)
        requires
            old(self).wf(),
        ensures
            final(self).wf(),
            final(self).config() == old(self).config(),
            final(self)@ == old(self)@.remove(unblock_key(host@)),
            res == old(self)@.contains_key(unblock_key(host@)),
    {
        let named: Option<String> = if contains_text(host, "://") {
            Self::host_key(host)
        } else {
            None
        };
        match named {
            Some(key) => self.forget(key.as_str()),
            None => self.forget(host),
        }
    }

    /// The hosts that are blocked at `now`, each with the milliseconds that are left. Their order
    /// is unspecified.
    pub fn blocked_hosts(&self, now: u64) -> (res: Vec<(String, u64)>)
        requires
            self.wf(),
        ensures
            lists_table(res@, blocked_table(self@, now)),
    {
        let mut res: Vec<(String, u64)> = Vec::new();
        let ghost table = blocked_table(self@, now);
        let mut i: usize = 0;
        proof {
            lemma_table(self.hosts@);
        }
        while i < self.hosts.len()
            invariant
                self.wf(),
                i <= self.hosts@.len(),
                table == blocked_table(self@, now),
                forall|j: int|
                    0 <= j < res@.len() ==> table.contains_key(#[trigger] res@[j].0@)
                        && table[res@[j].0@] == res@[j].1,
                forall|j: int|
                    0 <= j < res@.len() ==> exists|k: int|
                        0 <= k < i && (#[trigger] self.hosts@[k]).key@ == (#[trigger] res@[j]).0@,
                forall|j: int, k: int|
                    0 <= j < k < res@.len() ==> #[trigger] res@[j].0@ != #[trigger] res@[k].0@,
                forall|k: int|
                    0 <= k < i && table.contains_key(#[trigger] self.hosts@[k].key@)
                        ==> exists|j: int|
                        0 <= j < res@.len() && #[trigger] res@[j].0@ == self.hosts@[k].key@,
            decreases self.hosts@.len() - i,
        {
            let ghost before = res@;
            proof {
                lemma_table(self.hosts@);
                assert(self@.contains_key(self.hosts@[i as int].key@));
            }
            let entry: &HostEntry = &self.hosts[i];
            if let Some(until) = entry.state.blocked_until {
                if until > now as u128 {
                    let left: u64 = left_of_block(until, now);
                    proof {
                        assert forall|j: int| 0 <= j < before.len() implies #[trigger] before[j].0@
                            != entry.key@ by {
                            let k = choose|k: int|
                                0 <= k < i && (#[trigger] self.hosts@[k]).key@ == before[j].0@;
                            assert(self.hosts@[k].key@ != self.hosts@[i as int].key@);
                        }
                    }
                    res.push((entry.key.clone(), left));
                    proof {
                        assert(res@[before.len() as int].0@ == self.hosts@[i as int].key@);
                        assert forall|j: int| 0 <= j < before.len() implies res@[j] == before[j] by {}
                    }
                }
            }
            proof {
                assert forall|k: int|
                    0 <= k < i + 1 && table.contains_key(
                        #[trigger] self.hosts@[k].key@,
                    ) implies exists|j: int|
                    0 <= j < res@.len() && #[trigger] res@[j].0@ == self.hosts@[k].key@ by {
                    if k < i {
                        let j = choose|j: int|
                            0 <= j < before.len() && #[trigger] before[j].0@ == self.hosts@[k].key@;
                        assert(res@[j].0@ == self.hosts@[k].key@);
                    }
                }
            }
            i = i + 1;
        }
        proof {
            assert forall|key: Seq<char>| #[trigger] table.contains_key(key) implies exists|j: int|
                0 <= j < res@.len() && #[trigger] res@[j].0@ == key by {
                assert(self@.contains_key(key));
                let k = choose|k: int| is_entry_of(self.hosts@, k, key);
                assert(is_entry_of(self.hosts@, k, key));
                assert(table.contains_key(self.hosts@[k].key@));
            }
        }
        res
    }
}

impl Default for HostBlocker {
    fn default() -> (res: Self)
        ensures
            res.wf(),
            res@ == Map::<Seq<char>, HostState>::empty(),
            res.config().failures_before_block == 3,
            res.config().initial_cooldown_ms == 30_000,
            res.config().max_cooldown_ms == 900_000,
    {
        HostBlocker::new(HostBlockerConfig::default())
    }
}

/// The end of a block of `wait_ms` that begins at `now`.
fn end_of_block(now: u64, wait_ms: u64) -> (res: u128)
    ensures
        res == block_end(now, wait_ms),
        res == now + wait_ms * 1_000_000,
{
    (now as u128) + (wait_ms as u128) * 1_000_000
}

/// The whole milliseconds from `now` to `until`.
fn left_of_block(until: u128, now: u64) -> (res: u64)
    requires
        now < until,
    ensures
        res == remaining_ms(until, now),
{
    ((until - now as u128) / 1_000_000) as u64
}

/// What is known of a new host after a run of failures, each given by its time and by the grown
/// cooldown that came with it.
pub open spec fn after_failures(cfg: HostBlockerConfig, run: Seq<(u64, u64)>) -> HostState
    decreases run.len(),
{
    if run.len() == 0 {
        HostState { failures: 0, blocked_until: None, cooldown_ms: cfg.initial_cooldown_ms }
    } else {
        after_failure(after_failures(cfg, run.drop_last()), cfg, run.last().0, run.last().1)
    }
}

/// A run of failures is counted one by one. It blocks the host from the configured number on and
/// no earlier; the first block lasts for the initial cooldown, and no later one for more than the
/// cap.
pub proof fn law_run_of_failures(cfg: HostBlockerConfig, run: Seq<(u64, u64)>)
    requires
        run.len() <= u32::MAX,
    ensures
        after_failures(cfg, run).failures == run.len(),
        after_failures(cfg, run).blocked_until is Some <==> run.len() >= 1 && run.len()
            >= cfg.failures_before_block,
        run.len() >= 1 && run.len() >= cfg.failures_before_block ==> after_failures(
            cfg,
            run,
        ).blocked_until == Some(
            block_end(run.last().0, after_failures(cfg, run.drop_last()).cooldown_ms),
        ),
        run.len() == 1 || 1 <= run.len() <= cfg.failures_before_block ==> after_failures(
            cfg,
            run.drop_last(),
        ).cooldown_ms == cfg.initial_cooldown_ms,
        run.len() >= 1 && run.len() >= cfg.failures_before_block ==> after_failures(
            cfg,
            run,
        ).cooldown_ms <= cfg.max_cooldown_ms,
        run.len() < 1 || run.len() < cfg.failures_before_block ==> after_failures(
            cfg,
            run,
        ).cooldown_ms == cfg.initial_cooldown_ms,
    decreases run.len(),
{
    if run.len() > 0 {
        law_run_of_failures(cfg, run.drop_last());
    }
}

/// How long a block lasts after `k` doublings of the first, which alone is not capped.
pub open spec fn doubled(cfg: HostBlockerConfig, k: nat) -> int {
    if k == 0 {
        cfg.initial_cooldown_ms as int
    } else if cfg.initial_cooldown_ms * pow2(k) < cfg.max_cooldown_ms {
        cfg.initial_cooldown_ms * pow2(k)
    } else {
        cfg.max_cooldown_ms as int
    }
}

/// The number of the first failure in a row that blocks a host.
pub open spec fn first_block(cfg: HostBlockerConfig) -> int {
    if cfg.failures_before_block == 0 {
        1
    } else {
        cfg.failures_before_block as int
    }
}

/// Whether each failure of a run came with twice the cooldown before it, as far as that can be
/// held.
pub open spec fn doubles(cfg: HostBlockerConfig, run: Seq<(u64, u64)>) -> bool {
    forall|i: int|
        0 <= i < run.len() ==> (#[trigger] run[i]).1 == {
            let before = after_failures(cfg, run.take(i)).cooldown_ms;
            if 2 * before <= u64::MAX {
                2 * before
            } else {
                u64::MAX as int
            }
        }
}

proof fn lemma_doubled_step(cfg: HostBlockerConfig, k: nat)
    ensures
        0 <= doubled(cfg, k),
        doubled(cfg, k + 1) == (if 2 * doubled(cfg, k) < cfg.max_cooldown_ms {
            2 * doubled(cfg, k)
        } else {
            cfg.max_cooldown_ms as int
        }),
{
    let initial = cfg.initial_cooldown_ms as int;
    lemma_pow2_unfold(k + 1);
    lemma_pow2_pos(k);
    lemma2_to64();
    assert(initial * pow2(k + 1) == 2 * (initial * pow2(k)) && initial * pow2(k) >= 0)
        by (nonlinear_arith)
        requires
            pow2(k + 1) == 2 * pow2(k),
            pow2(k) > 0,
            initial >= 0,
    ;
    assert(initial * pow2(0) == initial) by (nonlinear_arith)
        requires
            pow2(0) == 1,
    ;
}

proof fn lemma_doubles_before(cfg: HostBlockerConfig, run: Seq<(u64, u64)>)
    requires
        run.len() > 0,
        doubles(cfg, run),
    ensures
        doubles(cfg, run.drop_last()),
        ({
            let c = after_failures(cfg, run.drop_last()).cooldown_ms;
            run.last().1 == if 2 * c <= u64::MAX {
                2 * c
            } else {
                u64::MAX as int
            }
        }),
{
    let before = run.drop_last();
    assert forall|i: int| 0 <= i < before.len() implies (#[trigger] before[i]).1 == {
        let c = after_failures(cfg, before.take(i)).cooldown_ms;
        if 2 * c <= u64::MAX {
            2 * c
        } else {
            u64::MAX as int
        }
    } by {
        assert(before.take(i) =~= run.take(i));
        assert(before[i] == run[i]);
    }
    assert(run.take(run.len() - 1) =~= before);
    assert(run.last() == run[run.len() - 1]);
}

/// What a failure makes of a cooldown where the failure came with twice the cooldown before it.
proof fn lemma_cooldown_doubles(cfg: HostBlockerConfig, state: HostState, now: u64, grown: u64)
    requires
        state.failures < u32::MAX,
        grown == (if 2 * state.cooldown_ms <= u64::MAX {
            2 * state.cooldown_ms
        } else {
            u64::MAX as int
        }),
    ensures
        state.failures + 1 >= first_block(cfg) ==> after_failure(state, cfg, now, grown).cooldown_ms
            == (if 2 * state.cooldown_ms < cfg.max_cooldown_ms {
            2 * state.cooldown_ms
        } else {
            cfg.max_cooldown_ms as int
        }),
        state.failures + 1 < first_block(cfg) ==> after_failure(state, cfg, now, grown).cooldown_ms
            == state.cooldown_ms,
{
}

#[verifier::spinoff_prover]
proof fn lemma_blocks_double(cfg: HostBlockerConfig, run: Seq<(u64, u64)>)
    requires
        run.len() <= u32::MAX,
        doubles(cfg, run),
    ensures
        run.len() < first_block(cfg) ==> after_failures(cfg, run).cooldown_ms
            == cfg.initial_cooldown_ms,
        run.len() >= first_block(cfg) ==> {
            let k = (run.len() - first_block(cfg)) as nat;
            &&& after_failures(cfg, run).cooldown_ms == doubled(cfg, k + 1)
            &&& after_failures(cfg, run.drop_last()).cooldown_ms == doubled(cfg, k)
        },
    decreases run.len(),
{
    if run.len() > 0 {
        let before = run.drop_last();
        let state = after_failures(cfg, before);
        law_run_of_failures(cfg, before);
        lemma_doubles_before(cfg, run);
        lemma_blocks_double(cfg, before);
        assert(after_failures(cfg, run) == after_failure(state, cfg, run.last().0, run.last().1));
        lemma_cooldown_doubles(cfg, state, run.last().0, run.last().1);
        if run.len() >= first_block(cfg) {
            let k = (run.len() - first_block(cfg)) as nat;
            lemma_doubled_step(cfg, k);
            if k > 0 {
                assert((before.len() - first_block(cfg)) as nat + 1 == k);
            }
            assert(state.cooldown_ms == doubled(cfg, k));
        }
    }
}

/// The hosts after a run of failures of one of them.
pub open spec fn hosts_after_run(
    hosts: Map<Seq<char>, HostState>,
    key: Seq<char>,
    cfg: HostBlockerConfig,
    run: Seq<(u64, u64)>,
) -> Map<Seq<char>, HostState>
    decreases run.len(),
{
    if run.len() == 0 {
        hosts
    } else {
        let before = hosts_after_run(hosts, key, cfg, run.drop_last());
        before.insert(
            key,
            after_failure(state_or_new(before, key, cfg), cfg, run.last().0, run.last().1),
        )
    }
}

/// A host that was not known, or that was forgotten, is blocked by a run of failures exactly where
/// the run is long enough and its last block has not ended. The other hosts are left as they were.
pub proof fn law_run_blocks_a_new_host(
    hosts: Map<Seq<char>, HostState>,
    key: Seq<char>,
    cfg: HostBlockerConfig,
    run: Seq<(u64, u64)>,
    later: u64,
)
    requires
        !hosts.contains_key(key),
        run.len() <= u32::MAX,
    ensures
        ({
            let after = hosts_after_run(hosts, key, cfg, run);
            &&& state_or_new(after, key, cfg) == after_failures(cfg, run)
            &&& after.remove(key) == hosts
            &&& blocked_table(after, later).contains_key(key) <==> {
                &&& run.len() >= 1
                &&& run.len() >= cfg.failures_before_block
                &&& later < block_end(
                    run.last().0,
                    after_failures(cfg, run.drop_last()).cooldown_ms,
                )
            }
        }),
    decreases run.len(),
{
    law_run_of_failures(cfg, run);
    let after = hosts_after_run(hosts, key, cfg, run);
    if run.len() > 0 {
        law_run_blocks_a_new_host(hosts, key, cfg, run.drop_last(), later);
        let before = hosts_after_run(hosts, key, cfg, run.drop_last());
        assert(after.remove(key) =~= before.remove(key));
    } else {
        assert(after.remove(key) =~= hosts);
    }
}

/// Where cooldowns double, the n-th failure in a row of a host that was not known blocks it for the
/// initial cooldown doubled once for each block before it, and capped, whether or not the earlier
/// blocks have ended.
pub proof fn law_blocks_double(
    hosts: Map<Seq<char>, HostState>,
    key: Seq<char>,
    cfg: HostBlockerConfig,
    run: Seq<(u64, u64)>,
    later: u64,
)
    requires
        !hosts.contains_key(key),
        run.len() <= u32::MAX,
        doubles(cfg, run),
    ensures
        ({
            let after = hosts_after_run(hosts, key, cfg, run);
            let k = (run.len() - first_block(cfg)) as nat;
            blocked_table(after, later).contains_key(key) <==> {
                &&& run.len() >= first_block(cfg)
                &&& later < run.last().0 + doubled(cfg, k) * 1_000_000
            }
        }),
        forall|k: nat| #![trigger doubled(cfg, k)]
            cfg.initial_cooldown_ms <= cfg.max_cooldown_ms ==> doubled(cfg, k) == (if
            cfg.initial_cooldown_ms * pow2(k) < cfg.max_cooldown_ms {
                cfg.initial_cooldown_ms * pow2(k)
            } else {
                cfg.max_cooldown_ms as int
            }),
{
    law_run_blocks_a_new_host(hosts, key, cfg, run, later);
    lemma_blocks_double(cfg, run);
    if run.len() >= first_block(cfg) {
        let wait_ms = after_failures(cfg, run.drop_last()).cooldown_ms;
        assert(block_end(run.last().0, wait_ms) == run.last().0 + wait_ms * 1_000_000);
    }
    lemma2_to64();
    assert(cfg.initial_cooldown_ms * pow2(0) == cfg.initial_cooldown_ms) by (nonlinear_arith)
        requires
            pow2(0) == 1,
    ;
}

/// After a success a host starts afresh, however often it had failed before.
pub proof fn law_success_starts_afresh(
    hosts: Map<Seq<char>, HostState>,
    key: Seq<char>,
    cfg: HostBlockerConfig,
    now: u64,
)
    ensures
        state_or_new(hosts.remove(key), key, cfg) == after_failures(cfg, Seq::empty()),
        !blocked_table(hosts.remove(key), now).contains_key(key),
{
}

/// What happens to one host leaves every other host as it was.
pub proof fn law_hosts_are_independent(
    hosts: Map<Seq<char>, HostState>,
    key: Seq<char>,
    state: HostState,
    other: Seq<char>,
    cfg: HostBlockerConfig,
)
    requires
        other != key,
    ensures
        state_or_new(hosts.insert(key, state), other, cfg) == state_or_new(hosts, other, cfg),
        state_or_new(hosts.remove(key), other, cfg) == state_or_new(hosts, other, cfg),
        hosts.insert(key, state).contains_key(other) == hosts.contains_key(other),
        hosts.remove(key).contains_key(other) == hosts.contains_key(other),
{
}

/// A host that an operator blocks is blocked for the given time, or for a second where that is
/// longer, and no longer than that.
pub proof fn law_manual_block_lasts(
    hosts: Map<Seq<char>, HostState>,
    cfg: HostBlockerConfig,
    key: Seq<char>,
    now: u64,
    duration_ms: u64,
    later: u64,
)
    ensures
        ({
            let after = hosts.insert(key, manual_state(cfg, now, duration_ms));
            let wait_ms: int = if duration_ms < 1_000 {
                1_000
            } else {
                duration_ms as int
            };
            blocked_table(after, later).contains_key(key) <==> later < now + wait_ms * 1_000_000
        }),
{
}

/// Unblocking by the key that blocking returned finds the host and undoes the block; a second time
/// there is nothing to be found. The host that was given is not blocked any more, where it was
/// blocked under its own key or names no host of its own. Left out are the keys that a second
/// reading would change.
pub proof fn law_unblock_undoes_block(
    hosts: Map<Seq<char>, HostState>,
    cfg: HostBlockerConfig,
    host: Seq<char>,
    now: u64,
    duration_ms: u64,
    later: u64,
)
    requires
        unblock_key(block_key(host)) == block_key(host),
    ensures
        ({
            let blocked = hosts.insert(block_key(host), manual_state(cfg, now, duration_ms));
            let key = unblock_key(block_key(host));
            let after = blocked.remove(key);
            &&& blocked.contains_key(key)
            &&& !after.contains_key(key)
            &&& !blocked_table(after, later).contains_key(block_key(host))
            &&& after == hosts.remove(block_key(host))
            &&& url_key(host) is None || url_key(host) == Some(block_key(host)) ==> !(url_key(
                host,
            ) matches Some(own) && after.contains_key(own) && blocked_at(after[own], later))
        }),
{
    let blocked = hosts.insert(block_key(host), manual_state(cfg, now, duration_ms));
    assert(blocked.remove(block_key(host)) =~= hosts.remove(block_key(host)));
}

/// Trimming keeps a part of the text.
proof fn lemma_trim_is_part(s: Seq<char>, class: CharClass) -> (cut: (int, int))
    ensures
        0 <= cut.0 <= cut.1 <= s.len(),
        trim(s, class) == s.subrange(cut.0, cut.1),
{
    let from = lemma_trim_front_is_part(s, class);
    let front = s.subrange(from, s.len() as int);
    let to = lemma_trim_back_is_part(front, class);
    assert(front.subrange(0, to) =~= s.subrange(from, from + to));
    (from, from + to)
}

proof fn lemma_trim_front_is_part(s: Seq<char>, class: CharClass) -> (from: int)
    ensures
        0 <= from <= s.len(),
        trim_front(s, class) == s.subrange(from, s.len() as int),
    decreases s.len(),
{
    if s.len() > 0 && class.has(s[0]) {
        let from = lemma_trim_front_is_part(s.skip(1), class);
        assert(s.skip(1).subrange(from, s.len() - 1) =~= s.subrange(from + 1, s.len() as int));
        from + 1
    } else {
        assert(s.subrange(0, s.len() as int) =~= s);
        0
    }
}

proof fn lemma_trim_back_is_part(s: Seq<char>, class: CharClass) -> (to: int)
    ensures
        0 <= to <= s.len(),
        trim_back(s, class) == s.subrange(0, to),
    decreases s.len(),
{
    if s.len() > 0 && class.has(s.last()) {
        let to = lemma_trim_back_is_part(s.drop_last(), class);
        assert(s.drop_last().subrange(0, to) =~= s.subrange(0, to));
        to
    } else {
        assert(s.subrange(0, s.len() as int) =~= s);
        s.len() as int
    }
}

/// A host that is given without a scheme keeps, once blocked, a key by which it can be unblocked.
pub proof fn law_plain_key_can_be_unblocked(host: Seq<char>)
    requires
        find(host, "://"@) is None,
    ensures
        unblock_key(block_key(host)) == block_key(host),
{
    let mark = "://"@;
    let key = trim(host, CharClass::Whitespace);
    let cut = lemma_trim_is_part(host, CharClass::Whitespace);
    lemma_find_from(key, mark, 0);
    lemma_find_from(host, mark, 0);
    if find(key, mark) is Some {
        let i = find(key, mark)->0;
        assert(occurs_at(key, mark, i));
        assert(host.subrange(cut.0 + i, cut.0 + i + mark.len()) =~= key.subrange(
            i,
            i + mark.len(),
        ));
        assert(occurs_at(host, mark, cut.0 + i));
    }
}

/// The key of a host holds the mark of a URL.
proof fn lemma_key_holds_mark(url: Seq<char>)
    requires
        url_key(url) is Some,
    ensures
        find(url_key(url)->0, "://"@) is Some,
{
    if let Some((scheme, Some(host), port)) = url_parts(url) {
        let key = key_text(scheme, host, port);
        let mark = "://"@;
        let at = scheme.len() as int;
        lemma_find_from(key, mark, 0);
        assert(key.subrange(at, at + mark.len()) =~= mark);
        assert(occurs_at(key, mark, at));
    }
}

/// Two hosts have one key exactly where their schemes, their names and their effective ports agree.
pub proof fn law_key_tells_hosts_apart(
    a: (Seq<char>, Seq<char>, Option<u16>),
    b: (Seq<char>, Seq<char>, Option<u16>),
)
    requires
        forall|i: int| 0 <= i < (a.0).len() ==> #[trigger] (a.0)[i] != ':',
        forall|i: int| 0 <= i < (b.0).len() ==> #[trigger] (b.0)[i] != ':',
    ensures
        key_text(a.0, a.1, a.2) == key_text(b.0, b.1, b.2) <==> a.0 == b.0 && a.1 == b.1
            && effective_port(a.0, a.2) == effective_port(b.0, b.2),
{
    let p = effective_port(a.0, a.2);
    let q = effective_port(b.0, b.2);
    let key = key_text(a.0, a.1, a.2);
    if key == key_text(b.0, b.1, b.2) {
        reveal_strlit("://");
        lemma_decimal(p);
        lemma_decimal(q);
        lemma_cut_before_port(a.0 + "://"@ + a.1, decimal(p));
        lemma_cut_before_port(b.0 + "://"@ + b.1, decimal(q));
        lemma_decimal_injective(p, q);
        let front = a.0 + "://"@ + a.1;
        assert(front == b.0 + "://"@ + b.1);
        assert(front[(a.0).len() as int] == ':');
        assert(front[(b.0).len() as int] == ':');
        if (a.0).len() < (b.0).len() {
            assert(front[(a.0).len() as int] == (b.0)[(a.0).len() as int]);
        }
        if (b.0).len() < (a.0).len() {
            assert(front[(b.0).len() as int] == (a.0)[(b.0).len() as int]);
        }
        assert(a.0 =~= front.take((a.0).len() as int));
        assert(b.0 =~= front.take((b.0).len() as int));
        assert(a.1 =~= front.skip((a.0).len() as int + 3));
        assert(b.1 =~= front.skip((b.0).len() as int + 3));
    }
}

/// Two web URLs have one key exactly where their schemes, their hosts and their effective ports
/// agree; nothing else in them matters.
pub proof fn law_web_urls_share_a_key(
    u: Seq<char>,
    v: Seq<char>,
    a: (Seq<char>, Seq<char>, Option<u16>),
    b: (Seq<char>, Seq<char>, Option<u16>),
)
    requires
        url_parts(u) == Some((a.0, Some(a.1), a.2)),
        url_parts(v) == Some((b.0, Some(b.1), b.2)),
        a.0 == "http"@ || a.0 == "https"@,
        b.0 == "http"@ || b.0 == "https"@,
    ensures
        url_key(u) == url_key(v) <==> a.0 == b.0 && a.1 == b.1 && effective_port(a.0, a.2)
            == effective_port(b.0, b.2),
{
    reveal_strlit("http");
    reveal_strlit("https");
    law_key_tells_hosts_apart(a, b);
}

/// A host is listed as blocked exactly when it is blocked.
pub proof fn law_listed_iff_blocked(
    hosts: Map<Seq<char>, HostState>,
    list: Seq<(String, u64)>,
    now: u64,
    key: Seq<char>,
)
    requires
        lists_table(list, blocked_table(hosts, now)),
    ensures
        (exists|i: int| 0 <= i < list.len() && #[trigger] list[i].0@ == key) <==> (
        hosts.contains_key(key) && blocked_at(hosts[key], now)),
{
    if hosts.contains_key(key) && blocked_at(hosts[key], now) {
        assert(blocked_table(hosts, now).contains_key(key));
    }
}

} // verus!
