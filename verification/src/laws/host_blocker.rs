//! Laws on the circuit breaker.

use crate::host_blocker::{
    block_end, blocked_table, lists_table, HostBlocker, HostBlockerConfig, HostState,
};
use crate::outside::{keeps_its_host, url_parts, UrlParts};
use crate::text::{contains_text, decimal_text, trim_whitespace};
use vstd::prelude::*;

verus! {

/// The default blocks from the third failure on, first for half a minute and at most for a quarter
/// of an hour, and knows of no host.
pub proof fn law_defaults(
    cfg: HostBlockerConfig,
    b: HostBlocker,
    key: &str,
    state: Option<HostState>,
    cooldown_ms: u64,
)
    requires
        call_ensures(<HostBlockerConfig as Default>::default, (), cfg),
        call_ensures(<HostBlocker as Default>::default, (), b),
        call_ensures(HostBlocker::state_of, (&b, key), state),
        call_ensures(HostBlocker::key_cooldown_ms, (&b, key), cooldown_ms),
    ensures
        cfg.failures_before_block == 3,
        cfg.initial_cooldown_ms == 30_000,
        cfg.max_cooldown_ms == 900_000,
        b.wf(),
        b.config() == cfg,
        state is None,
        cooldown_ms == 30_000,
{
}

/// A new breaker knows of no host, and holds its configuration.
pub proof fn law_new_knows_no_host(
    cfg: HostBlockerConfig,
    b: HostBlocker,
    key: &str,
    state: Option<HostState>,
    cooldown_ms: u64,
    now: u64,
    blocked: bool,
    list: Vec<(String, u64)>,
)
    requires
        call_ensures(HostBlocker::new, (cfg,), b),
        call_ensures(HostBlocker::state_of, (&b, key), state),
        call_ensures(HostBlocker::key_cooldown_ms, (&b, key), cooldown_ms),
        call_ensures(HostBlocker::is_key_blocked, (&b, key, now), blocked),
        call_ensures(HostBlocker::blocked_hosts, (&b, now), list),
    ensures
        b.wf(),
        b.config() == cfg,
        state is None,
        cooldown_ms == cfg.initial_cooldown_ms,
        !blocked,
        list@.len() == 0,
{
    if list@.len() > 0 {
        assert(list@[0].0@ == list@[0].0@);
    }
}

/// The key of a host is its scheme, its name and its port in decimal; where the URL gives no port,
/// that is 443 for `https` and 80 for any other scheme. There is a key exactly where there is a
/// host.
pub proof fn law_key_of_parts(
    parts: Option<UrlParts>,
    key: Option<String>,
    port: u64,
    digits: String,
)
    requires
        call_ensures(HostBlocker::host_key_of, (parts,), key),
        call_ensures(decimal_text, (port,), digits),
        parts matches Some(p) ==> {
            &&& p.port matches Some(given) ==> port == given
            &&& p.port is None && p.scheme@ == "https"@ ==> port == 443
            &&& p.port is None && p.scheme@ != "https"@ ==> port == 80
        },
    ensures
        key is Some <==> (parts matches Some(p) && p.host is Some),
        key matches Some(k) ==> (parts matches Some(p) && k@ == p.scheme@ + "://"@ + (p.host->0)@
            + ":"@ + digits@),
{
}

/// The key of a URL is that of the parts that it is read as.
pub proof fn law_key_of_a_url(
    url: &str,
    key: Option<String>,
    parts: Option<UrlParts>,
    of_parts: Option<String>,
)
    requires
        call_ensures(HostBlocker::host_key, (url,), key),
        call_ensures(HostBlocker::host_key_of, (parts,), of_parts),
        parts is Some <==> url_parts(url@) is Some,
        parts matches Some(p) ==> (url_parts(url@) matches Some((scheme, host, port)) && p.scheme@
            == scheme && p.port == port && (p.host is Some <==> host is Some) && (p.host matches Some(
            h,
        ) ==> host == Some(h@))),
    ensures
        key is Some <==> of_parts is Some,
        key matches Some(k) ==> k@ == (of_parts->0)@,
{
}

/// A URL is blocked exactly where the host that it names is; a text that names none is not.
pub proof fn law_url_is_blocked_as_its_host(
    b: HostBlocker,
    url: &str,
    now: u64,
    blocked: bool,
    key: Option<String>,
    host: &str,
    host_blocked: bool,
)
    requires
        call_ensures(HostBlocker::is_blocked, (&b, url, now), blocked),
        call_ensures(HostBlocker::host_key, (url,), key),
        key matches Some(k) ==> host@ == k@,
        call_ensures(HostBlocker::is_key_blocked, (&b, host, now), host_blocked),
    ensures
        key is None ==> !blocked,
        key is Some ==> blocked == host_blocked,
{
}

/// A host is blocked until its block ends, and not from then on; one without a block is not.
pub proof fn law_blocked_until_the_end(
    b: HostBlocker,
    key: &str,
    now: u64,
    blocked: bool,
    state: Option<HostState>,
)
    requires
        call_ensures(HostBlocker::is_key_blocked, (&b, key, now), blocked),
        call_ensures(HostBlocker::state_of, (&b, key), state),
    ensures
        blocked <==> (state matches Some(s) && s.blocked_until matches Some(until) && now < until),
{
}

/// A host that is blocked was blocked at every earlier time too, and one that is not will not be.
pub proof fn law_blocks_only_run_out(
    b: HostBlocker,
    key: &str,
    earlier: u64,
    later: u64,
    blocked_earlier: bool,
    blocked_later: bool,
)
    requires
        earlier <= later,
        call_ensures(HostBlocker::is_key_blocked, (&b, key, earlier), blocked_earlier),
        call_ensures(HostBlocker::is_key_blocked, (&b, key, later), blocked_later),
    ensures
        blocked_later ==> blocked_earlier,
{
}

/// The next block of a host lasts for its cooldown; that of a host that is not known, and of one
/// that a URL names, likewise.
pub proof fn law_cooldown_is_that_of_the_host(
    b: HostBlocker,
    url: &str,
    cooldown_ms: Option<u64>,
    key: Option<String>,
    host: &str,
    state: Option<HostState>,
    host_cooldown_ms: u64,
)
    requires
        call_ensures(HostBlocker::cooldown_ms, (&b, url), cooldown_ms),
        call_ensures(HostBlocker::host_key, (url,), key),
        key matches Some(k) ==> host@ == k@,
        call_ensures(HostBlocker::state_of, (&b, host), state),
        call_ensures(HostBlocker::key_cooldown_ms, (&b, host), host_cooldown_ms),
    ensures
        state matches Some(s) ==> host_cooldown_ms == s.cooldown_ms,
        state is None ==> host_cooldown_ms == b.config().initial_cooldown_ms,
        key is None ==> cooldown_ms is None,
        key is Some ==> cooldown_ms == Some(host_cooldown_ms),
{
}

/// Whether a failure at `now` took what was known of a host from `before` to `after`, and blocked it
/// for `wait_ms`: one failure more is counted, from the configured number on the host is blocked for
/// the cooldown before the failure, and the cooldown is then the grown one, capped.
pub open spec fn failed_once(
    cfg: HostBlockerConfig,
    before: Option<HostState>,
    after: Option<HostState>,
    now: u64,
    grown_cooldown_ms: u64,
    wait_ms: Option<u64>,
) -> bool {
    let failures: int = match before {
        Some(s) => s.failures as int,
        None => 0,
    };
    let cooldown_ms: int = match before {
        Some(s) => s.cooldown_ms as int,
        None => cfg.initial_cooldown_ms as int,
    };
    &&& after matches Some(s)
    &&& s.failures == failures + 1
    &&& failures + 1 < cfg.failures_before_block ==> {
        &&& wait_ms is None
        &&& s.cooldown_ms == cooldown_ms
        &&& s.blocked_until is Some <==> (before matches Some(old_state)
            && old_state.blocked_until is Some)
        &&& s.blocked_until matches Some(until) ==> (before matches Some(old_state)
            && old_state.blocked_until == Some(until))
    }
    &&& failures + 1 >= cfg.failures_before_block ==> {
        &&& wait_ms matches Some(ms) && ms == cooldown_ms
        &&& s.blocked_until matches Some(until) && until == now + cooldown_ms * 1_000_000
        &&& s.cooldown_ms <= grown_cooldown_ms && s.cooldown_ms <= cfg.max_cooldown_ms
        &&& s.cooldown_ms == grown_cooldown_ms || s.cooldown_ms == cfg.max_cooldown_ms
    }
}

/// A failure of a host is counted, and blocks it where it has failed often enough. No other host is
/// touched.
pub proof fn law_failure_of_a_key(
    b: &mut HostBlocker,
    key: String,
    now: u64,
    grown_cooldown_ms: u64,
    res: Option<u64>,
    host: &str,
    before: Option<HostState>,
    after: Option<HostState>,
    other: &str,
    other_before: Option<HostState>,
    other_after: Option<HostState>,
)
    requires
        call_ensures(HostBlocker::record_key_failure, (b, key, now, grown_cooldown_ms), res),
        host@ == key@,
        other@ != key@,
        call_ensures(HostBlocker::state_of, (&*old(b), host), before),
        call_ensures(HostBlocker::state_of, (&*old(b), other), other_before),
        before matches Some(s) ==> s.failures < u32::MAX,
    ensures
        final(b).wf(),
        final(b).config() == old(b).config(),
        call_ensures(HostBlocker::state_of, (&*final(b), host), after) ==> failed_once(
            old(b).config(),
            before,
            after,
            now,
            grown_cooldown_ms,
            res,
        ),
        call_ensures(HostBlocker::state_of, (&*final(b), other), other_after) ==> other_after
            == other_before,
{
}

/// A failure of a URL is one of the host that it names; a text that names none changes nothing.
pub proof fn law_failure_of_a_url(
    b: &mut HostBlocker,
    url: &str,
    now: u64,
    grown_cooldown_ms: u64,
    res: Option<u64>,
    key: Option<String>,
    host: &str,
    before: Option<HostState>,
    after: Option<HostState>,
    other: &str,
    other_before: Option<HostState>,
    other_after: Option<HostState>,
)
    requires
        call_ensures(HostBlocker::record_transport_failure, (b, url, now, grown_cooldown_ms), res),
        call_ensures(HostBlocker::host_key, (url,), key),
        key matches Some(k) ==> host@ == k@ && other@ != k@,
        call_ensures(HostBlocker::state_of, (&*old(b), host), before),
        call_ensures(HostBlocker::state_of, (&*old(b), other), other_before),
        before matches Some(s) ==> s.failures < u32::MAX,
    ensures
        final(b).wf(),
        final(b).config() == old(b).config(),
        key is Some && call_ensures(HostBlocker::state_of, (&*final(b), host), after)
            ==> failed_once(old(b).config(), before, after, now, grown_cooldown_ms, res),
        key is None ==> res is None,
        key is None && call_ensures(HostBlocker::state_of, (&*final(b), host), after) ==> after
            == before,
        call_ensures(HostBlocker::state_of, (&*final(b), other), other_after) ==> other_after
            == other_before,
{
}

/// A failure that may not be counted is counted where it can be, as one that can be counted is;
/// where it cannot, nothing changes.
pub proof fn law_tried_failure_of_a_url(
    b: &mut HostBlocker,
    url: &str,
    now: u64,
    grown_cooldown_ms: u64,
    res: Option<Option<u64>>,
    key: Option<String>,
    host: &str,
    before: Option<HostState>,
    after: Option<HostState>,
    other: &str,
    other_before: Option<HostState>,
    other_after: Option<HostState>,
)
    requires
        call_ensures(
            HostBlocker::try_record_transport_failure,
            (b, url, now, grown_cooldown_ms),
            res,
        ),
        call_ensures(HostBlocker::host_key, (url,), key),
        key matches Some(k) ==> host@ == k@ && other@ != k@,
        call_ensures(HostBlocker::state_of, (&*old(b), host), before),
        call_ensures(HostBlocker::state_of, (&*old(b), other), other_before),
    ensures
        final(b).wf(),
        final(b).config() == old(b).config(),
        res is None <==> key is Some && (before matches Some(s) && s.failures == u32::MAX),
        call_ensures(HostBlocker::state_of, (&*final(b), host), after) ==> {
            &&& key is Some && res is Some ==> failed_once(
                old(b).config(),
                before,
                after,
                now,
                grown_cooldown_ms,
                res->0,
            )
            &&& key is None || res is None ==> after == before
        },
        key is None ==> res == Some(None::<u64>),
        call_ensures(HostBlocker::state_of, (&*final(b), other), other_after) ==> other_after
            == other_before,
{
}

/// A success of a URL makes the host that it names unknown, however it stood, and touches no other.
pub proof fn law_success_of_a_url(
    b: &mut HostBlocker,
    url: &str,
    key: Option<String>,
    host: &str,
    after: Option<HostState>,
    later: u64,
    blocked: bool,
    other: &str,
    other_before: Option<HostState>,
    other_after: Option<HostState>,
)
    requires
        call_ensures(HostBlocker::record_success, (b, url), ()),
        call_ensures(HostBlocker::host_key, (url,), key),
        key matches Some(k) ==> host@ == k@ && other@ != k@,
        call_ensures(HostBlocker::state_of, (&*old(b), other), other_before),
    ensures
        final(b).wf(),
        final(b).config() == old(b).config(),
        key is Some && call_ensures(HostBlocker::state_of, (&*final(b), host), after) ==> after
            is None,
        call_ensures(HostBlocker::is_blocked, (&*final(b), url, later), blocked) ==> !blocked,
        call_ensures(HostBlocker::state_of, (&*final(b), other), other_after) ==> other_after
            == other_before,
{
}

/// Forgetting a host makes it unknown, tells whether it was known, and touches no other.
pub proof fn law_forgetting(
    b: &mut HostBlocker,
    key: &str,
    known: bool,
    before: Option<HostState>,
    after: Option<HostState>,
    other: &str,
    other_before: Option<HostState>,
    other_after: Option<HostState>,
)
    requires
        call_ensures(HostBlocker::forget, (b, key), known),
        call_ensures(HostBlocker::state_of, (&*old(b), key), before),
        other@ != key@,
        call_ensures(HostBlocker::state_of, (&*old(b), other), other_before),
    ensures
        final(b).wf(),
        final(b).config() == old(b).config(),
        known <==> before is Some,
        call_ensures(HostBlocker::state_of, (&*final(b), key), after) ==> after is None,
        call_ensures(HostBlocker::state_of, (&*final(b), other), other_after) ==> other_after
            == other_before,
{
}

/// A host that is blocked by hand is blocked for the time given, but at least for a second, as one
/// that has failed often enough; its next block lasts for the time given. No other host is touched.
pub proof fn law_block_by_hand(
    b: &mut HostBlocker,
    key: String,
    duration_ms: u64,
    now: u64,
    host: &str,
    after: Option<HostState>,
    later: u64,
    blocked: bool,
    other: &str,
    other_before: Option<HostState>,
    other_after: Option<HostState>,
)
    requires
        call_ensures(HostBlocker::block_key_manual, (b, key, duration_ms, now), ()),
        host@ == key@,
        other@ != key@,
        call_ensures(HostBlocker::state_of, (&*old(b), other), other_before),
    ensures
        final(b).wf(),
        final(b).config() == old(b).config(),
        call_ensures(HostBlocker::state_of, (&*final(b), host), after) ==> (after matches Some(s)
            && s.failures == old(b).config().failures_before_block && s.cooldown_ms
            == duration_ms),
        call_ensures(HostBlocker::is_key_blocked, (&*final(b), host, later), blocked) ==> {
            &&& duration_ms >= 1_000 ==> (blocked <==> later < now + duration_ms * 1_000_000)
            &&& duration_ms < 1_000 ==> (blocked <==> later < now + 1_000_000_000)
        },
        call_ensures(HostBlocker::state_of, (&*final(b), other), other_after) ==> other_after
            == other_before,
{
}

/// An operator blocks the host that a URL names, and any other text, trimmed, as a key of its own;
/// the key is returned. The host is then blocked for the time given, but at least for a second.
pub proof fn law_operator_blocks(
    b: &mut HostBlocker,
    host: &str,
    duration_ms: u64,
    now: u64,
    res: String,
    mark: &str,
    is_url: bool,
    own: Option<String>,
    trimmed: &str,
    key: &str,
    after: Option<HostState>,
    later: u64,
    blocked: bool,
    other: &str,
    other_before: Option<HostState>,
    other_after: Option<HostState>,
)
    requires
        call_ensures(HostBlocker::block_manual, (b, host, duration_ms, now), res),
        mark@ == "://"@,
        call_ensures(contains_text, (host, mark), is_url),
        call_ensures(HostBlocker::host_key, (host,), own),
        call_ensures(trim_whitespace, (host,), trimmed),
        key@ == res@,
        other@ != res@,
        call_ensures(HostBlocker::state_of, (&*old(b), other), other_before),
    ensures
        final(b).wf(),
        final(b).config() == old(b).config(),
        is_url && own is Some ==> res@ == (own->0)@,
        !is_url || own is None ==> res@ == trimmed@,
        call_ensures(HostBlocker::state_of, (&*final(b), key), after) ==> (after matches Some(s)
            && s.failures == old(b).config().failures_before_block && s.cooldown_ms
            == duration_ms),
        call_ensures(HostBlocker::is_key_blocked, (&*final(b), key, later), blocked) ==> {
            &&& duration_ms >= 1_000 ==> (blocked <==> later < now + duration_ms * 1_000_000)
            &&& duration_ms < 1_000 ==> (blocked <==> later < now + 1_000_000_000)
        },
        call_ensures(HostBlocker::state_of, (&*final(b), other), other_after) ==> other_after
            == other_before,
{
}

/// An operator unblocks the host that a URL names, and any other text as a key of its own: the host
/// is then unknown, and whether it was known is returned. No other host is touched.
pub proof fn law_operator_unblocks(
    b: &mut HostBlocker,
    host: &str,
    known: bool,
    mark: &str,
    is_url: bool,
    own: Option<String>,
    key: &str,
    before: Option<HostState>,
    after: Option<HostState>,
    later: u64,
    blocked: bool,
    other: &str,
    other_before: Option<HostState>,
    other_after: Option<HostState>,
)
    requires
        call_ensures(HostBlocker::unblock, (b, host), known),
        mark@ == "://"@,
        call_ensures(contains_text, (host, mark), is_url),
        call_ensures(HostBlocker::host_key, (host,), own),
        is_url && own is Some ==> key@ == (own->0)@,
        !is_url || own is None ==> key@ == host@,
        call_ensures(HostBlocker::state_of, (&*old(b), key), before),
        other@ != key@,
        call_ensures(HostBlocker::state_of, (&*old(b), other), other_before),
    ensures
        final(b).wf(),
        final(b).config() == old(b).config(),
        known <==> before is Some,
        call_ensures(HostBlocker::state_of, (&*final(b), key), after) ==> after is None,
        call_ensures(HostBlocker::is_key_blocked, (&*final(b), key, later), blocked) ==> !blocked,
        call_ensures(HostBlocker::state_of, (&*final(b), other), other_after) ==> other_after
            == other_before,
{
}

/// Unblocking by the key that blocking returned undoes the block, however the host was given: without
/// a scheme, or as a web URL whose host is no internationalised name or is written in ASCII. A second
/// time there is nothing left to be unblocked.
pub proof fn law_unblocking_by_the_key_undoes_blocking(
    b: &mut HostBlocker,
    host: &str,
    duration_ms: u64,
    start: u64,
    res: String,
    mark: &str,
    is_url: bool,
    key: &str,
    blocked: &mut HostBlocker,
    known: bool,
    after: Option<HostState>,
    unblocked: &mut HostBlocker,
    still_known: bool,
)
    requires
        call_ensures(HostBlocker::block_manual, (b, host, duration_ms, start), res),
        mark@ == "://"@,
        call_ensures(contains_text, (host, mark), is_url),
        is_url ==> keeps_its_host(host@, url_parts(host@)),
        key@ == res@,
        *old(blocked) == *final(b),
        call_ensures(HostBlocker::unblock, (blocked, key), known),
        *old(unblocked) == *final(blocked),
        call_ensures(HostBlocker::unblock, (unblocked, key), still_known),
    ensures
        known,
        call_ensures(HostBlocker::state_of, (&*final(blocked), key), after) ==> after is None,
        !still_known,
{
}

/// A host is listed exactly where it is blocked, and once.
pub proof fn law_listed_where_blocked(
    b: HostBlocker,
    now: u64,
    list: Vec<(String, u64)>,
    key: &str,
    blocked: bool,
)
    requires
        call_ensures(HostBlocker::blocked_hosts, (&b, now), list),
        call_ensures(HostBlocker::is_key_blocked, (&b, key, now), blocked),
    ensures
        blocked <==> exists|i: int| 0 <= i < list@.len() && #[trigger] list@[i].0@ == key@,
        forall|i: int, j: int|
            0 <= i < j < list@.len() ==> #[trigger] list@[i].0@ != #[trigger] list@[j].0@,
{
    if blocked {
        assert(blocked_table(b@, now).contains_key(key@));
    }
}

/// A host that is listed with `ms` milliseconds stays blocked for that long, and is free a
/// millisecond after. Left out are blocks that end so far ahead that their milliseconds cannot be
/// held; a block of which the start has been reached is none of them.
pub proof fn law_listed_time_is_what_is_left(
    b: HostBlocker,
    now: u64,
    list: Vec<(String, u64)>,
    i: int,
    key: &str,
    state: Option<HostState>,
    later: u64,
    blocked: bool,
)
    requires
        call_ensures(HostBlocker::blocked_hosts, (&b, now), list),
        0 <= i < list@.len(),
        key@ == list@[i].0@,
        call_ensures(HostBlocker::state_of, (&b, key), state),
        state matches Some(s) && s.blocked_until matches Some(until) ==> until <= now + u64::MAX
            * 1_000_000,
        call_ensures(HostBlocker::is_key_blocked, (&b, key, later), blocked),
    ensures
        later < now + list@[i].1 * 1_000_000 ==> blocked,
        later >= now + (list@[i].1 + 1) * 1_000_000 ==> !blocked,
{
    assert(blocked_table(b@, now).contains_key(list@[i].0@));
}

/// The same of a URL that names the host that is listed.
pub proof fn law_listed_time_is_what_is_left_for_a_url(
    b: HostBlocker,
    now: u64,
    list: Vec<(String, u64)>,
    i: int,
    url: &str,
    own: Option<String>,
    key: &str,
    state: Option<HostState>,
    later: u64,
    blocked: bool,
)
    requires
        call_ensures(HostBlocker::blocked_hosts, (&b, now), list),
        0 <= i < list@.len(),
        call_ensures(HostBlocker::host_key, (url,), own),
        own matches Some(k) && k@ == list@[i].0@ && key@ == k@,
        call_ensures(HostBlocker::state_of, (&b, key), state),
        state matches Some(s) && s.blocked_until matches Some(until) ==> until <= now + u64::MAX
            * 1_000_000,
        call_ensures(HostBlocker::is_blocked, (&b, url, later), blocked),
    ensures
        later < now + list@[i].1 * 1_000_000 ==> blocked,
        later >= now + (list@[i].1 + 1) * 1_000_000 ==> !blocked,
{
    assert(blocked_table(b@, now).contains_key(list@[i].0@));
}

/// A host that a failure blocked is listed, from then on, with the whole milliseconds that are left
/// of the wait that the failure returned, until that is over; it stays blocked for what is listed,
/// and is free a millisecond after.
pub proof fn law_block_by_failure_is_listed(
    b: &mut HostBlocker,
    url: &str,
    start: u64,
    grown_cooldown_ms: u64,
    wait_ms: u64,
    key: Option<String>,
    host: &str,
    before: Option<HostState>,
    now: u64,
    list: Vec<(String, u64)>,
    later: u64,
    blocked: bool,
)
    requires
        call_ensures(
            HostBlocker::record_transport_failure,
            (b, url, start, grown_cooldown_ms),
            Some(wait_ms),
        ),
        call_ensures(HostBlocker::host_key, (url,), key),
        key matches Some(k) ==> host@ == k@,
        call_ensures(HostBlocker::state_of, (&*old(b), host), before),
        before matches Some(s) ==> s.failures < u32::MAX,
        start <= now,
        call_ensures(HostBlocker::blocked_hosts, (&*final(b), now), list),
        call_ensures(HostBlocker::is_blocked, (&*final(b), url, later), blocked),
    ensures
        key is Some,
        (exists|i: int| 0 <= i < list@.len() && #[trigger] list@[i].0@ == (key->0)@) <==> now
            < start + wait_ms * 1_000_000,
        forall|i: int|
            0 <= i < list@.len() && #[trigger] list@[i].0@ == (key->0)@ ==> {
                &&& list@[i].1 == (start + wait_ms * 1_000_000 - now) / 1_000_000
                &&& later < now + list@[i].1 * 1_000_000 ==> blocked
                &&& later >= now + (list@[i].1 + 1) * 1_000_000 ==> !blocked
            },
{
    let hosts = final(b)@;
    let k = (key->0)@;
    assert(hosts.contains_key(k) && hosts[k].blocked_until == Some(block_end(start, wait_ms)));
    lemma_block_is_listed(hosts, k, start, wait_ms, now, list@);
}

/// A host that was blocked by hand is listed, from then on, with the whole milliseconds that are left
/// of the time given, or of a second, until that is over; it stays blocked for what is listed, and is
/// free a millisecond after.
pub proof fn law_block_by_hand_is_listed(
    b: &mut HostBlocker,
    host: &str,
    duration_ms: u64,
    start: u64,
    res: String,
    now: u64,
    list: Vec<(String, u64)>,
    key: &str,
    later: u64,
    blocked: bool,
)
    requires
        call_ensures(HostBlocker::block_manual, (b, host, duration_ms, start), res),
        start <= now,
        call_ensures(HostBlocker::blocked_hosts, (&*final(b), now), list),
        key@ == res@,
        call_ensures(HostBlocker::is_key_blocked, (&*final(b), key, later), blocked),
    ensures
        ({
            let wait_ms: int = if duration_ms < 1_000 {
                1_000
            } else {
                duration_ms as int
            };
            &&& (exists|i: int| 0 <= i < list@.len() && #[trigger] list@[i].0@ == res@) <==> now
                < start + wait_ms * 1_000_000
            &&& forall|i: int|
                0 <= i < list@.len() && #[trigger] list@[i].0@ == res@ ==> {
                    &&& list@[i].1 == (start + wait_ms * 1_000_000 - now) / 1_000_000
                    &&& later < now + list@[i].1 * 1_000_000 ==> blocked
                    &&& later >= now + (list@[i].1 + 1) * 1_000_000 ==> !blocked
                }
        }),
{
    let hosts = final(b)@;
    let wait_ms: u64 = if duration_ms < 1_000 {
        1_000
    } else {
        duration_ms
    };
    assert(hosts.contains_key(res@) && hosts[res@].blocked_until == Some(
        block_end(start, wait_ms),
    ));
    lemma_block_is_listed(hosts, res@, start, wait_ms, now, list@);
}

proof fn lemma_block_is_listed(
    hosts: Map<Seq<char>, HostState>,
    key: Seq<char>,
    start: u64,
    wait_ms: u64,
    now: u64,
    list: Seq<(String, u64)>,
)
    requires
        hosts.contains_key(key),
        hosts[key].blocked_until == Some(block_end(start, wait_ms)),
        start <= now,
        lists_table(list, blocked_table(hosts, now)),
    ensures
        block_end(start, wait_ms) == start + wait_ms * 1_000_000,
        (exists|i: int| 0 <= i < list.len() && #[trigger] list[i].0@ == key) <==> now < start
            + wait_ms * 1_000_000,
        forall|i: int|
            0 <= i < list.len() && #[trigger] list[i].0@ == key ==> list[i].1 == (start + wait_ms
                * 1_000_000 - now) / 1_000_000,
{
    let table = blocked_table(hosts, now);
    assert(block_end(start, wait_ms) == start + wait_ms * 1_000_000);
    assert(table.contains_key(key) <==> now < start + wait_ms * 1_000_000);
    if table.contains_key(key) {
        let i = choose|i: int| 0 <= i < list.len() && #[trigger] list[i].0@ == key;
        assert(list[i].0@ == key);
    }
    assert forall|i: int| 0 <= i < list.len() && #[trigger] list[i].0@ == key implies list[i].1 == (
    start + wait_ms * 1_000_000 - now) / 1_000_000 by {
        assert(table.contains_key(list[i].0@));
    }
}

} // verus!
