use bettermq::host_blocker::{HostBlocker, HostBlockerConfig};
use bettermq::outside::UrlParts;

const MS: u64 = 1_000_000;

fn breaker() -> HostBlocker {
    HostBlocker::new(HostBlockerConfig {
        failures_before_block: 2,
        initial_cooldown_ms: 100,
        max_cooldown_ms: 350,
    })
}

#[test]
fn host_key_fills_in_the_port() {
    assert_eq!(
        HostBlocker::host_key("https://example.com/x"),
        Some("https://example.com:443".to_string())
    );
    assert_eq!(
        HostBlocker::host_key("http://example.com"),
        Some("http://example.com:80".to_string())
    );
    assert_eq!(
        HostBlocker::host_key("http://example.com:8080/a?b#c"),
        Some("http://example.com:8080".to_string())
    );
    assert_eq!(
        HostBlocker::host_key("https://example.com:443/"),
        Some("https://example.com:443".to_string())
    );
}

#[test]
fn host_key_of_a_scheme_without_tls_port_is_eighty() {
    assert_eq!(
        HostBlocker::host_key("wss://example.com/socket"),
        Some("wss://example.com:80".to_string())
    );
    assert_eq!(
        HostBlocker::host_key("ftp://example.com/file"),
        Some("ftp://example.com:80".to_string())
    );
}

#[test]
fn host_key_is_normalised() {
    assert_eq!(
        HostBlocker::host_key("HTTPS://user:pw@EXAMPLE.com/x"),
        Some("https://example.com:443".to_string())
    );
    assert_eq!(
        HostBlocker::host_key("http://[::1]:9000/"),
        Some("http://[::1]:9000".to_string())
    );
}

#[test]
fn text_without_host_has_no_key() {
    assert_eq!(HostBlocker::host_key("example.com"), None);
    assert_eq!(HostBlocker::host_key(""), None);
    assert_eq!(HostBlocker::host_key("mailto:a@example.com"), None);
    assert_eq!(HostBlocker::host_key("data:text/plain,x"), None);
}

#[test]
fn key_of_url_parts() {
    let parts = |scheme: &str, host: Option<&str>, port: Option<u16>| {
        HostBlocker::host_key_of(Some(UrlParts {
            scheme: scheme.to_string(),
            host: host.map(|h| h.to_string()),
            port,
        }))
    };
    assert_eq!(parts("https", Some("h"), None), Some("https://h:443".to_string()));
    assert_eq!(parts("http", Some("h"), None), Some("http://h:80".to_string()));
    assert_eq!(parts("https", Some("h"), Some(65535)), Some("https://h:65535".to_string()));
    assert_eq!(parts("https", Some("h"), Some(0)), Some("https://h:0".to_string()));
    assert_eq!(parts("https", None, Some(1)), None);
    assert_eq!(HostBlocker::host_key_of(None), None);
}

#[test]
fn default_configuration() {
    let cfg = HostBlockerConfig::default();
    assert_eq!(cfg.failures_before_block, 3);
    assert_eq!(cfg.initial_cooldown_ms, 30_000);
    assert_eq!(cfg.max_cooldown_ms, 900_000);
    let b = HostBlocker::default();
    assert_eq!(b.cooldown_ms("http://h/"), Some(30_000));
    assert!(b.blocked_hosts(0).is_empty());
}

#[test]
fn run_of_failures_blocks_from_the_configured_number_on() {
    let mut b = breaker();
    let url = "http://h/a";
    assert_eq!(b.record_transport_failure(url, 0, 200), None);
    assert!(!b.is_blocked(url, 0));
    assert_eq!(b.cooldown_ms(url), Some(100));
    assert_eq!(b.record_transport_failure(url, 5 * MS, 200), Some(100));
    assert!(b.is_blocked("http://h/other", 5 * MS));
    assert!(b.is_blocked(url, 105 * MS - 1));
    assert!(!b.is_blocked(url, 105 * MS));
    assert_eq!(b.cooldown_ms(url), Some(200));
    assert_eq!(b.record_transport_failure(url, 200 * MS, 400), Some(200));
    assert!(b.is_blocked(url, 400 * MS - 1));
    assert!(!b.is_blocked(url, 400 * MS));
    // The grown cooldown is capped.
    assert_eq!(b.cooldown_ms(url), Some(350));
    let state = b.state_of("http://h:80").unwrap();
    assert_eq!(state.failures, 3);
    assert_eq!(state.blocked_until, Some(400_000_000));
    assert_eq!(state.cooldown_ms, 350);
}

#[test]
fn one_failure_blocks_where_none_is_tolerated() {
    let mut b = HostBlocker::new(HostBlockerConfig {
        failures_before_block: 0,
        initial_cooldown_ms: 7,
        max_cooldown_ms: 5,
    });
    assert_eq!(b.record_transport_failure("http://h/", 0, 14), Some(7));
    assert!(b.is_blocked("http://h/", 6 * MS));
    assert!(!b.is_blocked("http://h/", 7 * MS));
    assert_eq!(b.cooldown_ms("http://h/"), Some(5));
}

#[test]
fn success_starts_afresh() {
    let mut b = breaker();
    let url = "https://h/";
    b.record_transport_failure(url, 0, 200);
    b.record_transport_failure(url, 0, 200);
    assert!(b.is_blocked(url, 0));
    b.record_success("https://h/elsewhere");
    assert!(!b.is_blocked(url, 0));
    assert!(b.state_of("https://h:443").is_none());
    assert_eq!(b.cooldown_ms(url), Some(100));
    assert_eq!(b.record_transport_failure(url, 0, 200), None);
}

#[test]
fn hosts_are_independent() {
    let mut b = breaker();
    b.record_transport_failure("http://a/", 0, 200);
    b.record_transport_failure("http://b/", 0, 200);
    b.record_transport_failure("http://a:81/", 0, 200);
    assert!(!b.is_blocked("http://a/", 0));
    assert_eq!(b.record_transport_failure("http://a/", 0, 200), Some(100));
    assert!(b.is_blocked("http://a/", 0));
    assert!(!b.is_blocked("http://b/", 0));
    assert!(!b.is_blocked("http://a:81/", 0));
    b.record_success("http://b/");
    assert!(b.is_blocked("http://a/", 0));
}

#[test]
fn text_without_host_changes_nothing() {
    let mut b = breaker();
    assert_eq!(b.record_transport_failure("nowhere", 0, 200), None);
    assert_eq!(b.try_record_transport_failure("nowhere", 0, 200), Some(None));
    b.record_success("nowhere");
    assert!(!b.is_blocked("nowhere", 0));
    assert_eq!(b.cooldown_ms("nowhere"), None);
    assert!(b.state_of("nowhere").is_none());
}

#[test]
fn failures_are_counted_as_far_as_they_can_be() {
    let mut b = HostBlocker::new(HostBlockerConfig {
        failures_before_block: u32::MAX,
        initial_cooldown_ms: 100,
        max_cooldown_ms: 350,
    });
    assert_eq!(b.try_record_transport_failure("http://h/", 0, 200), Some(None));
    b.block_manual("http://g/", 2_000, 0);
    assert_eq!(b.state_of("http://g:80").unwrap().failures, u32::MAX);
    assert_eq!(b.try_record_transport_failure("http://g/", MS, 200), None);
    let state = b.state_of("http://g:80").unwrap();
    assert_eq!(state.failures, u32::MAX);
    assert_eq!(state.blocked_until, Some(2_000_000_000));
}

#[test]
fn manual_block_lasts_for_its_time() {
    let mut b = breaker();
    assert_eq!(b.block_manual("https://h/x", 5_000, 10), "https://h:443");
    assert!(b.is_blocked("https://h/", 5_000 * MS + 9));
    assert!(!b.is_blocked("https://h/", 5_000 * MS + 10));
    let state = b.state_of("https://h:443").unwrap();
    assert_eq!(state.failures, 2);
    assert_eq!(state.cooldown_ms, 5_000);
}

#[test]
fn manual_block_lasts_at_least_a_second() {
    let mut b = breaker();
    b.block_manual("http://h/", 5, 0);
    assert!(b.is_blocked("http://h/", 1_000 * MS - 1));
    assert!(!b.is_blocked("http://h/", 1_000 * MS));
    assert_eq!(b.cooldown_ms("http://h/"), Some(5));
    b.block_manual("http://g/", u64::MAX, u64::MAX);
    assert!(b.is_blocked("http://g/", u64::MAX));
}

#[test]
fn unblocking_undoes_a_block() {
    let mut b = breaker();
    let key = b.block_manual("http://h/path", 60_000, 0);
    assert!(b.unblock(&key));
    assert!(!b.is_blocked("http://h/", 0));
    assert!(!b.unblock(&key));
    b.block_manual("http://h/", 60_000, 0);
    assert!(b.unblock("http://h/another"));
    assert!(b.blocked_hosts(0).is_empty());
}

#[test]
fn plain_key_is_trimmed_when_blocked_only() {
    let mut b = breaker();
    assert_eq!(b.block_manual("  my-host \u{2003}", 60_000, 0), "my-host");
    assert!(!b.unblock("  my-host \u{2003}"));
    assert!(b.unblock("my-host"));
}

#[test]
fn key_that_is_no_url_is_kept() {
    let mut b = breaker();
    assert_eq!(b.block_manual(" ://x ", 60_000, 0), "://x");
    assert!(b.is_key_blocked("://x", 0));
    assert!(b.unblock("://x"));
}

#[test]
fn key_that_becomes_a_url_once_trimmed() {
    // A no-break space is trimmed, but not by the URL parser: the key is not normalised when it
    // is set, and is when it is looked for.
    let mut b = breaker();
    let key = b.block_manual("\u{a0}http://x", 60_000, 0);
    assert_eq!(key, "http://x");
    assert!(!b.unblock(&key));
    assert!(b.is_key_blocked("http://x", 0));
}

#[test]
fn blocked_hosts_are_listed_with_what_is_left() {
    let mut b = breaker();
    b.block_manual("a", 2_000, 0);
    b.block_manual("b", 3_000, 0);
    b.record_transport_failure("http://c/", 0, 200);
    let mut listed = b.blocked_hosts(500 * MS + 1);
    listed.sort();
    assert_eq!(listed, vec![("a".to_string(), 1_499), ("b".to_string(), 2_499)]);
    let listed = b.blocked_hosts(2_000 * MS);
    assert_eq!(listed, vec![("b".to_string(), 1_000)]);
    assert!(b.blocked_hosts(3_000 * MS).is_empty());
    b.block_manual("b", 10_000, 0);
    assert_eq!(b.blocked_hosts(3_000 * MS), vec![("b".to_string(), 7_000)]);
}

#[test]
fn cooldown_of_a_key() {
    let mut b = breaker();
    assert_eq!(b.key_cooldown_ms("k"), 100);
    assert_eq!(b.record_key_failure("k".to_string(), 0, 150), None);
    assert_eq!(b.record_key_failure("k".to_string(), 0, 150), Some(100));
    assert_eq!(b.key_cooldown_ms("k"), 150);
    assert!(b.forget("k"));
    assert!(!b.forget("k"));
    b.block_key_manual("k".to_string(), 1_500, 0);
    assert!(b.is_key_blocked("k", 1_499 * MS));
}

#[test]
fn web_urls_share_a_key_where_their_hosts_agree() {
    let key = |url: &str| HostBlocker::host_key(url).unwrap();
    let same = ["http://h", "http://u:p@h/x?y#z", "HTTP://H:80/", "http:h", "http://h:80?q"];
    for url in same {
        assert_eq!(key(url), key("http://h/"));
    }
    for url in ["https://h", "http://h:443", "http://h2", "http://h.", "https://h:80"] {
        assert_ne!(key(url), key("http://h/"));
    }
}

#[test]
fn key_of_a_web_url_is_its_own_key() {
    for url in [
        "http://example.com",
        "https://example.com/x",
        "https://example.com:8443",
        "http://h:443",
        "http://[2001:DB8::0:1]/",
        "https://[::ffff:1.2.3.4]:1",
        "http://0x7f.1/",
        "http://a_b.~c./",
        "http://ｅｘ.com",
        "http://h:0",
        "http://a-xn--b.xn-/",
        "https://xn--mnchen-3ya.de/x?y",
        "HTTP://WWW.XN--Mnchen-3YA.DE:81",
        "http://xn--4dbrk0ce/",
        "http://1.xn.ab--c/",
    ] {
        let key = HostBlocker::host_key(url).unwrap();
        assert_eq!(HostBlocker::host_key(&key), Some(key.clone()));
        let mut b = breaker();
        assert_eq!(b.block_manual(url, 5_000, 0), key);
        assert!(b.is_blocked(url, 0));
        assert!(b.unblock(&key));
        assert!(!b.is_blocked(url, 0));
        assert!(!b.unblock(&key));
    }
}

#[test]
fn key_of_a_very_long_international_name_is_no_url() {
    let name: String = (0..900u32).map(|i| char::from_u32(0x4e00 + 20 * i).unwrap()).collect();
    let key = HostBlocker::host_key(&format!("http://{name}/")).unwrap();
    assert!(key.starts_with("http://xn--"));
    assert_eq!(HostBlocker::host_key(&key), None);
}

#[test]
fn blocks_double_up_to_the_cap() {
    let mut b = HostBlocker::default();
    let url = "http://h/";
    let mut now: u64 = 0;
    for n in 1..=12u32 {
        let grown = 2 * b.cooldown_ms(url).unwrap();
        let blocked = b.record_transport_failure(url, now, grown);
        if n < 3 {
            assert_eq!(blocked, None);
            assert!(!b.is_blocked(url, now));
        } else {
            let wait = (30_000 * 2u64.pow(n - 3)).min(900_000);
            assert_eq!(blocked, Some(wait));
            assert!(b.is_blocked(url, now + wait * MS - 1));
            assert!(!b.is_blocked(url, now + wait * MS));
            // Some failures come while the host is blocked, some long after.
            now += if n % 2 == 0 { 5 * MS } else { 2 * wait * MS };
        }
    }
}

#[test]
fn first_block_is_not_capped() {
    let mut b = HostBlocker::new(HostBlockerConfig {
        failures_before_block: 1,
        initial_cooldown_ms: 500,
        max_cooldown_ms: 200,
    });
    assert_eq!(b.record_transport_failure("http://h/", 0, 1_000), Some(500));
    assert_eq!(b.record_transport_failure("http://h/", 0, 400), Some(200));
}
