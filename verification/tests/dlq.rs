use bettermq::dlq::{
    check_dlq_delete, classify_dlq_topic, collect_dlq_topic_candidates, default_limit,
    dlq_delete_outcome, dlq_listing, dlq_source_label, dlq_source_response, listing_label,
    member_text, parse_dlq_payload, resolve_dlq_topic, sort_dlq_sources, source_by_ids,
    to_dlq_message, DeleteDlqQuery, DlqQuery, DlqSource, DlqSourceResponse, GroupMembers,
    StoredMessage, COUNT_LIMIT,
};
use bettermq::error::ApiError;
use bettermq::ids::Uuid;
use bettermq::outside::{JsonDocument, JsonMember};
use bettermq::topic::{
    direct_topic, dlq_topic, group_member_dlq_topic, is_dlq_topic,
};
use std::collections::BTreeSet;

const GROUP: Uuid = Uuid { bits: 0x0123_4567_89ab_cdef_0011_2233_4455_6677 };
const MEMBER: Uuid = Uuid { bits: 0xfedc_ba98_7654_3210_8899_aabb_ccdd_eeff };
const GROUP_TOPIC: &str =
    "__group.01234567-89ab-cdef-0011-223344556677.fedcba98-7654-3210-8899-aabbccddeeff.__dlq";

fn query(queue: Option<&str>, topic: Option<&str>) -> DlqQuery {
    DlqQuery {
        queue: queue.map(|s| s.to_string()),
        dlq_topic: topic.map(|s| s.to_string()),
        limit: default_limit(),
    }
}

fn refused(q: DlqQuery) -> String {
    match resolve_dlq_topic(&q) {
        Err(ApiError::BadRequest(m)) => m,
        other => panic!("not refused: {other:?}"),
    }
}

fn message(payload: &[u8]) -> StoredMessage {
    StoredMessage {
        id: MEMBER,
        routing_key: "k".to_string(),
        payload: payload.to_vec(),
        published_at_ms: -5,
        partition: 3,
        offset: 9,
    }
}

fn source(topic: &str, label: &str, count: usize) -> DlqSourceResponse {
    DlqSourceResponse {
        dlq_topic: topic.to_string(),
        kind: "queue".to_string(),
        label: label.to_string(),
        count,
        queue: None,
    }
}

#[test]
fn limits() {
    assert_eq!(default_limit(), 10);
    assert_eq!(COUNT_LIMIT, 10_000);
}

#[test]
fn topic_names() {
    assert_eq!(direct_topic(), "__direct");
    assert_eq!(dlq_topic("jobs"), "jobs.__dlq");
    assert_eq!(dlq_topic(direct_topic()), "__direct.__dlq");
    assert_eq!(group_member_dlq_topic(GROUP, MEMBER), GROUP_TOPIC);
    assert!(is_dlq_topic("jobs.__dlq"));
    assert!(is_dlq_topic(".__dlq"));
    assert!(is_dlq_topic(GROUP_TOPIC));
    assert!(!is_dlq_topic("jobs"));
    assert!(!is_dlq_topic("jobs.__dlq.x"));
    assert!(!is_dlq_topic("__dlq"));
}

#[test]
fn query_by_queue_or_by_topic() {
    assert_eq!(resolve_dlq_topic(&query(Some("jobs"), None)).unwrap(), "jobs.__dlq");
    assert_eq!(resolve_dlq_topic(&query(None, Some(GROUP_TOPIC))).unwrap(), GROUP_TOPIC);
    // The topic goes before the queue, even before an empty one.
    assert_eq!(
        resolve_dlq_topic(&query(Some(""), Some("a.__dlq"))).unwrap(),
        "a.__dlq"
    );
    assert_eq!(
        resolve_dlq_topic(&query(Some("a.__dlq"), None)).unwrap(),
        "a.__dlq.__dlq"
    );
}

#[test]
fn query_that_makes_no_sense_is_refused() {
    assert_eq!(
        refused(query(Some("jobs"), Some("jobs"))),
        "dlq_topic must end with .__dlq (got jobs)"
    );
    assert_eq!(refused(query(None, Some(""))), "dlq_topic must end with .__dlq (got )");
    assert_eq!(refused(query(Some(""), None)), "queue must not be empty");
    assert_eq!(refused(query(None, None)), "provide queue or dlq_topic query parameter");
}

#[test]
fn payload_says_where_it_came_from() {
    let (queue, url) =
        parse_dlq_payload(r#"{"source_queue":"jobs","destination_url":"http:\/\/h","n":1}"#);
    assert_eq!(queue.as_deref(), Some("jobs"));
    assert_eq!(url.as_deref(), Some("http://h"));
    let (queue, url) = parse_dlq_payload(r#"{"source_queue":7,"destination_url":""}"#);
    assert_eq!(queue, None);
    assert_eq!(url.as_deref(), Some(""));
    let (queue, url) = parse_dlq_payload(r#"{"source_queue":"a","source_queue":"b"}"#);
    assert_eq!(queue.as_deref(), Some("b"));
    assert_eq!(url, None);
}

#[test]
fn payload_that_is_no_object_says_nothing() {
    for body in [
        "",
        "text",
        "{",
        "{\"source_queue\":\"a\"} x",
        "[]",
        "7",
        "true",
        "\"source_queue\"",
        "null",
        "[{\"source_queue\":\"a\"}]",
    ] {
        assert_eq!(parse_dlq_payload(body), (None, None));
    }
}

#[test]
fn last_member_of_a_name_counts() {
    let member = |name: &str, text: Option<&str>| JsonMember {
        name: name.to_string(),
        text: text.map(|t| t.to_string()),
    };
    let object = |members: Vec<JsonMember>| Some(JsonDocument { members: Some(members) });
    let document = object(vec![
        member("a", Some("1")),
        member("b", None),
        member("a", Some("2")),
        member("c", Some("3")),
    ]);
    assert_eq!(member_text(&document, "a").as_deref(), Some("2"));
    assert_eq!(member_text(&document, "b"), None);
    assert_eq!(member_text(&document, "c").as_deref(), Some("3"));
    assert_eq!(member_text(&document, "d"), None);
    assert_eq!(member_text(&None, "a"), None);
    assert_eq!(member_text(&Some(JsonDocument { members: None }), "a"), None);
    let document = object(vec![member("a", Some("1")), member("a", None)]);
    assert_eq!(member_text(&document, "a"), None);
}

#[test]
fn stored_message_is_listed() {
    let m = to_dlq_message(message(r#"{"source_queue":"größe"}"#.as_bytes()));
    assert_eq!(m.message_id, MEMBER);
    assert_eq!(m.key, "k");
    assert_eq!(m.body, r#"{"source_queue":"größe"}"#);
    assert_eq!(m.published_at_ms, -5);
    assert_eq!(m.partition, 3);
    assert_eq!(m.offset, 9);
    assert_eq!(m.source_queue.as_deref(), Some("größe"));
    assert_eq!(m.destination_url, None);
}

#[test]
fn invalid_utf8_is_replaced() {
    let m = to_dlq_message(message(b"a\xffb"));
    assert_eq!(m.body, "a\u{fffd}b");
    assert_eq!(m.source_queue, None);
}

#[test]
fn listing_is_called_by_its_queue() {
    assert_eq!(listing_label(&query(Some("q"), None), "jobs.__dlq"), "q");
    assert_eq!(listing_label(&query(None, None), "jobs.__dlq"), "jobs");
    assert_eq!(listing_label(&query(None, None), GROUP_TOPIC), GROUP_TOPIC);
    assert_eq!(listing_label(&query(None, None), "__direct.__dlq"), "__direct");
    assert_eq!(listing_label(&query(None, None), "other"), "other");
}

#[test]
fn listing_keeps_the_order_of_messages() {
    let q = query(None, Some("jobs.__dlq"));
    let listing = dlq_listing(
        &q,
        "jobs.__dlq".to_string(),
        vec![message(b"one"), message(b"two"), message(b"one")],
    );
    assert_eq!(listing.queue, "jobs");
    assert_eq!(listing.dlq_topic, "jobs.__dlq");
    let bodies: Vec<&str> = listing.messages.iter().map(|m| m.body.as_str()).collect();
    assert_eq!(bodies, vec!["one", "two", "one"]);
}

#[test]
fn deletion_is_checked_and_answered() {
    let q = |topic: &str| DeleteDlqQuery {
        dlq_topic: topic.to_string(),
        partition: 0,
        offset: 0,
    };
    assert!(check_dlq_delete(&q("a.__dlq")).is_ok());
    assert!(matches!(
        check_dlq_delete(&q("a")),
        Err(ApiError::BadRequest(m)) if m == "dlq_topic must end with .__dlq"
    ));
    assert!(matches!(dlq_delete_outcome(true), Ok(204)));
    assert!(matches!(
        dlq_delete_outcome(false),
        Err(ApiError::BadRequest(m)) if m == "DLQ message not found"
    ));
}

#[test]
fn group_topic_names_its_member() {
    assert!(matches!(
        classify_dlq_topic(GROUP_TOPIC),
        DlqSource::GroupMember { group: GROUP, member: MEMBER }
    ));
    for bits in [0u128, 1, u128::MAX, 0x8000_0000_0000_4000_8000_0000_0000_0001] {
        let id = Uuid { bits };
        let DlqSource::GroupMember { group, member } =
            classify_dlq_topic(&group_member_dlq_topic(id, GROUP))
        else {
            panic!("not recognised");
        };
        assert_eq!((group, member), (id, GROUP));
    }
}

#[test]
fn group_topic_may_write_its_identifiers_otherwise() {
    let topic = "__group.0123456789ABCDEF0011223344556677.{fedcba98-7654-3210-8899-aabbccddeeff}.__dlq";
    assert!(matches!(
        classify_dlq_topic(topic),
        DlqSource::GroupMember { group: GROUP, member: MEMBER }
    ));
    // What follows the first suffix is not looked at.
    let topic = format!("{GROUP_TOPIC}.more");
    assert!(matches!(
        classify_dlq_topic(&topic),
        DlqSource::GroupMember { group: GROUP, member: MEMBER }
    ));
}

#[test]
fn forms_of_identifiers() {
    let hyphenated = "01234567-89ab-cdef-0011-223344556677";
    let member = "fedcba98-7654-3210-8899-aabbccddeeff";
    let ids = |text: &str| match classify_dlq_topic(&format!("__group.{text}.{member}.__dlq")) {
        DlqSource::GroupMember { group, .. } => Some(group),
        _ => None,
    };
    for text in [
        hyphenated.to_string(),
        hyphenated.to_uppercase(),
        hyphenated.replace('-', ""),
        hyphenated.replace('-', "").to_uppercase(),
        format!("{{{hyphenated}}}"),
        format!("urn:uuid:{hyphenated}"),
        format!("URN:Uuid:{}", hyphenated.to_uppercase()),
    ] {
        assert_eq!(ids(&text), Some(GROUP));
    }
    for text in [
        format!("{{{}}}", hyphenated.replace('-', "")),
        format!("{{{hyphenated}"),
        format!("urn:uuid:{}", hyphenated.replace('-', "")),
        format!("urn-uuid:{hyphenated}"),
        format!("{hyphenated}0"),
        hyphenated[..35].to_string(),
        hyphenated.replace('a', "g"),
        hyphenated.replace('-', "_"),
        "0123456-789ab-cdef-0011-223344556677".to_string(),
        "é1234567-89ab-cdef-0011-22334455667".to_string(),
        String::new(),
    ] {
        assert_eq!(ids(&text), None);
        assert!(uuid::Uuid::parse_str(&text).is_err());
    }
}

#[test]
fn topics_of_queues_and_others() {
    assert!(matches!(classify_dlq_topic("__direct.__dlq"), DlqSource::Direct));
    assert!(matches!(classify_dlq_topic("jobs.__dlq"), DlqSource::Queue(q) if q == "jobs"));
    assert!(matches!(classify_dlq_topic(".__dlq"), DlqSource::Queue(q) if q.is_empty()));
    assert!(matches!(
        classify_dlq_topic("__group.a.b.__dlq"),
        DlqSource::Queue(q) if q == "__group.a.b"
    ));
    assert!(matches!(
        classify_dlq_topic("__group.x.__dlq"),
        DlqSource::Queue(q) if q == "__group.x"
    ));
    let extra = format!("__group.{}.x.__dlq", "01234567-89ab-cdef-0011-223344556677");
    assert!(matches!(classify_dlq_topic(&extra), DlqSource::Queue(_)));
    assert!(matches!(classify_dlq_topic("jobs"), DlqSource::Other));
    assert!(matches!(classify_dlq_topic("__group.x"), DlqSource::Other));
}

#[test]
fn source_by_given_identifiers() {
    let ids = Some((GROUP, MEMBER));
    assert!(matches!(source_by_ids("__direct.__dlq", ids), DlqSource::Direct));
    assert!(matches!(
        source_by_ids("anything", ids),
        DlqSource::GroupMember { group: GROUP, member: MEMBER }
    ));
    assert!(matches!(source_by_ids("a.__dlq", None), DlqSource::Queue(q) if q == "a"));
    assert!(matches!(source_by_ids("a", None), DlqSource::Other));
}

#[test]
fn labels_of_sources() {
    let label = |source: DlqSource, group: Option<&str>, member: Option<&str>| {
        dlq_source_label(
            source,
            "the-topic",
            group.map(|s| s.to_string()),
            member.map(|s| s.to_string()),
        )
    };
    assert_eq!(
        label(DlqSource::Direct, None, None),
        ("direct".to_string(), "Direct publish".to_string(), Some("__direct".to_string()))
    );
    let both = || DlqSource::GroupMember { group: GROUP, member: MEMBER };
    assert_eq!(
        label(both(), Some("team"), Some("ann")),
        ("group_member".to_string(), "Group team → ann".to_string(), None)
    );
    assert_eq!(
        label(both(), None, Some("ann")).1,
        "Group 01234567-89ab-cdef-0011-223344556677 → ann"
    );
    assert_eq!(
        label(both(), Some("team"), None).1,
        "Group team → fedcba98-7654-3210-8899-aabbccddeeff"
    );
    assert_eq!(
        label(DlqSource::Queue("jobs".to_string()), None, None),
        ("queue".to_string(), "Queue: jobs".to_string(), Some("jobs".to_string()))
    );
    assert_eq!(
        label(DlqSource::Other, None, None),
        ("other".to_string(), "the-topic".to_string(), None)
    );
}

#[test]
fn listed_queue_leads_back() {
    for topic in ["jobs.__dlq", "__direct.__dlq", "__group.x.__dlq", "a.b.__dlq"] {
        let r = dlq_source_response(
            topic.to_string(),
            classify_dlq_topic(topic),
            None,
            None,
            4,
        );
        assert_eq!(r.dlq_topic, topic);
        assert_eq!(r.count, 4);
        let queue = r.queue.expect("a queue to ask for");
        assert_eq!(resolve_dlq_topic(&query(Some(&queue), None)).unwrap(), topic);
    }
    // An empty queue cannot be asked for.
    let r = dlq_source_response(".__dlq".to_string(), classify_dlq_topic(".__dlq"), None, None, 0);
    assert_eq!(r.queue.as_deref(), Some(""));
    assert_eq!(refused(query(Some(""), None)), "queue must not be empty");
}

#[test]
fn sources_are_sorted_by_count_then_label() {
    let sorted = sort_dlq_sources(vec![
        source("1", "b", 1),
        source("2", "a", 5),
        source("3", "a", 1),
        source("4", "b", 1),
        source("5", "Z", 5),
        source("6", "", 0),
        source("7", "a", 1),
    ]);
    let order: Vec<&str> = sorted.iter().map(|s| s.dlq_topic.as_str()).collect();
    assert_eq!(order, vec!["5", "2", "3", "7", "1", "4", "6"]);
    assert!(sort_dlq_sources(Vec::new()).is_empty());
}

#[test]
fn sorting_is_that_of_std() {
    let labels = ["x", "xy", "é", "\u{10348}", "\u{ffff}", "", "Queue: a", "x"];
    let make = || {
        let mut v = Vec::new();
        for (i, label) in labels.iter().enumerate() {
            for count in [3usize, 1, 3] {
                v.push(source(&format!("{i}-{}", v.len()), label, count));
            }
        }
        v
    };
    let mut expected = make();
    expected.sort_by(|a, b| b.count.cmp(&a.count).then_with(|| a.label.cmp(&b.label)));
    let expected: Vec<String> = expected.into_iter().map(|s| s.dlq_topic).collect();
    let sorted: Vec<String> =
        sort_dlq_sources(make()).into_iter().map(|s| s.dlq_topic).collect();
    assert_eq!(sorted, expected);
}

#[test]
fn candidates_are_ordered_and_distinct() {
    let queues: Vec<String> = ["b", "a", "b", "__direct", "ü", "\u{10348}", "\u{ffff}"]
        .iter()
        .map(|s| s.to_string())
        .collect();
    let groups = vec![
        GroupMembers { group: GROUP, members: vec![MEMBER, GROUP, MEMBER] },
        GroupMembers { group: MEMBER, members: Vec::new() },
    ];
    let on_disk = vec!["a.__dlq".to_string(), "zz.__dlq".to_string(), "stray".to_string()];
    let mut expected: BTreeSet<String> = BTreeSet::new();
    expected.insert(dlq_topic("__direct"));
    for q in &queues {
        expected.insert(dlq_topic(q));
    }
    expected.insert(group_member_dlq_topic(GROUP, MEMBER));
    expected.insert(group_member_dlq_topic(GROUP, GROUP));
    for t in &on_disk {
        expected.insert(t.clone());
    }
    let expected: Vec<String> = expected.into_iter().collect();
    assert_eq!(collect_dlq_topic_candidates(&queues, &groups, &on_disk), expected);
    assert_eq!(
        collect_dlq_topic_candidates(&Vec::new(), &Vec::new(), &Vec::new()),
        vec!["__direct.__dlq".to_string()]
    );
}

#[test]
fn candidates_are_dead_letter_topics() {
    let queues = vec!["a".to_string(), "__group.x".to_string()];
    let groups = vec![GroupMembers { group: GROUP, members: vec![MEMBER] }];
    let on_disk = vec!["old.__dlq".to_string()];
    for topic in collect_dlq_topic_candidates(&queues, &groups, &on_disk) {
        assert!(is_dlq_topic(&topic));
        let r = dlq_source_response(topic.clone(), classify_dlq_topic(&topic), None, None, 0);
        assert!(["queue", "direct", "group_member"].contains(&r.kind.as_str()));
        assert_eq!(r.queue.is_none(), r.kind == "group_member");
    }
}
