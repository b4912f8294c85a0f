//! Dead letters: which topic a query means, what its messages say, and where dead letters are.

use crate::error::{ApiError, NO_CONTENT};
use crate::ids::{
    is_hex_digit, law_hyphenated_text_stands_for_its_identifier, law_length_of_an_identifier,
    law_text_stands_for_one, lemma_uuid_text_has_no_dot, lemma_uuid_text_is_hex, uuid_of, uuid_text, Uuid,
};
use crate::outside::{
    json_document, members_by_name, parse_json, parse_uuid, text_from_utf8_lossy, utf8_lossy,
    uuid_to_text, JsonDocument, JsonMember,
};
use crate::text::{
    copy_of, cut_once, joined, lemma_find_from, lemma_lex_lt_order, lemma_lex_lt_transitive, lex_lt,
    occurs_at, precedes, same_text, split_once, starts_with, strip_prefix, strip_suffix, view_of,
    without_prefix, without_suffix,
};
use crate::topic::{
    direct_topic, direct_topic_name, dlq_suffix, dlq_topic, dlq_topic_name, group_member_dlq_name,
    group_member_dlq_topic, group_prefix, is_dlq_topic, law_derived_topics_are_dlq,
    law_dlq_topic_is_injective, names_dlq,
};
use vstd::prelude::*;

verus! {

/// How many messages a dead-letter listing holds where the query does not say.
pub fn default_limit() -> (res: usize)
    ensures
        res == 10,
{
    10
}

/// How many messages of a dead-letter topic are counted at most.
pub const COUNT_LIMIT: usize = 10_000;

/// A request to list dead letters.
#[derive(Debug)]
pub struct DlqQuery {
    /// A queue's name (`jobs` means `jobs.__dlq`).
    pub queue: Option<String>,
    /// The full name of a dead-letter topic.
    pub dlq_topic: Option<String>,
    /// How many messages to list at most.
    pub limit: usize,
}

/// A request to delete a dead letter.
#[derive(Debug)]
pub struct DeleteDlqQuery {
    /// The full name of the dead-letter topic.
    pub dlq_topic: String,
    /// The partition that holds the message.
    pub partition: u32,
    /// The message's offset in the partition.
    pub offset: u64,
}

/// A message as the broker stores it.
#[derive(Debug)]
pub struct StoredMessage {
    /// The message's identifier.
    pub id: Uuid,
    /// The key that it was routed by.
    pub routing_key: String,
    /// Its bytes.
    pub payload: Vec<u8>,
    /// When it was published.
    pub published_at_ms: i64,
    /// The partition that holds it.
    pub partition: u32,
    /// Its offset in the partition.
    pub offset: u64,
}

/// A dead letter as it is listed.
#[derive(Debug)]
pub struct DlqMessage {
    /// The message's identifier.
    pub message_id: Uuid,
    /// The key that it was routed by.
    pub key: String,
    /// Its text.
    pub body: String,
    /// When it was published.
    pub published_at_ms: i64,
    /// The partition that holds it.
    pub partition: u32,
    /// Its offset in the partition.
    pub offset: u64,
    /// The queue that it came from, where its text says so.
    pub source_queue: Option<String>,
    /// The URL that it was meant for, where its text says so.
    pub destination_url: Option<String>,
}

/// A listing of dead letters.
#[derive(Debug)]
pub struct DlqListResponse {
    /// What to call the listing.
    pub queue: String,
    /// The dead-letter topic.
    pub dlq_topic: String,
    /// Its messages.
    pub messages: Vec<DlqMessage>,
}

/// A dead-letter topic, what it collects, and how much of it.
#[derive(Debug)]
pub struct DlqSourceResponse {
    /// The dead-letter topic.
    pub dlq_topic: String,
    /// `queue`, `direct`, `group_member` or `other`.
    pub kind: String,
    /// What to call it.
    pub label: String,
    /// How many messages it holds.
    pub count: usize,
    /// The queue to ask for in order to list the messages, where there is one.
    pub queue: Option<String>,
}

/// The topic that a query means, or the message that it is refused with.
pub open spec fn resolved_topic(queue: Option<Seq<char>>, topic: Option<Seq<char>>) -> Result<
    Seq<char>,
    Seq<char>,
> {
    match (topic, queue) {
        (Some(t), _) => if names_dlq(t) {
            Ok(t)
        } else {
            Err("dlq_topic must end with .__dlq (got "@ + t + ")"@)
        },
        (None, Some(q)) => if q.len() == 0 {
            Err("queue must not be empty"@)
        } else {
            Ok(dlq_topic_name(q))
        },
        (None, None) => Err("provide queue or dlq_topic query parameter"@),
    }
}

/// The dead-letter topic that a query means.
pub fn resolve_dlq_topic(q: &DlqQuery) -> (res: Result<String, ApiError>)
    ensures
        match res {
            Ok(topic) => resolved_topic(view_of(q.queue), view_of(q.dlq_topic)) == Ok::<
                Seq<char>,
                Seq<char>,
            >(topic@),
            Err(ApiError::BadRequest(message)) => resolved_topic(
                view_of(q.queue),
                view_of(q.dlq_topic),
            ) == Err::<Seq<char>, Seq<char>>(message@),
            Err(_) => false,
        },
{
    if let Some(topic) = &q.dlq_topic {
        if !is_dlq_topic(topic.as_str()) {
            let mut message: String = joined(
                "dlq_topic must end with .__dlq (got ",
                topic.as_str(),
            );
            message.append(")");
            return Err(ApiError::BadRequest(message));
        }
        return Ok(topic.clone());
    }
    if let Some(queue) = &q.queue {
        if queue.as_str().is_empty() {
            return Err(ApiError::BadRequest("queue must not be empty".to_owned()));
        }
        return Ok(dlq_topic(queue.as_str()));
    }
    Err(ApiError::BadRequest("provide queue or dlq_topic query parameter".to_owned()))
}

/// The text of the member `name` of a document. A text that is no document, a document that is no
/// object, an object without that member and a member that is no string have none.
pub open spec fn string_member(
    document: Option<Option<Map<Seq<char>, Option<Seq<char>>>>>,
    name: Seq<char>,
) -> Option<Seq<char>> {
    match document {
        Some(Some(members)) => if members.contains_key(name) {
            members[name]
        } else {
            None
        },
        _ => None,
    }
}

/// The text of the member `name`, where there is one and it is a string.
pub fn member_text(document: &Option<JsonDocument>, name: &str) -> (res: Option<String>)
    ensures
        view_of(res) == string_member(
            match *document {
                Some(d) => Some(d@),
                None => None,
            },
            name@,
        ),
{
    let list: &Vec<JsonMember> = match document {
        Some(JsonDocument { members: Some(list) }) => list,
        _ => return None,
    };
    let mut end: usize = list.len();
    proof {
        assert(list@.take(end as int) =~= list@);
    }
    let ghost all = Some(Some(members_by_name(list@)));
    while end > 0
        invariant
            end <= list@.len(),
            string_member(all, name@) == string_member(
                Some(Some(members_by_name(list@.take(end as int)))),
                name@,
            ),
            all == (match *document {
                Some(d) => Some(d@),
                None => None,
            }),
        decreases end,
    {
        proof {
            assert(list@.take(end as int).drop_last() =~= list@.take(end - 1));
        }
        if same_text(list[end - 1].name.as_str(), name) {
            return copy_of(&list[end - 1].text);
        }
        end = end - 1;
    }
    None
}

/// The queue that a dead letter came from and the URL that it was meant for, as its text says.
pub fn parse_dlq_payload(body: &str) -> (res: (Option<String>, Option<String>))
    ensures
        view_of(res.0) == string_member(json_document(body@), "source_queue"@),
        view_of(res.1) == string_member(json_document(body@), "destination_url"@),
{
    let document: Option<JsonDocument> = parse_json(body);
    (member_text(&document, "source_queue"), member_text(&document, "destination_url"))
}

/// A stored message as a dead letter is listed.
pub open spec fn lists_message(res: DlqMessage, msg: StoredMessage) -> bool {
    let body = utf8_lossy(msg.payload@);
    &&& res.message_id == msg.id
    &&& res.key@ == msg.routing_key@
    &&& res.body@ == body
    &&& res.published_at_ms == msg.published_at_ms
    &&& res.partition == msg.partition
    &&& res.offset == msg.offset
    &&& view_of(res.source_queue) == string_member(json_document(body), "source_queue"@)
    &&& view_of(res.destination_url) == string_member(json_document(body), "destination_url"@)
}

/// Lists a stored message. A payload that is valid UTF-8 is listed as the text that it encodes.
pub fn to_dlq_message(msg: StoredMessage) -> (res: DlqMessage)
    ensures
        lists_message(res, msg),
        vstd::utf8::valid_utf8(msg.payload@) ==> res.body@ == vstd::utf8::decode_utf8(
            msg.payload@,
        ),
{
    let body: String = text_from_utf8_lossy(msg.payload.as_slice());
    let (source_queue, destination_url): (Option<String>, Option<String>) = parse_dlq_payload(
        body.as_str(),
    );
    DlqMessage {
        message_id: msg.id,
        key: msg.routing_key,
        body,
        published_at_ms: msg.published_at_ms,
        partition: msg.partition,
        offset: msg.offset,
        source_queue,
        destination_url,
    }
}

/// What a listing of `topic` is called: by the queue that was asked for, else by the topic
/// without its suffix, else by the topic.
pub open spec fn listing_name(queue: Option<Seq<char>>, topic: Seq<char>) -> Seq<char> {
    match (queue, without_suffix(topic, dlq_suffix())) {
        (Some(q), _) => q,
        (None, Some(name)) => if group_prefix().is_prefix_of(name) {
            topic
        } else {
            name
        },
        (None, None) => topic,
    }
}

/// What a listing of `topic` is called.
pub fn listing_label(q: &DlqQuery, topic: &str) -> (res: String)
    ensures
        res@ == listing_name(view_of(q.queue), topic@),
{
    if let Some(queue) = &q.queue {
        return queue.clone();
    }
    match strip_suffix(topic, ".__dlq") {
        Some(name) => if starts_with(name, "__group.") {
            topic.to_owned()
        } else {
            name.to_owned()
        },
        None => topic.to_owned(),
    }
}

/// The listing of the messages of `topic`, in their order.
pub fn dlq_listing(q: &DlqQuery, topic: String, messages: Vec<StoredMessage>) -> (res:
    DlqListResponse)
    ensures
        res.queue@ == listing_name(view_of(q.queue), topic@),
        res.dlq_topic@ == topic@,
        res.messages@.len() == messages@.len(),
        forall|i: int|
            0 <= i < messages@.len() ==> lists_message(#[trigger] res.messages@[i], messages@[i]),
{
    let queue: String = listing_label(q, topic.as_str());
    let mut listed: Vec<DlqMessage> = Vec::new();
    for msg in it: messages
        invariant
            it.seq() == messages@,
            listed@.len() == it.index(),
            forall|i: int| 0 <= i < listed@.len() ==> lists_message(#[trigger] listed@[i], messages@[i]),
    {
        listed.push(to_dlq_message(msg));
    }
    DlqListResponse { queue, dlq_topic: topic, messages: listed }
}

/// Refuses to delete from a topic that is no dead-letter topic.
pub fn check_dlq_delete(q: &DeleteDlqQuery) -> (res: Result<(), ApiError>)
    ensures
        match res {
            Ok(()) => names_dlq(q.dlq_topic@),
            Err(ApiError::BadRequest(message)) => !names_dlq(q.dlq_topic@) && message@
                == "dlq_topic must end with .__dlq"@,
            Err(_) => false,
        },
{
    if is_dlq_topic(q.dlq_topic.as_str()) {
        Ok(())
    } else {
        Err(ApiError::BadRequest("dlq_topic must end with .__dlq".to_owned()))
    }
}

/// How a deletion is answered, by whether the message was there.
pub fn dlq_delete_outcome(removed: bool) -> (res: Result<u16, ApiError>)
    ensures
        match res {
            Ok(status) => removed && status == NO_CONTENT,
            Err(ApiError::BadRequest(message)) => !removed && message@ == "DLQ message not found"@,
            Err(_) => false,
        },
{
    if removed {
        Ok(NO_CONTENT)
    } else {
        Err(ApiError::BadRequest("DLQ message not found".to_owned()))
    }
}

/// What a dead-letter topic collects.
#[derive(Debug)]
pub enum DlqSource {
    /// Deliveries to a URL.
    Direct,
    /// Deliveries to a member of a group.
    GroupMember {
        /// The group.
        group: Uuid,
        /// The member.
        member: Uuid,
    },
    /// Deliveries to a queue.
    Queue(String),
    /// Something else.
    Other,
}

/// What a dead-letter topic collects, over the name of the queue.
pub enum DlqSourceView {
    /// Deliveries to a URL.
    Direct,
    /// Deliveries to a member of a group.
    GroupMember {
        /// The group.
        group: Uuid,
        /// The member.
        member: Uuid,
    },
    /// Deliveries to a queue.
    Queue(Seq<char>),
    /// Something else.
    Other,
}

impl View for DlqSource {
    type V = DlqSourceView;

    open spec fn view(&self) -> DlqSourceView {
        match *self {
            DlqSource::Direct => DlqSourceView::Direct,
            DlqSource::GroupMember { group, member } => DlqSourceView::GroupMember {
                group,
                member,
            },
            DlqSource::Queue(queue) => DlqSourceView::Queue(queue@),
            DlqSource::Other => DlqSourceView::Other,
        }
    }
}

/// The two parts of `{group}.{member}` in a name `__group.{group}.{member}.__dlq`; what follows
/// the first `.__dlq` is not looked at.
pub open spec fn group_parts(name: Seq<char>) -> Option<(Seq<char>, Seq<char>)> {
    match without_prefix(name, group_prefix()) {
        Some(rest) => match cut_once(rest, dlq_suffix()) {
            Some((ids, _)) => cut_once(ids, "."@),
            None => None,
        },
        None => None,
    }
}

/// What the topic `name` collects, given the identifiers that its group part holds.
pub open spec fn source_with(name: Seq<char>, ids: Option<(Uuid, Uuid)>) -> DlqSourceView {
    if name == dlq_topic_name(direct_topic_name()) {
        DlqSourceView::Direct
    } else {
        match (ids, without_suffix(name, dlq_suffix())) {
            (Some((group, member)), _) => DlqSourceView::GroupMember { group, member },
            (None, Some(queue)) => DlqSourceView::Queue(queue),
            (None, None) => DlqSourceView::Other,
        }
    }
}

/// The identifiers that the group part of a topic's name holds, where both can be read.
pub open spec fn topic_ids(name: Seq<char>) -> Option<(Uuid, Uuid)> {
    match group_parts(name) {
        Some((group, member)) => match (uuid_of(group), uuid_of(member)) {
            (Some(g), Some(m)) => Some((g, m)),
            _ => None,
        },
        None => None,
    }
}

/// The group and the member that a topic's name gives, as texts.
pub fn group_texts<'a>(name: &'a str) -> (res: Option<(&'a str, &'a str)>)
    ensures
        match res {
            Some((group, member)) => group_parts(name@) == Some((group@, member@)),
            None => group_parts(name@) is None,
        },
{
    match strip_prefix(name, "__group.") {
        Some(rest) => match split_once(rest, ".__dlq") {
            Some((ids, _after)) => split_once(ids, "."),
            None => None,
        },
        None => None,
    }
}

/// What the topic `name` collects, given the identifiers that its group part holds.
pub fn source_by_ids(name: &str, ids: Option<(Uuid, Uuid)>) -> (res: DlqSource)
    ensures
        res@ == source_with(name@, ids),
{
    let direct: String = dlq_topic(direct_topic());
    if same_text(name, direct.as_str()) {
        return DlqSource::Direct;
    }
    if let Some((group, member)) = ids {
        return DlqSource::GroupMember { group, member };
    }
    match strip_suffix(name, ".__dlq") {
        Some(queue) => DlqSource::Queue(queue.to_owned()),
        None => DlqSource::Other,
    }
}

/// The identifier that a text stands for.
fn read_uuid(text: &str) -> (res: Option<Uuid>)
    ensures
        res == uuid_of(text@),
{
    let res: Option<Uuid> = parse_uuid(text);
    proof {
        if let Some(id) = res {
            law_text_stands_for_one(text@, id, id);
        }
    }
    res
}

/// What the topic `name` collects.
pub open spec fn source_of(name: Seq<char>) -> DlqSourceView {
    source_with(name, topic_ids(name))
}

/// What the topic `name` collects.
pub fn classify_dlq_topic(name: &str) -> (res: DlqSource)
    ensures
        res@ == source_of(name@),
{
    let ids: Option<(Uuid, Uuid)> = match group_texts(name) {
        Some((group, member)) => match (read_uuid(group), read_uuid(member)) {
            (Some(g), Some(m)) => Some((g, m)),
            _ => None,
        },
        None => None,
    };
    source_by_ids(name, ids)
}

proof fn lemma_cut_at_dot(a: Seq<char>, b: Seq<char>)
    requires
        forall|i: int| 0 <= i < a.len() ==> a[i] != '.',
    ensures
        cut_once(a + "."@ + b, "."@) == Some((a, b)),
{
    reveal_strlit(".");
    let s = a + "."@ + b;
    lemma_find_from(s, "."@, 0);
    assert(s.subrange(a.len() as int, a.len() as int + 1) =~= "."@);
    assert(occurs_at(s, "."@, a.len() as int));
    assert forall|j: int| 0 <= j < a.len() implies !occurs_at(s, "."@, j) by {
        assert(s.subrange(j, j + 1)[0] == a[j]);
    }
    assert(s.take(a.len() as int) =~= a);
    assert(s.skip(a.len() as int + 1) =~= b);
}

/// In `{group}.{member}.__dlq` the first `.__dlq` stands after both identifiers.
proof fn lemma_first_suffix_follows_ids(group: Uuid, member: Uuid)
    ensures
        cut_once(uuid_text(group) + "."@ + uuid_text(member) + dlq_suffix(), dlq_suffix()) == Some(
            (uuid_text(group) + "."@ + uuid_text(member), Seq::<char>::empty()),
        ),
{
    let g = uuid_text(group);
    let m = uuid_text(member);
    let suffix = dlq_suffix();
    let ids = g + "."@ + m;
    let rest = ids + suffix;
    lemma_uuid_text_has_no_dot(group);
    lemma_uuid_text_has_no_dot(member);
    reveal_strlit(".__dlq");
    reveal_strlit(".");
    lemma_find_from(rest, suffix, 0);
    assert(rest.subrange(ids.len() as int, ids.len() as int + 6) =~= suffix);
    assert(occurs_at(rest, suffix, ids.len() as int));
    assert forall|j: int| 0 <= j < ids.len() implies !occurs_at(rest, suffix, j) by {
        assert(suffix[0] == '.' && suffix[1] == '_');
        if occurs_at(rest, suffix, j) {
            let part = rest.subrange(j, j + suffix.len());
            assert(part[0] == rest[j] && part[1] == rest[j + 1]);
            if j < 36 {
                assert(rest[j] == g[j]);
            } else if j == 36 {
                assert(rest[j + 1] == m[0]);
                lemma_uuid_text_is_hex(member);
                assert(is_hex_digit(m[0]));
            } else {
                assert(rest[j] == m[j - 37]);
            }
        }
    }
    assert(rest.take(ids.len() as int) =~= ids);
    assert(rest.skip(ids.len() as int + 6) =~= Seq::<char>::empty());
}

/// The name of a group member's dead-letter topic gives back both identifiers, and so the topic is
/// recognised as that member's.
pub proof fn law_group_topic_names_its_member(group: Uuid, member: Uuid)
    ensures
        group_parts(group_member_dlq_name(group, member)) == Some(
            (uuid_text(group), uuid_text(member)),
        ),
        topic_ids(group_member_dlq_name(group, member)) == Some((group, member)),
        source_of(group_member_dlq_name(group, member)) == (DlqSourceView::GroupMember {
            group,
            member,
        }),
{
    let name = group_member_dlq_name(group, member);
    let rest = uuid_text(group) + "."@ + uuid_text(member) + dlq_suffix();
    lemma_uuid_text_has_no_dot(group);
    lemma_uuid_text_has_no_dot(member);
    reveal_strlit("__group.");
    reveal_strlit(".__dlq");
    reveal_strlit("__direct");
    reveal_strlit(".");
    assert(name.len() == 8 + 36 + 1 + 36 + 6);
    assert(dlq_topic_name(direct_topic_name()).len() == 14);
    assert(name.subrange(0, 8) =~= group_prefix());
    assert(name.skip(8) =~= rest);
    lemma_first_suffix_follows_ids(group, member);
    lemma_cut_at_dot(uuid_text(group), uuid_text(member));
    law_hyphenated_text_stands_for_its_identifier(group);
    law_hyphenated_text_stands_for_its_identifier(member);
}

/// The kind of a source, what to call it, and the queue to ask for in order to list it.
pub open spec fn label_of(
    source: DlqSourceView,
    topic: Seq<char>,
    group_name: Option<Seq<char>>,
    member_name: Option<Seq<char>>,
) -> (Seq<char>, Seq<char>, Option<Seq<char>>) {
    match source {
        DlqSourceView::Direct => ("direct"@, "Direct publish"@, Some(direct_topic_name())),
        DlqSourceView::GroupMember { group, member } => {
            let g = match group_name {
                Some(name) => name,
                None => uuid_text(group),
            };
            let m = match member_name {
                Some(name) => name,
                None => uuid_text(member),
            };
            ("group_member"@, "Group "@ + g + " → "@ + m, None)
        },
        DlqSourceView::Queue(queue) => ("queue"@, "Queue: "@ + queue, Some(queue)),
        DlqSourceView::Other => ("other"@, topic, None),
    }
}

/// The kind of a source, what to call it, and the queue to ask for in order to list it. A group
/// or a member whose name is not known is called by its identifier.
pub fn dlq_source_label(
    source: DlqSource,
    topic: &str,
    group_name: Option<String>,
    member_name: Option<String>,
) -> (res: (String, String, Option<String>))
    ensures
        (res.0@, res.1@, view_of(res.2)) == label_of(
            source@,
            topic@,
            view_of(group_name),
            view_of(member_name),
        ),
{
    match source {
        DlqSource::Direct => (
            "direct".to_owned(),
            "Direct publish".to_owned(),
            Some(direct_topic().to_owned()),
        ),
        DlqSource::GroupMember { group, member } => {
            let g: String = match group_name {
                Some(name) => name,
                None => uuid_to_text(group),
            };
            let m: String = match member_name {
                Some(name) => name,
                None => uuid_to_text(member),
            };
            let mut label: String = joined("Group ", g.as_str());
            label.append(" → ");
            label.append(m.as_str());
            ("group_member".to_owned(), label, None)
        },
        DlqSource::Queue(queue) => (
            "queue".to_owned(),
            joined("Queue: ", queue.as_str()),
            Some(queue),
        ),
        DlqSource::Other => ("other".to_owned(), topic.to_owned(), None),
    }
}

/// A dead-letter topic with its label and the number of its messages.
pub fn dlq_source_response(
    topic: String,
    source: DlqSource,
    group_name: Option<String>,
    member_name: Option<String>,
    count: usize,
) -> (res: DlqSourceResponse)
    ensures
        res.dlq_topic@ == topic@,
        (res.kind@, res.label@, view_of(res.queue)) == label_of(
            source@,
            topic@,
            view_of(group_name),
            view_of(member_name),
        ),
        res.count == count,
{
    let (kind, label, queue): (String, String, Option<String>) = dlq_source_label(
        source,
        topic.as_str(),
        group_name,
        member_name,
    );
    DlqSourceResponse { dlq_topic: topic, kind, label, count, queue }
}

/// Whether `a` is listed before `b`: the larger first, then by label.
pub open spec fn listed_before(a: DlqSourceResponse, b: DlqSourceResponse) -> bool {
    a.count > b.count || (a.count == b.count && lex_lt(a.label@, b.label@))
}

/// Whether a list of sources is in order.
pub open spec fn sources_in_order(sources: Seq<DlqSourceResponse>) -> bool {
    forall|i: int, j: int|
        0 <= i < j < sources.len() ==> !listed_before(#[trigger] sources[j], #[trigger] sources[i])
}

/// Whether a source has the given count and label, by which alone sources are ordered.
pub open spec fn has_rank(count: usize, label: Seq<char>) -> spec_fn(DlqSourceResponse) -> bool {
    |s: DlqSourceResponse| s.count == count && s.label@ == label
}

/// Whether two lists hold the sources of equal rank in the same order.
pub open spec fn same_sources(a: Seq<DlqSourceResponse>, b: Seq<DlqSourceResponse>) -> bool {
    forall|count: usize, label: Seq<char>| #[trigger]
        a.filter(has_rank(count, label)) == b.filter(has_rank(count, label))
}

/// Whether `a` is listed before `b`.
fn is_listed_before(a: &DlqSourceResponse, b: &DlqSourceResponse) -> (res: bool)
    ensures
        res == listed_before(*a, *b),
{
    a.count > b.count || (a.count == b.count && precedes(a.label.as_str(), b.label.as_str()))
}

proof fn lemma_listed_before_chain(
    s: DlqSourceResponse,
    a: DlqSourceResponse,
    b: DlqSourceResponse,
)
    ensures
        listed_before(s, a) && !listed_before(b, a) ==> listed_before(s, b),
{
    lemma_lex_lt_order(a.label@, b.label@);
    if lex_lt(s.label@, a.label@) && lex_lt(a.label@, b.label@) {
        lemma_lex_lt_transitive(s.label@, a.label@, b.label@);
    }
}

proof fn lemma_filter_none<A>(s: Seq<A>, pred: spec_fn(A) -> bool)
    requires
        forall|i: int| 0 <= i < s.len() ==> !pred(#[trigger] s[i]),
    ensures
        s.filter(pred) == Seq::<A>::empty(),
    decreases s.len(),
{
    reveal(Seq::filter);
    if s.len() > 0 {
        assert(!pred(s[s.len() - 1]));
        assert forall|i: int| 0 <= i < s.drop_last().len() implies !pred(
            #[trigger] s.drop_last()[i],
        ) by {
            assert(s.drop_last()[i] == s[i]);
        }
        lemma_filter_none(s.drop_last(), pred);
    }
}

proof fn lemma_insert_keeps_order(
    sorted: Seq<DlqSourceResponse>,
    at: int,
    s: DlqSourceResponse,
)
    requires
        sources_in_order(sorted),
        0 <= at <= sorted.len(),
        forall|i: int| 0 <= i < at ==> !listed_before(s, #[trigger] sorted[i]),
        at < sorted.len() ==> listed_before(s, sorted[at]),
    ensures
        sources_in_order(sorted.insert(at, s)),
        sorted.insert(at, s).to_multiset() == sorted.push(s).to_multiset(),
        forall|count: usize, label: Seq<char>| #[trigger]
            sorted.insert(at, s).filter(has_rank(count, label)) == sorted.push(s).filter(
                has_rank(count, label),
            ),
{
    let after = sorted.insert(at, s);
    assert forall|i: int| at <= i < sorted.len() implies listed_before(s, #[trigger] sorted[i]) by {
        if i > at {
            assert(!listed_before(sorted[i], sorted[at]));
            lemma_listed_before_chain(s, sorted[at], sorted[i]);
        }
    }
    assert forall|i: int, j: int| 0 <= i < j < after.len() implies !listed_before(
        #[trigger] after[j],
        #[trigger] after[i],
    ) by {
        let a = if i < at { i } else { i - 1 };
        let b = if j < at { j } else { j - 1 };
        if i == at {
            assert(after[j] == sorted[b]);
            lemma_lex_lt_order(s.label@, sorted[b].label@);
        } else if j == at {
            assert(after[i] == sorted[a]);
        } else {
            assert(after[i] == sorted[a] && after[j] == sorted[b]);
        }
    }
    assert(after.to_multiset() == sorted.push(s).to_multiset()) by {
        broadcast use vstd::seq_lib::group_to_multiset_ensures;

        assert(after.remove(at) =~= sorted);
        assert(after[at] == s && after.contains(s));
        assert(after.to_multiset() =~= after.remove(at).to_multiset().insert(s));
    }
    let front = sorted.take(at);
    let back = sorted.skip(at);
    assert forall|count: usize, label: Seq<char>| #[trigger]
        after.filter(has_rank(count, label)) == sorted.push(s).filter(has_rank(count, label)) by {
        let rank = has_rank(count, label);
        assert(after =~= (front + seq![s]) + back);
        assert(sorted =~= front + back);
        assert(sorted.push(s) =~= sorted + seq![s]);
        Seq::filter_distributes_over_add(front + seq![s], back, rank);
        Seq::filter_distributes_over_add(front, seq![s], rank);
        Seq::filter_distributes_over_add(front, back, rank);
        Seq::filter_distributes_over_add(sorted, seq![s], rank);
        if rank(s) {
            assert forall|i: int| 0 <= i < back.len() implies !rank(#[trigger] back[i]) by {
                assert(back[i] == sorted[at + i]);
                lemma_lex_lt_order(s.label@, s.label@);
            }
            lemma_filter_none(back, rank);
            assert(after.filter(rank) =~= sorted.push(s).filter(rank));
        } else {
            lemma_filter_none(seq![s], rank);
            assert(after.filter(rank) =~= sorted.push(s).filter(rank));
        }
    }
}

/// The sources in order: the larger first, then by label; those of equal rank keep their order.
pub fn sort_dlq_sources(sources: Vec<DlqSourceResponse>) -> (res: Vec<DlqSourceResponse>)
    ensures
        sources_in_order(res@),
        res@.to_multiset() == sources@.to_multiset(),
        same_sources(res@, sources@),
{
    let mut res: Vec<DlqSourceResponse> = Vec::new();
    proof {
        assert(res@ =~= sources@.take(0));
    }
    for source in it: sources
        invariant
            it.seq() == sources@,
            sources_in_order(res@),
            res@.to_multiset() == sources@.take(it.index()).to_multiset(),
            same_sources(res@, sources@.take(it.index())),
    {
        let mut at: usize = 0;
        while at < res.len() && !is_listed_before(&source, &res[at])
            invariant
                at <= res@.len(),
                forall|i: int| 0 <= i < at ==> !listed_before(source, #[trigger] res@[i]),
            decreases res@.len() - at,
        {
            at = at + 1;
        }
        let ghost before = res@;
        res.insert(at, source);
        proof {
            let n = it.index();
            lemma_insert_keeps_order(before, at as int, source);
            assert(sources@.take(n + 1) =~= sources@.take(n) + seq![source]);
            assert(res@.to_multiset() == sources@.take(n + 1).to_multiset()) by {
                broadcast use vstd::seq_lib::group_to_multiset_ensures;

                assert(sources@.take(n + 1) =~= sources@.take(n).push(source));
            }
            assert(before.push(source) =~= before + seq![source]);
            assert forall|count: usize, label: Seq<char>| #[trigger]
                res@.filter(has_rank(count, label)) == sources@.take(n + 1).filter(
                    has_rank(count, label),
                ) by {
                let rank = has_rank(count, label);
                assert(before.insert(at as int, source).filter(rank) == before.push(source).filter(
                    rank,
                ));
                assert(before.filter(rank) == sources@.take(n).filter(rank));
                Seq::filter_distributes_over_add(before, seq![source], rank);
                Seq::filter_distributes_over_add(sources@.take(n), seq![source], rank);
            }
        }
    }
    proof {
        assert(sources@.take(sources@.len() as int) =~= sources@);
    }
    res
}

/// A group and its members.
pub struct GroupMembers {
    /// The group.
    pub group: Uuid,
    /// Its members.
    pub members: Vec<Uuid>,
}

/// Whether a list of topics is in strictly ascending order, hence without repetition.
pub open spec fn strictly_ascending(topics: Seq<String>) -> bool {
    forall|i: int, j: int|
        0 <= i < j < topics.len() ==> lex_lt(#[trigger] topics[i]@, #[trigger] topics[j]@)
}

/// Whether a list of topics holds `topic`.
pub open spec fn holds_topic(topics: Seq<String>, topic: Seq<char>) -> bool {
    exists|i: int| 0 <= i < topics.len() && #[trigger] topics[i]@ == topic
}

/// Whether `topic` is the dead-letter topic of one of the queues.
pub open spec fn is_queue_candidate(queues: Seq<String>, topic: Seq<char>) -> bool {
    exists|i: int| 0 <= i < queues.len() && topic == dlq_topic_name(#[trigger] queues[i]@)
}

/// Whether `topic` is the dead-letter topic of one of the members of a group.
pub open spec fn is_member_candidate(group: Uuid, members: Seq<Uuid>, topic: Seq<char>) -> bool {
    exists|i: int|
        0 <= i < members.len() && topic == group_member_dlq_name(group, #[trigger] members[i])
}

/// Whether `topic` is the dead-letter topic of a member of one of the groups.
pub open spec fn is_group_candidate(groups: Seq<GroupMembers>, topic: Seq<char>) -> bool {
    exists|i: int|
        0 <= i < groups.len() && is_member_candidate(
            (#[trigger] groups[i]).group,
            groups[i].members@,
            topic,
        )
}

/// Whether `topic` is to be looked into: as that of direct deliveries, of a queue, of a group
/// member, or as one that was found on disk.
pub open spec fn is_candidate(
    queues: Seq<String>,
    groups: Seq<GroupMembers>,
    on_disk: Seq<String>,
    topic: Seq<char>,
) -> bool {
    ||| topic == dlq_topic_name(direct_topic_name())
    ||| is_queue_candidate(queues, topic)
    ||| is_group_candidate(groups, topic)
    ||| holds_topic(on_disk, topic)
}

/// Adds a topic to an ordered list of topics, unless it is there.
fn insert_topic(topics: &mut Vec<String>, topic: String)
    requires
        strictly_ascending(old(topics)@),
    ensures
        strictly_ascending(final(topics)@),
        forall|t: Seq<char>| #[trigger]
            holds_topic(final(topics)@, t) <==> holds_topic(old(topics)@, t) || t == topic@,
{
    let ghost before = topics@;
    let mut at: usize = 0;
    while at < topics.len() && precedes(topics[at].as_str(), topic.as_str())
        invariant
            topics@ == before,
            at <= before.len(),
            forall|i: int| 0 <= i < at ==> lex_lt(#[trigger] before[i]@, topic@),
        decreases before.len() - at,
    {
        at = at + 1;
    }
    if at < topics.len() && same_text(topics[at].as_str(), topic.as_str()) {
        return;
    }
    topics.insert(at, topic);
    proof {
        let after = topics@;
        assert forall|i: int| at <= i < before.len() implies lex_lt(topic@, #[trigger] before[i]@) by {
            lemma_lex_lt_order(before[at as int]@, topic@);
            if i > at {
                assert(lex_lt(before[at as int]@, before[i]@));
                lemma_lex_lt_transitive(topic@, before[at as int]@, before[i]@);
            }
        }
        assert forall|i: int, j: int| 0 <= i < j < after.len() implies lex_lt(
            #[trigger] after[i]@,
            #[trigger] after[j]@,
        ) by {
            let a = if i < at { i } else { i - 1 };
            let b = if j < at { j } else { j - 1 };
            if i != at {
                assert(after[i] == before[a]);
            }
            if j != at {
                assert(after[j] == before[b]);
            }
        }
        assert forall|t: Seq<char>| #[trigger]
            holds_topic(after, t) <==> holds_topic(before, t) || t == topic@ by {
            if holds_topic(before, t) {
                let i = choose|i: int| 0 <= i < before.len() && #[trigger] before[i]@ == t;
                let k = if i < at { i } else { i + 1 };
                assert(after[k]@ == t);
            }
            if holds_topic(after, t) {
                let k = choose|k: int| 0 <= k < after.len() && #[trigger] after[k]@ == t;
                if k != at {
                    let i = if k < at { k } else { k - 1 };
                    assert(before[i]@ == t);
                }
            }
            assert(after[at as int]@ == topic@);
        }
    }
}

/// The dead-letter topics to look into: that of direct deliveries, those of the queues, those of
/// the group members and those found on disk, in ascending order and without repetition.
pub fn collect_dlq_topic_candidates(
    queues: &Vec<String>,
    groups: &Vec<GroupMembers>,
    on_disk: &Vec<String>,
) -> (res: Vec<String>)
    ensures
        strictly_ascending(res@),
        forall|t: Seq<char>| #[trigger]
            holds_topic(res@, t) <==> is_candidate(queues@, groups@, on_disk@, t),
{
    let mut topics: Vec<String> = Vec::new();
    insert_topic(&mut topics, dlq_topic(direct_topic()));
    let ghost direct = dlq_topic_name(direct_topic_name());
    let mut i: usize = 0;
    while i < queues.len()
        invariant
            i <= queues@.len(),
            strictly_ascending(topics@),
            forall|t: Seq<char>| #[trigger]
                holds_topic(topics@, t) <==> t == direct || is_queue_candidate(
                    queues@.take(i as int),
                    t,
                ),
        decreases queues@.len() - i,
    {
        insert_topic(&mut topics, dlq_topic(queues[i].as_str()));
        proof {
            let a = queues@.take(i as int);
            let b = queues@.take(i + 1);
            assert forall|t: Seq<char>| #[trigger] is_queue_candidate(b, t) <==> is_queue_candidate(
                a,
                t,
            ) || t == dlq_topic_name(queues@[i as int]@) by {
                if is_queue_candidate(a, t) {
                    let k = choose|k: int| 0 <= k < a.len() && t == dlq_topic_name(#[trigger] a[k]@);
                    assert(b[k] == a[k]);
                }
                if is_queue_candidate(b, t) {
                    let k = choose|k: int| 0 <= k < b.len() && t == dlq_topic_name(#[trigger] b[k]@);
                    if k < i {
                        assert(a[k] == b[k]);
                    }
                }
                assert(b[i as int] == queues@[i as int]);
            }
        }
        i = i + 1;
    }
    proof {
        assert(queues@.take(queues@.len() as int) =~= queues@);
    }
    let mut g: usize = 0;
    while g < groups.len()
        invariant
            g <= groups@.len(),
            strictly_ascending(topics@),
            forall|t: Seq<char>| #[trigger]
                holds_topic(topics@, t) <==> t == direct || is_queue_candidate(queues@, t)
                    || is_group_candidate(groups@.take(g as int), t),
        decreases groups@.len() - g,
    {
        let ghost before = topics@;
        let group: &GroupMembers = &groups[g];
        let mut m: usize = 0;
        while m < group.members.len()
            invariant
                m <= group.members@.len(),
                strictly_ascending(topics@),
                forall|t: Seq<char>| #[trigger]
                    holds_topic(topics@, t) <==> holds_topic(before, t) || is_member_candidate(
                        group.group,
                        group.members@.take(m as int),
                        t,
                    ),
            decreases group.members@.len() - m,
        {
            insert_topic(&mut topics, group_member_dlq_topic(group.group, group.members[m]));
            proof {
                let a = group.members@.take(m as int);
                let b = group.members@.take(m + 1);
                assert forall|t: Seq<char>| #[trigger]
                    is_member_candidate(group.group, b, t) <==> is_member_candidate(
                        group.group,
                        a,
                        t,
                    ) || t == group_member_dlq_name(group.group, group.members@[m as int]) by {
                    if is_member_candidate(group.group, a, t) {
                        let k = choose|k: int|
                            0 <= k < a.len() && t == group_member_dlq_name(
                                group.group,
                                #[trigger] a[k],
                            );
                        assert(b[k] == a[k]);
                    }
                    if is_member_candidate(group.group, b, t) {
                        let k = choose|k: int|
                            0 <= k < b.len() && t == group_member_dlq_name(
                                group.group,
                                #[trigger] b[k],
                            );
                        if k < m {
                            assert(a[k] == b[k]);
                        }
                    }
                    assert(b[m as int] == group.members@[m as int]);
                }
            }
            m = m + 1;
        }
        proof {
            assert(group.members@.take(group.members@.len() as int) =~= group.members@);
            let a = groups@.take(g as int);
            let b = groups@.take(g + 1);
            assert forall|t: Seq<char>| #[trigger] is_group_candidate(b, t) <==> is_group_candidate(
                a,
                t,
            ) || is_member_candidate(group.group, group.members@, t) by {
                if is_group_candidate(a, t) {
                    let k = choose|k: int|
                        0 <= k < a.len() && is_member_candidate(
                            (#[trigger] a[k]).group,
                            a[k].members@,
                            t,
                        );
                    assert(b[k] == a[k]);
                }
                if is_group_candidate(b, t) {
                    let k = choose|k: int|
                        0 <= k < b.len() && is_member_candidate(
                            (#[trigger] b[k]).group,
                            b[k].members@,
                            t,
                        );
                    if k < g {
                        assert(a[k] == b[k]);
                    }
                }
                assert(b[g as int] == groups@[g as int]);
            }
        }
        g = g + 1;
    }
    proof {
        assert(groups@.take(groups@.len() as int) =~= groups@);
    }
    let mut d: usize = 0;
    while d < on_disk.len()
        invariant
            d <= on_disk@.len(),
            strictly_ascending(topics@),
            forall|t: Seq<char>| #[trigger]
                holds_topic(topics@, t) <==> t == direct || is_queue_candidate(queues@, t)
                    || is_group_candidate(groups@, t) || holds_topic(on_disk@.take(d as int), t),
        decreases on_disk@.len() - d,
    {
        insert_topic(&mut topics, on_disk[d].clone());
        proof {
            let a = on_disk@.take(d as int);
            let b = on_disk@.take(d + 1);
            assert forall|t: Seq<char>| #[trigger] holds_topic(b, t) <==> holds_topic(a, t) || t
                == on_disk@[d as int]@ by {
                if holds_topic(a, t) {
                    let k = choose|k: int| 0 <= k < a.len() && #[trigger] a[k]@ == t;
                    assert(b[k] == a[k]);
                }
                if holds_topic(b, t) {
                    let k = choose|k: int| 0 <= k < b.len() && #[trigger] b[k]@ == t;
                    if k < d {
                        assert(a[k] == b[k]);
                    }
                }
                assert(b[d as int] == on_disk@[d as int]);
            }
        }
        d = d + 1;
    }
    proof {
        assert(on_disk@.take(on_disk@.len() as int) =~= on_disk@);
    }
    topics
}

/// A query is only ever resolved to a dead-letter topic.
pub proof fn law_resolved_topic_is_dlq(queue: Option<Seq<char>>, topic: Option<Seq<char>>)
    ensures
        resolved_topic(queue, topic) matches Ok(t) ==> names_dlq(t),
{
    if let Some(q) = queue {
        let t = dlq_topic_name(q);
        assert(t.subrange(t.len() - dlq_suffix().len(), t.len() as int) =~= dlq_suffix());
    }
}

/// A query is refused exactly when it names a topic that is no dead-letter topic, or no topic and
/// an empty queue, or neither.
pub proof fn law_when_a_query_is_refused(queue: Option<Seq<char>>, topic: Option<Seq<char>>)
    ensures
        resolved_topic(queue, topic) is Err <==> match topic {
            Some(t) => !names_dlq(t),
            None => queue matches Some(q) ==> q.len() == 0,
        },
{
}

/// The queue that a source is listed with leads back to the source's topic, unless it is empty.
pub proof fn law_listed_queue_leads_back(
    topic: Seq<char>,
    ids: Option<(Uuid, Uuid)>,
    group_name: Option<Seq<char>>,
    member_name: Option<Seq<char>>,
)
    requires
        label_of(source_with(topic, ids), topic, group_name, member_name).2 matches Some(q)
            ==> q.len() > 0,
    ensures
        label_of(source_with(topic, ids), topic, group_name, member_name).2 matches Some(q)
            ==> resolved_topic(Some(q), None) == Ok::<Seq<char>, Seq<char>>(topic),
{
    if let DlqSourceView::Queue(q) = source_with(topic, ids) {
        assert(topic =~= q + dlq_suffix()) by {
            assert(topic.subrange(topic.len() - dlq_suffix().len(), topic.len() as int)
                == dlq_suffix());
            assert(topic =~= topic.take(topic.len() - dlq_suffix().len()) + topic.subrange(
                topic.len() - dlq_suffix().len(),
                topic.len() as int,
            ));
        }
    }
}

/// The dead-letter topic of a queue is recognised as that queue's, unless it is the topic of
/// direct deliveries or reads as that of a group member.
pub proof fn law_queue_topic_is_recognised(queue: Seq<char>)
    requires
        queue != direct_topic_name(),
        topic_ids(dlq_topic_name(queue)) is None,
    ensures
        source_of(dlq_topic_name(queue)) == DlqSourceView::Queue(queue),
{
    let t = dlq_topic_name(queue);
    assert(t.subrange(t.len() - dlq_suffix().len(), t.len() as int) =~= dlq_suffix());
    assert(t.take(t.len() - dlq_suffix().len()) =~= queue);
    if t == dlq_topic_name(direct_topic_name()) {
        law_dlq_topic_is_injective(queue, direct_topic_name());
    }
}

/// A topic reads as that of a group member only where its name begins with `__group.` and holds
/// two texts of the length of an identifier.
pub proof fn law_group_topic_holds_two_identifiers(name: Seq<char>)
    requires
        topic_ids(name) is Some,
    ensures
        group_prefix().is_prefix_of(name),
        group_parts(name) matches Some((group, member)) && (group.len() == 32 || group.len() == 36
            || group.len() == 38 || group.len() == 45) && (member.len() == 32 || member.len() == 36
            || member.len() == 38 || member.len() == 45),
{
    if let Some((group, member)) = group_parts(name) {
        law_length_of_an_identifier(group);
        law_length_of_an_identifier(member);
    }
}

/// A dead-letter topic is that of direct deliveries, of a group member or of a queue.
pub proof fn law_dlq_topic_has_a_source(topic: Seq<char>, ids: Option<(Uuid, Uuid)>)
    requires
        names_dlq(topic),
    ensures
        source_with(topic, ids) != DlqSourceView::Other,
{
}

/// Where only dead-letter topics are found on disk, every topic that is looked into is one, and so
/// it is listed as that of direct deliveries, of a group member or of a queue.
pub proof fn law_candidates_are_dlq(
    queues: Seq<String>,
    groups: Seq<GroupMembers>,
    on_disk: Seq<String>,
    topic: Seq<char>,
    ids: Option<(Uuid, Uuid)>,
)
    requires
        is_candidate(queues, groups, on_disk, topic),
        holds_topic(on_disk, topic) ==> names_dlq(topic),
    ensures
        names_dlq(topic),
        source_with(topic, ids) != DlqSourceView::Other,
{
    if topic == dlq_topic_name(direct_topic_name()) {
        law_derived_topics_are_dlq(direct_topic_name(), Uuid { bits: 0 }, Uuid { bits: 0 });
    } else if is_queue_candidate(queues, topic) {
        let i = choose|i: int|
            0 <= i < queues.len() && topic == dlq_topic_name(#[trigger] queues[i]@);
        law_derived_topics_are_dlq(queues[i]@, Uuid { bits: 0 }, Uuid { bits: 0 });
    } else if is_group_candidate(groups, topic) {
        let i = choose|i: int|
            0 <= i < groups.len() && is_member_candidate(
                (#[trigger] groups[i]).group,
                groups[i].members@,
                topic,
            );
        let m = choose|m: int|
            0 <= m < groups[i].members@.len() && topic == group_member_dlq_name(
                groups[i].group,
                #[trigger] groups[i].members@[m],
            );
        law_derived_topics_are_dlq(topic, groups[i].group, groups[i].members@[m]);
    }
    law_dlq_topic_has_a_source(topic, ids);
}

/// The topic of direct deliveries is recognised, and a query by its queue lists it.
pub proof fn law_direct_topic_is_recognised(ids: Option<(Uuid, Uuid)>)
    ensures
        source_with(dlq_topic_name(direct_topic_name()), ids) == DlqSourceView::Direct,
        resolved_topic(Some(direct_topic_name()), None) == Ok::<Seq<char>, Seq<char>>(
            dlq_topic_name(direct_topic_name()),
        ),
{
    reveal_strlit("__direct");
}

/// A listing that was asked for by queue is called by that queue; one that was asked for by the
/// topic of a queue is called by that queue too, unless its name begins as a group's does.
pub proof fn law_listing_is_called_by_its_queue(queue: Seq<char>, topic: Seq<char>)
    ensures
        listing_name(Some(queue), topic) == queue,
        !group_prefix().is_prefix_of(queue) ==> listing_name(None, dlq_topic_name(queue)) == queue,
        group_prefix().is_prefix_of(queue) ==> listing_name(None, dlq_topic_name(queue))
            == dlq_topic_name(queue),
{
    let t = dlq_topic_name(queue);
    assert(t.subrange(t.len() - dlq_suffix().len(), t.len() as int) =~= dlq_suffix());
    assert(t.take(t.len() - dlq_suffix().len()) =~= queue);
}

} // verus!
