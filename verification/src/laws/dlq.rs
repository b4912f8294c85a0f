//! Laws on dead letters.

use crate::dlq::{
    check_dlq_delete, classify_dlq_topic, collect_dlq_topic_candidates, default_limit,
    dlq_delete_outcome, dlq_listing, dlq_source_label, dlq_source_response, group_parts, group_texts,
    has_rank, holds_topic, is_candidate, is_group_candidate, is_member_candidate, is_queue_candidate,
    listed_before, listing_label, lists_message, member_text, parse_dlq_payload, resolve_dlq_topic,
    sort_dlq_sources, source_by_ids, to_dlq_message, topic_ids, DeleteDlqQuery, DlqListResponse,
    DlqMessage, DlqQuery, DlqSource, DlqSourceResponse, GroupMembers, StoredMessage,
};
use crate::error::ApiError;
use crate::ids::{
    is_hex_digit, law_text_stands_for_one, lemma_uuid_text_is_hex, lower,
    nibble, simple_text, stands_for, uuid_of, uuid_text, Uuid,
};
use crate::outside::{json_document, members_by_name, utf8_lossy, JsonDocument, JsonMember};
use crate::text::{
    cut_once, find, lemma_find_from, occurs_at, precedes, split_once, strip_prefix,
};
use vstd::prelude::*;

verus! {

/// A listing holds ten messages where the query does not say.
pub proof fn law_default_limit(res: usize)
    requires
        call_ensures(default_limit, (), res),
    ensures
        res == 10,
{
}

/// A query means the topic that it gives, where that ends as a dead-letter topic does, and else the
/// dead-letter topic of the queue that it gives, where that is not empty; how many messages it asks
/// for does not matter. Any other query is refused, and told why.
pub proof fn law_query_means_its_topic(q: DlqQuery, res: Result<String, ApiError>)
    requires
        call_ensures(resolve_dlq_topic, (&q,), res),
    ensures
        q.dlq_topic matches Some(t) ==> {
            &&& res is Ok <==> exists|front: Seq<char>| t@ == #[trigger] (front + ".__dlq"@)
            &&& res matches Ok(topic) ==> topic@ == t@
            &&& res is Err ==> (res matches Err(ApiError::BadRequest(m)) && m@
                == "dlq_topic must end with .__dlq (got "@ + t@ + ")"@)
        },
        q.dlq_topic is None ==> (q.queue matches Some(queue) ==> {
            &&& res is Ok <==> queue@.len() > 0
            &&& res matches Ok(topic) ==> topic@ == queue@ + ".__dlq"@
            &&& res is Err ==> (res matches Err(ApiError::BadRequest(m)) && m@
                == "queue must not be empty"@)
        }),
        q.dlq_topic is None && q.queue is None ==> (res matches Err(ApiError::BadRequest(m)) && m@
            == "provide queue or dlq_topic query parameter"@),
{
    if let Some(t) = q.dlq_topic {
        lemma_ends_with_suffix(t@);
    }
}

proof fn lemma_ends_with_suffix(t: Seq<char>)
    ensures
        ".__dlq"@.is_suffix_of(t) <==> exists|front: Seq<char>| t == #[trigger] (front + ".__dlq"@),
{
    let suffix = ".__dlq"@;
    if exists|front: Seq<char>| t == #[trigger] (front + suffix) {
        assert(t.subrange(t.len() - suffix.len(), t.len() as int) =~= suffix);
    }
    if t.len() >= suffix.len() && t.subrange(t.len() - suffix.len(), t.len() as int) == suffix {
        assert(t =~= t.take(t.len() - suffix.len()) + suffix);
    }
}

proof fn lemma_members_by_name(list: Seq<JsonMember>, name: Seq<char>)
    ensures
        members_by_name(list).contains_key(name) <==> exists|i: int|
            0 <= i < list.len() && (#[trigger] list[i]).name@ == name,
        forall|i: int|
            0 <= i < list.len() && (#[trigger] list[i]).name@ == name && (forall|j: int|
                i < j < list.len() ==> (#[trigger] list[j]).name@ != name)
                ==> members_by_name(list)[name] == (match list[i].text {
                Some(t) => Some(t@),
                None => None,
            }),
    decreases list.len(),
{
    if list.len() > 0 {
        let front = list.drop_last();
        let last = list.len() - 1;
        lemma_members_by_name(front, name);
        if exists|i: int| 0 <= i < front.len() && (#[trigger] front[i]).name@ == name {
            let i = choose|i: int| 0 <= i < front.len() && (#[trigger] front[i]).name@ == name;
            assert(list[i].name@ == name);
        }
        if list[last].name@ == name {
            assert(list[last].name@ == name);
        }
        assert forall|i: int|
            0 <= i < list.len() && (#[trigger] list[i]).name@ == name && (forall|j: int|
                i < j < list.len() ==> (#[trigger] list[j]).name@
                    != name) implies members_by_name(list)[name] == (match list[i].text {
            Some(t) => Some(t@),
            None => None,
        }) by {
            if i < last {
                assert(list[last].name@ != name);
                assert(front[i] == list[i]);
                assert forall|j: int| i < j < front.len() implies (#[trigger] front[j]).name@
                    != name by {
                    assert(front[j] == list[j]);
                }
            }
        }
        if exists|i: int| 0 <= i < list.len() && (#[trigger] list[i]).name@ == name {
            let i = choose|i: int| 0 <= i < list.len() && (#[trigger] list[i]).name@ == name;
            if i < last {
                assert(front[i].name@ == name);
            }
        }
    }
}

/// The text of a member is that of the last member of an object with that name, where that is a
/// string; there is none where the document has no such member.
pub proof fn law_member_text(
    document: Option<JsonDocument>,
    name: &str,
    res: Option<String>,
    list: Vec<JsonMember>,
)
    requires
        call_ensures(member_text, (&document, name), res),
        document matches Some(d) && d.members == Some(list),
    ensures
        forall|i: int|
            0 <= i < list@.len() && (#[trigger] list@[i]).name@ == name@ && (forall|j: int|
                i < j < list@.len() ==> (#[trigger] list@[j]).name@ != name@) ==> {
                &&& res is Some <==> list@[i].text is Some
                &&& res matches Some(t) ==> t@ == (list@[i].text->0)@
            },
        (forall|i: int| 0 <= i < list@.len() ==> (#[trigger] list@[i]).name@ != name@) ==> res
            is None,
{
    lemma_members_by_name(list@, name@);
}

/// What is no document, and a document that is no object, has no members.
pub proof fn law_no_object_has_no_members(
    document: Option<JsonDocument>,
    name: &str,
    res: Option<String>,
)
    requires
        call_ensures(member_text, (&document, name), res),
        document matches Some(d) ==> d.members is None,
    ensures
        res is None,
{
}

/// A payload that is a JSON object gives the texts of its two members, each where it is a string;
/// any other payload gives none.
pub proof fn law_payload_gives_its_members(body: &str, res: (Option<String>, Option<String>))
    requires
        call_ensures(parse_dlq_payload, (body,), res),
    ensures
        json_document(body@) matches Some(Some(members)) ==> {
            &&& res.0 is Some <==> members.contains_key("source_queue"@)
                && members["source_queue"@] is Some
            &&& res.0 matches Some(t) ==> members["source_queue"@] == Some(t@)
            &&& res.1 is Some <==> members.contains_key("destination_url"@)
                && members["destination_url"@] is Some
            &&& res.1 matches Some(t) ==> members["destination_url"@] == Some(t@)
        },
        !(json_document(body@) matches Some(Some(_))) ==> res.0 is None && res.1 is None,
{
}

/// Whether two optional texts say the same.
pub open spec fn same_optional(a: Option<String>, b: Option<String>) -> bool {
    (a is Some <==> b is Some) && (a matches Some(t) ==> t@ == (b->0)@)
}

/// A stored message is listed with all that is stored of it; where it came from and was meant for is
/// what its listed body gives.
pub proof fn law_message_is_listed_as_stored(
    msg: StoredMessage,
    res: DlqMessage,
    body: &str,
    two: (Option<String>, Option<String>),
)
    requires
        call_ensures(to_dlq_message, (msg,), res),
        body@ == res.body@,
        call_ensures(parse_dlq_payload, (body,), two),
    ensures
        same_optional(res.source_queue, two.0),
        same_optional(res.destination_url, two.1),
        res.body@ == utf8_lossy(msg.payload@),
        vstd::utf8::valid_utf8(msg.payload@) ==> res.body@ == vstd::utf8::decode_utf8(msg.payload@),
        res.message_id == msg.id,
        res.key@ == msg.routing_key@,
        res.published_at_ms == msg.published_at_ms,
        res.partition == msg.partition,
        res.offset == msg.offset,
{
}

/// A message whose body is a JSON object is listed with the texts of its two members.
pub proof fn law_listed_members_are_those_of_the_body(msg: StoredMessage, res: DlqMessage)
    requires
        call_ensures(to_dlq_message, (msg,), res),
    ensures
        json_document(res.body@) matches Some(Some(members)) ==> {
            &&& members.contains_key("destination_url"@) ==> (members["destination_url"@]
                matches Some(url) ==> (res.destination_url matches Some(t) && t@ == url))
            &&& members.contains_key("source_queue"@) ==> (members["source_queue"@] matches Some(
                queue,
            ) ==> (res.source_queue matches Some(t) && t@ == queue))
            &&& res.destination_url matches Some(t) ==> members.contains_key("destination_url"@)
                && members["destination_url"@] == Some(t@)
            &&& res.source_queue matches Some(t) ==> members.contains_key("source_queue"@)
                && members["source_queue"@] == Some(t@)
        },
        !(json_document(res.body@) matches Some(Some(_))) ==> res.destination_url is None
            && res.source_queue is None,
{
}

/// A listing is called by the queue that was asked for. Else it is called by what its topic says
/// before the suffix, where that does not begin as a group's does, and else by its topic.
pub proof fn law_listing_is_called(q: DlqQuery, topic: &str, res: String)
    requires
        call_ensures(listing_label, (&q, topic), res),
    ensures
        q.queue matches Some(queue) ==> res@ == queue@,
        q.queue is None ==> forall|front: Seq<char>|
            topic@ == #[trigger] (front + ".__dlq"@) ==> res@ == (if exists|rest: Seq<char>|
                front == #[trigger] ("__group."@ + rest) {
                topic@
            } else {
                front
            }),
        q.queue is None && !(exists|front: Seq<char>| topic@ == #[trigger] (front + ".__dlq"@))
            ==> res@ == topic@,
{
    lemma_ends_with_suffix(topic@);
    assert forall|front: Seq<char>| topic@ == #[trigger] (front + ".__dlq"@) implies topic@.take(
        topic@.len() - ".__dlq"@.len(),
    ) == front && ("__group."@.is_prefix_of(front) <==> exists|rest: Seq<char>|
        front == #[trigger] ("__group."@ + rest)) by {
        assert(topic@.take(topic@.len() - ".__dlq"@.len()) =~= front);
        let prefix = "__group."@;
        if exists|rest: Seq<char>| front == #[trigger] (prefix + rest) {
            assert(front.subrange(0, prefix.len() as int) =~= prefix);
        }
        if prefix.len() <= front.len() && front.subrange(0, prefix.len() as int) == prefix {
            assert(front =~= prefix + front.skip(prefix.len() as int));
        }
    }
}

/// A listing holds each message, in their order, as it alone is listed.
pub proof fn law_listing_holds_each_message(
    q: DlqQuery,
    topic: String,
    messages: Vec<StoredMessage>,
    res: DlqListResponse,
    name: &str,
    label: String,
    i: int,
    one: DlqMessage,
)
    requires
        call_ensures(dlq_listing, (&q, topic, messages), res),
        name@ == topic@,
        call_ensures(listing_label, (&q, name), label),
        0 <= i < messages@.len(),
        call_ensures(to_dlq_message, (messages@[i],), one),
    ensures
        res.queue@ == label@,
        res.dlq_topic@ == topic@,
        res.messages@.len() == messages@.len(),
        ({
            let listed = res.messages@[i];
            &&& listed.message_id == messages@[i].id
            &&& listed.key@ == messages@[i].routing_key@
            &&& listed.published_at_ms == messages@[i].published_at_ms
            &&& listed.partition == messages@[i].partition
            &&& listed.offset == messages@[i].offset
            &&& listed.body@ == one.body@
            &&& same_optional(listed.source_queue, one.source_queue)
            &&& same_optional(listed.destination_url, one.destination_url)
        }),
{
    assert(lists_message(res.messages@[i], messages@[i]));
}

/// A listing without messages holds none.
pub proof fn law_empty_listing(
    q: DlqQuery,
    topic: String,
    messages: Vec<StoredMessage>,
    res: DlqListResponse,
)
    requires
        call_ensures(dlq_listing, (&q, topic, messages), res),
    ensures
        res.messages@.len() == messages@.len(),
        res.dlq_topic@ == topic@,
        q.queue matches Some(queue) ==> res.queue@ == queue@,
{
}

/// A message may be deleted exactly from a topic that ends as a dead-letter topic does, wherever in
/// it the message is.
pub proof fn law_deletion_needs_a_dlq_topic(q: DeleteDlqQuery, res: Result<(), ApiError>)
    requires
        call_ensures(check_dlq_delete, (&q,), res),
    ensures
        res is Ok <==> exists|front: Seq<char>| q.dlq_topic@ == #[trigger] (front + ".__dlq"@),
        res is Err ==> (res matches Err(ApiError::BadRequest(m)) && m@
            == "dlq_topic must end with .__dlq"@),
{
    lemma_ends_with_suffix(q.dlq_topic@);
}

/// A deletion succeeds exactly where the message was there.
pub proof fn law_deletion_succeeds_where_removed(removed: bool, res: Result<u16, ApiError>)
    requires
        call_ensures(dlq_delete_outcome, (removed,), res),
    ensures
        removed ==> res == Ok::<u16, ApiError>(204),
        !removed ==> (res matches Err(ApiError::BadRequest(m)) && m@ == "DLQ message not found"@),
{
}

/// A text that stands for an identifier holds no dot, and does not begin with an underscore.
proof fn lemma_identifier_characters(text: Seq<char>, id: Uuid)
    requires
        stands_for(text, id),
    ensures
        text.len() > 0,
        text[0] != '_',
        forall|i: int| 0 <= i < text.len() ==> #[trigger] text[i] != '.',
{
    let t = text.map_values(|c: char| lower(c));
    let u = uuid_text(id);
    let s = simple_text(id);
    reveal_strlit("{");
    reveal_strlit("}");
    reveal_strlit("urn:uuid:");
    lemma_uuid_text_is_hex(id);
    assert(t.len() == text.len() && s.len() == 32 && u.len() == 36);
    assert forall|p: int| 0 <= p < 36 implies #[trigger] u[p] == '-' || is_hex_digit(u[p]) by {}
    assert forall|k: int| 0 <= k < 32 implies is_hex_digit(#[trigger] s[k]) by {
        let d = nibble(id, k);
        assert(0 <= d < 16);
        assert(is_hex_digit(crate::ids::hex_digit(d)));
    }
    assert forall|i: int| 0 <= i < t.len() implies (#[trigger] t[i]) != '.' && t[i] != '_' by {
        if t == s {
            assert(is_hex_digit(s[i]));
        } else if t == u {
            assert(u[i] == '-' || is_hex_digit(u[i]));
        } else if t == "{"@ + u + "}"@ {
            if 0 < i < 37 {
                assert(t[i] == u[i - 1]);
            }
        } else {
            if i >= 9 {
                assert(t[i] == u[i - 9]);
            }
        }
    }
    assert forall|i: int| 0 <= i < text.len() implies #[trigger] text[i] != '.' && text[i] != '_' by {
        assert(t[i] == lower(text[i]));
    }
    assert(text[0] != '_');
}

/// The first `.__dlq` after two identifiers stands right behind them.
proof fn lemma_group_parts_of_identifiers(
    name: Seq<char>,
    a: Seq<char>,
    b: Seq<char>,
    rest: Seq<char>,
    g: Uuid,
    m: Uuid,
)
    requires
        name == "__group."@ + a + "."@ + b + ".__dlq"@ + rest,
        stands_for(a, g),
        stands_for(b, m),
    ensures
        group_parts(name) == Some((a, b)),
{
    reveal_strlit("__group.");
    reveal_strlit(".__dlq");
    reveal_strlit(".");
    lemma_identifier_characters(a, g);
    lemma_identifier_characters(b, m);
    let suffix = ".__dlq"@;
    let ids = a + "."@ + b;
    let tail = ids + suffix + rest;
    assert(name.subrange(0, 8) =~= "__group."@);
    assert(name.skip(8) =~= tail);
    lemma_find_from(tail, suffix, 0);
    assert(tail.subrange(ids.len() as int, ids.len() as int + 6) =~= suffix);
    assert(occurs_at(tail, suffix, ids.len() as int));
    assert forall|j: int| 0 <= j < ids.len() implies !occurs_at(tail, suffix, j) by {
        assert(suffix[0] == '.' && suffix[1] == '_');
        if occurs_at(tail, suffix, j) {
            let part = tail.subrange(j, j + suffix.len());
            assert(part[0] == tail[j] && part[1] == tail[j + 1]);
            if j < a.len() {
                assert(tail[j] == a[j]);
            } else if j == a.len() {
                assert(tail[j + 1] == b[0]);
            } else {
                assert(tail[j] == b[j - a.len() - 1]);
            }
        }
    }
    assert(tail.take(ids.len() as int) =~= ids);
    lemma_find_from(ids, "."@, 0);
    assert(ids.subrange(a.len() as int, a.len() as int + 1) =~= "."@);
    assert(occurs_at(ids, "."@, a.len() as int));
    assert forall|j: int| 0 <= j < a.len() implies !occurs_at(ids, "."@, j) by {
        assert(ids.subrange(j, j + 1)[0] == a[j]);
    }
    assert(ids.take(a.len() as int) =~= a);
    assert(ids.skip(a.len() as int + 1) =~= b);
}

/// The group and the member of a name are what its part between `__group.` and the first `.__dlq`
/// after it holds before and after its first dot; there are none where one of the three is missing.
pub proof fn law_group_and_member_as_texts(
    name: &str,
    res: Option<(&str, &str)>,
    prefix: &str,
    end: &str,
    dot: &str,
    rest: Option<&str>,
    ids: Option<(&str, &str)>,
    parts: Option<(&str, &str)>,
)
    requires
        call_ensures(group_texts, (name,), res),
        prefix@ == "__group."@,
        end@ == ".__dlq"@,
        dot@ == "."@,
        call_ensures(strip_prefix, (name, prefix), rest),
        rest matches Some(r) ==> call_ensures(split_once, (r, end), ids),
        ids matches Some(i) ==> call_ensures(split_once, (i.0, dot), parts),
    ensures
        res is Some <==> rest is Some && ids is Some && parts is Some,
        res matches Some(texts) ==> texts.0@ == (parts->0).0@ && texts.1@ == (parts->0).1@,
{
}

/// A topic of direct deliveries is recognised; so is a topic that names a group and a member, in
/// any form of their identifiers and whatever follows.
pub proof fn law_group_and_direct_topics_are_recognised(
    name: &str,
    res: DlqSource,
    a: Seq<char>,
    b: Seq<char>,
    rest: Seq<char>,
    g: Uuid,
    m: Uuid,
)
    requires
        call_ensures(classify_dlq_topic, (name,), res),
    ensures
        res is Direct <==> name@ == "__direct"@ + ".__dlq"@,
        name@ == "__group."@ + a + "."@ + b + ".__dlq"@ + rest && stands_for(a, g) && stands_for(
            b,
            m,
        ) ==> res == (DlqSource::GroupMember { group: g, member: m }),
{
    if name@ == "__group."@ + a + "."@ + b + ".__dlq"@ + rest && stands_for(a, g) && stands_for(
        b,
        m,
    ) {
        lemma_group_parts_of_identifiers(name@, a, b, rest, g, m);
        law_text_stands_for_one(a, g, g);
        law_text_stands_for_one(b, m, m);
        reveal_strlit("__direct");
        reveal_strlit("__group.");
        assert(name@[2] == 'g');
        assert(("__direct"@ + ".__dlq"@)[2] == 'd');
        assert(topic_ids(name@) == Some((g, m)));
    }
}

/// What is recognised is in the name: a group and a member whose identifiers stand in it, or a queue
/// whose dead-letter topic it is; a name of neither sort does not end as a dead-letter topic does.
pub proof fn law_recognised_source_is_in_the_name(name: &str, res: DlqSource)
    requires
        call_ensures(classify_dlq_topic, (name,), res),
    ensures
        res matches DlqSource::GroupMember { group, member } ==> exists|a: Seq<char>, b: Seq<char>|
            #[trigger] stands_for(a, group) && #[trigger] stands_for(b, member) && exists|
                rest: Seq<char>,
            |
                name@ == #[trigger] ("__group."@ + a + "."@ + b + ".__dlq"@ + rest),
        res matches DlqSource::Queue(queue) ==> name@ == queue@ + ".__dlq"@,
        res is Other ==> forall|front: Seq<char>| name@ != #[trigger] (front + ".__dlq"@),
{
    lemma_ends_with_suffix(name@);
    if let DlqSource::Queue(queue) = res {
        let suffix = ".__dlq"@;
        assert(name@ =~= name@.take(name@.len() - suffix.len()) + suffix);
    }
    if let DlqSource::GroupMember { group, member } = res {
        let prefix = "__group."@;
        let suffix = ".__dlq"@;
        let tail = name@.skip(prefix.len() as int);
        lemma_find_from(tail, suffix, 0);
        let i = find(tail, suffix)->0;
        let ids = tail.take(i);
        let rest = tail.skip(i + suffix.len());
        lemma_find_from(ids, "."@, 0);
        let j = find(ids, "."@)->0;
        let a = ids.take(j);
        let b = ids.skip(j + "."@.len());
        assert(cut_once(tail, suffix) == Some((ids, rest)));
        assert(group_parts(name@) == Some((a, b)));
        assert(uuid_of(a) == Some(group) && uuid_of(b) == Some(member));
        assert(stands_for(a, group) && stands_for(b, member));
        assert(ids =~= a + ids.subrange(j, j + "."@.len()) + b);
        assert(tail =~= ids + tail.subrange(i, i + suffix.len()) + rest);
        assert(name@ =~= prefix + tail) by {
            assert(name@ =~= name@.subrange(0, prefix.len() as int) + tail);
        }
        assert(name@ =~= prefix + a + "."@ + b + suffix + rest);
    }
}

/// The dead-letter topic of a queue is recognised as that queue's, unless its name begins as a
/// group's does or it is that of direct deliveries.
pub proof fn law_topic_of_a_queue_is_recognised(name: &str, queue: Seq<char>, res: DlqSource)
    requires
        call_ensures(classify_dlq_topic, (name,), res),
        name@ == queue + ".__dlq"@,
        queue != "__direct"@,
        forall|rest: Seq<char>| name@ != #[trigger] ("__group."@ + rest),
    ensures
        res matches DlqSource::Queue(q) && q@ == queue,
{
    lemma_ends_with_suffix(name@);
    let suffix = ".__dlq"@;
    let prefix = "__group."@;
    assert(name@.take(name@.len() - suffix.len()) =~= queue);
    if prefix.len() <= name@.len() && name@.subrange(0, prefix.len() as int) == prefix {
        assert(name@ =~= prefix + name@.skip(prefix.len() as int));
    }
    if name@ == "__direct"@ + suffix {
        assert(("__direct"@ + suffix).take(name@.len() - suffix.len()) =~= "__direct"@);
    }
}

/// Given the identifiers in its name, a topic is that of direct deliveries by its name alone, else
/// that of the group member, else that of the queue that it names.
pub proof fn law_source_by_identifiers(name: &str, ids: Option<(Uuid, Uuid)>, res: DlqSource)
    requires
        call_ensures(source_by_ids, (name, ids), res),
    ensures
        res is Direct <==> name@ == "__direct"@ + ".__dlq"@,
        name@ != "__direct"@ + ".__dlq"@ ==> (ids matches Some((g, m)) ==> res == (
        DlqSource::GroupMember { group: g, member: m })),
        name@ != "__direct"@ + ".__dlq"@ && ids is None ==> {
            &&& forall|front: Seq<char>|
                name@ == #[trigger] (front + ".__dlq"@) ==> (res matches DlqSource::Queue(q) && q@
                    == front)
            &&& !(exists|front: Seq<char>| name@ == #[trigger] (front + ".__dlq"@)) ==> res is Other
        },
{
    lemma_ends_with_suffix(name@);
    let suffix = ".__dlq"@;
    assert forall|front: Seq<char>| name@ == #[trigger] (front + suffix) implies name@.take(
        name@.len() - suffix.len(),
    ) == front by {
        assert(name@.take(name@.len() - suffix.len()) =~= front);
    }
}

/// Each sort of source has its kind and its label. A group and a member are called by their names,
/// where these are known, and else by their identifiers; the queue to ask for is that of the source.
pub proof fn law_sources_are_labelled(
    source: DlqSource,
    topic: &str,
    group_name: Option<String>,
    member_name: Option<String>,
    res: (String, String, Option<String>),
)
    requires
        call_ensures(dlq_source_label, (source, topic, group_name, member_name), res),
    ensures
        source is Direct ==> res.0@ == "direct"@ && res.1@ == "Direct publish"@ && (res.2
            matches Some(q) && q@ == "__direct"@),
        source matches DlqSource::GroupMember { group, member } ==> {
            &&& res.0@ == "group_member"@
            &&& res.2 is None
            &&& res.1@ == "Group "@ + (if group_name is Some {
                (group_name->0)@
            } else {
                uuid_text(group)
            }) + " → "@ + (if member_name is Some {
                (member_name->0)@
            } else {
                uuid_text(member)
            })
        },
        source matches DlqSource::Queue(queue) ==> res.0@ == "queue"@ && res.1@ == "Queue: "@
            + queue@ && (res.2 matches Some(q) && q@ == queue@),
        source is Other ==> res.0@ == "other"@ && res.1@ == topic@ && res.2 is None,
{
}

/// A source is listed with its topic, its count, and the label that it alone has.
pub proof fn law_source_is_listed_with_its_label(
    topic: String,
    source: DlqSource,
    group_name: Option<String>,
    member_name: Option<String>,
    count: usize,
    res: DlqSourceResponse,
    name: &str,
    label: (String, String, Option<String>),
)
    requires
        call_ensures(dlq_source_response, (topic, source, group_name, member_name, count), res),
        name@ == topic@,
        call_ensures(dlq_source_label, (source, name, group_name, member_name), label),
    ensures
        res.dlq_topic@ == topic@,
        res.count == count,
        res.kind@ == label.0@,
        res.label@ == label.1@,
        same_optional(res.queue, label.2),
{
}

/// The queue that a topic is listed with leads back to that topic, where it is not empty.
pub proof fn law_asking_for_the_listed_queue_leads_back(
    name: &str,
    source: DlqSource,
    group_name: Option<String>,
    member_name: Option<String>,
    label: (String, String, Option<String>),
    q: DlqQuery,
    topic: Result<String, ApiError>,
)
    requires
        call_ensures(classify_dlq_topic, (name,), source),
        call_ensures(dlq_source_label, (source, name, group_name, member_name), label),
        label.2 matches Some(queue) && queue@.len() > 0 && (q.queue matches Some(asked) && asked@
            == queue@),
        q.dlq_topic is None,
        call_ensures(resolve_dlq_topic, (&q,), topic),
    ensures
        topic matches Ok(t) && t@ == name@,
{
    law_recognised_source_is_in_the_name(name, source);
}

/// Sources are listed by falling count, and those of one count by label; each is listed as often as
/// it was given, and those of one count and label in the order in which they were given.
pub proof fn law_sources_are_sorted(
    sources: Vec<DlqSourceResponse>,
    res: Vec<DlqSourceResponse>,
    i: int,
    j: int,
    earlier: &str,
    later: &str,
    reversed: bool,
    count: usize,
    label: Seq<char>,
)
    requires
        call_ensures(sort_dlq_sources, (sources,), res),
        0 <= i < j < res@.len(),
        earlier@ == res@[i].label@,
        later@ == res@[j].label@,
        call_ensures(precedes, (later, earlier), reversed),
    ensures
        res@[i].count >= res@[j].count,
        res@[i].count == res@[j].count ==> !reversed,
        res@.len() == sources@.len(),
        res@.to_multiset() == sources@.to_multiset(),
        res@.filter(|s: DlqSourceResponse| s.count == count && s.label@ == label)
            == sources@.filter(|s: DlqSourceResponse| s.count == count && s.label@ == label),
{
    assert(!listed_before(res@[j], res@[i]));
    let rank = |s: DlqSourceResponse| s.count == count && s.label@ == label;
    assert(rank =~= has_rank(count, label));
    assert(res@.filter(has_rank(count, label)) == sources@.filter(has_rank(count, label)));
    vstd::seq_lib::to_multiset_len(res@);
    vstd::seq_lib::to_multiset_len(sources@);
}

/// Sorting loses and adds nothing, however many sources there are.
pub proof fn law_sorting_keeps_the_sources(
    sources: Vec<DlqSourceResponse>,
    res: Vec<DlqSourceResponse>,
)
    requires
        call_ensures(sort_dlq_sources, (sources,), res),
    ensures
        res@.len() == sources@.len(),
        res@.to_multiset() == sources@.to_multiset(),
{
    vstd::seq_lib::to_multiset_len(res@);
    vstd::seq_lib::to_multiset_len(sources@);
}

/// The topics to look into hold that of direct deliveries, that of each queue, that of each member
/// of each group and each that was found on disk, and no other.
pub proof fn law_candidates_are_all_topics(
    queues: Vec<String>,
    groups: Vec<GroupMembers>,
    on_disk: Vec<String>,
    res: Vec<String>,
)
    requires
        call_ensures(collect_dlq_topic_candidates, (&queues, &groups, &on_disk), res),
    ensures
        exists|r: int| 0 <= r < res@.len() && #[trigger] res@[r]@ == "__direct"@ + ".__dlq"@,
        forall|i: int|
            #![trigger queues@[i]]
            0 <= i < queues@.len() ==> exists|r: int|
                0 <= r < res@.len() && #[trigger] res@[r]@ == queues@[i]@ + ".__dlq"@,
        forall|g: int, m: int|
            #![trigger groups@[g].members@[m]]
            0 <= g < groups@.len() && 0 <= m < groups@[g].members@.len() ==> exists|r: int|
                0 <= r < res@.len() && #[trigger] res@[r]@ == "__group."@ + uuid_text(
                    groups@[g].group,
                ) + "."@ + uuid_text(groups@[g].members@[m]) + ".__dlq"@,
        forall|d: int|
            #![trigger on_disk@[d]]
            0 <= d < on_disk@.len() ==> exists|r: int|
                0 <= r < res@.len() && #[trigger] res@[r]@ == on_disk@[d]@,
        forall|r: int|
            0 <= r < res@.len() ==> {
                ||| #[trigger] res@[r]@ == "__direct"@ + ".__dlq"@
                ||| exists|i: int|
                    0 <= i < queues@.len() && res@[r]@ == (#[trigger] queues@[i])@ + ".__dlq"@
                ||| exists|g: int, m: int|
                    0 <= g < groups@.len() && 0 <= m < groups@[g].members@.len() && res@[r]@
                        == "__group."@ + uuid_text(groups@[g].group) + "."@ + uuid_text(
                        #[trigger] groups@[g].members@[m],
                    ) + ".__dlq"@
                ||| exists|d: int| 0 <= d < on_disk@.len() && res@[r]@ == (#[trigger] on_disk@[d])@
            },
{
    let direct = "__direct"@ + ".__dlq"@;
    assert(is_candidate(queues@, groups@, on_disk@, direct));
    assert(holds_topic(res@, direct));
    assert forall|i: int|
        #![trigger queues@[i]]
        0 <= i < queues@.len() implies exists|r: int|
        0 <= r < res@.len() && #[trigger] res@[r]@ == queues@[i]@ + ".__dlq"@ by {
        let t = queues@[i]@ + ".__dlq"@;
        assert(is_queue_candidate(queues@, t));
        assert(holds_topic(res@, t));
    }
    assert forall|g: int, m: int|
        #![trigger groups@[g].members@[m]]
        0 <= g < groups@.len() && 0 <= m < groups@[g].members@.len() implies exists|r: int|
        0 <= r < res@.len() && #[trigger] res@[r]@ == "__group."@ + uuid_text(groups@[g].group)
            + "."@ + uuid_text(groups@[g].members@[m]) + ".__dlq"@ by {
        let t = "__group."@ + uuid_text(groups@[g].group) + "."@ + uuid_text(
            groups@[g].members@[m],
        ) + ".__dlq"@;
        assert(is_member_candidate(groups@[g].group, groups@[g].members@, t));
        assert(is_group_candidate(groups@, t));
        assert(holds_topic(res@, t));
    }
    assert forall|d: int|
        #![trigger on_disk@[d]]
        0 <= d < on_disk@.len() implies exists|r: int|
        0 <= r < res@.len() && #[trigger] res@[r]@ == on_disk@[d]@ by {
        assert(holds_topic(on_disk@, on_disk@[d]@));
        assert(holds_topic(res@, on_disk@[d]@));
    }
    assert forall|r: int| 0 <= r < res@.len() implies ({
        ||| #[trigger] res@[r]@ == direct
        ||| exists|i: int| 0 <= i < queues@.len() && res@[r]@ == (#[trigger] queues@[i])@ + ".__dlq"@
        ||| exists|g: int, m: int|
            0 <= g < groups@.len() && 0 <= m < groups@[g].members@.len() && res@[r]@ == "__group."@
                + uuid_text(groups@[g].group) + "."@ + uuid_text(
                #[trigger] groups@[g].members@[m],
            ) + ".__dlq"@
        ||| exists|d: int| 0 <= d < on_disk@.len() && res@[r]@ == (#[trigger] on_disk@[d])@
    }) by {
        let t = res@[r]@;
        assert(holds_topic(res@, t));
        if is_queue_candidate(queues@, t) {
            let i = choose|i: int|
                0 <= i < queues@.len() && t == crate::topic::dlq_topic_name(#[trigger] queues@[i]@);
            assert(t == (queues@[i])@ + ".__dlq"@);
        } else if is_group_candidate(groups@, t) {
            let g = choose|g: int|
                0 <= g < groups@.len() && is_member_candidate(
                    (#[trigger] groups@[g]).group,
                    groups@[g].members@,
                    t,
                );
            let m = choose|m: int|
                0 <= m < groups@[g].members@.len() && t == crate::topic::group_member_dlq_name(
                    groups@[g].group,
                    #[trigger] groups@[g].members@[m],
                );
            assert(t == "__group."@ + uuid_text(groups@[g].group) + "."@ + uuid_text(
                groups@[g].members@[m],
            ) + ".__dlq"@);
        } else if holds_topic(on_disk@, t) {
            let d = choose|d: int| 0 <= d < on_disk@.len() && #[trigger] on_disk@[d]@ == t;
            assert(t == (on_disk@[d])@);
        }
    }
}

/// The topics to look into stand in ascending order, each once.
pub proof fn law_candidates_are_in_order(
    queues: Vec<String>,
    groups: Vec<GroupMembers>,
    on_disk: Vec<String>,
    res: Vec<String>,
    i: int,
    j: int,
    earlier: &str,
    later: &str,
    ordered: bool,
)
    requires
        call_ensures(collect_dlq_topic_candidates, (&queues, &groups, &on_disk), res),
        0 <= i < j < res@.len(),
        earlier@ == res@[i]@,
        later@ == res@[j]@,
        call_ensures(precedes, (earlier, later), ordered),
    ensures
        ordered,
        res@[i]@ != res@[j]@,
{
    assert(crate::text::lex_lt(res@[i]@, res@[j]@));
    crate::text::lemma_lex_lt_order(res@[i]@, res@[j]@);
}

} // verus!
