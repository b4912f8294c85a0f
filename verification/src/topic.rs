//! Names of topics and of their dead-letter topics.

use crate::ids::{uuid_text, Uuid};
use crate::outside::uuid_to_text;
use crate::text::{ends_with, joined};
use vstd::prelude::*;

verus! {

/// The topic of deliveries that go to a URL rather than to a queue.
pub open spec fn direct_topic_name() -> Seq<char> {
    "__direct"@
}

/// What a dead-letter topic's name ends with.
pub open spec fn dlq_suffix() -> Seq<char> {
    ".__dlq"@
}

/// What the name of a group member's dead-letter topic begins with.
pub open spec fn group_prefix() -> Seq<char> {
    "__group."@
}

/// The dead-letter topic of `topic`: `jobs` has `jobs.__dlq`.
pub open spec fn dlq_topic_name(topic: Seq<char>) -> Seq<char> {
    topic + dlq_suffix()
}

/// Whether `topic` names a dead-letter topic.
pub open spec fn names_dlq(topic: Seq<char>) -> bool {
    dlq_suffix().is_suffix_of(topic)
}

/// The dead-letter topic of a group member: `__group.{group}.{member}.__dlq`.
pub open spec fn group_member_dlq_name(group: Uuid, member: Uuid) -> Seq<char> {
    group_prefix() + uuid_text(group) + "."@ + uuid_text(member) + dlq_suffix()
}

/// The topic of deliveries that go to a URL rather than to a queue.
pub fn direct_topic() -> (res: &'static str)
    ensures
        res@ == direct_topic_name(),
{
    "__direct"
}

/// The dead-letter topic of `topic`.
pub fn dlq_topic(topic: &str) -> (res: String)
    ensures
        res@ == dlq_topic_name(topic@),
{
    joined(topic, ".__dlq")
}

/// Whether `topic` names a dead-letter topic.
pub fn is_dlq_topic(topic: &str) -> (res: bool)
    ensures
        res == names_dlq(topic@),
{
    ends_with(topic, ".__dlq")
}

/// The dead-letter topic of a group member.
pub fn group_member_dlq_topic(group: Uuid, member: Uuid) -> (res: String)
    ensures
        res@ == group_member_dlq_name(group, member),
{
    let mut res: String = joined("__group.", uuid_to_text(group).as_str());
    res.append(".");
    res.append(uuid_to_text(member).as_str());
    res.append(".__dlq");
    res
}

/// Every dead-letter topic that is derived from a topic or from a group member is recognised as
/// one.
pub proof fn law_derived_topics_are_dlq(topic: Seq<char>, group: Uuid, member: Uuid)
    ensures
        names_dlq(dlq_topic_name(topic)),
        names_dlq(group_member_dlq_name(group, member)),
{
    let t = dlq_topic_name(topic);
    assert(t.subrange(t.len() - dlq_suffix().len(), t.len() as int) =~= dlq_suffix());
    let g = group_member_dlq_name(group, member);
    assert(g.subrange(g.len() - dlq_suffix().len(), g.len() as int) =~= dlq_suffix());
}

/// Two topics share a dead-letter topic only if they are one.
pub proof fn law_dlq_topic_is_injective(a: Seq<char>, b: Seq<char>)
    requires
        dlq_topic_name(a) == dlq_topic_name(b),
    ensures
        a == b,
{
    assert(a =~= dlq_topic_name(a).take(a.len() as int));
    assert(b =~= dlq_topic_name(b).take(b.len() as int));
}

} // verus!
