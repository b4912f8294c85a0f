//! Laws on the names of topics.

use crate::ids::{uuid_text, Uuid};
use crate::topic::{direct_topic, dlq_topic, group_member_dlq_topic, is_dlq_topic};
use vstd::prelude::*;

verus! {

/// The topic of direct deliveries has one name.
pub proof fn law_direct_topic(res: &'static str)
    requires
        call_ensures(direct_topic, (), res),
    ensures
        res@ == "__direct"@,
{
}

/// The dead-letter topic of a topic is the topic with the suffix, whatever the topic is.
pub proof fn law_dlq_topic_adds_the_suffix(topic: &str, res: String)
    requires
        call_ensures(dlq_topic, (topic,), res),
    ensures
        res@ == topic@ + ".__dlq"@,
{
}

/// The dead-letter topic of a group member names the group and the member, in that order.
pub proof fn law_group_member_topic(group: Uuid, member: Uuid, res: String)
    requires
        call_ensures(group_member_dlq_topic, (group, member), res),
    ensures
        res@ == "__group."@ + uuid_text(group) + "."@ + uuid_text(member) + ".__dlq"@,
{
}

/// A topic is a dead-letter topic exactly where it is some text with the suffix.
pub proof fn law_dlq_topics_end_with_the_suffix(topic: &str, res: bool)
    requires
        call_ensures(is_dlq_topic, (topic,), res),
    ensures
        res <==> exists|front: Seq<char>| topic@ == #[trigger] (front + ".__dlq"@),
{
    let t = topic@;
    let suffix = ".__dlq"@;
    if exists|front: Seq<char>| t == #[trigger] (front + suffix) {
        assert(t.subrange(t.len() - suffix.len(), t.len() as int) =~= suffix);
    }
    if t.len() >= suffix.len() && t.subrange(t.len() - suffix.len(), t.len() as int) == suffix {
        assert(t =~= t.take(t.len() - suffix.len()) + suffix);
    }
}

/// The dead-letter topic of any topic is recognised as one.
pub proof fn law_dlq_topic_is_recognised(topic: &str, dlq: String, again: &str, res: bool)
    requires
        call_ensures(dlq_topic, (topic,), dlq),
        again@ == dlq@,
        call_ensures(is_dlq_topic, (again,), res),
    ensures
        res,
{
    law_dlq_topics_end_with_the_suffix(again, res);
}

} // verus!
