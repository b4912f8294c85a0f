//! Laws on publishing.

use crate::error::ApiError;
use crate::flow::FlowSpec;
use crate::ids::Uuid;
use crate::publish::{
    attach_inline_flow, delivery_after_publish, dispatches_in_cluster, enqueue_to_queue,
    scheduled_publish_path, to_enqueue_response, to_publish_enqueue, to_publish_job,
    to_publish_scheduled, DeliveryJob, EnqueueRequest, EnqueueResponse, PublishJobRequest,
    PublishPath, PublishRequest, PublishResponse, RetryInput, ScheduledPublishRequest,
};
use vstd::prelude::*;

verus! {

/// What is published for a request to enqueue says all that the request says, whatever its other
/// fields are, and nothing else.
pub proof fn law_enqueue_publishes_the_request<B, O>(
    req: EnqueueRequest<B, O>,
    res: Result<PublishRequest<B, O>, ApiError>,
)
    requires
        call_ensures(to_publish_enqueue::<B, O>, (req,), res),
    ensures
        res matches Ok(pr) ==> {
            &&& pr.topic@ == req.queue@
            &&& pr.queue_id == req.queue_id
            &&& pr.delay_ms == req.delay
            &&& pr.payload@ == req.body@
            &&& pr.payload_encoding == req.body_encoding
            &&& pr.routing_key@ == req.key@
            &&& pr.priority == req.priority
            &&& pr.idempotency_key == req.idempotency_key
            &&& pr.flow_id == req.flow_id
            &&& pr.max_retries == req.retry.max_retries
            &&& pr.retry_backoff == req.retry.retry_backoff
            &&& pr.outbound == Some(req.outbound)
            &&& pr.url is None && pr.secret is None && pr.destination is None
            &&& pr.group_id is None && pr.group_member_id is None
            &&& pr.flow is None && pr.parallelism is None
        },
{
}

/// A request to enqueue is taken exactly where it names a queue, by identifier or by name; nothing
/// else in it matters.
pub proof fn law_enqueue_needs_only_a_queue<B, O>(
    a: EnqueueRequest<B, O>,
    b: EnqueueRequest<B, O>,
    x: Result<PublishRequest<B, O>, ApiError>,
    y: Result<PublishRequest<B, O>, ApiError>,
)
    requires
        call_ensures(to_publish_enqueue::<B, O>, (a,), x),
        call_ensures(to_publish_enqueue::<B, O>, (b,), y),
    ensures
        x is Ok <==> a.queue_id is Some || a.queue@.len() > 0,
        x matches Err(e) ==> (e matches ApiError::QueueNotFound(m) && m@
            == "queue_id or queue name required"@),
        a.queue_id is Some && b.queue_id is Some ==> (x is Ok && y is Ok),
        a.queue_id is None && b.queue_id is None && a.queue@ == b.queue@ ==> (x is Ok <==> y is Ok),
{
}

/// A request that the path directs to a queue is published to that queue, with all else that it
/// says, whatever queue its body names.
pub proof fn law_path_names_the_queue<B, O>(
    queue_id: Uuid,
    req: EnqueueRequest<B, O>,
    directed: EnqueueRequest<B, O>,
    res: Result<PublishRequest<B, O>, ApiError>,
)
    requires
        call_ensures(enqueue_to_queue::<B, O>, (queue_id, req), directed),
        call_ensures(to_publish_enqueue::<B, O>, (directed,), res),
    ensures
        res matches Ok(pr) && pr.queue_id == Some(queue_id) && pr.topic@ == req.queue@
            && pr.payload@ == req.body@ && pr.payload_encoding == req.body_encoding
            && pr.routing_key@ == req.key@ && pr.delay_ms == req.delay && pr.priority
            == req.priority && pr.idempotency_key == req.idempotency_key && pr.flow_id
            == req.flow_id && pr.max_retries == req.retry.max_retries && pr.retry_backoff
            == req.retry.retry_backoff && pr.outbound == Some(req.outbound),
        directed.flow == req.flow,
{
}

/// What is published for a delivery to a URL goes to that URL, with that secret, on the topic of
/// direct deliveries, and says all else that the request says.
pub proof fn law_job_publishes_the_request<B, O>(
    req: PublishJobRequest<B, O>,
    pr: PublishRequest<B, O>,
)
    requires
        call_ensures(to_publish_job::<B, O>, (req,), pr),
    ensures
        pr.topic@ == "__direct"@,
        pr.url == Some(req.url),
        pr.secret == Some(req.secret),
        pr.delay_ms == req.delay,
        pr.payload@ == req.body@,
        pr.payload_encoding == req.body_encoding,
        pr.routing_key@ == req.key@,
        pr.priority == req.priority,
        pr.idempotency_key == req.idempotency_key,
        pr.flow_id == req.flow_id,
        pr.max_retries == req.retry.max_retries,
        pr.retry_backoff == req.retry.retry_backoff,
        pr.outbound == Some(req.outbound),
        pr.queue_id is None && pr.destination is None,
        pr.group_id is None && pr.group_member_id is None,
        pr.flow is None && pr.parallelism is None,
{
}

/// Two requests that agree in what is delivered are published alike, to a queue or to a URL.
pub proof fn law_queue_and_url_are_published_alike<B, O>(
    req: EnqueueRequest<B, O>,
    job: PublishJobRequest<B, O>,
    x: Result<PublishRequest<B, O>, ApiError>,
    y: PublishRequest<B, O>,
)
    requires
        call_ensures(to_publish_enqueue::<B, O>, (req,), x),
        call_ensures(to_publish_job::<B, O>, (job,), y),
        req.key == job.key,
        req.body == job.body,
        req.body_encoding == job.body_encoding,
        req.idempotency_key == job.idempotency_key,
        req.delay == job.delay,
        req.priority == job.priority,
        req.flow_id == job.flow_id,
        req.retry == job.retry,
        req.outbound == job.outbound,
    ensures
        x matches Ok(pr) ==> y == (PublishRequest {
            topic: y.topic,
            queue_id: y.queue_id,
            url: y.url,
            secret: y.secret,
            ..pr
        }),
{
}

/// Attaching the profile of a request's own flow changes its flow and the identifier of that, and
/// nothing else. The limits are the profile's, and the key is the profile's where it has one.
pub proof fn law_inline_flow_is_attached<B, O>(
    req: &mut PublishRequest<B, O>,
    key: String,
    profile_id: Uuid,
    profile: FlowSpec,
)
    requires
        call_ensures(attach_inline_flow::<B, O>, (req, key, profile_id, profile), ()),
    ensures
        final(req).flow_id == Some(profile_id),
        final(req).flow matches Some(flow) && flow.parallelism == profile.parallelism && flow.rate
            == profile.rate && flow.period_secs == profile.period_secs && (flow.key matches Some(
            k,
        ) && k@ == (if profile.key is Some {
            (profile.key->0)@
        } else {
            key@
        })),
        final(req).topic == old(req).topic,
        final(req).routing_key == old(req).routing_key,
        final(req).payload == old(req).payload,
        final(req).payload_encoding == old(req).payload_encoding,
        final(req).idempotency_key == old(req).idempotency_key,
        final(req).delay_ms == old(req).delay_ms,
        final(req).priority == old(req).priority,
        final(req).queue_id == old(req).queue_id,
        final(req).group_id == old(req).group_id,
        final(req).group_member_id == old(req).group_member_id,
        final(req).destination == old(req).destination,
        final(req).parallelism == old(req).parallelism,
        final(req).max_retries == old(req).max_retries,
        final(req).retry_backoff == old(req).retry_backoff,
        final(req).url == old(req).url,
        final(req).secret == old(req).secret,
        final(req).outbound == old(req).outbound,
{
}

/// A client is told what the broker said; where the message is stored, exactly where the broker
/// gave both its partition and its offset.
pub proof fn law_client_is_told_what_the_broker_said<S>(
    inner: PublishResponse<S>,
    res: EnqueueResponse<S>,
)
    requires
        call_ensures(to_enqueue_response::<S>, (inner,), res),
    ensures
        res.message_id == inner.message_id,
        res.queue@ == inner.topic@,
        res.duplicate == inner.duplicate,
        res.scheduled == inner.scheduled,
        res.delivery is Some <==> inner.partition is Some && inner.offset is Some,
        res.delivery matches Some(d) ==> inner.partition == Some(d.shard) && inner.offset == Some(
            d.seq,
        ),
{
}

/// What is published once a publication's time has come is what was scheduled, without a delay.
pub proof fn law_due_publication_is_what_was_scheduled<B, O>(
    pending: ScheduledPublishRequest<B, O>,
    pr: PublishRequest<B, O>,
)
    requires
        call_ensures(to_publish_scheduled::<B, O>, (pending,), pr),
    ensures
        pr.delay_ms is None,
        pr.topic@ == pending.topic@,
        pr.routing_key@ == pending.routing_key@,
        pr.payload@ == pending.payload@,
        pr.payload_encoding == pending.payload_encoding,
        pr.idempotency_key == pending.idempotency_key,
        pr.priority == pending.priority,
        pr.flow_id == pending.flow_id,
        pr.queue_id == pending.queue_id,
        pr.destination == pending.destination,
        pr.flow == pending.flow,
        pr.parallelism == pending.parallelism,
        pr.max_retries == pending.max_retries,
        pr.retry_backoff == pending.retry_backoff,
        pr.outbound == pending.outbound,
        pr.url is None && pr.secret is None,
        pr.group_id is None && pr.group_member_id is None,
{
}

/// A publication that is no repetition, that is stored, and whose topic does not end as a
/// dead-letter topic does is dispatched, one on the topic of direct deliveries among them; any
/// other is not. What is dispatched is where the message is stored.
pub proof fn law_stored_publication_is_dispatched<S>(
    resp: PublishResponse<S>,
    res: Option<DeliveryJob>,
)
    requires
        call_ensures(delivery_after_publish::<S>, (resp,), res),
    ensures
        res is Some <==> {
            &&& !resp.duplicate
            &&& resp.partition is Some
            &&& resp.offset is Some
            &&& resp.message_id is Some
            &&& !exists|front: Seq<char>| resp.topic@ == #[trigger] (front + ".__dlq"@)
        },
        res matches Some(job) ==> job.topic@ == resp.topic@ && resp.partition == Some(job.partition)
            && resp.offset == Some(job.offset) && resp.message_id == Some(job.message_id),
        !resp.duplicate && resp.partition is Some && resp.offset is Some && resp.message_id is Some
            && resp.topic@ == "__direct"@ ==> res is Some,
{
    let topic = resp.topic@;
    let suffix = ".__dlq"@;
    if exists|front: Seq<char>| topic == #[trigger] (front + suffix) {
        let front = choose|front: Seq<char>| topic == #[trigger] (front + suffix);
        assert(topic.subrange(topic.len() - suffix.len(), topic.len() as int) =~= suffix);
    }
    if topic.len() >= suffix.len() && topic.subrange(
        topic.len() - suffix.len(),
        topic.len() as int,
    ) == suffix {
        let front = topic.take(topic.len() - suffix.len());
        assert(topic =~= front + suffix);
    }
    reveal_strlit("__direct");
    reveal_strlit(".__dlq");
    if topic == "__direct"@ {
        assert forall|front: Seq<char>| topic != #[trigger] (front + suffix) by {
            if topic == front + suffix {
                assert(topic[2] == suffix[0]);
            }
        }
    }
}

/// A repetition is dispatched neither in a cluster nor on a single node, and what is dispatched on a
/// single node would be in a cluster.
pub proof fn law_repetitions_are_not_dispatched<S>(
    resp: PublishResponse<S>,
    job: Option<DeliveryJob>,
    in_cluster: bool,
)
    requires
        call_ensures(delivery_after_publish::<S>, (resp,), job),
        call_ensures(dispatches_in_cluster::<S>, (&resp,), in_cluster),
    ensures
        resp.duplicate ==> job is None && !in_cluster,
        !resp.duplicate ==> in_cluster,
        job is Some ==> in_cluster,
{
}

/// What is due goes through the cluster exactly where there is one.
pub proof fn law_cluster_takes_what_is_due(in_cluster: bool, path: PublishPath)
    requires
        call_ensures(scheduled_publish_path, (in_cluster,), path),
    ensures
        path == PublishPath::Cluster <==> in_cluster,
        path == PublishPath::SingleNode <==> !in_cluster,
{
}

/// No overrides of retries are no overrides at all.
pub proof fn law_default_retries_are_none<B>(res: RetryInput<B>)
    requires
        call_ensures(<RetryInput<B> as Default>::default, (), res),
    ensures
        res.max_retries is None && res.retry_backoff is None,
{
}

} // verus!
