//! Publishing: from what a client asks for to what the broker stores and dispatches.
//!
//! Two kinds of values are carried without being read: `B`, how retries back off, and `O`, what a
//! delivery sends besides its URL and payload.

use crate::error::ApiError;
use crate::flow::{inline_flow_spec, FlowSpec};
use crate::ids::Uuid;
use crate::text::view_of;
use crate::topic::{direct_topic, direct_topic_name, is_dlq_topic, names_dlq};
use vstd::prelude::*;

verus! {

/// Optional overrides of how a delivery is retried.
#[derive(Debug, Clone)]
pub struct RetryInput<B> {
    /// How often to retry.
    pub max_retries: Option<u32>,
    /// How retries back off.
    pub retry_backoff: Option<B>,
}

impl<B> Default for RetryInput<B> {
    fn default() -> (res: Self)
        ensures
            res.max_retries is None && res.retry_backoff is None,
    {
        RetryInput { max_retries: None, retry_backoff: None }
    }
}

/// A request to enqueue into a queue, by its identifier or else by its name.
#[derive(Debug)]
pub struct EnqueueRequest<B, O> {
    /// The queue's identifier.
    pub queue_id: Option<Uuid>,
    /// The queue's name; empty where none is given.
    pub queue: String,
    /// The key to route by.
    pub key: String,
    /// The payload.
    pub body: String,
    /// How the payload is encoded.
    pub body_encoding: Option<String>,
    /// The key by which a repeated request is recognised.
    pub idempotency_key: Option<String>,
    /// How many milliseconds to wait before delivery.
    pub delay: Option<u64>,
    /// The priority.
    pub priority: Option<u8>,
    /// The flow profile.
    pub flow_id: Option<Uuid>,
    /// Limits that the request brings along.
    pub flow: Option<FlowSpec>,
    /// How to retry.
    pub retry: RetryInput<B>,
    /// What the delivery sends besides its URL and payload.
    pub outbound: O,
}

/// A request to deliver once to a URL.
#[derive(Debug)]
pub struct PublishJobRequest<B, O> {
    /// The URL.
    pub url: String,
    /// The secret shared with the destination.
    pub secret: String,
    /// The key to route by.
    pub key: String,
    /// The payload.
    pub body: String,
    /// How the payload is encoded.
    pub body_encoding: Option<String>,
    /// The key by which a repeated request is recognised.
    pub idempotency_key: Option<String>,
    /// How many milliseconds to wait before delivery.
    pub delay: Option<u64>,
    /// The priority.
    pub priority: Option<u8>,
    /// The flow profile.
    pub flow_id: Option<Uuid>,
    /// Limits that the request brings along.
    pub flow: Option<FlowSpec>,
    /// How to retry.
    pub retry: RetryInput<B>,
    /// What the delivery sends besides its URL and payload.
    pub outbound: O,
}

/// Where a delivery goes.
#[derive(Debug)]
pub struct DestinationSnapshot {
    /// The queue, where the destination is one.
    pub queue_id: Option<Uuid>,
    /// The URL.
    pub url: String,
    /// The secret shared with the destination.
    pub secret: String,
}

/// What the broker is asked to publish.
#[derive(Debug)]
pub struct PublishRequest<B, O> {
    /// The topic.
    pub topic: String,
    /// The key to route by.
    pub routing_key: String,
    /// The payload.
    pub payload: String,
    /// How the payload is encoded.
    pub payload_encoding: Option<String>,
    /// The key by which a repeated request is recognised.
    pub idempotency_key: Option<String>,
    /// How many milliseconds to wait before delivery.
    pub delay_ms: Option<u64>,
    /// The priority.
    pub priority: Option<u8>,
    /// The flow profile.
    pub flow_id: Option<Uuid>,
    /// The queue.
    pub queue_id: Option<Uuid>,
    /// The group.
    pub group_id: Option<Uuid>,
    /// The group member.
    pub group_member_id: Option<Uuid>,
    /// Where the delivery goes, where that is settled.
    pub destination: Option<DestinationSnapshot>,
    /// The limits on deliveries.
    pub flow: Option<FlowSpec>,
    /// How many deliveries run at once.
    pub parallelism: Option<u32>,
    /// How often to retry.
    pub max_retries: Option<u32>,
    /// How retries back off.
    pub retry_backoff: Option<B>,
    /// The URL of a direct delivery.
    pub url: Option<String>,
    /// The secret of a direct delivery.
    pub secret: Option<String>,
    /// What the delivery sends besides its URL and payload.
    pub outbound: Option<O>,
}

/// A publication that waits for its time.
#[derive(Debug)]
pub struct ScheduledPublishRequest<B, O> {
    /// The topic.
    pub topic: String,
    /// The key to route by.
    pub routing_key: String,
    /// The payload.
    pub payload: String,
    /// How the payload is encoded.
    pub payload_encoding: Option<String>,
    /// The key by which a repeated request is recognised.
    pub idempotency_key: Option<String>,
    /// The priority.
    pub priority: Option<u8>,
    /// The flow profile.
    pub flow_id: Option<Uuid>,
    /// The queue.
    pub queue_id: Option<Uuid>,
    /// Where the delivery goes, where that is settled.
    pub destination: Option<DestinationSnapshot>,
    /// The limits on deliveries.
    pub flow: Option<FlowSpec>,
    /// How many deliveries run at once.
    pub parallelism: Option<u32>,
    /// How often to retry.
    pub max_retries: Option<u32>,
    /// How retries back off.
    pub retry_backoff: Option<B>,
    /// What the delivery sends besides its URL and payload.
    pub outbound: Option<O>,
}

/// What the broker answers to a publication. `S` is what it says of one that was put off.
#[derive(Debug)]
pub struct PublishResponse<S> {
    /// The message's identifier.
    pub message_id: Option<Uuid>,
    /// The topic.
    pub topic: String,
    /// Whether the request repeats an earlier one.
    pub duplicate: bool,
    /// The partition that holds the message.
    pub partition: Option<u32>,
    /// The message's offset in the partition.
    pub offset: Option<u64>,
    /// When it will be delivered, where it was put off.
    pub scheduled: Option<S>,
}

/// Where a message is stored.
#[derive(Debug, Clone, Copy)]
pub struct DeliveryRef {
    /// The partition.
    pub shard: u32,
    /// The offset in the partition.
    pub seq: u64,
}

/// What a client is answered.
#[derive(Debug)]
pub struct EnqueueResponse<S> {
    /// The message's identifier.
    pub message_id: Option<Uuid>,
    /// The queue.
    pub queue: String,
    /// Whether the request repeats an earlier one.
    pub duplicate: bool,
    /// Where the message is stored.
    pub delivery: Option<DeliveryRef>,
    /// When it will be delivered, where it was put off.
    pub scheduled: Option<S>,
}

/// A delivery to be dispatched at once.
#[derive(Debug)]
pub struct DeliveryJob {
    /// The topic.
    pub topic: String,
    /// The partition that holds the message.
    pub partition: u32,
    /// The message's offset in the partition.
    pub offset: u64,
    /// The message's identifier.
    pub message_id: Uuid,
}

/// What the broker is asked to publish for a request to enqueue.
pub open spec fn publishes_enqueue<B, O>(
    pr: PublishRequest<B, O>,
    req: EnqueueRequest<B, O>,
) -> bool {
    &&& pr.topic == req.queue
    &&& pr.queue_id == req.queue_id
    &&& pr.routing_key == req.key
    &&& pr.payload == req.body
    &&& pr.payload_encoding == req.body_encoding
    &&& pr.idempotency_key == req.idempotency_key
    &&& pr.delay_ms == req.delay
    &&& pr.priority == req.priority
    &&& pr.flow_id == req.flow_id
    &&& pr.max_retries == req.retry.max_retries
    &&& pr.retry_backoff == req.retry.retry_backoff
    &&& pr.outbound == Some(req.outbound)
    &&& pr.group_id is None
    &&& pr.group_member_id is None
    &&& pr.url is None
    &&& pr.secret is None
    &&& pr.destination is None
    &&& pr.flow is None
    &&& pr.parallelism is None
}

/// Turns a request to enqueue into what the broker is asked to publish. A request that names no
/// queue, neither by identifier nor by name, is refused.
pub fn to_publish_enqueue<B, O>(req: EnqueueRequest<B, O>) -> (res: Result<
    PublishRequest<B, O>,
    ApiError,
>)
    ensures
        match res {
            Ok(pr) => (req.queue_id is Some || req.queue@.len() > 0) && publishes_enqueue(pr, req),
            Err(ApiError::QueueNotFound(message)) => req.queue_id is None && req.queue@.len() == 0
                && message@ == "queue_id or queue name required"@,
            Err(_) => false,
        },
{
    if req.queue_id.is_none() && req.queue.as_str().is_empty() {
        return Err(ApiError::QueueNotFound("queue_id or queue name required".to_owned()));
    }
    Ok(
        PublishRequest {
            topic: req.queue,
            queue_id: req.queue_id,
            group_id: None,
            group_member_id: None,
            routing_key: req.key,
            payload: req.body,
            payload_encoding: req.body_encoding,
            idempotency_key: req.idempotency_key,
            delay_ms: req.delay,
            priority: req.priority,
            flow_id: req.flow_id,
            url: None,
            secret: None,
            destination: None,
            flow: None,
            parallelism: None,
            max_retries: req.retry.max_retries,
            retry_backoff: req.retry.retry_backoff,
            outbound: Some(req.outbound),
        },
    )
}

/// Directs a request to enqueue to the queue that the path names, whatever the body says.
pub fn enqueue_to_queue<B, O>(queue_id: Uuid, req: EnqueueRequest<B, O>) -> (res: EnqueueRequest<
    B,
    O,
>)
    ensures
        res == (EnqueueRequest { queue_id: Some(queue_id), ..req }),
{
    EnqueueRequest { queue_id: Some(queue_id), ..req }
}

/// What the broker is asked to publish for a delivery to a URL.
pub open spec fn publishes_job<B, O>(
    pr: PublishRequest<B, O>,
    req: PublishJobRequest<B, O>,
) -> bool {
    &&& pr.topic@ == direct_topic_name()
    &&& pr.routing_key == req.key
    &&& pr.payload == req.body
    &&& pr.payload_encoding == req.body_encoding
    &&& pr.idempotency_key == req.idempotency_key
    &&& pr.delay_ms == req.delay
    &&& pr.priority == req.priority
    &&& pr.flow_id == req.flow_id
    &&& pr.url == Some(req.url)
    &&& pr.secret == Some(req.secret)
    &&& pr.max_retries == req.retry.max_retries
    &&& pr.retry_backoff == req.retry.retry_backoff
    &&& pr.outbound == Some(req.outbound)
    &&& pr.queue_id is None
    &&& pr.group_id is None
    &&& pr.group_member_id is None
    &&& pr.destination is None
    &&& pr.flow is None
    &&& pr.parallelism is None
}

/// Turns a request to deliver to a URL into what the broker is asked to publish.
pub fn to_publish_job<B, O>(req: PublishJobRequest<B, O>) -> (res: PublishRequest<B, O>)
    ensures
        publishes_job(res, req),
{
    PublishRequest {
        topic: direct_topic().to_owned(),
        queue_id: None,
        group_id: None,
        group_member_id: None,
        routing_key: req.key,
        payload: req.body,
        payload_encoding: req.body_encoding,
        idempotency_key: req.idempotency_key,
        delay_ms: req.delay,
        priority: req.priority,
        flow_id: req.flow_id,
        url: Some(req.url),
        secret: Some(req.secret),
        destination: None,
        flow: None,
        parallelism: None,
        max_retries: req.retry.max_retries,
        retry_backoff: req.retry.retry_backoff,
        outbound: Some(req.outbound),
    }
}

/// Attaches the stored profile of a request's own flow: its identifier, and its limits under the
/// request's key where they have none.
pub fn attach_inline_flow<B, O>(
    req: &mut PublishRequest<B, O>,
    key: String,
    profile_id: Uuid,
    profile: FlowSpec,
)
    ensures
        final(req).flow_id == Some(profile_id),
        final(req).flow matches Some(flow) && view_of(flow.key) == Some(
            match profile.key {
                Some(own) => own@,
                None => key@,
            },
        ) && flow.parallelism == profile.parallelism && flow.rate == profile.rate
            && flow.period_secs == profile.period_secs,
        *final(req) == (PublishRequest {
            flow_id: final(req).flow_id,
            flow: final(req).flow,
            ..*old(req)
        }),
{
    req.flow_id = Some(profile_id);
    req.flow = Some(inline_flow_spec(profile, key));
}

/// What a client is answered, given the broker's answer. Where the message is stored is only said
/// where both its partition and its offset are known.
pub fn to_enqueue_response<S>(inner: PublishResponse<S>) -> (res: EnqueueResponse<S>)
    ensures
        res.message_id == inner.message_id,
        res.queue == inner.topic,
        res.duplicate == inner.duplicate,
        res.scheduled == inner.scheduled,
        res.delivery == match (inner.partition, inner.offset) {
            (Some(shard), Some(seq)) => Some(DeliveryRef { shard, seq }),
            _ => None,
        },
{
    let delivery: Option<DeliveryRef> = match (inner.partition, inner.offset) {
        (Some(shard), Some(seq)) => Some(DeliveryRef { shard, seq }),
        _ => None,
    };
    EnqueueResponse {
        message_id: inner.message_id,
        queue: inner.topic,
        duplicate: inner.duplicate,
        delivery,
        scheduled: inner.scheduled,
    }
}

/// What the broker is asked to publish once a publication's time has come.
pub open spec fn publishes_scheduled<B, O>(
    pr: PublishRequest<B, O>,
    pending: ScheduledPublishRequest<B, O>,
) -> bool {
    &&& pr.topic == pending.topic
    &&& pr.routing_key == pending.routing_key
    &&& pr.payload == pending.payload
    &&& pr.payload_encoding == pending.payload_encoding
    &&& pr.idempotency_key == pending.idempotency_key
    &&& pr.priority == pending.priority
    &&& pr.flow_id == pending.flow_id
    &&& pr.queue_id == pending.queue_id
    &&& pr.destination == pending.destination
    &&& pr.flow == pending.flow
    &&& pr.parallelism == pending.parallelism
    &&& pr.max_retries == pending.max_retries
    &&& pr.retry_backoff == pending.retry_backoff
    &&& pr.outbound == pending.outbound
    &&& pr.delay_ms is None
    &&& pr.group_id is None
    &&& pr.group_member_id is None
    &&& pr.url is None
    &&& pr.secret is None
}

/// Turns a publication whose time has come into what the broker is asked to publish, now.
pub fn to_publish_scheduled<B, O>(pending: ScheduledPublishRequest<B, O>) -> (res: PublishRequest<
    B,
    O,
>)
    ensures
        publishes_scheduled(res, pending),
{
    PublishRequest {
        topic: pending.topic,
        routing_key: pending.routing_key,
        payload: pending.payload,
        payload_encoding: pending.payload_encoding,
        idempotency_key: pending.idempotency_key,
        delay_ms: None,
        priority: pending.priority,
        flow_id: pending.flow_id,
        queue_id: pending.queue_id,
        group_id: None,
        group_member_id: None,
        destination: pending.destination,
        flow: pending.flow,
        parallelism: pending.parallelism,
        max_retries: pending.max_retries,
        retry_backoff: pending.retry_backoff,
        outbound: pending.outbound,
        url: None,
        secret: None,
    }
}

/// How a publication whose time has come is published.
#[derive(Debug, Clone, Copy, PartialEq, Eq, Structural)]
pub enum PublishPath {
    /// Through the cluster.
    Cluster,
    /// On this node alone.
    SingleNode,
}

/// How a publication whose time has come is published: through the cluster where there is one.
pub fn scheduled_publish_path(in_cluster: bool) -> (res: PublishPath)
    ensures
        res == PublishPath::Cluster <==> in_cluster,
        res == PublishPath::SingleNode <==> !in_cluster,
{
    if in_cluster {
        PublishPath::Cluster
    } else {
        PublishPath::SingleNode
    }
}

/// Whether a publication is dispatched at once on a single node: it is none of a repeated request,
/// it is stored, and its topic is no dead-letter topic.
pub open spec fn is_dispatched<S>(resp: PublishResponse<S>) -> bool {
    &&& !resp.duplicate
    &&& resp.partition is Some
    &&& resp.offset is Some
    &&& resp.message_id is Some
    &&& !names_dlq(resp.topic@)
}

/// The delivery to dispatch after a scheduled publication on a single node, where there is one.
pub fn delivery_after_publish<S>(resp: PublishResponse<S>) -> (res: Option<DeliveryJob>)
    ensures
        match res {
            Some(job) => is_dispatched(resp) && job.topic == resp.topic && Some(job.partition)
                == resp.partition && Some(job.offset) == resp.offset && Some(job.message_id)
                == resp.message_id,
            None => !is_dispatched(resp),
        },
{
    if resp.duplicate {
        return None;
    }
    match (resp.partition, resp.offset, resp.message_id) {
        (Some(partition), Some(offset), Some(message_id)) => if is_dlq_topic(resp.topic.as_str()) {
            None
        } else {
            Some(DeliveryJob { topic: resp.topic, partition, offset, message_id })
        },
        _ => None,
    }
}

/// Whether a scheduled publication in a cluster is dispatched: unless it repeats an earlier one.
pub fn dispatches_in_cluster<S>(resp: &PublishResponse<S>) -> (res: bool)
    ensures
        res == !resp.duplicate,
{
    !resp.duplicate
}

/// A request that the path directs to a queue is never refused for want of one.
pub proof fn law_queue_in_path_is_enough<B, O>(queue_id: Uuid, req: EnqueueRequest<B, O>)
    ensures
        ({
            let directed = EnqueueRequest { queue_id: Some(queue_id), ..req };
            directed.queue_id is Some || directed.queue@.len() > 0
        }),
{
}

/// Whatever is published to a dead-letter topic is not dispatched again.
pub proof fn law_dead_letters_are_not_dispatched<S>(resp: PublishResponse<S>)
    requires
        names_dlq(resp.topic@),
    ensures
        !is_dispatched(resp),
{
}

} // verus!
