//! Queues: how they are created, stored and answered.

use crate::ids::Uuid;
use crate::publish::RetryInput;
use vstd::prelude::*;

verus! {

/// A request to create a queue.
#[derive(Debug)]
pub struct CreateQueueRequest<B> {
    /// The queue's name.
    pub queue: String,
    /// The URL that its messages are delivered to.
    pub url: String,
    /// The secret shared with the destination.
    pub secret: String,
    /// How to retry.
    pub retry: RetryInput<B>,
}

/// What the broker is asked to create for a queue.
#[derive(Debug)]
pub struct CreateSubscriptionRequest<B> {
    /// The topic.
    pub topic: String,
    /// The URL.
    pub url: String,
    /// The secret.
    pub secret: String,
    /// How often to retry.
    pub default_max_retries: Option<u32>,
    /// How retries back off.
    pub retry_backoff: Option<B>,
}

/// What the broker answers once a queue is created.
#[derive(Debug)]
pub struct CreateSubscriptionResponse {
    /// The queue's identifier.
    pub id: Uuid,
    /// The topic.
    pub topic: String,
    /// The URL.
    pub url: String,
}

/// A queue as the other nodes of the cluster are told of it. `F` is its flow.
#[derive(Debug)]
pub struct Subscription<B, F> {
    /// The queue's identifier.
    pub id: Uuid,
    /// The tenant that it belongs to.
    pub tenant_id: String,
    /// The topic.
    pub topic: String,
    /// The URL.
    pub url: String,
    /// The secret.
    pub secret: String,
    /// Whether its deliveries are paused.
    pub paused: bool,
    /// How many deliveries run at once.
    pub parallelism: Option<u32>,
    /// The limits on its deliveries.
    pub flow: Option<F>,
    /// How often to retry.
    pub default_max_retries: Option<u32>,
    /// How retries back off.
    pub retry_backoff: Option<B>,
    /// When it was last changed.
    pub updated_at_ms: i64,
}

/// A queue as it is answered.
#[derive(Debug)]
pub struct QueueResponse {
    /// The queue's identifier.
    pub queue_id: Uuid,
    /// The queue's name.
    pub queue: String,
    /// The URL that its messages are delivered to.
    pub url: String,
}

/// A listing of queues.
#[derive(Debug)]
pub struct QueueListResponse {
    /// The queues.
    pub queues: Vec<QueueResponse>,
}

/// What the broker is asked to create for a request.
pub fn to_subscription_request<B>(req: CreateQueueRequest<B>) -> (res: CreateSubscriptionRequest<B>)
    ensures
        res == (CreateSubscriptionRequest {
            topic: req.queue,
            url: req.url,
            secret: req.secret,
            default_max_retries: req.retry.max_retries,
            retry_backoff: req.retry.retry_backoff,
        }),
{
    CreateSubscriptionRequest {
        topic: req.queue,
        url: req.url,
        secret: req.secret,
        default_max_retries: req.retry.max_retries,
        retry_backoff: req.retry.retry_backoff,
    }
}

/// What the other nodes of the cluster are told of a queue that was created: the broker's
/// identifier, topic and URL, the request's secret and retries, and no pause and no limits.
pub fn to_subscription<B, F>(
    created: &CreateSubscriptionResponse,
    secret: String,
    retry: RetryInput<B>,
    tenant_id: String,
    now_ms: i64,
) -> (res: Subscription<B, F>)
    ensures
        res == (Subscription::<B, F> {
            id: created.id,
            tenant_id,
            topic: created.topic,
            url: created.url,
            secret,
            paused: false,
            parallelism: None,
            flow: None,
            default_max_retries: retry.max_retries,
            retry_backoff: retry.retry_backoff,
            updated_at_ms: now_ms,
        }),
{
    Subscription {
        id: created.id,
        tenant_id,
        topic: created.topic.clone(),
        url: created.url.clone(),
        secret,
        paused: false,
        parallelism: None,
        flow: None,
        default_max_retries: retry.max_retries,
        retry_backoff: retry.retry_backoff,
        updated_at_ms: now_ms,
    }
}

/// The answer for a queue.
pub open spec fn queue_response_of(inner: CreateSubscriptionResponse) -> QueueResponse {
    QueueResponse { queue_id: inner.id, queue: inner.topic, url: inner.url }
}

/// The answer for a queue.
pub fn to_queue_response(inner: CreateSubscriptionResponse) -> (res: QueueResponse)
    ensures
        res == queue_response_of(inner),
{
    QueueResponse { queue_id: inner.id, queue: inner.topic, url: inner.url }
}

/// The listing of queues, in their order.
pub fn to_queue_list(inner: Vec<CreateSubscriptionResponse>) -> (res: QueueListResponse)
    ensures
        res.queues@.len() == inner@.len(),
        forall|i: int|
            0 <= i < inner@.len() ==> #[trigger] res.queues@[i] == queue_response_of(inner@[i]),
{
    let mut queues: Vec<QueueResponse> = Vec::new();
    for item in it: inner
        invariant
            it.seq() == inner@,
            queues@.len() == it.index(),
            forall|i: int|
                0 <= i < queues@.len() ==> #[trigger] queues@[i] == queue_response_of(inner@[i]),
    {
        queues.push(to_queue_response(item));
    }
    QueueListResponse { queues }
}

} // verus!
