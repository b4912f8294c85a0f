//! Laws on queues and delayed jobs as they are created and answered.

use crate::delayed::{
    to_delayed_list, to_delayed_response, DelayedJobResponse, DelayedListResponse, ScheduledPublish,
};
use crate::publish::RetryInput;
use crate::queue::{
    to_queue_list, to_queue_response, to_subscription, to_subscription_request, CreateQueueRequest,
    CreateSubscriptionRequest, CreateSubscriptionResponse, QueueListResponse, QueueResponse,
    Subscription,
};
use vstd::prelude::*;

verus! {

/// A delayed job is answered as it is stored.
pub proof fn law_delayed_job_is_answered_as_stored<B, O>(
    item: ScheduledPublish<B, O>,
    res: DelayedJobResponse,
)
    requires
        call_ensures(to_delayed_response::<B, O>, (item,), res),
    ensures
        res.schedule_id == item.id,
        res.queue@ == item.request.topic@,
        res.key@ == item.request.routing_key@,
        res.deliver_at_ms == item.deliver_at_ms,
        res.body@ == item.request.payload@,
{
}

/// Every delayed job is listed, in its place and as it would be answered alone.
pub proof fn law_listed_delayed_jobs_are_answered_alike<B, O>(
    items: Vec<ScheduledPublish<B, O>>,
    list: DelayedListResponse,
    i: int,
    alone: DelayedJobResponse,
)
    requires
        call_ensures(to_delayed_list::<B, O>, (items,), list),
        0 <= i < items@.len(),
        call_ensures(to_delayed_response::<B, O>, (items@[i],), alone),
    ensures
        list.delayed@.len() == items@.len(),
        list.delayed@[i] == alone,
        list.delayed@[i].schedule_id == items@[i].id,
        list.delayed@[i].deliver_at_ms == items@[i].deliver_at_ms,
{
}

/// Nothing is listed where nothing is stored.
pub proof fn law_empty_listings<B, O>(
    items: Vec<ScheduledPublish<B, O>>,
    delayed: DelayedListResponse,
    inner: Vec<CreateSubscriptionResponse>,
    queues: QueueListResponse,
)
    requires
        items@.len() == 0,
        call_ensures(to_delayed_list::<B, O>, (items,), delayed),
        inner@.len() == 0,
        call_ensures(to_queue_list, (inner,), queues),
    ensures
        delayed.delayed@.len() == 0,
        queues.queues@.len() == 0,
{
}

/// A queue is answered as the broker has it.
pub proof fn law_queue_is_answered_as_stored(
    inner: CreateSubscriptionResponse,
    res: QueueResponse,
)
    requires
        call_ensures(to_queue_response, (inner,), res),
    ensures
        res.queue_id == inner.id,
        res.queue@ == inner.topic@,
        res.url@ == inner.url@,
{
}

/// Every queue is listed, in its place and as it would be answered alone.
pub proof fn law_listed_queues_are_answered_alike(
    inner: Vec<CreateSubscriptionResponse>,
    list: QueueListResponse,
    i: int,
    alone: QueueResponse,
)
    requires
        call_ensures(to_queue_list, (inner,), list),
        0 <= i < inner@.len(),
        call_ensures(to_queue_response, (inner@[i],), alone),
    ensures
        list.queues@.len() == inner@.len(),
        list.queues@[i] == alone,
        list.queues@[i].queue_id == inner@[i].id,
        list.queues@[i].queue@ == inner@[i].topic@,
{
}

/// The broker is asked for the queue that the request describes.
pub proof fn law_queue_is_created_as_requested<B>(
    req: CreateQueueRequest<B>,
    res: CreateSubscriptionRequest<B>,
)
    requires
        call_ensures(to_subscription_request::<B>, (req,), res),
    ensures
        res.topic@ == req.queue@,
        res.url@ == req.url@,
        res.secret@ == req.secret@,
        res.default_max_retries == req.retry.max_retries,
        res.retry_backoff == req.retry.retry_backoff,
{
}

/// The other nodes are told of the queue that the broker created, with the request's secret and
/// retries, under the tenant and at the time given; it is not paused, and nothing limits it.
pub proof fn law_other_nodes_are_told_of_the_queue<B, F>(
    created: CreateSubscriptionResponse,
    secret: String,
    retry: RetryInput<B>,
    tenant_id: String,
    now_ms: i64,
    res: Subscription<B, F>,
)
    requires
        call_ensures(
            to_subscription::<B, F>,
            (&created, secret, retry, tenant_id, now_ms),
            res,
        ),
    ensures
        res.id == created.id,
        res.topic@ == created.topic@,
        res.url@ == created.url@,
        res.secret@ == secret@,
        res.tenant_id@ == tenant_id@,
        res.default_max_retries == retry.max_retries,
        res.retry_backoff == retry.retry_backoff,
        res.updated_at_ms == now_ms,
        !res.paused,
        res.parallelism is None,
        res.flow is None,
{
}

/// What the client is answered and what the other nodes are told of a queue agree.
pub proof fn law_client_and_nodes_hear_of_one_queue<B, F>(
    created: CreateSubscriptionResponse,
    secret: String,
    retry: RetryInput<B>,
    tenant_id: String,
    now_ms: i64,
    told: Subscription<B, F>,
    answered: QueueResponse,
)
    requires
        call_ensures(
            to_subscription::<B, F>,
            (&created, secret, retry, tenant_id, now_ms),
            told,
        ),
        call_ensures(to_queue_response, (created,), answered),
    ensures
        told.id == answered.queue_id,
        told.topic@ == answered.queue@,
        told.url@ == answered.url@,
{
}

} // verus!
