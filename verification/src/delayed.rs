//! Delayed jobs: how they are listed.

use crate::ids::Uuid;
use crate::publish::ScheduledPublishRequest;
use vstd::prelude::*;

verus! {

/// A delayed job as it is stored.
#[derive(Debug)]
pub struct ScheduledPublish<B, O> {
    /// The job's identifier.
    pub id: Uuid,
    /// When it is due.
    pub deliver_at_ms: i64,
    /// What is published.
    pub request: ScheduledPublishRequest<B, O>,
}

/// A delayed job as it is answered.
#[derive(Debug)]
pub struct DelayedJobResponse {
    /// The job's identifier.
    pub schedule_id: Uuid,
    /// The topic.
    pub queue: String,
    /// The key that it is routed by.
    pub key: String,
    /// When it is due.
    pub deliver_at_ms: i64,
    /// The payload.
    pub body: String,
}

/// A listing of delayed jobs.
#[derive(Debug)]
pub struct DelayedListResponse {
    /// The jobs.
    pub delayed: Vec<DelayedJobResponse>,
}

/// The answer for a stored job.
pub open spec fn delayed_response_of<B, O>(item: ScheduledPublish<B, O>) -> DelayedJobResponse {
    DelayedJobResponse {
        schedule_id: item.id,
        queue: item.request.topic,
        key: item.request.routing_key,
        deliver_at_ms: item.deliver_at_ms,
        body: item.request.payload,
    }
}

/// The answer for a stored job.
pub fn to_delayed_response<B, O>(item: ScheduledPublish<B, O>) -> (res: DelayedJobResponse)
    ensures
        res == delayed_response_of(item),
{
    DelayedJobResponse {
        schedule_id: item.id,
        queue: item.request.topic,
        key: item.request.routing_key,
        deliver_at_ms: item.deliver_at_ms,
        body: item.request.payload,
    }
}

/// The listing of stored jobs, in their order.
pub fn to_delayed_list<B, O>(items: Vec<ScheduledPublish<B, O>>) -> (res: DelayedListResponse)
    ensures
        res.delayed@.len() == items@.len(),
        forall|i: int|
            0 <= i < items@.len() ==> #[trigger] res.delayed@[i] == delayed_response_of(items@[i]),
{
    let mut delayed: Vec<DelayedJobResponse> = Vec::new();
    for item in it: items
        invariant
            it.seq() == items@,
            delayed@.len() == it.index(),
            forall|i: int|
                0 <= i < delayed@.len() ==> #[trigger] delayed@[i] == delayed_response_of(items@[i]),
    {
        delayed.push(to_delayed_response(item));
    }
    DelayedListResponse { delayed }
}

} // verus!
