//! Laws on recurring publications.

use crate::cron::{
    build_cron_scheduled_request, finish_cron_scheduled_request, parse_schedule_kind,
    refuse_interval, to_cron_list, to_cron_response, CreateCronRequest, CronJob, CronListResponse,
    CronPlan, CronResponse, PendingCron, ScheduleChoice,
};
use crate::error::CronApiError;
use crate::publish::{
    to_publish_scheduled, DestinationSnapshot, PublishRequest, ScheduledPublishRequest,
};
use crate::text::{is_whitespace, trim_whitespace};
use crate::laws::text::law_trimming_white_space;
use vstd::prelude::*;

verus! {

/// Whether an optional text holds a character that is no white space.
pub open spec fn says_something(text: Option<String>) -> bool {
    text matches Some(t) && exists|i: int| 0 <= i < t@.len() && !is_whitespace(#[trigger] t@[i])
}

/// A text that says something says something once trimmed, and nothing but white space is lost.
proof fn lemma_trimmed(text: Option<String>, s: &str, trimmed: &str)
    requires
        text matches Some(t) ==> t@ == s@,
        call_ensures(trim_whitespace, (s,), trimmed),
    ensures
        says_something(text) <==> text is Some && trimmed@.len() > 0,
{
    let from = law_trimming_white_space(s, trimmed);
    if text is Some && trimmed@.len() > 0 {
        assert(!is_whitespace(s@[from])) by {
            assert(trimmed@[0] == s@[from]);
        }
    }
}

/// A request is ready exactly where its URL and its secret both say something, whatever its other
/// fields are. It is refused exactly where it names no queue either.
pub proof fn law_url_and_secret_are_enough<B, O>(
    req: CreateCronRequest<B, O>,
    res: Result<CronPlan<B, O>, CronApiError>,
    url: &str,
    trimmed_url: &str,
    secret: &str,
    trimmed_secret: &str,
    queue: &str,
    trimmed_queue: &str,
)
    requires
        call_ensures(build_cron_scheduled_request::<B, O>, (req,), res),
        req.url matches Some(t) ==> t@ == url@,
        req.secret matches Some(t) ==> t@ == secret@,
        req.queue matches Some(t) ==> t@ == queue@,
        call_ensures(trim_whitespace, (url,), trimmed_url),
        call_ensures(trim_whitespace, (secret,), trimmed_secret),
        call_ensures(trim_whitespace, (queue,), trimmed_queue),
    ensures
        (res matches Ok(CronPlan::Ready(_))) <==> says_something(req.url) && says_something(
            req.secret,
        ),
        (res matches Ok(CronPlan::Resolve(_))) <==> !(says_something(req.url) && says_something(
            req.secret,
        )) && (req.queue_id is Some || says_something(req.queue)),
        res matches Err(e) ==> (e matches CronApiError::BadRequest(m) && m@
            == "provide url and secret for a schedule job (or queue_id / queue for enqueue-style)"@),
{
    lemma_trimmed(req.url, url, trimmed_url);
    lemma_trimmed(req.secret, secret, trimmed_secret);
    lemma_trimmed(req.queue, queue, trimmed_queue);
}

/// Two requests that agree in URL and secret are both ready or both not.
pub proof fn law_other_fields_do_not_matter<B, O>(
    a: CreateCronRequest<B, O>,
    b: CreateCronRequest<B, O>,
    x: Result<CronPlan<B, O>, CronApiError>,
    y: Result<CronPlan<B, O>, CronApiError>,
)
    requires
        call_ensures(build_cron_scheduled_request::<B, O>, (a,), x),
        call_ensures(build_cron_scheduled_request::<B, O>, (b,), y),
        a.url == b.url,
        a.secret == b.secret,
    ensures
        (x matches Ok(CronPlan::Ready(_))) <==> (y matches Ok(CronPlan::Ready(_))),
        x matches Ok(CronPlan::Ready(s)) ==> (y matches Ok(CronPlan::Ready(t)) && s.topic@
            == t.topic@ && (s.destination matches Some(d) && t.destination matches Some(e) && d.url@
            == e.url@ && d.secret@ == e.secret@)),
{
}

/// What is ready goes to the URL with the secret, both trimmed, on the topic of direct deliveries,
/// and carries all that the request says.
pub proof fn law_ready_carries_the_request<B, O>(
    req: CreateCronRequest<B, O>,
    res: Result<CronPlan<B, O>, CronApiError>,
    url: &str,
    trimmed_url: &str,
    secret: &str,
    trimmed_secret: &str,
)
    requires
        call_ensures(build_cron_scheduled_request::<B, O>, (req,), res),
        req.url matches Some(t) ==> t@ == url@,
        req.secret matches Some(t) ==> t@ == secret@,
        call_ensures(trim_whitespace, (url,), trimmed_url),
        call_ensures(trim_whitespace, (secret,), trimmed_secret),
    ensures
        res matches Ok(CronPlan::Ready(s)) ==> {
            &&& s.topic@ == "__direct"@
            &&& s.destination matches Some(d) && d.url@ == trimmed_url@ && d.secret@
                == trimmed_secret@ && d.queue_id is None
            &&& s.queue_id is None
            &&& s.routing_key@ == req.key@
            &&& s.payload@ == req.body@
            &&& s.payload_encoding == req.body_encoding
            &&& s.idempotency_key == req.idempotency_key
            &&& s.priority == req.priority
            &&& s.flow_id == req.flow_id
            &&& s.max_retries == req.retry.max_retries
            &&& s.retry_backoff == req.retry.retry_backoff
            &&& s.outbound == Some(req.outbound)
            &&& s.flow is None && s.parallelism is None
        },
{
}

/// What is to be resolved names the queue of the request, its name trimmed, and once it is resolved
/// carries all that the request says to the destination that was found, on the topic of its queue
/// where that is known and on the name of the queue otherwise.
pub proof fn law_resolved_carries_the_request<B, O>(
    req: CreateCronRequest<B, O>,
    pending: PendingCron<B, O>,
    destination: DestinationSnapshot,
    queue_topic: Option<String>,
    s: ScheduledPublishRequest<B, O>,
    queue: &str,
    trimmed_queue: &str,
)
    requires
        call_ensures(
            build_cron_scheduled_request::<B, O>,
            (req,),
            Ok::<CronPlan<B, O>, CronApiError>(CronPlan::Resolve(pending)),
        ),
        call_ensures(
            finish_cron_scheduled_request::<B, O>,
            (pending, destination, queue_topic),
            s,
        ),
        req.queue matches Some(t) ==> t@ == queue@,
        req.queue is None ==> queue@.len() == 0,
        call_ensures(trim_whitespace, (queue,), trimmed_queue),
    ensures
        pending.queue_id == req.queue_id,
        pending.queue_name@ == trimmed_queue@,
        queue_topic matches Some(topic) ==> s.topic@ == topic@,
        queue_topic is None ==> s.topic@ == trimmed_queue@,
        s.destination == Some(destination),
        s.queue_id == req.queue_id,
        s.routing_key@ == req.key@,
        s.payload@ == req.body@,
        s.payload_encoding == req.body_encoding,
        s.idempotency_key == req.idempotency_key,
        s.priority == req.priority,
        s.flow_id == req.flow_id,
        s.max_retries == req.retry.max_retries,
        s.retry_backoff == req.retry.retry_backoff,
        s.outbound == Some(req.outbound),
        s.flow is None && s.parallelism is None,
{
    if req.queue is None {
        let from = law_trimming_white_space(queue, trimmed_queue);
    }
}

/// Each run of a recurring publication publishes what the request said, to where it said.
pub proof fn law_run_says_what_was_asked<B, O>(
    req: CreateCronRequest<B, O>,
    stored: ScheduledPublishRequest<B, O>,
    run: PublishRequest<B, O>,
    url: &str,
    trimmed_url: &str,
)
    requires
        call_ensures(
            build_cron_scheduled_request::<B, O>,
            (req,),
            Ok::<CronPlan<B, O>, CronApiError>(CronPlan::Ready(stored)),
        ),
        call_ensures(to_publish_scheduled::<B, O>, (stored,), run),
        req.url matches Some(t) ==> t@ == url@,
        call_ensures(trim_whitespace, (url,), trimmed_url),
    ensures
        run.destination matches Some(d) && d.url@ == trimmed_url@,
        run.payload@ == req.body@,
        run.routing_key@ == req.key@,
        run.priority == req.priority,
        run.max_retries == req.retry.max_retries,
        run.retry_backoff == req.retry.retry_backoff,
        run.outbound == Some(req.outbound),
        run.delay_ms is None,
{
}

/// A request is scheduled by the one kind that it gives: by its cron expression, trimmed, where
/// that says something, or by its interval. One that gives both, or neither, is refused, whatever
/// its other fields are.
pub proof fn law_one_kind_of_schedule<B, O>(
    req: CreateCronRequest<B, O>,
    res: Result<ScheduleChoice, CronApiError>,
    cron: &str,
    trimmed_cron: &str,
)
    requires
        call_ensures(parse_schedule_kind::<B, O>, (&req,), res),
        req.cron matches Some(t) ==> t@ == cron@,
        call_ensures(trim_whitespace, (cron,), trimmed_cron),
    ensures
        says_something(req.cron) && req.every_seconds is None <==> (res matches Ok(
            ScheduleChoice::Cron(_),
        )),
        res matches Ok(ScheduleChoice::Cron(text)) ==> text@ == trimmed_cron@,
        !says_something(req.cron) && req.every_seconds is Some <==> (res matches Ok(
            ScheduleChoice::Every(_),
        )),
        res matches Ok(ScheduleChoice::Every(secs)) ==> req.every_seconds == Some(secs),
        says_something(req.cron) && req.every_seconds is Some ==> (res matches Err(
            CronApiError::BadRequest(m),
        ) && m@ == "provide either cron or every_seconds, not both"@),
        !says_something(req.cron) && req.every_seconds is None ==> (res matches Err(
            CronApiError::BadRequest(m),
        ) && m@ == "provide cron or every_seconds"@),
{
    lemma_trimmed(req.cron, cron, trimmed_cron);
}

/// An interval that is not taken is an invalid schedule, for the reason given.
pub proof fn law_refused_interval_is_invalid(reason: String, res: CronApiError)
    requires
        call_ensures(refuse_interval, (reason,), res),
    ensures
        res == CronApiError::InvalidCron(reason),
{
}

/// A stored job is answered with what is stored: by interval where it has one, and by its cron
/// expression otherwise.
pub proof fn law_job_is_answered_as_stored<B, O>(job: CronJob<B, O>, res: CronResponse)
    requires
        call_ensures(to_cron_response::<B, O>, (job,), res),
    ensures
        res.cron_id == job.id,
        res.queue@ == job.request.topic@,
        res.paused == job.paused,
        res.next_run_at_ms == job.next_run_at_ms,
        res.created_at_ms == job.created_at_ms,
        res.last_run_at_ms == job.last_run_at_ms,
        res.every_seconds == job.every_seconds,
        job.every_seconds is Some ==> res.schedule_type@ == "interval"@ && res.cron is None,
        job.every_seconds is None ==> res.schedule_type@ == "cron"@ && (res.cron matches Some(c)
            && c@ == job.cron@),
        res.destination_url is Some <==> job.request.destination is Some,
        job.request.destination matches Some(d) ==> (res.destination_url matches Some(u) && u@
            == d.url@),
{
}

/// A listing holds for each job, in their order, what the job alone is answered with.
pub proof fn law_listed_jobs_are_answered_alike<B, O>(
    jobs: Vec<CronJob<B, O>>,
    list: CronListResponse,
    i: int,
    one: CronResponse,
)
    requires
        call_ensures(to_cron_list::<B, O>, (jobs,), list),
        0 <= i < jobs@.len(),
        call_ensures(to_cron_response::<B, O>, (jobs@[i],), one),
    ensures
        list.crons@.len() == jobs@.len(),
        ({
            let res = list.crons@[i];
            let job = jobs@[i];
            &&& res.cron_id == job.id
            &&& res.queue@ == job.request.topic@
            &&& res.paused == job.paused
            &&& res.next_run_at_ms == job.next_run_at_ms
            &&& res.created_at_ms == job.created_at_ms
            &&& res.last_run_at_ms == job.last_run_at_ms
            &&& res.every_seconds == job.every_seconds
            &&& res.schedule_type@ == one.schedule_type@
            &&& res.cron is Some <==> one.cron is Some
            &&& one.cron matches Some(c) ==> (res.cron->0)@ == c@
            &&& res.destination_url is Some <==> one.destination_url is Some
            &&& one.destination_url matches Some(u) ==> (res.destination_url->0)@ == u@
        }),
{
    assert(crate::cron::answers_job(list.crons@[i], jobs@[i]));
}

} // verus!
