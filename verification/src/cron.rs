//! Recurring publications: what a request asks for, what is stored for it and how it is answered.

use crate::error::CronApiError;
use crate::ids::Uuid;
use crate::publish::{
    publishes_scheduled, DestinationSnapshot, PublishRequest, RetryInput, ScheduledPublishRequest,
};
use crate::text::{trim, trim_whitespace, view_of, CharClass};
use crate::topic::{direct_topic, direct_topic_name};
use vstd::prelude::*;

verus! {

/// A request to publish again and again.
#[derive(Debug)]
pub struct CreateCronRequest<B, O> {
    /// A cron expression, in UTC. Either this or `every_seconds` is to be given.
    pub cron: Option<String>,
    /// The seconds between two runs. Either this or `cron` is to be given.
    pub every_seconds: Option<u64>,
    /// The URL to deliver to; preferred over a queue.
    pub url: Option<String>,
    /// The secret that goes with the URL.
    pub secret: Option<String>,
    /// The name of a queue to enqueue into.
    pub queue: Option<String>,
    /// The key to route by.
    pub key: String,
    /// The payload.
    pub body: String,
    /// How the payload is encoded.
    pub body_encoding: Option<String>,
    /// The key by which a repeated request is recognised.
    pub idempotency_key: Option<String>,
    /// The priority.
    pub priority: Option<u8>,
    /// The identifier of a queue to enqueue into.
    pub queue_id: Option<Uuid>,
    /// The flow profile.
    pub flow_id: Option<Uuid>,
    /// How to retry.
    pub retry: RetryInput<B>,
    /// What the delivery sends besides its URL and payload.
    pub outbound: O,
}

/// A recurring publication as it is stored.
#[derive(Debug)]
pub struct CronJob<B, O> {
    /// The job's identifier.
    pub id: Uuid,
    /// The cron expression; of no account where there is an interval.
    pub cron: String,
    /// The seconds between two runs, where the job runs by interval.
    pub every_seconds: Option<u64>,
    /// What is published.
    pub request: ScheduledPublishRequest<B, O>,
    /// Whether the job is paused.
    pub paused: bool,
    /// When it runs next.
    pub next_run_at_ms: i64,
    /// When it was created.
    pub created_at_ms: i64,
    /// When it last ran.
    pub last_run_at_ms: Option<i64>,
}

/// A recurring publication as it is answered.
#[derive(Debug)]
pub struct CronResponse {
    /// The job's identifier.
    pub cron_id: Uuid,
    /// `cron` or `interval`.
    pub schedule_type: String,
    /// The cron expression, where the job runs by one.
    pub cron: Option<String>,
    /// The seconds between two runs, where the job runs by interval.
    pub every_seconds: Option<u64>,
    /// The topic.
    pub queue: String,
    /// The URL that it delivers to, where that is settled.
    pub destination_url: Option<String>,
    /// Whether the job is paused.
    pub paused: bool,
    /// When it runs next.
    pub next_run_at_ms: i64,
    /// When it was created.
    pub created_at_ms: i64,
    /// When it last ran.
    pub last_run_at_ms: Option<i64>,
}

/// A listing of recurring publications.
#[derive(Debug)]
pub struct CronListResponse {
    /// The jobs.
    pub crons: Vec<CronResponse>,
}

/// The kind of schedule that a request asks for.
#[derive(Debug)]
pub enum ScheduleChoice {
    /// By cron expression.
    Cron(String),
    /// By interval, in seconds.
    Every(u64),
}

/// The URL of a settled destination.
pub open spec fn url_of(destination: Option<DestinationSnapshot>) -> Option<Seq<char>> {
    match destination {
        Some(d) => Some(d.url@),
        None => None,
    }
}

/// Whether `res` is the answer for `job`.
pub open spec fn answers_job<B, O>(res: CronResponse, job: CronJob<B, O>) -> bool {
    &&& res.cron_id == job.id
    &&& res.schedule_type@ == (if job.every_seconds is Some {
        "interval"@
    } else {
        "cron"@
    })
    &&& view_of(res.cron) == (if job.every_seconds is Some {
        None
    } else {
        Some(job.cron@)
    })
    &&& res.every_seconds == job.every_seconds
    &&& res.queue@ == job.request.topic@
    &&& view_of(res.destination_url) == url_of(job.request.destination)
    &&& res.paused == job.paused
    &&& res.next_run_at_ms == job.next_run_at_ms
    &&& res.created_at_ms == job.created_at_ms
    &&& res.last_run_at_ms == job.last_run_at_ms
}

/// The answer for a stored job. It shows the interval where the job has one, and the cron
/// expression otherwise.
pub fn to_cron_response<B, O>(job: CronJob<B, O>) -> (res: CronResponse)
    ensures
        answers_job(res, job),
{
    let (schedule_type, cron, every_seconds): (String, Option<String>, Option<u64>) =
        match job.every_seconds {
        Some(secs) => ("interval".to_owned(), None, Some(secs)),
        None => ("cron".to_owned(), Some(job.cron), None),
    };
    let destination_url: Option<String> = match job.request.destination {
        Some(d) => Some(d.url),
        None => None,
    };
    CronResponse {
        cron_id: job.id,
        schedule_type,
        cron,
        every_seconds,
        queue: job.request.topic,
        destination_url,
        paused: job.paused,
        next_run_at_ms: job.next_run_at_ms,
        created_at_ms: job.created_at_ms,
        last_run_at_ms: job.last_run_at_ms,
    }
}

/// The listing of stored jobs, in their order.
pub fn to_cron_list<B, O>(jobs: Vec<CronJob<B, O>>) -> (res: CronListResponse)
    ensures
        res.crons@.len() == jobs@.len(),
        forall|i: int| 0 <= i < jobs@.len() ==> answers_job(#[trigger] res.crons@[i], jobs@[i]),
{
    let mut crons: Vec<CronResponse> = Vec::new();
    for job in it: jobs
        invariant
            it.seq() == jobs@,
            crons@.len() == it.index(),
            forall|i: int| 0 <= i < crons@.len() ==> answers_job(#[trigger] crons@[i], jobs@[i]),
    {
        crons.push(to_cron_response(job));
    }
    CronListResponse { crons }
}

/// An optional text without white space at either end; empty where there is none.
pub open spec fn trimmed(s: Option<Seq<char>>) -> Seq<char> {
    match s {
        Some(text) => trim(text, CharClass::Whitespace),
        None => Seq::empty(),
    }
}

/// An optional text without white space at either end; empty where there is none.
fn trimmed_text<'a>(s: &'a Option<String>) -> (res: &'a str)
    ensures
        res@ == trimmed(view_of(*s)),
{
    match s {
        Some(text) => trim_whitespace(text.as_str()),
        None => {
            proof {
                reveal_strlit("");
                assert(""@ =~= Seq::<char>::empty());
            }
            ""
        },
    }
}

/// The kind of schedule that a request asks for. A cron expression that is blank counts as none.
/// A request for both kinds, or for neither, is refused.
pub fn parse_schedule_kind<B, O>(req: &CreateCronRequest<B, O>) -> (res: Result<
    ScheduleChoice,
    CronApiError,
>)
    ensures
        ({
            let expression = trimmed(view_of(req.cron));
            match res {
                Ok(ScheduleChoice::Cron(text)) => expression.len() > 0 && req.every_seconds is None
                    && text@ == expression,
                Ok(ScheduleChoice::Every(secs)) => expression.len() == 0 && req.every_seconds
                    == Some(secs),
                Err(CronApiError::BadRequest(message)) => {
                    ||| expression.len() > 0 && req.every_seconds is Some && message@
                        == "provide either cron or every_seconds, not both"@
                    ||| expression.len() == 0 && req.every_seconds is None && message@
                        == "provide cron or every_seconds"@
                },
                Err(_) => false,
            }
        }),
{
    let expression: &str = trimmed_text(&req.cron);
    if expression.is_empty() {
        match req.every_seconds {
            Some(secs) => Ok(ScheduleChoice::Every(secs)),
            None => Err(CronApiError::BadRequest("provide cron or every_seconds".to_owned())),
        }
    } else {
        match req.every_seconds {
            Some(_secs) => Err(
                CronApiError::BadRequest(
                    "provide either cron or every_seconds, not both".to_owned(),
                ),
            ),
            None => Ok(ScheduleChoice::Cron(expression.to_owned())),
        }
    }
}

/// How an interval that the registry does not take is refused.
pub fn refuse_interval(reason: String) -> (res: CronApiError)
    ensures
        res == CronApiError::InvalidCron(reason),
{
    CronApiError::InvalidCron(reason)
}

/// A recurring publication to a queue whose destination is still to be found.
#[derive(Debug)]
pub struct PendingCron<B, O> {
    /// The queue's identifier, where the request gives it.
    pub queue_id: Option<Uuid>,
    /// The queue's name, trimmed; empty where the request gives none.
    pub queue_name: String,
    /// The request.
    pub request: CreateCronRequest<B, O>,
}

/// What comes of a request to publish again and again.
#[derive(Debug)]
pub enum CronPlan<B, O> {
    /// A delivery to a URL, ready to be stored.
    Ready(ScheduledPublishRequest<B, O>),
    /// A delivery to a queue whose destination is to be found first.
    Resolve(PendingCron<B, O>),
}

/// Whether a request gives both a URL and a secret.
pub open spec fn is_direct<B, O>(req: CreateCronRequest<B, O>) -> bool {
    trimmed(view_of(req.url)).len() > 0 && trimmed(view_of(req.secret)).len() > 0
}

/// Whether a request names a queue, by identifier or by name.
pub open spec fn names_queue<B, O>(req: CreateCronRequest<B, O>) -> bool {
    req.queue_id is Some || trimmed(view_of(req.queue)).len() > 0
}

/// Whether what is stored carries what a request says, whatever its destination.
pub open spec fn carries<B, O>(
    s: ScheduledPublishRequest<B, O>,
    req: CreateCronRequest<B, O>,
) -> bool {
    &&& s.routing_key == req.key
    &&& s.payload == req.body
    &&& s.payload_encoding == req.body_encoding
    &&& s.idempotency_key == req.idempotency_key
    &&& s.priority == req.priority
    &&& s.flow_id == req.flow_id
    &&& s.max_retries == req.retry.max_retries
    &&& s.retry_backoff == req.retry.retry_backoff
    &&& s.outbound == Some(req.outbound)
    &&& s.flow is None
    &&& s.parallelism is None
}

/// What is stored for a delivery to a URL.
pub open spec fn schedules_direct<B, O>(
    s: ScheduledPublishRequest<B, O>,
    req: CreateCronRequest<B, O>,
) -> bool {
    &&& carries(s, req)
    &&& s.topic@ == direct_topic_name()
    &&& s.queue_id is None
    &&& s.destination matches Some(d) && d.queue_id is None && d.url@ == trimmed(view_of(req.url))
        && d.secret@ == trimmed(view_of(req.secret))
}

/// Turns a request to publish again and again into what is to be stored. One with a URL and a
/// secret goes there; any other goes to the queue that it names, and is refused where it names
/// none.
pub fn build_cron_scheduled_request<B, O>(req: CreateCronRequest<B, O>) -> (res: Result<
    CronPlan<B, O>,
    CronApiError,
>)
    ensures
        match res {
            Ok(CronPlan::Ready(s)) => is_direct(req) && schedules_direct(s, req),
            Ok(CronPlan::Resolve(pending)) => !is_direct(req) && names_queue(req)
                && pending.queue_id == req.queue_id && pending.queue_name@ == trimmed(
                view_of(req.queue),
            ) && pending.request == req,
            Err(CronApiError::BadRequest(message)) => !is_direct(req) && !names_queue(req)
                && message@
                == "provide url and secret for a schedule job (or queue_id / queue for enqueue-style)"@,
            Err(_) => false,
        },
{
    let url: String = trimmed_text(&req.url).to_owned();
    let secret: String = trimmed_text(&req.secret).to_owned();
    if !url.as_str().is_empty() && !secret.as_str().is_empty() {
        return Ok(
            CronPlan::Ready(
                ScheduledPublishRequest {
                    topic: direct_topic().to_owned(),
                    routing_key: req.key,
                    payload: req.body,
                    payload_encoding: req.body_encoding,
                    idempotency_key: req.idempotency_key,
                    priority: req.priority,
                    flow_id: req.flow_id,
                    queue_id: None,
                    destination: Some(DestinationSnapshot { queue_id: None, url, secret }),
                    flow: None,
                    parallelism: None,
                    max_retries: req.retry.max_retries,
                    retry_backoff: req.retry.retry_backoff,
                    outbound: Some(req.outbound),
                },
            ),
        );
    }
    let queue_name: String = trimmed_text(&req.queue).to_owned();
    if req.queue_id.is_none() && queue_name.as_str().is_empty() {
        return Err(
            CronApiError::BadRequest(
                "provide url and secret for a schedule job (or queue_id / queue for enqueue-style)".to_owned(),
            ),
        );
    }
    Ok(CronPlan::Resolve(PendingCron { queue_id: req.queue_id, queue_name, request: req }))
}

/// What is stored for a delivery to a queue, once its destination is found. The topic is that of
/// the queue that the destination belongs to, where it is known, and the queue's name otherwise.
pub fn finish_cron_scheduled_request<B, O>(
    pending: PendingCron<B, O>,
    destination: DestinationSnapshot,
    queue_topic: Option<String>,
) -> (res: ScheduledPublishRequest<B, O>)
    ensures
        carries(res, pending.request),
        res.topic@ == match queue_topic {
            Some(topic) => topic@,
            None => pending.queue_name@,
        },
        res.queue_id == pending.request.queue_id,
        res.destination == Some(destination),
{
    let req: CreateCronRequest<B, O> = pending.request;
    let topic: String = match queue_topic {
        Some(topic) => topic,
        None => pending.queue_name,
    };
    ScheduledPublishRequest {
        topic,
        routing_key: req.key,
        payload: req.body,
        payload_encoding: req.body_encoding,
        idempotency_key: req.idempotency_key,
        priority: req.priority,
        flow_id: req.flow_id,
        queue_id: req.queue_id,
        destination: Some(destination),
        flow: None,
        parallelism: None,
        max_retries: req.retry.max_retries,
        retry_backoff: req.retry.retry_backoff,
        outbound: Some(req.outbound),
    }
}

/// An answer shows either a cron expression or an interval, never both and never neither.
pub proof fn law_answer_shows_one_kind<B, O>(res: CronResponse, job: CronJob<B, O>)
    requires
        answers_job(res, job),
    ensures
        res.cron is Some <==> res.every_seconds is None,
{
}

/// Each run of a recurring publication publishes at once what the request said, to the topic and
/// the destination that were stored for it.
pub proof fn law_run_publishes_the_request<B, O>(
    req: CreateCronRequest<B, O>,
    stored: ScheduledPublishRequest<B, O>,
    run: PublishRequest<B, O>,
)
    requires
        carries(stored, req),
        publishes_scheduled(run, stored),
    ensures
        run.payload == req.body,
        run.payload_encoding == req.body_encoding,
        run.routing_key == req.key,
        run.idempotency_key == req.idempotency_key,
        run.priority == req.priority,
        run.flow_id == req.flow_id,
        run.outbound == Some(req.outbound),
        run.max_retries == req.retry.max_retries,
        run.retry_backoff == req.retry.retry_backoff,
        run.delay_ms is None,
        run.topic == stored.topic,
        run.destination == stored.destination,
{
}

/// Each run of a recurring delivery to a URL goes to that URL, with that secret, on the topic of
/// direct deliveries.
pub proof fn law_direct_run_goes_to_the_url<B, O>(
    req: CreateCronRequest<B, O>,
    stored: ScheduledPublishRequest<B, O>,
    run: PublishRequest<B, O>,
)
    requires
        schedules_direct(stored, req),
        publishes_scheduled(run, stored),
    ensures
        run.topic@ == direct_topic_name(),
        run.queue_id is None,
        run.destination matches Some(d) && d.url@ == trimmed(view_of(req.url)) && d.secret@
            == trimmed(view_of(req.secret)),
{
}

} // verus!
