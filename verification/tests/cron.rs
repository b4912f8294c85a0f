use bettermq::cron::{
    build_cron_scheduled_request, finish_cron_scheduled_request, parse_schedule_kind,
    refuse_interval, to_cron_list, to_cron_response, CreateCronRequest, CronJob, CronPlan,
    ScheduleChoice,
};
use bettermq::error::CronApiError;
use bettermq::ids::Uuid;
use bettermq::publish::{
    to_publish_scheduled, DestinationSnapshot, RetryInput, ScheduledPublishRequest,
};

const A: Uuid = Uuid { bits: 1 };
const B: Uuid = Uuid { bits: 2 };

fn text(s: &str) -> String {
    s.to_string()
}

fn request() -> CreateCronRequest<u8, &'static str> {
    CreateCronRequest {
        cron: None,
        every_seconds: None,
        url: None,
        secret: None,
        queue: None,
        key: text("key"),
        body: text("body"),
        body_encoding: Some(text("utf8")),
        idempotency_key: Some(text("once")),
        priority: Some(4),
        queue_id: None,
        flow_id: Some(B),
        retry: RetryInput { max_retries: Some(5), retry_backoff: Some(6) },
        outbound: "out",
    }
}

fn stored() -> ScheduledPublishRequest<u8, &'static str> {
    let req = CreateCronRequest {
        url: Some(text("http://h")),
        secret: Some(text("s")),
        ..request()
    };
    match build_cron_scheduled_request(req) {
        Ok(CronPlan::Ready(s)) => s,
        other => panic!("not ready: {other:?}"),
    }
}

fn job(every_seconds: Option<u64>) -> CronJob<u8, &'static str> {
    CronJob {
        id: A,
        cron: text("* * * * *"),
        every_seconds,
        request: stored(),
        paused: true,
        next_run_at_ms: 10,
        created_at_ms: -1,
        last_run_at_ms: Some(3),
    }
}

#[test]
fn kind_of_schedule() {
    let kind = |cron: Option<&str>, every_seconds: Option<u64>| {
        parse_schedule_kind(&CreateCronRequest {
            cron: cron.map(text),
            every_seconds,
            ..request()
        })
    };
    assert!(matches!(
        kind(Some("  0 * * * * \n"), None),
        Ok(ScheduleChoice::Cron(c)) if c == "0 * * * *"
    ));
    assert!(matches!(kind(None, Some(30)), Ok(ScheduleChoice::Every(30))));
    assert!(matches!(kind(Some(" \t"), Some(0)), Ok(ScheduleChoice::Every(0))));
    assert!(matches!(
        kind(Some("x"), Some(30)),
        Err(CronApiError::BadRequest(m)) if m == "provide either cron or every_seconds, not both"
    ));
    for cron in [None, Some(""), Some("\u{3000}")] {
        assert!(matches!(
            kind(cron, None),
            Err(CronApiError::BadRequest(m)) if m == "provide cron or every_seconds"
        ));
    }
}

#[test]
fn interval_that_is_not_taken() {
    assert!(matches!(
        refuse_interval(text("too short")),
        CronApiError::InvalidCron(m) if m == "too short"
    ));
}

#[test]
fn direct_delivery_is_ready() {
    let req = CreateCronRequest {
        url: Some(text(" http://h/x ")),
        secret: Some(text("\ts")),
        queue: Some(text("ignored")),
        queue_id: Some(A),
        ..request()
    };
    let Ok(CronPlan::Ready(s)) = build_cron_scheduled_request(req) else {
        panic!("not ready");
    };
    assert_eq!(s.topic, "__direct");
    assert_eq!(s.queue_id, None);
    let d = s.destination.as_ref().unwrap();
    assert_eq!((d.queue_id, d.url.as_str(), d.secret.as_str()), (None, "http://h/x", "s"));
    assert_eq!((s.routing_key.as_str(), s.payload.as_str()), ("key", "body"));
    assert_eq!(s.payload_encoding.as_deref(), Some("utf8"));
    assert_eq!(s.idempotency_key.as_deref(), Some("once"));
    assert_eq!((s.priority, s.flow_id), (Some(4), Some(B)));
    assert_eq!((s.max_retries, s.retry_backoff), (Some(5), Some(6)));
    assert_eq!(s.outbound, Some("out"));
    assert!(s.flow.is_none() && s.parallelism.is_none());
}

#[test]
fn delivery_to_a_queue_is_resolved_first() {
    // A URL without a secret does not make a direct delivery.
    let req = CreateCronRequest {
        url: Some(text("http://h")),
        secret: Some(text("  ")),
        queue: Some(text(" jobs ")),
        ..request()
    };
    let Ok(CronPlan::Resolve(pending)) = build_cron_scheduled_request(req) else {
        panic!("not to be resolved");
    };
    assert_eq!(pending.queue_id, None);
    assert_eq!(pending.queue_name, "jobs");
    let destination = DestinationSnapshot {
        queue_id: Some(B),
        url: text("http://q"),
        secret: text("qs"),
    };
    let s = finish_cron_scheduled_request(pending, destination, Some(text("topic")));
    assert_eq!(s.topic, "topic");
    assert_eq!(s.queue_id, None);
    let d = s.destination.as_ref().unwrap();
    assert_eq!((d.queue_id, d.url.as_str(), d.secret.as_str()), (Some(B), "http://q", "qs"));
    assert_eq!((s.routing_key.as_str(), s.payload.as_str()), ("key", "body"));
    assert_eq!((s.max_retries, s.retry_backoff, s.outbound), (Some(5), Some(6), Some("out")));
    assert!(s.flow.is_none() && s.parallelism.is_none());
}

#[test]
fn delivery_to_an_unknown_topic_keeps_the_queue_name() {
    let req = CreateCronRequest { queue_id: Some(A), ..request() };
    let Ok(CronPlan::Resolve(pending)) = build_cron_scheduled_request(req) else {
        panic!("not to be resolved");
    };
    assert_eq!((pending.queue_id, pending.queue_name.as_str()), (Some(A), ""));
    let destination = DestinationSnapshot { queue_id: None, url: text("u"), secret: text("s") };
    let s = finish_cron_scheduled_request(pending, destination, None);
    assert_eq!(s.topic, "");
    assert_eq!(s.queue_id, Some(A));
}

#[test]
fn request_that_goes_nowhere_is_refused() {
    for queue in [None, Some(text(" "))] {
        let req = CreateCronRequest { queue, url: Some(text("http://h")), ..request() };
        assert!(matches!(
            build_cron_scheduled_request(req),
            Err(CronApiError::BadRequest(m))
                if m == "provide url and secret for a schedule job (or queue_id / queue for enqueue-style)"
        ));
    }
}

#[test]
fn answer_shows_one_kind() {
    let r = to_cron_response(job(Some(30)));
    assert_eq!(r.schedule_type, "interval");
    assert_eq!((r.cron, r.every_seconds), (None, Some(30)));
    let r = to_cron_response(job(None));
    assert_eq!(r.schedule_type, "cron");
    assert_eq!((r.cron.as_deref(), r.every_seconds), (Some("* * * * *"), None));
    assert_eq!(r.cron_id, A);
    assert_eq!(r.queue, "__direct");
    assert_eq!(r.destination_url.as_deref(), Some("http://h"));
    assert!(r.paused);
    assert_eq!((r.next_run_at_ms, r.created_at_ms, r.last_run_at_ms), (10, -1, Some(3)));
    let mut without = job(None);
    without.request.destination = None;
    assert_eq!(to_cron_response(without).destination_url, None);
}

#[test]
fn listing_keeps_the_order_of_jobs() {
    let list = to_cron_list(vec![job(Some(1)), job(None), job(Some(2))]);
    let seconds: Vec<Option<u64>> = list.crons.iter().map(|c| c.every_seconds).collect();
    assert_eq!(seconds, vec![Some(1), None, Some(2)]);
}

#[test]
fn run_publishes_the_request() {
    let pr = to_publish_scheduled(stored());
    assert_eq!(pr.topic, "__direct");
    assert_eq!((pr.routing_key.as_str(), pr.payload.as_str()), ("key", "body"));
    assert_eq!(pr.delay_ms, None);
    let d = pr.destination.unwrap();
    assert_eq!((d.url.as_str(), d.secret.as_str()), ("http://h", "s"));
    assert_eq!(pr.outbound, Some("out"));
}
