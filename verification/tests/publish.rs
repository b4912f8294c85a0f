use bettermq::error::ApiError;
use bettermq::flow::FlowSpec;
use bettermq::ids::Uuid;
use bettermq::publish::{
    attach_inline_flow, delivery_after_publish, dispatches_in_cluster, enqueue_to_queue,
    scheduled_publish_path, to_enqueue_response, to_publish_enqueue, to_publish_job, to_publish_scheduled,
    DestinationSnapshot, EnqueueRequest, PublishJobRequest, PublishPath, PublishResponse, RetryInput,
    ScheduledPublishRequest,
};

const A: Uuid = Uuid { bits: 1 };
const B: Uuid = Uuid { bits: 2 };

fn text(s: &str) -> String {
    s.to_string()
}

fn spec(key: Option<&str>) -> FlowSpec {
    FlowSpec {
        key: key.map(text),
        parallelism: Some(4),
        rate: None,
        period_secs: Some(9),
    }
}

fn enqueue(queue_id: Option<Uuid>, queue: &str) -> EnqueueRequest<u8, &'static str> {
    EnqueueRequest {
        queue_id,
        queue: text(queue),
        key: text("key"),
        body: text("body"),
        body_encoding: Some(text("base64")),
        idempotency_key: Some(text("once")),
        delay: Some(250),
        priority: Some(3),
        flow_id: Some(B),
        flow: Some(spec(Some("inline"))),
        retry: RetryInput { max_retries: Some(5), retry_backoff: Some(8) },
        outbound: "outbound",
    }
}

fn response(topic: &str) -> PublishResponse<&'static str> {
    PublishResponse {
        message_id: Some(A),
        topic: text(topic),
        duplicate: false,
        partition: Some(2),
        offset: Some(77),
        scheduled: None,
    }
}

#[test]
fn retry_input_is_empty_by_default() {
    let r: RetryInput<u8> = RetryInput::default();
    assert_eq!((r.max_retries, r.retry_backoff), (None, None));
}

#[test]
fn enqueue_request_is_published() {
    let pr = to_publish_enqueue(enqueue(Some(A), "jobs")).unwrap();
    assert_eq!(pr.topic, "jobs");
    assert_eq!(pr.queue_id, Some(A));
    assert_eq!(pr.routing_key, "key");
    assert_eq!(pr.payload, "body");
    assert_eq!(pr.payload_encoding.as_deref(), Some("base64"));
    assert_eq!(pr.idempotency_key.as_deref(), Some("once"));
    assert_eq!(pr.delay_ms, Some(250));
    assert_eq!(pr.priority, Some(3));
    assert_eq!(pr.flow_id, Some(B));
    assert_eq!(pr.max_retries, Some(5));
    assert_eq!(pr.retry_backoff, Some(8));
    assert_eq!(pr.outbound, Some("outbound"));
    assert!(pr.group_id.is_none() && pr.group_member_id.is_none());
    assert!(pr.url.is_none() && pr.secret.is_none() && pr.destination.is_none());
    // The request's own flow is attached once its profile is stored.
    assert!(pr.flow.is_none() && pr.parallelism.is_none());
}

#[test]
fn enqueue_request_needs_a_queue() {
    assert!(to_publish_enqueue(enqueue(Some(A), "")).is_ok());
    assert!(to_publish_enqueue(enqueue(None, "jobs")).is_ok());
    assert!(to_publish_enqueue(enqueue(None, " ")).is_ok());
    assert!(matches!(
        to_publish_enqueue(enqueue(None, "")),
        Err(ApiError::QueueNotFound(m)) if m == "queue_id or queue name required"
    ));
}

#[test]
fn queue_in_path_is_enough() {
    let req = enqueue_to_queue(A, enqueue(None, ""));
    assert_eq!(req.queue_id, Some(A));
    assert_eq!(req.body, "body");
    assert_eq!(to_publish_enqueue(req).unwrap().queue_id, Some(A));
    let req = enqueue_to_queue(A, enqueue(Some(B), "jobs"));
    assert_eq!(req.queue_id, Some(A));
    assert_eq!(req.queue, "jobs");
}

#[test]
fn job_is_published_directly() {
    let pr = to_publish_job(PublishJobRequest {
        url: text("http://h/"),
        secret: text("s"),
        key: text("key"),
        body: text("body"),
        body_encoding: None,
        idempotency_key: Some(text("once")),
        delay: Some(1),
        priority: Some(9),
        flow_id: Some(B),
        flow: Some(spec(None)),
        retry: RetryInput { max_retries: Some(1), retry_backoff: Some(2u8) },
        outbound: 6u8,
    });
    assert_eq!(pr.topic, "__direct");
    assert_eq!(pr.url.as_deref(), Some("http://h/"));
    assert_eq!(pr.secret.as_deref(), Some("s"));
    assert_eq!((pr.routing_key.as_str(), pr.payload.as_str()), ("key", "body"));
    assert_eq!(pr.payload_encoding, None);
    assert_eq!(pr.idempotency_key.as_deref(), Some("once"));
    assert_eq!((pr.delay_ms, pr.priority), (Some(1), Some(9)));
    assert_eq!(pr.flow_id, Some(B));
    assert_eq!((pr.max_retries, pr.retry_backoff), (Some(1), Some(2)));
    assert_eq!(pr.outbound, Some(6));
    assert!(pr.queue_id.is_none() && pr.group_id.is_none() && pr.group_member_id.is_none());
    assert!(pr.destination.is_none() && pr.flow.is_none() && pr.parallelism.is_none());
}

#[test]
fn inline_flow_is_attached() {
    let mut pr = to_publish_enqueue(enqueue(Some(A), "jobs")).unwrap();
    attach_inline_flow(&mut pr, text("k"), A, spec(None));
    assert_eq!(pr.flow_id, Some(A));
    let flow = pr.flow.as_ref().unwrap();
    assert_eq!(flow.key.as_deref(), Some("k"));
    assert_eq!((flow.parallelism, flow.rate, flow.period_secs), (Some(4), None, Some(9)));
    assert_eq!(pr.topic, "jobs");
    attach_inline_flow(&mut pr, text("k"), B, spec(Some("own")));
    assert_eq!(pr.flow_id, Some(B));
    assert_eq!(pr.flow.unwrap().key.as_deref(), Some("own"));
}

#[test]
fn answer_says_where_a_message_is_stored() {
    let r = to_enqueue_response(response("jobs"));
    assert_eq!(r.message_id, Some(A));
    assert_eq!(r.queue, "jobs");
    assert!(!r.duplicate);
    let d = r.delivery.unwrap();
    assert_eq!((d.shard, d.seq), (2, 77));
    assert!(r.scheduled.is_none());
    let r = to_enqueue_response(PublishResponse { offset: None, ..response("jobs") });
    assert!(r.delivery.is_none());
    let r = to_enqueue_response(PublishResponse {
        partition: None,
        duplicate: true,
        scheduled: Some("later"),
        ..response("jobs")
    });
    assert!(r.delivery.is_none() && r.duplicate);
    assert_eq!(r.scheduled, Some("later"));
}

#[test]
fn scheduled_request_is_published_now() {
    let pr = to_publish_scheduled(ScheduledPublishRequest {
        topic: text("t"),
        routing_key: text("key"),
        payload: text("body"),
        payload_encoding: Some(text("utf8")),
        idempotency_key: Some(text("once")),
        priority: Some(1),
        flow_id: Some(A),
        queue_id: Some(B),
        destination: Some(DestinationSnapshot {
            queue_id: Some(B),
            url: text("http://h"),
            secret: text("s"),
        }),
        flow: Some(spec(Some("f"))),
        parallelism: Some(6),
        max_retries: Some(7),
        retry_backoff: Some(8u8),
        outbound: Some("out"),
    });
    assert_eq!(pr.topic, "t");
    assert_eq!((pr.routing_key.as_str(), pr.payload.as_str()), ("key", "body"));
    assert_eq!(pr.payload_encoding.as_deref(), Some("utf8"));
    assert_eq!(pr.idempotency_key.as_deref(), Some("once"));
    assert_eq!((pr.priority, pr.flow_id, pr.queue_id), (Some(1), Some(A), Some(B)));
    assert_eq!(pr.destination.unwrap().url, "http://h");
    assert_eq!(pr.flow.unwrap().key.as_deref(), Some("f"));
    assert_eq!((pr.parallelism, pr.max_retries, pr.retry_backoff), (Some(6), Some(7), Some(8)));
    assert_eq!(pr.outbound, Some("out"));
    assert!(pr.delay_ms.is_none() && pr.group_id.is_none() && pr.group_member_id.is_none());
    assert!(pr.url.is_none() && pr.secret.is_none());
}

#[test]
fn scheduled_publication_is_dispatched() {
    let job = delivery_after_publish(response("jobs")).unwrap();
    assert_eq!(job.topic, "jobs");
    assert_eq!((job.partition, job.offset, job.message_id), (2, 77, A));
    let none = [
        PublishResponse { duplicate: true, ..response("jobs") },
        PublishResponse { partition: None, ..response("jobs") },
        PublishResponse { offset: None, ..response("jobs") },
        PublishResponse { message_id: None, ..response("jobs") },
    ];
    for r in none {
        assert!(delivery_after_publish(r).is_none());
    }
}

#[test]
fn dead_letters_are_not_dispatched() {
    assert!(delivery_after_publish(response("jobs.__dlq")).is_none());
    assert!(delivery_after_publish(response("jobs.__dlq2")).is_some());
}

#[test]
fn cluster_dispatches_unless_repeated() {
    assert!(dispatches_in_cluster(&response("jobs.__dlq")));
    assert!(!dispatches_in_cluster(&PublishResponse { duplicate: true, ..response("jobs") }));
}

#[test]
fn cluster_takes_what_is_due() {
    assert_eq!(scheduled_publish_path(true), PublishPath::Cluster);
    assert_eq!(scheduled_publish_path(false), PublishPath::SingleNode);
}
