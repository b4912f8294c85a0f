use bettermq::delayed::{to_delayed_list, to_delayed_response, ScheduledPublish};
use bettermq::ids::Uuid;
use bettermq::publish::{RetryInput, ScheduledPublishRequest};
use bettermq::queue::{
    to_queue_list, to_queue_response, to_subscription, to_subscription_request,
    CreateQueueRequest, CreateSubscriptionResponse, Subscription,
};

const A: Uuid = Uuid { bits: 1 };
const B: Uuid = Uuid { bits: 2 };

fn text(s: &str) -> String {
    s.to_string()
}

fn delayed(id: Uuid) -> ScheduledPublish<u8, u8> {
    ScheduledPublish {
        id,
        deliver_at_ms: 99,
        request: ScheduledPublishRequest {
            topic: text("t"),
            routing_key: text("key"),
            payload: text("body"),
            payload_encoding: None,
            idempotency_key: None,
            priority: None,
            flow_id: None,
            queue_id: None,
            destination: None,
            flow: None,
            parallelism: None,
            max_retries: None,
            retry_backoff: None,
            outbound: None,
        },
    }
}

fn created(id: Uuid, topic: &str) -> CreateSubscriptionResponse {
    CreateSubscriptionResponse { id, topic: text(topic), url: text("http://h") }
}

#[test]
fn delayed_jobs_are_listed() {
    let r = to_delayed_response(delayed(A));
    assert_eq!(r.schedule_id, A);
    assert_eq!((r.queue.as_str(), r.key.as_str(), r.body.as_str()), ("t", "key", "body"));
    assert_eq!(r.deliver_at_ms, 99);
    let list = to_delayed_list(vec![delayed(B), delayed(A)]);
    let ids: Vec<Uuid> = list.delayed.iter().map(|d| d.schedule_id).collect();
    assert_eq!(ids, vec![B, A]);
}

#[test]
fn queues_are_listed() {
    let r = to_queue_response(created(A, "jobs"));
    assert_eq!(r.queue_id, A);
    assert_eq!((r.queue.as_str(), r.url.as_str()), ("jobs", "http://h"));
    let list = to_queue_list(vec![created(B, "b"), created(A, "a")]);
    let names: Vec<&str> = list.queues.iter().map(|q| q.queue.as_str()).collect();
    assert_eq!(names, vec!["b", "a"]);
}

#[test]
fn queue_is_created_as_asked() {
    let wanted = to_subscription_request(CreateQueueRequest {
        queue: text("jobs"),
        url: text("http://h"),
        secret: text("s"),
        retry: RetryInput { max_retries: Some(2), retry_backoff: Some(3u8) },
    });
    assert_eq!(wanted.topic, "jobs");
    assert_eq!((wanted.url.as_str(), wanted.secret.as_str()), ("http://h", "s"));
    assert_eq!((wanted.default_max_retries, wanted.retry_backoff), (Some(2), Some(3)));
}

#[test]
fn created_queue_is_told_to_the_cluster() {
    let s: Subscription<u8, u8> = to_subscription(
        &created(A, "jobs"),
        text("s"),
        RetryInput { max_retries: Some(2), retry_backoff: Some(3) },
        text("tenant"),
        1234,
    );
    assert_eq!(s.id, A);
    assert_eq!(s.tenant_id, "tenant");
    assert_eq!((s.topic.as_str(), s.url.as_str(), s.secret.as_str()), ("jobs", "http://h", "s"));
    assert!(!s.paused && s.parallelism.is_none() && s.flow.is_none());
    assert_eq!((s.default_max_retries, s.retry_backoff), (Some(2), Some(3)));
    assert_eq!(s.updated_at_ms, 1234);
}
