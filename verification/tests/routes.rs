use bettermq::routes::{bettermq_routes, route, Handler, Method};

#[test]
fn each_path_and_method_leads_to_one_handler() {
    let routes = bettermq_routes();
    assert_eq!(routes.len(), 30);
    for (i, a) in routes.iter().enumerate() {
        for b in &routes[i + 1..] {
            assert!(a.path != b.path || a.method != b.method);
            assert_ne!(a.handler, b.handler);
        }
        let again = route(a.handler);
        assert_eq!((again.path, again.method), (a.path, a.method));
    }
}

#[test]
fn routes_by_path() {
    let handler = |path: &str, method: Method| {
        bettermq_routes()
            .into_iter()
            .find(|r| r.path == path && r.method == method)
            .map(|r| r.handler)
    };
    let expected = [
        ("/v1/publish/{*destination}", Method::Get, Handler::PublishGet),
        ("/v1/publish", Method::Post, Handler::PublishJob),
        ("/v1/enqueue", Method::Post, Handler::Enqueue),
        ("/v1/queues/{queue_id}/enqueue", Method::Post, Handler::EnqueueToQueue),
        ("/v1/dlq", Method::Get, Handler::ListDlq),
        ("/v1/dlq", Method::Delete, Handler::DeleteDlqMessage),
        ("/v1/dlq/sources", Method::Get, Handler::ListDlqSources),
        ("/v1/flows", Method::Get, Handler::ListFlows),
        ("/v1/flows", Method::Post, Handler::CreateFlow),
        ("/v1/flows/{flow_id}", Method::Delete, Handler::DeleteFlow),
        ("/v1/queues", Method::Get, Handler::ListQueues),
        ("/v1/queues", Method::Post, Handler::CreateQueue),
        ("/v1/queues/{queue_id}", Method::Delete, Handler::DeleteQueue),
        ("/v1/delayed", Method::Get, Handler::ListDelayed),
        ("/v1/delayed/{schedule_id}", Method::Delete, Handler::CancelDelayed),
        ("/v1/flow/{key}", Method::Get, Handler::GetFlow),
        ("/v1/flow/{key}", Method::Put, Handler::UpsertFlowControl),
        ("/v1/flow/{key}/pause", Method::Post, Handler::PauseFlow),
        ("/v1/flow/{key}/resume", Method::Post, Handler::ResumeFlow),
        ("/v1/flow/{key}/reset-rate", Method::Post, Handler::ResetFlowRate),
        ("/v1/flow/{key}/pin", Method::Post, Handler::PinFlow),
        ("/v1/flow/{key}/unpin", Method::Post, Handler::UnpinFlow),
        ("/v1/flow/global", Method::Get, Handler::GlobalFlow),
        ("/v1/crons", Method::Get, Handler::ListCrons),
        ("/v1/crons", Method::Post, Handler::CreateCron),
        ("/v1/crons/{cron_id}", Method::Get, Handler::GetCron),
        ("/v1/crons/{cron_id}", Method::Delete, Handler::DeleteCron),
        ("/v1/crons/{cron_id}/pause", Method::Post, Handler::PauseCron),
        ("/v1/crons/{cron_id}/resume", Method::Post, Handler::ResumeCron),
        ("/v1/cluster", Method::Get, Handler::GetClusterStatus),
    ];
    for (path, method, wanted) in expected {
        assert_eq!(handler(path, method), Some(wanted));
    }
    assert_eq!(handler("/v1/publish", Method::Get), None);
}
