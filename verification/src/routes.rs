//! The routes of the HTTP interface.

use vstd::prelude::*;

verus! {

/// The HTTP methods that routes are reached by.
#[derive(Debug, Clone, Copy, PartialEq, Eq, Structural)]
pub enum Method {
    /// GET.
    Get,
    /// POST.
    Post,
    /// PUT.
    Put,
    /// DELETE.
    Delete,
}

/// What a route leads to.
#[derive(Debug, Clone, Copy, PartialEq, Eq, Structural)]
pub enum Handler {
    /// Deliver to the URL in the path.
    PublishGet,
    /// Deliver to a URL.
    PublishJob,
    /// Enqueue into a queue.
    Enqueue,
    /// Enqueue into the queue in the path.
    EnqueueToQueue,
    /// List dead letters.
    ListDlq,
    /// Delete a dead letter.
    DeleteDlqMessage,
    /// List the dead-letter topics.
    ListDlqSources,
    /// List flow profiles.
    ListFlows,
    /// Create a flow profile.
    CreateFlow,
    /// Delete a flow profile.
    DeleteFlow,
    /// List queues.
    ListQueues,
    /// Create a queue.
    CreateQueue,
    /// Delete a queue.
    DeleteQueue,
    /// List delayed jobs.
    ListDelayed,
    /// Cancel a delayed job.
    CancelDelayed,
    /// Show a flow lane.
    GetFlow,
    /// Set the limits of a flow lane.
    UpsertFlowControl,
    /// Pause a flow lane.
    PauseFlow,
    /// Resume a flow lane.
    ResumeFlow,
    /// Reset the rate of a flow lane.
    ResetFlowRate,
    /// Pin limits of a flow lane.
    PinFlow,
    /// Unpin limits of a flow lane.
    UnpinFlow,
    /// Show the parallelism of all lanes.
    GlobalFlow,
    /// List recurring publications.
    ListCrons,
    /// Create a recurring publication.
    CreateCron,
    /// Show a recurring publication.
    GetCron,
    /// Delete a recurring publication.
    DeleteCron,
    /// Pause a recurring publication.
    PauseCron,
    /// Resume a recurring publication.
    ResumeCron,
    /// Show the state of the cluster.
    GetClusterStatus,
}

/// A route: a path and a method, and what they lead to.
#[derive(Debug)]
pub struct Route {
    /// The path, with its parameters in braces.
    pub path: &'static str,
    /// The method.
    pub method: Method,
    /// What the route leads to.
    pub handler: Handler,
}

/// The path and the method by which a handler is reached.
pub open spec fn route_to(handler: Handler) -> (Seq<char>, Method) {
    match handler {
        Handler::PublishGet => ("/v1/publish/{*destination}"@, Method::Get),
        Handler::PublishJob => ("/v1/publish"@, Method::Post),
        Handler::Enqueue => ("/v1/enqueue"@, Method::Post),
        Handler::EnqueueToQueue => ("/v1/queues/{queue_id}/enqueue"@, Method::Post),
        Handler::ListDlq => ("/v1/dlq"@, Method::Get),
        Handler::DeleteDlqMessage => ("/v1/dlq"@, Method::Delete),
        Handler::ListDlqSources => ("/v1/dlq/sources"@, Method::Get),
        Handler::ListFlows => ("/v1/flows"@, Method::Get),
        Handler::CreateFlow => ("/v1/flows"@, Method::Post),
        Handler::DeleteFlow => ("/v1/flows/{flow_id}"@, Method::Delete),
        Handler::ListQueues => ("/v1/queues"@, Method::Get),
        Handler::CreateQueue => ("/v1/queues"@, Method::Post),
        Handler::DeleteQueue => ("/v1/queues/{queue_id}"@, Method::Delete),
        Handler::ListDelayed => ("/v1/delayed"@, Method::Get),
        Handler::CancelDelayed => ("/v1/delayed/{schedule_id}"@, Method::Delete),
        Handler::GetFlow => ("/v1/flow/{key}"@, Method::Get),
        Handler::UpsertFlowControl => ("/v1/flow/{key}"@, Method::Put),
        Handler::PauseFlow => ("/v1/flow/{key}/pause"@, Method::Post),
        Handler::ResumeFlow => ("/v1/flow/{key}/resume"@, Method::Post),
        Handler::ResetFlowRate => ("/v1/flow/{key}/reset-rate"@, Method::Post),
        Handler::PinFlow => ("/v1/flow/{key}/pin"@, Method::Post),
        Handler::UnpinFlow => ("/v1/flow/{key}/unpin"@, Method::Post),
        Handler::GlobalFlow => ("/v1/flow/global"@, Method::Get),
        Handler::ListCrons => ("/v1/crons"@, Method::Get),
        Handler::CreateCron => ("/v1/crons"@, Method::Post),
        Handler::GetCron => ("/v1/crons/{cron_id}"@, Method::Get),
        Handler::DeleteCron => ("/v1/crons/{cron_id}"@, Method::Delete),
        Handler::PauseCron => ("/v1/crons/{cron_id}/pause"@, Method::Post),
        Handler::ResumeCron => ("/v1/crons/{cron_id}/resume"@, Method::Post),
        Handler::GetClusterStatus => ("/v1/cluster"@, Method::Get),
    }
}

/// All handlers, in the order of their routes.
pub open spec fn all_handlers() -> Seq<Handler> {
    seq![
        Handler::PublishGet,
        Handler::PublishJob,
        Handler::Enqueue,
        Handler::EnqueueToQueue,
        Handler::ListDlq,
        Handler::DeleteDlqMessage,
        Handler::ListDlqSources,
        Handler::ListFlows,
        Handler::CreateFlow,
        Handler::DeleteFlow,
        Handler::ListQueues,
        Handler::CreateQueue,
        Handler::DeleteQueue,
        Handler::ListDelayed,
        Handler::CancelDelayed,
        Handler::GetFlow,
        Handler::UpsertFlowControl,
        Handler::PauseFlow,
        Handler::ResumeFlow,
        Handler::ResetFlowRate,
        Handler::PinFlow,
        Handler::UnpinFlow,
        Handler::GlobalFlow,
        Handler::ListCrons,
        Handler::CreateCron,
        Handler::GetCron,
        Handler::DeleteCron,
        Handler::PauseCron,
        Handler::ResumeCron,
        Handler::GetClusterStatus,
    ]
}

/// The route to a handler.
pub fn route(handler: Handler) -> (res: Route)
    ensures
        res.handler == handler,
        (res.path@, res.method) == route_to(handler),
{
    let (path, method): (&'static str, Method) = match handler {
        Handler::PublishGet => ("/v1/publish/{*destination}", Method::Get),
        Handler::PublishJob => ("/v1/publish", Method::Post),
        Handler::Enqueue => ("/v1/enqueue", Method::Post),
        Handler::EnqueueToQueue => ("/v1/queues/{queue_id}/enqueue", Method::Post),
        Handler::ListDlq => ("/v1/dlq", Method::Get),
        Handler::DeleteDlqMessage => ("/v1/dlq", Method::Delete),
        Handler::ListDlqSources => ("/v1/dlq/sources", Method::Get),
        Handler::ListFlows => ("/v1/flows", Method::Get),
        Handler::CreateFlow => ("/v1/flows", Method::Post),
        Handler::DeleteFlow => ("/v1/flows/{flow_id}", Method::Delete),
        Handler::ListQueues => ("/v1/queues", Method::Get),
        Handler::CreateQueue => ("/v1/queues", Method::Post),
        Handler::DeleteQueue => ("/v1/queues/{queue_id}", Method::Delete),
        Handler::ListDelayed => ("/v1/delayed", Method::Get),
        Handler::CancelDelayed => ("/v1/delayed/{schedule_id}", Method::Delete),
        Handler::GetFlow => ("/v1/flow/{key}", Method::Get),
        Handler::UpsertFlowControl => ("/v1/flow/{key}", Method::Put),
        Handler::PauseFlow => ("/v1/flow/{key}/pause", Method::Post),
        Handler::ResumeFlow => ("/v1/flow/{key}/resume", Method::Post),
        Handler::ResetFlowRate => ("/v1/flow/{key}/reset-rate", Method::Post),
        Handler::PinFlow => ("/v1/flow/{key}/pin", Method::Post),
        Handler::UnpinFlow => ("/v1/flow/{key}/unpin", Method::Post),
        Handler::GlobalFlow => ("/v1/flow/global", Method::Get),
        Handler::ListCrons => ("/v1/crons", Method::Get),
        Handler::CreateCron => ("/v1/crons", Method::Post),
        Handler::GetCron => ("/v1/crons/{cron_id}", Method::Get),
        Handler::DeleteCron => ("/v1/crons/{cron_id}", Method::Delete),
        Handler::PauseCron => ("/v1/crons/{cron_id}/pause", Method::Post),
        Handler::ResumeCron => ("/v1/crons/{cron_id}/resume", Method::Post),
        Handler::GetClusterStatus => ("/v1/cluster", Method::Get),
    };
    Route { path, method, handler }
}

/// The routes of the HTTP interface: one to each handler.
pub fn bettermq_routes() -> (res: Vec<Route>)
    ensures
        res@.len() == all_handlers().len(),
        forall|i: int|
            0 <= i < res@.len() ==> (#[trigger] res@[i]).handler == all_handlers()[i] && (
            res@[i].path@,
            res@[i].method,
        ) == route_to(all_handlers()[i]),
{
    vec![
        route(Handler::PublishGet),
        route(Handler::PublishJob),
        route(Handler::Enqueue),
        route(Handler::EnqueueToQueue),
        route(Handler::ListDlq),
        route(Handler::DeleteDlqMessage),
        route(Handler::ListDlqSources),
        route(Handler::ListFlows),
        route(Handler::CreateFlow),
        route(Handler::DeleteFlow),
        route(Handler::ListQueues),
        route(Handler::CreateQueue),
        route(Handler::DeleteQueue),
        route(Handler::ListDelayed),
        route(Handler::CancelDelayed),
        route(Handler::GetFlow),
        route(Handler::UpsertFlowControl),
        route(Handler::PauseFlow),
        route(Handler::ResumeFlow),
        route(Handler::ResetFlowRate),
        route(Handler::PinFlow),
        route(Handler::UnpinFlow),
        route(Handler::GlobalFlow),
        route(Handler::ListCrons),
        route(Handler::CreateCron),
        route(Handler::GetCron),
        route(Handler::DeleteCron),
        route(Handler::PauseCron),
        route(Handler::ResumeCron),
        route(Handler::GetClusterStatus),
    ]
}

/// Every handler has a route, and only one.
pub proof fn law_each_handler_has_one_route(handler: Handler)
    ensures
        exists|i: int| 0 <= i < all_handlers().len() && #[trigger] all_handlers()[i] == handler,
        forall|i: int, j: int|
            0 <= i < j < all_handlers().len() ==> #[trigger] all_handlers()[i]
                != #[trigger] all_handlers()[j],
{
    match handler {
        Handler::PublishGet => assert(all_handlers()[0] == handler),
        Handler::PublishJob => assert(all_handlers()[1] == handler),
        Handler::Enqueue => assert(all_handlers()[2] == handler),
        Handler::EnqueueToQueue => assert(all_handlers()[3] == handler),
        Handler::ListDlq => assert(all_handlers()[4] == handler),
        Handler::DeleteDlqMessage => assert(all_handlers()[5] == handler),
        Handler::ListDlqSources => assert(all_handlers()[6] == handler),
        Handler::ListFlows => assert(all_handlers()[7] == handler),
        Handler::CreateFlow => assert(all_handlers()[8] == handler),
        Handler::DeleteFlow => assert(all_handlers()[9] == handler),
        Handler::ListQueues => assert(all_handlers()[10] == handler),
        Handler::CreateQueue => assert(all_handlers()[11] == handler),
        Handler::DeleteQueue => assert(all_handlers()[12] == handler),
        Handler::ListDelayed => assert(all_handlers()[13] == handler),
        Handler::CancelDelayed => assert(all_handlers()[14] == handler),
        Handler::GetFlow => assert(all_handlers()[15] == handler),
        Handler::UpsertFlowControl => assert(all_handlers()[16] == handler),
        Handler::PauseFlow => assert(all_handlers()[17] == handler),
        Handler::ResumeFlow => assert(all_handlers()[18] == handler),
        Handler::ResetFlowRate => assert(all_handlers()[19] == handler),
        Handler::PinFlow => assert(all_handlers()[20] == handler),
        Handler::UnpinFlow => assert(all_handlers()[21] == handler),
        Handler::GlobalFlow => assert(all_handlers()[22] == handler),
        Handler::ListCrons => assert(all_handlers()[23] == handler),
        Handler::CreateCron => assert(all_handlers()[24] == handler),
        Handler::GetCron => assert(all_handlers()[25] == handler),
        Handler::DeleteCron => assert(all_handlers()[26] == handler),
        Handler::PauseCron => assert(all_handlers()[27] == handler),
        Handler::ResumeCron => assert(all_handlers()[28] == handler),
        Handler::GetClusterStatus => assert(all_handlers()[29] == handler),
    }
}

/// The length of the path to a handler, and two of its characters.
spec fn path_mark(handler: Handler) -> (nat, char, char) {
    match handler {
        Handler::PublishGet => (26, 'p', 'e'),
        Handler::PublishJob => (11, 'p', ' '),
        Handler::Enqueue => (11, 'e', ' '),
        Handler::EnqueueToQueue => (29, 'q', 'u'),
        Handler::ListDlq => (7, 'd', ' '),
        Handler::DeleteDlqMessage => (7, 'd', ' '),
        Handler::ListDlqSources => (15, 'd', ' '),
        Handler::ListFlows => (9, 'f', ' '),
        Handler::CreateFlow => (9, 'f', ' '),
        Handler::DeleteFlow => (19, 'f', '_'),
        Handler::ListQueues => (10, 'q', ' '),
        Handler::CreateQueue => (10, 'q', ' '),
        Handler::DeleteQueue => (21, 'q', 'u'),
        Handler::ListDelayed => (11, 'd', ' '),
        Handler::CancelDelayed => (25, 'd', 'h'),
        Handler::GetFlow => (14, 'f', ' '),
        Handler::UpsertFlowControl => (14, 'f', ' '),
        Handler::PauseFlow => (20, 'f', 'p'),
        Handler::ResumeFlow => (21, 'f', 'r'),
        Handler::ResetFlowRate => (25, 'f', 'r'),
        Handler::PinFlow => (18, 'f', 'p'),
        Handler::UnpinFlow => (20, 'f', 'u'),
        Handler::GlobalFlow => (15, 'f', ' '),
        Handler::ListCrons => (9, 'c', ' '),
        Handler::CreateCron => (9, 'c', ' '),
        Handler::GetCron => (19, 'c', '_'),
        Handler::DeleteCron => (19, 'c', '_'),
        Handler::PauseCron => (25, 'c', '_'),
        Handler::ResumeCron => (26, 'c', '_'),
        Handler::GetClusterStatus => (11, 'c', ' '),
    }
}

proof fn lemma_path_mark(handler: Handler)
    ensures
        route_to(handler).0.len() == path_mark(handler).0,
        route_to(handler).0[4] == path_mark(handler).1,
        path_mark(handler).0 > 15 ==> route_to(handler).0[15] == path_mark(handler).2,
{
    match handler {
        Handler::PublishGet => reveal_strlit("/v1/publish/{*destination}"),
        Handler::PublishJob => reveal_strlit("/v1/publish"),
        Handler::Enqueue => reveal_strlit("/v1/enqueue"),
        Handler::EnqueueToQueue => reveal_strlit("/v1/queues/{queue_id}/enqueue"),
        Handler::ListDlq => reveal_strlit("/v1/dlq"),
        Handler::DeleteDlqMessage => reveal_strlit("/v1/dlq"),
        Handler::ListDlqSources => reveal_strlit("/v1/dlq/sources"),
        Handler::ListFlows => reveal_strlit("/v1/flows"),
        Handler::CreateFlow => reveal_strlit("/v1/flows"),
        Handler::DeleteFlow => reveal_strlit("/v1/flows/{flow_id}"),
        Handler::ListQueues => reveal_strlit("/v1/queues"),
        Handler::CreateQueue => reveal_strlit("/v1/queues"),
        Handler::DeleteQueue => reveal_strlit("/v1/queues/{queue_id}"),
        Handler::ListDelayed => reveal_strlit("/v1/delayed"),
        Handler::CancelDelayed => reveal_strlit("/v1/delayed/{schedule_id}"),
        Handler::GetFlow => reveal_strlit("/v1/flow/{key}"),
        Handler::UpsertFlowControl => reveal_strlit("/v1/flow/{key}"),
        Handler::PauseFlow => reveal_strlit("/v1/flow/{key}/pause"),
        Handler::ResumeFlow => reveal_strlit("/v1/flow/{key}/resume"),
        Handler::ResetFlowRate => reveal_strlit("/v1/flow/{key}/reset-rate"),
        Handler::PinFlow => reveal_strlit("/v1/flow/{key}/pin"),
        Handler::UnpinFlow => reveal_strlit("/v1/flow/{key}/unpin"),
        Handler::GlobalFlow => reveal_strlit("/v1/flow/global"),
        Handler::ListCrons => reveal_strlit("/v1/crons"),
        Handler::CreateCron => reveal_strlit("/v1/crons"),
        Handler::GetCron => reveal_strlit("/v1/crons/{cron_id}"),
        Handler::DeleteCron => reveal_strlit("/v1/crons/{cron_id}"),
        Handler::PauseCron => reveal_strlit("/v1/crons/{cron_id}/pause"),
        Handler::ResumeCron => reveal_strlit("/v1/crons/{cron_id}/resume"),
        Handler::GetClusterStatus => reveal_strlit("/v1/cluster"),
    }
}

/// No two handlers share both a path and a method.
pub proof fn law_no_route_leads_to_two_handlers(a: Handler, b: Handler)
    requires
        route_to(a) == route_to(b),
    ensures
        a == b,
{
    lemma_path_mark(a);
    lemma_path_mark(b);
}

} // verus!
