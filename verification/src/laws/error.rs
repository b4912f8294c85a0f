//! Laws on refusals.

use crate::error::{
    CronApiError, CronError, DelayedApiError, DestinationError, ErrorReply, FlowApiError,
    ScheduleError,
};
use crate::ids::uuid_text;
use vstd::prelude::*;

verus! {

/// A job that the schedule does not know is answered as not found, under the identifier that was
/// asked for; any other failure as the server's own, in the schedule's words.
pub proof fn law_refusal_of_the_schedule(
    e: ScheduleError,
    refusal: DelayedApiError,
    reply: ErrorReply,
)
    requires
        call_ensures(<DelayedApiError as From<ScheduleError>>::from, (e,), refusal),
        call_ensures(DelayedApiError::reply, (refusal,), reply),
    ensures
        e matches ScheduleError::NotFound(id) ==> reply.status == 404 && reply.message@
            == "delayed job not found: "@ + uuid_text(id),
        e matches ScheduleError::Io(text) ==> reply.status == 500 && reply.message@ == text@,
        e matches ScheduleError::Serde(text) ==> reply.status == 500 && reply.message@ == text@,
        refusal is NotFound <==> e is NotFound,
{
}

/// A cron job that the registry does not know is answered as not found, under the identifier that
/// was asked for; an invalid schedule as a bad request; any other failure as the server's own.
pub proof fn law_refusal_of_the_registry(
    e: CronError,
    refusal: CronApiError,
    reply: ErrorReply,
)
    requires
        call_ensures(<CronApiError as From<CronError>>::from, (e,), refusal),
        call_ensures(CronApiError::reply, (refusal,), reply),
    ensures
        e matches CronError::NotFound(id) ==> reply.status == 404 && reply.message@
            == "cron not found: "@ + uuid_text(id),
        e matches CronError::InvalidExpression(text) ==> refusal is InvalidCron && reply.status
            == 400 && reply.message@ == text@,
        e matches CronError::InvalidSchedule(text) ==> refusal is InvalidCron && reply.status == 400
            && reply.message@ == text@,
        e matches CronError::Io(text) ==> reply.status == 500 && reply.message@ == text@,
        e matches CronError::Serde(text) ==> reply.status == 500 && reply.message@ == text@,
        refusal is NotFound <==> e is NotFound,
{
}

/// Where no destination is found for a cron job, that is a bad request, in the words given.
pub proof fn law_refusal_of_a_destination(
    e: DestinationError,
    refusal: CronApiError,
    reply: ErrorReply,
)
    requires
        call_ensures(<CronApiError as From<DestinationError>>::from, (e,), refusal),
        call_ensures(CronApiError::reply, (refusal,), reply),
    ensures
        refusal is BadRequest,
        reply.status == 400,
        e matches DestinationError::Broker(text) ==> reply.message@ == text@,
        e matches DestinationError::BadRequest(text) ==> reply.message@ == text@,
        e matches DestinationError::ReplicationFailed(text) ==> reply.message@ == text@,
{
}

/// The broker's refusal of a request on a lane is handed on as it is.
pub proof fn law_refusal_of_the_broker<E>(
    e: E,
    refusal: FlowApiError<E>,
    reply: Result<ErrorReply, E>,
)
    requires
        call_ensures(<FlowApiError<E> as From<E>>::from, (e,), refusal),
        call_ensures(FlowApiError::<E>::reply, (refusal,), reply),
    ensures
        refusal matches FlowApiError::Broker(inner) && inner == e,
        reply matches Err(inner) && inner == e,
{
}

/// A lane that is not there is answered as not found, with a word on how to get one; a request that
/// makes no sense as a bad one, in the words given.
pub proof fn law_refusal_on_a_lane<E>(refusal: FlowApiError<E>, reply: Result<ErrorReply, E>)
    requires
        call_ensures(FlowApiError::<E>::reply, (refusal,), reply),
    ensures
        refusal is NotFound ==> (reply matches Ok(r) && r.status == 404 && r.message@
            == "flow key not found — upsert with PUT /v1/flow/{key} or enqueue with inline flow"@),
        refusal matches FlowApiError::BadRequest(text) ==> (reply matches Ok(r) && r.status == 400
            && r.message@ == text@),
        reply is Err <==> refusal is Broker,
{
}

/// A refused request on delayed jobs is answered in the words of the refusal.
pub proof fn law_refusal_on_delayed_jobs(
    refusal: DelayedApiError,
    reply: ErrorReply,
)
    requires
        call_ensures(DelayedApiError::reply, (refusal,), reply),
    ensures
        refusal matches DelayedApiError::NotFound(id) ==> reply.status == 404 && reply.message@
            == "delayed job not found: "@ + uuid_text(id),
        refusal matches DelayedApiError::Internal(text) ==> reply.status == 500 && reply.message@
            == text@,
{
}

/// A refused request on cron jobs is answered in the words of the refusal.
pub proof fn law_refusal_on_cron_jobs(
    refusal: CronApiError,
    reply: ErrorReply,
)
    requires
        call_ensures(CronApiError::reply, (refusal,), reply),
    ensures
        refusal matches CronApiError::NotFound(id) ==> reply.status == 404 && reply.message@
            == "cron not found: "@ + uuid_text(id),
        refusal matches CronApiError::InvalidCron(text) ==> reply.status == 400 && reply.message@
            == text@,
        refusal matches CronApiError::BadRequest(text) ==> reply.status == 400 && reply.message@
            == text@,
        refusal matches CronApiError::Internal(text) ==> reply.status == 500 && reply.message@
            == text@,
{
}

} // verus!
