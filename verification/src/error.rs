//! The errors that requests are refused with, and how each is answered.

use crate::ids::{uuid_text, Uuid};
use crate::outside::uuid_to_text;
use crate::text::joined;
use vstd::prelude::*;
use vstd::std_specs::convert::FromSpecImpl;

verus! {

/// Why a publish or dead-letter request is refused.
#[derive(Debug)]
pub enum ApiError {
    /// No queue was found, or none was named.
    QueueNotFound(String),
    /// The request makes no sense.
    BadRequest(String),
}

/// Why no destination was found for a queue.
#[derive(Debug)]
pub enum DestinationError {
    /// The broker's own error, as text.
    Broker(String),
    /// The request makes no sense.
    BadRequest(String),
    /// The other nodes of the cluster did not follow.
    ReplicationFailed(String),
}

/// Why the schedule refused.
#[derive(Debug)]
pub enum ScheduleError {
    /// There is no such scheduled job.
    NotFound(Uuid),
    /// Reading or writing failed, with the error as text.
    Io(String),
    /// Encoding or decoding failed, with the error as text.
    Serde(String),
}

/// Why the cron registry refused.
#[derive(Debug)]
pub enum CronError {
    /// There is no such job.
    NotFound(Uuid),
    /// The cron expression is invalid.
    InvalidExpression(String),
    /// The schedule is invalid.
    InvalidSchedule(String),
    /// Reading or writing failed, with the error as text.
    Io(String),
    /// Encoding or decoding failed, with the error as text.
    Serde(String),
}

/// Why a request on delayed jobs is refused.
#[derive(Debug)]
pub enum DelayedApiError {
    /// There is no such delayed job.
    NotFound(Uuid),
    /// Something else failed.
    Internal(String),
}

/// Why a request on cron jobs is refused.
#[derive(Debug)]
pub enum CronApiError {
    /// The schedule is invalid.
    InvalidCron(String),
    /// The request makes no sense.
    BadRequest(String),
    /// There is no such job.
    NotFound(Uuid),
    /// Something else failed.
    Internal(String),
}

/// Why a request on a flow lane is refused. `E` is the broker's error, which answers for itself.
#[derive(Debug)]
pub enum FlowApiError<E> {
    /// There is no such lane.
    NotFound,
    /// The request makes no sense.
    BadRequest(String),
    /// The broker refused.
    Broker(E),
}

/// HTTP status: no content.
pub const NO_CONTENT: u16 = 204;

/// HTTP status: bad request.
pub const BAD_REQUEST: u16 = 400;

/// HTTP status: not found.
pub const NOT_FOUND: u16 = 404;

/// HTTP status: internal server error.
pub const INTERNAL_SERVER_ERROR: u16 = 500;

/// What a refusal is answered with: a status and a message.
pub struct ErrorReply {
    /// The HTTP status.
    pub status: u16,
    /// The message.
    pub message: String,
}

impl From<ScheduleError> for DelayedApiError {
    fn from(e: ScheduleError) -> (res: Self) {
        match e {
            ScheduleError::NotFound(id) => DelayedApiError::NotFound(id),
            ScheduleError::Io(text) => DelayedApiError::Internal(text),
            ScheduleError::Serde(text) => DelayedApiError::Internal(text),
        }
    }
}

impl FromSpecImpl<ScheduleError> for DelayedApiError {
    open spec fn obeys_from_spec() -> bool {
        true
    }

    open spec fn from_spec(e: ScheduleError) -> Self {
        match e {
            ScheduleError::NotFound(id) => DelayedApiError::NotFound(id),
            ScheduleError::Io(text) => DelayedApiError::Internal(text),
            ScheduleError::Serde(text) => DelayedApiError::Internal(text),
        }
    }
}

impl From<CronError> for CronApiError {
    fn from(e: CronError) -> (res: Self) {
        match e {
            CronError::NotFound(id) => CronApiError::NotFound(id),
            CronError::InvalidExpression(text) => CronApiError::InvalidCron(text),
            CronError::InvalidSchedule(text) => CronApiError::InvalidCron(text),
            CronError::Io(text) => CronApiError::Internal(text),
            CronError::Serde(text) => CronApiError::Internal(text),
        }
    }
}

impl FromSpecImpl<CronError> for CronApiError {
    open spec fn obeys_from_spec() -> bool {
        true
    }

    open spec fn from_spec(e: CronError) -> Self {
        match e {
            CronError::NotFound(id) => CronApiError::NotFound(id),
            CronError::InvalidExpression(text) => CronApiError::InvalidCron(text),
            CronError::InvalidSchedule(text) => CronApiError::InvalidCron(text),
            CronError::Io(text) => CronApiError::Internal(text),
            CronError::Serde(text) => CronApiError::Internal(text),
        }
    }
}

impl From<DestinationError> for CronApiError {
    fn from(e: DestinationError) -> (res: Self) {
        match e {
            DestinationError::Broker(text) => CronApiError::BadRequest(text),
            DestinationError::BadRequest(text) => CronApiError::BadRequest(text),
            DestinationError::ReplicationFailed(text) => CronApiError::BadRequest(text),
        }
    }
}

impl FromSpecImpl<DestinationError> for CronApiError {
    open spec fn obeys_from_spec() -> bool {
        true
    }

    open spec fn from_spec(e: DestinationError) -> Self {
        match e {
            DestinationError::Broker(text) => CronApiError::BadRequest(text),
            DestinationError::BadRequest(text) => CronApiError::BadRequest(text),
            DestinationError::ReplicationFailed(text) => CronApiError::BadRequest(text),
        }
    }
}

impl<E> From<E> for FlowApiError<E> {
    fn from(e: E) -> (res: Self) {
        FlowApiError::Broker(e)
    }
}

impl<E> FromSpecImpl<E> for FlowApiError<E> {
    open spec fn obeys_from_spec() -> bool {
        true
    }

    open spec fn from_spec(e: E) -> Self {
        FlowApiError::Broker(e)
    }
}

impl DelayedApiError {
    /// The status and the message of the answer.
    pub open spec fn reply_spec(self) -> (u16, Seq<char>) {
        match self {
            DelayedApiError::NotFound(id) => (NOT_FOUND, "delayed job not found: "@ + uuid_text(id)),
            DelayedApiError::Internal(text) => (INTERNAL_SERVER_ERROR, text@),
        }
    }

    /// What the refusal is answered with.
    pub fn reply(self) -> (res: ErrorReply)
        ensures
            (res.status, res.message@) == self.reply_spec(),
    {
        match self {
            DelayedApiError::NotFound(id) => ErrorReply {
                status: NOT_FOUND,
                message: joined("delayed job not found: ", uuid_to_text(id).as_str()),
            },
            DelayedApiError::Internal(text) => ErrorReply {
                status: INTERNAL_SERVER_ERROR,
                message: text,
            },
        }
    }
}

impl CronApiError {
    /// The status and the message of the answer.
    pub open spec fn reply_spec(self) -> (u16, Seq<char>) {
        match self {
            CronApiError::InvalidCron(text) => (BAD_REQUEST, text@),
            CronApiError::BadRequest(text) => (BAD_REQUEST, text@),
            CronApiError::NotFound(id) => (NOT_FOUND, "cron not found: "@ + uuid_text(id)),
            CronApiError::Internal(text) => (INTERNAL_SERVER_ERROR, text@),
        }
    }

    /// What the refusal is answered with.
    pub fn reply(self) -> (res: ErrorReply)
        ensures
            (res.status, res.message@) == self.reply_spec(),
    {
        match self {
            CronApiError::InvalidCron(text) => ErrorReply { status: BAD_REQUEST, message: text },
            CronApiError::BadRequest(text) => ErrorReply { status: BAD_REQUEST, message: text },
            CronApiError::NotFound(id) => ErrorReply {
                status: NOT_FOUND,
                message: joined("cron not found: ", uuid_to_text(id).as_str()),
            },
            CronApiError::Internal(text) => ErrorReply {
                status: INTERNAL_SERVER_ERROR,
                message: text,
            },
        }
    }
}

impl<E> FlowApiError<E> {
    /// What the refusal is answered with, or the broker's error, which answers for itself.
    pub fn reply(self) -> (res: Result<ErrorReply, E>)
        ensures
            match self {
                FlowApiError::NotFound => res matches Ok(reply) && reply.status == NOT_FOUND
                    && reply.message@
                    == "flow key not found — upsert with PUT /v1/flow/{key} or enqueue with inline flow"@,
                FlowApiError::BadRequest(text) => res matches Ok(reply) && reply.status
                    == BAD_REQUEST && reply.message@ == text@,
                FlowApiError::Broker(e) => res == Err::<ErrorReply, E>(e),
            },
    {
        match self {
            FlowApiError::NotFound => Ok(
                ErrorReply {
                    status: NOT_FOUND,
                    message:
                        "flow key not found — upsert with PUT /v1/flow/{key} or enqueue with inline flow".to_owned(),
                },
            ),
            FlowApiError::BadRequest(text) => Ok(
                ErrorReply { status: BAD_REQUEST, message: text },
            ),
            FlowApiError::Broker(e) => Err(e),
        }
    }
}

} // verus!
