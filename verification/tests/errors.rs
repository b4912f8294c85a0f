use bettermq::error::{
    CronApiError, CronError, DelayedApiError, DestinationError, FlowApiError, ScheduleError,
};
use bettermq::ids::Uuid;

const ID: Uuid = Uuid { bits: 0x0000_0001_0203_4405_8607_0809_0a0b_0c0d };
const ID_TEXT: &str = "00000001-0203-4405-8607-08090a0b0c0d";

#[test]
fn identifiers_are_written_as_the_uuid_crate_does() {
    for bits in [0u128, 1, u128::MAX, ID.bits, 1u128 << 127, 0xdead_beef] {
        let reply = DelayedApiError::NotFound(Uuid { bits }).reply();
        assert_eq!(
            reply.message,
            format!("delayed job not found: {}", uuid::Uuid::from_u128(bits))
        );
    }
    assert_eq!(uuid::Uuid::from_u128(ID.bits).to_string(), ID_TEXT);
}

#[test]
fn errors_of_delayed_jobs() {
    let reply = DelayedApiError::from(ScheduleError::NotFound(ID)).reply();
    assert_eq!(reply.status, 404);
    assert_eq!(reply.message, format!("delayed job not found: {ID_TEXT}"));
    let reply = DelayedApiError::from(ScheduleError::Io("disk".to_string())).reply();
    assert_eq!((reply.status, reply.message.as_str()), (500, "disk"));
    let reply = DelayedApiError::from(ScheduleError::Serde("json".to_string())).reply();
    assert_eq!((reply.status, reply.message.as_str()), (500, "json"));
}

#[test]
fn errors_of_crons() {
    let reply = CronApiError::from(CronError::NotFound(ID)).reply();
    assert_eq!(reply.status, 404);
    assert_eq!(reply.message, format!("cron not found: {ID_TEXT}"));
    for e in [
        CronError::InvalidExpression("x".to_string()),
        CronError::InvalidSchedule("x".to_string()),
    ] {
        let e = CronApiError::from(e);
        assert!(matches!(&e, CronApiError::InvalidCron(_)));
        let reply = e.reply();
        assert_eq!((reply.status, reply.message.as_str()), (400, "x"));
    }
    for e in [CronError::Io("x".to_string()), CronError::Serde("x".to_string())] {
        let reply = CronApiError::from(e).reply();
        assert_eq!((reply.status, reply.message.as_str()), (500, "x"));
    }
}

#[test]
fn errors_of_destinations_are_bad_requests() {
    for e in [
        DestinationError::Broker("x".to_string()),
        DestinationError::BadRequest("x".to_string()),
        DestinationError::ReplicationFailed("x".to_string()),
    ] {
        let e = CronApiError::from(e);
        assert!(matches!(&e, CronApiError::BadRequest(_)));
        let reply = e.reply();
        assert_eq!((reply.status, reply.message.as_str()), (400, "x"));
    }
}

#[test]
fn errors_of_flow_lanes() {
    let reply = FlowApiError::<u8>::NotFound.reply().unwrap_or_else(|_| unreachable!());
    assert_eq!(reply.status, 404);
    assert_eq!(
        reply.message,
        "flow key not found — upsert with PUT /v1/flow/{key} or enqueue with inline flow"
    );
    let reply = FlowApiError::<u8>::BadRequest("x".to_string())
        .reply()
        .unwrap_or_else(|_| unreachable!());
    assert_eq!((reply.status, reply.message.as_str()), (400, "x"));
    assert!(matches!(FlowApiError::from(7u8).reply(), Err(7)));
}
