use bettermq::error::FlowApiError;
use bettermq::flow::{
    default_flow_parallelism, default_flow_period, flow_lane_owner, flow_limits_for_lane,
    get_flow_next, get_flow_step, inline_flow_limits, inline_flow_spec, lane_change_outcome, to_flow_list,
    to_flow_response, FlowKeyQuery, FlowProfile, FlowSpec, LaneAction, LaneLimits, LaneLookup,
    PinFlowRequest, UnpinFlowRequest,
};
use bettermq::ids::Uuid;

const A: Uuid = Uuid { bits: 1 };
const B: Uuid = Uuid { bits: 2 };
const C: Uuid = Uuid { bits: 3 };

fn profile(id: Uuid, key: &str) -> FlowProfile {
    FlowProfile { id, key: key.to_string(), parallelism: 2, rate: 3, period_secs: 4 }
}

fn spec(parallelism: Option<u32>, rate: Option<u32>, period_secs: Option<u64>) -> FlowSpec {
    FlowSpec { key: None, parallelism, rate, period_secs }
}

#[test]
fn defaults() {
    assert_eq!(default_flow_parallelism(), 1);
    assert_eq!(default_flow_period(), 60);
    let pin = PinFlowRequest::default();
    assert_eq!((pin.parallelism, pin.rate, pin.period_secs), (None, None, None));
    let unpin = UnpinFlowRequest::default();
    assert!(!unpin.parallelism && !unpin.rate);
}

#[test]
fn profiles_are_answered() {
    let r = to_flow_response(profile(A, "k"));
    assert_eq!(r.flow_id, A);
    assert_eq!(r.key, "k");
    assert_eq!((r.parallelism, r.rate, r.period_secs), (2, 3, 4));
    let list = to_flow_list(vec![profile(B, "x"), profile(A, "y")]);
    let ids: Vec<Uuid> = list.flows.iter().map(|f| f.flow_id).collect();
    assert_eq!(ids, vec![B, A]);
}

#[test]
fn owner_of_a_lane() {
    let owner = |queue_id, flow_profile_id, group_member_id| {
        flow_lane_owner::<u8>(&FlowKeyQuery { queue_id, flow_profile_id, group_member_id })
    };
    assert_eq!(owner(Some(A), Some(B), Some(C)).unwrap(), C);
    assert_eq!(owner(Some(A), Some(B), None).unwrap(), B);
    assert_eq!(owner(Some(A), None, None).unwrap(), A);
    assert_eq!(owner(None, None, Some(C)).unwrap(), C);
    assert!(matches!(
        owner(None, None, None),
        Err(FlowApiError::BadRequest(m))
            if m == "queue_id, flow_id, or group_member_id query param required"
    ));
}

#[test]
fn limits_of_a_lane() {
    assert!(matches!(
        flow_limits_for_lane(Some(profile(A, "k"))),
        LaneLimits::Profile(p) if p.id == A
    ));
    assert!(matches!(flow_limits_for_lane(None), LaneLimits::QueueDefault));
}

#[test]
fn change_of_a_lane_is_answered() {
    assert!(matches!(lane_change_outcome::<u8>(true), Ok(204)));
    assert!(matches!(lane_change_outcome::<u8>(false), Err(FlowApiError::NotFound)));
}

#[test]
fn second_lookup_of_a_lane_answers() {
    assert_eq!(get_flow_step(LaneLookup::First, A, true), LaneAction::LookAgain);
    assert_eq!(get_flow_step(LaneLookup::First, A, false), LaneAction::Open);
    assert_eq!(get_flow_step(LaneLookup::Second, A, true), LaneAction::Answer(A));
    assert_eq!(get_flow_step(LaneLookup::Second, A, false), LaneAction::Refuse);
    let second = Some(LaneLookup::Second);
    assert_eq!(get_flow_next(LaneLookup::First, A, true), (second, LaneAction::LookAgain));
    assert_eq!(get_flow_next(LaneLookup::First, A, false), (second, LaneAction::Open));
    assert_eq!(get_flow_next(LaneLookup::Second, A, true), (None, LaneAction::Answer(A)));
    assert_eq!(get_flow_next(LaneLookup::Second, A, false), (None, LaneAction::Refuse));
}

#[test]
fn inline_limits_have_a_floor() {
    let l = inline_flow_limits(&spec(None, None, None));
    assert_eq!((l.parallelism, l.rate, l.period_secs), (1, 0, 1));
    let l = inline_flow_limits(&spec(Some(0), Some(0), Some(0)));
    assert_eq!((l.parallelism, l.rate, l.period_secs), (1, 0, 1));
    let l = inline_flow_limits(&spec(Some(7), Some(8), Some(9)));
    assert_eq!((l.parallelism, l.rate, l.period_secs), (7, 8, 9));
}

#[test]
fn inline_limits_get_the_key_of_the_request() {
    let s = inline_flow_spec(spec(Some(1), None, Some(2)), "k".to_string());
    assert_eq!(s.key.as_deref(), Some("k"));
    assert_eq!((s.parallelism, s.rate, s.period_secs), (Some(1), None, Some(2)));
    let own = FlowSpec { key: Some("own".to_string()), ..spec(None, Some(1), None) };
    let s = inline_flow_spec(own, "k".to_string());
    assert_eq!(s.key.as_deref(), Some("own"));
    assert_eq!(s.rate, Some(1));
}
