//! Flow control: profiles that limit deliveries, and the lanes that they are applied to.

use crate::error::{FlowApiError, NO_CONTENT};
use crate::ids::Uuid;
use crate::text::view_of;
use vstd::prelude::*;

verus! {

/// How many deliveries run at once where a request does not say.
pub fn default_flow_parallelism() -> (res: u32)
    ensures
        res == 1,
{
    1
}

/// Over how many seconds a rate is counted where a request does not say.
pub fn default_flow_period() -> (res: u64)
    ensures
        res == 60,
{
    60
}

/// A request to set the limits of a flow lane.
#[derive(Debug)]
pub struct UpsertFlowControlRequest {
    /// How many deliveries run at once.
    pub parallelism: u32,
    /// How many deliveries start in a period.
    pub rate: u32,
    /// The period in seconds.
    pub period_secs: u64,
}

/// A request to create a flow profile.
#[derive(Debug)]
pub struct CreateFlowRequest {
    /// The profile's key.
    pub key: String,
    /// How many deliveries run at once.
    pub parallelism: u32,
    /// How many deliveries start in a period.
    pub rate: u32,
    /// The period in seconds.
    pub period_secs: u64,
}

/// Whose flow lane a request is about.
#[derive(Debug)]
pub struct FlowKeyQuery {
    /// A queue.
    pub queue_id: Option<Uuid>,
    /// A flow profile.
    pub flow_profile_id: Option<Uuid>,
    /// A group member.
    pub group_member_id: Option<Uuid>,
}

/// A request to pin limits of a flow lane.
#[derive(Debug)]
pub struct PinFlowRequest {
    /// How many deliveries run at once.
    pub parallelism: Option<u32>,
    /// How many deliveries start in a period.
    pub rate: Option<u32>,
    /// The period in seconds.
    pub period_secs: Option<u64>,
}

impl Default for PinFlowRequest {
    fn default() -> (res: Self)
        ensures
            res.parallelism is None && res.rate is None && res.period_secs is None,
    {
        PinFlowRequest { parallelism: None, rate: None, period_secs: None }
    }
}

/// A request to unpin limits of a flow lane.
#[derive(Debug)]
pub struct UnpinFlowRequest {
    /// Whether to unpin the parallelism.
    pub parallelism: bool,
    /// Whether to unpin the rate.
    pub rate: bool,
}

impl Default for UnpinFlowRequest {
    fn default() -> (res: Self)
        ensures
            !res.parallelism && !res.rate,
    {
        UnpinFlowRequest { parallelism: false, rate: false }
    }
}

/// Limits that a publish request may bring along.
#[derive(Debug)]
pub struct FlowSpec {
    /// The key of the profile.
    pub key: Option<String>,
    /// How many deliveries run at once.
    pub parallelism: Option<u32>,
    /// How many deliveries start in a period.
    pub rate: Option<u32>,
    /// The period in seconds.
    pub period_secs: Option<u64>,
}

/// A stored flow profile.
#[derive(Debug)]
pub struct FlowProfile {
    /// The profile's identifier.
    pub id: Uuid,
    /// The profile's key.
    pub key: String,
    /// How many deliveries run at once.
    pub parallelism: u32,
    /// How many deliveries start in a period.
    pub rate: u32,
    /// The period in seconds.
    pub period_secs: u64,
}

/// A flow profile as it is answered.
#[derive(Debug)]
pub struct FlowProfileResponse {
    /// The profile's identifier.
    pub flow_id: Uuid,
    /// The profile's key.
    pub key: String,
    /// How many deliveries run at once.
    pub parallelism: u32,
    /// How many deliveries start in a period.
    pub rate: u32,
    /// The period in seconds.
    pub period_secs: u64,
}

/// A listing of flow profiles.
#[derive(Debug)]
pub struct FlowListResponse {
    /// The profiles.
    pub flows: Vec<FlowProfileResponse>,
}

/// The profile that is answered for a stored one.
pub open spec fn flow_response_of(p: FlowProfile) -> FlowProfileResponse {
    FlowProfileResponse {
        flow_id: p.id,
        key: p.key,
        parallelism: p.parallelism,
        rate: p.rate,
        period_secs: p.period_secs,
    }
}

/// The answer for a stored profile.
pub fn to_flow_response(p: FlowProfile) -> (res: FlowProfileResponse)
    ensures
        res == flow_response_of(p),
{
    FlowProfileResponse {
        flow_id: p.id,
        key: p.key,
        parallelism: p.parallelism,
        rate: p.rate,
        period_secs: p.period_secs,
    }
}

/// The listing of stored profiles, in their order.
pub fn to_flow_list(profiles: Vec<FlowProfile>) -> (res: FlowListResponse)
    ensures
        res.flows@.len() == profiles@.len(),
        forall|i: int|
            0 <= i < profiles@.len() ==> #[trigger] res.flows@[i] == flow_response_of(profiles@[i]),
{
    let mut flows: Vec<FlowProfileResponse> = Vec::new();
    for p in it: profiles
        invariant
            it.seq() == profiles@,
            flows@.len() == it.index(),
            forall|i: int|
                0 <= i < flows@.len() ==> #[trigger] flows@[i] == flow_response_of(profiles@[i]),
    {
        flows.push(to_flow_response(p));
    }
    FlowListResponse { flows }
}

/// Whose lane a query means: a group member's before a profile's before a queue's.
pub open spec fn lane_owner(q: FlowKeyQuery) -> Option<Uuid> {
    match (q.group_member_id, q.flow_profile_id, q.queue_id) {
        (Some(member), _, _) => Some(member),
        (None, Some(profile), _) => Some(profile),
        (None, None, queue) => queue,
    }
}

/// Whose lane a query means. One that names nobody is refused.
pub fn flow_lane_owner<E>(q: &FlowKeyQuery) -> (res: Result<Uuid, FlowApiError<E>>)
    ensures
        match res {
            Ok(owner) => lane_owner(*q) == Some(owner),
            Err(FlowApiError::BadRequest(message)) => lane_owner(*q) is None && message@
                == "queue_id, flow_id, or group_member_id query param required"@,
            Err(_) => false,
        },
{
    if let Some(member) = q.group_member_id {
        return Ok(member);
    }
    if let Some(profile) = q.flow_profile_id {
        return Ok(profile);
    }
    match q.queue_id {
        Some(queue) => Ok(queue),
        None => Err(
            FlowApiError::BadRequest(
                "queue_id, flow_id, or group_member_id query param required".to_owned(),
            ),
        ),
    }
}

/// Where the limits of a lane come from.
#[derive(Debug)]
pub enum LaneLimits {
    /// From the profile with the lane's key.
    Profile(FlowProfile),
    /// From the defaults for a queue.
    QueueDefault,
}

/// Where the limits of a lane come from: from the profile with its key, where there is one.
pub fn flow_limits_for_lane(profile: Option<FlowProfile>) -> (res: LaneLimits)
    ensures
        res == match profile {
            Some(p) => LaneLimits::Profile(p),
            None => LaneLimits::QueueDefault,
        },
{
    match profile {
        Some(p) => LaneLimits::Profile(p),
        None => LaneLimits::QueueDefault,
    }
}

/// How a pause, a resumption, a reset or a change of pins is answered, by whether the lane was
/// there to be changed.
pub fn lane_change_outcome<E>(changed: bool) -> (res: Result<u16, FlowApiError<E>>)
    ensures
        res == (if changed {
            Ok::<u16, FlowApiError<E>>(NO_CONTENT)
        } else {
            Err::<u16, FlowApiError<E>>(FlowApiError::NotFound)
        }),
{
    if changed {
        Ok(NO_CONTENT)
    } else {
        Err(FlowApiError::NotFound)
    }
}

/// How far the answer to a question about a lane has come.
#[derive(Debug, Clone, Copy, PartialEq, Eq, Structural)]
pub enum LaneLookup {
    /// The lane was looked up for the first time.
    First,
    /// The lane was looked up again.
    Second,
}

/// What to do next about a question about a lane.
#[derive(Debug, Clone, Copy, PartialEq, Eq, Structural)]
pub enum LaneAction {
    /// Open the lane, then look it up again.
    Open,
    /// Look the lane up again.
    LookAgain,
    /// Answer with what was found, under this owner.
    Answer(Uuid),
    /// Answer that there is no such lane.
    Refuse,
}

/// What to do once a lane was looked up. After the first lookup a lane that is not there is opened;
/// the second lookup decides how the question is answered.
pub open spec fn lane_action(stage: LaneLookup, owner: Uuid, found: bool) -> LaneAction {
    match stage {
        LaneLookup::First => if found {
            LaneAction::LookAgain
        } else {
            LaneAction::Open
        },
        LaneLookup::Second => if found {
            LaneAction::Answer(owner)
        } else {
            LaneAction::Refuse
        },
    }
}

/// What to do once a lane was looked up.
pub fn get_flow_step(stage: LaneLookup, owner: Uuid, found: bool) -> (res: LaneAction)
    ensures
        res == lane_action(stage, owner, found),
{
    match stage {
        LaneLookup::First => if found {
            LaneAction::LookAgain
        } else {
            LaneAction::Open
        },
        LaneLookup::Second => if found {
            LaneAction::Answer(owner)
        } else {
            LaneAction::Refuse
        },
    }
}

/// Which lookup comes next.
pub open spec fn next_lookup(stage: LaneLookup) -> Option<LaneLookup> {
    match stage {
        LaneLookup::First => Some(LaneLookup::Second),
        LaneLookup::Second => None,
    }
}

/// What to do once a lane was looked up, and which lookup comes next, where one does.
pub fn get_flow_next(stage: LaneLookup, owner: Uuid, found: bool) -> (res: (
    Option<LaneLookup>,
    LaneAction,
))
    ensures
        res.0 == next_lookup(stage),
        res.1 == lane_action(stage, owner, found),
{
    let next: Option<LaneLookup> = match stage {
        LaneLookup::First => Some(LaneLookup::Second),
        LaneLookup::Second => None,
    };
    (next, get_flow_step(stage, owner, found))
}

/// The limits that the profile of a request's own flow is stored with.
#[derive(Debug)]
pub struct FlowLimits {
    /// How many deliveries run at once.
    pub parallelism: u32,
    /// How many deliveries start in a period.
    pub rate: u32,
    /// The period in seconds.
    pub period_secs: u64,
}

/// The limits that a request's own flow is stored with: at least one delivery at once, a rate of
/// 0 where none is given, and a period of at least a second.
pub fn inline_flow_limits(flow: &FlowSpec) -> (res: FlowLimits)
    ensures
        res.parallelism == match flow.parallelism {
            Some(n) => if n == 0 {
                1u32
            } else {
                n
            },
            None => 1u32,
        },
        res.rate == match flow.rate {
            Some(n) => n,
            None => 0u32,
        },
        res.period_secs == match flow.period_secs {
            Some(n) => if n == 0 {
                1u64
            } else {
                n
            },
            None => 1u64,
        },
{
    let parallelism: u32 = match flow.parallelism {
        Some(n) => n,
        None => 1,
    };
    let rate: u32 = match flow.rate {
        Some(n) => n,
        None => 0,
    };
    let period_secs: u64 = match flow.period_secs {
        Some(n) => n,
        None => 1,
    };
    FlowLimits {
        parallelism: if parallelism == 0 {
            1
        } else {
            parallelism
        },
        rate,
        period_secs: if period_secs == 0 {
            1
        } else {
            period_secs
        },
    }
}

/// The limits that a request carries once its profile is stored: those of the profile, under the
/// request's key where the profile's have none.
pub fn inline_flow_spec(profile: FlowSpec, key: String) -> (res: FlowSpec)
    ensures
        view_of(res.key) == Some(
            match profile.key {
                Some(own) => own@,
                None => key@,
            },
        ),
        res.parallelism == profile.parallelism,
        res.rate == profile.rate,
        res.period_secs == profile.period_secs,
{
    let key: String = match profile.key {
        Some(own) => own,
        None => key,
    };
    FlowSpec {
        key: Some(key),
        parallelism: profile.parallelism,
        rate: profile.rate,
        period_secs: profile.period_secs,
    }
}

/// A lane is looked up twice: the first lookup alone decides whether it is opened, which happens at
/// most once, and the second alone whether it is answered with.
pub proof fn law_second_lookup_answers(owner: Uuid, found: bool)
    ensures
        lane_action(LaneLookup::First, owner, found) == LaneAction::Open <==> !found,
        lane_action(LaneLookup::First, owner, found) == LaneAction::LookAgain <==> found,
        lane_action(LaneLookup::Second, owner, found) == LaneAction::Answer(owner) <==> found,
        lane_action(LaneLookup::Second, owner, found) == LaneAction::Refuse <==> !found,
        next_lookup(LaneLookup::First) == Some(LaneLookup::Second),
        next_lookup(LaneLookup::Second) is None,
{
}

} // verus!
