//! Laws on flow control.

use crate::error::{ErrorReply, FlowApiError};
use crate::flow::{
    default_flow_parallelism, default_flow_period, flow_lane_owner, flow_limits_for_lane,
    get_flow_next, get_flow_step, inline_flow_limits, inline_flow_spec, lane_change_outcome,
    to_flow_list, to_flow_response, FlowKeyQuery, FlowLimits, FlowListResponse, FlowProfile,
    FlowProfileResponse, FlowSpec, LaneAction, LaneLimits, LaneLookup, PinFlowRequest,
    UnpinFlowRequest,
};
use crate::ids::Uuid;
use vstd::prelude::*;

verus! {

/// Where a request does not say, one delivery runs at once and rates are counted over a minute; pins
/// and unpins are of nothing.
pub proof fn law_defaults(
    parallelism: u32,
    period_secs: u64,
    pin: PinFlowRequest,
    unpin: UnpinFlowRequest,
)
    requires
        call_ensures(default_flow_parallelism, (), parallelism),
        call_ensures(default_flow_period, (), period_secs),
        call_ensures(<PinFlowRequest as Default>::default, (), pin),
        call_ensures(<UnpinFlowRequest as Default>::default, (), unpin),
    ensures
        parallelism == 1,
        period_secs == 60,
        pin.parallelism is None,
        pin.rate is None,
        pin.period_secs is None,
        !unpin.parallelism,
        !unpin.rate,
{
}

/// A profile is answered as it is stored.
pub proof fn law_profile_is_answered_as_stored(p: FlowProfile, res: FlowProfileResponse)
    requires
        call_ensures(to_flow_response, (p,), res),
    ensures
        res.flow_id == p.id,
        res.key@ == p.key@,
        res.parallelism == p.parallelism,
        res.rate == p.rate,
        res.period_secs == p.period_secs,
{
}

/// Every stored profile is listed, in its place and as it would be answered alone.
pub proof fn law_listed_profiles_are_answered_alike(
    profiles: Vec<FlowProfile>,
    list: FlowListResponse,
    i: int,
    alone: FlowProfileResponse,
)
    requires
        call_ensures(to_flow_list, (profiles,), list),
        0 <= i < profiles@.len(),
        call_ensures(to_flow_response, (profiles@[i],), alone),
    ensures
        list.flows@.len() == profiles@.len(),
        list.flows@[i] == alone,
        list.flows@[i].flow_id == profiles@[i].id,
        list.flows@[i].key@ == profiles@[i].key@,
{
}

/// No profile is listed where none is stored.
pub proof fn law_empty_listing(profiles: Vec<FlowProfile>, list: FlowListResponse)
    requires
        profiles@.len() == 0,
        call_ensures(to_flow_list, (profiles,), list),
    ensures
        list.flows@.len() == 0,
{
}

/// A query means the lane of the group member that it names, else that of the profile, else that of
/// the queue. It is refused exactly where it names none, with a word on what is missing.
pub proof fn law_query_means_its_owner<E>(q: FlowKeyQuery, res: Result<Uuid, FlowApiError<E>>)
    requires
        call_ensures(flow_lane_owner::<E>, (&q,), res),
    ensures
        q.group_member_id matches Some(id) ==> res == Ok::<Uuid, FlowApiError<E>>(id),
        q.group_member_id is None ==> (q.flow_profile_id matches Some(id) ==> res == Ok::<
            Uuid,
            FlowApiError<E>,
        >(id)),
        q.group_member_id is None && q.flow_profile_id is None ==> (q.queue_id matches Some(id)
            ==> res == Ok::<Uuid, FlowApiError<E>>(id)),
        res is Err <==> q.group_member_id is None && q.flow_profile_id is None && q.queue_id is None,
        res matches Err(e) ==> (e matches FlowApiError::BadRequest(text) && text@
            == "queue_id, flow_id, or group_member_id query param required"@),
{
}

/// A lane takes its limits from the profile with its key, and the defaults exactly where there is
/// none.
pub proof fn law_profile_limits_its_lane(profile: Option<FlowProfile>, res: LaneLimits)
    requires
        call_ensures(flow_limits_for_lane, (profile,), res),
    ensures
        profile matches Some(p) ==> res == LaneLimits::Profile(p),
        profile is None <==> res is QueueDefault,
{
}

/// A change of a lane is answered without content where it took place, and as not found where there
/// was no lane.
pub proof fn law_change_is_answered<E>(changed: bool, res: Result<u16, FlowApiError<E>>)
    requires
        call_ensures(lane_change_outcome::<E>, (changed,), res),
    ensures
        changed ==> (res matches Ok(status) && status == 204),
        !changed ==> (res matches Err(e) && e is NotFound),
{
}

/// A question about a lane takes two lookups. A lane that the first does not find is opened; the
/// second decides, and answers under the owner that was asked for.
pub proof fn law_lane_is_looked_up_twice(
    owner: Uuid,
    found: bool,
    first: (Option<LaneLookup>, LaneAction),
    second: (Option<LaneLookup>, LaneAction),
)
    requires
        call_ensures(get_flow_next, (LaneLookup::First, owner, found), first),
        call_ensures(get_flow_next, (LaneLookup::Second, owner, found), second),
    ensures
        first.0 == Some(LaneLookup::Second),
        found ==> first.1 is LookAgain,
        !found ==> first.1 is Open,
        second.0 is None,
        found ==> (second.1 matches LaneAction::Answer(id) && id == owner),
        !found ==> second.1 is Refuse,
{
}

/// What to do once a lane was looked up does not depend on whether the next lookup is asked for.
pub proof fn law_step_is_that_of_the_question(
    stage: LaneLookup,
    owner: Uuid,
    found: bool,
    action: LaneAction,
    next: (Option<LaneLookup>, LaneAction),
)
    requires
        call_ensures(get_flow_step, (stage, owner, found), action),
        call_ensures(get_flow_next, (stage, owner, found), next),
    ensures
        next.1 == action,
{
}

/// A request's own limits are stored as they are given: where none is given, or none that would let
/// anything through, one delivery runs at once and a rate is counted over a second; where no rate is
/// given, it is 0.
pub proof fn law_own_limits_are_stored(flow: FlowSpec, res: FlowLimits)
    requires
        call_ensures(inline_flow_limits, (&flow,), res),
    ensures
        res.parallelism >= 1,
        flow.parallelism matches Some(n) ==> (n >= 1 ==> res.parallelism == n),
        flow.parallelism is None || flow.parallelism == Some(0u32) ==> res.parallelism == 1,
        flow.rate matches Some(n) ==> res.rate == n,
        flow.rate is None ==> res.rate == 0,
        res.period_secs >= 1,
        flow.period_secs matches Some(n) ==> (n >= 1 ==> res.period_secs == n),
        flow.period_secs is None || flow.period_secs == Some(0u64) ==> res.period_secs == 1,
{
}

/// A request carries the limits of its stored profile, and a key: that of the profile, or its own
/// where the profile has none.
pub proof fn law_stored_limits_are_carried(profile: FlowSpec, key: String, res: FlowSpec)
    requires
        call_ensures(inline_flow_spec, (profile, key), res),
    ensures
        res.key is Some,
        profile.key matches Some(own) ==> (res.key->0)@ == own@,
        profile.key is None ==> (res.key->0)@ == key@,
        res.parallelism == profile.parallelism,
        res.rate == profile.rate,
        res.period_secs == profile.period_secs,
{
}

/// A query that names nobody is answered as a bad request, and a change of a lane that is not there
/// as not found.
pub proof fn law_refusals_are_answered<E>(
    q: FlowKeyQuery,
    owner: Result<Uuid, FlowApiError<E>>,
    change: Result<u16, FlowApiError<E>>,
    to_owner: Result<ErrorReply, E>,
    to_change: Result<ErrorReply, E>,
)
    requires
        call_ensures(flow_lane_owner::<E>, (&q,), owner),
        owner is Err,
        call_ensures(FlowApiError::<E>::reply, (owner->Err_0,), to_owner),
        call_ensures(lane_change_outcome::<E>, (false,), change),
        call_ensures(FlowApiError::<E>::reply, (change->Err_0,), to_change),
    ensures
        to_owner matches Ok(reply) && reply.status == 400,
        to_change matches Ok(reply) && reply.status == 404,
{
}

} // verus!
