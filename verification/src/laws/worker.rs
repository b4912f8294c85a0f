//! Laws on the schedule worker.

use crate::ids::Uuid;
use crate::worker::{
    fires_schedule, worker_step, EventView, PhaseView, WorkerAction, WorkerEvent, WorkerPhase,
};
use vstd::prelude::*;

verus! {

/// A node outside a cluster fires what is due; in one, exactly the scheduler's leader does.
pub proof fn law_leader_fires(alone: bool, leads: bool, follows: bool)
    requires
        call_ensures(fires_schedule, (None::<bool>,), alone),
        call_ensures(fires_schedule, (Some(true),), leads),
        call_ensures(fires_schedule, (Some(false),), follows),
    ensures
        alone,
        leads,
        !follows,
{
}

/// A tick starts with the clock where this node fires what is due, and ends at once where it does
/// not.
pub proof fn law_tick_starts_with_the_clock<R>(
    cluster_leader: Option<bool>,
    fires: bool,
    res: (WorkerPhase<R>, WorkerAction<R>),
)
    requires
        call_ensures(fires_schedule, (cluster_leader,), fires),
        call_ensures(
            worker_step::<R>,
            (WorkerPhase::Idle, WorkerEvent::Tick { cluster_leader }),
            res,
        ),
    ensures
        fires ==> res.0 is ReadingClock && res.1 is ReadClock,
        !fires ==> res.0 is Idle && res.1 is Wait,
{
}

/// What is due is taken for the time that the clock said.
pub proof fn law_clock_is_passed_on<R>(now: i64, res: (WorkerPhase<R>, WorkerAction<R>))
    requires
        call_ensures(
            worker_step::<R>,
            (WorkerPhase::ReadingClock, WorkerEvent::Clock { now }),
            res,
        ),
    ensures
        res.0 == (WorkerPhase::<R>::TakingScheduled { now }),
        res.1 == (WorkerAction::<R>::TakeScheduled { now }),
{
}

/// Of the delayed publications that were due, the first is fired and the others are kept in their
/// order, the last in front. Where none was due, the recurring ones are taken for the same time.
pub proof fn law_first_delayed_is_fired<R>(
    now: i64,
    due: Vec<R>,
    res: (WorkerPhase<R>, WorkerAction<R>),
)
    requires
        call_ensures(
            worker_step::<R>,
            (WorkerPhase::TakingScheduled { now }, WorkerEvent::ScheduledDue(due)),
            res,
        ),
    ensures
        due@.len() == 0 ==> res.0 == (WorkerPhase::<R>::TakingCrons { now }) && res.1 == (
        WorkerAction::<R>::TakeCrons { now }),
        due@.len() > 0 ==> {
            &&& res.1 == (WorkerAction::Fire { cron_id: None, request: due@[0] })
            &&& res.0 matches WorkerPhase::FiringScheduled { now: kept, rest }
            &&& kept == now
            &&& rest@.len() == due@.len() - 1
            &&& forall|i: int|
                0 <= i < rest@.len() ==> #[trigger] rest@[i] == due@[due@.len() - 1 - i]
        },
{
    if due@.len() > 0 {
        if let WorkerPhase::FiringScheduled { now: _, rest } = res.0 {
            assert(rest@.reverse() == due@.skip(1));
            lemma_reversed(rest@, due@.skip(1));
        }
    }
}

/// Once a delayed publication was fired, the next is, until none is left; then the recurring ones
/// are taken, for the same time.
pub proof fn law_next_delayed_is_fired<R>(
    now: i64,
    rest: Vec<R>,
    res: (WorkerPhase<R>, WorkerAction<R>),
)
    requires
        call_ensures(
            worker_step::<R>,
            (WorkerPhase::FiringScheduled { now, rest }, WorkerEvent::Fired),
            res,
        ),
    ensures
        rest@.len() == 0 ==> res.0 == (WorkerPhase::<R>::TakingCrons { now }) && res.1 == (
        WorkerAction::<R>::TakeCrons { now }),
        rest@.len() > 0 ==> {
            &&& res.1 == (WorkerAction::Fire { cron_id: None, request: rest@.last() })
            &&& res.0 matches WorkerPhase::FiringScheduled { now: kept, rest: left }
            &&& kept == now
            &&& left@ == rest@.drop_last()
        },
{
    if rest@.len() > 0 {
        if let WorkerPhase::FiringScheduled { now: _, rest: left } = res.0 {
            lemma_reversed(left@, rest@.reverse().skip(1));
            assert(left@ =~= rest@.drop_last());
        }
    }
}

/// Of the recurring publications that were due, the first is fired as a run of its job and the
/// others are kept in their order, the last in front. Where none was due, the tick ends.
pub proof fn law_first_recurring_is_fired<R>(
    now: i64,
    jobs: Vec<(Uuid, R)>,
    res: (WorkerPhase<R>, WorkerAction<R>),
)
    requires
        call_ensures(
            worker_step::<R>,
            (WorkerPhase::TakingCrons { now }, WorkerEvent::CronsDue(jobs)),
            res,
        ),
    ensures
        jobs@.len() == 0 ==> res.0 is Idle && res.1 is Wait,
        jobs@.len() > 0 ==> {
            &&& res.1 == (WorkerAction::Fire {
                cron_id: Some((jobs@[0]).0),
                request: (jobs@[0]).1,
            })
            &&& res.0 matches WorkerPhase::FiringCrons { rest }
            &&& rest@.len() == jobs@.len() - 1
            &&& forall|i: int|
                0 <= i < rest@.len() ==> #[trigger] rest@[i] == jobs@[jobs@.len() - 1 - i]
        },
{
    if jobs@.len() > 0 {
        if let WorkerPhase::FiringCrons { rest } = res.0 {
            lemma_reversed(rest@, jobs@.skip(1));
        }
    }
}

/// Once a recurring publication was fired, the next is, as a run of its job, until none is left;
/// then the tick ends.
pub proof fn law_next_recurring_is_fired<R>(
    rest: Vec<(Uuid, R)>,
    res: (WorkerPhase<R>, WorkerAction<R>),
)
    requires
        call_ensures(
            worker_step::<R>,
            (WorkerPhase::FiringCrons { rest }, WorkerEvent::Fired),
            res,
        ),
    ensures
        rest@.len() == 0 ==> res.0 is Idle && res.1 is Wait,
        rest@.len() > 0 ==> {
            &&& res.1 == (WorkerAction::Fire {
                cron_id: Some(rest@.last().0),
                request: rest@.last().1,
            })
            &&& res.0 matches WorkerPhase::FiringCrons { rest: left }
            &&& left@ == rest@.drop_last()
        },
{
    if rest@.len() > 0 {
        if let WorkerPhase::FiringCrons { rest: left } = res.0 {
            lemma_reversed(left@, rest@.reverse().skip(1));
            assert(left@ =~= rest@.drop_last());
        }
    }
}

/// The worker goes on exactly where it is told what it waits for; anything else ends the tick.
pub proof fn law_other_events_end_the_tick<R>(
    phase: WorkerPhase<R>,
    event: WorkerEvent<R>,
    res: (WorkerPhase<R>, WorkerAction<R>),
)
    requires
        call_ensures(worker_step::<R>, (phase, event), res),
        phase is Idle ==> !(event is Tick),
        phase is ReadingClock ==> !(event is Clock),
        phase is TakingScheduled ==> !(event is ScheduledDue),
        phase is FiringScheduled ==> !(event is Fired),
        phase is TakingCrons ==> !(event is CronsDue),
        phase is FiringCrons ==> !(event is Fired),
    ensures
        res.0 is Idle,
        res.1 is Wait,
{
}

/// Delayed publications that are due are fired one by one, each once and in their order, and the
/// recurring ones are taken after the last of them, for the same time.
pub proof fn law_delayed_are_fired_in_order<R>(
    now: i64,
    due: Vec<R>,
    phases: Seq<WorkerPhase<R>>,
    actions: Seq<WorkerAction<R>>,
    i: int,
)
    requires
        phases.len() == due@.len() + 2,
        actions.len() == due@.len() + 1,
        phases[0] == (WorkerPhase::<R>::TakingScheduled { now }),
        call_ensures(
            worker_step::<R>,
            (phases[0], WorkerEvent::ScheduledDue(due)),
            (phases[1], actions[0]),
        ),
        forall|k: int|
            1 <= k <= due@.len() ==> #[trigger] call_ensures(
                worker_step::<R>,
                (phases[k], WorkerEvent::Fired),
                (phases[k + 1], actions[k]),
            ),
        0 <= i < due@.len(),
    ensures
        actions[i] == (WorkerAction::Fire { cron_id: None, request: due@[i] }),
        actions[due@.len() as int] == (WorkerAction::<R>::TakeCrons { now }),
{
    lemma_delayed_run(now, due, phases, actions, i);
    lemma_delayed_run(now, due, phases, actions, due@.len() - 1);
    let n = due@.len() as int;
    assert(call_ensures(
        worker_step::<R>,
        (phases[n], WorkerEvent::Fired),
        (phases[n + 1], actions[n]),
    ));
}

/// Recurring publications that are due are fired one by one, each once, as a run of its job and in
/// their order, and the tick ends after the last of them.
pub proof fn law_recurring_are_fired_in_order<R>(
    now: i64,
    jobs: Vec<(Uuid, R)>,
    phases: Seq<WorkerPhase<R>>,
    actions: Seq<WorkerAction<R>>,
    i: int,
)
    requires
        phases.len() == jobs@.len() + 2,
        actions.len() == jobs@.len() + 1,
        phases[0] == (WorkerPhase::<R>::TakingCrons { now }),
        call_ensures(
            worker_step::<R>,
            (phases[0], WorkerEvent::CronsDue(jobs)),
            (phases[1], actions[0]),
        ),
        forall|k: int|
            1 <= k <= jobs@.len() ==> #[trigger] call_ensures(
                worker_step::<R>,
                (phases[k], WorkerEvent::Fired),
                (phases[k + 1], actions[k]),
            ),
        0 <= i < jobs@.len(),
    ensures
        actions[i] == (WorkerAction::Fire {
            cron_id: Some((jobs@[i]).0),
            request: (jobs@[i]).1,
        }),
        actions[jobs@.len() as int] is Wait,
        phases[(jobs@.len() + 1) as int] is Idle,
{
    lemma_recurring_run(now, jobs, phases, actions, i);
    lemma_recurring_run(now, jobs, phases, actions, jobs@.len() - 1);
    let n = jobs@.len() as int;
    assert(call_ensures(
        worker_step::<R>,
        (phases[n], WorkerEvent::Fired),
        (phases[n + 1], actions[n]),
    ));
}

proof fn lemma_reversed<T>(held: Seq<T>, order: Seq<T>)
    requires
        held.reverse() == order,
    ensures
        held.len() == order.len(),
        forall|i: int| 0 <= i < held.len() ==> #[trigger] held[i] == order[order.len() - 1 - i],
{
    assert forall|i: int| 0 <= i < held.len() implies #[trigger] held[i] == order[order.len() - 1
        - i] by {
        assert(held.reverse()[held.len() - 1 - i] == held[i]);
    }
}

proof fn lemma_delayed_run<R>(
    now: i64,
    due: Vec<R>,
    phases: Seq<WorkerPhase<R>>,
    actions: Seq<WorkerAction<R>>,
    i: int,
)
    requires
        phases[0] == (WorkerPhase::<R>::TakingScheduled { now }),
        call_ensures(
            worker_step::<R>,
            (phases[0], WorkerEvent::ScheduledDue(due)),
            (phases[1], actions[0]),
        ),
        forall|k: int|
            1 <= k <= due@.len() ==> #[trigger] call_ensures(
                worker_step::<R>,
                (phases[k], WorkerEvent::Fired),
                (phases[k + 1], actions[k]),
            ),
        0 <= i < due@.len(),
    ensures
        actions[i] == (WorkerAction::Fire { cron_id: None, request: due@[i] }),
        phases[i + 1]@ == (PhaseView::FiringScheduled { now, rest: due@.skip(i + 1) }),
    decreases i,
{
    if i > 0 {
        lemma_delayed_run(now, due, phases, actions, i - 1);
        assert(call_ensures(
            worker_step::<R>,
            (phases[i], WorkerEvent::Fired),
            (phases[i + 1], actions[i]),
        ));
        assert(WorkerEvent::<R>::Fired@ == EventView::<R>::Fired);
        assert(due@.skip(i).skip(1) =~= due@.skip(i + 1));
    }
}

proof fn lemma_recurring_run<R>(
    now: i64,
    jobs: Vec<(Uuid, R)>,
    phases: Seq<WorkerPhase<R>>,
    actions: Seq<WorkerAction<R>>,
    i: int,
)
    requires
        phases[0] == (WorkerPhase::<R>::TakingCrons { now }),
        call_ensures(
            worker_step::<R>,
            (phases[0], WorkerEvent::CronsDue(jobs)),
            (phases[1], actions[0]),
        ),
        forall|k: int|
            1 <= k <= jobs@.len() ==> #[trigger] call_ensures(
                worker_step::<R>,
                (phases[k], WorkerEvent::Fired),
                (phases[k + 1], actions[k]),
            ),
        0 <= i < jobs@.len(),
    ensures
        actions[i] == (WorkerAction::Fire {
            cron_id: Some((jobs@[i]).0),
            request: (jobs@[i]).1,
        }),
        phases[i + 1]@ == (PhaseView::FiringCrons { rest: jobs@.skip(i + 1) }),
    decreases i,
{
    if i > 0 {
        lemma_recurring_run(now, jobs, phases, actions, i - 1);
        assert(call_ensures(
            worker_step::<R>,
            (phases[i], WorkerEvent::Fired),
            (phases[i + 1], actions[i]),
        ));
        assert(jobs@.skip(i).skip(1) =~= jobs@.skip(i + 1));
    }
}

} // verus!
