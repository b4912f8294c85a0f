//! The schedule worker: what it does next, tick by tick.
//!
//! A request whose time has come is carried without being read; `R` is its type.

use crate::ids::Uuid;
use vstd::prelude::*;

verus! {

/// How far a tick of the worker has come.
#[derive(Debug)]
pub enum WorkerPhase<R> {
    /// Waiting for a tick.
    Idle,
    /// Waiting for the clock.
    ReadingClock,
    /// Waiting for the delayed publications that are due at `now`.
    TakingScheduled {
        /// When the clock was read.
        now: i64,
    },
    /// Waiting for a delayed publication to be fired.
    FiringScheduled {
        /// When the clock was read.
        now: i64,
        /// Those still to be fired, the last first.
        rest: Vec<R>,
    },
    /// Waiting for the recurring publications that are due at `now`.
    TakingCrons {
        /// When the clock was read.
        now: i64,
    },
    /// Waiting for a recurring publication to be fired.
    FiringCrons {
        /// Those still to be fired, each with its job, the last first.
        rest: Vec<(Uuid, R)>,
    },
}

/// How far a tick of the worker has come, with what is still to be fired in its order.
pub enum PhaseView<R> {
    /// Waiting for a tick.
    Idle,
    /// Waiting for the clock.
    ReadingClock,
    /// Waiting for the delayed publications that are due at `now`.
    TakingScheduled {
        /// When the clock was read.
        now: i64,
    },
    /// Waiting for a delayed publication to be fired.
    FiringScheduled {
        /// When the clock was read.
        now: i64,
        /// Those still to be fired.
        rest: Seq<R>,
    },
    /// Waiting for the recurring publications that are due at `now`.
    TakingCrons {
        /// When the clock was read.
        now: i64,
    },
    /// Waiting for a recurring publication to be fired.
    FiringCrons {
        /// Those still to be fired, each with its job.
        rest: Seq<(Uuid, R)>,
    },
}

impl<R> View for WorkerPhase<R> {
    type V = PhaseView<R>;

    open spec fn view(&self) -> PhaseView<R> {
        match *self {
            WorkerPhase::Idle => PhaseView::Idle,
            WorkerPhase::ReadingClock => PhaseView::ReadingClock,
            WorkerPhase::TakingScheduled { now } => PhaseView::TakingScheduled { now },
            WorkerPhase::FiringScheduled { now, rest } => PhaseView::FiringScheduled {
                now,
                rest: rest@.reverse(),
            },
            WorkerPhase::TakingCrons { now } => PhaseView::TakingCrons { now },
            WorkerPhase::FiringCrons { rest } => PhaseView::FiringCrons { rest: rest@.reverse() },
        }
    }
}

/// What the worker is told.
#[derive(Debug)]
pub enum WorkerEvent<R> {
    /// A tick, with whether this node leads the scheduler of its cluster, where it is in one.
    Tick {
        /// Whether this node leads.
        cluster_leader: Option<bool>,
    },
    /// What the clock says.
    Clock {
        /// The time.
        now: i64,
    },
    /// The delayed publications that were due.
    ScheduledDue(Vec<R>),
    /// The recurring publications that were due, each with its job.
    CronsDue(Vec<(Uuid, R)>),
    /// The publication was fired.
    Fired,
}

/// What the worker is told, over the lists that come with it.
pub enum EventView<R> {
    /// A tick.
    Tick {
        /// Whether this node leads.
        cluster_leader: Option<bool>,
    },
    /// What the clock says.
    Clock {
        /// The time.
        now: i64,
    },
    /// The delayed publications that were due.
    ScheduledDue(Seq<R>),
    /// The recurring publications that were due, each with its job.
    CronsDue(Seq<(Uuid, R)>),
    /// The publication was fired.
    Fired,
}

impl<R> View for WorkerEvent<R> {
    type V = EventView<R>;

    open spec fn view(&self) -> EventView<R> {
        match *self {
            WorkerEvent::Tick { cluster_leader } => EventView::Tick { cluster_leader },
            WorkerEvent::Clock { now } => EventView::Clock { now },
            WorkerEvent::ScheduledDue(due) => EventView::ScheduledDue(due@),
            WorkerEvent::CronsDue(jobs) => EventView::CronsDue(jobs@),
            WorkerEvent::Fired => EventView::Fired,
        }
    }
}

/// What the worker does next.
#[derive(Debug)]
pub enum WorkerAction<R> {
    /// Wait for the next tick.
    Wait,
    /// Read the clock.
    ReadClock,
    /// Take the delayed publications that are due at `now` off the schedule.
    TakeScheduled {
        /// When the clock was read.
        now: i64,
    },
    /// Take the recurring publications that are due at `now`.
    TakeCrons {
        /// When the clock was read.
        now: i64,
    },
    /// Fire a publication.
    Fire {
        /// The job that it is a run of, where it recurs.
        cron_id: Option<Uuid>,
        /// The publication.
        request: R,
    },
}

/// Whether a node fires what is due: outside a cluster it does, and in one only the scheduler's
/// leader does.
pub open spec fn fires(cluster_leader: Option<bool>) -> bool {
    cluster_leader matches Some(leader) ==> leader
}

/// Whether this node fires what is due.
pub fn fires_schedule(cluster_leader: Option<bool>) -> (res: bool)
    ensures
        res == fires(cluster_leader),
{
    match cluster_leader {
        Some(leader) => leader,
        None => true,
    }
}

/// Fires the first of the delayed publications, or goes on to the recurring ones where there is
/// none left.
pub open spec fn next_scheduled<R>(now: i64, due: Seq<R>) -> (PhaseView<R>, WorkerAction<R>) {
    if due.len() == 0 {
        (PhaseView::TakingCrons { now }, WorkerAction::TakeCrons { now })
    } else {
        (
            PhaseView::FiringScheduled { now, rest: due.skip(1) },
            WorkerAction::Fire { cron_id: None, request: due[0] },
        )
    }
}

/// Fires the first of the recurring publications, or ends the tick where there is none left.
pub open spec fn next_cron<R>(jobs: Seq<(Uuid, R)>) -> (PhaseView<R>, WorkerAction<R>) {
    if jobs.len() == 0 {
        (PhaseView::Idle, WorkerAction::Wait)
    } else {
        (
            PhaseView::FiringCrons { rest: jobs.skip(1) },
            WorkerAction::Fire { cron_id: Some((jobs[0]).0), request: (jobs[0]).1 },
        )
    }
}

/// What the worker does next, and how far it has come then. An event that it does not wait for
/// ends the tick.
pub open spec fn next_step<R>(phase: PhaseView<R>, event: EventView<R>) -> (
    PhaseView<R>,
    WorkerAction<R>,
) {
    match (phase, event) {
        (PhaseView::Idle, EventView::Tick { cluster_leader }) => if fires(cluster_leader) {
            (PhaseView::ReadingClock, WorkerAction::ReadClock)
        } else {
            (PhaseView::Idle, WorkerAction::Wait)
        },
        (PhaseView::ReadingClock, EventView::Clock { now }) => (
            PhaseView::TakingScheduled { now },
            WorkerAction::TakeScheduled { now },
        ),
        (PhaseView::TakingScheduled { now }, EventView::ScheduledDue(due)) => next_scheduled(
            now,
            due,
        ),
        (PhaseView::FiringScheduled { now, rest }, EventView::Fired) => next_scheduled(now, rest),
        (PhaseView::TakingCrons { now: _ }, EventView::CronsDue(jobs)) => next_cron(jobs),
        (PhaseView::FiringCrons { rest }, EventView::Fired) => next_cron(rest),
        _ => (PhaseView::Idle, WorkerAction::Wait),
    }
}

/// A list in reverse.
fn reversed<T>(list: Vec<T>) -> (res: Vec<T>)
    ensures
        res@ == list@.reverse(),
{
    let ghost all = list@;
    let mut left: Vec<T> = list;
    let mut res: Vec<T> = Vec::new();
    while left.len() > 0
        invariant
            left@.len() + res@.len() == all.len(),
            left@ == all.take(left@.len() as int),
            forall|i: int| 0 <= i < res@.len() ==> #[trigger] res@[i] == all[all.len() - 1 - i],
        decreases left@.len(),
    {
        let ghost before = left@;
        if let Some(item) = left.pop() {
            proof {
                assert(item == all[before.len() - 1]);
                assert(left@ =~= all.take(before.len() - 1));
            }
            res.push(item);
        }
    }
    proof {
        assert(res@ =~= all.reverse());
    }
    res
}

/// Fires the next of the delayed publications, which are held in reverse.
fn fire_scheduled<R>(now: i64, rest: Vec<R>) -> (res: (WorkerPhase<R>, WorkerAction<R>))
    ensures
        (res.0@, res.1) == next_scheduled(now, rest@.reverse()),
{
    let ghost due = rest@.reverse();
    let mut rest: Vec<R> = rest;
    match rest.pop() {
        Some(request) => {
            proof {
                assert(rest@.reverse() =~= due.skip(1));
            }
            (
                WorkerPhase::FiringScheduled { now, rest },
                WorkerAction::Fire { cron_id: None, request },
            )
        },
        None => (WorkerPhase::TakingCrons { now }, WorkerAction::TakeCrons { now }),
    }
}

/// Fires the next of the recurring publications, which are held in reverse.
fn fire_cron<R>(rest: Vec<(Uuid, R)>) -> (res: (WorkerPhase<R>, WorkerAction<R>))
    ensures
        (res.0@, res.1) == next_cron(rest@.reverse()),
{
    let ghost jobs = rest@.reverse();
    let mut rest: Vec<(Uuid, R)> = rest;
    match rest.pop() {
        Some((id, request)) => {
            proof {
                assert(rest@.reverse() =~= jobs.skip(1));
            }
            (
                WorkerPhase::FiringCrons { rest },
                WorkerAction::Fire { cron_id: Some(id), request },
            )
        },
        None => (WorkerPhase::Idle, WorkerAction::Wait),
    }
}

/// What the worker does next, and how far it has come then.
pub fn worker_step<R>(phase: WorkerPhase<R>, event: WorkerEvent<R>) -> (res: (
    WorkerPhase<R>,
    WorkerAction<R>,
))
    ensures
        (res.0@, res.1) == next_step(phase@, event@),
{
    match (phase, event) {
        (WorkerPhase::Idle, WorkerEvent::Tick { cluster_leader }) => if fires_schedule(
            cluster_leader,
        ) {
            (WorkerPhase::ReadingClock, WorkerAction::ReadClock)
        } else {
            (WorkerPhase::Idle, WorkerAction::Wait)
        },
        (WorkerPhase::ReadingClock, WorkerEvent::Clock { now }) => (
            WorkerPhase::TakingScheduled { now },
            WorkerAction::TakeScheduled { now },
        ),
        (WorkerPhase::TakingScheduled { now }, WorkerEvent::ScheduledDue(due)) => {
            let rest: Vec<R> = reversed(due);
            proof {
                assert(rest@.reverse() =~= due@);
            }
            fire_scheduled(now, rest)
        },
        (WorkerPhase::FiringScheduled { now, rest }, WorkerEvent::Fired) => fire_scheduled(
            now,
            rest,
        ),
        (WorkerPhase::TakingCrons { now: _ }, WorkerEvent::CronsDue(jobs)) => {
            let rest: Vec<(Uuid, R)> = reversed(jobs);
            proof {
                assert(rest@.reverse() =~= jobs@);
            }
            fire_cron(rest)
        },
        (WorkerPhase::FiringCrons { rest }, WorkerEvent::Fired) => fire_cron(rest),
        _ => (WorkerPhase::Idle, WorkerAction::Wait),
    }
}

/// What a tick finds: whether this node leads, the time, and what is due then.
pub struct Surroundings<R> {
    /// Whether this node leads the scheduler of its cluster, where it is in one.
    pub cluster_leader: Option<bool>,
    /// What the clock says.
    pub now: i64,
    /// The delayed publications that are due.
    pub due: Seq<R>,
    /// The recurring publications that are due, each with its job.
    pub jobs: Seq<(Uuid, R)>,
}

/// What the worker is told once it has done something.
pub open spec fn told<R>(action: WorkerAction<R>, around: Surroundings<R>) -> EventView<R> {
    match action {
        WorkerAction::Wait => EventView::Tick { cluster_leader: around.cluster_leader },
        WorkerAction::ReadClock => EventView::Clock { now: around.now },
        WorkerAction::TakeScheduled { now: _ } => EventView::ScheduledDue(around.due),
        WorkerAction::TakeCrons { now: _ } => EventView::CronsDue(around.jobs),
        WorkerAction::Fire { cron_id: _, request: _ } => EventView::Fired,
    }
}

/// What the worker does from here to the end of the tick, in at most `steps` steps more.
pub open spec fn actions_from<R>(
    phase: PhaseView<R>,
    event: EventView<R>,
    around: Surroundings<R>,
    steps: nat,
) -> Seq<WorkerAction<R>>
    decreases steps,
{
    let (after, action) = next_step(phase, event);
    if action is Wait || steps == 0 {
        seq![action]
    } else {
        seq![action] + actions_from(after, told(action, around), around, (steps - 1) as nat)
    }
}

/// Each of the delayed publications fired once, in their order.
pub open spec fn fire_all<R>(due: Seq<R>) -> Seq<WorkerAction<R>> {
    Seq::new(due.len(), |i: int| WorkerAction::Fire { cron_id: None, request: due[i] })
}

/// Each of the recurring publications fired once, in their order.
pub open spec fn fire_all_crons<R>(jobs: Seq<(Uuid, R)>) -> Seq<WorkerAction<R>> {
    Seq::new(
        jobs.len(),
        |i: int| WorkerAction::Fire { cron_id: Some((jobs[i]).0), request: (jobs[i]).1 },
    )
}

/// What the worker does in a tick.
pub open spec fn tick_actions<R>(around: Surroundings<R>) -> Seq<WorkerAction<R>> {
    if fires(around.cluster_leader) {
        seq![WorkerAction::ReadClock, WorkerAction::TakeScheduled { now: around.now }] + fire_all(
            around.due,
        ) + seq![WorkerAction::TakeCrons { now: around.now }] + fire_all_crons(around.jobs) + seq![
            WorkerAction::Wait,
        ]
    } else {
        seq![WorkerAction::Wait]
    }
}

proof fn lemma_crons_are_fired<R>(
    phase: PhaseView<R>,
    event: EventView<R>,
    jobs: Seq<(Uuid, R)>,
    around: Surroundings<R>,
    steps: nat,
)
    requires
        next_step(phase, event) == next_cron(jobs),
        steps >= jobs.len(),
    ensures
        actions_from(phase, event, around, steps) == fire_all_crons(jobs).push(WorkerAction::Wait),
    decreases jobs.len(),
{
    if jobs.len() > 0 {
        let rest = jobs.skip(1);
        let (after, action) = next_cron(jobs);
        lemma_crons_are_fired(after, EventView::Fired, rest, around, (steps - 1) as nat);
        assert(seq![action] + fire_all_crons(rest).push(WorkerAction::Wait)
            =~= fire_all_crons(jobs).push(WorkerAction::Wait));
    } else {
        assert(fire_all_crons(jobs).push(WorkerAction::Wait) =~= seq![WorkerAction::<R>::Wait]);
    }
}

proof fn lemma_scheduled_are_fired<R>(
    phase: PhaseView<R>,
    event: EventView<R>,
    due: Seq<R>,
    around: Surroundings<R>,
    steps: nat,
)
    requires
        next_step(phase, event) == next_scheduled(around.now, due),
        steps >= due.len() + around.jobs.len() + 1,
    ensures
        actions_from(phase, event, around, steps) == fire_all(due) + seq![
            WorkerAction::TakeCrons { now: around.now },
        ] + fire_all_crons(around.jobs).push(WorkerAction::Wait),
    decreases due.len(),
{
    let end = seq![WorkerAction::TakeCrons { now: around.now }] + fire_all_crons(around.jobs).push(
        WorkerAction::Wait,
    );
    let (after, action) = next_scheduled(around.now, due);
    if due.len() > 0 {
        let rest = due.skip(1);
        lemma_scheduled_are_fired(after, EventView::Fired, rest, around, (steps - 1) as nat);
        assert(seq![action] + fire_all(rest) =~= fire_all(due));
        assert(seq![action] + (fire_all(rest) + end) =~= fire_all(due) + end);
        assert(fire_all(rest) + seq![WorkerAction::TakeCrons { now: around.now }] + fire_all_crons(
            around.jobs,
        ).push(WorkerAction::Wait) =~= fire_all(rest) + end);
    } else {
        lemma_crons_are_fired(
            after,
            told(action, around),
            around.jobs,
            around,
            (steps - 1) as nat,
        );
        assert(fire_all(due) + end =~= end);
    }
    assert(fire_all(due) + seq![WorkerAction::TakeCrons { now: around.now }] + fire_all_crons(
        around.jobs,
    ).push(WorkerAction::Wait) =~= fire_all(due) + end);
}

/// In a tick a node that does not fire takes and fires nothing. Any other fires each delayed
/// publication that is due once, in their order, and only then takes the recurring ones and fires
/// each once, in their order; both are taken for one reading of the clock.
pub proof fn law_tick_fires_each_once<R>(around: Surroundings<R>, steps: nat)
    requires
        steps >= around.due.len() + around.jobs.len() + 3,
    ensures
        actions_from(
            PhaseView::Idle,
            EventView::Tick { cluster_leader: around.cluster_leader },
            around,
            steps,
        ) == tick_actions(around),
{
    if fires(around.cluster_leader) {
        let taking = PhaseView::TakingScheduled { now: around.now };
        let due = EventView::ScheduledDue(around.due);
        lemma_scheduled_are_fired(taking, due, around.due, around, (steps - 2) as nat);
        reveal_with_fuel(actions_from, 3);
        let end = actions_from(taking, due, around, (steps - 2) as nat);
        assert(seq![WorkerAction::ReadClock] + (seq![
            WorkerAction::TakeScheduled { now: around.now },
        ] + end) =~= tick_actions(around));
    }
}

/// A tick that ends leaves the worker as it was before.
pub proof fn law_tick_ends_idle<R>(phase: PhaseView<R>, event: EventView<R>)
    ensures
        next_step(phase, event).1 is Wait ==> next_step(phase, event).0 == PhaseView::<R>::Idle,
{
}

} // verus!
