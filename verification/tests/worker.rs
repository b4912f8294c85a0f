use bettermq::ids::Uuid;
use bettermq::worker::{fires_schedule, worker_step, WorkerAction, WorkerEvent, WorkerPhase};

const A: Uuid = Uuid { bits: 1 };
const B: Uuid = Uuid { bits: 2 };

/// What the worker does in one tick.
fn tick(
    cluster_leader: Option<bool>,
    clock: i64,
    due: &[&'static str],
    jobs: &[(Uuid, &'static str)],
) -> Vec<String> {
    let mut done = Vec::new();
    let (mut phase, mut action) =
        worker_step(WorkerPhase::Idle, WorkerEvent::Tick { cluster_leader });
    loop {
        done.push(format!("{action:?}"));
        let event = match action {
            WorkerAction::Wait => {
                assert!(matches!(phase, WorkerPhase::Idle));
                return done;
            }
            WorkerAction::ReadClock => WorkerEvent::Clock { now: clock },
            WorkerAction::TakeScheduled { .. } => WorkerEvent::ScheduledDue(due.to_vec()),
            WorkerAction::TakeCrons { .. } => WorkerEvent::CronsDue(jobs.to_vec()),
            WorkerAction::Fire { .. } => WorkerEvent::Fired,
        };
        (phase, action) = worker_step(phase, event);
    }
}

#[test]
fn only_the_leader_of_a_cluster_fires() {
    assert!(fires_schedule(None));
    assert!(fires_schedule(Some(true)));
    assert!(!fires_schedule(Some(false)));
    assert_eq!(tick(Some(false), 7, &["x"], &[(A, "y")]), vec!["Wait"]);
}

#[test]
fn tick_fires_each_once() {
    for leader in [None, Some(true)] {
        assert_eq!(
            tick(leader, 7, &["x", "y", "x"], &[(B, "p"), (A, "q")]),
            vec![
                "ReadClock",
                "TakeScheduled { now: 7 }",
                "Fire { cron_id: None, request: \"x\" }",
                "Fire { cron_id: None, request: \"y\" }",
                "Fire { cron_id: None, request: \"x\" }",
                "TakeCrons { now: 7 }",
                "Fire { cron_id: Some(Uuid { bits: 2 }), request: \"p\" }",
                "Fire { cron_id: Some(Uuid { bits: 1 }), request: \"q\" }",
                "Wait",
            ]
        );
    }
}

#[test]
fn tick_with_nothing_due() {
    assert_eq!(
        tick(None, -1, &[], &[]),
        vec!["ReadClock", "TakeScheduled { now: -1 }", "TakeCrons { now: -1 }", "Wait"]
    );
}

#[test]
fn event_that_is_not_waited_for_ends_the_tick() {
    let (phase, action) = worker_step::<u8>(WorkerPhase::ReadingClock, WorkerEvent::Fired);
    assert!(matches!(phase, WorkerPhase::Idle));
    assert!(matches!(action, WorkerAction::Wait));
}
