use memtrace::report::MemorySample;
use memtrace::sampling::{Action, Event, Phase, ProcessState, RunError, SamplingLoop};

fn command() -> Vec<String> {
    vec!["sleep".to_string(), "1".to_string(), "2".to_string()]
}

fn feed(l: &mut SamplingLoop, events: &[Event]) -> Vec<Action> {
    events
        .iter()
        .map(|e| {
            assert!(l.awaits(e));
            l.step(*e)
        })
        .collect()
}

fn mem(rss: u64) -> MemorySample {
    MemorySample { rss, vms: rss * 2, shared: 1 }
}

#[test]
fn empty_command_is_refused() {
    assert!(matches!(SamplingLoop::new(vec![], 100), Err(RunError::EmptyCommand)));
}

#[test]
fn program_and_arguments() {
    let l = SamplingLoop::new(command(), 100).unwrap();
    assert_eq!(l.program(), "sleep");
    assert_eq!(l.args(), vec!["1".to_string(), "2".to_string()]);
    assert_eq!(l.phase(), Phase::Spawning);
}

#[test]
fn spawn_failure_gives_no_report() {
    let mut l = SamplingLoop::new(command(), 100).unwrap();
    let acts = feed(&mut l, &[Event::SpawnFailed]);
    assert_eq!(acts, vec![Action::Finish]);
    assert!(!acts.contains(&Action::Reap));
    assert!(matches!(l.finish(), Err(RunError::Spawn)));
}

#[test]
fn death_before_first_poll_gives_empty_report() {
    let mut l = SamplingLoop::new(command(), 100).unwrap();
    let acts = feed(
        &mut l,
        &[
            Event::Spawned { now: 5 },
            Event::Status { state: ProcessState::Zombie, now: 9 },
            Event::Reaped,
        ],
    );
    assert_eq!(acts, vec![Action::QueryStatus, Action::Reap, Action::Finish]);
    let r = l.finish().unwrap();
    assert!(r.memory.is_empty());
    assert!(r.cpu.is_empty());
    assert_eq!((r.time_start, r.time_end), (5, 9));
    assert_eq!(r.mean_rss_memory(), None);
}

#[test]
fn full_run_reaps_once() {
    let mut l = SamplingLoop::new(command(), 250).unwrap();
    let acts = feed(
        &mut l,
        &[
            Event::Spawned { now: 0 },
            Event::Status { state: ProcessState::Running, now: 1 },
            Event::Sampled { memory: mem(100), cpu: 1000 },
            Event::Woke,
            Event::Status { state: ProcessState::Unknown, now: 2 },
            Event::Sampled { memory: mem(200), cpu: 2000 },
            Event::Woke,
            Event::Status { state: ProcessState::Dead, now: 3 },
            Event::Reaped,
        ],
    );
    assert_eq!(
        acts,
        vec![
            Action::QueryStatus,
            Action::TakeSample,
            Action::Sleep { millis: 250 },
            Action::QueryStatus,
            Action::TakeSample,
            Action::Sleep { millis: 250 },
            Action::QueryStatus,
            Action::Reap,
            Action::Finish,
        ]
    );
    assert_eq!(acts.iter().filter(|a| **a == Action::Reap).count(), 1);
    assert_eq!(l.phase(), Phase::Done);
    assert!(!l.awaits(&Event::Reaped));
    let r = l.finish().unwrap();
    assert_eq!(r.memory, vec![mem(100), mem(200)]);
    assert_eq!(r.cpu, vec![1000, 2000]);
    assert_eq!(r.mean_cpu_percentage(), Some(1500));
    assert_eq!(r.max_rss_memory(), Some(200));
    assert_eq!(r.duration_nanos(), 3);
}

#[test]
fn query_failure_still_reaps() {
    let mut l = SamplingLoop::new(command(), 10).unwrap();
    let acts = feed(
        &mut l,
        &[
            Event::Spawned { now: 0 },
            Event::Status { state: ProcessState::Running, now: 1 },
            Event::QueryFailed,
            Event::Reaped,
        ],
    );
    assert_eq!(acts, vec![Action::QueryStatus, Action::TakeSample, Action::Reap, Action::Finish]);
    assert!(matches!(l.finish(), Err(RunError::Query)));
}

#[test]
fn reap_failure_is_reported() {
    let mut l = SamplingLoop::new(command(), 10).unwrap();
    feed(
        &mut l,
        &[
            Event::Spawned { now: 0 },
            Event::Status { state: ProcessState::Dead, now: 1 },
            Event::ReapFailed,
        ],
    );
    assert!(matches!(l.finish(), Err(RunError::Reap)));
}

#[test]
fn query_error_outranks_reap_error() {
    let mut l = SamplingLoop::new(command(), 10).unwrap();
    feed(&mut l, &[Event::Spawned { now: 0 }, Event::QueryFailed, Event::ReapFailed]);
    assert!(matches!(l.finish(), Err(RunError::Query)));
}

#[test]
fn unexpected_events_are_not_awaited() {
    let l = SamplingLoop::new(command(), 10).unwrap();
    assert!(!l.awaits(&Event::Woke));
    assert!(!l.awaits(&Event::Reaped));
    assert!(l.awaits(&Event::Spawned { now: 0 }));
}
