//! The decisions of a sampling run, as a state machine. The caller performs
//! each action it is handed (spawn the child, query its state, read its
//! figures, sleep, reap it) and reports back what happened as an event.

use vstd::prelude::*;

use crate::report::{MemorySample, Report};

verus! {

/// The state the operating system reports for the child.
#[derive(Clone, Copy, Debug, PartialEq, Eq, Structural)]
pub enum ProcessState {
    Running,
    Dead,
    Zombie,
    /// Any other state (sleeping, stopped, ...): the child is still there.
    Unknown,
}

/// Whether the child has terminated.
pub open spec fn is_terminal(s: ProcessState) -> bool {
    s == ProcessState::Dead || s == ProcessState::Zombie
}

/// Why a run produced no report.
#[derive(Clone, Copy, Debug, PartialEq, Eq, Structural)]
pub enum RunError {
    /// No command was given.
    EmptyCommand,
    /// The command could not be started.
    Spawn,
    /// Querying the child's state or figures failed.
    Query,
    /// Waiting for the child's exit failed.
    Reap,
}

/// Where a run stands, which is also what it waits for.
#[derive(Clone, Copy, Debug, PartialEq, Eq, Structural)]
pub enum Phase {
    /// Waiting for the outcome of the spawn.
    Spawning,
    /// Waiting for the child's state.
    Polling,
    /// Waiting for the child's figures.
    Sampling,
    /// Waiting for the end of the pause between observations.
    Sleeping,
    /// Waiting for the child to be reaped.
    Reaping,
    /// Finished: nothing more is awaited.
    Done,
}

/// What the caller observed after performing an action.
#[derive(Clone, Copy, Debug, PartialEq, Eq, Structural)]
pub enum Event {
    /// The child started; `now` is the clock reading taken just before.
    Spawned { now: u64 },
    SpawnFailed,
    /// The child's state, with the clock reading taken when it was read.
    Status { state: ProcessState, now: u64 },
    /// The child's memory figures and CPU usage in hundredths of a percent.
    Sampled { memory: MemorySample, cpu: u64 },
    Woke,
    QueryFailed,
    Reaped,
    ReapFailed,
}

/// What the caller is to do next.
#[derive(Clone, Copy, Debug, PartialEq, Eq, Structural)]
pub enum Action {
    QueryStatus,
    TakeSample,
    Sleep { millis: u64 },
    Reap,
    Finish,
}

/// The state of a run.
pub struct LoopView {
    pub phase: Phase,
    pub interval_ms: u64,
    pub time_start: u64,
    pub time_end: u64,
    pub records: Seq<(MemorySample, u64)>,
    pub error: Option<RunError>,
}

/// The events a run accepts in each phase.
pub open spec fn awaits(v: LoopView, e: Event) -> bool {
    match (v.phase, e) {
        (Phase::Spawning, Event::Spawned { .. }) => true,
        (Phase::Spawning, Event::SpawnFailed) => true,
        (Phase::Polling, Event::Status { .. }) => true,
        (Phase::Polling, Event::QueryFailed) => true,
        (Phase::Sampling, Event::Sampled { .. }) => true,
        (Phase::Sampling, Event::QueryFailed) => true,
        (Phase::Sleeping, Event::Woke) => true,
        (Phase::Reaping, Event::Reaped) => true,
        (Phase::Reaping, Event::ReapFailed) => true,
        _ => false,
    }
}

/// One transition: the next state and the action to perform. A terminated
/// child is reaped and never sampled again; a failed query ends the run
/// with an error, after the child is reaped.
pub open spec fn transition(v: LoopView, e: Event) -> (LoopView, Action) {
    match e {
        Event::Spawned { now } => (
            LoopView { phase: Phase::Polling, time_start: now, time_end: now, ..v },
            Action::QueryStatus,
        ),
        Event::SpawnFailed => (
            LoopView { phase: Phase::Done, error: Some(RunError::Spawn), ..v },
            Action::Finish,
        ),
        Event::Status { state, now } => if is_terminal(state) {
            (
                LoopView {
                    phase: Phase::Reaping,
                    time_end: if now >= v.time_start { now } else { v.time_start },
                    ..v
                },
                Action::Reap,
            )
        } else {
            (LoopView { phase: Phase::Sampling, ..v }, Action::TakeSample)
        },
        Event::Sampled { memory, cpu } => (
            LoopView { phase: Phase::Sleeping, records: v.records.push((memory, cpu)), ..v },
            Action::Sleep { millis: v.interval_ms },
        ),
        Event::Woke => (LoopView { phase: Phase::Polling, ..v }, Action::QueryStatus),
        Event::QueryFailed => (
            LoopView { phase: Phase::Reaping, error: Some(RunError::Query), ..v },
            Action::Reap,
        ),
        Event::Reaped => (LoopView { phase: Phase::Done, ..v }, Action::Finish),
        Event::ReapFailed => (
            LoopView {
                phase: Phase::Done,
                error: if v.error is Some { v.error } else { Some(RunError::Reap) },
                ..v
            },
            Action::Finish,
        ),
    }
}

/// The state reached and the actions handed out along a sequence of events;
/// the sequence is followed as long as each event is one the run awaits.
pub open spec fn run(v: LoopView, es: Seq<Event>) -> (LoopView, Seq<Action>)
    decreases es.len(),
{
    if es.len() == 0 || !awaits(v, es[0]) {
        (v, Seq::empty())
    } else {
        let (w, a) = transition(v, es[0]);
        let (z, acts) = run(w, es.drop_first());
        (z, seq![a] + acts)
    }
}

/// How many of the actions are reaps.
pub open spec fn reaps(acts: Seq<Action>) -> nat
    decreases acts.len(),
{
    if acts.len() == 0 {
        0
    } else {
        reaps(acts.drop_first()) + if acts[0] == Action::Reap { 1nat } else { 0nat }
    }
}

/// Reaps handed out before reaching this state: one once the run waits
/// for the reap or has ended after a successful spawn.
spec fn reaps_behind(v: LoopView) -> nat {
    if v.phase == Phase::Reaping || (v.phase == Phase::Done && v.error != Some(RunError::Spawn)) {
        1
    } else {
        0
    }
}

spec fn consistent(v: LoopView) -> bool {
    &&& v.phase != Phase::Done ==> v.error != Some(RunError::Spawn)
    &&& v.time_start <= v.time_end
}

proof fn lemma_run_counts_reaps(v: LoopView, es: Seq<Event>)
    requires
        consistent(v),
    ensures
        reaps_behind(v) + reaps(run(v, es).1) == reaps_behind(run(v, es).0),
        consistent(run(v, es).0),
    decreases es.len(),
{
    if es.len() > 0 && awaits(v, es[0]) {
        let (w, a) = transition(v, es[0]);
        lemma_run_counts_reaps(w, es.drop_first());
        let acts = run(w, es.drop_first()).1;
        assert((seq![a] + acts).drop_first() =~= acts);
    }
}

/// From its start, along any sequence of events it accepts, a run hands out
/// the reap of its child at most once: exactly once if the child was
/// spawned and the run has ended, never if the spawn failed. The run's end
/// time is never before its start time.
pub proof fn lemma_reaped_exactly_once(interval_ms: u64, es: Seq<Event>)
    ensures
        reaps(run(initial(interval_ms), es).1) <= 1,
        run(initial(interval_ms), es).0.phase == Phase::Done
            && run(initial(interval_ms), es).0.error != Some(RunError::Spawn)
            ==> reaps(run(initial(interval_ms), es).1) == 1,
        run(initial(interval_ms), es).0.error == Some(RunError::Spawn)
            ==> reaps(run(initial(interval_ms), es).1) == 0,
        run(initial(interval_ms), es).0.time_start <= run(initial(interval_ms), es).0.time_end,
{
    lemma_run_counts_reaps(initial(interval_ms), es);
}

/// A run that takes a sample only ever does so right after the child was
/// seen alive: every `TakeSample` follows a state that is not terminal.
pub proof fn lemma_sample_only_when_alive(v: LoopView, e: Event)
    requires
        awaits(v, e),
        transition(v, e).1 == Action::TakeSample,
    ensures
        e matches Event::Status { state, .. } && !is_terminal(state),
{
}

/// A sampling run of one command.
pub struct SamplingLoop {
    phase: Phase,
    interval_ms: u64,
    command: Vec<String>,
    time_start: u64,
    time_end: u64,
    records: Vec<(MemorySample, u64)>,
    error: Option<RunError>,
}

impl View for SamplingLoop {
    type V = LoopView;

    closed spec fn view(&self) -> LoopView {
        LoopView {
            phase: self.phase,
            interval_ms: self.interval_ms,
            time_start: self.time_start,
            time_end: self.time_end,
            records: self.records@,
            error: self.error,
        }
    }
}

/// The state of a run that has not yet started its child.
pub open spec fn initial(interval_ms: u64) -> LoopView {
    LoopView {
        phase: Phase::Spawning,
        interval_ms,
        time_start: 0,
        time_end: 0,
        records: Seq::empty(),
        error: None,
    }
}

/// The report, or the error, of a finished run.
pub open spec fn outcome(v: LoopView) -> Result<(u64, u64, Seq<(MemorySample, u64)>), RunError> {
    match v.error {
        Some(e) => Err(e),
        None => Ok((v.time_start, v.time_end, v.records)),
    }
}

impl SamplingLoop {
    /// A run never ends before it starts.
    pub closed spec fn wf(&self) -> bool {
        self.time_start <= self.time_end
    }

    pub closed spec fn command_spec(&self) -> Seq<String> {
        self.command@
    }

    /// A run of `command` (program, then arguments) that pauses
    /// `interval_ms` milliseconds between observations. It first awaits the
    /// outcome of spawning the command.
    pub fn new(command: Vec<String>, interval_ms: u64) -> (r: Result<Self, RunError>)
        ensures
            r is Err <==> command@.len() == 0,
            r matches Err(e) ==> e == RunError::EmptyCommand,
            r matches Ok(l) ==> l@ == initial(interval_ms) && l.command_spec() == command@ && l.wf(),
    {
        if command.len() == 0 {
            return Err(RunError::EmptyCommand);
        }
        let r = SamplingLoop {
            phase: Phase::Spawning,
            interval_ms,
            command,
            time_start: 0,
            time_end: 0,
            records: Vec::new(),
            error: None,
        };
        assert(r@.records =~= initial(interval_ms).records);
        Ok(r)
    }

    /// The program to start.
    pub fn program(&self) -> (r: &String)
        requires
            self.command_spec().len() > 0,
        ensures
            *r == self.command_spec()[0],
    {
        &self.command[0]
    }

    /// The arguments to start the program with.
    pub fn args(&self) -> (r: Vec<String>)
        requires
            self.command_spec().len() > 0,
        ensures
            r@ == self.command_spec().drop_first(),
    {
        let mut r: Vec<String> = Vec::new();
        let mut i: usize = 1;
        while i < self.command.len()
            invariant
                1 <= i <= self.command@.len(),
                r@ == self.command@.subrange(1, i as int),
            decreases self.command@.len() - i,
        {
            r.push(self.command[i].clone());
            i = i + 1;
            assert(r@ =~= self.command@.subrange(1, i as int));
        }
        assert(self.command@.subrange(1, i as int) =~= self.command@.drop_first());
        r
    }

    pub fn phase(&self) -> (r: Phase)
        ensures
            r == self@.phase,
    {
        self.phase
    }

    /// Whether the run accepts `event` in its current phase.
    pub fn awaits(&self, event: &Event) -> (r: bool)
        ensures
            r == awaits(self@, *event),
    {
        match (self.phase, event) {
            (Phase::Spawning, Event::Spawned { .. }) => true,
            (Phase::Spawning, Event::SpawnFailed) => true,
            (Phase::Polling, Event::Status { .. }) => true,
            (Phase::Polling, Event::QueryFailed) => true,
            (Phase::Sampling, Event::Sampled { .. }) => true,
            (Phase::Sampling, Event::QueryFailed) => true,
            (Phase::Sleeping, Event::Woke) => true,
            (Phase::Reaping, Event::Reaped) => true,
            (Phase::Reaping, Event::ReapFailed) => true,
            _ => false,
        }
    }

    /// Takes in what happened and says what to do next.
    pub fn step(&mut self, event: Event) -> (r: Action)
        requires
            old(self).wf(),
            awaits(old(self)@, event),
        ensures
            final(self).wf(),
            (final(self)@, r) == transition(old(self)@, event),
            final(self).command_spec() == old(self).command_spec(),
    {
        match event {
            Event::Spawned { now } => {
                self.phase = Phase::Polling;
                self.time_start = now;
                self.time_end = now;
                Action::QueryStatus
            },
            Event::SpawnFailed => {
                self.phase = Phase::Done;
                self.error = Some(RunError::Spawn);
                Action::Finish
            },
            Event::Status { state, now } => {
                if state == ProcessState::Dead || state == ProcessState::Zombie {
                    self.phase = Phase::Reaping;
                    self.time_end = if now >= self.time_start { now } else { self.time_start };
                    Action::Reap
                } else {
                    self.phase = Phase::Sampling;
                    Action::TakeSample
                }
            },
            Event::Sampled { memory, cpu } => {
                self.phase = Phase::Sleeping;
                self.records.push((memory, cpu));
                Action::Sleep { millis: self.interval_ms }
            },
            Event::Woke => {
                self.phase = Phase::Polling;
                Action::QueryStatus
            },
            Event::QueryFailed => {
                self.phase = Phase::Reaping;
                self.error = Some(RunError::Query);
                Action::Reap
            },
            Event::Reaped => {
                self.phase = Phase::Done;
                Action::Finish
            },
            Event::ReapFailed => {
                self.phase = Phase::Done;
                if self.error.is_none() {
                    self.error = Some(RunError::Reap);
                }
                Action::Finish
            },
        }
    }

    /// The report of a finished run, or the error that ended it.
    pub fn finish(self) -> (r: Result<Report, RunError>)
        requires
            self.wf(),
            self@.phase == Phase::Done,
        ensures
            outcome(self@) matches Err(e) ==> r == Err::<Report, RunError>(e),
            outcome(self@) matches Ok((s, t, recs)) ==> r matches Ok(rep) && rep.wf()
                && rep.time_start == s && rep.time_end == t
                && rep.memory@ == recs.map_values(|p: (MemorySample, u64)| p.0)
                && rep.cpu@ == recs.map_values(|p: (MemorySample, u64)| p.1),
    {
        match self.error {
            Some(e) => Err(e),
            None => Ok(Report::new(self.records, self.time_start, self.time_end)),
        }
    }
}

} // verus!
