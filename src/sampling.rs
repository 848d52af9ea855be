//! The sampling tasks' decisions: the shared sampling interval, and the
//! per-task policy that counts consecutive failures and calls for recovery.
use vstd::prelude::*;

verus! {

/// Sampling interval used until another is set.
pub const DEFAULT_INTERVAL_MINUTES: u64 = 10;
/// Largest interval whose length in milliseconds fits in a `u64`.
pub const MAX_INTERVAL_MINUTES: u64 = 307445734561825;
/// Milliseconds in a minute.
pub const MS_PER_MINUTE: u64 = 60000;
/// Consecutive failures that trigger a recovery.
pub const FAILURE_THRESHOLD: u32 = 5;

/// The process-wide sampling interval.
#[derive(Clone, Copy, Debug, PartialEq, Eq, Structural)]
pub struct Config {
    pub interval_minutes: u64,
}

impl Config {
    pub open spec fn wf(&self) -> bool {
        self.interval_minutes <= MAX_INTERVAL_MINUTES
    }

    /// The default configuration: a ten-minute interval.
    pub fn new() -> (c: Config)
        ensures
            c.wf(),
            c.interval_minutes == DEFAULT_INTERVAL_MINUTES,
    {
        Config { interval_minutes: DEFAULT_INTERVAL_MINUTES }
    }

    /// Sets the interval, in minutes.
    pub fn set_interval(&mut self, minutes: u64)
        requires
            minutes <= MAX_INTERVAL_MINUTES,
        ensures
            final(self).wf(),
            final(self).interval_minutes == minutes,
    {
        self.interval_minutes = minutes;
    }

    /// The interval in milliseconds.
    pub fn interval_ms(&self) -> (r: u64)
        requires
            self.wf(),
        ensures
            r == self.interval_minutes * MS_PER_MINUTE,
    {
        self.interval_minutes * MS_PER_MINUTE
    }
}

/// The sensor that a sampling task drives; it decides the recovery action.
#[derive(Clone, Copy, Debug, PartialEq, Eq, Structural)]
pub enum SensorKind {
    /// Recovered by reconstructing the driver on the same bus.
    Pressure,
    /// Stateless between cycles: recovery only clears the failure count.
    Humidity,
}

/// Where a sampling task is in its lifecycle.
#[derive(Clone, Copy, Debug, PartialEq, Eq, Structural)]
pub enum TaskState {
    /// The driver is not constructed yet.
    Init,
    /// Reading, persisting and sleeping in a loop.
    Running,
    /// Driver construction failed: the task has ended.
    Stopped,
}

/// What a running task does after a read.
#[derive(Clone, Copy, Debug, PartialEq, Eq, Structural)]
pub enum TaskAction {
    /// The read succeeded: persist the reading.
    Persist,
    /// The read failed below the threshold: log it and go on.
    Retry,
    /// The threshold is reached: reconstruct the driver on the same bus.
    Reconstruct,
    /// The threshold is reached and the driver keeps no state: log it and go on.
    ClearFailures,
}

/// Whether an action is the recovery that the failure threshold triggers.
pub open spec fn is_recovery(a: TaskAction) -> bool {
    a == TaskAction::Reconstruct || a == TaskAction::ClearFailures
}

/// Failure count after a read, from the count before it.
pub open spec fn next_failures(failures: u32, ok: bool) -> u32 {
    if ok || failures + 1 >= FAILURE_THRESHOLD {
        0
    } else {
        (failures + 1) as u32
    }
}

/// The action after a read, from the count of failures before it.
pub open spec fn action_for(kind: SensorKind, failures: u32, ok: bool) -> TaskAction {
    if ok {
        TaskAction::Persist
    } else if failures + 1 < FAILURE_THRESHOLD {
        TaskAction::Retry
    } else if kind == SensorKind::Pressure {
        TaskAction::Reconstruct
    } else {
        TaskAction::ClearFailures
    }
}

/// The decision state of one sampling task.
#[derive(Clone, Copy, Debug, PartialEq, Eq, Structural)]
pub struct SamplingTask {
    pub kind: SensorKind,
    pub state: TaskState,
    pub failures: u32,
}

impl SamplingTask {
    /// The failure count stays below the threshold: reaching it always
    /// triggers a recovery and clears it.
    pub open spec fn wf(&self) -> bool {
        self.failures < FAILURE_THRESHOLD
    }

    /// A task for `kind` that has not constructed its driver yet.
    pub fn new(kind: SensorKind) -> (t: SamplingTask)
        ensures
            t.wf(),
            t.kind == kind,
            t.state == TaskState::Init,
            t.failures == 0,
    {
        SamplingTask { kind, state: TaskState::Init, failures: 0 }
    }

    /// Records whether driver construction succeeded: the task runs, or ends.
    /// Returns whether it runs.
    pub fn on_started(&mut self, ok: bool) -> (running: bool)
        requires
            old(self).wf(),
            old(self).state == TaskState::Init,
        ensures
            final(self).wf(),
            running == ok,
            final(self).state == if ok {
                TaskState::Running
            } else {
                TaskState::Stopped
            },
            final(self).kind == old(self).kind,
            final(self).failures == old(self).failures,
    {
        self.state = if ok {
            TaskState::Running
        } else {
            TaskState::Stopped
        };
        ok
    }

    /// Records the outcome of a read and returns what to do about it: a
    /// success clears the failure count, a failure adds one, and the failure
    /// that reaches the threshold calls for a recovery and clears the count,
    /// whatever the recovery's outcome will be.
    pub fn on_read(&mut self, ok: bool) -> (a: TaskAction)
        requires
            old(self).wf(),
            old(self).state == TaskState::Running,
        ensures
            final(self).wf(),
            a == action_for(old(self).kind, old(self).failures, ok),
            final(self).failures == next_failures(old(self).failures, ok),
            final(self).kind == old(self).kind,
            final(self).state == TaskState::Running,
    {
        if ok {
            self.failures = 0;
            return TaskAction::Persist;
        }
        if self.failures + 1 < FAILURE_THRESHOLD {
            self.failures = self.failures + 1;
            return TaskAction::Retry;
        }
        self.failures = 0;
        match self.kind {
            SensorKind::Pressure => TaskAction::Reconstruct,
            SensorKind::Humidity => TaskAction::ClearFailures,
        }
    }
}

/// From a clear count, four consecutive failures call for no recovery and
/// leave the count at four; the fifth calls for exactly one recovery and
/// clears the count.
pub proof fn lemma_fifth_failure_recovers(kind: SensorKind)
    ensures
        forall|f: u32| f < 4 ==> !is_recovery(#[trigger] action_for(kind, f, false)),
        next_failures(0, false) == 1,
        next_failures(1, false) == 2,
        next_failures(2, false) == 3,
        next_failures(3, false) == 4,
        is_recovery(action_for(kind, 4, false)),
        next_failures(4, false) == 0,
{
}

} // verus!
