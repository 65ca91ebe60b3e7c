use vstd::prelude::*;

verus! {

/// Where a periodic loop stands between two events.
#[derive(Clone, Copy, Debug, PartialEq, Eq, Structural)]
pub enum LoopPhase {
    /// Not started yet.
    Idle,
    /// Turned off by a negative interval; it never runs its operation.
    Disabled,
    /// Sleeping until one full interval has elapsed.
    Waiting,
    /// The operation of the current tick is running.
    Running,
}

/// What the driver of a loop reports back to it.
#[derive(Clone, Copy, Debug, PartialEq, Eq, Structural)]
pub enum LoopEvent {
    /// The loop is asked to begin.
    Start,
    /// The requested sleep is over.
    IntervalElapsed,
    /// The operation of this tick has finished, successfully or not.
    OperationDone { ok: bool },
}

/// What the driver of a loop must do next.
#[derive(Clone, Copy, Debug, PartialEq, Eq, Structural)]
pub enum LoopAction {
    /// Leave the loop for good.
    Exit,
    /// Sleep this many seconds, then report `IntervalElapsed`.
    Wait { seconds: u64 },
    /// Run the operation once, then report `OperationDone`.
    Invoke,
    /// Nothing to do: the event did not fit the phase; keep waiting for the expected one.
    Ignore,
}

/// A fallible operation run on a fixed cadence for the whole life of the process.
/// A negative interval turns the loop off.
pub struct PeriodicLoop {
    pub interval_seconds: i64,
    pub phase: LoopPhase,
}

/// The transition of a loop with the given interval: the next phase and the action.
pub open spec fn loop_next(interval: i64, phase: LoopPhase, event: LoopEvent) -> (LoopPhase, LoopAction) {
    match (phase, event) {
        (LoopPhase::Idle, LoopEvent::Start) => if interval < 0 {
            (LoopPhase::Disabled, LoopAction::Exit)
        } else {
            (LoopPhase::Waiting, LoopAction::Wait { seconds: interval as u64 })
        },
        (LoopPhase::Disabled, _) => (LoopPhase::Disabled, LoopAction::Exit),
        (LoopPhase::Waiting, LoopEvent::IntervalElapsed) => (LoopPhase::Running, LoopAction::Invoke),
        (LoopPhase::Running, LoopEvent::OperationDone { .. }) => (
            LoopPhase::Waiting,
            LoopAction::Wait { seconds: interval as u64 },
        ),
        _ => (phase, LoopAction::Ignore),
    }
}

/// The actions a loop takes, from `phase`, on a sequence of events.
pub open spec fn loop_actions(interval: i64, phase: LoopPhase, events: Seq<LoopEvent>) -> Seq<LoopAction>
    decreases events.len(),
{
    if events.len() == 0 {
        Seq::empty()
    } else {
        let (p, a) = loop_next(interval, phase, events[0]);
        seq![a] + loop_actions(interval, p, events.drop_first())
    }
}

/// How many times the operation is run in a sequence of actions.
pub open spec fn invocations(actions: Seq<LoopAction>) -> nat
    decreases actions.len(),
{
    if actions.len() == 0 {
        0
    } else {
        (if actions[0] == LoopAction::Invoke { 1nat } else { 0nat }) + invocations(actions.drop_first())
    }
}

/// How many full intervals elapse in a sequence of events.
pub open spec fn elapsed_intervals(events: Seq<LoopEvent>) -> nat
    decreases events.len(),
{
    if events.len() == 0 {
        0
    } else {
        (if events[0] == LoopEvent::IntervalElapsed { 1nat } else { 0nat }) + elapsed_intervals(
            events.drop_first(),
        )
    }
}

/// The events of ticks whose operations end with the given outcomes, one after the other.
pub open spec fn ticks(outcomes: Seq<bool>) -> Seq<LoopEvent>
    decreases outcomes.len(),
{
    if outcomes.len() == 0 {
        Seq::empty()
    } else {
        seq![LoopEvent::IntervalElapsed, LoopEvent::OperationDone { ok: outcomes[0] }] + ticks(
            outcomes.drop_first(),
        )
    }
}

/// The three background jobs of the alert manager.
#[derive(Clone, Copy, Debug, PartialEq, Eq, Structural)]
pub enum JobKind {
    /// Triggers the evaluation of scheduled alerts.
    ScheduleAlerts,
    /// Removes completed scheduler jobs.
    CleanCompleted,
    /// Watches for scheduler jobs that timed out.
    WatchTimeouts,
}

/// The intervals of the background jobs, in seconds; a negative one turns its job off.
#[derive(Clone, Copy, Debug, PartialEq, Eq, Structural)]
pub struct SchedulerConfig {
    pub alert_schedule_interval: i64,
    pub scheduler_clean_interval: i64,
    pub scheduler_watch_interval: i64,
}

/// The configured interval of a job.
pub open spec fn interval_of(cfg: SchedulerConfig, kind: JobKind) -> i64 {
    match kind {
        JobKind::ScheduleAlerts => cfg.alert_schedule_interval,
        JobKind::CleanCompleted => cfg.scheduler_clean_interval,
        JobKind::WatchTimeouts => cfg.scheduler_watch_interval,
    }
}

impl SchedulerConfig {
    /// The configured interval of a job.
    pub fn interval_for(&self, kind: JobKind) -> (r: i64)
        ensures
            r == interval_of(*self, kind),
    {
        match kind {
            JobKind::ScheduleAlerts => self.alert_schedule_interval,
            JobKind::CleanCompleted => self.scheduler_clean_interval,
            JobKind::WatchTimeouts => self.scheduler_watch_interval,
        }
    }
}

impl PeriodicLoop {
    /// A loop that has not started yet.
    pub fn new(interval_seconds: i64) -> (r: PeriodicLoop)
        ensures
            r.interval_seconds == interval_seconds,
            r.phase == LoopPhase::Idle,
    {
        PeriodicLoop { interval_seconds, phase: LoopPhase::Idle }
    }

    /// The loop of one job, with its configured interval, not started yet.
    pub fn for_job(cfg: &SchedulerConfig, kind: JobKind) -> (r: PeriodicLoop)
        ensures
            r.interval_seconds == interval_of(*cfg, kind),
            r.phase == LoopPhase::Idle,
    {
        PeriodicLoop::new(cfg.interval_for(kind))
    }

    /// Takes one event and says what to do next.
    pub fn step(&mut self, event: LoopEvent) -> (action: LoopAction)
        ensures
            final(self).interval_seconds == old(self).interval_seconds,
            (final(self).phase, action) == loop_next(old(self).interval_seconds, old(self).phase, event),
    {
        let interval = self.interval_seconds;
        let (phase, action) = match (self.phase, event) {
            (LoopPhase::Idle, LoopEvent::Start) => if interval < 0 {
                (LoopPhase::Disabled, LoopAction::Exit)
            } else {
                (LoopPhase::Waiting, LoopAction::Wait { seconds: interval as u64 })
            },
            (LoopPhase::Disabled, _) => (LoopPhase::Disabled, LoopAction::Exit),
            (LoopPhase::Waiting, LoopEvent::IntervalElapsed) => (LoopPhase::Running, LoopAction::Invoke),
            (LoopPhase::Running, LoopEvent::OperationDone { .. }) => (
                LoopPhase::Waiting,
                LoopAction::Wait { seconds: interval as u64 },
            ),
            (p, _) => (p, LoopAction::Ignore),
        };
        self.phase = phase;
        action
    }
}

proof fn lemma_actions_len(interval: i64, phase: LoopPhase, events: Seq<LoopEvent>)
    ensures
        loop_actions(interval, phase, events).len() == events.len(),
    decreases events.len(),
{
    if events.len() > 0 {
        let (p, a) = loop_next(interval, phase, events[0]);
        lemma_actions_len(interval, p, events.drop_first());
    }
}

proof fn lemma_actions_unfold(interval: i64, phase: LoopPhase, events: Seq<LoopEvent>)
    requires
        events.len() > 0,
    ensures
        ({
            let (p, a) = loop_next(interval, phase, events[0]);
            let acts = loop_actions(interval, phase, events);
            &&& acts[0] == a
            &&& acts.drop_first() =~= loop_actions(interval, p, events.drop_first())
            &&& invocations(acts) == (if a == LoopAction::Invoke { 1nat } else { 0nat })
                + invocations(loop_actions(interval, p, events.drop_first()))
            &&& elapsed_intervals(events) == (if events[0] == LoopEvent::IntervalElapsed {
                1nat
            } else {
                0nat
            }) + elapsed_intervals(events.drop_first())
        }),
{
    let (p, a) = loop_next(interval, phase, events[0]);
    let acts = loop_actions(interval, phase, events);
    assert(acts.drop_first() =~= loop_actions(interval, p, events.drop_first()));
}

/// A disabled loop never runs its operation.
proof fn lemma_disabled_never_invokes(interval: i64, events: Seq<LoopEvent>)
    ensures
        invocations(loop_actions(interval, LoopPhase::Disabled, events)) == 0,
    decreases events.len(),
{
    if events.len() > 0 {
        lemma_actions_unfold(interval, LoopPhase::Disabled, events);
        lemma_disabled_never_invokes(interval, events.drop_first());
    }
}

/// A loop configured with a negative interval runs its operation zero times,
/// whatever events it is handed.
pub proof fn lemma_negative_interval_never_invokes(interval: i64, events: Seq<LoopEvent>)
    requires
        interval < 0,
    ensures
        invocations(loop_actions(interval, LoopPhase::Idle, events)) == 0,
    decreases events.len(),
{
    if events.len() > 0 {
        lemma_actions_unfold(interval, LoopPhase::Idle, events);
        let (p, a) = loop_next(interval, LoopPhase::Idle, events[0]);
        if p == LoopPhase::Disabled {
            lemma_disabled_never_invokes(interval, events.drop_first());
        } else {
            lemma_negative_interval_never_invokes(interval, events.drop_first());
        }
    }
}

/// The operation runs only when an interval has just elapsed.
proof fn lemma_invocations_bounded(interval: i64, phase: LoopPhase, events: Seq<LoopEvent>)
    ensures
        invocations(loop_actions(interval, phase, events)) <= elapsed_intervals(events),
    decreases events.len(),
{
    if events.len() > 0 {
        lemma_actions_unfold(interval, phase, events);
        let (p, a) = loop_next(interval, phase, events[0]);
        lemma_invocations_bounded(interval, p, events.drop_first());
    }
}

/// With a non-negative interval, the first thing a started loop does is sleep one full
/// interval, and over any sequence of events the operation runs at most once per
/// elapsed interval: never at tick zero.
pub proof fn lemma_first_invocation_after_interval(interval: i64, events: Seq<LoopEvent>)
    requires
        interval >= 0,
    ensures
        loop_next(interval, LoopPhase::Idle, LoopEvent::Start) == (
            LoopPhase::Waiting,
            LoopAction::Wait { seconds: interval as u64 },
        ),
        invocations(loop_actions(interval, LoopPhase::Idle, events)) <= elapsed_intervals(events),
        elapsed_intervals(events) == 0 ==> invocations(loop_actions(interval, LoopPhase::Idle, events))
            == 0,
{
    lemma_invocations_bounded(interval, LoopPhase::Idle, events);
}

/// A waiting loop runs its operation once per tick, whatever the outcomes, and never exits:
/// after each tick, failed or not, it sleeps one more interval.
pub proof fn lemma_ticks_continue_after_failure(interval: i64, outcomes: Seq<bool>)
    requires
        interval >= 0,
    ensures
        elapsed_intervals(ticks(outcomes)) == outcomes.len(),
        invocations(loop_actions(interval, LoopPhase::Waiting, ticks(outcomes))) == outcomes.len(),
        loop_actions(interval, LoopPhase::Waiting, ticks(outcomes)).len() == 2 * outcomes.len(),
        forall|i: int|
            0 <= i < 2 * outcomes.len() ==> {
                let a = #[trigger] loop_actions(interval, LoopPhase::Waiting, ticks(outcomes))[i];
                a == LoopAction::Invoke || a == (LoopAction::Wait { seconds: interval as u64 })
            },
    decreases outcomes.len(),
{
    if outcomes.len() > 0 {
        let rest = outcomes.drop_first();
        lemma_ticks_continue_after_failure(interval, rest);
        let ev = ticks(outcomes);
        let w = LoopAction::Wait { seconds: interval as u64 };
        assert(ev[0] == LoopEvent::IntervalElapsed);
        assert(ev.drop_first()[0] == (LoopEvent::OperationDone { ok: outcomes[0] }));
        assert(ev.drop_first().drop_first() =~= ticks(rest));
        lemma_actions_unfold(interval, LoopPhase::Waiting, ev);
        lemma_actions_unfold(interval, LoopPhase::Running, ev.drop_first());
        lemma_actions_len(interval, LoopPhase::Waiting, ticks(rest));
        let acts = loop_actions(interval, LoopPhase::Waiting, ev);
        let tail = loop_actions(interval, LoopPhase::Waiting, ticks(rest));
        assert(acts[0] == LoopAction::Invoke);
        assert(acts[1] == w);
        assert(acts.drop_first().drop_first() =~= tail);
        assert forall|i: int| 0 <= i < 2 * outcomes.len() implies {
            let x = #[trigger] acts[i];
            x == LoopAction::Invoke || x == (LoopAction::Wait { seconds: interval as u64 })
        } by {
            if i >= 2 {
                assert(acts[i] == acts.drop_first().drop_first()[i - 2]);
            }
        }
    }
}

} // verus!
