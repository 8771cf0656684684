//! The scheduler: decides when a refresh cycle is requested and reacts to
//! cycle completion.
//!
//! At start the mode selector is dispatched once ([`plan_start`]): disabled
//! datasets get no task, change streams and continuous appends get a
//! long-running executor of their own, and the discrete modes enter the cycle
//! loop. The cycle loop waits on three wake sources — the scheduled timer, the
//! external trigger inlet, and the runner's completion outlet — and hands each
//! event to [`SchedulerState::step`], which says what to do: send a
//! start-request, fire the one-shot readiness signal, invalidate cached
//! results, re-arm the timer. The readiness signal fires on the first
//! successful completion only ([`lemma_ready_fires_once`]).

use vstd::prelude::*;

use crate::delay::compute_delay;
use crate::runner::CycleOutcome;

verus! {

/// The wake-source selection handed to the scheduler at start, tagged with
/// whether a discrete trigger inlet was supplied.
#[derive(Clone, Copy, Debug, PartialEq, Eq, Structural)]
pub enum AccelerationRefreshMode {
    Disabled,
    Full,
    Append { has_trigger: bool },
    Changes,
}

/// How the scheduler starts for a given mode selection.
#[derive(Clone, Copy, Debug, PartialEq, Eq, Structural)]
pub enum StartDecision {
    /// No task is created; the start call returns nothing.
    NoTask,
    /// Enter the cycle loop, driving the single-flight runner.
    CycleLoop,
    /// Hand off to the continuous streaming-append executor.
    StreamingAppend,
    /// Hand off to the change-stream executor.
    ChangesStream,
}

/// The start dispatch: disabled datasets get no task; change streams go to
/// their executor; append without a trigger inlet, or without a configured
/// time column, degrades to continuous streaming append (no discrete cycles);
/// everything else enters the cycle loop.
pub open spec fn spec_plan_start(
    mode: AccelerationRefreshMode,
    has_time_column: bool,
) -> StartDecision {
    match mode {
        AccelerationRefreshMode::Disabled => StartDecision::NoTask,
        AccelerationRefreshMode::Full => StartDecision::CycleLoop,
        AccelerationRefreshMode::Append { has_trigger } => {
            if has_trigger && has_time_column {
                StartDecision::CycleLoop
            } else {
                StartDecision::StreamingAppend
            }
        },
        AccelerationRefreshMode::Changes => StartDecision::ChangesStream,
    }
}

/// Decide once, at start, how the scheduler runs for this mode selection.
pub fn plan_start(mode: AccelerationRefreshMode, has_time_column: bool) -> (d: StartDecision)
    ensures
        d == spec_plan_start(mode, has_time_column),
{
    match mode {
        AccelerationRefreshMode::Disabled => StartDecision::NoTask,
        AccelerationRefreshMode::Full => StartDecision::CycleLoop,
        AccelerationRefreshMode::Append { has_trigger } => {
            if has_trigger && has_time_column {
                StartDecision::CycleLoop
            } else {
                StartDecision::StreamingAppend
            }
        },
        AccelerationRefreshMode::Changes => StartDecision::ChangesStream,
    }
}

/// An event one of the cycle loop's three wake sources delivers.
#[derive(Clone, Copy, Debug, PartialEq, Eq, Structural)]
pub enum SchedulerEvent {
    /// The scheduled timer fired.
    TimerFired,
    /// The external trigger inlet delivered a trigger.
    ExternalTrigger,
    /// The runner published a completed cycle's result.
    CycleCompleted { outcome: CycleOutcome },
}

/// What the cycle loop must do after handling one event.
#[derive(Clone, Copy, Debug, PartialEq, Eq, Structural)]
pub struct SchedulerDirective {
    /// Attempt a non-blocking send on the capacity-one start-request channel;
    /// when the channel is full the request is dropped, not queued.
    pub send_start_request: bool,
    /// Fire the one-shot readiness signal.
    pub fire_ready: bool,
    /// Invalidate cached results for the dataset (best effort; a failure is
    /// logged and never retried here).
    pub invalidate_cache: bool,
    /// Re-arm the timer with this delay, in milliseconds.
    pub rearm_delay: Option<u64>,
}

/// The cycle loop's state: the configured period and jitter, whether the
/// readiness signal has fired, and whether the timer is armed.
#[derive(Clone, Copy, Debug, PartialEq, Eq, Structural)]
pub struct SchedulerState {
    pub check_interval: Option<u64>,
    pub max_jitter: Option<u64>,
    pub ready_fired: bool,
    pub timer_armed: bool,
}

impl SchedulerState {
    /// A configured jitter is positive, and re-armed delays cannot overflow.
    pub open spec fn wf(self) -> bool {
        self.max_jitter matches Some(j) ==> j > 0 && (self.check_interval matches Some(ci)
            ==> ci + j <= u64::MAX)
    }

    /// The loop's state on entry: readiness not yet signalled, and the timer
    /// armed so that the first refresh starts at once (see
    /// [`Self::initial_delay`]).
    pub fn new(check_interval: Option<u64>, max_jitter: Option<u64>) -> (s: Self)
        ensures
            s == (SchedulerState { check_interval, max_jitter, ready_fired: false, timer_armed: true }),
    {
        SchedulerState { check_interval, max_jitter, ready_fired: false, timer_armed: true }
    }

    /// The delay before the first refresh: zero, plus the per-cycle jitter.
    pub fn initial_delay(&self) -> (delay: u64)
        requires
            self.wf(),
        ensures
            self.max_jitter is None ==> delay == 0,
            self.max_jitter matches Some(j) ==> delay < j,
    {
        compute_delay(0, self.max_jitter)
    }

    /// Handle one event of the cycle loop.
    ///
    /// A timer firing or an external trigger asks for a start-request. A
    /// completion fires the readiness signal if this is the first success,
    /// invalidates cached results on any success, and — success or failure —
    /// re-arms the timer with a fresh jittered delay if a period is
    /// configured.
    pub fn step(&mut self, event: SchedulerEvent) -> (d: SchedulerDirective)
        requires
            old(self).wf(),
        ensures
            final(self).wf(),
            *final(self) == spec_step(*old(self), event),
            d.send_start_request == spec_send_start(event),
            d.fire_ready == spec_fire_ready(*old(self), event),
            d.invalidate_cache == spec_invalidate(event),
            (match (event, old(self).check_interval) {
                (SchedulerEvent::CycleCompleted { .. }, Some(ci)) => {
                    &&& d.rearm_delay matches Some(delay)
                    &&& ci <= delay
                    &&& (old(self).max_jitter is None ==> delay == ci)
                    &&& (old(self).max_jitter matches Some(j) ==> delay < ci + j)
                },
                _ => d.rearm_delay is None,
            }),
    {
        match event {
            SchedulerEvent::TimerFired => {
                self.timer_armed = false;
                SchedulerDirective {
                    send_start_request: true,
                    fire_ready: false,
                    invalidate_cache: false,
                    rearm_delay: None,
                }
            },
            SchedulerEvent::ExternalTrigger => SchedulerDirective {
                send_start_request: true,
                fire_ready: false,
                invalidate_cache: false,
                rearm_delay: None,
            },
            SchedulerEvent::CycleCompleted { outcome } => {
                let success = match outcome {
                    CycleOutcome::Success => true,
                    CycleOutcome::Failure => false,
                };
                let fire_ready = success && !self.ready_fired;
                if success {
                    self.ready_fired = true;
                }
                let rearm_delay = match self.check_interval {
                    Some(ci) => Some(compute_delay(ci, self.max_jitter)),
                    None => None,
                };
                self.timer_armed = match rearm_delay {
                    Some(_) => true,
                    None => false,
                };
                SchedulerDirective {
                    send_start_request: false,
                    fire_ready,
                    invalidate_cache: success,
                    rearm_delay,
                }
            },
        }
    }
}

/// A completion event that reports success.
pub open spec fn is_success(event: SchedulerEvent) -> bool {
    event matches SchedulerEvent::CycleCompleted { outcome } && outcome is Success
}

/// Timer firings and external triggers ask for a start-request.
pub open spec fn spec_send_start(event: SchedulerEvent) -> bool {
    event is TimerFired || event is ExternalTrigger
}

/// The readiness signal fires on a successful completion when it has not
/// fired before.
pub open spec fn spec_fire_ready(s: SchedulerState, event: SchedulerEvent) -> bool {
    is_success(event) && !s.ready_fired
}

/// Cached results are invalidated on every successful completion.
pub open spec fn spec_invalidate(event: SchedulerEvent) -> bool {
    is_success(event)
}

/// The state after one event. The timer is disarmed when it fires and
/// re-armed by a completion exactly when a period is configured; the
/// readiness flag latches on the first success.
pub open spec fn spec_step(s: SchedulerState, event: SchedulerEvent) -> SchedulerState {
    match event {
        SchedulerEvent::TimerFired => SchedulerState { timer_armed: false, ..s },
        SchedulerEvent::ExternalTrigger => s,
        SchedulerEvent::CycleCompleted { outcome } => SchedulerState {
            ready_fired: s.ready_fired || outcome is Success,
            timer_armed: s.check_interval is Some,
            ..s
        },
    }
}

/// The state after a sequence of events, handled in order.
pub open spec fn state_after(s: SchedulerState, events: Seq<SchedulerEvent>) -> SchedulerState
    decreases events.len(),
{
    if events.len() == 0 {
        s
    } else {
        spec_step(state_after(s, events.drop_last()), events.last())
    }
}

/// Some event of the sequence is a successful completion.
pub open spec fn has_success(events: Seq<SchedulerEvent>) -> bool {
    exists|i: int| 0 <= i < events.len() && is_success(events[i])
}

/// The readiness flag is set after a sequence of events exactly when it was
/// set before, or some event was a successful completion.
pub proof fn lemma_ready_fired_iff_success_seen(s: SchedulerState, events: Seq<SchedulerEvent>)
    ensures
        state_after(s, events).ready_fired == (s.ready_fired || has_success(events)),
    decreases events.len(),
{
    if events.len() == 0 {
    } else {
        let prefix = events.drop_last();
        lemma_ready_fired_iff_success_seen(s, prefix);
        if has_success(prefix) {
            let i = choose|i: int| 0 <= i < prefix.len() && is_success(prefix[i]);
            assert(is_success(events[i]));
        }
        if is_success(events.last()) {
            assert(is_success(events[events.len() - 1]));
        }
        if has_success(events) && !is_success(events.last()) {
            let i = choose|i: int| 0 <= i < events.len() && is_success(events[i]);
            assert(is_success(prefix[i]));
        }
    }
}

/// Law: the one-shot readiness signal fires exactly on the first successful
/// completion. With readiness not yet signalled, the event at position `i`
/// fires the signal if and only if it is a successful completion and no
/// earlier event was one — so later successes, and failures at any point,
/// never fire it.
pub proof fn lemma_ready_fires_once(s: SchedulerState, events: Seq<SchedulerEvent>, i: int)
    requires
        !s.ready_fired,
        0 <= i < events.len(),
    ensures
        spec_fire_ready(state_after(s, events.subrange(0, i)), events[i]) <==> (is_success(
            events[i],
        ) && !has_success(events.subrange(0, i))),
{
    lemma_ready_fired_iff_success_seen(s, events.subrange(0, i));
}

/// Law: the readiness signal never fires twice. If the event at position `i`
/// fires it, no later event does.
pub proof fn lemma_ready_never_fires_twice(
    s: SchedulerState,
    events: Seq<SchedulerEvent>,
    i: int,
    j: int,
)
    requires
        !s.ready_fired,
        0 <= i < j < events.len(),
        spec_fire_ready(state_after(s, events.subrange(0, i)), events[i]),
    ensures
        !spec_fire_ready(state_after(s, events.subrange(0, j)), events[j]),
{
    lemma_ready_fires_once(s, events, i);
    assert(is_success(events.subrange(0, j)[i]));
    lemma_ready_fires_once(s, events, j);
}

} // verus!
