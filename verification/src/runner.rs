//! The single-flight task runner: at most one merge cycle runs at a time per
//! dataset, and a start-request that arrives while a cycle is in flight
//! replaces that cycle outright — latest request wins, nothing is queued, and
//! the replaced cycle's result is never published.
//!
//! The runner is a state machine. The event loop that owns the channels and
//! the in-flight future drives it: it hands each received event to
//! [`RunnerState::step`] and performs the returned action (begin a cycle,
//! discarding any running one; or publish a completed cycle's result on the
//! completion outlet).

use vstd::prelude::*;

verus! {

/// The outcome of one completed merge cycle, as published on the completion
/// outlet. A cycle failure is reported, never raised: the runner goes on.
#[derive(Clone, Copy, Debug, PartialEq, Eq, Structural)]
pub enum CycleOutcome {
    Success,
    Failure,
}

/// What the runner's owner receives or observes: a start-request from the
/// trigger inlet, or the in-flight cycle's completion.
#[derive(Clone, Copy, Debug, PartialEq, Eq, Structural)]
pub enum RunnerEvent {
    StartRequest,
    CycleCompleted { outcome: CycleOutcome },
}

/// What the event loop must do after a step.
#[derive(Clone, Copy, Debug, PartialEq, Eq, Structural)]
pub enum RunnerAction {
    /// Begin executing the cycle with this identifier, dropping any cycle
    /// still in flight: its eventual result is never published.
    BeginCycle { cycle_id: u64 },
    /// Publish this cycle's result on the completion outlet.
    Publish { cycle_id: u64, outcome: CycleOutcome },
    /// Nothing to do (a completion arrived with no cycle in flight, which the
    /// composed loop never produces).
    Ignore,
}

/// The runner's state: the identifier of the cycle in flight, if any, and the
/// identifier the next cycle will get. Identifiers only distinguish cycles;
/// the type makes more than one in-flight cycle unrepresentable.
#[derive(Clone, Copy, Debug, PartialEq, Eq, Structural)]
pub struct RunnerState {
    pub in_flight: Option<u64>,
    pub next_cycle_id: u64,
}

impl RunnerState {
    /// Cycle identifiers are handed out in order, below the next one.
    pub open spec fn wf(self) -> bool {
        self.in_flight matches Some(id) ==> id < self.next_cycle_id
    }

    /// A runner with no cycle in flight and no cycle started yet.
    pub fn new() -> (s: Self)
        ensures
            s == (RunnerState { in_flight: None, next_cycle_id: 0 }),
    {
        RunnerState { in_flight: None, next_cycle_id: 0 }
    }

    /// Handle one event: a start-request begins a fresh cycle, replacing any
    /// in-flight one; a completion publishes the in-flight cycle's result.
    pub fn step(&mut self, event: RunnerEvent) -> (action: RunnerAction)
        requires
            old(self).wf(),
            old(self).next_cycle_id < u64::MAX,
        ensures
            final(self).wf(),
            (*final(self), action) == spec_step(*old(self), event),
    {
        match event {
            RunnerEvent::StartRequest => {
                let id = self.next_cycle_id;
                self.in_flight = Some(id);
                self.next_cycle_id = id + 1;
                RunnerAction::BeginCycle { cycle_id: id }
            },
            RunnerEvent::CycleCompleted { outcome } => {
                match self.in_flight {
                    Some(id) => {
                        self.in_flight = None;
                        RunnerAction::Publish { cycle_id: id, outcome }
                    },
                    None => RunnerAction::Ignore,
                }
            },
        }
    }
}

/// The runner's transition function: the state after the event, and the
/// action the event loop must perform.
pub open spec fn spec_step(s: RunnerState, event: RunnerEvent) -> (RunnerState, RunnerAction) {
    match event {
        RunnerEvent::StartRequest => (
            RunnerState { in_flight: Some(s.next_cycle_id), next_cycle_id: (s.next_cycle_id + 1) as u64 },
            RunnerAction::BeginCycle { cycle_id: s.next_cycle_id },
        ),
        RunnerEvent::CycleCompleted { outcome } => match s.in_flight {
            Some(id) => (
                RunnerState { in_flight: None, ..s },
                RunnerAction::Publish { cycle_id: id, outcome },
            ),
            None => (s, RunnerAction::Ignore),
        },
    }
}

/// The actions performed while handling a sequence of events in order.
pub open spec fn spec_run(s: RunnerState, events: Seq<RunnerEvent>) -> Seq<RunnerAction>
    decreases events.len(),
{
    if events.len() == 0 {
        Seq::empty()
    } else {
        let (s1, a) = spec_step(s, events[0]);
        seq![a] + spec_run(s1, events.subrange(1, events.len() as int))
    }
}

/// The identifiers of the cycles whose results a run of actions publishes,
/// in publication order.
pub open spec fn published_ids(actions: Seq<RunnerAction>) -> Seq<u64>
    decreases actions.len(),
{
    if actions.len() == 0 {
        Seq::empty()
    } else {
        let rest = published_ids(actions.subrange(1, actions.len() as int));
        match actions[0] {
            RunnerAction::Publish { cycle_id, .. } => seq![cycle_id] + rest,
            _ => rest,
        }
    }
}

/// Every cycle a trace publishes is either the one already in flight or one
/// begun during the trace, whose identifier is at least the next to be
/// handed out.
proof fn lemma_published_ids_bounded(s: RunnerState, events: Seq<RunnerEvent>)
    requires
        s.wf(),
        s.next_cycle_id + events.len() <= u64::MAX,
    ensures
        ({
            let ids = published_ids(spec_run(s, events));
            forall|k: int|
                0 <= k < ids.len() ==> ((s.in_flight matches Some(f) && #[trigger] ids[k] == f)
                    || ids[k] >= s.next_cycle_id)
        }),
    decreases events.len(),
{
    if events.len() == 0 {
    } else {
        let (s1, a) = spec_step(s, events[0]);
        let tail = events.subrange(1, events.len() as int);
        assert(s1.wf());
        lemma_published_ids_bounded(s1, tail);
        let run = spec_run(s, events);
        let rest_run = spec_run(s1, tail);
        assert(run == seq![a] + rest_run);
        assert(run.subrange(1, run.len() as int) =~= rest_run);
        let ids = published_ids(run);
        let rest = published_ids(rest_run);
        match a {
            RunnerAction::Publish { cycle_id, .. } => {
                assert(ids =~= seq![cycle_id] + rest);
            },
            _ => {
                assert(ids =~= rest);
            },
        }
        assert forall|k: int|
            0 <= k < ids.len() implies ((s.in_flight matches Some(f) && #[trigger] ids[k] == f)
            || ids[k] >= s.next_cycle_id) by {
            match a {
                RunnerAction::Publish { cycle_id, .. } => {
                    // Published from flight: the head is the in-flight cycle,
                    // and the tail's publishes all carry identifiers at least
                    // the unchanged next one.
                    if k > 0 {
                        assert(ids[k] == rest[k - 1]);
                        assert(s1.in_flight is None);
                        assert(rest[k - 1] >= s1.next_cycle_id);
                    }
                },
                _ => {
                    // Nothing published here: a begun cycle's identifier is
                    // the old next one, and later ones only grow.
                    assert(ids[k] == rest[k]);
                    assert((s1.in_flight matches Some(f) && rest[k] == f) || rest[k]
                        >= s1.next_cycle_id);
                },
            }
        }
    }
}

/// Law: a completed cycle's result is consumed exactly once — no trace of
/// events makes the runner publish the same cycle's result twice.
pub proof fn lemma_publish_at_most_once_per_cycle(s: RunnerState, events: Seq<RunnerEvent>)
    requires
        s.wf(),
        s.next_cycle_id + events.len() <= u64::MAX,
    ensures
        ({
            let ids = published_ids(spec_run(s, events));
            forall|i: int, j: int| 0 <= i < j < ids.len() ==> ids[i] != ids[j]
        }),
    decreases events.len(),
{
    if events.len() == 0 {
    } else {
        let (s1, a) = spec_step(s, events[0]);
        let tail = events.subrange(1, events.len() as int);
        assert(s1.wf());
        lemma_publish_at_most_once_per_cycle(s1, tail);
        lemma_published_ids_bounded(s1, tail);
        let run = spec_run(s, events);
        assert(run == seq![a] + spec_run(s1, tail));
        assert(run.subrange(1, run.len() as int) =~= spec_run(s1, tail));
        let ids = published_ids(run);
        let rest = published_ids(spec_run(s1, tail));
        match a {
            RunnerAction::Publish { cycle_id, .. } => {
                // The published cycle was in flight, so its identifier is
                // below every identifier still to be handed out, and the
                // in-flight slot is now empty: the tail publishes only
                // fresher cycles.
                assert(ids =~= seq![cycle_id] + rest);
                assert(s.in_flight == Some(cycle_id));
                assert(s1.in_flight is None);
                assert(forall|k: int| 0 <= k < rest.len() ==> rest[k] >= s1.next_cycle_id);
                assert(cycle_id < s.next_cycle_id);
            },
            _ => {
                assert(ids =~= rest);
            },
        }
    }
}

/// Law: latest request wins. From a runner with nothing in flight, two
/// start-requests followed by the cycle's completion begin two cycles,
/// publish exactly one result, and that result is the second cycle's — the
/// first cycle was replaced before it finished and is never published.
pub proof fn lemma_single_flight_latest_wins(s: RunnerState, outcome: CycleOutcome)
    requires
        s.wf(),
        s.in_flight is None,
        s.next_cycle_id + 2 <= u64::MAX,
    ensures
        ({
            let events = seq![
                RunnerEvent::StartRequest,
                RunnerEvent::StartRequest,
                RunnerEvent::CycleCompleted { outcome },
            ];
            let first = s.next_cycle_id;
            let second = (s.next_cycle_id + 1) as u64;
            spec_run(s, events) =~= seq![
                RunnerAction::BeginCycle { cycle_id: first },
                RunnerAction::BeginCycle { cycle_id: second },
                RunnerAction::Publish { cycle_id: second, outcome },
            ]
        }),
{
    let events = seq![
        RunnerEvent::StartRequest,
        RunnerEvent::StartRequest,
        RunnerEvent::CycleCompleted { outcome },
    ];
    let (s1, a1) = spec_step(s, events[0]);
    let (s2, a2) = spec_step(s1, events[1]);
    let (s3, a3) = spec_step(s2, events[2]);
    let tail1 = events.subrange(1, 3);
    let tail2 = tail1.subrange(1, tail1.len() as int);
    let tail3 = tail2.subrange(1, tail2.len() as int);
    assert(tail1[0] == events[1]);
    assert(tail2[0] == events[2]);
    assert(tail3.len() == 0);
    assert(spec_run(s3, tail3) =~= Seq::empty());
    assert(spec_run(s2, tail2) =~= seq![a3]);
    assert(spec_run(s1, tail1) =~= seq![a2, a3]);
    assert(spec_run(s, events) =~= seq![a1, a2, a3]);
}

} // verus!
