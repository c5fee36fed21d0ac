//! The decisions of one monitor loop, as a state machine: the loop's driver
//! performs each returned action and hands the outcome back as an event.
use vstd::prelude::*;
use crate::aggregator::Update;

verus! {

/// Where a monitor loop stands.
#[derive(PartialEq, Eq, Structural, Clone, Copy, Debug)]
pub enum Phase {
    /// The initial run of the producer is in flight.
    Starting,
    /// Waiting for the interval timer or a trigger addressed to this monitor.
    Idle,
    /// A later run of the producer is in flight.
    Busy,
    /// The initial run failed: the monitor is never scheduled again.
    Disabled,
    /// The aggregator is gone: the loop has ended.
    Stopped,
}

/// What happened to a monitor loop.
pub enum Event {
    /// The producer finished with this fragment.
    Succeeded(String),
    /// The producer failed for this reason.
    Failed(String),
    /// The interval timer elapsed.
    Tick,
    /// A trigger for the monitor with this id arrived on the trigger bus.
    Triggered(String),
    /// An update could not be delivered: the aggregator's queue is closed.
    Closed,
}

/// What the driver of a monitor loop does next.
pub enum Action {
    /// Run the producer once.
    Run,
    /// Send this update to the aggregator, then wait for the next wake-up.
    Publish(Update),
    /// Log that the monitor is disabled for this reason, and end the loop.
    Disable(String),
    /// Log this failure of a run, then wait for the next wake-up.
    Report(String),
    /// Wait for the next wake-up.
    Wait,
    /// End the loop.
    Exit,
}

/// The spec form of an event, over character sequences.
pub enum EventSpec {
    Succeeded(Seq<char>),
    Failed(Seq<char>),
    Tick,
    Triggered(Seq<char>),
    Closed,
}

/// The spec form of an action, over character sequences.
pub enum ActionSpec {
    Run,
    Publish(Seq<char>, Seq<char>),
    Disable(Seq<char>),
    Report(Seq<char>),
    Wait,
    Exit,
}

impl Event {
    pub open spec fn spec(&self) -> EventSpec {
        match self {
            Event::Succeeded(v) => EventSpec::Succeeded(v@),
            Event::Failed(e) => EventSpec::Failed(e@),
            Event::Tick => EventSpec::Tick,
            Event::Triggered(t) => EventSpec::Triggered(t@),
            Event::Closed => EventSpec::Closed,
        }
    }
}

impl Action {
    pub open spec fn spec(&self) -> ActionSpec {
        match self {
            Action::Run => ActionSpec::Run,
            Action::Publish(u) => ActionSpec::Publish(u.id@, u.value@),
            Action::Disable(e) => ActionSpec::Disable(e@),
            Action::Report(e) => ActionSpec::Report(e@),
            Action::Wait => ActionSpec::Wait,
            Action::Exit => ActionSpec::Exit,
        }
    }
}

/// One step of the loop of monitor `id`: the next phase and the action.
///
/// The initial run decides for good: its failure disables the monitor. A
/// later failure is only reported. A run starts only from `Idle`, on a tick
/// or on a trigger that names `id`, so at most one run is ever in flight.
pub open spec fn step(id: Seq<char>, p: Phase, e: EventSpec) -> (Phase, ActionSpec) {
    match p {
        Phase::Disabled => (Phase::Disabled, ActionSpec::Exit),
        Phase::Stopped => (Phase::Stopped, ActionSpec::Exit),
        _ => match e {
            EventSpec::Closed => (Phase::Stopped, ActionSpec::Exit),
            EventSpec::Succeeded(v) => match p {
                Phase::Idle => (Phase::Idle, ActionSpec::Wait),
                _ => (Phase::Idle, ActionSpec::Publish(id, v)),
            },
            EventSpec::Failed(r) => match p {
                Phase::Starting => (Phase::Disabled, ActionSpec::Disable(r)),
                Phase::Busy => (Phase::Idle, ActionSpec::Report(r)),
                _ => (p, ActionSpec::Wait),
            },
            EventSpec::Tick => match p {
                Phase::Idle => (Phase::Busy, ActionSpec::Run),
                _ => (p, ActionSpec::Wait),
            },
            EventSpec::Triggered(t) => match p {
                Phase::Idle => if t == id {
                    (Phase::Busy, ActionSpec::Run)
                } else {
                    (Phase::Idle, ActionSpec::Wait)
                },
                _ => (p, ActionSpec::Wait),
            },
        },
    }
}

/// The phase after events `es`, starting from `p`.
pub open spec fn phase_after(id: Seq<char>, p: Phase, es: Seq<EventSpec>) -> Phase
    decreases es.len(),
{
    if es.len() == 0 {
        p
    } else {
        step(id, phase_after(id, p, es.drop_last()), es.last()).0
    }
}

/// The actions taken on events `es`, starting from `p`, one per event.
pub open spec fn actions(id: Seq<char>, p: Phase, es: Seq<EventSpec>) -> Seq<ActionSpec>
    decreases es.len(),
{
    if es.len() == 0 {
        Seq::empty()
    } else {
        actions(id, p, es.drop_last()).push(step(id, phase_after(id, p, es.drop_last()), es.last()).1)
    }
}

proof fn lemma_actions_len(id: Seq<char>, p: Phase, es: Seq<EventSpec>)
    ensures
        actions(id, p, es).len() == es.len(),
    decreases es.len(),
{
    if es.len() > 0 {
        lemma_actions_len(id, p, es.drop_last());
    }
}

/// Whether the monitor is still scheduled.
pub open spec fn is_live(p: Phase) -> bool {
    p == Phase::Starting || p == Phase::Idle || p == Phase::Busy
}

/// A monitor whose initial run fails publishes nothing, whatever events
/// follow, triggers included, and stays disabled.
pub proof fn lemma_failed_start_never_publishes(id: Seq<char>, es: Seq<EventSpec>)
    requires
        es.len() > 0,
        es[0] is Failed,
    ensures
        phase_after(id, Phase::Starting, es) == Phase::Disabled,
        forall|i: int| 0 <= i < es.len() ==> !(#[trigger] actions(id, Phase::Starting, es)[i] is Publish),
    decreases es.len(),
{
    lemma_actions_len(id, Phase::Starting, es);
    if es.len() == 1 {
        assert(es.drop_last() =~= Seq::<EventSpec>::empty());
    } else {
        lemma_failed_start_never_publishes(id, es.drop_last());
        assert(es.drop_last()[0] == es[0]);
    }
}

/// Once a monitor has started successfully it is never disabled: failures
/// of later runs are reported, publish nothing, and leave it scheduled
/// until the aggregator is gone.
pub proof fn lemma_started_never_disabled(id: Seq<char>, p: Phase, es: Seq<EventSpec>)
    requires
        p == Phase::Idle || p == Phase::Busy,
    ensures
        phase_after(id, p, es) != Phase::Disabled,
        phase_after(id, p, es) != Phase::Starting,
        forall|i: int| 0 <= i < es.len() && (#[trigger] es[i]) is Failed ==> !(actions(id, p, es)[i] is Publish)
            && !(actions(id, p, es)[i] is Disable),
    decreases es.len(),
{
    lemma_actions_len(id, p, es);
    if es.len() > 0 {
        let prev = es.drop_last();
        lemma_actions_len(id, p, prev);
        lemma_started_never_disabled(id, p, prev);
        assert forall|i: int| 0 <= i < es.len() && (#[trigger] es[i]) is Failed implies !(actions(
            id,
            p,
            es,
        )[i] is Publish) && !(actions(id, p, es)[i] is Disable) by {
            if i < prev.len() {
                assert(prev[i] == es[i]);
            }
        }
    }
}

/// Every update that the loop of monitor `id` publishes carries `id`.
pub proof fn lemma_publishes_own_id(id: Seq<char>, p: Phase, es: Seq<EventSpec>)
    ensures
        forall|i: int|
            0 <= i < actions(id, p, es).len() && (#[trigger] actions(id, p, es)[i]) is Publish
                ==> actions(id, p, es)[i]->Publish_0 == id,
    decreases es.len(),
{
    lemma_actions_len(id, p, es);
    if es.len() > 0 {
        let prev = es.drop_last();
        lemma_actions_len(id, p, prev);
        lemma_publishes_own_id(id, p, prev);
        assert forall|i: int|
            0 <= i < actions(id, p, es).len() && (#[trigger] actions(id, p, es)[i]) is Publish
                implies actions(id, p, es)[i]->Publish_0 == id by {
            if i < prev.len() {
                assert(actions(id, p, es)[i] == actions(id, p, prev)[i]);
            }
        }
    }
}

/// A trigger that names another monitor has no effect on an idle loop.
pub proof fn lemma_foreign_trigger_ignored(id: Seq<char>, t: Seq<char>)
    requires
        t != id,
    ensures
        step(id, Phase::Idle, EventSpec::Triggered(t)) == (Phase::Idle, ActionSpec::Wait),
{
}

/// A run is requested only from an idle loop, which then waits for that
/// run: two runs of one monitor never overlap.
pub proof fn lemma_single_run_in_flight(id: Seq<char>, p: Phase, e: EventSpec)
    ensures
        step(id, p, e).1 is Run ==> p == Phase::Idle && step(id, p, e).0 == Phase::Busy,
        (p == Phase::Starting || p == Phase::Busy) ==> !(step(id, p, e).1 is Run),
{
}

/// The loop of one monitor.
pub struct MonitorLoop {
    id: String,
    phase: Phase,
}

impl MonitorLoop {
    pub closed spec fn id(&self) -> Seq<char> {
        self.id@
    }

    pub closed spec fn phase(&self) -> Phase {
        self.phase
    }

    /// The loop of monitor `id`, whose initial run the driver starts at once.
    pub fn new(id: String) -> (r: MonitorLoop)
        ensures
            r.id() == id@,
            r.phase() == Phase::Starting,
    {
        MonitorLoop { id, phase: Phase::Starting }
    }

    /// Where the loop stands.
    pub fn current_phase(&self) -> (r: Phase)
        ensures
            r == self.phase(),
    {
        self.phase
    }

    /// Whether the loop is still scheduled.
    pub fn is_live(&self) -> (r: bool)
        ensures
            r == is_live(self.phase()),
    {
        match self.phase {
            Phase::Starting | Phase::Idle | Phase::Busy => true,
            _ => false,
        }
    }

    /// Takes one event and says what to do next.
    pub fn handle(&mut self, event: Event) -> (r: Action)
        ensures
            final(self).id() == old(self).id(),
            (final(self).phase(), r.spec()) == step(old(self).id(), old(self).phase(), event.spec()),
    {
        match self.phase {
            Phase::Disabled | Phase::Stopped => Action::Exit,
            Phase::Starting => match event {
                Event::Succeeded(v) => {
                    self.phase = Phase::Idle;
                    Action::Publish(Update { id: self.id.clone(), value: v })
                },
                Event::Failed(e) => {
                    self.phase = Phase::Disabled;
                    Action::Disable(e)
                },
                Event::Closed => {
                    self.phase = Phase::Stopped;
                    Action::Exit
                },
                _ => Action::Wait,
            },
            Phase::Busy => match event {
                Event::Succeeded(v) => {
                    self.phase = Phase::Idle;
                    Action::Publish(Update { id: self.id.clone(), value: v })
                },
                Event::Failed(e) => {
                    self.phase = Phase::Idle;
                    Action::Report(e)
                },
                Event::Closed => {
                    self.phase = Phase::Stopped;
                    Action::Exit
                },
                _ => Action::Wait,
            },
            Phase::Idle => match event {
                Event::Tick => {
                    self.phase = Phase::Busy;
                    Action::Run
                },
                Event::Triggered(t) => {
                    if t == self.id {
                        self.phase = Phase::Busy;
                        Action::Run
                    } else {
                        Action::Wait
                    }
                },
                Event::Closed => {
                    self.phase = Phase::Stopped;
                    Action::Exit
                },
                _ => Action::Wait,
            },
        }
    }
}

} // verus!
