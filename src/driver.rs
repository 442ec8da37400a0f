use vstd::prelude::*;

use crate::action::ActionPacket;
use crate::schedule::Schedule;
use crate::simulation::{iteration, stamped, SimulationImpl, SimulationView, TickInput};
use crate::simulation_state::SimulationState;
use crate::tick::Tick;

verus! {

/// Where the driver stands in its cycle.
#[derive(Clone, Copy, Debug, PartialEq, Eq, Hash, Structural)]
pub enum DriverPhase {
    /// Not started.
    Idle,
    /// Waiting for the inputs of the next tick.
    Running,
    /// A tick has completed; its state is with the observers.
    Publishing,
}

/// What happened outside the driver.
pub enum DriverEvent {
    /// The loop was entered.
    Start,
    /// The inputs of the next tick were pulled.
    Inputs(TickInput),
    /// Every observer has seen the completed state.
    Published,
}

/// What the driver asks its runner to do next.
pub enum DriverCommand {
    /// Pull the available local actions and delivered packets, without waiting.
    PullInputs,
    /// Hand the completed state to each state-complete observer once, and each
    /// local packet to each local-action observer; `tick` is the tick that
    /// completed.
    Publish { tick: Tick, local_packets: Vec<ActionPacket> },
    /// Wait at least this many milliseconds, then pull the next inputs.
    Sleep { millis: u64 },
    /// The event does not fit the phase; nothing changed.
    Stay,
}

/// The kinds of commands, for specifications.
#[derive(Clone, Copy, Debug, PartialEq, Eq, Hash, Structural)]
pub enum CommandKind {
    PullInputs,
    Publish,
    Sleep,
    Stay,
}

impl DriverCommand {
    pub open spec fn kind(&self) -> CommandKind {
        match self {
            DriverCommand::PullInputs => CommandKind::PullInputs,
            DriverCommand::Publish { .. } => CommandKind::Publish,
            DriverCommand::Sleep { .. } => CommandKind::Sleep,
            DriverCommand::Stay => CommandKind::Stay,
        }
    }
}

/// The kind of command that event `e` in phase `p` gives.
pub open spec fn command_kind(p: DriverPhase, e: EventKind) -> CommandKind {
    match (p, e) {
        (DriverPhase::Idle, EventKind::Start) => CommandKind::PullInputs,
        (DriverPhase::Running, EventKind::Inputs) => CommandKind::Publish,
        (DriverPhase::Publishing, EventKind::Published) => CommandKind::Sleep,
        _ => CommandKind::Stay,
    }
}

/// The kinds of events, for specifications.
#[derive(Clone, Copy, Debug, PartialEq, Eq, Hash, Structural)]
pub enum EventKind {
    Start,
    Inputs,
    Published,
}

impl DriverEvent {
    pub open spec fn kind(&self) -> EventKind {
        match self {
            DriverEvent::Start => EventKind::Start,
            DriverEvent::Inputs(_) => EventKind::Inputs,
            DriverEvent::Published => EventKind::Published,
        }
    }
}

/// The phase after event `e` in phase `p`.
pub open spec fn next_phase(p: DriverPhase, e: EventKind) -> DriverPhase {
    match (p, e) {
        (DriverPhase::Idle, EventKind::Start) => DriverPhase::Running,
        (DriverPhase::Running, EventKind::Inputs) => DriverPhase::Publishing,
        (DriverPhase::Publishing, EventKind::Published) => DriverPhase::Running,
        _ => p,
    }
}

/// Whether event `e` in phase `p` runs a tick, and so asks for its publication.
pub open spec fn runs_tick(p: DriverPhase, e: EventKind) -> bool {
    p == DriverPhase::Running && e == EventKind::Inputs
}

/// The phase after the events of `es`, first to last, from phase `p`.
pub open spec fn phase_after(p: DriverPhase, es: Seq<EventKind>) -> DriverPhase
    decreases es.len(),
{
    if es.len() == 0 {
        p
    } else {
        next_phase(phase_after(p, es.drop_last()), es.last())
    }
}

/// How many ticks the events of `es` run from phase `p`.
pub open spec fn ticks_run(p: DriverPhase, es: Seq<EventKind>) -> nat
    decreases es.len(),
{
    if es.len() == 0 {
        0
    } else {
        ticks_run(p, es.drop_last()) + if runs_tick(phase_after(p, es.drop_last()), es.last()) {
            1nat
        } else {
            0nat
        }
    }
}

/// How many publications the events of `es` ask for from phase `p`.
pub open spec fn publications(p: DriverPhase, es: Seq<EventKind>) -> nat
    decreases es.len(),
{
    if es.len() == 0 {
        0
    } else {
        publications(p, es.drop_last()) + if command_kind(phase_after(p, es.drop_last()), es.last())
            == CommandKind::Publish {
            1nat
        } else {
            0nat
        }
    }
}

/// The simulation `v` after event `e` in phase `p`: one iteration where the
/// event runs a tick, else unchanged.
pub open spec fn simulation_next(p: DriverPhase, v: SimulationView, schedule: Schedule, e: DriverEvent) -> SimulationView {
    match e {
        DriverEvent::Inputs(input) => if runs_tick(p, e.kind()) {
            iteration(v, schedule, input.actions@, input.action_packets@, input.delta_time)
        } else {
            v
        },
        _ => v,
    }
}

/// The kinds of the events of `es`.
pub open spec fn kinds(es: Seq<DriverEvent>) -> Seq<EventKind> {
    es.map_values(|e: DriverEvent| e.kind())
}

/// The simulation `v` after the events of `es`, first to last, from phase `p`.
pub open spec fn simulation_after(
    p: DriverPhase,
    v: SimulationView,
    schedule: Schedule,
    es: Seq<DriverEvent>,
) -> SimulationView
    decreases es.len(),
{
    if es.len() == 0 {
        v
    } else {
        simulation_next(
            phase_after(p, kinds(es.drop_last())),
            simulation_after(p, v, schedule, es.drop_last()),
            schedule,
            es.last(),
        )
    }
}

/// The decisions of the simulation loop. The runner performs each command and
/// reports what came of it as the next event.
pub struct SimulationDriver {
    simulation: SimulationImpl,
    phase: DriverPhase,
    tick_interval_ms: u64,
}

impl SimulationDriver {
    pub closed spec fn simulation_spec(&self) -> SimulationImpl {
        self.simulation
    }

    pub closed spec fn phase_spec(&self) -> DriverPhase {
        self.phase
    }

    pub closed spec fn tick_interval_spec(&self) -> u64 {
        self.tick_interval_ms
    }

    /// An idle driver over `simulation` that waits at least
    /// `tick_interval_ms` milliseconds between ticks.
    pub fn new(simulation: SimulationImpl, tick_interval_ms: u64) -> (r: SimulationDriver)
        ensures
            r.simulation_spec() == simulation,
            r.phase_spec() == DriverPhase::Idle,
            r.tick_interval_spec() == tick_interval_ms,
    {
        SimulationDriver { simulation, phase: DriverPhase::Idle, tick_interval_ms }
    }

    pub fn phase(&self) -> (r: DriverPhase)
        ensures
            r == self.phase_spec(),
    {
        self.phase
    }

    /// The simulation.
    pub fn simulation(&self) -> (r: &SimulationImpl)
        ensures
            *r == self.simulation_spec(),
    {
        &self.simulation
    }

    /// The simulation state, for a state-complete observer. Changes made
    /// through it are what the next tick's schedule runs on.
    pub fn state_mut(&mut self) -> (r: &mut SimulationState)
        ensures
            r@ == old(self).simulation_spec()@.state,
            final(self).simulation_spec()@.state == final(r)@,
            final(self).simulation_spec()@.table == old(self).simulation_spec()@.table,
            final(self).simulation_spec().schedule_spec() == old(
                self,
            ).simulation_spec().schedule_spec(),
            final(self).phase_spec() == old(self).phase_spec(),
            final(self).tick_interval_spec() == old(self).tick_interval_spec(),
    {
        self.simulation.state_mut()
    }

    /// Takes one event and returns the next command.
    pub fn handle(&mut self, event: DriverEvent) -> (r: DriverCommand)
        requires
            runs_tick(old(self).phase_spec(), event.kind()) ==> old(
                self,
            ).simulation_spec()@.state.tick < u64::MAX,
        ensures
            final(self).phase_spec() == next_phase(old(self).phase_spec(), event.kind()),
            final(self).tick_interval_spec() == old(self).tick_interval_spec(),
            final(self).simulation_spec().schedule_spec() == old(
                self,
            ).simulation_spec().schedule_spec(),
            r.kind() == command_kind(old(self).phase_spec(), event.kind()),
            match event {
                DriverEvent::Inputs(input) => runs_tick(old(self).phase_spec(), event.kind()) ==> {
                    &&& final(self).simulation_spec()@ == iteration(
                        old(self).simulation_spec()@,
                        old(self).simulation_spec().schedule_spec(),
                        input.actions@,
                        input.action_packets@,
                        input.delta_time,
                    )
                    &&& r->Publish_tick.0 == old(self).simulation_spec()@.state.tick
                    &&& r->Publish_local_packets@ == stamped(
                        input.actions@,
                        old(self).simulation_spec()@.state.tick,
                    )
                },
                _ => true,
            },
            !runs_tick(old(self).phase_spec(), event.kind()) ==> final(self).simulation_spec()@
                == old(self).simulation_spec()@,
            final(self).simulation_spec()@ == simulation_next(
                old(self).phase_spec(),
                old(self).simulation_spec()@,
                old(self).simulation_spec().schedule_spec(),
                event,
            ),
            (old(self).phase_spec() == DriverPhase::Publishing && event.kind()
                == EventKind::Published) ==> r == (DriverCommand::Sleep {
                millis: old(self).tick_interval_spec(),
            }),
    {
        match (self.phase, event) {
            (DriverPhase::Idle, DriverEvent::Start) => {
                self.phase = DriverPhase::Running;
                DriverCommand::PullInputs
            },
            (DriverPhase::Running, DriverEvent::Inputs(input)) => {
                let tick = self.simulation.state().current_tick();
                let local_packets = self.simulation.advance(&input);
                self.phase = DriverPhase::Publishing;
                DriverCommand::Publish { tick, local_packets }
            },
            (DriverPhase::Publishing, DriverEvent::Published) => {
                self.phase = DriverPhase::Running;
                DriverCommand::Sleep { millis: self.tick_interval_ms }
            },
            _ => DriverCommand::Stay,
        }
    }
}

/// Whatever events arrive, the driver asks for exactly one publication per
/// tick that it runs: never a second one for the same tick, and none without
/// a tick.
pub proof fn lemma_one_publication_per_tick(p: DriverPhase, es: Seq<EventKind>)
    ensures
        publications(p, es) == ticks_run(p, es),
    decreases es.len(),
{
    if es.len() > 0 {
        lemma_one_publication_per_tick(p, es.drop_last());
        let q = phase_after(p, es.drop_last());
        assert((command_kind(q, es.last()) == CommandKind::Publish) == runs_tick(q, es.last()));
    }
}

/// Once a tick's publication is asked for, the next one comes only after the
/// observers are done and another tick has run.
pub proof fn lemma_no_publication_while_publishing(e: EventKind)
    ensures
        command_kind(DriverPhase::Publishing, e) != CommandKind::Publish,
        command_kind(next_phase(DriverPhase::Publishing, e), EventKind::Published)
            != CommandKind::Publish,
{
}

/// Over any sequence of events, the tick grows by exactly the number of
/// ticks run, which is also the number of publications: the state handed to
/// the observers at the `k`-th publication (counting from one) is at tick
/// `t0 + k`.
pub proof fn lemma_tick_over_events(
    p: DriverPhase,
    v: SimulationView,
    schedule: Schedule,
    es: Seq<DriverEvent>,
)
    requires
        v.state.tick + ticks_run(p, kinds(es)) <= u64::MAX,
    ensures
        simulation_after(p, v, schedule, es).state.tick == v.state.tick + ticks_run(p, kinds(es)),
        publications(p, kinds(es)) == ticks_run(p, kinds(es)),
    decreases es.len(),
{
    lemma_one_publication_per_tick(p, kinds(es));
    if es.len() > 0 {
        assert(kinds(es).drop_last() =~= kinds(es.drop_last()));
        assert(kinds(es).last() == es.last().kind());
        lemma_tick_over_events(p, v, schedule, es.drop_last());
    }
}

} // verus!
