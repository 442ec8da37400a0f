use vstd::prelude::*;

use crate::action::{Action, ActionPacket, Actions};
use crate::action_table::{
    actions_for, drained, lemma_submitted_keys, lemma_two_producers_drain, pending, submitted_all,
    ActionTable,
};
use crate::components::DeltaTime;
use crate::schedule::Schedule;
use crate::simulation_state::{SimulationState, StateView};
use crate::tick::Tick;

verus! {

/// What one iteration of the driver takes in: the local actions, the packets
/// delivered from outside, and the time since the previous iteration began.
pub struct TickInput {
    pub actions: Vec<Action>,
    pub action_packets: Vec<ActionPacket>,
    pub delta_time: DeltaTime,
}

/// The mathematical content of a `SimulationImpl`.
pub struct SimulationView {
    pub state: StateView,
    pub table: Map<u64, Seq<Action>>,
}

/// `actions`, each stamped with tick `t`.
pub open spec fn stamped(actions: Seq<Action>, t: u64) -> Seq<ActionPacket> {
    Seq::new(actions.len(), |i: int| ActionPacket { tick: Tick(t), action: actions[i] })
}

/// How far ahead of the current tick a delivered packet may be tagged. A
/// packet tagged further ahead is rejected, so that a misbehaving producer
/// cannot make the action table grow without bound.
pub const MAX_TICKS_AHEAD: u64 = 1000;

/// Whether a packet tagged `tag` is accepted at tick `t`: it is neither late
/// nor too far ahead.
pub open spec fn accepted(tag: u64, t: u64) -> bool {
    t <= tag <= t + MAX_TICKS_AHEAD
}

/// The packets of `ps` that are accepted at tick `t`, in order.
pub open spec fn timely(ps: Seq<ActionPacket>, t: u64) -> Seq<ActionPacket>
    decreases ps.len(),
{
    if ps.len() == 0 {
        Seq::empty()
    } else if accepted(ps.last().tick.0, t) {
        timely(ps.drop_last(), t).push(ps.last())
    } else {
        timely(ps.drop_last(), t)
    }
}

/// `v` after the intake of a tick: local actions stamped with the current
/// tick are submitted, then the delivered packets that are not late, and the
/// current tick's actions are drained into the state. A packet tagged with a
/// tick that has already been processed, or more than `MAX_TICKS_AHEAD`
/// ticks ahead, is dropped.
pub open spec fn after_intake(
    v: SimulationView,
    actions: Seq<Action>,
    packets: Seq<ActionPacket>,
) -> SimulationView {
    let t = v.state.tick;
    let table = submitted_all(submitted_all(v.table, stamped(actions, t)), timely(packets, t));
    SimulationView {
        state: StateView { actions: pending(table, t), ..v.state },
        table: drained(table, t),
    }
}

/// `v` after the schedule ran with delta-time `dt` and the tick advanced.
pub open spec fn after_step(v: SimulationView, schedule: Schedule, dt: DeltaTime) -> SimulationView {
    SimulationView {
        state: StateView {
            world: schedule.effect(v.state.world, v.state.actions, dt),
            tick: (v.state.tick + 1) as u64,
            delta_time: dt,
            actions: v.state.actions,
        },
        table: v.table,
    }
}

/// `v` after one full iteration with the given inputs.
pub open spec fn iteration(
    v: SimulationView,
    schedule: Schedule,
    actions: Seq<Action>,
    packets: Seq<ActionPacket>,
    dt: DeltaTime,
) -> SimulationView {
    after_step(after_intake(v, actions, packets), schedule, dt)
}

/// `v` after one iteration for each input, first to last.
pub open spec fn iterations(v: SimulationView, schedule: Schedule, inputs: Seq<TickInput>) -> SimulationView
    decreases inputs.len(),
{
    if inputs.len() == 0 {
        v
    } else {
        let last = inputs.last();
        iteration(
            iterations(v, schedule, inputs.drop_last()),
            schedule,
            last.actions@,
            last.action_packets@,
            last.delta_time,
        )
    }
}

/// The packets accepted at tick `earliest`, in order.
fn timely_packets(packets: &Vec<ActionPacket>, earliest: Tick) -> (r: Vec<ActionPacket>)
    ensures
        r@ == timely(packets@, earliest.0),
{
    let mut r: Vec<ActionPacket> = Vec::new();
    let mut i: usize = 0;
    while i < packets.len()
        invariant
            i <= packets@.len(),
            r@ == timely(packets@.take(i as int), earliest.0),
        decreases packets@.len() - i,
    {
        assert(packets@.take(i + 1).drop_last() =~= packets@.take(i as int));
        if packets[i].tick.0 >= earliest.0 && packets[i].tick.0 - earliest.0 <= MAX_TICKS_AHEAD {
            r.push(packets[i]);
        }
        i += 1;
    }
    assert(packets@.take(i as int) =~= packets@);
    r
}

/// The simulation: its state, its schedule, and the actions waiting for later ticks.
pub struct SimulationImpl {
    simulation_state: SimulationState,
    schedule: Schedule,
    action_table: ActionTable,
}

impl View for SimulationImpl {
    type V = SimulationView;

    closed spec fn view(&self) -> SimulationView {
        SimulationView { state: self.simulation_state@, table: self.action_table@ }
    }
}

impl SimulationImpl {
    /// The schedule that each iteration runs.
    pub closed spec fn schedule_spec(&self) -> Schedule {
        self.schedule
    }

    pub open spec fn wf(&self) -> bool {
        self.schedule_spec().wf()
    }

    pub fn new(simulation_state: SimulationState, schedule: Schedule, action_table: ActionTable) -> (r:
        SimulationImpl)
        requires
            schedule.wf(),
        ensures
            r.wf(),
            r@ == (SimulationView { state: simulation_state@, table: action_table@ }),
            r.schedule_spec() == schedule,
    {
        SimulationImpl { simulation_state, schedule, action_table }
    }

    /// The current state.
    pub fn state(&self) -> (r: &SimulationState)
        ensures
            r@ == self@.state,
    {
        &self.simulation_state
    }

    /// The current state, for changes by a state-complete observer.
    pub fn state_mut(&mut self) -> (r: &mut SimulationState)
        ensures
            r@ == old(self)@.state,
            final(self)@ == (SimulationView { state: final(r)@, ..old(self)@ }),
            final(self).schedule_spec() == old(self).schedule_spec(),
    {
        &mut self.simulation_state
    }

    /// The actions waiting for later ticks.
    pub fn action_table(&self) -> (r: &ActionTable)
        ensures
            r@ == self@.table,
    {
        &self.action_table
    }

    /// Stamps the local actions with the current tick and submits them, then
    /// the delivered packets, dropping those tagged with an earlier tick or
    /// more than `MAX_TICKS_AHEAD` ticks ahead;
    /// drains the current tick's actions into the state. Local actions and
    /// delivered packets meet here: within each stream the order is kept, and
    /// local actions come first. Returns the stamped local packets, for
    /// publication.
    pub fn handle_actions(&mut self, actions: &Vec<Action>, action_packets: &Vec<ActionPacket>) -> (r:
        Vec<ActionPacket>)
        ensures
            r@ == stamped(actions@, old(self)@.state.tick),
            final(self)@ == after_intake(old(self)@, actions@, action_packets@),
            final(self).schedule_spec() == old(self).schedule_spec(),
    {
        let tick = self.simulation_state.current_tick();
        let mut local: Vec<ActionPacket> = Vec::new();
        let mut i: usize = 0;
        while i < actions.len()
            invariant
                i <= actions@.len(),
                local@ == stamped(actions@.take(i as int), tick.0),
            decreases actions@.len() - i,
        {
            local.push(ActionPacket::new(tick, actions[i]));
            assert(local@ =~= stamped(actions@.take(i + 1), tick.0));
            i += 1;
        }
        assert(actions@.take(i as int) =~= actions@);
        self.action_table.submit_packets(&local);
        let on_time = timely_packets(action_packets, tick);
        self.action_table.submit_packets(&on_time);
        let current = self.action_table.drain(tick);
        self.simulation_state.load_actions(Actions(current));
        local
    }

    /// Runs the schedule once with delta-time `dt`, then advances the tick.
    pub fn step_simulation(&mut self, dt: DeltaTime)
        requires
            old(self)@.state.tick < u64::MAX,
        ensures
            final(self)@ == after_step(old(self)@, old(self).schedule_spec(), dt),
            final(self).schedule_spec() == old(self).schedule_spec(),
    {
        self.simulation_state.load_delta_time(dt);
        self.simulation_state.run_schedule(&self.schedule);
        self.simulation_state.advance_tick();
    }

    /// One iteration: intake, schedule run, tick advance. Returns the local
    /// packets, for publication.
    pub fn advance(&mut self, input: &TickInput) -> (r: Vec<ActionPacket>)
        requires
            old(self)@.state.tick < u64::MAX,
        ensures
            r@ == stamped(input.actions@, old(self)@.state.tick),
            final(self)@ == iteration(
                old(self)@,
                old(self).schedule_spec(),
                input.actions@,
                input.action_packets@,
                input.delta_time,
            ),
            final(self).schedule_spec() == old(self).schedule_spec(),
    {
        let local = self.handle_actions(&input.actions, &input.action_packets);
        self.step_simulation(input.delta_time);
        local
    }
}

/// Assembles a simulation: an empty world at tick zero, an empty action
/// table, and a schedule that the caller fills before building.
pub struct SimulationImplBuilder {
    simulation: SimulationImpl,
}

impl SimulationImplBuilder {
    pub closed spec fn simulation_spec(&self) -> SimulationImpl {
        self.simulation
    }

    pub fn new() -> (r: SimulationImplBuilder)
        ensures
            r.simulation_spec()@.state.world == Seq::<crate::world::EntityRecord>::empty(),
            r.simulation_spec()@.state.tick == 0,
            r.simulation_spec()@.state.actions == Seq::<Action>::empty(),
            r.simulation_spec()@.table == Map::<u64, Seq<Action>>::empty(),
            r.simulation_spec().schedule_spec().action_systems() == Seq::<
                crate::schedule::System,
            >::empty(),
            r.simulation_spec().schedule_spec().physics_systems() == Seq::<
                crate::schedule::System,
            >::empty(),
    {
        SimulationImplBuilder {
            simulation: SimulationImpl {
                simulation_state: SimulationState::new(),
                schedule: Schedule::new(),
                action_table: ActionTable::new(),
            },
        }
    }

    /// The schedule being assembled.
    pub fn schedule(&mut self) -> (r: &mut Schedule)
        ensures
            *r == old(self).simulation_spec().schedule_spec(),
            final(self).simulation_spec().schedule_spec() == *final(r),
            final(self).simulation_spec()@ == old(self).simulation_spec()@,
    {
        &mut self.simulation.schedule
    }

    pub fn build(self) -> (r: SimulationImpl)
        requires
            self.simulation_spec().schedule_spec().wf(),
        ensures
            r == self.simulation_spec(),
            r.wf(),
    {
        self.simulation
    }
}

/// Stamping local actions with tick `t` and picking those tagged with `t`
/// gives back the actions themselves, in order.
pub proof fn lemma_stamped_actions_for(actions: Seq<Action>, t: u64)
    ensures
        actions_for(stamped(actions, t), t) == actions,
        forall|u: u64| u != t ==> #[trigger] actions_for(stamped(actions, t), u) == Seq::<Action>::empty(),
    decreases actions.len(),
{
    if actions.len() > 0 {
        lemma_stamped_actions_for(actions.drop_last(), t);
        assert(stamped(actions, t).drop_last() =~= stamped(actions.drop_last(), t));
        assert(actions.drop_last().push(actions.last()) =~= actions);
        assert forall|u: u64| u != t implies #[trigger] actions_for(stamped(actions, t), u)
            == Seq::<Action>::empty() by {
            assert(actions_for(stamped(actions.drop_last(), t), u) == Seq::<Action>::empty());
        }
    } else {
        assert(stamped(actions, t) =~= Seq::<ActionPacket>::empty());
    }
}

/// Dropping the packets not accepted at `t` keeps, for each tick accepted
/// there, exactly the actions tagged with it, and leaves none for other ticks.
pub proof fn lemma_timely_actions_for(ps: Seq<ActionPacket>, t: u64, u: u64)
    ensures
        actions_for(timely(ps, t), u) == (if accepted(u, t) {
            actions_for(ps, u)
        } else {
            Seq::<Action>::empty()
        }),
    decreases ps.len(),
{
    if ps.len() > 0 {
        lemma_timely_actions_for(ps.drop_last(), t, u);
        if accepted(ps.last().tick.0, t) {
            assert(timely(ps, t).drop_last() =~= timely(ps.drop_last(), t));
        }
    }
}

/// The intake of a tick loads exactly: what already waited for the current
/// tick, then the local actions of this tick, then the delivered actions
/// tagged with it. Every later tick within reach keeps what waited for it,
/// followed by the delivered actions tagged with it; nothing is applied
/// before its tick. An earlier tick, or one too far ahead, gains nothing.
pub proof fn lemma_intake(v: SimulationView, actions: Seq<Action>, packets: Seq<ActionPacket>)
    ensures
        after_intake(v, actions, packets).state.actions == pending(v.table, v.state.tick) + actions
            + actions_for(packets, v.state.tick),
        pending(after_intake(v, actions, packets).table, v.state.tick) == Seq::<Action>::empty(),
        forall|u: u64|
            u != v.state.tick && accepted(u, v.state.tick) ==> #[trigger] pending(
                after_intake(v, actions, packets).table,
                u,
            ) == pending(v.table, u) + actions_for(packets, u),
        forall|u: u64|
            !accepted(u, v.state.tick) ==> #[trigger] pending(
                after_intake(v, actions, packets).table,
                u,
            ) == pending(v.table, u),
{
    let t = v.state.tick;
    let local = stamped(actions, t);
    let on_time = timely(packets, t);
    lemma_stamped_actions_for(actions, t);
    lemma_two_producers_drain(v.table, local, on_time, t);
    lemma_timely_actions_for(packets, t, t);
    assert forall|u: u64| u != t implies #[trigger] pending(
        after_intake(v, actions, packets).table,
        u,
    ) == pending(v.table, u) + (if accepted(u, t) {
        actions_for(packets, u)
    } else {
        Seq::<Action>::empty()
    }) by {
        lemma_two_producers_drain(v.table, local, on_time, u);
        lemma_timely_actions_for(packets, t, u);
        assert(actions_for(local, u) == Seq::<Action>::empty());
        assert(pending(v.table, u) + Seq::<Action>::empty() =~= pending(v.table, u));
    }
    assert forall|u: u64| !accepted(u, t) implies #[trigger] pending(
        after_intake(v, actions, packets).table,
        u,
    ) == pending(v.table, u) by {
        assert(pending(v.table, u) + Seq::<Action>::empty() =~= pending(v.table, u));
    }
}

/// No actions wait for a tick that has been processed: if none waited for a
/// tick before the current one, none waits for a tick before the next one
/// after an iteration.
pub proof fn lemma_no_past_entries(
    v: SimulationView,
    schedule: Schedule,
    actions: Seq<Action>,
    packets: Seq<ActionPacket>,
    dt: DeltaTime,
)
    requires
        v.state.tick < u64::MAX,
        forall|u: u64| u < v.state.tick ==> !#[trigger] v.table.contains_key(u),
    ensures
        forall|u: u64|
            u < iteration(v, schedule, actions, packets, dt).state.tick ==> !#[trigger] iteration(
                v,
                schedule,
                actions,
                packets,
                dt,
            ).table.contains_key(u),
{
    let t = v.state.tick;
    let local = stamped(actions, t);
    let on_time = timely(packets, t);
    let table = submitted_all(submitted_all(v.table, local), on_time);
    assert forall|u: u64| u < t implies !#[trigger] table.contains_key(u) by {
        lemma_submitted_keys(v.table, local, u);
        lemma_submitted_keys(submitted_all(v.table, local), on_time, u);
        lemma_stamped_actions_for(actions, t);
        lemma_timely_actions_for(packets, t, u);
    }
}

/// Each iteration advances the tick by exactly one: after `n` iterations the
/// tick has grown by `n`.
pub proof fn lemma_tick_count(v: SimulationView, schedule: Schedule, inputs: Seq<TickInput>)
    requires
        v.state.tick + inputs.len() <= u64::MAX,
    ensures
        iterations(v, schedule, inputs).state.tick == v.state.tick + inputs.len(),
    decreases inputs.len(),
{
    if inputs.len() > 0 {
        lemma_tick_count(v, schedule, inputs.drop_last());
    }
}

} // verus!

verus! {

/// What the iteration run at tick `t`, with local `actions` and delivered
/// `packets`, submits for tick `u`, in order.
pub open spec fn submitted_for_tick(
    actions: Seq<Action>,
    packets: Seq<ActionPacket>,
    t: u64,
    u: u64,
) -> Seq<Action> {
    (if u == t {
        actions
    } else {
        Seq::empty()
    }) + (if accepted(u, t) {
        actions_for(packets, u)
    } else {
        Seq::empty()
    })
}

/// What the iterations of `inputs`, the first run at tick `t0`, submit for
/// tick `u`, in order.
pub open spec fn submitted_over(inputs: Seq<TickInput>, t0: u64, u: u64) -> Seq<Action>
    decreases inputs.len(),
{
    if inputs.len() == 0 {
        Seq::empty()
    } else {
        let last = inputs.last();
        submitted_over(inputs.drop_last(), t0, u) + submitted_for_tick(
            last.actions@,
            last.action_packets@,
            (t0 + inputs.len() - 1) as u64,
            u,
        )
    }
}

/// Over any number of iterations, every tick not yet reached keeps what
/// waited for it, followed by everything that the iterations submitted for
/// it, in order: nothing is applied before its tick.
pub proof fn lemma_pending_over_iterations(
    v: SimulationView,
    schedule: Schedule,
    inputs: Seq<TickInput>,
    u: u64,
)
    requires
        v.state.tick + inputs.len() <= u64::MAX,
        u >= v.state.tick + inputs.len(),
    ensures
        iterations(v, schedule, inputs).state.tick == v.state.tick + inputs.len(),
        pending(iterations(v, schedule, inputs).table, u) == pending(v.table, u) + submitted_over(
            inputs,
            v.state.tick,
            u,
        ),
    decreases inputs.len(),
{
    let t0 = v.state.tick;
    if inputs.len() == 0 {
        assert(pending(v.table, u) + Seq::<Action>::empty() =~= pending(v.table, u));
    } else {
        let pre = inputs.drop_last();
        let last = inputs.last();
        lemma_pending_over_iterations(v, schedule, pre, u);
        let w = iterations(v, schedule, pre);
        let t = w.state.tick;
        assert(t == t0 + inputs.len() - 1);
        lemma_intake(w, last.actions@, last.action_packets@);
        let a = pending(v.table, u);
        let b = submitted_over(pre, t0, u);
        let c = submitted_for_tick(last.actions@, last.action_packets@, t, u);
        if accepted(u, t) {
            assert(c =~= actions_for(last.action_packets@, u));
        } else {
            assert(c =~= Seq::<Action>::empty());
            assert(a + b + c =~= a + b);
        }
        assert(a + b + c =~= a + (b + c));
    }
}

/// Iteration `k` of a run that starts at tick `t0` loads exactly what waited
/// for tick `t0 + k` before the run, followed by everything that the
/// iterations up to and including `k` submitted for that tick, in order. So
/// each action is applied in the one iteration whose tick it carries, and in
/// no other.
pub proof fn lemma_loaded_in_iteration(
    v: SimulationView,
    schedule: Schedule,
    inputs: Seq<TickInput>,
    k: int,
)
    requires
        v.state.tick + inputs.len() <= u64::MAX,
        0 <= k < inputs.len(),
    ensures
        iterations(v, schedule, inputs.take(k + 1)).state.tick == v.state.tick + k + 1,
        iterations(v, schedule, inputs.take(k + 1)).state.actions == pending(
            v.table,
            (v.state.tick + k) as u64,
        ) + submitted_over(inputs.take(k + 1), v.state.tick, (v.state.tick + k) as u64),
{
    let t0 = v.state.tick;
    let t = (t0 + k) as u64;
    let pre = inputs.take(k);
    assert(inputs.take(k + 1).drop_last() =~= pre);
    let last = inputs[k];
    lemma_pending_over_iterations(v, schedule, pre, t);
    let w = iterations(v, schedule, pre);
    lemma_intake(w, last.actions@, last.action_packets@);
    let a = pending(v.table, t);
    let b = submitted_over(pre, t0, t);
    let c = submitted_for_tick(last.actions@, last.action_packets@, t, t);
    assert(c =~= last.actions@ + actions_for(last.action_packets@, t));
    assert(a + b + last.actions@ + actions_for(last.action_packets@, t) =~= a + (b + c));
}

/// A call on a simulation, for stating what holds over any sequence of them.
pub enum SimulationCall {
    /// `handle_actions` with these local actions and delivered packets.
    Intake { actions: Seq<Action>, packets: Seq<ActionPacket> },
    /// `step_simulation` with this delta-time.
    Step { dt: DeltaTime },
}

/// `v` after the calls of `calls`, first to last.
pub open spec fn after_calls(v: SimulationView, schedule: Schedule, calls: Seq<SimulationCall>) -> SimulationView
    decreases calls.len(),
{
    if calls.len() == 0 {
        v
    } else {
        let prev = after_calls(v, schedule, calls.drop_last());
        match calls.last() {
            SimulationCall::Intake { actions, packets } => after_intake(prev, actions, packets),
            SimulationCall::Step { dt } => after_step(prev, schedule, dt),
        }
    }
}

/// How many steps `calls` holds.
pub open spec fn steps_in(calls: Seq<SimulationCall>) -> nat
    decreases calls.len(),
{
    if calls.len() == 0 {
        0
    } else {
        steps_in(calls.drop_last()) + if calls.last() is Step {
            1nat
        } else {
            0nat
        }
    }
}

/// The tick grows by exactly one per step, whatever intakes come between:
/// after any sequence of calls it has grown by the number of steps.
pub proof fn lemma_tick_over_calls(v: SimulationView, schedule: Schedule, calls: Seq<SimulationCall>)
    requires
        v.state.tick + steps_in(calls) <= u64::MAX,
    ensures
        after_calls(v, schedule, calls).state.tick == v.state.tick + steps_in(calls),
    decreases calls.len(),
{
    if calls.len() > 0 {
        lemma_tick_over_calls(v, schedule, calls.drop_last());
    }
}

} // verus!
