use vstd::prelude::*;

use crate::action::{Action, Actions};
use crate::components::DeltaTime;
use crate::schedule::Schedule;
use crate::tick::Tick;
use crate::world::{EntityRecord, World};

verus! {

/// The mathematical content of a `SimulationState`.
pub struct StateView {
    pub world: Seq<EntityRecord>,
    pub tick: u64,
    pub delta_time: DeltaTime,
    pub actions: Seq<Action>,
}

/// The store, the current tick, and the inputs loaded for the tick being processed.
pub struct SimulationState {
    world: World,
    tick: Tick,
    delta_time: DeltaTime,
    actions: Vec<Action>,
}

impl View for SimulationState {
    type V = StateView;

    closed spec fn view(&self) -> StateView {
        StateView {
            world: self.world@,
            tick: self.tick.0,
            delta_time: self.delta_time,
            actions: self.actions@,
        }
    }
}

impl SimulationState {
    /// A state at tick zero over an empty world.
    pub fn new() -> (r: SimulationState)
        ensures
            r@ == (StateView {
                world: Seq::empty(),
                tick: 0,
                delta_time: DeltaTime(0),
                actions: Seq::empty(),
            }),
    {
        SimulationState::with_world(World::new(), Tick(0))
    }

    /// A state at `tick` over `world`, with no inputs loaded.
    pub fn with_world(world: World, tick: Tick) -> (r: SimulationState)
        ensures
            r@ == (StateView {
                world: world@,
                tick: tick.0,
                delta_time: DeltaTime(0),
                actions: Seq::empty(),
            }),
    {
        SimulationState { world, tick, delta_time: DeltaTime(0), actions: Vec::new() }
    }

    /// The tick being processed.
    pub fn current_tick(&self) -> (r: Tick)
        ensures
            r.0 == self@.tick,
    {
        self.tick
    }

    /// The delta-time loaded for the tick being processed.
    pub fn delta_time(&self) -> (r: DeltaTime)
        ensures
            r == self@.delta_time,
    {
        self.delta_time
    }

    /// The actions loaded for the tick being processed.
    pub fn actions(&self) -> (r: &Vec<Action>)
        ensures
            r@ == self@.actions,
    {
        &self.actions
    }

    /// The store.
    pub fn world(&self) -> (r: &World)
        ensures
            r@ == self@.world,
    {
        &self.world
    }

    /// The store, for changes.
    pub fn world_mut(&mut self) -> (r: &mut World)
        ensures
            r@ == old(self)@.world,
            final(self)@ == (StateView { world: final(r)@, ..old(self)@ }),
    {
        &mut self.world
    }

    /// Replaces the loaded actions.
    pub fn load_actions(&mut self, actions: Actions)
        ensures
            final(self)@ == (StateView { actions: actions.0@, ..old(self)@ }),
    {
        self.actions = actions.0;
    }

    /// Replaces the loaded delta-time.
    pub fn load_delta_time(&mut self, delta_time: DeltaTime)
        ensures
            final(self)@ == (StateView { delta_time, ..old(self)@ }),
    {
        self.delta_time = delta_time;
    }

    /// Moves on to the next tick.
    pub fn advance_tick(&mut self)
        requires
            old(self)@.tick < u64::MAX,
        ensures
            final(self)@ == (StateView { tick: (old(self)@.tick + 1) as u64, ..old(self)@ }),
    {
        self.tick = self.tick.next();
    }

    /// Runs `schedule` once over the store, with the loaded actions and delta-time.
    pub fn run_schedule(&mut self, schedule: &Schedule)
        ensures
            final(self)@ == (StateView {
                world: schedule.effect(old(self)@.world, old(self)@.actions, old(self)@.delta_time),
                ..old(self)@
            }),
    {
        schedule.run(&mut self.world, &self.actions, self.delta_time);
    }
}

} // verus!
